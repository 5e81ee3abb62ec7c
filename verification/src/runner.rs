//! What one run of a binary under test produced, and the byte comparison
//! that judges its output against the expected output.

use vstd::prelude::*;

verus! {

/// What running a binary produced. The process launch, the feeding of stdin
/// and the timeout enforcement happen outside the library; the library is
/// handed the captured result.
pub enum RunOutcome {
    /// The process exited within the timeout; both streams captured in full.
    Completed { exit_code: i32, stdout: Vec<u8>, stderr: Vec<u8> },
    /// The process was forcibly terminated after the timeout elapsed.
    TimedOut,
    /// The binary was missing or could not be started.
    LaunchFailed,
}

/// The output with trailing newline bytes removed. Trailing newlines are not
/// significant when outputs are compared; internal whitespace is.
pub open spec fn strip_trailing_newlines(s: Seq<u8>) -> Seq<u8>
    decreases s.len(),
{
    if s.len() > 0 && s.last() == 10u8 {
        strip_trailing_newlines(s.drop_last())
    } else {
        s
    }
}

/// Two outputs count as equal when they agree byte for byte after trailing
/// newline normalization.
pub open spec fn outputs_match_spec(actual: Seq<u8>, expected: Seq<u8>) -> bool {
    strip_trailing_newlines(actual) == strip_trailing_newlines(expected)
}

/// Length of the output once trailing newline bytes are dropped.
fn trimmed_len(v: &Vec<u8>) -> (n: usize)
    ensures
        n <= v@.len(),
        strip_trailing_newlines(v@) == v@.subrange(0, n as int),
{
    let mut n = v.len();
    proof {
        assert(v@.subrange(0, n as int) =~= v@);
    }
    while n > 0 && v[n - 1] == 10u8
        invariant
            n <= v@.len(),
            strip_trailing_newlines(v@) == strip_trailing_newlines(v@.subrange(0, n as int)),
        decreases n,
    {
        proof {
            let s = v@.subrange(0, n as int);
            assert(s.last() == 10u8);
            assert(s.drop_last() =~= v@.subrange(0, n as int - 1));
        }
        n -= 1;
    }
    proof {
        let s = v@.subrange(0, n as int);
        assert(!(s.len() > 0 && s.last() == 10u8));
    }
    n
}

/// Exact byte comparison of actual against expected output, after trailing
/// newline normalization on both sides.
pub fn outputs_match(actual: &Vec<u8>, expected: &Vec<u8>) -> (r: bool)
    ensures
        r == outputs_match_spec(actual@, expected@),
{
    let na = trimmed_len(actual);
    let ne = trimmed_len(expected);
    if na != ne {
        proof {
            assert(strip_trailing_newlines(actual@).len() == na as int);
            assert(strip_trailing_newlines(expected@).len() == ne as int);
        }
        return false;
    }
    let mut i: usize = 0;
    while i < na
        invariant
            na == ne,
            na <= actual@.len(),
            ne <= expected@.len(),
            i <= na,
            strip_trailing_newlines(actual@) == actual@.subrange(0, na as int),
            strip_trailing_newlines(expected@) == expected@.subrange(0, ne as int),
            forall|j: int| 0 <= j < i ==> actual@[j] == expected@[j],
        decreases na - i,
    {
        if actual[i] != expected[i] {
            proof {
                assert(strip_trailing_newlines(actual@)[i as int] == actual@[i as int]);
                assert(strip_trailing_newlines(expected@)[i as int] == expected@[i as int]);
            }
            return false;
        }
        i += 1;
    }
    proof {
        assert(strip_trailing_newlines(actual@) =~= strip_trailing_newlines(expected@));
    }
    true
}

} // verus!
