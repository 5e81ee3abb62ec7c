//! Resolution of a command's target: a region name or a literal path becomes
//! an ordered list of directories to operate on.

use vstd::prelude::*;
use crate::config::{Config, has_region};
use crate::util::clone_string_vec;

verus! {

/// Why a target could not be resolved.
#[derive(Clone, Copy, PartialEq, Eq, Structural, Debug)]
pub enum ResolveError {
    /// The identifier names no region and is no existing path.
    UnknownTarget,
}

/// Maps a region name or a literal path to the directories to operate on.
pub struct RegionResolver;

impl RegionResolver {
    /// Resolve an identifier against the configured regions. A region name
    /// resolves to that region's directory list, exactly and in order; an
    /// identifier that names no region resolves to itself when it is an
    /// existing path (`path_exists` reports what the filesystem said of it),
    /// and is rejected as `UnknownTarget` otherwise.
    pub fn resolve(config: &Config, identifier: &String, path_exists: bool) -> (r: Result<
        Vec<String>,
        ResolveError,
    >)
        ensures
            r is Ok <==> (has_region(config.regions@, identifier@) || path_exists),
            r is Err ==> r == Result::<Vec<String>, ResolveError>::Err(
                ResolveError::UnknownTarget,
            ),
            match r {
                Ok(dirs) => {
                    if has_region(config.regions@, identifier@) {
                        exists|i: int|
                            {
                                &&& 0 <= i < config.regions@.len()
                                &&& config.regions@[i].name@ == identifier@
                                &&& dirs@ == config.regions@[i].dirs@
                            }
                    } else {
                        dirs@.len() == 1 && dirs@[0]@ == identifier@
                    }
                },
                Err(_) => true,
            },
    {
        let n = config.regions.len();
        let mut i: usize = 0;
        while i < n
            invariant
                n == config.regions@.len(),
                i <= n,
                forall|j: int| 0 <= j < i ==> config.regions@[j].name@ != identifier@,
            decreases n - i,
        {
            if config.regions[i].name == *identifier {
                return Ok(clone_string_vec(&config.regions[i].dirs));
            }
            i += 1;
        }
        if path_exists {
            let mut single: Vec<String> = Vec::new();
            single.push(identifier.clone());
            Ok(single)
        } else {
            Err(ResolveError::UnknownTarget)
        }
    }
}

/// In a well-formed configuration a region name identifies one region, so the
/// directory list that resolution reports for a region name is exactly that
/// region's list, in its original order.
pub proof fn lemma_resolved_region_is_exact(
    config: Config,
    name: Seq<char>,
    k: int,
    dirs: Seq<String>,
)
    requires
        config.wf(),
        0 <= k < config.regions@.len(),
        config.regions@[k].name@ == name,
        exists|i: int|
            {
                &&& 0 <= i < config.regions@.len()
                &&& config.regions@[i].name@ == name
                &&& dirs == config.regions@[i].dirs@
            },
    ensures
        dirs == config.regions@[k].dirs@,
{
    let i = choose|i: int|
        {
            &&& 0 <= i < config.regions@.len()
            &&& config.regions@[i].name@ == name
            &&& dirs == config.regions@[i].dirs@
        };
    if i != k {
        if i < k {
            assert(config.regions@[i].name@ != config.regions@[k].name@);
        } else {
            assert(config.regions@[k].name@ != config.regions@[i].name@);
        }
    }
}

} // verus!
