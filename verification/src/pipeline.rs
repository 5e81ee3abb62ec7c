//! Sequencing of pipeline stages: the stdout of one stage becomes the stdin
//! of the next, a failing stage stops the pipeline at once, and the final
//! output is committed only when every stage succeeded.

use vstd::prelude::*;
use crate::util::clone_bytes;

verus! {

/// One stage of a pipeline: a recognized internal subcommand, or an external
/// program invocation.
pub enum PipelineStage {
    Internal { subcommand: String, args: Vec<String> },
    External { program: String, args: Vec<String> },
}

/// What executing one stage produced: its output bytes, or why it failed.
pub enum StageOutcome {
    Output(Vec<u8>),
    Failed(String),
}

/// Which stage failed, and why.
pub struct StageFailure {
    pub index: usize,
    pub cause: String,
}

/// What the engine asks its driver to do next.
pub enum PipelineAction {
    /// Execute the stage at `index`, feeding it `input` on stdin.
    RunStage { index: usize, input: Vec<u8> },
    /// Every stage succeeded: write the final output to its destination.
    Commit { output: Vec<u8> },
    /// A stage failed: stop, committing nothing.
    Abort { index: usize, cause: String },
}

/// The state of one pipeline run: the declared stages, the next stage to
/// execute, the output of the last finished stage, and the failure that
/// stopped the run, if any.
pub struct PipelineEngine {
    pub stages: Vec<PipelineStage>,
    pub next_index: usize,
    pub buffer: Vec<u8>,
    pub failed: Option<StageFailure>,
}

impl PipelineEngine {
    /// The indices the engine holds always stay within the stage list.
    pub open spec fn wf(self) -> bool {
        &&& self.next_index <= self.stages@.len()
        &&& match self.failed {
            Some(f) => f.index < self.stages@.len(),
            None => true,
        }
    }

    /// The engine will ask for a stage to run: nothing failed and stages
    /// remain.
    pub open spec fn action_is_run(self) -> bool {
        self.failed is None && self.next_index < self.stages@.len()
    }

    /// The state after the stage at `next_index` fails with `cause`: the run
    /// is stopped there and nothing else changes.
    pub open spec fn failed_state(self, cause: String) -> PipelineEngine {
        PipelineEngine {
            failed: Some(StageFailure { index: self.next_index, cause }),
            ..self
        }
    }

    /// A fresh run of the given stages: nothing executed, empty input for the
    /// first stage, no failure.
    pub fn new(stages: Vec<PipelineStage>) -> (e: PipelineEngine)
        ensures
            e.stages == stages,
            e.next_index == 0,
            e.buffer@ == Seq::<u8>::empty(),
            e.failed is None,
            e.wf(),
    {
        PipelineEngine { stages, next_index: 0, buffer: Vec::new(), failed: None }
    }

    /// What to do next. While stages remain and none failed, the next stage
    /// runs with the previous stage's output as its input; after the last
    /// stage the output is committed; after a failure the run is aborted,
    /// naming the failed stage, and no further stage is ever run.
    pub fn next_action(&self) -> (a: PipelineAction)
        requires
            self.wf(),
        ensures
            a is RunStage <==> self.action_is_run(),
            a is Commit <==> (self.failed is None && self.next_index == self.stages@.len()),
            a is Abort <==> self.failed is Some,
            match a {
                PipelineAction::RunStage { index, input } => index == self.next_index && input@
                    == self.buffer@,
                PipelineAction::Commit { output } => output@ == self.buffer@,
                PipelineAction::Abort { index, cause } => match self.failed {
                    Some(f) => index == f.index && cause@ == f.cause@,
                    None => false,
                },
            },
    {
        match &self.failed {
            Some(f) => PipelineAction::Abort { index: f.index, cause: f.cause.clone() },
            None => {
                if self.next_index < self.stages.len() {
                    PipelineAction::RunStage {
                        index: self.next_index,
                        input: clone_bytes(&self.buffer),
                    }
                } else {
                    PipelineAction::Commit { output: clone_bytes(&self.buffer) }
                }
            },
        }
    }

    /// Record what the stage the engine last asked for produced. Its output
    /// becomes the next stage's input; a failure stops the run at this stage.
    pub fn record(&mut self, outcome: StageOutcome)
        requires
            old(self).wf(),
            old(self).failed is None,
            old(self).next_index < old(self).stages@.len(),
        ensures
            final(self).wf(),
            match outcome {
                StageOutcome::Output(bytes) => *final(self) == (PipelineEngine {
                    next_index: (old(self).next_index + 1) as usize,
                    buffer: bytes,
                    ..*old(self)
                }),
                StageOutcome::Failed(cause) => *final(self) == old(self).failed_state(cause),
            },
    {
        match outcome {
            StageOutcome::Output(bytes) => {
                let n = self.stages.len();
                proof {
                    assert(self.next_index < n);
                }
                self.next_index += 1;
                self.buffer = bytes;
            },
            StageOutcome::Failed(cause) => {
                self.failed = Some(StageFailure { index: self.next_index, cause });
            },
        }
    }
}

/// A pipeline stops at a failure: in the state reached when any stage fails,
/// the engine never again asks for a stage to run, so no stage after the
/// failing one is ever invoked.
pub proof fn lemma_failure_stops_pipeline(e: PipelineEngine, cause: String)
    requires
        e.wf(),
        e.next_index < e.stages@.len(),
    ensures
        e.failed_state(cause).wf(),
        e.failed_state(cause).failed is Some,
        !e.failed_state(cause).action_is_run(),
{
}

/// The words of one pipeline command become a stage: a first word that names
/// a recognized internal subcommand makes an internal stage, any other first
/// word an external program invocation; the remaining words are the
/// arguments, in order. An empty command is no stage.
pub fn classify_stage(words: Vec<String>) -> (s: Option<PipelineStage>)
    ensures
        s is Some <==> words@.len() > 0,
        match s {
            Some(stage) => {
                let internal = words@[0]@ == "compile"@ || words@[0]@ == "execute"@ || words@[0]@
                    == "test-all"@;
                match stage {
                    PipelineStage::Internal { subcommand, args } => internal && subcommand
                        == words@[0] && args@ == words@.subrange(1, words@.len() as int),
                    PipelineStage::External { program, args } => !internal && program == words@[0]
                        && args@ == words@.subrange(1, words@.len() as int),
                }
            },
            None => true,
        },
{
    let mut words = words;
    if words.len() == 0 {
        return None;
    }
    let first = words.remove(0);
    let internal = first == String::from_str("compile") || first == String::from_str("execute")
        || first == String::from_str("test-all");
    if internal {
        Some(PipelineStage::Internal { subcommand: first, args: words })
    } else {
        Some(PipelineStage::External { program: first, args: words })
    }
}

} // verus!
