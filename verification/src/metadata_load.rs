//! The steps in which the footer of a file is loaded, and what ends them.
//!
//! The caller performs one step at a time and hands back what came of it.

use crate::text::joined;
use vstd::prelude::*;
use vstd::string::StringExecFns;

verus! {

/// A step in loading the footer of a file.
#[derive(Debug, Clone, Copy, PartialEq, Eq, Structural)]
pub enum LoadStep {
    /// Ask the store for the size of the file.
    Head,
    /// Fetch and parse the footer.
    Footer,
    /// Derive the Arrow schema from the footer.
    Schema,
}

/// What a message calls a step.
pub open spec fn step_text(step: LoadStep) -> Seq<char> {
    match step {
        LoadStep::Head => "object-store head "@,
        LoadStep::Footer => "load parquet metadata "@,
        LoadStep::Schema => "parquet_to_arrow_schema "@,
    }
}

/// The message of a step that failed on the file at `location`.
pub open spec fn load_failure_text(
    step: LoadStep,
    location: Seq<char>,
    cause: Seq<char>,
) -> Seq<char> {
    step_text(step) + location + ": "@ + cause
}

/// The message of a step that failed on the file at `location`.
fn load_failure(step: LoadStep, location: &str, cause: &str) -> (message: String)
    ensures
        message@ == load_failure_text(step, location@, cause@),
{
    let mut message = match step {
        LoadStep::Head => joined("object-store head ", location),
        LoadStep::Footer => joined("load parquet metadata ", location),
        LoadStep::Schema => joined("parquet_to_arrow_schema ", location),
    };
    message.append(": ");
    message.append(cause);
    message
}

/// What follows a step.
pub enum LoadNext {
    /// Perform this step.
    Perform(LoadStep),
    /// All steps succeeded.
    Loaded,
    /// The load failed, with this message.
    Failed(String),
}

/// The step after `step`; `None` after the last.
pub open spec fn next_load_step(step: LoadStep) -> Option<LoadStep> {
    match step {
        LoadStep::Head => Some(LoadStep::Footer),
        LoadStep::Footer => Some(LoadStep::Schema),
        LoadStep::Schema => None,
    }
}

/// The step that a load begins with.
pub fn first_load_step() -> (step: LoadStep)
    ensures
        step == LoadStep::Head,
{
    LoadStep::Head
}

/// Decides what follows a step on the file at `location`: the next one in order, the end of
/// the load, or its failure with a message that names the step.
pub fn after_load_step(step: LoadStep, location: &str, outcome: Result<(), String>) -> (next:
    LoadNext)
    ensures
        match outcome {
            Ok(_) => next == match next_load_step(step) {
                Some(following) => LoadNext::Perform(following),
                None => LoadNext::Loaded,
            },
            Err(cause) => next matches LoadNext::Failed(message) && message@ == load_failure_text(
                step,
                location@,
                cause@,
            ),
        },
        outcome is Ok ==> match step {
            LoadStep::Head => next == LoadNext::Perform(LoadStep::Footer),
            LoadStep::Footer => next == LoadNext::Perform(LoadStep::Schema),
            LoadStep::Schema => next is Loaded,
        },
        next is Failed <==> outcome is Err,
        outcome matches Err(cause) ==> next->Failed_0@ == match step {
            LoadStep::Head => "object-store head "@,
            LoadStep::Footer => "load parquet metadata "@,
            LoadStep::Schema => "parquet_to_arrow_schema "@,
        } + location@ + ": "@ + cause@,
{
    match outcome {
        Ok(_) => match step {
            LoadStep::Head => LoadNext::Perform(LoadStep::Footer),
            LoadStep::Footer => LoadNext::Perform(LoadStep::Schema),
            LoadStep::Schema => LoadNext::Loaded,
        },
        Err(cause) => LoadNext::Failed(load_failure(step, location, cause.as_str())),
    }
}

/// How many steps are left after `step`.
pub open spec fn load_steps_left(step: LoadStep) -> nat {
    match step {
        LoadStep::Head => 2,
        LoadStep::Footer => 1,
        LoadStep::Schema => 0,
    }
}

/// What a load comes to from `step` on, when `outcomes` says what comes of each step: each
/// is followed as decided until the load has ended.
pub open spec fn load_result(
    step: LoadStep,
    location: Seq<char>,
    outcomes: spec_fn(LoadStep) -> Result<(), Seq<char>>,
) -> Result<(), Seq<char>>
    decreases load_steps_left(step),
{
    match outcomes(step) {
        Ok(_) => match next_load_step(step) {
            Some(following) => load_result(following, location, outcomes),
            None => Ok(()),
        },
        Err(cause) => Err(load_failure_text(step, location, cause)),
    }
}

/// A load succeeds exactly when all its steps do, and otherwise fails with the message of
/// the first step that failed.
pub proof fn a_load_needs_every_step(
    location: Seq<char>,
    outcomes: spec_fn(LoadStep) -> Result<(), Seq<char>>,
)
    ensures
        load_result(LoadStep::Head, location, outcomes) == match (
            outcomes(LoadStep::Head),
            outcomes(LoadStep::Footer),
            outcomes(LoadStep::Schema),
        ) {
            (Err(cause), _, _) => Err(load_failure_text(LoadStep::Head, location, cause)),
            (Ok(_), Err(cause), _) => Err(load_failure_text(LoadStep::Footer, location, cause)),
            (Ok(_), Ok(_), Err(cause)) => Err(load_failure_text(LoadStep::Schema, location, cause)),
            (Ok(_), Ok(_), Ok(_)) => Ok(()),
        },
{
    reveal_with_fuel(load_result, 3);
}

/// The message names the step that failed: no two steps share one.
pub proof fn load_failure_names_its_step(
    step1: LoadStep,
    step2: LoadStep,
    location1: Seq<char>,
    location2: Seq<char>,
    cause1: Seq<char>,
    cause2: Seq<char>,
)
    requires
        load_failure_text(step1, location1, cause1) == load_failure_text(step2, location2, cause2),
    ensures
        step1 == step2,
{
    lemma_first_letter(step1, location1, cause1);
    lemma_first_letter(step2, location2, cause2);
}

proof fn lemma_first_letter(step: LoadStep, location: Seq<char>, cause: Seq<char>)
    ensures
        load_failure_text(step, location, cause)[0] == (match step {
            LoadStep::Head => 'o',
            LoadStep::Footer => 'l',
            LoadStep::Schema => 'p',
        }),
{
    reveal_strlit("object-store head ");
    reveal_strlit("load parquet metadata ");
    reveal_strlit("parquet_to_arrow_schema ");
}

/// A message ends with the location and the cause as they are: two failures of one step on one
/// file have the same message only if they have the same cause, and two of one step and cause
/// only if they are on the same file.
pub proof fn a_message_keeps_location_and_cause(
    step: LoadStep,
    location1: Seq<char>,
    location2: Seq<char>,
    cause1: Seq<char>,
    cause2: Seq<char>,
)
    ensures
        load_failure_text(step, location1, cause1).subrange(
            load_failure_text(step, location1, cause1).len() - cause1.len(),
            load_failure_text(step, location1, cause1).len() as int,
        ) == cause1,
        load_failure_text(step, location1, cause1) == load_failure_text(step, location1, cause2)
            ==> cause1 == cause2,
        load_failure_text(step, location1, cause1) == load_failure_text(step, location2, cause1)
            ==> location1 == location2,
{
    let n = step_text(step).len() as int;
    let a = load_failure_text(step, location1, cause1);
    let b = load_failure_text(step, location1, cause2);
    let c = load_failure_text(step, location2, cause1);
    assert(a.subrange(a.len() - cause1.len(), a.len() as int) =~= cause1);
    assert(b.subrange(b.len() - cause2.len(), b.len() as int) =~= cause2);
    assert(a.subrange(n, n + location1.len()) =~= location1);
    assert(c.subrange(n, n + location2.len()) =~= location2);
    assert(a.len() == n + location1.len() + ": "@.len() + cause1.len());
    assert(b.len() == n + location1.len() + ": "@.len() + cause2.len());
    assert(c.len() == n + location2.len() + ": "@.len() + cause1.len());
}

} // verus!
