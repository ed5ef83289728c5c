//! The decisions in the life of the cache runtime: how it is set up, reset and reported on.
//!
//! Files, threads and the cache itself belong to the caller. It performs one step at a
//! time and hands back what came of it.

use crate::logger;
use crate::logger::{LogLevel, LogMessage};
use crate::text;
use crate::text::{append_decimal, append_field, joined};
use vstd::prelude::*;
use vstd::string::StringExecFns;

verus! {

/// Which entries leave the cache first.
#[derive(Debug, Clone, Copy, PartialEq, Eq, Structural)]
pub enum EvictionPolicy {
    /// The least recently used.
    Lru,
    /// As the cache's own policy sees fit.
    Liquid,
}

/// The policy of a name: `lru` names one, and every other name the default.
pub open spec fn policy_of(name: Seq<char>) -> EvictionPolicy {
    if name == "lru"@ {
        EvictionPolicy::Lru
    } else {
        EvictionPolicy::Liquid
    }
}

/// The policy of a name.
pub fn eviction_policy(name: &str) -> (policy: EvictionPolicy)
    ensures
        policy == policy_of(name@),
        policy is Lru <==> name@ == "lru"@,
{
    let lru = "lru".to_owned();
    if name.to_owned() == lru {
        EvictionPolicy::Lru
    } else {
        EvictionPolicy::Liquid
    }
}

/// What becomes of entries that leave memory.
#[derive(Debug, Clone, Copy, PartialEq, Eq, Structural)]
pub enum SqueezePolicy {
    /// They are transcoded, and evicted only after that.
    TranscodeThenEvict,
}

/// When entries on disk come back into memory.
#[derive(Debug, Clone, Copy, PartialEq, Eq, Structural)]
pub enum HydrationPolicy {
    /// Never.
    NoHydration,
}

/// How a cache is to be built.
pub struct CacheSetup {
    pub max_memory_bytes: usize,
    pub max_disk_bytes: usize,
    pub cache_dir: String,
    pub eviction: EvictionPolicy,
    pub squeeze: SqueezePolicy,
    pub hydration: HydrationPolicy,
}

/// What is handed to the builder of the cache: the limits and the directory as configured,
/// the eviction policy of the configured name, and fixed policies for the rest.
pub fn cache_setup(
    max_cache_bytes: u64,
    max_disk_bytes: u64,
    cache_dir: &str,
    policy_name: &str,
) -> (setup: CacheSetup)
    ensures
        setup.max_memory_bytes == max_cache_bytes as usize,
        setup.max_disk_bytes == max_disk_bytes as usize,
        setup.cache_dir@ == cache_dir@,
        setup.eviction == policy_of(policy_name@),
        setup.eviction is Lru <==> policy_name@ == "lru"@,
        setup.squeeze == SqueezePolicy::TranscodeThenEvict,
        setup.hydration == HydrationPolicy::NoHydration,
{
    CacheSetup {
        max_memory_bytes: max_cache_bytes as usize,
        max_disk_bytes: max_disk_bytes as usize,
        cache_dir: cache_dir.to_owned(),
        eviction: eviction_policy(policy_name),
        squeeze: SqueezePolicy::TranscodeThenEvict,
        hydration: HydrationPolicy::NoHydration,
    }
}

/// A step of the set-up that works on the outside world.
#[derive(Debug, Clone, Copy, PartialEq, Eq, Structural)]
pub enum InitStep {
    /// Create the cache directory.
    CreateDir,
    /// Start the runtime that the cache is built on.
    StartRuntime,
    /// Build the cache and its session.
    BuildCache,
}

/// What follows a step of the set-up.
pub enum InitNext {
    /// Perform this step.
    Perform(InitStep),
    /// All steps succeeded: pick the rules of the session.
    PickRules,
    /// The set-up failed, with this message.
    Abort(String),
}

/// The message of a step that failed.
pub open spec fn init_failure(step: InitStep, cache_dir: Seq<char>, cause: Seq<char>) -> Seq<char> {
    match step {
        InitStep::CreateDir => "Failed to create liquid cache dir "@ + cache_dir + ": "@ + cause,
        InitStep::StartRuntime => "Failed to create tokio runtime for liquid cache init: "@ + cause,
        InitStep::BuildCache => "Liquid cache build failed: "@ + cause,
    }
}

/// The step after `step`; `None` after the last.
pub open spec fn next_init_step(step: InitStep) -> Option<InitStep> {
    match step {
        InitStep::CreateDir => Some(InitStep::StartRuntime),
        InitStep::StartRuntime => Some(InitStep::BuildCache),
        InitStep::BuildCache => None,
    }
}

/// The step that a set-up begins with.
pub fn first_init_step() -> (step: InitStep)
    ensures
        step == InitStep::CreateDir,
{
    InitStep::CreateDir
}

/// Decides what follows a step: the next one in order, or the end of the set-up with a
/// message that names the step that failed. `cache_dir` is the directory as it should
/// appear in a message.
pub fn after_init_step(step: InitStep, cache_dir: &str, outcome: Result<(), String>) -> (next:
    InitNext)
    ensures
        match outcome {
            Ok(_) => next == match next_init_step(step) {
                Some(following) => InitNext::Perform(following),
                None => InitNext::PickRules,
            },
            Err(cause) => next matches InitNext::Abort(message) && message@ == init_failure(
                step,
                cache_dir@,
                cause@,
            ),
        },
        outcome is Ok ==> match step {
            InitStep::CreateDir => next == InitNext::Perform(InitStep::StartRuntime),
            InitStep::StartRuntime => next == InitNext::Perform(InitStep::BuildCache),
            InitStep::BuildCache => next is PickRules,
        },
        next is Abort <==> outcome is Err,
        outcome matches Err(cause) ==> next->Abort_0@ == match step {
            InitStep::CreateDir => "Failed to create liquid cache dir "@ + cache_dir@ + ": "@,
            InitStep::StartRuntime => "Failed to create tokio runtime for liquid cache init: "@,
            InitStep::BuildCache => "Liquid cache build failed: "@,
        } + cause@,
{
    match outcome {
        Ok(_) => match step {
            InitStep::CreateDir => InitNext::Perform(InitStep::StartRuntime),
            InitStep::StartRuntime => InitNext::Perform(InitStep::BuildCache),
            InitStep::BuildCache => InitNext::PickRules,
        },
        Err(cause) => {
            let mut message = match step {
                InitStep::CreateDir => {
                    let mut message = joined("Failed to create liquid cache dir ", cache_dir);
                    message.append(": ");
                    message
                },
                InitStep::StartRuntime => {
                    "Failed to create tokio runtime for liquid cache init: ".to_owned()
                },
                InitStep::BuildCache => "Liquid cache build failed: ".to_owned(),
            };
            message.append(cause.as_str());
            InitNext::Abort(message)
        },
    }
}

/// `i` is the first position at which `name` stands.
pub open spec fn first_named(names: Seq<String>, name: Seq<char>, i: int) -> bool {
    &&& 0 <= i < names.len()
    &&& names[i]@ == name
    &&& forall|j: int| 0 <= j < i ==> (#[trigger] names[j])@ != name
}

/// `name` is not in the list.
pub open spec fn not_named(names: Seq<String>, name: Seq<char>) -> bool {
    forall|j: int| 0 <= j < names.len() ==> (#[trigger] names[j])@ != name
}

/// The first position at which `name` stands in a list of rule names.
fn find_rule(names: &Vec<String>, name: &str) -> (position: Option<usize>)
    ensures
        match position {
            Some(i) => first_named(names@, name@, i as int),
            None => not_named(names@, name@),
        },
{
    let wanted = name.to_owned();
    let mut i: usize = 0;
    while i < names.len()
        invariant
            i <= names@.len(),
            wanted@ == name@,
            forall|j: int| 0 <= j < i ==> (#[trigger] names@[j])@ != name@,
        decreases names@.len() - i,
    {
        if names[i] == wanted {
            return Some(i);
        }
        i += 1;
    }
    None
}

/// The rules of a cache session that the runtime keeps, by their positions.
#[derive(Debug, Clone, Copy, PartialEq, Eq, Structural)]
pub struct SessionRules {
    /// The rule that puts scans behind the cache, among the physical rules.
    pub optimizer: usize,
    /// The rule that traces columns to their files, among the logical rules.
    pub lineage_optimizer: usize,
}

/// The name of the physical rule that puts scans behind the cache.
pub open spec fn optimizer_name() -> Seq<char> {
    "LocalModeLiquidCacheOptimizer"@
}

/// The name of the logical rule that traces columns to their files.
pub open spec fn lineage_optimizer_name() -> Seq<char> {
    "LineageOptimizer"@
}

/// The message for a rule that a session does not have.
pub open spec fn missing_rule(name: Seq<char>) -> Seq<char> {
    name + " not found in Liquid Cache session state"@
}

/// Picks the rules of a session by name, the first of each. A session without one of them
/// is an error; if both are missing, the physical one is named.
pub fn pick_rules(physical: &Vec<String>, logical: &Vec<String>) -> (rules: Result<
    SessionRules,
    String,
>)
    ensures
        match rules {
            Ok(rules) => {
                &&& first_named(physical@, optimizer_name(), rules.optimizer as int)
                &&& first_named(logical@, lineage_optimizer_name(), rules.lineage_optimizer as int)
            },
            Err(message) => {
                ||| not_named(physical@, optimizer_name()) && message@ == missing_rule(
                    optimizer_name(),
                )
                ||| !not_named(physical@, optimizer_name()) && not_named(
                    logical@,
                    lineage_optimizer_name(),
                ) && message@ == missing_rule(lineage_optimizer_name())
            },
        },
        rules matches Ok(r) ==> {
            &&& r.optimizer < physical@.len()
            &&& physical@[r.optimizer as int]@ == "LocalModeLiquidCacheOptimizer"@
            &&& forall|j: int|
                0 <= j < r.optimizer ==> (#[trigger] physical@[j])@
                    != "LocalModeLiquidCacheOptimizer"@
            &&& r.lineage_optimizer < logical@.len()
            &&& logical@[r.lineage_optimizer as int]@ == "LineageOptimizer"@
            &&& forall|j: int|
                0 <= j < r.lineage_optimizer ==> (#[trigger] logical@[j])@ != "LineageOptimizer"@
        },
        rules is Ok <==> {
            &&& exists|i: int|
                0 <= i < physical@.len() && (#[trigger] physical@[i])@
                    == "LocalModeLiquidCacheOptimizer"@
            &&& exists|i: int|
                0 <= i < logical@.len() && (#[trigger] logical@[i])@ == "LineageOptimizer"@
        },
        rules matches Err(message) ==> message@ == if exists|i: int|
            0 <= i < physical@.len() && (#[trigger] physical@[i])@
                == "LocalModeLiquidCacheOptimizer"@ {
            "LineageOptimizer"@
        } else {
            "LocalModeLiquidCacheOptimizer"@
        } + " not found in Liquid Cache session state"@,
{
    let optimizer: usize = match find_rule(physical, "LocalModeLiquidCacheOptimizer") {
        Some(i) => i,
        None => return Err(
            joined("LocalModeLiquidCacheOptimizer", " not found in Liquid Cache session state"),
        ),
    };
    let lineage_optimizer: usize = match find_rule(logical, "LineageOptimizer") {
        Some(i) => i,
        None => return Err(
            joined("LineageOptimizer", " not found in Liquid Cache session state"),
        ),
    };
    Ok(SessionRules { optimizer, lineage_optimizer })
}

/// A step of a reset, once the cache has dropped its entries.
#[derive(Debug, Clone, Copy, PartialEq, Eq, Structural)]
pub enum ResetStep {
    /// Remove the cache directory.
    RemoveDir,
    /// Create the cache directory.
    CreateDir,
    /// Nothing is left but to report.
    Done,
}

/// The first step of a reset: a directory that is there is removed before it is created.
pub fn first_reset_step(dir_exists: bool) -> (step: ResetStep)
    ensures
        step == if dir_exists {
            ResetStep::RemoveDir
        } else {
            ResetStep::CreateDir
        },
{
    if dir_exists {
        ResetStep::RemoveDir
    } else {
        ResetStep::CreateDir
    }
}

/// The step after `step`: a reset goes on whether or not a step succeeded.
pub open spec fn next_reset_step(step: ResetStep) -> ResetStep {
    match step {
        ResetStep::RemoveDir => ResetStep::CreateDir,
        ResetStep::CreateDir | ResetStep::Done => ResetStep::Done,
    }
}

/// The line for a step that failed.
pub open spec fn reset_failure(step: ResetStep, cause: Seq<char>) -> Seq<char> {
    match step {
        ResetStep::RemoveDir => "[LiquidCache] Failed to clean cache dir: "@ + cause,
        _ => "[LiquidCache] Failed to recreate cache dir: "@ + cause,
    }
}

/// The line that ends a reset.
pub open spec fn reset_done() -> Seq<char> {
    "[LiquidCache] Cache cleared"@
}

/// What to log after a step, and under which level: a line for a failure, and a last one
/// when the directory has been dealt with.
pub open spec fn reset_lines(step: ResetStep, outcome: Result<(), Seq<char>>) -> Seq<
    (LogLevel, Seq<char>),
> {
    let failure = match outcome {
        Ok(_) => Seq::<(LogLevel, Seq<char>)>::empty(),
        Err(cause) => seq![(LogLevel::Info, reset_failure(step, cause))],
    };
    match step {
        ResetStep::RemoveDir => failure,
        ResetStep::CreateDir => failure + seq![(LogLevel::Info, reset_done())],
        ResetStep::Done => Seq::<(LogLevel, Seq<char>)>::empty(),
    }
}

/// The outcome of a step, with its cause as text.
pub open spec fn outcome_text(outcome: Result<(), String>) -> Result<(), Seq<char>> {
    match outcome {
        Ok(_) => Ok(()),
        Err(cause) => Err(cause@),
    }
}

/// Decides what follows a step of a reset, and what to log about it.
pub fn after_reset_step(step: ResetStep, outcome: Result<(), String>) -> (next: (
    ResetStep,
    Vec<LogMessage>,
))
    ensures
        next.0 == next_reset_step(step),
        logger::contents(next.1@) == reset_lines(step, outcome_text(outcome)),
        match step {
            ResetStep::RemoveDir => next.0 is CreateDir,
            ResetStep::CreateDir | ResetStep::Done => next.0 is Done,
        },
        next.1@.len() == match step {
            ResetStep::RemoveDir => if outcome is Err {
                1int
            } else {
                0
            },
            ResetStep::CreateDir => if outcome is Err {
                2int
            } else {
                1
            },
            ResetStep::Done => 0,
        },
        forall|i: int| 0 <= i < next.1@.len() ==> (#[trigger] next.1@[i]).level is Info,
        step is RemoveDir && outcome is Err ==> next.1@[0].text@
            == "[LiquidCache] Failed to clean cache dir: "@ + outcome->Err_0@,
        step is CreateDir && outcome is Err ==> next.1@[0].text@
            == "[LiquidCache] Failed to recreate cache dir: "@ + outcome->Err_0@,
        step is CreateDir ==> next.1@[next.1@.len() - 1].text@ == "[LiquidCache] Cache cleared"@,
{
    let mut messages: Vec<LogMessage> = Vec::new();
    let next = match step {
        ResetStep::RemoveDir => {
            if let Err(cause) = &outcome {
                messages.push(
                    info(joined("[LiquidCache] Failed to clean cache dir: ", cause.as_str())),
                );
            }
            ResetStep::CreateDir
        },
        ResetStep::CreateDir => {
            if let Err(cause) = &outcome {
                messages.push(
                    info(joined("[LiquidCache] Failed to recreate cache dir: ", cause.as_str())),
                );
            }
            messages.push(info("[LiquidCache] Cache cleared".to_owned()));
            ResetStep::Done
        },
        ResetStep::Done => ResetStep::Done,
    };
    assert(logger::contents(messages@) =~= reset_lines(step, outcome_text(outcome)));
    (next, messages)
}

/// A message of the info level.
fn info(text: String) -> (message: LogMessage)
    ensures
        message.content() == (LogLevel::Info, text@),
{
    LogMessage { level: LogLevel::Info, text }
}

/// How many steps are left after `step`.
pub open spec fn init_steps_left(step: InitStep) -> nat {
    match step {
        InitStep::CreateDir => 2,
        InitStep::StartRuntime => 1,
        InitStep::BuildCache => 0,
    }
}

/// What the steps of a set-up come to from `step` on, when `outcomes` says what comes of
/// each: each is followed as decided until the set-up fails or the rules are to be picked.
pub open spec fn init_result(
    step: InitStep,
    cache_dir: Seq<char>,
    outcomes: spec_fn(InitStep) -> Result<(), Seq<char>>,
) -> Result<(), Seq<char>>
    decreases init_steps_left(step),
{
    match outcomes(step) {
        Ok(_) => match next_init_step(step) {
            Some(following) => init_result(following, cache_dir, outcomes),
            None => Ok(()),
        },
        Err(cause) => Err(init_failure(step, cache_dir, cause)),
    }
}

/// The rules are picked exactly when all steps have succeeded; otherwise the set-up fails
/// with the message of the first step that failed.
pub proof fn a_set_up_needs_every_step(
    cache_dir: Seq<char>,
    outcomes: spec_fn(InitStep) -> Result<(), Seq<char>>,
)
    ensures
        init_result(InitStep::CreateDir, cache_dir, outcomes) == match (
            outcomes(InitStep::CreateDir),
            outcomes(InitStep::StartRuntime),
            outcomes(InitStep::BuildCache),
        ) {
            (Err(cause), _, _) => Err(init_failure(InitStep::CreateDir, cache_dir, cause)),
            (Ok(_), Err(cause), _) => Err(init_failure(InitStep::StartRuntime, cache_dir, cause)),
            (Ok(_), Ok(_), Err(cause)) => Err(init_failure(InitStep::BuildCache, cache_dir, cause)),
            (Ok(_), Ok(_), Ok(_)) => Ok(()),
        },
{
    reveal_with_fuel(init_result, 3);
}

/// The message of a failed set-up names the step that failed: no two steps share one,
/// whatever the directory and the cause.
pub proof fn init_failure_names_its_step(
    step1: InitStep,
    step2: InitStep,
    dir1: Seq<char>,
    dir2: Seq<char>,
    cause1: Seq<char>,
    cause2: Seq<char>,
)
    requires
        init_failure(step1, dir1, cause1) == init_failure(step2, dir2, cause2),
    ensures
        step1 == step2,
{
    lemma_init_failure_letters(step1, dir1, cause1);
    lemma_init_failure_letters(step2, dir2, cause2);
}

proof fn lemma_init_failure_letters(step: InitStep, dir: Seq<char>, cause: Seq<char>)
    ensures
        init_failure(step, dir, cause).len() > 17,
        match step {
            InitStep::CreateDir => init_failure(step, dir, cause)[17] == 'l',
            InitStep::StartRuntime => init_failure(step, dir, cause)[17] == 't',
            InitStep::BuildCache => init_failure(step, dir, cause)[0] == 'L',
        },
        !(step is BuildCache) ==> init_failure(step, dir, cause)[0] == 'F',
{
    reveal_strlit("Failed to create liquid cache dir ");
    reveal_strlit("Failed to create tokio runtime for liquid cache init: ");
    reveal_strlit("Liquid cache build failed: ");
}

/// The rules that are picked are determined by the names of the session: a name has one
/// first position, and none if it is not in the list.
pub proof fn first_position_is_unique(names: Seq<String>, name: Seq<char>, i: int, j: int)
    requires
        first_named(names, name, i),
        first_named(names, name, j),
    ensures
        i == j,
        !not_named(names, name),
{
}

/// All lines of a reset, in order: those of the removal, if there was a directory to
/// remove, and those of the creation.
pub open spec fn reset_log(
    dir_exists: bool,
    removed: Result<(), Seq<char>>,
    created: Result<(), Seq<char>>,
) -> Seq<(LogLevel, Seq<char>)> {
    if dir_exists {
        reset_lines(ResetStep::RemoveDir, removed) + reset_lines(ResetStep::CreateDir, created)
    } else {
        reset_lines(ResetStep::CreateDir, created)
    }
}

/// Whatever comes of its steps, a reset ends with the line that the cache was cleared, and
/// logs one further line for each step that failed.
pub proof fn reset_always_ends_cleared(
    dir_exists: bool,
    removed: Result<(), Seq<char>>,
    created: Result<(), Seq<char>>,
)
    ensures
        reset_log(dir_exists, removed, created).last() == (LogLevel::Info, reset_done()),
        reset_log(dir_exists, removed, created).len() == 1 + (if dir_exists && removed is Err {
            1int
        } else {
            0
        }) + (if created is Err {
            1int
        } else {
            0
        }),
{
}

/// What the cache holds, by representation.
#[derive(Debug, Clone, Copy, PartialEq, Eq, Structural)]
pub struct CacheStats {
    pub total_entries: u64,
    pub memory_usage_bytes: u64,
    pub max_memory_bytes: u64,
    pub disk_usage_bytes: u64,
    pub max_disk_bytes: u64,
    pub memory_arrow_entries: u64,
    pub memory_arrow_bytes: u64,
    pub memory_liquid_entries: u64,
    pub memory_liquid_bytes: u64,
    pub memory_squeezed_liquid_entries: u64,
    pub memory_squeezed_liquid_bytes: u64,
    pub disk_liquid_entries: u64,
    pub disk_arrow_entries: u64,
}

/// What the cache has done so far.
#[derive(Debug, Clone, Copy, PartialEq, Eq, Structural)]
pub struct RuntimeStats {
    pub cache_hit: u64,
    pub cache_miss: u64,
    pub eval_predicate: u64,
    pub get_squeezed_success: u64,
    pub get_squeezed_needs_io: u64,
    pub read_io_count: u64,
    pub write_io_count: u64,
    pub disk_evictions: u64,
    pub squeeze_io_saved: u64,
}

impl CacheStats {
    /// The line that reports what the cache holds.
    pub open spec fn text(self) -> Seq<char> {
        "[LiquidCache] Stats: entries="@ + text::decimal(self.total_entries as nat)
            + ", memory="@ + text::decimal(self.memory_usage_bytes as nat)
            + "/"@ + text::decimal(self.max_memory_bytes as nat)
            + " bytes, disk="@ + text::decimal(self.disk_usage_bytes as nat)
            + "/"@ + text::decimal(self.max_disk_bytes as nat)
            + " bytes, arrow_mem="@ + text::decimal(self.memory_arrow_entries as nat)
            + " ("@ + text::decimal(self.memory_arrow_bytes as nat)
            + " bytes), liquid_mem="@ + text::decimal(self.memory_liquid_entries as nat)
            + " ("@ + text::decimal(self.memory_liquid_bytes as nat)
            + " bytes), squeezed_mem="@ + text::decimal(self.memory_squeezed_liquid_entries as nat)
            + " ("@ + text::decimal(self.memory_squeezed_liquid_bytes as nat)
            + " bytes), disk_liquid="@ + text::decimal(self.disk_liquid_entries as nat)
            + ", disk_arrow="@ + text::decimal(self.disk_arrow_entries as nat)
    }

    /// The line that reports what the cache holds.
    pub fn line(&self) -> (line: String)
        ensures
            line@ == self.text(),
            line@ == "[LiquidCache] Stats: entries="@ + text::decimal(self.total_entries as nat)
                + ", memory="@ + text::decimal(self.memory_usage_bytes as nat)
                + "/"@ + text::decimal(self.max_memory_bytes as nat)
                + " bytes, disk="@ + text::decimal(self.disk_usage_bytes as nat)
                + "/"@ + text::decimal(self.max_disk_bytes as nat)
                + " bytes, arrow_mem="@ + text::decimal(self.memory_arrow_entries as nat)
                + " ("@ + text::decimal(self.memory_arrow_bytes as nat)
                + " bytes), liquid_mem="@ + text::decimal(self.memory_liquid_entries as nat)
                + " ("@ + text::decimal(self.memory_liquid_bytes as nat)
                + " bytes), squeezed_mem="@ + text::decimal(self.memory_squeezed_liquid_entries as nat)
                + " ("@ + text::decimal(self.memory_squeezed_liquid_bytes as nat)
                + " bytes), disk_liquid="@ + text::decimal(self.disk_liquid_entries as nat)
                + ", disk_arrow="@ + text::decimal(self.disk_arrow_entries as nat),
    {
        let mut line = "[LiquidCache] Stats: entries=".to_owned();
        append_decimal(&mut line, self.total_entries);
        append_field(&mut line, ", memory=", self.memory_usage_bytes);
        append_field(&mut line, "/", self.max_memory_bytes);
        append_field(&mut line, " bytes, disk=", self.disk_usage_bytes);
        append_field(&mut line, "/", self.max_disk_bytes);
        append_field(&mut line, " bytes, arrow_mem=", self.memory_arrow_entries);
        append_field(&mut line, " (", self.memory_arrow_bytes);
        append_field(&mut line, " bytes), liquid_mem=", self.memory_liquid_entries);
        append_field(&mut line, " (", self.memory_liquid_bytes);
        append_field(&mut line, " bytes), squeezed_mem=", self.memory_squeezed_liquid_entries);
        append_field(&mut line, " (", self.memory_squeezed_liquid_bytes);
        append_field(&mut line, " bytes), disk_liquid=", self.disk_liquid_entries);
        append_field(&mut line, ", disk_arrow=", self.disk_arrow_entries);
        line
    }
}

impl RuntimeStats {
    /// The line that reports what the cache has done.
    pub open spec fn text(self) -> Seq<char> {
        "[LiquidCache] Runtime: hits="@ + text::decimal(self.cache_hit as nat)
            + ", misses="@ + text::decimal(self.cache_miss as nat)
            + ", eval_predicate="@ + text::decimal(self.eval_predicate as nat)
            + ", squeezed_success="@ + text::decimal(self.get_squeezed_success as nat)
            + ", squeezed_needs_io="@ + text::decimal(self.get_squeezed_needs_io as nat)
            + ", read_io="@ + text::decimal(self.read_io_count as nat)
            + ", write_io="@ + text::decimal(self.write_io_count as nat)
            + ", disk_evictions="@ + text::decimal(self.disk_evictions as nat)
            + ", squeeze_io_saved="@ + text::decimal(self.squeeze_io_saved as nat)
    }

    /// The line that reports what the cache has done.
    pub fn line(&self) -> (line: String)
        ensures
            line@ == self.text(),
            line@ == "[LiquidCache] Runtime: hits="@ + text::decimal(self.cache_hit as nat)
                + ", misses="@ + text::decimal(self.cache_miss as nat)
                + ", eval_predicate="@ + text::decimal(self.eval_predicate as nat)
                + ", squeezed_success="@ + text::decimal(self.get_squeezed_success as nat)
                + ", squeezed_needs_io="@ + text::decimal(self.get_squeezed_needs_io as nat)
                + ", read_io="@ + text::decimal(self.read_io_count as nat)
                + ", write_io="@ + text::decimal(self.write_io_count as nat)
                + ", disk_evictions="@ + text::decimal(self.disk_evictions as nat)
                + ", squeeze_io_saved="@ + text::decimal(self.squeeze_io_saved as nat),
    {
        let mut line = "[LiquidCache] Runtime: hits=".to_owned();
        append_decimal(&mut line, self.cache_hit);
        append_field(&mut line, ", misses=", self.cache_miss);
        append_field(&mut line, ", eval_predicate=", self.eval_predicate);
        append_field(&mut line, ", squeezed_success=", self.get_squeezed_success);
        append_field(&mut line, ", squeezed_needs_io=", self.get_squeezed_needs_io);
        append_field(&mut line, ", read_io=", self.read_io_count);
        append_field(&mut line, ", write_io=", self.write_io_count);
        append_field(&mut line, ", disk_evictions=", self.disk_evictions);
        append_field(&mut line, ", squeeze_io_saved=", self.squeeze_io_saved);
        line
    }
}

/// The messages that report on the cache, in order: what it holds and what it has done, both
/// for debugging.
pub fn stats_messages(stats: &CacheStats, runtime: &RuntimeStats) -> (messages: Vec<LogMessage>)
    ensures
        logger::contents(messages@) == seq![
            (LogLevel::Debug, stats.text()),
            (LogLevel::Debug, runtime.text()),
        ],
        messages@.len() == 2,
        messages@[0].level is Debug && messages@[0].text@ == stats.text(),
        messages@[1].level is Debug && messages@[1].text@ == runtime.text(),
{
    let mut messages: Vec<LogMessage> = Vec::new();
    messages.push(LogMessage { level: LogLevel::Debug, text: stats.line() });
    messages.push(LogMessage { level: LogLevel::Debug, text: runtime.line() });
    assert(logger::contents(messages@) =~= seq![
        (LogLevel::Debug, stats.text()),
        (LogLevel::Debug, runtime.text()),
    ]);
    messages
}

/// A message ends with the cause as it is: two failures of one step in one directory have the
/// same message only if they have the same cause.
pub proof fn init_failure_keeps_the_cause(
    step: InitStep,
    cache_dir: Seq<char>,
    cause1: Seq<char>,
    cause2: Seq<char>,
)
    ensures
        init_failure(step, cache_dir, cause1).subrange(
            init_failure(step, cache_dir, cause1).len() - cause1.len(),
            init_failure(step, cache_dir, cause1).len() as int,
        ) == cause1,
        init_failure(step, cache_dir, cause1) == init_failure(step, cache_dir, cause2) ==> cause1
            == cause2,
{
    let a = init_failure(step, cache_dir, cause1);
    let b = init_failure(step, cache_dir, cause2);
    assert(a.subrange(a.len() - cause1.len(), a.len() as int) =~= cause1);
    assert(b.subrange(b.len() - cause2.len(), b.len() as int) =~= cause2);
}

/// A rule is picked at a position that carries its name, and no earlier position does; a list
/// that carries the name anywhere has such a position.
pub proof fn the_first_rule_of_a_name_is_picked(names: Seq<String>, name: Seq<char>, i: int, j: int)
    requires
        0 <= j < names.len(),
        names[j]@ == name,
    ensures
        !not_named(names, name),
        first_named(names, name, i) ==> 0 <= i <= j && names[i]@ == name,
        exists|k: int| first_named(names, name, k),
    decreases j,
{
    if exists|k: int| 0 <= k < j && (#[trigger] names[k])@ == name {
        let k = choose|k: int| 0 <= k < j && (#[trigger] names[k])@ == name;
        the_first_rule_of_a_name_is_picked(names, name, i, k);
    } else {
        assert(first_named(names, name, j));
    }
}

/// The name `lru` has the one policy, and all other names have the other.
pub proof fn one_name_has_its_own_policy(name: Seq<char>, other: Seq<char>)
    ensures
        policy_of("lru"@) is Lru,
        name != "lru"@ ==> policy_of(name) is Liquid,
        policy_of(name) == policy_of(other) <==> (name == "lru"@ <==> other == "lru"@),
{
}

} // verus!
