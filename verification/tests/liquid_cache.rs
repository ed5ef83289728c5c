use liquid_scan::liquid_cache::{
    after_init_step, after_reset_step, cache_setup, eviction_policy, first_init_step,
    first_reset_step, pick_rules, stats_messages, CacheStats, EvictionPolicy, HydrationPolicy,
    InitNext, InitStep, ResetStep, RuntimeStats, SessionRules, SqueezePolicy,
};
use liquid_scan::logger::{LogLevel, LogMessage};

fn names(list: &[&str]) -> Vec<String> {
    list.iter().map(|s| s.to_string()).collect()
}

fn failed(cause: &str) -> Result<(), String> {
    Err(cause.to_string())
}

#[test]
fn only_lru_names_the_lru_policy() {
    assert_eq!(eviction_policy("lru"), EvictionPolicy::Lru);
    assert_eq!(eviction_policy("liquid"), EvictionPolicy::Liquid);
    assert_eq!(eviction_policy("LRU"), EvictionPolicy::Liquid);
    assert_eq!(eviction_policy(""), EvictionPolicy::Liquid);
}

/// The texts of messages that are all of the given level.
fn texts(messages: &[LogMessage], level: LogLevel) -> Vec<String> {
    messages.iter().for_each(|m| assert_eq!(m.level, level));
    messages.iter().map(|m| m.text.clone()).collect()
}

#[test]
fn the_builder_gets_what_was_configured() {
    let setup = cache_setup(1 << 20, 1 << 30, "/tmp/cache", "lru");
    assert_eq!(setup.max_memory_bytes, 1 << 20);
    assert_eq!(setup.max_disk_bytes, 1 << 30);
    assert_eq!(setup.cache_dir, "/tmp/cache");
    assert_eq!(setup.eviction, EvictionPolicy::Lru);
    assert_eq!(setup.squeeze, SqueezePolicy::TranscodeThenEvict);
    assert_eq!(setup.hydration, HydrationPolicy::NoHydration);
    assert_eq!(cache_setup(0, 0, "", "other").eviction, EvictionPolicy::Liquid);
}

#[test]
fn init_steps_follow_one_another() {
    assert_eq!(first_init_step(), InitStep::CreateDir);
    let dir = "\"/tmp/cache\"";
    assert!(matches!(
        after_init_step(InitStep::CreateDir, dir, Ok(())),
        InitNext::Perform(InitStep::StartRuntime)
    ));
    assert!(matches!(
        after_init_step(InitStep::StartRuntime, dir, Ok(())),
        InitNext::Perform(InitStep::BuildCache)
    ));
    assert!(matches!(after_init_step(InitStep::BuildCache, dir, Ok(())), InitNext::PickRules));
}

#[test]
fn a_failed_init_step_aborts_with_its_message() {
    let dir = format!("{:?}", std::path::PathBuf::from("/tmp/cache"));
    let expected = [
        (InitStep::CreateDir, "Failed to create liquid cache dir \"/tmp/cache\": denied"),
        (
            InitStep::StartRuntime,
            "Failed to create tokio runtime for liquid cache init: denied",
        ),
        (InitStep::BuildCache, "Liquid cache build failed: denied"),
    ];
    for (step, text) in expected {
        match after_init_step(step, &dir, failed("denied")) {
            InitNext::Abort(message) => assert_eq!(message, text),
            _ => panic!("{:?} goes on", step),
        }
    }
}

#[test]
fn rules_are_picked_by_name_the_first_of_each() {
    let physical = names(&["a", "LocalModeLiquidCacheOptimizer", "LocalModeLiquidCacheOptimizer"]);
    let logical = names(&["LineageOptimizer", "b"]);
    assert_eq!(
        pick_rules(&physical, &logical),
        Ok(SessionRules { optimizer: 1, lineage_optimizer: 0 })
    );
}

#[test]
fn a_missing_rule_is_an_error() {
    let both = (names(&["LocalModeLiquidCacheOptimizer"]), names(&["LineageOptimizer"]));
    let no_optimizer =
        "LocalModeLiquidCacheOptimizer not found in Liquid Cache session state".to_string();
    let no_lineage = "LineageOptimizer not found in Liquid Cache session state".to_string();
    assert_eq!(pick_rules(&both.1, &both.1), Err(no_optimizer.clone()));
    assert_eq!(pick_rules(&both.0, &both.0), Err(no_lineage));
    assert_eq!(pick_rules(&vec![], &vec![]), Err(no_optimizer));
}

#[test]
fn a_reset_removes_a_directory_only_if_it_is_there() {
    assert_eq!(first_reset_step(true), ResetStep::RemoveDir);
    assert_eq!(first_reset_step(false), ResetStep::CreateDir);
}

fn reset(step: ResetStep, outcome: Result<(), String>) -> (ResetStep, Vec<String>) {
    let (next, messages) = after_reset_step(step, outcome);
    (next, texts(&messages, LogLevel::Info))
}

#[test]
fn a_reset_that_succeeds_logs_one_line() {
    assert_eq!(reset(ResetStep::RemoveDir, Ok(())), (ResetStep::CreateDir, vec![]));
    assert_eq!(
        reset(ResetStep::CreateDir, Ok(())),
        (ResetStep::Done, names(&["[LiquidCache] Cache cleared"]))
    );
    assert_eq!(reset(ResetStep::Done, Ok(())), (ResetStep::Done, vec![]));
}

#[test]
fn a_reset_goes_on_after_a_failure() {
    assert_eq!(
        reset(ResetStep::RemoveDir, failed("busy")),
        (ResetStep::CreateDir, names(&["[LiquidCache] Failed to clean cache dir: busy"]))
    );
    assert_eq!(
        reset(ResetStep::CreateDir, failed("full")),
        (
            ResetStep::Done,
            names(&[
                "[LiquidCache] Failed to recreate cache dir: full",
                "[LiquidCache] Cache cleared",
            ])
        )
    );
}

fn sample_stats() -> CacheStats {
    CacheStats {
        total_entries: 12,
        memory_usage_bytes: 3456,
        max_memory_bytes: 1_000_000,
        disk_usage_bytes: 0,
        max_disk_bytes: u64::MAX,
        memory_arrow_entries: 1,
        memory_arrow_bytes: 20,
        memory_liquid_entries: 3,
        memory_liquid_bytes: 400,
        memory_squeezed_liquid_entries: 5,
        memory_squeezed_liquid_bytes: 6000,
        disk_liquid_entries: 7,
        disk_arrow_entries: 8,
    }
}

#[test]
fn the_stats_line_reports_what_the_cache_holds() {
    assert_eq!(
        sample_stats().line(),
        "[LiquidCache] Stats: entries=12, memory=3456/1000000 bytes, \
         disk=0/18446744073709551615 bytes, arrow_mem=1 (20 bytes), liquid_mem=3 (400 bytes), \
         squeezed_mem=5 (6000 bytes), disk_liquid=7, disk_arrow=8"
    );
}

fn sample_runtime() -> RuntimeStats {
    RuntimeStats {
        cache_hit: 10,
        cache_miss: 9,
        eval_predicate: 100,
        get_squeezed_success: 1,
        get_squeezed_needs_io: 2,
        read_io_count: 30,
        write_io_count: 40,
        disk_evictions: 0,
        squeeze_io_saved: 1234567890,
    }
}

#[test]
fn the_runtime_line_reports_what_the_cache_has_done() {
    assert_eq!(
        sample_runtime().line(),
        "[LiquidCache] Runtime: hits=10, misses=9, eval_predicate=100, squeezed_success=1, \
         squeezed_needs_io=2, read_io=30, write_io=40, disk_evictions=0, \
         squeeze_io_saved=1234567890"
    );
}

#[test]
fn both_reports_are_for_debugging_and_in_order() {
    let messages = stats_messages(&sample_stats(), &sample_runtime());
    assert_eq!(
        texts(&messages, LogLevel::Debug),
        vec![sample_stats().line(), sample_runtime().line()]
    );
}
