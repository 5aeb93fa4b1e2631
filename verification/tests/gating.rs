use auto_explain::guc::{
    auto_explain_enabled, ExplainFormat, GucLogLevel, Settings, Severity, StatusCode,
};
use auto_explain::hooks::{
    explain_executor_end, explain_executor_finish, explain_executor_run, explain_executor_start,
    init, is_parallel_worker, needs_time_accumulator, Delegate, EndPlan, HookChain, Phase,
    StartPlan,
};
use auto_explain::instrument::{
    instrument_request, start_instrument_options, EXEC_FLAG_EXPLAIN_ONLY, INSTRUMENT_BUFFERS,
    INSTRUMENT_ROWS, INSTRUMENT_TIMER, INSTRUMENT_WAL,
};
use auto_explain::worker::Worker;

fn observing() -> Settings {
    Settings { log_min_duration: 0, log_nested_statements: true, ..Settings::default() }
}

fn sampled() -> Worker {
    Worker { nesting_level: 0, current_query_sampled: true }
}

#[test]
fn format_numbers() {
    assert_eq!(ExplainFormat::TEXT.as_u32(), 0);
    assert_eq!(ExplainFormat::XML.as_u32(), 1);
    assert_eq!(ExplainFormat::JSON.as_u32(), 2);
    assert_eq!(ExplainFormat::YAML.as_u32(), 3);
}

#[test]
fn levels_map_to_severities() {
    assert_eq!(GucLogLevel::DEBUG5.log_level(), Severity::Debug5);
    assert_eq!(GucLogLevel::DEBUG4.log_level(), Severity::Debug4);
    assert_eq!(GucLogLevel::DEBUG3.log_level(), Severity::Debug3);
    assert_eq!(GucLogLevel::DEBUG.log_level(), Severity::Debug2);
    assert_eq!(GucLogLevel::DEBUG1.log_level(), Severity::Debug1);
    assert_eq!(GucLogLevel::INFO.log_level(), Severity::Info);
    assert_eq!(GucLogLevel::NOTICE.log_level(), Severity::Notice);
    assert_eq!(GucLogLevel::WARNING.log_level(), Severity::Warning);
    assert_eq!(GucLogLevel::LOG.log_level(), Severity::Log);
    assert_eq!(GucLogLevel::NULL.log_level(), Severity::Error);
}

#[test]
fn only_warning_has_the_warning_status() {
    let levels = [
        GucLogLevel::DEBUG5,
        GucLogLevel::DEBUG4,
        GucLogLevel::DEBUG3,
        GucLogLevel::DEBUG1,
        GucLogLevel::DEBUG,
        GucLogLevel::INFO,
        GucLogLevel::NOTICE,
        GucLogLevel::LOG,
        GucLogLevel::NULL,
    ];
    for level in levels {
        assert_eq!(level.errcode(), StatusCode::SuccessfulCompletion);
    }
    assert_eq!(GucLogLevel::WARNING.errcode(), StatusCode::Warning);
}

#[test]
fn default_settings() {
    let settings = Settings::default();
    assert_eq!(settings.log_min_duration, -1);
    assert_eq!(settings.log_parameter_max_length, -1);
    assert!(!settings.log_analyze);
    assert!(!settings.log_verbose);
    assert!(!settings.log_buffers);
    assert!(!settings.log_wal);
    assert!(!settings.log_triggers);
    assert!(!settings.log_timing);
    assert!(!settings.log_settings);
    assert!(!settings.log_nested_statements);
    assert_eq!(settings.log_format, ExplainFormat::TEXT);
    assert_eq!(settings.log_level, GucLogLevel::LOG);
}

#[test]
fn new_worker_is_idle() {
    assert_eq!(Worker::new(), Worker { nesting_level: 0, current_query_sampled: false });
}

#[test]
fn observed_when_every_condition_holds() {
    assert!(auto_explain_enabled(&observing(), &sampled()));
}

#[test]
fn disabled_threshold_is_never_observed() {
    for analyze in [false, true] {
        for nested in [false, true] {
            for flag in [false, true] {
                let settings = Settings {
                    log_min_duration: -1,
                    log_analyze: analyze,
                    log_nested_statements: nested,
                    ..Settings::default()
                };
                let worker = Worker { nesting_level: 0, current_query_sampled: flag };
                assert!(!auto_explain_enabled(&settings, &worker));
            }
        }
    }
}

#[test]
fn nested_start_is_never_observed() {
    for level in [1, 2, 17, i32::MAX, -1] {
        let worker = Worker { nesting_level: level, current_query_sampled: true };
        assert!(!auto_explain_enabled(&observing(), &worker));
    }
}

#[test]
fn top_level_needs_nested_statement_logging() {
    let settings = Settings { log_nested_statements: false, ..observing() };
    assert!(!auto_explain_enabled(&settings, &sampled()));
}

#[test]
fn unsampled_statement_is_not_observed() {
    let worker = Worker { nesting_level: 0, current_query_sampled: false };
    assert!(!auto_explain_enabled(&observing(), &worker));
}

#[test]
fn parallel_worker_numbers() {
    assert!(!is_parallel_worker(-1));
    assert!(is_parallel_worker(0));
    assert!(is_parallel_worker(3));
    assert!(!is_parallel_worker(i32::MIN));
}

#[test]
fn draw_is_due_only_at_top_level_outside_parallel_workers() {
    let settings = observing();
    let top = Worker::new();
    assert!(top.needs_sample_draw(&settings, false));
    assert!(!top.needs_sample_draw(&settings, true));
    assert!(!top.needs_sample_draw(&Settings::default(), false));
    let nested = Worker { nesting_level: 1, current_query_sampled: false };
    assert!(!nested.needs_sample_draw(&settings, false));
}

#[test]
fn top_level_start_takes_the_draw() {
    let mut worker = Worker::new();
    worker.begin_statement(&observing(), false, true);
    assert_eq!(worker, Worker { nesting_level: 0, current_query_sampled: true });
    worker.begin_statement(&observing(), false, false);
    assert_eq!(worker, Worker { nesting_level: 0, current_query_sampled: false });
}

#[test]
fn top_level_start_clears_the_flag_without_a_draw() {
    let mut worker = sampled();
    worker.begin_statement(&observing(), true, true);
    assert!(!worker.current_query_sampled);
    let mut worker = sampled();
    worker.begin_statement(&Settings::default(), false, true);
    assert!(!worker.current_query_sampled);
}

#[test]
fn nested_start_keeps_the_flag() {
    for flag in [false, true] {
        for hit in [false, true] {
            let mut worker = Worker { nesting_level: 2, current_query_sampled: flag };
            worker.begin_statement(&observing(), false, hit);
            worker.begin_statement(&observing(), true, hit);
            worker.begin_statement(&Settings::default(), false, hit);
            assert_eq!(worker, Worker { nesting_level: 2, current_query_sampled: flag });
        }
    }
}

#[test]
fn zero_sample_rate_observes_nothing() {
    let rate: f64 = 0.0;
    let settings = Settings { log_analyze: true, ..observing() };
    let mut worker = Worker::new();
    for draw in [0.0_f64, 0.25, 0.5, 0.999_999] {
        assert!(worker.needs_sample_draw(&settings, false));
        worker.begin_statement(&settings, false, draw < rate);
        assert!(!auto_explain_enabled(&settings, &worker));
        assert_eq!(start_instrument_options(&settings, &worker, 0, 0), 0);
        assert!(!needs_time_accumulator(&settings, &worker, false));
    }
}

#[test]
fn leave_restores_the_level() {
    let mut worker = sampled();
    worker.enter();
    assert_eq!(worker.nesting_level, 1);
    assert!(worker.current_query_sampled);
    worker.enter();
    assert_eq!(worker.nesting_level, 2);
    worker.leave();
    worker.enter();
    worker.leave();
    worker.leave();
    assert_eq!(worker, sampled());
}

#[test]
fn nothing_is_observed_inside_a_phase() {
    let mut worker = sampled();
    worker.enter();
    assert!(!auto_explain_enabled(&observing(), &worker));
    worker.leave();
    assert!(auto_explain_enabled(&observing(), &worker));
}

#[test]
fn requested_facilities() {
    let base = Settings::default();
    assert_eq!(instrument_request(&base), 4);
    assert_eq!(instrument_request(&Settings { log_timing: true, ..base }), 1);
    assert_eq!(instrument_request(&Settings { log_buffers: true, ..base }), 6);
    assert_eq!(instrument_request(&Settings { log_wal: true, ..base }), 12);
    assert_eq!(
        instrument_request(&Settings {
            log_timing: true,
            log_buffers: true,
            log_wal: true,
            ..base
        }),
        11
    );
    assert_eq!(INSTRUMENT_TIMER | INSTRUMENT_BUFFERS | INSTRUMENT_WAL, 11);
}

#[test]
fn timing_and_row_counts_exclude_each_other() {
    for buffers in [false, true] {
        for wal in [false, true] {
            let with = Settings {
                log_timing: true,
                log_buffers: buffers,
                log_wal: wal,
                ..Settings::default()
            };
            let without = Settings { log_timing: false, ..with };
            assert_eq!(instrument_request(&with) & INSTRUMENT_ROWS, 0);
            assert_eq!(instrument_request(&with) & INSTRUMENT_TIMER, INSTRUMENT_TIMER);
            assert_eq!(instrument_request(&without) & INSTRUMENT_ROWS, INSTRUMENT_ROWS);
            assert_eq!(instrument_request(&without) & INSTRUMENT_TIMER, 0);
        }
    }
}

#[test]
fn start_adds_facilities_and_keeps_what_was_set() {
    let settings = Settings { log_analyze: true, log_buffers: true, ..observing() };
    assert_eq!(start_instrument_options(&settings, &sampled(), 0, 0), 6);
    assert_eq!(start_instrument_options(&settings, &sampled(), 0, 16), 22);
    assert_eq!(start_instrument_options(&settings, &sampled(), 0, 1), 7);
    assert_eq!(start_instrument_options(&settings, &sampled(), 2, 16), 22);
    let timed = Settings { log_timing: true, ..settings };
    assert_eq!(start_instrument_options(&timed, &sampled(), 0, 0), 3);
}

#[test]
fn start_leaves_options_alone_without_analysis() {
    let analyze = Settings { log_analyze: true, log_timing: true, ..observing() };
    assert_eq!(start_instrument_options(&observing(), &sampled(), 0, 16), 16);
    assert_eq!(start_instrument_options(&analyze, &sampled(), EXEC_FLAG_EXPLAIN_ONLY, 16), 16);
    assert_eq!(start_instrument_options(&analyze, &sampled(), 3, 16), 16);
    assert_eq!(start_instrument_options(&analyze, &Worker::new(), 0, 16), 16);
    let nested = Worker { nesting_level: 1, current_query_sampled: true };
    assert_eq!(start_instrument_options(&analyze, &nested, 0, 16), 16);
    let disabled = Settings { log_min_duration: -1, ..analyze };
    assert_eq!(start_instrument_options(&disabled, &sampled(), 0, 16), 16);
}

#[test]
fn accumulator_is_made_once_for_an_observed_statement() {
    assert!(needs_time_accumulator(&observing(), &sampled(), false));
    assert!(!needs_time_accumulator(&observing(), &sampled(), true));
    assert!(!needs_time_accumulator(&observing(), &Worker::new(), false));
    assert!(!needs_time_accumulator(&Settings::default(), &sampled(), false));
}

#[test]
fn hooks_hand_on_to_what_was_there() {
    let chain = init(true, false, false, true);
    assert_eq!(
        chain,
        HookChain {
            previous_start: true,
            previous_run: false,
            previous_finish: false,
            previous_end: true
        }
    );
    assert_eq!(chain.delegate(Phase::Start), Delegate::Previous);
    assert_eq!(chain.delegate(Phase::Run), Delegate::Standard);
    assert_eq!(chain.delegate(Phase::Finish), Delegate::Standard);
    assert_eq!(chain.delegate(Phase::End), Delegate::Previous);
    let other = init(false, true, true, false);
    assert_eq!(other.delegate(Phase::Start), Delegate::Standard);
    assert_eq!(other.delegate(Phase::Run), Delegate::Previous);
    assert_eq!(other.delegate(Phase::Finish), Delegate::Previous);
    assert_eq!(other.delegate(Phase::End), Delegate::Standard);
}

fn bare_chain() -> HookChain {
    init(false, false, false, false)
}

fn start_plan(instrument_options: i32) -> StartPlan {
    StartPlan { instrument_options, delegate: Delegate::Standard }
}

#[test]
fn start_hook_samples_and_instruments() {
    let settings = Settings { log_analyze: true, log_timing: true, log_wal: true, ..observing() };
    let chain = bare_chain();
    let mut worker = Worker::new();
    let plan = explain_executor_start(&mut worker, &chain, &settings, false, true, 0, 32);
    assert_eq!(plan, start_plan(41));
    assert_eq!(worker, sampled());
    let plan = explain_executor_start(&mut worker, &chain, &settings, false, false, 0, 32);
    assert_eq!(plan, start_plan(32));
    assert_eq!(worker, Worker::new());
}

#[test]
fn start_hook_in_a_parallel_worker() {
    let settings = Settings { log_analyze: true, ..observing() };
    let mut worker = sampled();
    let plan = explain_executor_start(&mut worker, &bare_chain(), &settings, true, true, 0, 2);
    assert_eq!(plan, start_plan(2));
    assert_eq!(worker, Worker::new());
}

#[test]
fn start_hook_of_a_nested_statement() {
    let settings = Settings { log_analyze: true, ..observing() };
    let chain = init(true, true, false, false);
    let mut worker = sampled();
    assert_eq!(explain_executor_run(&mut worker, &chain), Delegate::Previous);
    let inside = worker;
    assert_eq!(inside, Worker { nesting_level: 1, current_query_sampled: true });
    let plan = explain_executor_start(&mut worker, &chain, &settings, false, false, 0, 2);
    assert_eq!(plan, StartPlan { instrument_options: 2, delegate: Delegate::Previous });
    assert_eq!(worker, inside);
    worker.leave();
    assert_eq!(worker, sampled());
    assert!(auto_explain_enabled(&settings, &worker));
}

#[test]
fn start_hook_with_the_feature_off() {
    let settings =
        Settings { log_analyze: true, log_nested_statements: true, ..Settings::default() };
    let mut worker = sampled();
    let plan = explain_executor_start(&mut worker, &bare_chain(), &settings, false, true, 0, 8);
    assert_eq!(plan, start_plan(8));
    assert_eq!(worker, Worker::new());
}

#[test]
fn run_and_finish_hooks_enter_a_phase() {
    let chain = init(false, false, true, false);
    let mut worker = Worker::new();
    assert_eq!(explain_executor_run(&mut worker, &chain), Delegate::Standard);
    assert_eq!(worker.nesting_level, 1);
    assert_eq!(explain_executor_finish(&mut worker, &chain), Delegate::Previous);
    assert_eq!(worker.nesting_level, 2);
    worker.leave();
    worker.leave();
    assert_eq!(worker, Worker::new());
}

#[test]
fn short_statement_is_handed_on_without_a_report() {
    let settings = Settings { log_min_duration: 100, ..observing() };
    assert_eq!(
        explain_executor_end(&bare_chain(), &settings, 0, Some(10_000_000)),
        EndPlan { report: None, delegate: Delegate::Standard }
    );
    let chained = init(false, false, false, true);
    assert_eq!(
        explain_executor_end(&chained, &settings, 0, Some(10_000_000)),
        EndPlan { report: None, delegate: Delegate::Previous }
    );
    assert_eq!(
        explain_executor_end(&chained, &settings, 0, None),
        EndPlan { report: None, delegate: Delegate::Previous }
    );
}

#[test]
fn long_statement_is_reported_and_handed_on() {
    let settings = Settings { log_min_duration: 100, log_verbose: true, ..observing() };
    let plan = explain_executor_end(&bare_chain(), &settings, 0, Some(100_000_000));
    assert_eq!(plan.delegate, Delegate::Standard);
    let report = plan.report.unwrap();
    assert!(report.verbose);
    assert!(!report.analyze);
    assert_eq!(report.format, ExplainFormat::TEXT);
}
