use vstd::prelude::*;
use crate::guc::{ExplainFormat, Settings};
use crate::emit::{log_record, message_body, LogRecord};
use crate::instrument::{
    instrumented_options, instruments, lemma_instrumented_options_hold_request,
};
use crate::worker::Worker;

verus! {

pub const NANOS_PER_MILLI: u64 = 1_000_000;

pub const NEWLINE: u8 = 10;

pub const OPEN_BRACE: u8 = 123;

pub const CLOSE_BRACE: u8 = 125;

/// The options of one report, as they are set on the host's report object.
#[derive(Clone, Copy, PartialEq, Eq, Debug, Structural)]
pub struct ReportOptions {
    pub analyze: bool,
    pub verbose: bool,
    pub buffers: bool,
    pub wal: bool,
    pub timing: bool,
    pub summary: bool,
    pub format: ExplainFormat,
    pub settings: bool,
}

/// One call into the host's renderer. Each appends to the report's buffer.
#[derive(Clone, Copy, PartialEq, Eq, Debug, Structural)]
pub enum ReportStep {
    BeginOutput,
    QueryText,
    /// Parameter values, each cut to `max_length` bytes where it is not negative.
    QueryParameters { max_length: i32 },
    PrintPlan,
    PrintTriggers,
    PrintJitSummary,
    EndOutput,
}

/// Whether a statement that ran for `elapsed_ns` nanoseconds ran long enough
/// to be reported. A negative threshold is below every duration.
pub open spec fn threshold_met(settings: Settings, elapsed_ns: u64) -> bool {
    elapsed_ns as int >= settings.log_min_duration as int * NANOS_PER_MILLI as int
}

/// The options of the report for an execution whose instrumentation options
/// are `instrument_options`. Run-time statistics are shown only where the
/// execution collected any and the configuration asks for them; buffers,
/// write-ahead log and timing only where statistics are shown.
pub open spec fn report_options(settings: Settings, instrument_options: i32) -> ReportOptions {
    let analyze = instrument_options != 0 && settings.log_analyze;
    ReportOptions {
        analyze,
        verbose: settings.log_verbose,
        buffers: analyze && settings.log_buffers,
        wal: analyze && settings.log_wal,
        timing: analyze && settings.log_timing,
        summary: analyze,
        format: settings.log_format,
        settings: settings.log_settings,
    }
}

/// A report shows run-time statistics only where they are configured and
/// the execution collected any, and buffers, write-ahead log, timing and
/// the summary only together with them.
pub proof fn lemma_statistics_need_analysis(settings: Settings, instrument_options: i32)
    ensures
        report_options(settings, instrument_options).analyze ==> settings.log_analyze
            && instrument_options != 0,
        !report_options(settings, instrument_options).analyze ==> {
            &&& !report_options(settings, instrument_options).buffers
            &&& !report_options(settings, instrument_options).wal
            &&& !report_options(settings, instrument_options).timing
            &&& !report_options(settings, instrument_options).summary
        },
{
}

/// An execution that was instrumented at its start is reported with
/// run-time statistics, as long as the settings stay as they were.
pub proof fn lemma_instrumented_execution_is_analyzed(
    settings: Settings,
    worker: Worker,
    eflags: i32,
    options: i32,
)
    requires
        instruments(settings, worker, eflags),
    ensures
        report_options(
            settings,
            instrumented_options(settings, worker, eflags, options),
        ).analyze,
{
    lemma_instrumented_options_hold_request(settings, worker, eflags, options);
}

/// The longer of two executions is reported wherever the shorter is.
pub proof fn lemma_threshold_is_monotonic(settings: Settings, shorter: u64, longer: u64)
    requires
        shorter <= longer,
        threshold_met(settings, shorter),
    ensures
        threshold_met(settings, longer),
{
}

/// The report that is owed at the end of an execution. `elapsed` is the time
/// on the execution's accumulator, in nanoseconds, where it has one.
pub open spec fn planned_report(
    settings: Settings,
    instrument_options: i32,
    elapsed: Option<u64>,
) -> Option<ReportOptions> {
    match elapsed {
        Some(elapsed_ns) if threshold_met(settings, elapsed_ns) => Some(
            report_options(settings, instrument_options),
        ),
        _ => None,
    }
}

/// Tells whether a statement that ran for `elapsed_ns` nanoseconds ran long
/// enough to be reported.
pub fn meets_threshold(settings: &Settings, elapsed_ns: u64) -> (met: bool)
    ensures
        met == threshold_met(*settings, elapsed_ns),
        settings.log_min_duration <= 0 ==> met,
{
    settings.log_min_duration < 0 || elapsed_ns / NANOS_PER_MILLI
        >= settings.log_min_duration as u64
}

/// Decides at the end of an execution whether its plan is reported, and with
/// which options. Nothing is reported for an execution without a time
/// accumulator, nor for one that ended below the threshold.
pub fn plan_report(
    settings: &Settings,
    instrument_options: i32,
    elapsed: Option<u64>,
) -> (report: Option<ReportOptions>)
    ensures
        report == planned_report(*settings, instrument_options, elapsed),
        report.is_some() <==> elapsed.is_some() && threshold_met(*settings, elapsed.unwrap()),
        elapsed.is_none() ==> report.is_none(),
        elapsed.is_some() && settings.log_min_duration <= 0 ==> report.is_some(),
{
    match elapsed {
        None => None,
        Some(elapsed_ns) => {
            if meets_threshold(settings, elapsed_ns) {
                let analyze = instrument_options != 0 && settings.log_analyze;
                Some(
                    ReportOptions {
                        analyze,
                        verbose: settings.log_verbose,
                        buffers: analyze && settings.log_buffers,
                        wal: analyze && settings.log_wal,
                        timing: analyze && settings.log_timing,
                        summary: analyze,
                        format: settings.log_format,
                        settings: settings.log_settings,
                    },
                )
            } else {
                None
            }
        },
    }
}

/// The renderer calls that assemble a report, in the order in which they are
/// made. Trigger statistics are printed only with run-time statistics and
/// where the configuration asks for them, the JIT summary only where the
/// report object shows costs.
pub open spec fn report_sequence(
    settings: Settings,
    options: ReportOptions,
    costs: bool,
) -> Seq<ReportStep> {
    seq![
        ReportStep::BeginOutput,
        ReportStep::QueryText,
        ReportStep::QueryParameters { max_length: settings.log_parameter_max_length },
        ReportStep::PrintPlan,
    ] + (if options.analyze && settings.log_triggers {
        seq![ReportStep::PrintTriggers]
    } else {
        Seq::<ReportStep>::empty()
    }) + (if costs {
        seq![ReportStep::PrintJitSummary]
    } else {
        Seq::<ReportStep>::empty()
    }) + seq![ReportStep::EndOutput]
}

/// Lists the renderer calls for a report. `costs` is whether the host's
/// report object shows costs.
pub fn report_steps(
    settings: &Settings,
    options: &ReportOptions,
    costs: bool,
) -> (steps: Vec<ReportStep>)
    ensures
        steps@ == report_sequence(*settings, *options, costs),
{
    let mut steps: Vec<ReportStep> = Vec::new();
    steps.push(ReportStep::BeginOutput);
    steps.push(ReportStep::QueryText);
    steps.push(ReportStep::QueryParameters { max_length: settings.log_parameter_max_length });
    steps.push(ReportStep::PrintPlan);
    if options.analyze && settings.log_triggers {
        steps.push(ReportStep::PrintTriggers);
    }
    if costs {
        steps.push(ReportStep::PrintJitSummary);
    }
    steps.push(ReportStep::EndOutput);
    assert(steps@ =~= report_sequence(*settings, *options, costs));
    steps
}

/// `text` without the newline that ends it, where one does.
pub open spec fn without_final_newline(text: Seq<u8>) -> Seq<u8> {
    if text.len() > 0 && text.last() == NEWLINE {
        text.drop_last()
    } else {
        text
    }
}

/// `text` with an opening brace in place of its first byte and then a closing
/// brace in place of its last. Empty text has neither and stays empty.
pub open spec fn braced(text: Seq<u8>) -> Seq<u8> {
    if text.len() == 0 {
        text
    } else {
        text.update(0, OPEN_BRACE).update(text.len() - 1, CLOSE_BRACE)
    }
}

/// The text that is logged for a rendered buffer: one newline at its end is
/// cut off, and in the JSON format the brackets of the renderer's one-element
/// array give way to braces.
pub open spec fn finished_text(rendered: Seq<u8>, format: ExplainFormat) -> Seq<u8> {
    if format == ExplainFormat::JSON {
        braced(without_final_newline(rendered))
    } else {
        without_final_newline(rendered)
    }
}

/// Turns a rendered buffer into the text that is logged.
pub fn post_process(rendered: Vec<u8>, format: ExplainFormat) -> (text: Vec<u8>)
    ensures
        text@ == finished_text(rendered@, format),
{
    let mut text = rendered;
    let len = text.len();
    if len > 0 && text[len - 1] == NEWLINE {
        text.truncate(len - 1);
    }
    assert(text@ == without_final_newline(rendered@));
    let len = text.len();
    match format {
        ExplainFormat::JSON => {
            if len > 0 {
                text[0] = OPEN_BRACE;
                text[len - 1] = CLOSE_BRACE;
            }
        },
        _ => {},
    }
    text
}

/// Cutting the final newline off a buffer that ends in exactly one leaves
/// text that is one byte shorter and ends in none, whatever the format.
pub proof fn lemma_single_newline_removed(rendered: Seq<u8>, format: ExplainFormat)
    requires
        rendered.len() > 0,
        rendered.last() == NEWLINE,
        rendered.len() >= 2 ==> rendered[rendered.len() - 2] != NEWLINE,
    ensures
        finished_text(rendered, format).len() == rendered.len() - 1,
        finished_text(rendered, format).len() > 0 ==> finished_text(rendered, format).last()
            != NEWLINE,
        format != ExplainFormat::JSON ==> finished_text(rendered, format) == rendered.drop_last(),
{
}

/// In the JSON format the finished text begins with an opening brace and
/// ends with a closing one, wherever at least two bytes are left after the
/// final newline is cut off; no newline ends it.
pub proof fn lemma_json_text_is_braced(rendered: Seq<u8>)
    requires
        without_final_newline(rendered).len() >= 2,
    ensures
        finished_text(rendered, ExplainFormat::JSON).first() == OPEN_BRACE,
        finished_text(rendered, ExplainFormat::JSON).last() == CLOSE_BRACE,
        finished_text(rendered, ExplainFormat::JSON).len() == without_final_newline(rendered).len(),
        forall|i: int|
            0 < i < finished_text(rendered, ExplainFormat::JSON).len() - 1
                ==> finished_text(rendered, ExplainFormat::JSON)[i] == rendered[i],
{
}

/// The finished text is one byte shorter than a buffer that ends in a
/// newline and as long as any other buffer, whatever the format.
pub proof fn lemma_finished_text_length(rendered: Seq<u8>, format: ExplainFormat)
    ensures
        finished_text(rendered, format).len() == without_final_newline(rendered).len(),
        rendered.len() > 0 && rendered.last() == NEWLINE ==> finished_text(rendered, format).len()
            == rendered.len() - 1,
        !(rendered.len() > 0 && rendered.last() == NEWLINE) ==> finished_text(
            rendered,
            format,
        ).len() == rendered.len(),
{
}

/// Outside the JSON format, text that ends in no newline is logged as it
/// was rendered.
pub proof fn lemma_text_without_newline_is_kept(rendered: Seq<u8>, format: ExplainFormat)
    requires
        format != ExplainFormat::JSON,
        rendered.len() == 0 || rendered.last() != NEWLINE,
    ensures
        finished_text(rendered, format) == rendered,
{
}

/// The message that ends an execution: the finished text of the rendered
/// buffer behind the duration, at the configured level.
pub fn finish_report(settings: &Settings, elapsed_ns: u64, rendered: Vec<u8>) -> (record: LogRecord)
    ensures
        record.severity == settings.log_level.severity(),
        record.status == settings.log_level.status(),
        record.message@ == message_body(
            elapsed_ns,
            finished_text(rendered@, settings.log_format),
        ),
{
    let text = post_process(rendered, settings.log_format);
    log_record(settings.log_level, elapsed_ns, &text)
}

} // verus!
