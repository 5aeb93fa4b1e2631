use vstd::prelude::*;
use crate::worker::Worker;

verus! {

/// Output format of a rendered plan.
#[derive(Clone, Copy, PartialEq, Eq, Debug, Structural)]
pub enum ExplainFormat {
    TEXT,
    XML,
    JSON,
    YAML,
}

impl ExplainFormat {
    /// The number under which the host's renderer knows this format.
    pub open spec fn code(self) -> u32 {
        match self {
            ExplainFormat::TEXT => 0,
            ExplainFormat::XML => 1,
            ExplainFormat::JSON => 2,
            ExplainFormat::YAML => 3,
        }
    }

    pub fn as_u32(self) -> (code: u32)
        ensures
            code == self.code(),
    {
        match self {
            ExplainFormat::TEXT => 0,
            ExplainFormat::XML => 1,
            ExplainFormat::JSON => 2,
            ExplainFormat::YAML => 3,
        }
    }
}

/// A severity of the host's reporting channel, in increasing order of weight.
#[derive(Clone, Copy, PartialEq, Eq, Debug, Structural)]
pub enum Severity {
    Debug5,
    Debug4,
    Debug3,
    Debug2,
    Debug1,
    Log,
    Info,
    Notice,
    Warning,
    Error,
}

/// The status code that travels with a message.
#[derive(Clone, Copy, PartialEq, Eq, Debug, Structural)]
pub enum StatusCode {
    SuccessfulCompletion,
    Warning,
}

/// The levels that the `log_level` option can be set to.
#[derive(Clone, Copy, PartialEq, Eq, Debug, Structural)]
pub enum GucLogLevel {
    DEBUG5,
    DEBUG4,
    DEBUG3,
    DEBUG1,
    DEBUG,
    INFO,
    NOTICE,
    WARNING,
    LOG,
    NULL,
}

impl GucLogLevel {
    /// The severity that a message at this level is sent with. `DEBUG` stands
    /// for the second debug level. `NULL` names no level of the host's scale,
    /// and what names none is reported as an error.
    pub open spec fn severity(self) -> Severity {
        match self {
            GucLogLevel::DEBUG => Severity::Debug2,
            GucLogLevel::DEBUG1 => Severity::Debug1,
            GucLogLevel::DEBUG3 => Severity::Debug3,
            GucLogLevel::DEBUG4 => Severity::Debug4,
            GucLogLevel::DEBUG5 => Severity::Debug5,
            GucLogLevel::INFO => Severity::Info,
            GucLogLevel::NOTICE => Severity::Notice,
            GucLogLevel::WARNING => Severity::Warning,
            GucLogLevel::LOG => Severity::Log,
            GucLogLevel::NULL => Severity::Error,
        }
    }

    /// The status code of a message at this level: a warning has a code of its
    /// own, every other level reports successful completion.
    pub open spec fn status(self) -> StatusCode {
        if self == GucLogLevel::WARNING {
            StatusCode::Warning
        } else {
            StatusCode::SuccessfulCompletion
        }
    }

    pub fn log_level(self) -> (severity: Severity)
        ensures
            severity == self.severity(),
    {
        match self {
            GucLogLevel::DEBUG => Severity::Debug2,
            GucLogLevel::DEBUG1 => Severity::Debug1,
            GucLogLevel::DEBUG3 => Severity::Debug3,
            GucLogLevel::DEBUG4 => Severity::Debug4,
            GucLogLevel::DEBUG5 => Severity::Debug5,
            GucLogLevel::INFO => Severity::Info,
            GucLogLevel::NOTICE => Severity::Notice,
            GucLogLevel::WARNING => Severity::Warning,
            GucLogLevel::LOG => Severity::Log,
            GucLogLevel::NULL => Severity::Error,
        }
    }

    pub fn errcode(self) -> (code: StatusCode)
        ensures
            code == self.status(),
            code == StatusCode::Warning <==> self == GucLogLevel::WARNING,
    {
        match self {
            GucLogLevel::WARNING => StatusCode::Warning,
            _ => StatusCode::SuccessfulCompletion,
        }
    }
}

/// The options as they stand at one decision point. Every decision takes the
/// snapshot that was read for it; none is kept from one point to the next.
/// The sample rate is a fraction and no part of the snapshot: it is read
/// where the draw is taken.
#[derive(Clone, Copy, PartialEq, Eq, Debug, Structural)]
pub struct Settings {
    /// Least execution time, in milliseconds, from which a plan is logged.
    /// Zero logs every plan; a negative value turns the feature off.
    pub log_min_duration: i32,
    /// Longest parameter text that is logged: -1 for all of it, 0 for none.
    pub log_parameter_max_length: i32,
    pub log_analyze: bool,
    pub log_verbose: bool,
    pub log_buffers: bool,
    pub log_wal: bool,
    pub log_triggers: bool,
    pub log_timing: bool,
    pub log_settings: bool,
    pub log_format: ExplainFormat,
    pub log_level: GucLogLevel,
    pub log_nested_statements: bool,
}

impl Settings {
    /// The values that the options have before anyone sets them.
    pub open spec fn initial() -> Settings {
        Settings {
            log_min_duration: -1i32,
            log_parameter_max_length: -1i32,
            log_analyze: false,
            log_verbose: false,
            log_buffers: false,
            log_wal: false,
            log_triggers: false,
            log_timing: false,
            log_settings: false,
            log_format: ExplainFormat::TEXT,
            log_level: GucLogLevel::LOG,
            log_nested_statements: false,
        }
    }

    /// Whether a threshold is configured at all.
    pub open spec fn threshold_configured(self) -> bool {
        self.log_min_duration >= 0
    }
}

impl Default for Settings {
    fn default() -> (settings: Settings)
        ensures
            settings == Settings::initial(),
    {
        Settings {
            log_min_duration: -1,
            log_parameter_max_length: -1,
            log_analyze: false,
            log_verbose: false,
            log_buffers: false,
            log_wal: false,
            log_triggers: false,
            log_timing: false,
            log_settings: false,
            log_format: ExplainFormat::TEXT,
            log_level: GucLogLevel::LOG,
            log_nested_statements: false,
        }
    }
}

/// Whether the statement at hand is under observation.
pub open spec fn observed(settings: Settings, worker: Worker) -> bool {
    &&& settings.threshold_configured()
    &&& worker.at_top_level()
    &&& settings.log_nested_statements
    &&& worker.current_query_sampled
}

/// Decides whether the statement at hand is under observation: a threshold
/// is configured, nothing is open around the statement, nested statements
/// are logged, and the statement was sampled.
pub fn auto_explain_enabled(settings: &Settings, worker: &Worker) -> (enabled: bool)
    ensures
        enabled == observed(*settings, *worker),
        settings.log_min_duration < 0 ==> !enabled,
        worker.nesting_level != 0 ==> !enabled,
        !worker.current_query_sampled ==> !enabled,
{
    settings.log_min_duration >= 0 && worker.nesting_level == 0
        && settings.log_nested_statements && worker.current_query_sampled
}

} // verus!
