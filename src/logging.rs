use vstd::prelude::*;
use vstd::string::StringExecFns;

verus! {

/// Minimum severity of the records that the sinks keep.
#[derive(Clone, Copy, Debug, PartialEq, Eq, Structural)]
pub enum LogLevel {
    Error,
    Warn,
    Info,
    Debug,
    Trace,
}

/// The name of a level as it appears in a log line.
pub open spec fn level_name(level: LogLevel) -> Seq<char> {
    match level {
        LogLevel::Error => "ERROR"@,
        LogLevel::Warn => "WARN"@,
        LogLevel::Info => "INFO"@,
        LogLevel::Debug => "DEBUG"@,
        LogLevel::Trace => "TRACE"@,
    }
}

impl LogLevel {
    /// The name of the level as written in a log line.
    pub fn as_str(&self) -> (r: &'static str)
        ensures
            r@ == level_name(*self),
    {
        match self {
            LogLevel::Error => "ERROR",
            LogLevel::Warn => "WARN",
            LogLevel::Info => "INFO",
            LogLevel::Debug => "DEBUG",
            LogLevel::Trace => "TRACE",
        }
    }
}

/// One log line: timestamp, level and message, separated by `" - "`, with
/// its newline.
pub open spec fn log_line(timestamp: Seq<char>, level: LogLevel, message: Seq<char>) -> Seq<char> {
    timestamp + " - "@ + level_name(level) + " - "@ + message + "\n"@
}

/// Writes one record in the format that every sink uses.
pub fn format_line(timestamp: &str, level: LogLevel, message: &str) -> (r: String)
    ensures
        r@ == log_line(timestamp@, level, message@),
{
    let mut line = String::from_str(timestamp);
    line.append(" - ");
    line.append(level.as_str());
    line.append(" - ");
    line.append(message);
    line.append("\n");
    line
}

/// The sinks to attach: always the file, truncated so that a run starts a
/// fresh file, and the console when asked for; all at one minimum level.
pub struct SinkPlan {
    pub file_path: String,
    pub console: bool,
    pub level: LogLevel,
    pub truncate_file: bool,
}

/// The plan for a file at `path`, at `level`, with or without the console.
pub open spec fn plan_for(plan: SinkPlan, path: Seq<char>, level: LogLevel, to_console: bool) -> bool {
    &&& plan.file_path@ == path
    &&& plan.console == to_console
    &&& plan.level == level
    &&& plan.truncate_file
}

/// Why the sinks were not configured.
#[derive(Clone, Copy, Debug, PartialEq, Eq, Structural)]
pub enum LoggingError {
    /// The sinks of this process were configured already; nothing was added.
    AlreadyConfigured,
}

/// Guards the one configuration of logging sinks that a process may have.
/// Pass it to whatever configures logging; a second configuration fails and
/// adds no sink.
pub struct LoggingGuard {
    configured: bool,
}

impl LoggingGuard {
    pub closed spec fn configured_spec(&self) -> bool {
        self.configured
    }

    /// The guard of a process that has configured no sinks yet.
    pub fn new() -> (r: LoggingGuard)
        ensures
            !r.configured_spec(),
    {
        LoggingGuard { configured: false }
    }

    pub fn is_configured(&self) -> (r: bool)
        ensures
            r == self.configured_spec(),
    {
        self.configured
    }

    /// Plans the sinks of this process: a file sink at `path`, truncated,
    /// and a console sink if `to_console`, both at `level`. Only the first
    /// call succeeds; any later one returns `AlreadyConfigured` and leaves
    /// the guard as it was.
    pub fn configure(&mut self, path: &str, level: LogLevel, to_console: bool) -> (r: Result<
        SinkPlan,
        LoggingError,
    >)
        ensures
            final(self).configured_spec(),
            old(self).configured_spec() ==> r == Err::<SinkPlan, LoggingError>(
                LoggingError::AlreadyConfigured,
            ),
            !old(self).configured_spec() ==> (r is Ok && plan_for(r->Ok_0, path@, level, to_console)),
    {
        if self.configured {
            return Err(LoggingError::AlreadyConfigured);
        }
        self.configured = true;
        Ok(SinkPlan { file_path: String::from_str(path), console: to_console, level, truncate_file: true })
    }
}

} // verus!
