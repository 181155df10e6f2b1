use vstd::prelude::*;
use vstd::string::StringExecFns;
use vstd::string::StrSliceExecFns;
use crate::logging::LogLevel;

verus! {

/// The log file named when none is given.
pub const DEFAULT_LOG_FILE: &'static str = "./detach.log";

/// Start of the name of a log file whose name carries the time of the run.
pub const STAMPED_LOG_PREFIX: &'static str = "detach-";

/// End of the name of a log file whose name carries the time of the run.
pub const STAMPED_LOG_SUFFIX: &'static str = ".log";

/// The options that a run was started with, as given.
pub struct Args {
    /// Run in the background.
    pub detach: bool,
    /// Run in the foreground; overrides `detach`.
    pub no_detach: bool,
    /// Run in the foreground and echo the log file's new lines.
    pub tail: bool,
    /// Path of the log file, absolute or relative to the working directory.
    pub log_file: String,
    /// Seconds after which the work is stopped.
    pub timeout: Option<u64>,
    /// Minimum level of the records kept; `Info` when absent.
    pub logging: Option<LogLevel>,
    /// A command line to run instead of the service.
    pub command: Option<String>,
}

/// Which of the four ways of running a configuration takes.
#[derive(Debug)]
pub enum ExecutionMode {
    /// Detach into a daemon, then run the service.
    Detach,
    /// Run the service in the foreground and follow its log file.
    Tail,
    /// Run this command line, then exit with its status.
    Command(String),
    /// Run the service in the foreground.
    Foreground,
}

/// The configuration of one run, resolved once at start and never changed.
pub struct ServiceConfig {
    pub detach: bool,
    pub tail_mode: bool,
    /// Absolute path of the log file.
    pub log_path: String,
    pub timeout: Option<u64>,
    pub log_level: LogLevel,
    pub one_shot_command: Option<String>,
}

impl ServiceConfig {
    /// Detaching, tailing and a one-shot command exclude each other.
    pub open spec fn wf(&self) -> bool {
        &&& !(self.detach && self.tail_mode)
        &&& self.one_shot_command is Some ==> !self.detach && !self.tail_mode
    }

    pub open spec fn is_detach(&self) -> bool {
        self.detach
    }

    pub open spec fn is_tail(&self) -> bool {
        self.tail_mode
    }

    pub open spec fn is_command(&self) -> bool {
        self.one_shot_command is Some
    }

    pub open spec fn is_foreground(&self) -> bool {
        !self.detach && !self.tail_mode && self.one_shot_command is None
    }

    /// The way this configuration runs.
    pub fn mode(&self) -> (r: ExecutionMode)
        requires
            self.wf(),
        ensures
            r is Detach <==> self.is_detach(),
            r is Tail <==> self.is_tail(),
            r is Command <==> self.is_command(),
            r is Command ==> r->Command_0 == self.one_shot_command->0,
            r is Foreground <==> self.is_foreground(),
    {
        match &self.one_shot_command {
            Some(c) => ExecutionMode::Command(c.clone()),
            None => if self.detach {
                ExecutionMode::Detach
            } else if self.tail_mode {
                ExecutionMode::Tail
            } else {
                ExecutionMode::Foreground
            },
        }
    }
}

/// Of a well-formed configuration, exactly one of the four ways of running
/// holds: detaching, tailing, a one-shot command, or the plain foreground.
pub proof fn law_one_mode(config: ServiceConfig)
    requires
        config.wf(),
    ensures
        config.is_detach() || config.is_tail() || config.is_command() || config.is_foreground(),
        !(config.is_detach() && config.is_tail()),
        !(config.is_detach() && config.is_command()),
        !(config.is_detach() && config.is_foreground()),
        !(config.is_tail() && config.is_command()),
        !(config.is_tail() && config.is_foreground()),
        !(config.is_command() && config.is_foreground()),
{
}

/// Why the options give no configuration.
#[derive(Clone, Copy, Debug, PartialEq, Eq, Structural)]
pub enum ConfigError {
    /// `detach` with `tail`, or a command with either of them.
    ConflictingOptions,
    /// Detaching was asked for on a platform that cannot detach.
    DetachUnsupported,
}

pub open spec fn is_absolute(path: Seq<char>) -> bool {
    path.len() > 0 && path[0] == '/'
}

/// `rel` taken relative to the directory `base`: one separator between them.
pub open spec fn join_path(base: Seq<char>, rel: Seq<char>) -> Seq<char> {
    if base.len() == 0 || base.last() == '/' {
        base + rel
    } else {
        base + "/"@ + rel
    }
}

/// The log file of a run started in `cwd` at `stamp` with `log_file` given:
/// the default name becomes a name that carries the time of the run in the
/// working directory, another relative path is taken from the working
/// directory, an absolute path stays.
pub open spec fn log_path_of(log_file: Seq<char>, cwd: Seq<char>, stamp: Seq<char>) -> Seq<char> {
    if log_file == DEFAULT_LOG_FILE@ {
        join_path(cwd, STAMPED_LOG_PREFIX@ + stamp + STAMPED_LOG_SUFFIX@)
    } else if is_absolute(log_file) {
        log_file
    } else {
        join_path(cwd, log_file)
    }
}

fn join(base: &str, rel: &str) -> (r: String)
    ensures
        r@ == join_path(base@, rel@),
{
    let n = base.unicode_len();
    let mut r = String::from_str(base);
    if n != 0 && base.get_char(n - 1) != '/' {
        r.append("/");
    }
    r.append(rel);
    r
}

/// The absolute path of the log file; `cwd` is the absolute working
/// directory and `stamp` the time of the run as `%Y%m%d-%H%M%S`.
pub fn resolve_log_path(log_file: &str, cwd: &str, stamp: &str) -> (r: String)
    ensures
        r@ == log_path_of(log_file@, cwd@, stamp@),
{
    let given = String::from_str(log_file);
    let default_name = String::from_str(DEFAULT_LOG_FILE);
    if given == default_name {
        let mut name = String::from_str(STAMPED_LOG_PREFIX);
        name.append(stamp);
        name.append(STAMPED_LOG_SUFFIX);
        join(cwd, &name)
    } else if log_file.unicode_len() > 0 && log_file.get_char(0) == '/' {
        given
    } else {
        join(cwd, log_file)
    }
}

/// The options conflict: `detach` with `tail`, or a command with either.
pub open spec fn conflicting(args: Args) -> bool {
    (args.detach && args.tail) || (args.command is Some && (args.detach || args.tail))
}

/// Whether the options ask to detach: `detach` without `no_detach`.
pub open spec fn wants_detach(args: Args) -> bool {
    args.detach && !args.no_detach
}

pub open spec fn level_of(args: Args) -> LogLevel {
    match args.logging {
        Some(l) => l,
        None => LogLevel::Info,
    }
}

impl Args {
    /// Resolves the options of a run started in `cwd` at `stamp` on a
    /// platform that can detach if `detach_supported`. Conflicting options
    /// are refused; so is detaching where it is not supported, rather than
    /// quietly running in the foreground.
    pub fn resolve(self, cwd: &str, stamp: &str, detach_supported: bool) -> (r: Result<
        ServiceConfig,
        ConfigError,
    >)
        ensures
            conflicting(self) ==> r == Err::<ServiceConfig, ConfigError>(
                ConfigError::ConflictingOptions,
            ),
            !conflicting(self) && wants_detach(self) && !detach_supported ==> r == Err::<
                ServiceConfig,
                ConfigError,
            >(ConfigError::DetachUnsupported),
            !conflicting(self) && (!wants_detach(self) || detach_supported) ==> {
                &&& r is Ok
                &&& r->Ok_0.wf()
                &&& r->Ok_0.detach == wants_detach(self)
                &&& r->Ok_0.tail_mode == self.tail
                &&& r->Ok_0.one_shot_command == self.command
                &&& r->Ok_0.log_path@ == log_path_of(self.log_file@, cwd@, stamp@)
                &&& r->Ok_0.timeout == self.timeout
                &&& r->Ok_0.log_level == level_of(self)
            },
    {
        let has_command = self.command.is_some();
        if (self.detach && self.tail) || (has_command && (self.detach || self.tail)) {
            return Err(ConfigError::ConflictingOptions);
        }
        let detach = self.detach && !self.no_detach;
        if detach && !detach_supported {
            return Err(ConfigError::DetachUnsupported);
        }
        let log_path = resolve_log_path(&self.log_file, cwd, stamp);
        let log_level = match self.logging {
            Some(l) => l,
            None => LogLevel::Info,
        };
        Ok(ServiceConfig {
            detach,
            tail_mode: self.tail,
            log_path,
            timeout: self.timeout,
            log_level,
            one_shot_command: self.command,
        })
    }
}

} // verus!
