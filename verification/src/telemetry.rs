use vstd::prelude::*;
use crate::paths::{join, spec_join};
use crate::text::{begins_with_white_space, starts_with_white_space};

verus! {

/// Verbosity of the log.
#[derive(Clone, Copy, Debug, PartialEq, Eq, Structural)]
pub enum LogLevel {
    Trace,
    Debug,
    Info,
    Warn,
    Error,
}

/// How a level is written in a filter directive.
pub open spec fn spec_level_name(level: LogLevel) -> Seq<char> {
    match level {
        LogLevel::Trace => "TRACE"@,
        LogLevel::Debug => "DEBUG"@,
        LogLevel::Info => "INFO"@,
        LogLevel::Warn => "WARN"@,
        LogLevel::Error => "ERROR"@,
    }
}

/// Each level is written by its own upper-case name (as `tracing` displays
/// levels), so the application directive of a configuration at level `L` is
/// `app=L`; in particular the default level writes `app=INFO`.
pub proof fn lemma_level_names(app_name: Seq<char>)
    ensures
        spec_level_name(LogLevel::Trace) == seq!['T', 'R', 'A', 'C', 'E'],
        spec_level_name(LogLevel::Debug) == seq!['D', 'E', 'B', 'U', 'G'],
        spec_level_name(LogLevel::Info) == seq!['I', 'N', 'F', 'O'],
        spec_level_name(LogLevel::Warn) == seq!['W', 'A', 'R', 'N'],
        spec_level_name(LogLevel::Error) == seq!['E', 'R', 'R', 'O', 'R'],
        forall|a: LogLevel, b: LogLevel| a != b ==> spec_level_name(a) != spec_level_name(b),
        spec_app_directive(app_name, LogLevel::Info) == app_name + seq!['=', 'I', 'N', 'F', 'O'],
{
    reveal_strlit("TRACE");
    reveal_strlit("DEBUG");
    reveal_strlit("INFO");
    reveal_strlit("WARN");
    reveal_strlit("ERROR");
    reveal_strlit("=");
    assert("TRACE"@ =~= seq!['T', 'R', 'A', 'C', 'E']);
    assert("DEBUG"@ =~= seq!['D', 'E', 'B', 'U', 'G']);
    assert("INFO"@ =~= seq!['I', 'N', 'F', 'O']);
    assert("WARN"@ =~= seq!['W', 'A', 'R', 'N']);
    assert("ERROR"@ =~= seq!['E', 'R', 'R', 'O', 'R']);
    assert forall|a: LogLevel, b: LogLevel| a != b implies spec_level_name(a) != spec_level_name(b) by {
        if spec_level_name(a) == spec_level_name(b) {
            assert(spec_level_name(a).len() == spec_level_name(b).len());
            assert(spec_level_name(a)[0] == spec_level_name(b)[0]);
            assert(spec_level_name(a)[1] == spec_level_name(b)[1]);
        }
    }
    assert(spec_app_directive(app_name, LogLevel::Info) =~= app_name + seq!['=', 'I', 'N', 'F', 'O']);
}

impl LogLevel {
    /// The level's name as written in filter directives (`"INFO"`).
    pub fn as_str(&self) -> (s: &'static str)
        ensures
            s@ == spec_level_name(*self),
    {
        match self {
            LogLevel::Trace => "TRACE",
            LogLevel::Debug => "DEBUG",
            LogLevel::Info => "INFO",
            LogLevel::Warn => "WARN",
            LogLevel::Error => "ERROR",
        }
    }
}

/// Configuration of the application's logging.
#[derive(Clone, Debug)]
pub struct TelemetryConfig {
    /// Name of the application; the log file is `app_name.log`.
    pub app_name: String,
    /// Directory of the log files; no file logging where `None`.
    pub log_dir: Option<String>,
    /// Lowest level recorded for the application itself.
    pub level: LogLevel,
    /// Whether logs are also printed to the console.
    pub use_console: bool,
    /// Crates restricted to the `error` level.
    pub silent_crates: Vec<String>,
}

/// The characters of each string in a list.
pub open spec fn string_views(v: Seq<String>) -> Seq<Seq<char>> {
    v.map_values(|s: String| s@)
}

/// The characters of each string slice in a list.
pub open spec fn str_views(v: Seq<&str>) -> Seq<Seq<char>> {
    v.map_values(|s: &str| s@)
}

impl Default for TelemetryConfig {
    /// Application name `app`, console only, level `INFO`, nothing silenced.
    fn default() -> (c: TelemetryConfig)
        ensures
            c.app_name@ == "app"@,
            c.log_dir is None,
            c.level == LogLevel::Info,
            c.use_console,
            c.silent_crates@.len() == 0,
    {
        TelemetryConfig {
            app_name: String::from_str("app"),
            log_dir: None,
            level: LogLevel::Info,
            use_console: true,
            silent_crates: Vec::new(),
        }
    }
}

impl TelemetryConfig {
    /// The default configuration for the application `app_name`.
    pub fn new(app_name: &str) -> (c: TelemetryConfig)
        ensures
            c.app_name@ == app_name@,
            c.log_dir is None,
            c.level == LogLevel::Info,
            c.use_console,
            c.silent_crates@.len() == 0,
    {
        TelemetryConfig {
            app_name: String::from_str(app_name),
            log_dir: None,
            level: LogLevel::Info,
            use_console: true,
            silent_crates: Vec::new(),
        }
    }

    /// Enables file logging into `dir`.
    pub fn with_file_logging(self, dir: &str) -> (c: TelemetryConfig)
        ensures
            c.log_dir matches Some(d) && d@ == dir@,
            c.app_name == self.app_name,
            c.level == self.level,
            c.use_console == self.use_console,
            c.silent_crates == self.silent_crates,
    {
        let mut c = self;
        c.log_dir = Some(String::from_str(dir));
        c
    }

    /// Sets the verbosity level.
    pub fn with_level(self, level: LogLevel) -> (c: TelemetryConfig)
        ensures
            c.level == level,
            c.app_name == self.app_name,
            c.log_dir == self.log_dir,
            c.use_console == self.use_console,
            c.silent_crates == self.silent_crates,
    {
        let mut c = self;
        c.level = level;
        c
    }

    /// Turns console output off.
    pub fn hide_console(self) -> (c: TelemetryConfig)
        ensures
            !c.use_console,
            c.app_name == self.app_name,
            c.log_dir == self.log_dir,
            c.level == self.level,
            c.silent_crates == self.silent_crates,
    {
        let mut c = self;
        c.use_console = false;
        c
    }

    /// Replaces the list of silenced crates by `crates`.
    pub fn silence_crates(self, crates: &[&str]) -> (c: TelemetryConfig)
        ensures
            string_views(c.silent_crates@) == str_views(crates@),
            c.app_name == self.app_name,
            c.log_dir == self.log_dir,
            c.level == self.level,
            c.use_console == self.use_console,
    {
        let mut list: Vec<String> = Vec::new();
        let mut i: usize = 0;
        while i < crates.len()
            invariant
                i <= crates@.len(),
                string_views(list@) == str_views(crates@.subrange(0, i as int)),
            decreases crates@.len() - i,
        {
            list.push(String::from_str(crates[i]));
            assert(str_views(crates@.subrange(0, i + 1)) =~= str_views(crates@.subrange(0, i as int)).push(crates@[i as int]@));
            assert(string_views(list@) =~= string_views(list@.drop_last()).push(list@.last()@));
            i = i + 1;
        }
        assert(crates@.subrange(0, i as int) =~= crates@);
        let mut c = self;
        c.silent_crates = list;
        c
    }
}

/// The directive that sets the application's own level: `app=LEVEL`.
pub open spec fn spec_app_directive(app_name: Seq<char>, level: LogLevel) -> Seq<char> {
    app_name + "="@ + spec_level_name(level)
}

/// The directive that silences a crate: `crate=error`.
pub open spec fn spec_silence_directive(crate_name: Seq<char>) -> Seq<char> {
    crate_name + "=error"@
}

/// The name of the log file: `app.log`.
pub open spec fn spec_log_file_name(app_name: Seq<char>) -> Seq<char> {
    app_name + ".log"@
}

/// Whether `tracing_subscriber` accepts a text as a filter directive.
pub uninterp spec fn spec_directive_parses(directive: Seq<char>) -> bool;

/// Calls `<tracing_subscriber::filter::Directive as FromStr>::from_str` and
/// says whether it succeeded. Which texts the directive grammar accepts is
/// named by `spec_directive_parses` and not stated here. The parser takes
/// character positions from the trimmed text and cuts the untrimmed one with
/// them, which panics where leading white space precedes a multi-byte
/// character; texts that begin with white space are therefore not admitted.
#[verifier::external_body]
fn directive_parses(directive: &str) -> (ok: bool)
    requires
        !starts_with_white_space(directive@),
    ensures
        ok == spec_directive_parses(directive@),
{
    directive.parse::<tracing_subscriber::filter::Directive>().is_ok()
}

/// Everything the logging set-up needs, decided from the configuration.
pub struct TelemetryPlan {
    /// Filter used when the environment gives none: the application at its
    /// level (`app=LEVEL`) ...
    pub app_directive: String,
    /// ... and everything else at this level.
    pub default_level: LogLevel,
    /// One `crate=error` directive per silenced crate, in order.
    pub silence_directives: Vec<String>,
    /// Directory to create and log into, where file logging is on.
    pub log_dir: Option<String>,
    /// Name of the log file (`app.log`).
    pub log_file_name: String,
    /// Full path of the log file, where file logging is on.
    pub log_file: Option<String>,
    /// Whether a console layer is installed.
    pub console: bool,
}

/// Why logging cannot be set up.
#[derive(Clone, Debug)]
pub enum TelemetryError {
    /// A silencing directive that begins with white space or that the
    /// filter grammar refuses.
    InvalidDirective(String),
}

/// Whether a directive is accepted: it does not begin with white space, and
/// `tracing_subscriber` parses it.
pub open spec fn spec_directive_accepted(directive: Seq<char>) -> bool {
    !starts_with_white_space(directive) && spec_directive_parses(directive)
}

/// Whether every crate's silencing directive is accepted.
pub open spec fn all_silence_directives_parse(crates: Seq<Seq<char>>) -> bool {
    forall|i: int| 0 <= i < crates.len() ==> spec_directive_accepted(spec_silence_directive(#[trigger] crates[i]))
}

fn app_directive(app_name: &str, level: LogLevel) -> (d: String)
    ensures
        d@ == spec_app_directive(app_name@, level),
{
    let mut d = String::from_str(app_name);
    d.append("=");
    d.append(level.as_str());
    d
}

fn silence_directive(crate_name: &str) -> (d: String)
    ensures
        d@ == spec_silence_directive(crate_name@),
{
    let mut d = String::from_str(crate_name);
    d.append("=error");
    d
}

/// Decides the logging set-up. Fails, before anything is created, on the
/// first silenced crate whose `crate=error` directive begins with white
/// space (a text the directive parser cannot take safely) or does not parse.
pub fn plan(config: &TelemetryConfig) -> (r: Result<TelemetryPlan, TelemetryError>)
    ensures
        r is Ok <==> all_silence_directives_parse(string_views(config.silent_crates@)),
        r matches Err(TelemetryError::InvalidDirective(d)) ==> exists|i: int|
            0 <= i < config.silent_crates@.len()
            && d@ == spec_silence_directive(config.silent_crates@[i]@)
            && !spec_directive_accepted(d@)
            && forall|j: int| 0 <= j < i ==> spec_directive_accepted(
                #[trigger] spec_silence_directive(config.silent_crates@[j]@),
            ),
        r matches Ok(p) ==> {
            &&& p.app_directive@ == spec_app_directive(config.app_name@, config.level)
            &&& p.default_level == config.level
            &&& p.silence_directives@.map_values(|s: String| s@) == string_views(
                config.silent_crates@,
            ).map_values(|c: Seq<char>| spec_silence_directive(c))
            &&& p.log_file_name@ == spec_log_file_name(config.app_name@)
            &&& (match config.log_dir {
                Some(d) => {
                    &&& p.log_dir matches Some(pd) && pd@ == d@
                    &&& p.log_file matches Some(f) && f@ == spec_join(
                        d@,
                        spec_log_file_name(config.app_name@),
                    )
                },
                None => p.log_dir is None && p.log_file is None,
            })
            &&& p.console == config.use_console
        },
{
    let ghost crates = string_views(config.silent_crates@);
    let mut directives: Vec<String> = Vec::new();
    let mut i: usize = 0;
    while i < config.silent_crates.len()
        invariant
            i <= config.silent_crates@.len(),
            crates == string_views(config.silent_crates@),
            directives@.map_values(|s: String| s@) == crates.subrange(0, i as int).map_values(
                |c: Seq<char>| spec_silence_directive(c),
            ),
            forall|j: int| 0 <= j < i ==> spec_directive_accepted(
                #[trigger] spec_silence_directive(config.silent_crates@[j]@),
            ),
        decreases config.silent_crates@.len() - i,
    {
        let d = silence_directive(config.silent_crates[i].as_str());
        if begins_with_white_space(d.as_str()) || !directive_parses(d.as_str()) {
            proof {
                assert(!spec_directive_accepted(spec_silence_directive(crates[i as int])));
            }
            return Err(TelemetryError::InvalidDirective(d));
        }
        let ghost before = directives@;
        directives.push(d);
        proof {
            assert(crates[i as int] == config.silent_crates@[i as int]@);
            assert(crates.subrange(0, i + 1) =~= crates.subrange(0, i as int).push(crates[i as int]));
            assert(directives@ =~= before.push(directives@.last()));
            assert(directives@.map_values(|s: String| s@) =~= before.map_values(|s: String| s@).push(
                spec_silence_directive(crates[i as int]),
            ));
            assert(crates.subrange(0, i + 1).map_values(|c: Seq<char>| spec_silence_directive(c))
                =~= crates.subrange(0, i as int).map_values(|c: Seq<char>| spec_silence_directive(c)).push(
                spec_silence_directive(crates[i as int]),
            ));
        }
        i = i + 1;
    }
    assert(crates.subrange(0, i as int) =~= crates);
    let name = log_file_name(config.app_name.as_str());
    let (log_dir, log_file) = match &config.log_dir {
        Some(d) => (Some(d.clone()), Some(join(d.as_str(), name.as_str()))),
        None => (None, None),
    };
    Ok(TelemetryPlan {
        app_directive: app_directive(config.app_name.as_str(), config.level),
        default_level: config.level,
        silence_directives: directives,
        log_dir,
        log_file_name: name,
        log_file,
        console: config.use_console,
    })
}

/// A crate is silenced by `crate=error`, and the log file of an application
/// is `app.log`.
pub proof fn lemma_directive_and_file_names(name: Seq<char>)
    ensures
        spec_silence_directive(name) == name + seq!['=', 'e', 'r', 'r', 'o', 'r'],
        spec_log_file_name(name) == name + seq!['.', 'l', 'o', 'g'],
{
    reveal_strlit("=error");
    reveal_strlit(".log");
    assert("=error"@ =~= seq!['=', 'e', 'r', 'r', 'o', 'r']);
    assert(".log"@ =~= seq!['.', 'l', 'o', 'g']);
}

/// The name of the log file of an application: `app.log`.
pub fn log_file_name(app_name: &str) -> (n: String)
    ensures
        n@ == spec_log_file_name(app_name@),
{
    let mut n = String::from_str(app_name);
    n.append(".log");
    n
}

} // verus!
