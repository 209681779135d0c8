//! The parsed form of the server configuration file.
//!
//! Every leaf is a `Spanned` value, so a diagnostic points at the line and
//! column the value came from. Each field holds the rawest type that parses
//! without failing. Narrowing happens at lowering.

use vstd::prelude::*;

use crate::conf::defaults::{
    BIND_ADDRESS, INITIAL_BACKOFF_SECONDS, LOG_LEVEL, MAX_BACKOFF_SECONDS, MAX_CONNECTIONS, PORT,
};
use crate::conf::spanned::Spanned;

verus! {

/// Verbosity the tracing subscriber starts at.
#[derive(Debug, Clone, Copy, PartialEq, Eq, Structural)]
pub enum LogLevel {
    Trace,
    Debug,
    Info,
    Warn,
    Error,
}

/// The keyword each level is written as.
pub open spec fn level_keyword(level: LogLevel) -> Seq<char> {
    match level {
        LogLevel::Trace => "trace"@,
        LogLevel::Debug => "debug"@,
        LogLevel::Info => "info"@,
        LogLevel::Warn => "warn"@,
        LogLevel::Error => "error"@,
    }
}

/// The keywords of the levels, in declaration order.
pub open spec fn level_keywords() -> Seq<Seq<char>> {
    seq!["trace"@, "debug"@, "info"@, "warn"@, "error"@]
}

/// The five keywords are different texts: each starts with its own letter.
pub proof fn lemma_level_keywords_differ()
    ensures
        "trace"@ != "debug"@,
        "trace"@ != "info"@,
        "trace"@ != "warn"@,
        "trace"@ != "error"@,
        "debug"@ != "info"@,
        "debug"@ != "warn"@,
        "debug"@ != "error"@,
        "info"@ != "warn"@,
        "info"@ != "error"@,
        "warn"@ != "error"@,
{
    reveal_strlit("trace");
    reveal_strlit("debug");
    reveal_strlit("info");
    reveal_strlit("warn");
    reveal_strlit("error");
    assert("trace"@[0] == 't');
    assert("debug"@[0] == 'd');
    assert("info"@[0] == 'i');
    assert("warn"@[0] == 'w');
    assert("error"@[0] == 'e');
}

/// The level a keyword names, if it names one.
pub open spec fn level_of_keyword(keyword: Seq<char>) -> Option<LogLevel> {
    if keyword == "trace"@ {
        Some(LogLevel::Trace)
    } else if keyword == "debug"@ {
        Some(LogLevel::Debug)
    } else if keyword == "info"@ {
        Some(LogLevel::Info)
    } else if keyword == "warn"@ {
        Some(LogLevel::Warn)
    } else if keyword == "error"@ {
        Some(LogLevel::Error)
    } else {
        None
    }
}

impl LogLevel {
    /// The keyword the level is written as.
    pub fn as_str(&self) -> (s: &'static str)
        ensures
            s@ == level_keyword(*self),
            *self == LogLevel::Trace ==> s@ == "trace"@,
            *self == LogLevel::Debug ==> s@ == "debug"@,
            *self == LogLevel::Info ==> s@ == "info"@,
            *self == LogLevel::Warn ==> s@ == "warn"@,
            *self == LogLevel::Error ==> s@ == "error"@,
    {
        match self {
            LogLevel::Trace => "trace",
            LogLevel::Debug => "debug",
            LogLevel::Info => "info",
            LogLevel::Warn => "warn",
            LogLevel::Error => "error",
        }
    }

    /// Every keyword a level is written as, in declaration order.
    pub fn keywords() -> (k: [&'static str; 5])
        ensures
            k@.map_values(|keyword: &'static str| keyword@) == level_keywords(),
    {
        let k = ["trace", "debug", "info", "warn", "error"];
        assert(k@.map_values(|keyword: &'static str| keyword@) =~= level_keywords());
        k
    }

    /// The level a keyword names, or `None` for any other text.
    pub fn from_keyword(keyword: &String) -> (level: Option<LogLevel>)
        ensures
            level == level_of_keyword(keyword@),
            keyword@ == "trace"@ ==> level == Some(LogLevel::Trace),
            keyword@ == "debug"@ ==> level == Some(LogLevel::Debug),
            keyword@ == "info"@ ==> level == Some(LogLevel::Info),
            keyword@ == "warn"@ ==> level == Some(LogLevel::Warn),
            keyword@ == "error"@ ==> level == Some(LogLevel::Error),
    {
        proof {
            lemma_level_keywords_differ();
        }
        if *keyword == String::from_str("trace") {
            Some(LogLevel::Trace)
        } else if *keyword == String::from_str("debug") {
            Some(LogLevel::Debug)
        } else if *keyword == String::from_str("info") {
            Some(LogLevel::Info)
        } else if *keyword == String::from_str("warn") {
            Some(LogLevel::Warn)
        } else if *keyword == String::from_str("error") {
            Some(LogLevel::Error)
        } else {
            None
        }
    }
}

impl<'a> TryFrom<&'a str> for LogLevel {
    type Error = ();

    /// The level a keyword names; any other text is refused.
    fn try_from(keyword: &'a str) -> (level: Result<LogLevel, ()>) {
        match LogLevel::from_keyword(&String::from_str(keyword)) {
            Some(level) => Ok(level),
            None => Err(()),
        }
    }
}

impl<'a> vstd::std_specs::convert::TryFromSpecImpl<&'a str> for LogLevel {
    open spec fn obeys_try_from_spec() -> bool {
        true
    }

    open spec fn try_from_spec(keyword: &'a str) -> Result<LogLevel, ()> {
        match level_of_keyword(keyword@) {
            Some(level) => Ok(level),
            None => Err(()),
        }
    }
}

/// The exponential retry schedule of the accept loop.
pub struct BackoffSpec {
    /// Seconds the accept loop waits after the first failure.
    pub initial_seconds: Spanned<i64>,
    /// Seconds after which the accept loop gives up and returns the error.
    pub max_seconds: Spanned<i64>,
}

/// The whole server configuration file.
pub struct ServerSpec {
    /// IP address the listener binds to.
    pub bind: Spanned<String>,
    /// TCP port the listener accepts connections on.
    pub port: Spanned<i64>,
    /// Number of connections the server serves at one time.
    pub max_connections: Spanned<i64>,
    /// Verbosity the tracing subscriber starts at.
    pub log_level: Spanned<String>,
    /// Retry schedule the accept loop follows after a failed accept.
    pub backoff: Spanned<BackoffSpec>,
}

/// The declared default of `bind`: the loopback interface, which keeps a
/// server started without a configuration file off the network.
pub open spec fn default_bind() -> Seq<char> {
    "127.0.0.1"@
}

/// The declared default of `log_level`.
pub open spec fn default_log_level() -> Seq<char> {
    "info"@
}

impl BackoffSpec {
    /// Whether every value is the declared default: one second first, and at
    /// most 64 seconds.
    pub open spec fn is_default(self) -> bool {
        self.initial_seconds.value == 1 && self.max_seconds.value == 64
    }

    /// The declared defaults.
    pub fn default() -> (spec: Self)
        ensures
            spec.is_default(),
    {
        BackoffSpec {
            initial_seconds: Spanned::detached(INITIAL_BACKOFF_SECONDS),
            max_seconds: Spanned::detached(MAX_BACKOFF_SECONDS),
        }
    }
}

impl ServerSpec {
    /// Whether every value is the declared default.
    pub open spec fn is_default(self) -> bool {
        &&& self.bind.value@ == default_bind()
        &&& self.port.value == 6379
        &&& self.max_connections.value == 250
        &&& self.log_level.value@ == default_log_level()
        &&& self.backoff.value.is_default()
    }

    /// The declared defaults, each with no source position: what the parser
    /// fills for a field the file omits.
    pub fn default() -> (spec: Self)
        ensures
            spec.is_default(),
    {
        ServerSpec {
            bind: Spanned::detached(String::from_str(BIND_ADDRESS)),
            port: Spanned::detached(PORT),
            max_connections: Spanned::detached(MAX_CONNECTIONS),
            log_level: Spanned::detached(String::from_str(LOG_LEVEL)),
            backoff: Spanned::detached(BackoffSpec::default()),
        }
    }
}

} // verus!
