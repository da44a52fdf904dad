//! The settings of a deployment and what follows from them.

use vstd::prelude::*;

verus! {

/// The mode that the process runs in.
#[derive(Clone, Copy, Debug, PartialEq, Eq, Structural)]
pub enum Env {
    Development,
    Production,
}

/// The settings of the process.
#[derive(Debug, PartialEq, Eq)]
pub struct Config {
    pub env: Env,
    pub port: u16,
    pub database_url: String,
    pub redis_url: String,
}

/// How the process writes its log.
#[derive(Clone, Copy, Debug, PartialEq, Eq, Structural)]
pub struct LogSettings {
    /// Each line names the target that wrote it.
    pub with_target: bool,
    /// Lines are coloured for a terminal.
    pub ansi: bool,
    /// Lines are JSON objects.
    pub json: bool,
    /// Each line carries its time.
    pub with_time: bool,
    /// The statements of the sqlx driver are logged, not only its warnings.
    pub sql_statements: bool,
}

impl Env {
    /// The mode that a setting names.
    pub open spec fn spec_parse(text: Seq<char>) -> Option<Env> {
        if text == "development"@ {
            Some(Env::Development)
        } else if text == "production"@ {
            Some(Env::Production)
        } else {
            None
        }
    }

    /// Reads the mode from its setting: `development` or `production`.
    pub fn parse(text: &str) -> (r: Option<Env>)
        ensures
            r == Self::spec_parse(text@),
    {
        let given = text.to_owned();
        if given == "development".to_owned() {
            Some(Env::Development)
        } else if given == "production".to_owned() {
            Some(Env::Production)
        } else {
            None
        }
    }

    /// How the log is written in this mode.
    pub open spec fn spec_log_settings(self) -> LogSettings {
        match self {
            Env::Development => LogSettings {
                with_target: true,
                ansi: true,
                json: false,
                with_time: true,
                sql_statements: true,
            },
            Env::Production => LogSettings {
                with_target: true,
                ansi: false,
                json: true,
                with_time: false,
                sql_statements: false,
            },
        }
    }

    /// How the log is written in this mode: for a terminal in development,
    /// as JSON without times in production.
    pub fn log_settings(self) -> (r: LogSettings)
        ensures
            r == self.spec_log_settings(),
    {
        match self {
            Env::Development => LogSettings {
                with_target: true,
                ansi: true,
                json: false,
                with_time: true,
                sql_statements: true,
            },
            Env::Production => LogSettings {
                with_target: true,
                ansi: false,
                json: true,
                with_time: false,
                sql_statements: false,
            },
        }
    }
}

impl LogSettings {
    /// The log filter that applies where `RUST_LOG` sets none.
    pub open spec fn spec_default_filter(self) -> Seq<char> {
        if self.sql_statements {
            "api=debug,sqlx=debug,tower_http=debug"@
        } else {
            "api=debug,sqlx=warn,tower_http=debug"@
        }
    }

    /// The log filter that applies where `RUST_LOG` sets none.
    pub fn default_filter(self) -> (r: &'static str)
        ensures
            r@ == self.spec_default_filter(),
    {
        if self.sql_statements {
            "api=debug,sqlx=debug,tower_http=debug"
        } else {
            "api=debug,sqlx=warn,tower_http=debug"
        }
    }
}

} // verus!
