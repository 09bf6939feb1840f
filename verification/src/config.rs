//! The monitor's configuration surface and the decisions taken on it:
//! which measurer runs and which consumer tasks are spawned.
//!
//! Reading and deserialising the configuration file is the process
//! entry point's concern; the library receives the plain values.

use vstd::prelude::*;

use crate::database;
use crate::text::{lower_of, lowercase, str_eq};

verus! {

/// Credentials for the posting sink.
#[derive(Clone)]
pub struct TwitterConfig {
    pub consumer_key: String,
    pub consumer_secret: String,
    pub access_token: String,
    pub access_secret: String,
}

/// Configuration for the HTTP sink.
#[derive(Clone)]
pub struct HttpConfig {
    /// The address to bind, or `None` for the sink's default.
    pub bind_addr: Option<String>,
}

/// The monitor's configuration.
#[derive(Clone)]
pub struct Config {
    /// The fixed tick period, in milliseconds.
    pub period_millis: u64,
    /// Names the measurer to run; the Ookla CLI when absent.
    pub measurer: Option<String>,
    /// Whether the standard-output sink runs.
    pub stdout: bool,
    /// Present when the posting sink runs.
    pub twitter_config: Option<TwitterConfig>,
    /// Present when the HTTP sink runs.
    pub http_config: Option<HttpConfig>,
    /// Present when the history store runs.
    pub db_config: Option<database::Config>,
}

/// The measurer implementations the configuration can name.
#[derive(Clone, Copy, Debug, PartialEq, Eq, Structural)]
pub enum MeasurerKind {
    /// The Ookla `speedtest` binary.
    Ookla,
    /// The `speedtestr` library.
    SpeedTestR,
}

/// Why a configuration value was rejected.
#[derive(Clone, Copy, Debug, PartialEq, Eq, Structural)]
pub enum ConfigError {
    /// The configured measurer name is not recognised.
    UnknownMeasurer,
}

/// The measurer selected by an already-lowercased name, or `None` when
/// the name is not recognised.
pub open spec fn spec_measurer_kind(name_lowered: Seq<char>) -> Option<MeasurerKind> {
    if name_lowered == "ookla"@ || name_lowered == "default"@ {
        Some(MeasurerKind::Ookla)
    } else if name_lowered == "zpeters/speedtestr"@ || name_lowered == "zpeters"@ || name_lowered
        == "speedtestr"@ {
        Some(MeasurerKind::SpeedTestR)
    } else {
        None
    }
}

/// Decides the measurer from an already-lowercased name.
pub fn measurer_kind_of_lowered(name_lowered: &str) -> (k: Option<MeasurerKind>)
    ensures
        k == spec_measurer_kind(name_lowered@),
{
    if str_eq(name_lowered, "ookla") || str_eq(name_lowered, "default") {
        Some(MeasurerKind::Ookla)
    } else if str_eq(name_lowered, "zpeters/speedtestr") || str_eq(name_lowered, "zpeters")
        || str_eq(name_lowered, "speedtestr") {
        Some(MeasurerKind::SpeedTestR)
    } else {
        None
    }
}

/// Which consumer tasks the orchestrator spawns: one per enabled sink.
pub struct ExporterPlan {
    /// The history-store task.
    pub database: bool,
    /// The standard-output sink.
    pub stdout: bool,
    /// The HTTP sink.
    pub http: bool,
    /// The posting sink.
    pub twitter: bool,
}

impl Config {
    /// Selects the measurer named by the configuration,
    /// case-insensitively; the Ookla CLI when none is named.
    pub fn measurer_kind(&self) -> (r: Result<MeasurerKind, ConfigError>)
        ensures
            self.measurer is None ==> r == Ok::<MeasurerKind, ConfigError>(MeasurerKind::Ookla),
            self.measurer matches Some(name) ==> r == (match spec_measurer_kind(lower_of(name@)) {
                Some(k) => Ok::<MeasurerKind, ConfigError>(k),
                None => Err::<MeasurerKind, ConfigError>(ConfigError::UnknownMeasurer),
            }),
    {
        match &self.measurer {
            None => Ok(MeasurerKind::Ookla),
            Some(name) => {
                let lowered = lowercase(name.as_str());
                match measurer_kind_of_lowered(lowered.as_str()) {
                    Some(k) => Ok(k),
                    None => Err(ConfigError::UnknownMeasurer),
                }
            },
        }
    }

    /// The set of tasks to spawn: exactly the sinks the configuration
    /// enables.
    pub fn exporter_plan(&self) -> (p: ExporterPlan)
        ensures
            p.database == (self.db_config is Some),
            p.stdout == self.stdout,
            p.http == (self.http_config is Some),
            p.twitter == (self.twitter_config is Some),
    {
        ExporterPlan {
            database: self.db_config.is_some(),
            stdout: self.stdout,
            http: self.http_config.is_some(),
            twitter: self.twitter_config.is_some(),
        }
    }
}

} // verus!
