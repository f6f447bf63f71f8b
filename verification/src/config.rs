//! The settings of the service.
use vstd::prelude::*;

verus! {

/// The address to bind the server to, unless another one is given.
pub const DEFAULT_BIND: &'static str = "127.0.0.1:3000";

/// The NATS server, unless another one is given.
pub const DEFAULT_NATS_URL: &'static str = "nats://localhost:4222";

/// The NATS subjects to subscribe to, unless others are given.
pub const DEFAULT_NATS_SUBJECT: &'static str = "time.obs.>";

/// The JetStream stream to read, unless another one is given.
pub const DEFAULT_NATS_STREAM: &'static str = "OBSERVATIONS";

/// The settings of the service.
#[derive(Debug)]
pub struct Config {
    /// The address to bind the server to.
    pub bind: String,
    /// The NATS server.
    pub nats_url: String,
    /// The NATS subjects to subscribe to.
    pub nats_subject: String,
    /// The JetStream stream to read.
    pub nats_stream: String,
}

impl Default for Config {
    fn default() -> (config: Config)
        ensures
            config.bind@ == DEFAULT_BIND@,
            config.nats_url@ == DEFAULT_NATS_URL@,
            config.nats_subject@ == DEFAULT_NATS_SUBJECT@,
            config.nats_stream@ == DEFAULT_NATS_STREAM@,
    {
        Config {
            bind: DEFAULT_BIND.to_string(),
            nats_url: DEFAULT_NATS_URL.to_string(),
            nats_subject: DEFAULT_NATS_SUBJECT.to_string(),
            nats_stream: DEFAULT_NATS_STREAM.to_string(),
        }
    }
}

/// The text of a setting: that of the environment variable where it is set, and `given`
/// otherwise.
pub open spec fn setting_view(variable: Option<String>, given: Seq<char>) -> Seq<char> {
    match variable {
        Some(value) => value@,
        None => given,
    }
}

/// The text of a setting: that of the environment variable where it is set, and `given`
/// otherwise.
pub fn setting(variable: Option<String>, given: String) -> (value: String)
    ensures
        value@ == setting_view(variable, given@),
{
    match variable {
        Some(value) => value,
        None => given,
    }
}

impl Config {
    /// The settings in force when the environment variables `NATS_URL`, `NATS_SUBJECT` and
    /// `NATS_STREAM` have the given values: a variable that is set comes before the command
    /// line. The bind address is not taken from the environment.
    pub fn with_environment(
        self,
        nats_url: Option<String>,
        nats_subject: Option<String>,
        nats_stream: Option<String>,
    ) -> (config: Config)
        ensures
            config.bind@ == self.bind@,
            config.nats_url@ == setting_view(nats_url, self.nats_url@),
            config.nats_subject@ == setting_view(nats_subject, self.nats_subject@),
            config.nats_stream@ == setting_view(nats_stream, self.nats_stream@),
    {
        Config {
            bind: self.bind,
            nats_url: setting(nats_url, self.nats_url),
            nats_subject: setting(nats_subject, self.nats_subject),
            nats_stream: setting(nats_stream, self.nats_stream),
        }
    }
}

/// An environment variable that is set gives the setting, whatever it holds and whatever was
/// given otherwise; one that is not set leaves what was given.
pub proof fn law_environment_comes_first(value: String, given: Seq<char>, other: Seq<char>)
    ensures
        setting_view(Some(value), given) == value@,
        setting_view(Some(value), given) == setting_view(Some(value), other),
        setting_view(None, given) == given,
{
}

/// The settings that hold unless others are given are the documented ones.
pub proof fn law_defaults_are_documented()
    ensures
        DEFAULT_BIND@ == "127.0.0.1:3000"@,
        DEFAULT_NATS_URL@ == "nats://localhost:4222"@,
        DEFAULT_NATS_SUBJECT@ == "time.obs.>"@,
        DEFAULT_NATS_STREAM@ == "OBSERVATIONS"@,
{
}

} // verus!
