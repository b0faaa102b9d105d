//! Startup configuration and the errors that abort startup.
use vstd::prelude::*;

verus! {

/// A setting read from the process environment at startup.
#[derive(PartialEq, Eq, Structural, Clone, Copy, Debug)]
pub enum ConfigKey {
    /// The broker's connection URI.
    AmqpUri,
    /// The document store's connection string.
    MongoConn,
}

impl ConfigKey {
    pub open spec fn spec_name(self) -> Seq<char> {
        match self {
            ConfigKey::AmqpUri => "AMQP_URI"@,
            ConfigKey::MongoConn => "MONGODB_CONN"@,
        }
    }

    /// The environment variable that holds the setting.
    pub fn name(self) -> (r: &'static str)
        ensures
            r@ == self.spec_name(),
    {
        match self {
            ConfigKey::AmqpUri => "AMQP_URI",
            ConfigKey::MongoConn => "MONGODB_CONN",
        }
    }
}

/// Why startup was aborted.
#[derive(PartialEq, Eq, Structural, Clone, Copy, Debug)]
pub enum StartupError {
    /// A required setting is absent.
    MissingConfig(ConfigKey),
    /// The broker could not be reached, or refused a channel.
    BrokerUnreachable,
    /// The document store could not be reached, or its URI is not valid.
    StoreUnreachable,
    /// The broker refused the queue declaration.
    QueueDeclareFailed,
    /// The broker refused to start a consumer.
    ConsumeFailed,
}

/// The value of a required setting, given what the environment held for it.
pub fn require_config(key: ConfigKey, value: Option<String>) -> (r: Result<String, StartupError>)
    ensures
        match value {
            Some(v) => r is Ok && r->Ok_0@ == v@,
            None => r == Err::<String, StartupError>(StartupError::MissingConfig(key)),
        },
{
    match value {
        Some(v) => Ok(v),
        None => Err(StartupError::MissingConfig(key)),
    }
}

} // verus!
