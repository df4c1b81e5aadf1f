//! The three values that identify the managed record and authorise access to
//! it. They are read once at startup and never change afterwards.

use vstd::prelude::*;
use vstd::string::StringExecFns;

verus! {

/// One of the configuration values, each of which the environment provides
/// under a fixed name.
#[derive(Debug, Clone, Copy, PartialEq, Eq, Structural)]
pub enum Variable {
    ZoneId,
    DnsRecordId,
    BearerToken,
}

impl Variable {
    /// The name under which the environment provides this value.
    pub open spec fn name_text(self) -> Seq<char> {
        match self {
            Variable::ZoneId => "ZONE_ID"@,
            Variable::DnsRecordId => "DNS_RECORD_ID"@,
            Variable::BearerToken => "BEARER_TOKEN"@,
        }
    }

    /// The name under which the environment provides this value.
    pub fn name(&self) -> (name: &'static str)
        ensures
            name@ == self.name_text(),
    {
        match self {
            Variable::ZoneId => "ZONE_ID",
            Variable::DnsRecordId => "DNS_RECORD_ID",
            Variable::BearerToken => "BEARER_TOKEN",
        }
    }
}

/// Why no configuration could be built. It is fatal: nothing is retried, and
/// no request is ever made.
#[derive(Debug, Clone, Copy, PartialEq, Eq, Structural)]
pub enum ConfigError {
    /// The environment does not provide this value, or not as text.
    Missing(Variable),
}

impl ConfigError {
    /// The diagnostic for an operator: the variable's name, then ` must be set`.
    pub open spec fn message_text(self) -> Seq<char> {
        match self {
            ConfigError::Missing(variable) => variable.name_text() + " must be set"@,
        }
    }

    /// The diagnostic for an operator, which names the missing variable.
    pub fn message(&self) -> (message: String)
        ensures
            message@ == self.message_text(),
    {
        match self {
            ConfigError::Missing(variable) => String::from_str(variable.name()).concat(
                " must be set",
            ),
        }
    }
}

/// The zone and the record that are managed, and the credential presented to
/// the provider.
#[derive(Debug, PartialEq, Eq)]
pub struct Configuration {
    pub zone_id: String,
    pub dns_record_id: String,
    pub bearer_token: String,
}

/// What a [`Configuration`] holds, with its texts as sequences of characters.
pub struct ConfigurationView {
    pub zone_id: Seq<char>,
    pub dns_record_id: Seq<char>,
    pub bearer_token: Seq<char>,
}

impl View for Configuration {
    type V = ConfigurationView;

    open spec fn view(&self) -> ConfigurationView {
        ConfigurationView {
            zone_id: self.zone_id@,
            dns_record_id: self.dns_record_id@,
            bearer_token: self.bearer_token@,
        }
    }
}

impl Clone for Configuration {
    fn clone(&self) -> (copy: Self)
        ensures
            copy == *self,
    {
        Configuration {
            zone_id: self.zone_id.clone(),
            dns_record_id: self.dns_record_id.clone(),
            bearer_token: self.bearer_token.clone(),
        }
    }
}

/// The first value that is absent, in the order zone, record, credential.
pub open spec fn first_missing(
    zone_id: Option<String>,
    dns_record_id: Option<String>,
    bearer_token: Option<String>,
) -> Option<Variable> {
    if zone_id is None {
        Some(Variable::ZoneId)
    } else if dns_record_id is None {
        Some(Variable::DnsRecordId)
    } else if bearer_token is None {
        Some(Variable::BearerToken)
    } else {
        None
    }
}

impl Configuration {
    /// Builds the configuration from the three values as the environment gave
    /// them, `None` standing for a value that it did not give. All three are
    /// mandatory; the error names the first that is absent. A value that is
    /// present is taken as it is, the empty text included.
    pub fn load(
        zone_id: Option<String>,
        dns_record_id: Option<String>,
        bearer_token: Option<String>,
    ) -> (loaded: Result<Configuration, ConfigError>)
        ensures
            match first_missing(zone_id, dns_record_id, bearer_token) {
                Some(variable) => loaded == Err::<Configuration, ConfigError>(
                    ConfigError::Missing(variable),
                ),
                None => loaded == Ok::<Configuration, ConfigError>(
                    (Configuration {
                        zone_id: zone_id->Some_0,
                        dns_record_id: dns_record_id->Some_0,
                        bearer_token: bearer_token->Some_0,
                    }),
                ),
            },
    {
        let zone_id = match zone_id {
            Some(value) => value,
            None => { return Err(ConfigError::Missing(Variable::ZoneId)); },
        };
        let dns_record_id = match dns_record_id {
            Some(value) => value,
            None => { return Err(ConfigError::Missing(Variable::DnsRecordId)); },
        };
        let bearer_token = match bearer_token {
            Some(value) => value,
            None => { return Err(ConfigError::Missing(Variable::BearerToken)); },
        };
        Ok(Configuration { zone_id, dns_record_id, bearer_token })
    }
}

} // verus!
