use homelabdns::config::{ConfigError, Configuration, Variable};

fn text(s: &str) -> Option<String> {
    Some(s.to_string())
}

#[test]
fn load_takes_three_values_as_they_are() {
    let config = Configuration::load(text("z1"), text("r1"), text("t")).unwrap();
    assert_eq!(config.zone_id, "z1");
    assert_eq!(config.dns_record_id, "r1");
    assert_eq!(config.bearer_token, "t");
}

#[test]
fn load_accepts_empty_values() {
    let config = Configuration::load(text(""), text(""), text("")).unwrap();
    assert_eq!(
        config,
        Configuration {
            zone_id: String::new(),
            dns_record_id: String::new(),
            bearer_token: String::new(),
        }
    );
}

#[test]
fn load_names_the_missing_zone() {
    assert_eq!(
        Configuration::load(None, text("r1"), text("t")),
        Err(ConfigError::Missing(Variable::ZoneId))
    );
}

#[test]
fn load_names_the_missing_record() {
    assert_eq!(
        Configuration::load(text("z1"), None, text("t")),
        Err(ConfigError::Missing(Variable::DnsRecordId))
    );
}

#[test]
fn load_names_the_missing_token() {
    assert_eq!(
        Configuration::load(text("z1"), text("r1"), None),
        Err(ConfigError::Missing(Variable::BearerToken))
    );
}

#[test]
fn load_names_the_first_of_several_missing_values() {
    assert_eq!(
        Configuration::load(None, None, None),
        Err(ConfigError::Missing(Variable::ZoneId))
    );
    assert_eq!(
        Configuration::load(text("z1"), None, None),
        Err(ConfigError::Missing(Variable::DnsRecordId))
    );
    assert_eq!(
        Configuration::load(None, text("r1"), None),
        Err(ConfigError::Missing(Variable::ZoneId))
    );
}

#[test]
fn variables_have_their_environment_names() {
    assert_eq!(Variable::ZoneId.name(), "ZONE_ID");
    assert_eq!(Variable::DnsRecordId.name(), "DNS_RECORD_ID");
    assert_eq!(Variable::BearerToken.name(), "BEARER_TOKEN");
}

#[test]
fn config_error_message_names_the_variable() {
    assert_eq!(
        ConfigError::Missing(Variable::ZoneId).message(),
        "ZONE_ID must be set"
    );
    assert_eq!(
        ConfigError::Missing(Variable::DnsRecordId).message(),
        "DNS_RECORD_ID must be set"
    );
    assert_eq!(
        ConfigError::Missing(Variable::BearerToken).message(),
        "BEARER_TOKEN must be set"
    );
}
