use broker_ingest::mqtt_config::{
    AcknowledgementsConfig, EncodingConfig, MqttQoS, MqttSinkConfig, TlsEnableableConfig,
    default_clean_session, default_client_id, default_keep_alive, default_port,
};
use broker_ingest::pulsar_config::{
    AuthConfig, AuthMode, DataType, DeadLetterQueuePolicy, DeserializerConfig, FramingConfig,
    LogNamespace, OAuth2Config, PulsarSourceConfig, PulsarSourceError, SubscriptionType,
};

#[test]
fn generate_config() {
    let config = MqttSinkConfig::generate_config();
    assert_eq!(config.host, "localhost");
    assert_eq!(config.port, 1883);
    assert!(config.user.is_none());
    assert!(config.password.is_none());
    assert!(config.client_id.starts_with("vector-"));
    assert_eq!(config.keep_alive, 60);
    assert!(!config.clean_session);
    assert!(config.tls.is_none());
    assert_eq!(config.topic, "vector");
    assert_eq!(config.encoding, EncodingConfig::Json);
    assert!(config.acknowledgements.enabled.is_none());
    assert_eq!(config.quality_of_service, MqttQoS::ExactlyOnce);
}

#[test]
fn pulsar_generate_config() {
    let config = PulsarSourceConfig::default();
    assert_eq!(config.endpoint, "");
    assert!(config.topics.is_empty());
    assert!(config.consumer_name.is_none());
    assert!(config.subscription_name.is_none());
    assert!(config.priority_level.is_none());
    assert!(config.batch_size.is_none());
    assert!(config.auth.is_none());
    assert!(config.dead_letter_queue_policy.is_none());
    assert_eq!(config.framing, FramingConfig::Bytes);
    assert_eq!(config.decoding, DeserializerConfig::Bytes);
    assert!(config.acknowledgements.enabled.is_none());
    assert!(config.log_namespace.is_none());
}

#[test]
fn default_values() {
    assert_eq!(default_port(), 1883);
    assert_eq!(default_keep_alive(), 60);
    assert!(!default_clean_session());
}

#[test]
fn client_id_shape() {
    let id = default_client_id();
    assert!(id.starts_with("vector-"));
    let digits = &id["vector-".len()..];
    assert!(digits.len() >= 8);
    assert!(digits.len() <= 16);
    assert!(digits.chars().all(|c| c.is_ascii_hexdigit() && !c.is_ascii_uppercase()));
}

fn base_pulsar_config() -> PulsarSourceConfig {
    PulsarSourceConfig {
        endpoint: "pulsar://127.0.0.1:6650".to_string(),
        topics: vec!["persistent://public/default/my-topic".to_string()],
        ..PulsarSourceConfig::default()
    }
}

#[test]
fn auth_mode_absent_is_anonymous() {
    let config = base_pulsar_config();
    assert!(matches!(config.auth_mode(), Ok(AuthMode::Anonymous)));
}

#[test]
fn auth_mode_name_and_token() {
    let mut config = base_pulsar_config();
    config.auth = Some(AuthConfig {
        name: Some("token".to_string()),
        token: Some("123456789".to_string()),
        oauth2: None,
    });
    match config.auth_mode() {
        Ok(AuthMode::Basic { name, token }) => {
            assert_eq!(name, "token");
            assert_eq!(token, "123456789");
        }
        other => panic!("unexpected auth mode: {:?}", other),
    }
}

#[test]
fn auth_mode_oauth2() {
    let mut config = base_pulsar_config();
    config.auth = Some(AuthConfig {
        name: None,
        token: None,
        oauth2: Some(OAuth2Config {
            issuer_url: "https://oauth2.issuer".to_string(),
            credentials_url: "file:///oauth2_credentials".to_string(),
            audience: Some("pulsar".to_string()),
            scope: None,
        }),
    });
    match config.auth_mode() {
        Ok(AuthMode::OAuth2 { issuer_url, credentials_url, audience, scope }) => {
            assert_eq!(issuer_url, "https://oauth2.issuer");
            assert_eq!(credentials_url, "file:///oauth2_credentials");
            assert_eq!(audience.as_deref(), Some("pulsar"));
            assert!(scope.is_none());
        }
        other => panic!("unexpected auth mode: {:?}", other),
    }
}

#[test]
fn auth_mode_invalid_combinations() {
    let combinations = [
        (Some("name"), None, false),
        (None, Some("token"), false),
        (Some("name"), Some("token"), true),
        (None, None, false),
    ];
    for (name, token, with_oauth2) in combinations {
        let mut config = base_pulsar_config();
        config.auth = Some(AuthConfig {
            name: name.map(str::to_string),
            token: token.map(str::to_string),
            oauth2: if with_oauth2 {
                Some(OAuth2Config {
                    issuer_url: "https://oauth2.issuer".to_string(),
                    credentials_url: "file:///oauth2_credentials".to_string(),
                    audience: None,
                    scope: None,
                })
            } else {
                None
            },
        });
        let err = config.auth_mode().err().expect("combination should be rejected");
        assert_eq!(err, PulsarSourceError::InvalidAuthConfiguration);
        assert_eq!(
            err.message(),
            "Invalid auth config: can only specify name and token or oauth2 configuration"
        );
    }
}

#[test]
fn consumer_settings_pass_through() {
    let mut config = base_pulsar_config();
    config.consumer_name = Some("consumer-name".to_string());
    config.subscription_name = Some("subscription_name".to_string());
    config.priority_level = Some(1);
    config.batch_size = Some(32);
    config.dead_letter_queue_policy = Some(DeadLetterQueuePolicy {
        max_redeliver_count: 5,
        dead_letter_topic: "dead".to_string(),
    });
    let settings = config.consumer_settings().expect("valid configuration");
    assert_eq!(settings.endpoint, "pulsar://127.0.0.1:6650");
    assert_eq!(settings.topics, vec!["persistent://public/default/my-topic".to_string()]);
    assert!(matches!(settings.auth, AuthMode::Anonymous));
    assert_eq!(settings.subscription_type, SubscriptionType::Shared);
    assert_eq!(settings.priority_level, Some(1));
    assert_eq!(settings.batch_size, Some(32));
    assert_eq!(settings.consumer_name.as_deref(), Some("consumer-name"));
    assert_eq!(settings.subscription_name.as_deref(), Some("subscription_name"));
    let policy = settings.dead_letter_policy.expect("policy kept");
    assert_eq!(policy.max_redeliver_count, 5);
    assert_eq!(policy.dead_letter_topic, "dead");
    assert!(config.can_acknowledge());
}

fn base_mqtt_config() -> MqttSinkConfig {
    MqttSinkConfig {
        host: "broker.example".to_string(),
        port: 8883,
        user: None,
        password: None,
        client_id: "client-1".to_string(),
        keep_alive: 45,
        clean_session: false,
        tls: None,
        topic: "vector".to_string(),
        encoding: EncodingConfig::Json,
        acknowledgements: AcknowledgementsConfig { enabled: Some(true) },
        quality_of_service: MqttQoS::AtLeastOnce,
    }
}

#[test]
fn connector_applies_settings() {
    let mut config = base_mqtt_config();
    config.user = Some("user".to_string());
    config.password = Some("hunter".to_string());
    let connector = config.build_connector().expect("connector builds");
    assert_eq!(connector.topic, "vector");
    assert_eq!(connector.options.raw().client_id(), "client-1");
    assert_eq!(connector.options.raw().broker_address(), ("broker.example".to_string(), 8883));
    assert_eq!(connector.options.raw().keep_alive(), std::time::Duration::from_secs(45));
    assert!(!connector.options.raw().clean_session());
    assert_eq!(
        connector.options.raw().credentials(),
        Some(("user".to_string(), "hunter".to_string()))
    );
    assert!(matches!(connector.options.raw().transport(), rumqttc::Transport::Tcp));
}

#[test]
fn connector_credentials_need_both_parts() {
    let mut config = base_mqtt_config();
    config.user = Some("user".to_string());
    let connector = config.build_connector().expect("connector builds");
    assert!(connector.options.raw().credentials().is_none());
}

#[test]
fn connector_tls_enabled() {
    let mut config = base_mqtt_config();
    config.tls = Some(TlsEnableableConfig { enabled: Some(true), ca_pem: vec![1, 2, 3] });
    let connector = config.build_connector().expect("connector builds");
    match connector.options.raw().transport() {
        rumqttc::Transport::Tls(rumqttc::TlsConfiguration::Simple { ca, client_auth, alpn }) => {
            assert_eq!(ca, vec![1, 2, 3]);
            assert!(client_auth.is_none());
            assert_eq!(alpn, Some(vec![b"mqtt".to_vec()]));
        }
        _ => panic!("unexpected transport"),
    }
}

#[test]
fn connector_tls_disabled_stays_tcp() {
    let mut config = base_mqtt_config();
    config.tls = Some(TlsEnableableConfig { enabled: Some(false), ca_pem: vec![1, 2, 3] });
    let connector = config.build_connector().expect("connector builds");
    assert!(matches!(connector.options.raw().transport(), rumqttc::Transport::Tcp));
    assert_eq!(config.acknowledgements().enabled, Some(true));
}

#[test]
fn log_namespace_merge() {
    assert_eq!(LogNamespace::Legacy.merge(Some(true)), LogNamespace::Vector);
    assert_eq!(LogNamespace::Vector.merge(Some(false)), LogNamespace::Legacy);
    assert_eq!(LogNamespace::Legacy.merge(None), LogNamespace::Legacy);
    assert_eq!(LogNamespace::Vector.merge(None), LogNamespace::Vector);
}

#[test]
fn acknowledgements_follow_source_then_global() {
    let mut config = base_pulsar_config();
    assert!(config.do_acknowledgements(true));
    assert!(!config.do_acknowledgements(false));
    config.acknowledgements.enabled = Some(false);
    assert!(!config.do_acknowledgements(true));
    config.acknowledgements.enabled = Some(true);
    assert!(config.do_acknowledgements(false));
}

#[test]
fn consumer_settings_forward_auth() {
    let mut config = base_pulsar_config();
    config.auth = Some(AuthConfig {
        name: Some("token".to_string()),
        token: Some("123456789".to_string()),
        oauth2: None,
    });
    let settings = config.consumer_settings().expect("valid configuration");
    match settings.auth {
        AuthMode::Basic { name, token } => {
            assert_eq!(name, "token");
            assert_eq!(token, "123456789");
        }
        other => panic!("unexpected auth mode: {:?}", other),
    }
}

#[test]
fn outputs_single_log_output() {
    let mut config = base_pulsar_config();
    let outputs = config.outputs(LogNamespace::Legacy);
    assert_eq!(outputs.len(), 1);
    assert_eq!(outputs[0].data_type, DataType::Log);
    assert_eq!(outputs[0].log_namespace, LogNamespace::Legacy);

    config.log_namespace = Some(true);
    let outputs = config.outputs(LogNamespace::Legacy);
    assert_eq!(outputs[0].log_namespace, LogNamespace::Vector);
}
