use lingchong_bot::runtime::{
    ChannelApiBaseUrl, ChannelBindAddress, ChannelLocalUrl, ChannelPath, ChannelPort,
    MentionPolicy, RuntimeConfig, RuntimeConfigError, RuntimeEnv, RuntimeFlag, SecretFlag,
};

fn lookup_fixture(key: &str) -> Option<String> {
    match key {
        "LINGCHONG_AGENT_GATEWAY_URL" => Some(" http://127.0.0.1:18093/ ".to_string()),
        "LINGCHONG_TELEGRAM_BOT_TOKEN" => Some("telegram-token".to_string()),
        "LINGCHONG_TELEGRAM_WEBHOOK_SECRET" => Some("telegram-secret".to_string()),
        "LINGCHONG_TELEGRAM_WEBHOOK_BIND" => Some("127.0.0.1:28081".to_string()),
        "LINGCHONG_DISCORD_BOT_TOKEN" => Some("discord-token".to_string()),
        "LINGCHONG_DISCORD_INGRESS_SECRET" => Some("discord-secret".to_string()),
        "LINGCHONG_DISCORD_INGRESS_BIND" => Some("0.0.0.0:29082".to_string()),
        "LINGCHONG_DISCORD_INGRESS_PATH" => Some("discord/custom".to_string()),
        "LINGCHONG_DISCORD_REQUIRE_MENTION" => Some("false".to_string()),
        _ => None,
    }
}

#[test]
fn runtime_config_loads_secret_safe_channel_state() {
    let config = RuntimeConfig::from_env_lookup(lookup_fixture).expect("config should load");

    assert_eq!(config.agent.gateway_url.as_str(), "http://127.0.0.1:18093/");
    assert_eq!(config.telegram.enabled, RuntimeFlag::Enabled);
    assert_eq!(config.telegram.secret_configured, SecretFlag::Configured);
    assert_eq!(
        config
            .telegram
            .inbound_bind
            .as_ref()
            .map(ChannelBindAddress::as_str),
        Some("127.0.0.1:28081")
    );
    assert_eq!(
        config.telegram.inbound_port.map(ChannelPort::as_u16),
        Some(28081)
    );
    assert_eq!(
        config
            .telegram
            .api_base_url
            .as_ref()
            .map(ChannelApiBaseUrl::as_str),
        Some("https://api.telegram.org")
    );
    assert_eq!(config.discord.enabled, RuntimeFlag::Enabled);
    assert_eq!(config.discord.secret_configured, SecretFlag::Configured);
    assert_eq!(
        config
            .discord
            .inbound_bind
            .as_ref()
            .map(ChannelBindAddress::as_str),
        Some("0.0.0.0:29082")
    );
    assert_eq!(
        config
            .discord
            .inbound_path
            .as_ref()
            .map(ChannelPath::as_str),
        Some("/discord/custom")
    );
    assert_eq!(
        config
            .discord
            .inbound_url
            .as_ref()
            .map(ChannelLocalUrl::as_str),
        Some("http://127.0.0.1:29082/discord/custom")
    );
    assert_eq!(config.discord.require_mention, MentionPolicy::NotRequired);
}

#[test]
fn runtime_config_requires_gateway_url() {
    let error = RuntimeConfig::from_env_lookup(|_| None).expect_err("gateway URL is required");

    assert_eq!(
        error,
        RuntimeConfigError::MissingRequiredEnv {
            name: "LINGCHONG_AGENT_GATEWAY_URL"
        }
    );
}

#[test]
fn runtime_config_rejects_invalid_boolean() {
    let error = RuntimeConfig::from_env_lookup(|key| match key {
        "LINGCHONG_AGENT_GATEWAY_URL" => Some("http://127.0.0.1:18093".to_string()),
        "LINGCHONG_DISCORD_REQUIRE_MENTION" => Some("sometimes".to_string()),
        _ => None,
    })
    .expect_err("invalid boolean should fail");

    assert_eq!(
        error,
        RuntimeConfigError::InvalidBoolEnv {
            name: "LINGCHONG_DISCORD_REQUIRE_MENTION",
            value: "sometimes".to_string()
        }
    );
}

#[test]
fn runtime_config_telegram_webhook_port_env_overrides_bind_port() {
    let config = RuntimeConfig::from_env_lookup(|key| match key {
        "LINGCHONG_AGENT_GATEWAY_URL" => Some("http://127.0.0.1:18093".to_string()),
        "LINGCHONG_TELEGRAM_WEBHOOK_BIND" => Some("127.0.0.1:28081".to_string()),
        "LINGCHONG_TELEGRAM_WEBHOOK_PORT" => Some("38081".to_string()),
        _ => None,
    })
    .expect("config should load");

    assert_eq!(
        config
            .telegram
            .inbound_bind
            .as_ref()
            .map(ChannelBindAddress::as_str),
        Some("127.0.0.1:28081")
    );
    assert_eq!(
        config.telegram.inbound_port.map(ChannelPort::as_u16),
        Some(38081)
    );
}

#[test]
fn runtime_config_telegram_webhook_port_defaults_when_unset() {
    let config = RuntimeConfig::from_env_lookup(|key| match key {
        "LINGCHONG_AGENT_GATEWAY_URL" => Some("http://127.0.0.1:18093".to_string()),
        _ => None,
    })
    .expect("config should load");

    assert_eq!(
        config.telegram.inbound_port.map(ChannelPort::as_u16),
        Some(18081)
    );
}

#[test]
fn runtime_config_rejects_invalid_telegram_webhook_port() {
    let error = RuntimeConfig::from_env_lookup(|key| match key {
        "LINGCHONG_AGENT_GATEWAY_URL" => Some("http://127.0.0.1:18093".to_string()),
        "LINGCHONG_TELEGRAM_WEBHOOK_PORT" => Some("99999".to_string()),
        _ => None,
    })
    .expect_err("invalid port should fail");

    assert_eq!(
        error,
        RuntimeConfigError::InvalidPortEnv {
            name: "LINGCHONG_TELEGRAM_WEBHOOK_PORT",
            value: "99999".to_string()
        }
    );
}

#[test]
fn runtime_config_discord_ingress_url_env_overrides_bind_and_path() {
    let config = RuntimeConfig::from_env_lookup(|key| match key {
        "LINGCHONG_AGENT_GATEWAY_URL" => Some("http://127.0.0.1:18093".to_string()),
        "LINGCHONG_DISCORD_INGRESS_BIND" => Some("0.0.0.0:19082".to_string()),
        "LINGCHONG_DISCORD_INGRESS_PATH" => Some("ingress/discord".to_string()),
        "LINGCHONG_DISCORD_INGRESS_URL" => Some("https://example.test/discord".to_string()),
        _ => None,
    })
    .expect("config should load");

    assert_eq!(
        config
            .discord
            .inbound_bind
            .as_ref()
            .map(ChannelBindAddress::as_str),
        Some("0.0.0.0:19082")
    );
    assert_eq!(
        config
            .discord
            .inbound_path
            .as_ref()
            .map(ChannelPath::as_str),
        Some("/ingress/discord")
    );
    assert_eq!(
        config
            .discord
            .inbound_url
            .as_ref()
            .map(ChannelLocalUrl::as_str),
        Some("https://example.test/discord")
    );
}

#[test]
fn runtime_config_discord_ingress_defaults_to_local_url() {
    let config = RuntimeConfig::from_env_lookup(|key| match key {
        "LINGCHONG_AGENT_GATEWAY_URL" => Some("http://127.0.0.1:18093".to_string()),
        _ => None,
    })
    .expect("config should load");

    assert_eq!(
        config
            .discord
            .inbound_url
            .as_ref()
            .map(ChannelLocalUrl::as_str),
        Some("http://127.0.0.1:18082/discord/ingress")
    );
}

#[test]
fn runtime_summary_does_not_render_secret_values() {
    let config = RuntimeConfig::from_env_lookup(lookup_fixture).expect("config should load");
    let rendered = config.summary().render_lines().join("\n");

    assert!(rendered.contains("telegram_enabled=true"));
    assert!(rendered.contains("telegram_webhook_bind=127.0.0.1:28081"));
    assert!(rendered.contains("telegram_webhook_port=28081"));
    assert!(rendered.contains("discord_enabled=true"));
    assert!(rendered.contains("discord_ingress_bind=0.0.0.0:29082"));
    assert!(rendered.contains("discord_ingress_path=/discord/custom"));
    assert!(rendered.contains("discord_ingress_url=http://127.0.0.1:29082/discord/custom"));
    assert!(!rendered.contains("telegram-token"));
    assert!(!rendered.contains("discord-token"));
    assert!(!rendered.contains("telegram-secret"));
    assert!(!rendered.contains("discord-secret"));
}

fn gateway_only(extra: &'static [(&'static str, &'static str)]) -> impl Fn(&str) -> Option<String> {
    move |key: &str| {
        if key == "LINGCHONG_AGENT_GATEWAY_URL" {
            return Some("http://127.0.0.1:18093".to_string());
        }
        extra
            .iter()
            .find(|(name, _)| *name == key)
            .map(|(_, value)| value.to_string())
    }
}

#[test]
fn runtime_summary_renders_every_field_in_order() {
    let config = RuntimeConfig::from_env_lookup(lookup_fixture).expect("config should load");

    assert_eq!(
        config.summary().render_lines(),
        vec![
            "agent_gateway_url=http://127.0.0.1:18093/",
            "telegram_enabled=true",
            "telegram_webhook_secret_configured=true",
            "telegram_webhook_bind=127.0.0.1:28081",
            "telegram_webhook_port=28081",
            "telegram_api_base_url=https://api.telegram.org",
            "discord_enabled=true",
            "discord_ingress_secret_configured=true",
            "discord_ingress_bind=0.0.0.0:29082",
            "discord_ingress_path=/discord/custom",
            "discord_ingress_url=http://127.0.0.1:29082/discord/custom",
            "discord_require_mention=false",
        ]
    );
}

#[test]
fn runtime_config_defaults_without_channels() {
    let config = RuntimeConfig::from_env_lookup(gateway_only(&[])).expect("config should load");

    assert_eq!(config.telegram.enabled, RuntimeFlag::Disabled);
    assert_eq!(config.telegram.secret_configured, SecretFlag::Missing);
    assert!(config.telegram.inbound_bind.is_none());
    assert_eq!(
        config.telegram.inbound_path.as_ref().map(ChannelPath::as_str),
        Some("/telegram/webhook")
    );
    assert!(config.telegram.inbound_url.is_none());
    assert_eq!(config.discord.enabled, RuntimeFlag::Disabled);
    assert_eq!(
        config
            .discord
            .inbound_bind
            .as_ref()
            .map(ChannelBindAddress::as_str),
        Some("127.0.0.1:18082")
    );
    assert_eq!(
        config.discord.inbound_path.as_ref().map(ChannelPath::as_str),
        Some("/discord/ingress")
    );
    assert!(config.discord.inbound_port.is_none());
    assert!(config.discord.api_base_url.is_none());
    assert_eq!(config.discord.require_mention, MentionPolicy::Required);
}

#[test]
fn runtime_config_ignores_secret_values() {
    let first = RuntimeConfig::from_env_lookup(lookup_fixture).expect("config should load");
    let second = RuntimeConfig::from_env_lookup(|key| match key {
        "LINGCHONG_TELEGRAM_BOT_TOKEN" => Some("another-telegram-token".to_string()),
        "LINGCHONG_DISCORD_INGRESS_SECRET" => Some("  another secret ".to_string()),
        _ => lookup_fixture(key),
    })
    .expect("config should load");

    assert_eq!(first, second);
}

#[test]
fn runtime_config_blank_values_count_as_unset() {
    let error = RuntimeConfig::from_env_lookup(|key| match key {
        "LINGCHONG_AGENT_GATEWAY_URL" => Some(" \t ".to_string()),
        _ => None,
    })
    .expect_err("blank gateway URL is missing");
    assert_eq!(
        error,
        RuntimeConfigError::MissingRequiredEnv {
            name: "LINGCHONG_AGENT_GATEWAY_URL"
        }
    );

    let config = RuntimeConfig::from_env_lookup(gateway_only(&[
        ("LINGCHONG_TELEGRAM_BOT_TOKEN", "   "),
        ("LINGCHONG_DISCORD_REQUIRE_MENTION", "  "),
    ]))
    .expect("config should load");
    assert_eq!(config.telegram.enabled, RuntimeFlag::Disabled);
    assert_eq!(config.discord.require_mention, MentionPolicy::Required);
}

#[test]
fn runtime_config_port_edge_cases() {
    let zero = RuntimeConfig::from_env_lookup(gateway_only(&[(
        "LINGCHONG_TELEGRAM_WEBHOOK_PORT",
        " 0 ",
    )]))
    .expect_err("port zero should fail");
    assert_eq!(
        zero,
        RuntimeConfigError::InvalidPortEnv {
            name: "LINGCHONG_TELEGRAM_WEBHOOK_PORT",
            value: "0".to_string()
        }
    );

    let plus = RuntimeConfig::from_env_lookup(gateway_only(&[(
        "LINGCHONG_TELEGRAM_WEBHOOK_PORT",
        "+8443",
    )]))
    .expect("signed port should load");
    assert_eq!(plus.telegram.inbound_port.map(ChannelPort::as_u16), Some(8443));

    let no_port_in_bind = RuntimeConfig::from_env_lookup(gateway_only(&[(
        "LINGCHONG_TELEGRAM_WEBHOOK_BIND",
        "localhost",
    )]))
    .expect("config should load");
    assert_eq!(
        no_port_in_bind.telegram.inbound_port.map(ChannelPort::as_u16),
        Some(18081)
    );

    let bad_port_in_bind = RuntimeConfig::from_env_lookup(gateway_only(&[(
        "LINGCHONG_TELEGRAM_WEBHOOK_BIND",
        "[::1]:http",
    )]))
    .expect("config should load");
    assert_eq!(
        bad_port_in_bind.telegram.inbound_port.map(ChannelPort::as_u16),
        Some(18081)
    );

    let ipv6 = RuntimeConfig::from_env_lookup(gateway_only(&[(
        "LINGCHONG_TELEGRAM_WEBHOOK_BIND",
        "[::]:9443",
    )]))
    .expect("config should load");
    assert_eq!(ipv6.telegram.inbound_port.map(ChannelPort::as_u16), Some(9443));
}

#[test]
fn runtime_config_local_url_normalizes_bind() {
    let cases: [(&'static str, &'static str); 4] = [
        ("[::]:9000", "http://127.0.0.1:9000/discord/ingress"),
        ("9000", "http://127.0.0.1:9000/discord/ingress"),
        ("example.host: 9001 ", "http://example.host:9001/discord/ingress"),
        (":9002", "http://127.0.0.1:9002/discord/ingress"),
    ];
    for (bind, url) in cases {
        let config = RuntimeConfig::from_env_lookup(move |key| match key {
            "LINGCHONG_AGENT_GATEWAY_URL" => Some("http://127.0.0.1:18093".to_string()),
            "LINGCHONG_DISCORD_INGRESS_BIND" => Some(bind.to_string()),
            _ => None,
        })
        .expect("config should load");
        assert_eq!(
            config.discord.inbound_url.as_ref().map(ChannelLocalUrl::as_str),
            Some(url)
        );
    }
}

#[test]
fn runtime_config_mention_flag_spellings() {
    for word in ["1", "true", "TRUE", "True", "yes", "YES", "on", "ON"] {
        let config = RuntimeConfig::from_env_lookup(move |key| match key {
            "LINGCHONG_AGENT_GATEWAY_URL" => Some("http://127.0.0.1:18093".to_string()),
            "LINGCHONG_DISCORD_REQUIRE_MENTION" => Some(word.to_string()),
            _ => None,
        })
        .expect("config should load");
        assert_eq!(config.discord.require_mention, MentionPolicy::Required);
    }
    for word in ["0", "false", "FALSE", "False", "no", "NO", "off", "OFF"] {
        let config = RuntimeConfig::from_env_lookup(move |key| match key {
            "LINGCHONG_AGENT_GATEWAY_URL" => Some("http://127.0.0.1:18093".to_string()),
            "LINGCHONG_DISCORD_REQUIRE_MENTION" => Some(word.to_string()),
            _ => None,
        })
        .expect("config should load");
        assert_eq!(config.discord.require_mention, MentionPolicy::NotRequired);
    }
    assert!(
        RuntimeConfig::from_env_lookup(gateway_only(&[(
            "LINGCHONG_DISCORD_REQUIRE_MENTION",
            "tRuE"
        )]))
        .is_err()
    );
}

#[test]
fn runtime_config_port_error_comes_before_flag_error() {
    let error = RuntimeConfig::from_env_lookup(gateway_only(&[
        ("LINGCHONG_TELEGRAM_WEBHOOK_PORT", "port"),
        ("LINGCHONG_DISCORD_REQUIRE_MENTION", "maybe"),
    ]))
    .expect_err("invalid values should fail");

    assert_eq!(
        error,
        RuntimeConfigError::InvalidPortEnv {
            name: "LINGCHONG_TELEGRAM_WEBHOOK_PORT",
            value: "port".to_string()
        }
    );
}

#[test]
fn runtime_config_errors_describe_themselves() {
    assert_eq!(
        RuntimeConfigError::MissingRequiredEnv {
            name: "LINGCHONG_AGENT_GATEWAY_URL"
        }
        .describe(),
        "required environment variable LINGCHONG_AGENT_GATEWAY_URL is missing"
    );
    assert_eq!(
        RuntimeConfigError::InvalidBoolEnv {
            name: "LINGCHONG_DISCORD_REQUIRE_MENTION",
            value: "sometimes".to_string()
        }
        .describe(),
        "environment variable LINGCHONG_DISCORD_REQUIRE_MENTION has invalid boolean value \"sometimes\""
    );
    assert_eq!(
        RuntimeConfigError::InvalidPortEnv {
            name: "LINGCHONG_TELEGRAM_WEBHOOK_PORT",
            value: "a\"b".to_string()
        }
        .describe(),
        "environment variable LINGCHONG_TELEGRAM_WEBHOOK_PORT has invalid port value \"a\\\"b\""
    );
}

#[test]
fn runtime_env_read_asks_each_variable() {
    let env = RuntimeEnv::read(lookup_fixture);

    assert_eq!(env.agent_gateway_url.as_deref(), Some(" http://127.0.0.1:18093/ "));
    assert_eq!(env.telegram_webhook_port, None);
    assert_eq!(env.discord_require_mention.as_deref(), Some("false"));
    assert_eq!(
        RuntimeConfig::from_env_values(&env),
        RuntimeConfig::from_env_lookup(lookup_fixture)
    );
}
