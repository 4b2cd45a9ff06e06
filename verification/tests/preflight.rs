use lingchong_bot::runtime::{
    LiveLaunchPlan, LivePreflightIssue, LivePreflightReport, LivePreflightStatus, RuntimeConfig,
};

fn lookup_fixture(key: &str) -> Option<String> {
    match key {
        "LINGCHONG_AGENT_GATEWAY_URL" => Some(" http://127.0.0.1:18093/ ".to_string()),
        "LINGCHONG_TELEGRAM_BOT_TOKEN" => Some("telegram-token".to_string()),
        "LINGCHONG_TELEGRAM_WEBHOOK_SECRET" => Some("telegram-secret".to_string()),
        "LINGCHONG_TELEGRAM_WEBHOOK_BIND" => Some("127.0.0.1:28081".to_string()),
        "LINGCHONG_DISCORD_BOT_TOKEN" => Some("discord-token".to_string()),
        "LINGCHONG_DISCORD_INGRESS_SECRET" => Some("discord-secret".to_string()),
        "LINGCHONG_DISCORD_INGRESS_BIND" => Some("0.0.0.0:29082".to_string()),
        "LINGCHONG_DISCORD_INGRESS_PATH" => Some("discord/custom".to_string()),
        "LINGCHONG_DISCORD_REQUIRE_MENTION" => Some("false".to_string()),
        _ => None,
    }
}

#[test]
fn live_preflight_blocks_without_enabled_channels() {
    let config = RuntimeConfig::from_env_lookup(|key| match key {
        "LINGCHONG_AGENT_GATEWAY_URL" => Some("http://127.0.0.1:18093".to_string()),
        _ => None,
    })
    .expect("config should load");

    let report = LivePreflightReport::from_config(&config);

    assert_eq!(report.status, LivePreflightStatus::Blocked);
    assert_eq!(
        report.issues,
        vec![LivePreflightIssue::MissingEnabledChannel]
    );
    assert!(!report.is_ready());
}

#[test]
fn live_preflight_allows_any_enabled_channel() {
    let config = RuntimeConfig::from_env_lookup(|key| match key {
        "LINGCHONG_AGENT_GATEWAY_URL" => Some("http://127.0.0.1:18093".to_string()),
        "LINGCHONG_DISCORD_BOT_TOKEN" => Some("discord-token".to_string()),
        _ => None,
    })
    .expect("config should load");

    let report = LivePreflightReport::from_config(&config);

    assert_eq!(report.status, LivePreflightStatus::Ready);
    assert!(report.issues.is_empty());
    assert!(report.is_ready());
}

#[test]
fn live_preflight_report_is_secret_safe() {
    let config = RuntimeConfig::from_env_lookup(lookup_fixture).expect("config should load");
    let rendered = LivePreflightReport::from_config(&config)
        .render_lines()
        .join("\n");

    assert!(rendered.contains("live_preflight_status=ready"));
    assert!(!rendered.contains("telegram-token"));
    assert!(!rendered.contains("discord-token"));
    assert!(!rendered.contains("telegram-secret"));
    assert!(!rendered.contains("discord-secret"));
}

#[test]
fn live_preflight_blocked_render_names_the_issue() {
    let config = RuntimeConfig::from_env_lookup(|key| match key {
        "LINGCHONG_AGENT_GATEWAY_URL" => Some("http://127.0.0.1:18093".to_string()),
        _ => None,
    })
    .expect("config should load");
    let report = LivePreflightReport::from_config(&config);

    assert_eq!(
        report.render_lines(),
        vec![
            "live_preflight_status=blocked",
            "live_preflight_issue=no enabled Telegram or Discord bot channel",
        ]
    );
    assert_eq!(
        LivePreflightIssue::MissingEnabledChannel.describe(),
        "no enabled Telegram or Discord bot channel"
    );
    assert_eq!(LivePreflightStatus::Ready.as_str(), "ready");
    assert_eq!(LivePreflightStatus::Blocked.as_str(), "blocked");
}

#[test]
fn live_preflight_ready_exactly_when_plan_is_runnable() {
    let gateway = |key: &str| match key {
        "LINGCHONG_AGENT_GATEWAY_URL" => Some("http://127.0.0.1:18093".to_string()),
        _ => None,
    };
    let telegram_only = |key: &str| match key {
        "LINGCHONG_TELEGRAM_BOT_TOKEN" => Some("telegram-token".to_string()),
        _ => gateway(key),
    };
    for config in [
        RuntimeConfig::from_env_lookup(gateway).expect("config should load"),
        RuntimeConfig::from_env_lookup(telegram_only).expect("config should load"),
        RuntimeConfig::from_env_lookup(lookup_fixture).expect("config should load"),
    ] {
        assert_eq!(
            LivePreflightReport::from_config(&config).is_ready(),
            LiveLaunchPlan::from_config(&config).is_runnable()
        );
    }
}
