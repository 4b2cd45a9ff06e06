use lingchong_bot::runtime::{
    LiveLaunchChannel, LiveLaunchPlan, LiveLaunchPlanStatus, RuntimeConfig,
};

fn lookup_fixture(key: &str) -> Option<String> {
    match key {
        "LINGCHONG_AGENT_GATEWAY_URL" => Some(" http://127.0.0.1:18093/ ".to_string()),
        "LINGCHONG_TELEGRAM_BOT_TOKEN" => Some("telegram-token".to_string()),
        "LINGCHONG_TELEGRAM_WEBHOOK_SECRET" => Some("telegram-secret".to_string()),
        "LINGCHONG_TELEGRAM_WEBHOOK_BIND" => Some("127.0.0.1:28081".to_string()),
        "LINGCHONG_DISCORD_BOT_TOKEN" => Some("discord-token".to_string()),
        "LINGCHONG_DISCORD_INGRESS_SECRET" => Some("discord-secret".to_string()),
        "LINGCHONG_DISCORD_INGRESS_BIND" => Some("0.0.0.0:29082".to_string()),
        "LINGCHONG_DISCORD_INGRESS_PATH" => Some("discord/custom".to_string()),
        "LINGCHONG_DISCORD_REQUIRE_MENTION" => Some("false".to_string()),
        _ => None,
    }
}

#[test]
fn live_launch_plan_is_empty_without_enabled_channels() {
    let config = RuntimeConfig::from_env_lookup(|key| match key {
        "LINGCHONG_AGENT_GATEWAY_URL" => Some("http://127.0.0.1:18093".to_string()),
        _ => None,
    })
    .expect("config should load");

    let plan = LiveLaunchPlan::from_config(&config);

    assert_eq!(plan.status, LiveLaunchPlanStatus::Empty);
    assert!(plan.channels.is_empty());
    assert!(!plan.is_runnable());
}

#[test]
fn live_launch_plan_includes_enabled_channels() {
    let config = RuntimeConfig::from_env_lookup(lookup_fixture).expect("config should load");

    let plan = LiveLaunchPlan::from_config(&config);

    assert_eq!(plan.status, LiveLaunchPlanStatus::Runnable);
    assert_eq!(plan.channels.len(), 2);
    assert!(matches!(
        plan.channels[0],
        LiveLaunchChannel::TelegramWebhook { .. }
    ));
    assert!(matches!(
        plan.channels[1],
        LiveLaunchChannel::DiscordIngress { .. }
    ));
    assert_eq!(plan.channels[0].id(), "telegram_webhook");
    assert_eq!(plan.channels[1].id(), "discord_ingress");
}

#[test]
fn live_launch_plan_render_is_secret_safe() {
    let config = RuntimeConfig::from_env_lookup(lookup_fixture).expect("config should load");
    let rendered = LiveLaunchPlan::from_config(&config)
        .render_lines()
        .join("\n");

    assert!(rendered.contains("live_plan_status=runnable"));
    assert!(rendered.contains("live_channel_count=2"));
    assert!(rendered.contains("live_channel=telegram_webhook"));
    assert!(rendered.contains("live_channel=discord_ingress"));
    assert!(rendered.contains("live_gateway_url=http://127.0.0.1:18093"));
    assert!(!rendered.contains("telegram-token"));
    assert!(!rendered.contains("discord-token"));
    assert!(!rendered.contains("telegram-secret"));
    assert!(!rendered.contains("discord-secret"));
}

#[test]
fn live_launch_plan_renders_each_channel() {
    let config = RuntimeConfig::from_env_lookup(lookup_fixture).expect("config should load");
    let plan = LiveLaunchPlan::from_config(&config);

    assert!(plan.is_runnable());
    assert_eq!(
        plan.render_lines(),
        vec![
            "live_plan_status=runnable",
            "live_gateway_url=http://127.0.0.1:18093/",
            "live_channel_count=2",
            "live_channel=telegram_webhook",
            "telegram_webhook_bind=127.0.0.1:28081",
            "telegram_webhook_port=28081",
            "telegram_webhook_path=/telegram/webhook",
            "live_channel=discord_ingress",
            "discord_ingress_bind=0.0.0.0:29082",
            "discord_ingress_path=/discord/custom",
            "discord_ingress_url=http://127.0.0.1:29082/discord/custom",
        ]
    );
}

#[test]
fn live_launch_plan_empty_render() {
    let config = RuntimeConfig::from_env_lookup(|key| match key {
        "LINGCHONG_AGENT_GATEWAY_URL" => Some("http://127.0.0.1:18093".to_string()),
        _ => None,
    })
    .expect("config should load");

    assert_eq!(
        LiveLaunchPlan::from_config(&config).render_lines(),
        vec![
            "live_plan_status=empty",
            "live_gateway_url=http://127.0.0.1:18093",
            "live_channel_count=0",
        ]
    );
    assert_eq!(LiveLaunchPlanStatus::Empty.as_str(), "empty");
    assert_eq!(LiveLaunchPlanStatus::Runnable.as_str(), "runnable");
}

#[test]
fn live_launch_plan_discord_only() {
    let config = RuntimeConfig::from_env_lookup(|key| match key {
        "LINGCHONG_AGENT_GATEWAY_URL" => Some("http://127.0.0.1:18093".to_string()),
        "LINGCHONG_DISCORD_BOT_TOKEN" => Some("discord-token".to_string()),
        _ => None,
    })
    .expect("config should load");
    let plan = LiveLaunchPlan::from_config(&config);

    assert_eq!(plan.channels.len(), 1);
    assert_eq!(plan.channels[0].id(), "discord_ingress");
    assert_eq!(
        plan.channels[0],
        LiveLaunchChannel::DiscordIngress {
            bind: config.discord.inbound_bind.clone(),
            path: config.discord.inbound_path.clone(),
            url: config.discord.inbound_url.clone(),
        }
    );
}
