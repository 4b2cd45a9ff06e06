use lingchong_bot::cli::{CliCommand, cli_outcome, parse_cli_command};
use lingchong_bot::runtime::RuntimeConfig;

fn gateway_and(key: &str, token: bool) -> Option<String> {
    match key {
        "LINGCHONG_AGENT_GATEWAY_URL" => Some("http://127.0.0.1:18093".to_string()),
        "LINGCHONG_TELEGRAM_BOT_TOKEN" if token => Some("telegram-token".to_string()),
        _ => None,
    }
}

#[test]
fn cli_parses_commands() {
    assert_eq!(parse_cli_command(Some("check-config")), CliCommand::CheckConfig);
    assert_eq!(parse_cli_command(Some("preflight")), CliCommand::Preflight);
    assert_eq!(parse_cli_command(Some("plan-live")), CliCommand::PlanLive);
    assert_eq!(parse_cli_command(Some("--help")), CliCommand::Help);
    assert_eq!(parse_cli_command(Some("-h")), CliCommand::Help);
    assert_eq!(
        parse_cli_command(Some("deploy")),
        CliCommand::Unknown("deploy".to_string())
    );
    assert_eq!(parse_cli_command(None), CliCommand::Missing);
    assert!(CliCommand::Preflight.needs_configuration());
    assert!(!CliCommand::Help.needs_configuration());
}

#[test]
fn cli_help_unknown_and_missing() {
    let usage = "usage: lingchong-bot [check-config|preflight|plan-live]";
    let help = cli_outcome(&CliCommand::Help, None);
    assert_eq!(help.stdout, vec![usage]);
    assert!(help.stderr.is_empty());
    assert!(help.success);

    let unknown = cli_outcome(&CliCommand::Unknown("deploy".to_string()), None);
    assert_eq!(unknown.stderr, vec!["unknown command: deploy"]);
    assert_eq!(unknown.stdout, vec![usage]);
    assert!(!unknown.success);

    let missing = cli_outcome(&CliCommand::Missing, None);
    assert_eq!(
        missing.stdout,
        vec!["lingchong-bot migration substrate is installed", usage]
    );
    assert!(missing.success);
}

#[test]
fn cli_preflight_blocks_without_channels() {
    let config = RuntimeConfig::from_env_lookup(|key: &str| gateway_and(key, false));
    let outcome = cli_outcome(&CliCommand::Preflight, Some(&config));

    assert!(!outcome.success);
    assert_eq!(outcome.stdout.len(), 14);
    assert_eq!(outcome.stdout[12], "live_preflight_status=blocked");
    assert_eq!(
        outcome.stdout[13],
        "live_preflight_issue=no enabled Telegram or Discord bot channel"
    );

    let plan = cli_outcome(&CliCommand::PlanLive, Some(&config));
    assert!(!plan.success);
    assert_eq!(plan.stdout[0], "live_preflight_status=blocked");
    assert_eq!(plan.stdout[2], "live_plan_status=empty");
}

#[test]
fn cli_plan_live_succeeds_with_a_channel() {
    let config = RuntimeConfig::from_env_lookup(|key: &str| gateway_and(key, true));
    let outcome = cli_outcome(&CliCommand::PlanLive, Some(&config));

    assert!(outcome.success);
    assert_eq!(outcome.stdout[0], "live_preflight_status=ready");
    assert_eq!(outcome.stdout[1], "live_plan_status=runnable");
    assert_eq!(outcome.stdout[4], "live_channel=telegram_webhook");

    let check = cli_outcome(&CliCommand::CheckConfig, Some(&config));
    assert!(check.success);
    assert_eq!(check.stdout, config.as_ref().expect("config loads").summary().render_lines());
}

#[test]
fn cli_reports_configuration_errors() {
    let config = RuntimeConfig::from_env_lookup(|_: &str| None);
    let outcome = cli_outcome(&CliCommand::CheckConfig, Some(&config));

    assert!(!outcome.success);
    assert!(outcome.stdout.is_empty());
    assert_eq!(
        outcome.stderr,
        vec!["required environment variable LINGCHONG_AGENT_GATEWAY_URL is missing"]
    );
}
