use lingchong_bot::harness::{
    DiscordChannelId, DiscordGuildId, DiscordIngressStressConfigError, DiscordRoleId,
    DiscordUserId, dedup_role_ids, validate_stress_counts,
};

#[test]
fn discord_ingress_stress_config_rejects_missing_channel_id() {
    let err = DiscordChannelId::new(" ").expect_err("missing channel id should fail");

    assert_eq!(
        err,
        DiscordIngressStressConfigError::MissingRequired("channel_id")
    );
}

#[test]
fn discord_ingress_ids_are_trimmed() {
    let channel = DiscordChannelId::new(" 2001 ").expect("channel id should parse");
    let user = DiscordUserId::new(" 1001 ").expect("user id should parse");
    let guild = DiscordGuildId::new(" 3001 ").expect("guild id should be present");

    assert_eq!(channel.as_str(), "2001");
    assert_eq!(user.as_str(), "1001");
    assert_eq!(guild.as_str(), "3001");
    assert!(DiscordGuildId::new("   ").is_none());
    assert!(DiscordRoleId::new("").is_none());
    assert_eq!(
        DiscordUserId::new("\t").expect_err("blank user id should fail"),
        DiscordIngressStressConfigError::MissingRequired("user_id")
    );
}

#[test]
fn discord_ingress_role_ids_keep_first_occurrences() {
    let roles: Vec<DiscordRoleId> = ["role-a", "role-a", "", "role-b", " role-b "]
        .into_iter()
        .filter_map(DiscordRoleId::new)
        .collect();
    let deduped = dedup_role_ids(roles);

    assert_eq!(
        deduped
            .iter()
            .map(DiscordRoleId::as_str)
            .collect::<Vec<_>>(),
        vec!["role-a", "role-b"]
    );
}

#[test]
fn discord_ingress_counts_must_be_positive() {
    assert_eq!(validate_stress_counts(2, 2, 3), Ok(()));
    assert_eq!(
        validate_stress_counts(0, 0, 0),
        Err(DiscordIngressStressConfigError::ZeroValue("rounds"))
    );
    assert_eq!(
        validate_stress_counts(1, 0, 0),
        Err(DiscordIngressStressConfigError::ZeroValue("parallel"))
    );
    assert_eq!(
        validate_stress_counts(1, 1, 0),
        Err(DiscordIngressStressConfigError::ZeroValue("requests_per_worker"))
    );
}

#[test]
fn discord_ingress_errors_describe_the_field() {
    assert_eq!(
        DiscordIngressStressConfigError::MissingRequired("channel_id").describe(),
        "channel_id is required"
    );
    assert_eq!(
        DiscordIngressStressConfigError::ZeroValue("rounds").describe(),
        "rounds must be greater than zero"
    );
}
