use lingchong_bot::harness::{
    TelegramChatType, TelegramGroupProfile, TelegramGroupProfileError, TelegramProfileThreadId,
};

#[test]
fn telegram_group_profile_extracts_required_groups() {
    let log = r#"
2026-02-20T00:00:01Z INFO lingchong_bot::channels::telegram::runtime::webhook: Parsed message, forwarding to agent session_key=-5101776367:1304799691 chat_id=Some(-5101776367) chat_title=Some("Test1") chat_type=Some("group") message_thread_id=None content_preview=/help
2026-02-20T00:00:02Z INFO lingchong_bot::channels::telegram::runtime::webhook: Parsed message, forwarding to agent session_key=-5020317863:1304799691 chat_id=Some(-5020317863) chat_title=Some("Test2") chat_type=Some("group") message_thread_id=Some(44) content_preview=/help
"#;

    let profile = TelegramGroupProfile::parse_required(log, &["Test1", "Test2"])
        .expect("required groups should parse");

    assert_eq!(profile.present_titles(), vec!["Test1", "Test2"]);
    assert_eq!(
        profile
            .group("Test1")
            .expect("group should exist")
            .chat_id
            .into_raw(),
        -5_101_776_367
    );
    assert_eq!(
        profile
            .group("Test1")
            .expect("group should exist")
            .chat_type,
        TelegramChatType::Group
    );
    assert_eq!(
        profile
            .group("Test2")
            .expect("group should exist")
            .thread_id
            .map(TelegramProfileThreadId::into_raw),
        Some(44)
    );
}

#[test]
fn telegram_group_profile_reports_missing_titles() {
    let err = TelegramGroupProfile::parse_required("", &["Missing"])
        .expect_err("missing title should fail");

    assert_eq!(
        err,
        TelegramGroupProfileError::MissingTitles(vec!["Missing".to_string()])
    );
    assert_eq!(err.describe(), "missing group titles in log: Missing");
}

#[test]
fn telegram_group_profile_lists_every_missing_title() {
    let err = TelegramGroupProfile::parse_required("", &["Alpha", "Beta"])
        .expect_err("missing titles should fail");

    assert_eq!(
        err,
        TelegramGroupProfileError::MissingTitles(vec!["Alpha".to_string(), "Beta".to_string()])
    );
    assert_eq!(err.describe(), "missing group titles in log: Alpha, Beta");
}

#[test]
fn telegram_group_profile_keeps_last_line_per_title() {
    let log = "chat_id=Some(-1) chat_title=Some(\"Room\") chat_type=Some(\"group\") session_key=-1:9\n\
               chat_id=Some(-2) chat_title=Some(\"Room\") chat_type=Some(\"supergroup\") session_key=-2:9 message_thread_id=Some(5)\n";

    let profile = TelegramGroupProfile::parse_required(log, &["Room"]).expect("room should parse");
    let group = profile.group("Room").expect("group should exist");

    assert_eq!(group.chat_id.into_raw(), -2);
    assert_eq!(group.chat_type, TelegramChatType::Supergroup);
    assert_eq!(group.session_key.as_str(), "-2:9");
    assert_eq!(group.thread_id.map(TelegramProfileThreadId::into_raw), Some(5));
    assert!(profile.group("Other").is_none());
}

#[test]
fn telegram_group_profile_skips_incomplete_lines() {
    let log = "chat_title=Some(\"NoId\") chat_type=Some(\"group\") session_key=1:2\n\
               chat_id=Some(-3) chat_title=Some(\"NoType\") session_key=-3:2\n";

    let err = TelegramGroupProfile::parse_required(log, &["NoId", "NoType"])
        .expect_err("incomplete lines are skipped");

    assert_eq!(
        err,
        TelegramGroupProfileError::MissingTitles(vec!["NoId".to_string(), "NoType".to_string()])
    );
}
