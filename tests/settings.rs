use mcdcbot::settings::{parse_u64, Settings, SettingsError};

#[test]
fn full_settings_text() {
    let text = "channel_id_info= 123 \r\nchannel_id_chat=456\nsend_join_and_leave_messages=true\nsend_start_stop_messages_in_chat=false\nget_my_ip_url1=  https://a.example/ip  \nget_my_ip_url2=https://b.example\nunknown=1\n";
    let s = Settings::from_text(text).unwrap();
    assert_eq!(s.channel_id_info, 123);
    assert_eq!(s.channel_id_chat, 456);
    assert!(s.send_join_and_leave_messages);
    assert!(!s.send_start_stop_messages_in_chat);
    assert_eq!(s.get_my_ip_url1, "https://a.example/ip");
    assert_eq!(s.get_my_ip_url2, "https://b.example");
}

#[test]
fn later_lines_win_and_flags_default_off() {
    let s = Settings::from_text("channel_id_info=1\nchannel_id_chat=2\nchannel_id_info=7").unwrap();
    assert_eq!(s.channel_id_info, 7);
    assert!(!s.send_join_and_leave_messages);
    assert_eq!(s.get_my_ip_url1, "");
}

#[test]
fn flag_is_on_unless_exactly_false() {
    let s = Settings::from_text(
        "channel_id_info=1\nchannel_id_chat=2\nsend_join_and_leave_messages\nsend_start_stop_messages_in_chat= false",
    )
    .unwrap();
    assert!(s.send_join_and_leave_messages);
    assert!(s.send_start_stop_messages_in_chat);
}

#[test]
fn missing_channel_ids() {
    assert_eq!(
        Settings::from_text("channel_id_chat=2").err(),
        Some(SettingsError::MissingChannelIdInfo)
    );
    assert_eq!(
        Settings::from_text("channel_id_info=1\nchannel_id_chat=x").err(),
        Some(SettingsError::MissingChannelIdChat)
    );
    assert_eq!(
        Settings::from_text("channel_id_info=1\nchannel_id_chat=2\nchannel_id_info=").err(),
        Some(SettingsError::MissingChannelIdInfo)
    );
    assert_eq!(Settings::from_text("").err(), Some(SettingsError::MissingChannelIdInfo));
}

#[test]
fn unsigned_numbers() {
    assert_eq!(parse_u64("0"), Some(0));
    assert_eq!(parse_u64("+42"), Some(42));
    assert_eq!(parse_u64("18446744073709551615"), Some(u64::MAX));
    assert_eq!(parse_u64("18446744073709551616"), None);
    assert_eq!(parse_u64(""), None);
    assert_eq!(parse_u64("+"), None);
    assert_eq!(parse_u64("-1"), None);
    assert_eq!(parse_u64("12a"), None);
    assert_eq!(parse_u64(" 1"), None);
}
