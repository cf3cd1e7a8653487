use ticksync::api::{check_envelope, status_is_success, ApiError, Chat, Message};
use ticksync::config::{parse_config, tz_offset_secs, ConfigError};
use ticksync::fmt::{display_seconds, format_msg, two_digit_string, u64_to_string};
use ticksync::pool::{api_url, build_pool};
use ticksync::{align_date, NANOS_PER_SEC};

#[test]
fn api_url_concatenates() {
    assert_eq!(
        api_url("123:abc", "editMessageText"),
        "https://api.telegram.org/bot123:abc/editMessageText"
    );
    assert_eq!(
        api_url("123:abc", "getChat"),
        "https://api.telegram.org/bot123:abc/getChat"
    );
}

#[test]
fn pool_round_robin_in_order() {
    let tokens = vec!["a:1".to_string(), "b:2".to_string(), "c:3".to_string()];
    let mut p = build_pool(&tokens);
    assert_eq!(p.len(), 3);
    let mut seen = Vec::new();
    for _ in 0..3 {
        seen.push(p.next_url());
    }
    assert_eq!(
        seen,
        vec![
            "https://api.telegram.org/bota:1/editMessageText".to_string(),
            "https://api.telegram.org/botb:2/editMessageText".to_string(),
            "https://api.telegram.org/botc:3/editMessageText".to_string(),
        ]
    );
    // the fourth send wraps to the first endpoint again
    assert_eq!(p.next_url(), seen[0]);
}

#[test]
fn single_endpoint_pool_repeats() {
    let tokens = vec!["only:tok".to_string()];
    let mut p = build_pool(&tokens);
    let first = p.next_url();
    assert_eq!(p.next_url(), first);
}

#[test]
fn envelope_judgement() {
    assert_eq!(check_envelope(true, Some(7u64)), Ok(7u64));
    assert_eq!(check_envelope::<u64>(false, Some(7)), Err(ApiError::NotOk));
    assert_eq!(check_envelope::<u64>(true, None), Err(ApiError::NoResult));
}

#[test]
fn status_range() {
    assert!(status_is_success(200));
    assert!(status_is_success(204));
    assert!(status_is_success(299));
    assert!(!status_is_success(199));
    assert!(!status_is_success(300));
    assert!(!status_is_success(404));
}

#[test]
fn chat_unwrap_yields_pinned_id() {
    let chat = Chat { pinned_message: Some(Message { message_id: 42 }) };
    assert_eq!(chat.unwrap(), 42);
}

#[test]
fn config_full_round() {
    let cfg = parse_config("111:aaa #mychat T8 222:bbb\n").unwrap();
    assert_eq!(cfg.creds, vec!["111:aaa".to_string(), "222:bbb".to_string()]);
    assert_eq!(cfg.chat_id, "mychat");
    assert_eq!(cfg.tz_hours, Some(8));
}

#[test]
fn config_without_override_has_no_zone() {
    let cfg = parse_config("  111:aaa\t#c ").unwrap();
    assert_eq!(cfg.tz_hours, None);
    assert_eq!(cfg.chat_id, "c");
}

#[test]
fn config_last_markers_win() {
    let cfg = parse_config("#one t:1 #two T-5 T3").unwrap();
    assert_eq!(cfg.chat_id, "two");
    assert_eq!(cfg.tz_hours, Some(3));
    assert_eq!(cfg.creds, vec!["t:1".to_string()]);
}

#[test]
fn config_negative_zone() {
    let cfg = parse_config("t:1 #c T-11").unwrap();
    assert_eq!(cfg.tz_hours, Some(-11));
}

#[test]
fn config_bad_zone_is_fatal() {
    assert_eq!(parse_config("t:1 #c Tx").unwrap_err(), ConfigError::BadTimezone);
    assert_eq!(parse_config("t:1 #c T").unwrap_err(), ConfigError::BadTimezone);
    assert_eq!(parse_config("t:1 #c T24").unwrap_err(), ConfigError::BadTimezone);
    assert_eq!(parse_config("t:1 #c T-24").unwrap_err(), ConfigError::BadTimezone);
    assert_eq!(
        parse_config("t:1 #c T99999999999999999999").unwrap_err(),
        ConfigError::BadTimezone
    );
    // a bad zone is fatal even when a later one is fine
    assert_eq!(parse_config("t:1 #c T+ T3").unwrap_err(), ConfigError::BadTimezone);
}

#[test]
fn config_requires_credentials_and_chat() {
    assert_eq!(parse_config("#c T3").unwrap_err(), ConfigError::NoCredentials);
    assert_eq!(parse_config("t:1 T3").unwrap_err(), ConfigError::NoChat);
    assert_eq!(parse_config("t:1 #").unwrap_err(), ConfigError::NoChat);
    assert_eq!(parse_config("").unwrap_err(), ConfigError::NoCredentials);
}

#[test]
fn config_ignores_tokens_without_colon() {
    let cfg = parse_config("noise t:1 more-noise #c").unwrap();
    assert_eq!(cfg.creds, vec!["t:1".to_string()]);
}

#[test]
fn zone_offset_in_seconds() {
    assert_eq!(tz_offset_secs(8), 28_800);
    assert_eq!(tz_offset_secs(-5), -18_000);
    assert_eq!(tz_offset_secs(0), 0);
}

#[test]
fn align_drops_subsecond_part() {
    assert_eq!(align_date(1_500_000_001), 1_000_000_000);
    assert_eq!(align_date(2 * NANOS_PER_SEC), 2 * NANOS_PER_SEC);
}

#[test]
fn decimal_renderings() {
    assert_eq!(u64_to_string(0), "0");
    assert_eq!(u64_to_string(2015), "2015");
    assert_eq!(two_digit_string(4), "04");
    assert_eq!(two_digit_string(59), "59");
}

#[test]
fn display_shift_applies_offset() {
    // 1000 seconds of clock, eight hours east
    assert_eq!(display_seconds(1_000 * NANOS_PER_SEC, 28_800), 29_800);
    assert_eq!(display_seconds(100_000 * NANOS_PER_SEC, -18_000), 82_000);
}

#[test]
fn formats_known_instants() {
    // 2015-05-15 00:00:00 UTC
    assert_eq!(format_msg(1_431_648_000), "\u{600E}\u{4E48}\u{90FD} 2015/5/15 0:00:00 \u{4E86}");
    // 2015-05-15 07:28:04 UTC
    assert_eq!(
        format_msg(1_431_674_884),
        "\u{600E}\u{4E48}\u{90FD} 2015/5/15 7:28:04 \u{4E86}"
    );
}
