use coral::notify::{
    NotificationCategory, NotificationMessage, NotificationPriority, compose_detail, compose_post,
};
use coral::util::{
    calculate_percentage_change, format_amount, format_duration, i64_to_string, parse_pubkey,
    u64_to_string,
};

#[test]
fn amounts_render_with_the_decimal_point_placed() {
    assert_eq!(format_amount(1234, 2), "12.34");
    assert_eq!(format_amount(5, 3), "0.005");
    assert_eq!(format_amount(1_000_000, 0), "1000000");
    assert_eq!(format_amount(0, 2), "0.00");
    assert_eq!(format_amount(1_500_000_000, 9), "1.500000000");
    assert_eq!(format_amount(u64::MAX, 20), "0.18446744073709551615");
}

#[test]
fn durations_render_by_magnitude() {
    assert_eq!(format_duration(0), "0m");
    assert_eq!(format_duration(59), "0m");
    assert_eq!(format_duration(90), "1m");
    assert_eq!(format_duration(3_660), "1h 1m");
    assert_eq!(format_duration(90_000), "1d 1h");
}

#[test]
fn decimal_strings_round_trip_plain_values() {
    assert_eq!(u64_to_string(0), "0");
    assert_eq!(u64_to_string(18_446_744_073_709_551_615), "18446744073709551615");
    assert_eq!(i64_to_string(-42), "-42");
    assert_eq!(i64_to_string(i64::MIN), "-9223372036854775808");
}

#[test]
fn percentage_change_is_exact_and_signed() {
    assert_eq!(calculate_percentage_change(100, 101), 1_000_000);
    assert_eq!(calculate_percentage_change(200, 300), 50_000_000);
    assert_eq!(calculate_percentage_change(100, 50), -50_000_000);
    assert_eq!(calculate_percentage_change(7, 7), 0);
}

#[test]
fn well_formed_addresses_parse_and_malformed_ones_do_not() {
    assert!(parse_pubkey("TokenkegQfeZyiNwAJbNbGKPFXCWuBvf9Ss623VQ5DA").is_ok());
    assert!(parse_pubkey("EPjFWdd5AufqSSqeM2qN1xzybapC8G4wEGGkZwyTDt1v").is_ok());
    assert!(parse_pubkey("InvalidTokenAddress").is_err());
    assert!(parse_pubkey("").is_err());
}

fn message(title: &str, content: &str) -> NotificationMessage {
    NotificationMessage {
        title: title.to_string(),
        content: content.to_string(),
        priority: NotificationPriority::High,
        category: NotificationCategory::TradingSignal,
        timestamp: 1_700_000_000,
    }
}

#[test]
fn short_posts_carry_tags_untruncated() {
    let m = message("Breakout", "Volume doubled");
    assert_eq!(
        compose_post(&m),
        "Breakout\n\nVolume doubled\n\n#TradingSignal #High"
    );
}

#[test]
fn long_posts_are_capped_with_an_ellipsis() {
    let long_content = "x".repeat(400);
    let m = message("Alert", &long_content);
    let post = compose_post(&m);
    assert_eq!(post.chars().count(), 280);
    assert!(post.ends_with("..."));
}

#[test]
fn detail_messages_carry_every_field() {
    let m = message("Breakout", "Volume doubled");
    assert_eq!(
        compose_detail(&m),
        "*Breakout*\n\nVolume doubled\n\nPriority: High\nCategory: TradingSignal\nTime: 1700000000"
    );
}
