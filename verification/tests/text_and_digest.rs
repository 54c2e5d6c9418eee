use rtp_bff::clock::{
    read_clock, reading_at, unix_time_at, unix_time_seconds, whole_seconds, ClockReading,
    LAST_CALENDAR_SECOND,
};
use rtp_bff::digest::hex;
use rtp_bff::keyed::KeyedTable;
use rtp_bff::oidc::transaction::{hash_browser_binding, preauth_cookie_name};
use rtp_bff::status::{health, StatusCode};
use rtp_bff::text::{is_blank, joined, parse_u64, same_text, split};

#[test]
fn statuses_have_their_registered_numbers() {
    assert_eq!(health(), StatusCode::NoContent);
    assert_eq!(StatusCode::NoContent.as_u16(), 204);
    assert_eq!(StatusCode::BadRequest.as_u16(), 400);
    assert_eq!(StatusCode::Unauthorized.as_u16(), 401);
    assert_eq!(StatusCode::TooManyRequests.as_u16(), 429);
    assert_eq!(StatusCode::InternalServerError.as_u16(), 500);
    assert_eq!(StatusCode::BadGateway.as_u16(), 502);
    assert_eq!(StatusCode::ServiceUnavailable.as_u16(), 503);
}

#[test]
fn texts_are_compared_and_joined() {
    assert!(same_text("grün", "grün"));
    assert!(!same_text("grün", "gruen"));
    assert_eq!(joined("a", "ß"), "aß");
}

#[test]
fn blank_texts_hold_white_space_only() {
    assert!(is_blank(""));
    assert!(is_blank(" \t\r\n\u{85}\u{a0}\u{1680}\u{2003}\u{2028}\u{3000}"));
    assert!(!is_blank(" \u{200b} "));
    assert!(!is_blank(" x "));
}

#[test]
fn split_text_joins_to_the_text_again() {
    for text in ["", ",", "a", "a,b", ",a,,b,", "grün,ß"] {
        let pieces = split(text, ',');
        assert_eq!(pieces, text.split(',').collect::<Vec<_>>());
        assert_eq!(pieces.join(","), text);
    }
}

#[test]
fn numbers_are_read_as_std_reads_them() {
    for text in [
        "",
        "+",
        "-1",
        "0",
        "+7",
        "++7",
        "007",
        "3600",
        " 3600",
        "3_600",
        "18446744073709551615",
        "18446744073709551616",
        "99999999999999999999999",
        "000000000000000000000000000001",
        "1x",
        "x1",
        "٣",
    ] {
        assert_eq!(parse_u64(text), text.parse::<u64>().ok(), "{text}");
    }
}

#[test]
fn bytes_are_written_in_lower_case_hexadecimal() {
    assert_eq!(hex(&[]), "");
    assert_eq!(hex(&[0x00, 0x0f, 0xa0, 0xff]), "000fa0ff");
}

#[test]
fn binding_secrets_are_kept_as_sha256_digests() {
    assert_eq!(
        hex(&hash_browser_binding("abc")),
        "ba7816bf8f01cfea414140de5dae2223b00361a396177a9cb410ff61f20015ad"
    );
}

#[test]
fn preauth_cookie_is_named_after_the_digest_of_the_state() {
    assert_eq!(
        preauth_cookie_name(""),
        "rtp-preauth-e3b0c44298fc1c149afbf4c8996fb92427ae41e4649b934ca495991b7852b855"
    );
    assert_ne!(preauth_cookie_name("one"), preauth_cookie_name("other"));
}

#[test]
fn table_keeps_the_last_value_of_each_key() {
    let mut table: KeyedTable<u32> = KeyedTable::new();
    table.insert("one", 1);
    table.insert("two", 2);
    table.insert("one", 11);

    assert_eq!(table.len(), 2);
    assert_eq!(table.get("one"), Some(&11));
    assert!(table.contains_key("two"));
    assert_eq!(table.remove("one"), Some(11));
    assert_eq!(table.remove("one"), None);
    assert_eq!(table.get("one"), None);
    assert_eq!(table.get("two"), Some(&2));
    assert_eq!(table.len(), 1);
}

#[test]
fn clock_distances_are_rounded_down() {
    assert_eq!(whole_seconds(Ok((5, 999_999_999))), 5);
    assert_eq!(whole_seconds(Err((5, 0))), -5);
    assert_eq!(whole_seconds(Err((5, 1))), -6);
    assert_eq!(unix_time_at(-1), None);
    assert_eq!(unix_time_at(0), Some(0));
    assert_eq!(unix_time_at(1_800_000_000), Some(1_800_000_000));
    assert_eq!(unix_time_at(i128::from(u64::MAX) + 1), None);
}

#[test]
fn calendar_ends() {
    let last = ClockReading {
        seconds: LAST_CALENDAR_SECOND,
        nanos: 999_999_999,
    };
    assert_eq!(
        reading_at(Ok((LAST_CALENDAR_SECOND, 999_999_999))),
        Some(last)
    );
    assert_eq!(reading_at(Ok((LAST_CALENDAR_SECOND + 1, 0))), None);
    assert_eq!(reading_at(Err((1, 0))), None);
}

#[test]
fn system_clock_is_read() {
    let before = std::time::SystemTime::now()
        .duration_since(std::time::UNIX_EPOCH)
        .expect("the clock stands after the epoch")
        .as_secs();
    let read = unix_time_seconds().expect("the clock stands after the epoch");
    let reading = read_clock().expect("the clock stands within the calendar");

    assert!(before <= read && read <= before + 20);
    assert!(before <= reading.seconds && reading.seconds <= before + 20);
}
