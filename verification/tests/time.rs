use pastemyst::request::{Method, Reply};
use pastemyst::time::{expires_in, expires_into_unix_step, is_valid_expiry, ExpiryStep};

const TAGS: [&str; 9] = ["never", "1h", "2h", "10h", "1d", "2d", "1w", "1m", "1y"];

#[test]
fn the_nine_tags_are_valid() {
    for tag in TAGS {
        assert!(is_valid_expiry(tag), "{}", format!("{tag} should be valid"));
    }
}

#[test]
fn the_constants_are_the_nine_tags() {
    let constants = [
        expires_in::NEVER,
        expires_in::ONE_HOUR,
        expires_in::TWO_HOURS,
        expires_in::TEN_HOURS,
        expires_in::ONE_DAY,
        expires_in::TWO_DAYS,
        expires_in::ONE_WEEK,
        expires_in::ONE_MONTH,
        expires_in::ONE_YEAR,
    ];
    assert_eq!(constants, TAGS);
}

#[test]
fn other_text_is_not_a_valid_tag() {
    for tag in ["", "3h", "1H", "Never", "never ", " 1d", "10 h", "1", "h", "1hh", "1y1y", "2w"] {
        assert!(!is_valid_expiry(tag), "{}", format!("{tag:?} should be invalid"));
    }
}

#[test]
fn a_valid_tag_sends_one_request() {
    for tag in TAGS {
        match expires_into_unix_step(42, tag) {
            ExpiryStep::Fetch(request) => {
                assert_eq!(request.method, Method::Get);
                assert_eq!(
                    request.url,
                    format!(
                        "https://paste.myst.rs/api/v2/time/expiresInToUnixTime?createdAt=42&expiresIn={tag}"
                    )
                );
                assert!(request.authorization.is_none());
                assert!(request.body.is_none());
                assert_eq!(request.reply, Reply::Record);
                assert!(request.headers().is_empty());
            }
            ExpiryStep::Invalid { .. } => panic!("{tag} was refused"),
        }
    }
}

#[test]
fn ten_hours_is_converted_by_the_service() {
    match expires_into_unix_step(1_588_441_258, expires_in::TEN_HOURS) {
        ExpiryStep::Fetch(request) => assert_eq!(
            request.url,
            "https://paste.myst.rs/api/v2/time/expiresInToUnixTime?createdAt=1588441258&expiresIn=10h"
        ),
        ExpiryStep::Invalid { .. } => panic!("10h was refused"),
    }
}

#[test]
fn an_invalid_tag_sends_nothing_and_answers_zero() {
    for tag in ["", "3h", "forever", "1D"] {
        match expires_into_unix_step(42, tag) {
            ExpiryStep::Fetch(_) => panic!("a request was made"),
            ExpiryStep::Invalid { result, notice } => {
                assert_eq!(result, 0);
                assert_eq!(
                    notice,
                    "[pastemyst] The given expires timestamp is not valid and 0 will be returned."
                );
            }
        }
    }
}
