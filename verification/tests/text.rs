use pokedex_rncp_backend::decimal::{decimal_string, parse_i64};
use pokedex_rncp_backend::response::{
    conflict, created, fmt_user, internal_server_error, not_found, ok, strip_emoji_prefix, to_500,
    unauthorized, Status,
};
use pokedex_rncp_backend::text::{chars_of, is_whitespace, same_text, trim_window};
use pokedex_rncp_backend::token::UserId;

#[test]
fn whitespace_is_what_std_calls_whitespace() {
    for n in 0u32..=0x10FFFF {
        if let Some(c) = char::from_u32(n) {
            assert_eq!(is_whitespace(c), c.is_whitespace(), "U+{:04X}", n);
        }
    }
}

#[test]
fn chars_of_keeps_every_character() {
    assert_eq!(chars_of(""), Vec::<char>::new());
    assert_eq!(chars_of("aé❌"), vec!['a', 'é', '❌']);
}

#[test]
fn same_text_compares_contents() {
    assert!(same_text("true", "true"));
    assert!(!same_text("true", "True"));
    assert!(!same_text("true", "true "));
    assert!(same_text("", ""));
}

#[test]
fn trim_window_trims_like_std() {
    let samples = ["", " ", "a", "  a b \t", "\u{3000}x\u{a0}", "\n\n", "no-space", " é "];
    for s in samples {
        let v = chars_of(s);
        let (a, b) = trim_window(&v, 0, v.len());
        let got: String = v[a..b].iter().collect();
        assert_eq!(got, s.trim(), "{:?}", s);
    }
}

#[test]
fn trim_window_stays_inside_its_window() {
    let v = chars_of("ab  cd  ef");
    assert_eq!(trim_window(&v, 2, 8), (4, 6));
    assert_eq!(trim_window(&v, 2, 4), (4, 4));
    assert_eq!(trim_window(&v, 3, 3), (3, 3));
}

#[test]
fn parse_i64_agrees_with_std() {
    let samples = [
        "0", "7", "900", "2592000", "-1", "+1", "-0", "+0", "007", "", "+", "-", "--1", "+-1",
        " 1", "1 ", "1a", "a", "1.5", "1e3", "٣", "9223372036854775807", "9223372036854775808",
        "-9223372036854775808", "-9223372036854775809", "+9223372036854775807",
        "99999999999999999999999999999999999999999999", "-99999999999999999999999999999999999999",
        "0000000000000000000000000000000000000000000001", "12_000",
    ];
    for s in samples {
        assert_eq!(parse_i64(s), s.parse::<i64>().ok(), "{:?}", s);
    }
}

#[test]
fn parse_i64_gives_exact_values() {
    assert_eq!(parse_i64("900"), Some(900));
    assert_eq!(parse_i64("-42"), Some(-42));
    assert_eq!(parse_i64("+42"), Some(42));
    assert_eq!(parse_i64("9223372036854775807"), Some(i64::MAX));
    assert_eq!(parse_i64("-9223372036854775808"), Some(i64::MIN));
    assert_eq!(parse_i64("9223372036854775808"), None);
    assert_eq!(parse_i64("abc"), None);
}

#[test]
fn decimal_string_agrees_with_std() {
    let samples = [0i64, 1, 9, 10, 11, 99, 100, 900, 2_592_000, -1, -10, -900, i64::MAX, i64::MIN];
    for n in samples {
        assert_eq!(decimal_string(n), n.to_string());
    }
}

#[test]
fn decimal_string_reads_back() {
    for n in [0i64, 5, -5, 1234567890, i64::MAX, i64::MIN, i64::MIN + 1] {
        assert_eq!(parse_i64(&decimal_string(n)), Some(n));
    }
}

#[test]
fn strip_emoji_prefix_drops_the_sign_and_trims() {
    assert_eq!(strip_emoji_prefix("⚠️ User already exists.".to_string()), "User already exists.");
    assert_eq!(strip_emoji_prefix("❌ Hash failed".to_string()), "Hash failed");
    assert_eq!(strip_emoji_prefix("  plain  ".to_string()), "plain");
    assert_eq!(strip_emoji_prefix("⚠️".to_string()), "");
    assert_eq!(strip_emoji_prefix("".to_string()), "");
    assert_eq!(strip_emoji_prefix("x ⚠️ y".to_string()), "x ⚠️ y");
}

#[test]
fn strip_emoji_prefix_drops_one_sign_only() {
    assert_eq!(strip_emoji_prefix("❌❌ twice".to_string()), "❌ twice");
    assert_eq!(strip_emoji_prefix("⚠️❌ both".to_string()), "❌ both");
    assert_eq!(strip_emoji_prefix(" ⚠️ late".to_string()), "⚠️ late");
    assert_eq!(strip_emoji_prefix("\u{26a0} bare".to_string()), "\u{26a0} bare");
}

#[test]
fn fmt_user_names_the_user_or_says_there_is_none() {
    let id = UserId { value: 0xa1a2a3a4b1b2c1c2d1d2d3d4d5d6d7d8 };
    assert_eq!(fmt_user(Some(id)), "| user: a1a2a3a4-b1b2-c1c2-d1d2-d3d4d5d6d7d8");
    assert_eq!(fmt_user(Some(UserId { value: 0 })), "| user: 00000000-0000-0000-0000-000000000000");
    assert_eq!(fmt_user(Some(UserId { value: 0xf })), "| user: 00000000-0000-0000-0000-00000000000f");
    assert_eq!(fmt_user(None), "| user non connecté");
}

#[test]
fn helpers_pair_status_and_message() {
    assert_eq!(ok("User updated."), Ok((Status::Success, "User updated.".to_string())));
    assert_eq!(created("User created."), Ok((Status::Created, "User created.".to_string())));
    assert_eq!(not_found("User not found"), (Status::NotFound, "User not found".to_string()));
    assert_eq!(unauthorized("ACCESS DENIED"), (Status::Unauthorized, "ACCESS DENIED".to_string()));
    assert_eq!(
        conflict("⚠️ User already exists."),
        (Status::Conflict, "User already exists.".to_string())
    );
    assert_eq!(
        internal_server_error("Hash failed"),
        (Status::InternalServerError, "Hash failed".to_string())
    );
    assert_eq!(
        to_500("❌ boom ".to_string()),
        (Status::InternalServerError, "boom".to_string())
    );
}

#[test]
fn statuses_have_their_numbers() {
    assert_eq!(Status::Success.code(), 200);
    assert_eq!(Status::Created.code(), 201);
    assert_eq!(Status::Accepted.code(), 202);
    assert_eq!(Status::BadRequest.code(), 400);
    assert_eq!(Status::Unauthorized.code(), 401);
    assert_eq!(Status::NotFound.code(), 404);
    assert_eq!(Status::Conflict.code(), 409);
    assert_eq!(Status::InternalServerError.code(), 500);
}
