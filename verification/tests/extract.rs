use pokedex_rncp_backend::extract::{
    access_token_of, bearer_value, cookie_value, get_bearer, get_cookie, refresh_token_of,
    RequestHeaders,
};

fn headers(authorization: Option<&str>, cookie: Option<&str>) -> RequestHeaders {
    RequestHeaders {
        authorization: authorization.map(|s| s.to_string()),
        cookie: cookie.map(|s| s.to_string()),
    }
}

fn some(s: &str) -> Option<String> {
    Some(s.to_string())
}

#[test]
fn bearer_is_what_follows_the_prefix() {
    assert_eq!(bearer_value("Bearer abc.def.ghi"), some("abc.def.ghi"));
    assert_eq!(bearer_value("Bearer "), some(""));
    assert_eq!(bearer_value("Bearer  two"), some(" two"));
    assert_eq!(bearer_value("bearer abc"), None);
    assert_eq!(bearer_value("Bearer"), None);
    assert_eq!(bearer_value(" Bearer abc"), None);
    assert_eq!(bearer_value("Basic abc"), None);
    assert_eq!(bearer_value(""), None);
}

#[test]
fn cookie_is_found_among_the_parts() {
    assert_eq!(cookie_value("auth=abc", "auth"), some("abc"));
    assert_eq!(cookie_value("a=1; auth=abc; b=2", "auth"), some("abc"));
    assert_eq!(cookie_value("a=1;auth=abc;b=2", "auth"), some("abc"));
    assert_eq!(cookie_value("  auth=abc  ; b=2", "auth"), some("abc"));
    assert_eq!(cookie_value("a=1; b=2", "auth"), None);
    assert_eq!(cookie_value("", "auth"), None);
    assert_eq!(cookie_value(";;;", "auth"), None);
    assert_eq!(cookie_value("auth", "auth"), None);
}

#[test]
fn cookie_first_match_wins() {
    assert_eq!(cookie_value("auth=one; auth=two", "auth"), some("one"));
    assert_eq!(cookie_value("xauth=zero; auth=one", "auth"), some("one"));
    assert_eq!(cookie_value("refresh=r; auth=a", "refresh"), some("r"));
}

#[test]
fn cookie_value_keeps_what_follows_the_equals_sign() {
    assert_eq!(cookie_value("auth=", "auth"), some(""));
    assert_eq!(cookie_value("auth=a=b", "auth"), some("a=b"));
    assert_eq!(cookie_value("auth= spaced", "auth"), some(" spaced"));
    assert_eq!(cookie_value("auth =x", "auth"), None);
    assert_eq!(cookie_value("AUTH=x", "auth"), None);
}

#[test]
fn cookie_value_agrees_with_split_trim_strip() {
    let samples = [
        "auth=abc",
        "a=1; auth=abc; b=2",
        " ;auth=x; ",
        "auth=x;",
        ";auth=x",
        "au;th=x",
        "\tauth=t\t;refresh=r",
        "refresh=r; auth=a; refresh=again",
        "=; auth==",
    ];
    for header in samples {
        for name in ["auth", "refresh", "a", ""] {
            let wanted = format!("{}=", name);
            let expected = header
                .split(';')
                .find_map(|part| part.trim().strip_prefix(wanted.as_str()))
                .map(|v| v.to_string());
            assert_eq!(cookie_value(header, name), expected, "{:?} {:?}", header, name);
        }
    }
}

#[test]
fn headers_without_values_hold_no_token() {
    let none = headers(None, None);
    assert_eq!(get_bearer(&none), None);
    assert_eq!(get_cookie(&none, "auth"), None);
    assert_eq!(access_token_of(&none), None);
    assert_eq!(refresh_token_of(&none), None);
}

#[test]
fn access_token_prefers_the_cookie() {
    let both = headers(Some("Bearer from-bearer"), Some("auth=from-cookie"));
    assert_eq!(access_token_of(&both), some("from-cookie"));
    let bearer_only = headers(Some("Bearer from-bearer"), Some("other=1"));
    assert_eq!(access_token_of(&bearer_only), some("from-bearer"));
    let cookie_only = headers(None, Some("auth=from-cookie"));
    assert_eq!(access_token_of(&cookie_only), some("from-cookie"));
    let refresh_cookie = headers(None, Some("refresh=r"));
    assert_eq!(access_token_of(&refresh_cookie), None);
}

#[test]
fn refresh_token_prefers_the_bearer() {
    let both = headers(Some("Bearer from-bearer"), Some("refresh=from-cookie"));
    assert_eq!(refresh_token_of(&both), some("from-bearer"));
    let cookie_only = headers(Some("Basic x"), Some("refresh=from-cookie"));
    assert_eq!(refresh_token_of(&cookie_only), some("from-cookie"));
    let auth_cookie = headers(None, Some("auth=a"));
    assert_eq!(refresh_token_of(&auth_cookie), None);
}
