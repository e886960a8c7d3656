use uptime_monitor::config::{CookieConf, ServiceConf};
use uptime_monitor::error::CustomError;
use uptime_monitor::parse::{find_char, parse_pair_line, parse_service_conf, str_eq};

#[test]
fn test_parse_toml() {
    // Success case (with cookie)
    {
        let text = "access_url = \"https://test.demo.com/\"\nfind_selector = \"test_selector\"\n\n[cookie]\nname = \"cookie_name\"\nvalue = \"cookie_value\"\n";
        let conf = parse_service_conf(text).unwrap();
        assert_eq!(conf.access_url, "https://test.demo.com/");
        assert_eq!(conf.find_selector, "test_selector");
        if let Some(cookie) = &conf.cookie {
            assert_eq!(cookie.name, "cookie_name");
            assert_eq!(cookie.value, "cookie_value");
        }
    }

    // Success case (without cookie)
    {
        let text = "access_url = \"https://test.demo.com/\"\nfind_selector = \"test_selector\"\n";
        let conf = parse_service_conf(text).unwrap();
        assert_eq!(conf.access_url, "https://test.demo.com/");
        assert_eq!(conf.find_selector, "test_selector");
        assert_eq!(conf.cookie, None);
    }
}

#[test]
fn parse_round_trips_cookie_section() {
    let text = "access_url = \"https://svc.example/\"\nfind_selector = \"#app\"\n[cookie]\nname = \"sess\"\nvalue = \"abc\"";
    let conf = parse_service_conf(text).unwrap();
    assert_eq!(
        conf.cookie,
        Some(CookieConf { name: String::from("sess"), value: String::from("abc") })
    );
    let no_cookie = "access_url = \"https://svc.example/\"\nfind_selector = \"#app\"";
    let conf = parse_service_conf(no_cookie).unwrap();
    assert_eq!(conf.cookie, None);
}

#[test]
fn parse_defaults_missing_required_keys_to_empty() {
    let conf = parse_service_conf("").unwrap();
    assert_eq!(conf.access_url, "");
    assert_eq!(conf.find_selector, "");
    assert_eq!(conf.cookie, None);

    let conf = parse_service_conf("find_selector = \"#x\"").unwrap();
    assert_eq!(conf.access_url, "");
    assert_eq!(conf.find_selector, "#x");
}

#[test]
fn parse_rejects_malformed_lines() {
    assert_eq!(parse_service_conf("access_url \"https://x/\""), None);
    assert_eq!(parse_service_conf("access_url = https://x/"), None);
    assert_eq!(parse_service_conf("access_url = \"unterminated"), None);
    assert_eq!(parse_service_conf("= \"v\""), None);
}

#[test]
fn parse_rejects_incomplete_cookie_section() {
    let missing_value = "access_url = \"https://x/\"\nfind_selector = \"#a\"\n[cookie]\nname = \"sess\"";
    assert_eq!(parse_service_conf(missing_value), None);
    let missing_name = "access_url = \"https://x/\"\nfind_selector = \"#a\"\n[cookie]\nvalue = \"abc\"";
    assert_eq!(parse_service_conf(missing_name), None);
}

#[test]
fn parse_skips_unknown_keys_and_blank_lines() {
    let text = "\naccess_url = \"https://x/\"\nextra = \"ignored\"\n\nfind_selector = \"#a\"\n";
    let conf = parse_service_conf(text).unwrap();
    assert_eq!(conf.access_url, "https://x/");
    assert_eq!(conf.find_selector, "#a");
    assert_eq!(conf.cookie, None);
}

#[test]
fn parse_lets_a_later_key_overwrite_an_earlier_one() {
    let text = "access_url = \"https://first/\"\naccess_url = \"https://second/\"\nfind_selector = \"#a\"";
    let conf = parse_service_conf(text).unwrap();
    assert_eq!(conf.access_url, "https://second/");
}

#[test]
fn validate_rejects_empty_required_fields() {
    let conf = ServiceConf {
        access_url: String::new(),
        find_selector: String::from("#a"),
        cookie: None,
    };
    assert_eq!(conf.validate(), Err(CustomError::AccessUrlNotDefined));

    let conf = ServiceConf {
        access_url: String::from("https://x/"),
        find_selector: String::new(),
        cookie: None,
    };
    assert_eq!(conf.validate(), Err(CustomError::FindSelectorNotDefined));

    let conf = ServiceConf {
        access_url: String::from("https://x/"),
        find_selector: String::from("#a"),
        cookie: None,
    };
    assert_eq!(conf.validate(), Ok(()));
}

#[test]
fn str_eq_compares_characters() {
    assert!(str_eq("", ""));
    assert!(str_eq("abc", "abc"));
    assert!(!str_eq("abc", "abd"));
    assert!(!str_eq("abc", "ab"));
}

#[test]
fn find_char_returns_first_occurrence_or_end() {
    assert_eq!(find_char("a=b=c", 0, 5, '='), 1);
    assert_eq!(find_char("a=b=c", 2, 5, '='), 3);
    assert_eq!(find_char("abc", 0, 3, '='), 3);
    assert_eq!(find_char("abc", 1, 2, 'c'), 2);
}

#[test]
fn parse_pair_line_splits_key_and_quoted_value() {
    assert_eq!(
        parse_pair_line("access_url = \"https://x/\""),
        Some((String::from("access_url"), String::from("https://x/")))
    );
    assert_eq!(parse_pair_line("k = \"\""), Some((String::from("k"), String::from(""))));
    assert_eq!(parse_pair_line("k = \"a\"b\""), None);
    assert_eq!(parse_pair_line("k =\"v\""), None);
    assert_eq!(parse_pair_line("k"), None);
}
