use auth_emulator::config::{
    parse_ttl, parse_u64, parse_usize, read_config, variable_names, Environment,
};

fn env(variables: &[(&str, &str)]) -> Environment {
    Environment {
        variables: variables
            .iter()
            .map(|(name, value)| (name.to_string(), value.to_string()))
            .collect(),
    }
}

fn text(value: &str) -> Option<String> {
    Some(value.to_owned())
}

#[test]
fn defaults_apply_where_nothing_is_set() {
    let config = read_config(&env(&[]));
    assert_eq!(config.bind_addr, "127.0.0.1:8080");
    assert_eq!(config.signing_secret, "local-dev-signing-secret-change-me");
    assert_eq!(config.issuer, "auth-emulator");
    assert_eq!(config.audience, "sample-client");
    assert_eq!(config.id_token_ttl_seconds, 300);
    assert_eq!(config.refresh_token_ttl_seconds, 3600);
    assert_eq!(config.refresh_cleanup_interval_seconds, 60);
    assert_eq!(config.refresh_store_max_size, 100_000);
    assert_eq!(config.vm_push_url, None);
    assert_eq!(config.vm_push_interval_seconds, 15);
}

#[test]
fn every_variable_is_read() {
    let config = read_config(&env(&[
        ("TOKEN_ISSUER", "iss"),
        ("TOKEN_AUDIENCE", ""),
        ("BIND_ADDR", "0.0.0.0:9"),
        ("TOKEN_SIGNING_SECRET", "s"),
        ("ID_TOKEN_TTL_SECONDS", "30"),
        ("REFRESH_TOKEN_TTL_SECONDS", "600"),
        ("REFRESH_CLEANUP_INTERVAL_SECONDS", "7"),
        ("REFRESH_STORE_MAX_SIZE", "2"),
        ("VM_PUSH_URL", "\t http://localhost:8428/push \n"),
        ("VM_PUSH_INTERVAL_SECONDS", "1"),
    ]));
    assert_eq!(config.issuer, "iss");
    assert_eq!(config.audience, "");
    assert_eq!(config.bind_addr, "0.0.0.0:9");
    assert_eq!(config.signing_secret, "s");
    assert_eq!(config.id_token_ttl_seconds, 30);
    assert_eq!(config.refresh_token_ttl_seconds, 600);
    assert_eq!(config.refresh_cleanup_interval_seconds, 7);
    assert_eq!(config.refresh_store_max_size, 2);
    assert_eq!(config.vm_push_url, text("http://localhost:8428/push"));
    assert_eq!(config.vm_push_interval_seconds, 1);
}

#[test]
fn first_of_two_variables_with_one_name_counts() {
    let e = env(&[("A", "1"), ("B", "2"), ("A", "3")]);
    assert_eq!(e.var("A"), text("1"));
    assert_eq!(e.var("B"), text("2"));
    assert_eq!(e.var("C"), None);
}

#[test]
fn names_of_variables_are_those_that_are_read() {
    assert_eq!(
        variable_names(),
        vec![
            "TOKEN_ISSUER",
            "TOKEN_AUDIENCE",
            "BIND_ADDR",
            "TOKEN_SIGNING_SECRET",
            "ID_TOKEN_TTL_SECONDS",
            "REFRESH_TOKEN_TTL_SECONDS",
            "REFRESH_CLEANUP_INTERVAL_SECONDS",
            "REFRESH_STORE_MAX_SIZE",
            "VM_PUSH_URL",
            "VM_PUSH_INTERVAL_SECONDS",
        ]
    );
}

#[test]
fn lifetimes_are_positive_numbers_or_the_default() {
    assert_eq!(parse_ttl(text("1"), 300), 1);
    assert_eq!(parse_ttl(text("+42"), 300), 42);
    assert_eq!(parse_ttl(text("007"), 300), 7);
    assert_eq!(parse_ttl(text("9223372036854775807"), 300), i64::MAX);
    for value in [
        "0", "-0", "-1", "+", "-", "", " 1", "1 ", "1_000", "1.0", "0x10", "++1", "+-1",
        "9223372036854775808", "-9223372036854775808", "-9223372036854775809", "ten", "\u{661}",
    ] {
        assert_eq!(parse_ttl(text(value), 300), 300, "{value:?}");
    }
    assert_eq!(parse_ttl(None, 300), 300);
    assert_eq!(parse_ttl(None, -5), -5);
}

#[test]
fn unsigned_settings_are_positive_numbers_or_the_default() {
    assert_eq!(parse_u64(text("18446744073709551615"), 60), u64::MAX);
    assert_eq!(parse_u64(text("+5"), 60), 5);
    for value in ["0", "-0", "-1", "18446744073709551616", "", "+", "x"] {
        assert_eq!(parse_u64(text(value), 60), 60, "{value:?}");
    }
    assert_eq!(parse_u64(None, 60), 60);
    assert_eq!(parse_usize(text("3"), 9), 3);
    assert_eq!(parse_usize(text(&usize::MAX.to_string()), 9), usize::MAX);
    for value in ["0", "-3", "340282366920938463463374607431768211456", "", "3 "] {
        assert_eq!(parse_usize(text(value), 9), 9, "{value:?}");
    }
    assert_eq!(parse_usize(None, 9), 9);
}

#[test]
fn blank_push_address_is_none() {
    for value in ["", " ", "\t\r\n", "\u{a0}\u{3000}"] {
        assert_eq!(read_config(&env(&[("VM_PUSH_URL", value)])).vm_push_url, None);
    }
}

#[test]
fn white_space_is_what_unicode_says() {
    for c in '\0'..=char::MAX {
        let url = read_config(&env(&[("VM_PUSH_URL", &c.to_string())])).vm_push_url;
        let is_white_space = matches!(
            c,
            '\u{9}'..='\u{d}'
                | ' '
                | '\u{85}'
                | '\u{a0}'
                | '\u{1680}'
                | '\u{2000}'..='\u{200a}'
                | '\u{2028}'
                | '\u{2029}'
                | '\u{202f}'
                | '\u{205f}'
                | '\u{3000}'
        );
        assert_eq!(url.is_none(), is_white_space, "{c:?}");
    }
}
