use ping_server::config::{parse_port, parse_port_bytes, Config, ConfigError, DEFAULT_PORT};

#[test]
fn default_port_is_3000() {
    assert_eq!(DEFAULT_PORT, 3000);
}

#[test]
fn unset_variable_gives_the_default_port() {
    assert_eq!(Config::from_port_variable(None), Ok(Config { port: 3000 }));
}

#[test]
fn variable_8080_gives_port_8080() {
    let config = Config::from_port_variable(Some("8080")).unwrap();
    assert_eq!(config.port, 8080);
    assert_ne!(config.port, DEFAULT_PORT);
}

#[test]
fn variable_that_is_no_number_is_an_error() {
    assert_eq!(Config::from_port_variable(Some("notanumber")), Err(ConfigError::InvalidPort));
}

#[test]
fn empty_variable_is_an_error_and_not_the_default() {
    assert_eq!(Config::from_port_variable(Some("")), Err(ConfigError::InvalidPort));
}

#[test]
fn port_range_is_0_to_65535() {
    assert_eq!(parse_port("0"), Some(0));
    assert_eq!(parse_port("65535"), Some(65535));
    assert_eq!(parse_port("65536"), None);
    assert_eq!(parse_port("70000"), None);
    assert_eq!(parse_port("99999999999999999999999999"), None);
}

#[test]
fn leading_zeros_and_one_plus_sign_are_taken() {
    assert_eq!(parse_port("0080"), Some(80));
    assert_eq!(parse_port("+80"), Some(80));
    assert_eq!(parse_port("+0"), Some(0));
    assert_eq!(parse_port("000000000000000000000000000000065535"), Some(65535));
}

#[test]
fn signs_alone_spaces_and_other_characters_are_refused() {
    assert_eq!(parse_port("+"), None);
    assert_eq!(parse_port("-"), None);
    assert_eq!(parse_port("-1"), None);
    assert_eq!(parse_port("-0"), None);
    assert_eq!(parse_port("++1"), None);
    assert_eq!(parse_port(" 80"), None);
    assert_eq!(parse_port("80 "), None);
    assert_eq!(parse_port("8_0"), None);
    assert_eq!(parse_port("80a"), None);
    assert_eq!(parse_port("0x50"), None);
    assert_eq!(parse_port("8.0"), None);
    assert_eq!(parse_port("\u{0663}"), None);
    assert_eq!(parse_port("65536x"), None);
}

#[test]
fn parse_port_agrees_with_the_standard_parser() {
    let samples = [
        "", "0", "1", "9", "10", "80", "443", "3000", "8080", "65534", "65535", "65536", "65540",
        "99999", "655350", "+", "+1", "+65535", "+65536", "-", "-5", "+-5", "1+", "1 ", " 1",
        "00", "007", "0000065535", "0000065536", "12a", "a12", "1_000", "١٢", "８０", "\n80",
        "4294967296", "18446744073709551616",
    ];
    for text in samples {
        assert_eq!(parse_port(text), text.parse::<u16>().ok(), "on {:?}", text);
    }
    for port in 0..=u16::MAX {
        let text = format!("{}", port);
        assert_eq!(parse_port(&text), Some(port));
    }
}

#[test]
fn parse_port_bytes_reads_bytes_that_are_no_text() {
    assert_eq!(parse_port_bytes(b"8080"), Some(8080));
    assert_eq!(parse_port_bytes(&[0xff, b'1']), None);
    assert_eq!(parse_port_bytes(&[b'1', 0x00]), None);
    assert_eq!(parse_port_bytes(&[]), None);
}

#[test]
fn bind_address_names_every_interface_and_the_port() {
    assert_eq!(Config { port: 3000 }.bind_address(), "0.0.0.0:3000");
    assert_eq!(Config { port: 8080 }.bind_address(), "0.0.0.0:8080");
    assert_eq!(Config { port: 0 }.bind_address(), "0.0.0.0:0");
    assert_eq!(Config { port: 65535 }.bind_address(), "0.0.0.0:65535");
}

#[test]
fn invalid_port_has_a_message_for_the_operator() {
    assert_eq!(ConfigError::InvalidPort.message(), "PORT must be a valid number");
}

#[test]
fn variable_that_is_set_but_is_no_text_is_an_error_and_not_the_default() {
    assert_eq!(Config::from_port_bytes(Some(&[0xff])), Err(ConfigError::InvalidPort));
    assert_eq!(Config::from_port_bytes(Some(&[b'8', b'0', 0xfe])), Err(ConfigError::InvalidPort));
    assert_eq!(Config::from_port_bytes(Some(&[0xc3, 0x28])), Err(ConfigError::InvalidPort));
    assert_eq!(Config::from_port_bytes(Some(&[])), Err(ConfigError::InvalidPort));
}

#[test]
fn variable_as_bytes_is_read_as_the_text_is() {
    assert_eq!(Config::from_port_bytes(None), Ok(Config { port: 3000 }));
    assert_eq!(Config::from_port_bytes(Some(b"8080")), Ok(Config { port: 8080 }));
    assert_eq!(Config::from_port_bytes(Some(b"notanumber")), Err(ConfigError::InvalidPort));
    for text in ["", "0", "+1", "65535", "65536", "-1", " 1", "3000"] {
        assert_eq!(
            Config::from_port_bytes(Some(text.as_bytes())),
            Config::from_port_variable(Some(text))
        );
    }
}
