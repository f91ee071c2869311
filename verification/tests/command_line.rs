use fsociety::cli::{
    format_room_code, generate_room_code, is_valid_room_code, normalize_username, parse_args,
    parse_chat_command, rejected_code_warning, relay_endpoint, relay_host, relay_scheme, relay_url,
    saved_username, ChatCommand, CliCommand, RoomChoice, DEFAULT_RELAY, LOCAL_PORT,
};

fn args(a: &[&str]) -> Vec<String> {
    a.iter().map(|s| s.to_string()).collect()
}

#[test]
fn stage_modes() {
    assert!(matches!(parse_args(&args(&["fs", "stage", "--local"])), CliCommand::StageLocal));
    assert!(matches!(
        parse_args(&args(&["fs", "stage"])),
        CliCommand::StageRelay(RoomChoice::Random)
    ));
    assert!(matches!(
        parse_args(&args(&["fs", "stage", "133707"])),
        CliCommand::StageRelay(RoomChoice::Custom(c)) if c == "133707"
    ));
    assert!(matches!(
        parse_args(&args(&["fs", "stage", "12ab56"])),
        CliCommand::StageRelay(RoomChoice::Rejected(c)) if c == "12ab56"
    ));
    assert!(matches!(
        parse_args(&args(&["fs", "stage", "12345"])),
        CliCommand::StageRelay(RoomChoice::Rejected(_))
    ));
}

#[test]
fn connect_modes() {
    assert!(matches!(
        parse_args(&args(&["fs", "connect", "654321"])),
        CliCommand::ConnectRelay(r) if r == "654321"
    ));
    assert!(matches!(
        parse_args(&args(&["fs", "connect", "--local", "10.0.0.2:8766"])),
        CliCommand::ConnectLocal(a) if a == "10.0.0.2:8766"
    ));
    assert!(matches!(parse_args(&args(&["fs", "connect"])), CliCommand::MissingTarget));
    assert!(matches!(
        parse_args(&args(&["fs", "connect", "--local"])),
        CliCommand::MissingLocalAddress
    ));
    assert!(matches!(parse_args(&args(&["fs", "listen"])), CliCommand::Unknown));
}

#[test]
fn room_code_validation() {
    assert!(is_valid_room_code("000000"));
    assert!(is_valid_room_code("133707"));
    assert!(!is_valid_room_code("1337070"));
    assert!(!is_valid_room_code("13370a"));
    assert!(!is_valid_room_code(""));
    // Three Arabic-Indic digits take six bytes and are numeric.
    assert!(is_valid_room_code("١٢٣"));
}

#[test]
fn room_code_format() {
    assert_eq!(format_room_code(42), "000042");
    assert_eq!(format_room_code(100000), "100000");
    assert_eq!(format_room_code(0), "000000");
    assert_eq!(format_room_code(1234567), "1234567");
    for _ in 0..20 {
        let code = generate_room_code();
        assert_eq!(code.len(), 6);
        let n: u32 = code.parse().unwrap();
        assert!((100000..999999).contains(&n));
        assert!(is_valid_room_code(&code));
    }
    assert_eq!(
        rejected_code_warning("xy"),
        " [fsociety] Warning: 'xy' is not a valid 6-digit numeric code. Generating random code."
    );
}

#[test]
fn relay_addresses() {
    assert_eq!(relay_host(None), DEFAULT_RELAY);
    assert_eq!(relay_host(Some("r.example".to_string())), "r.example");
    assert_eq!(relay_scheme("localhost"), "ws");
    assert_eq!(relay_scheme("my.host:10000"), "ws");
    assert_eq!(relay_scheme("http127.0.0.1x"), "ws");
    assert_eq!(relay_scheme("fsociety-qzjr.onrender.com"), "wss");
    assert_eq!(
        relay_url(DEFAULT_RELAY, "123456"),
        "wss://fsociety-qzjr.onrender.com/ws/123456"
    );
    assert_eq!(relay_url("localhost:10000", "000001"), "ws://localhost:10000/ws/000001");
    assert_eq!(LOCAL_PORT, 8766);
}

#[test]
fn user_names() {
    assert_eq!(normalize_username("  neo \n"), "neo");
    assert_eq!(normalize_username(" \t\n"), "Anonymous");
    assert_eq!(normalize_username(""), "Anonymous");
    assert_eq!(saved_username("trinity\n"), Some("trinity".to_string()));
    assert_eq!(saved_username("   "), None);
    assert_eq!(normalize_username("\u{3000}morpheus\u{00A0}"), "morpheus");
}

#[test]
fn chat_commands() {
    assert!(matches!(
        parse_chat_command("/send  C:\\Documents\\archive.zip  "),
        ChatCommand::SendFile(p) if p == "C:\\Documents\\archive.zip"
    ));
    assert!(matches!(parse_chat_command("/exit"), ChatCommand::Exit));
    assert!(matches!(parse_chat_command("/exit "), ChatCommand::Message(m) if m == "/exit "));
    assert!(matches!(parse_chat_command("/send"), ChatCommand::Message(m) if m == "/send"));
    assert!(matches!(parse_chat_command("hello"), ChatCommand::Message(m) if m == "hello"));
    assert!(matches!(parse_chat_command("/send "), ChatCommand::SendFile(p) if p.is_empty()));
}

#[test]
fn relay_endpoint_parses_room_addresses() {
    let remote = relay_endpoint(DEFAULT_RELAY, "123456").unwrap();
    assert_eq!(remote.as_str(), "wss://fsociety-qzjr.onrender.com/ws/123456");
    assert_eq!(remote.scheme(), "wss");
    let local = relay_endpoint("localhost:10000", "000001").unwrap();
    assert_eq!(local.as_str(), "ws://localhost:10000/ws/000001");
    assert_eq!(local.port(), Some(10000));
}

#[test]
fn relay_endpoint_refuses_bad_hosts() {
    assert_eq!(relay_endpoint("[::1", "123456").unwrap_err(), url::ParseError::InvalidIpv6Address);
    assert!(relay_endpoint("exa mple.com", "123456").is_err());
}
