use url_prefix::Protocol;

#[test]
fn lookup_finds_each_built_in_name() {
    assert!(matches!(Protocol::get_default_from_str("http"), Some(Protocol::HTTP)));
    assert!(matches!(Protocol::get_default_from_str("https"), Some(Protocol::HTTPS)));
    assert!(matches!(Protocol::get_default_from_str("ftp"), Some(Protocol::FTP)));
    assert!(matches!(Protocol::get_default_from_str("ws"), Some(Protocol::WS)));
    assert!(matches!(Protocol::get_default_from_str("wss"), Some(Protocol::WSS)));
}

#[test]
fn lookup_ignores_case() {
    assert!(matches!(Protocol::get_default_from_str("HTTPS"), Some(Protocol::HTTPS)));
    assert!(matches!(Protocol::get_default_from_str("https"), Some(Protocol::HTTPS)));
    assert!(matches!(Protocol::get_default_from_str("HtTp"), Some(Protocol::HTTP)));
    assert!(matches!(Protocol::get_default_from_str("Ftp"), Some(Protocol::FTP)));
    assert!(matches!(Protocol::get_default_from_str("wS"), Some(Protocol::WS)));
    assert!(matches!(Protocol::get_default_from_str("WSS"), Some(Protocol::WSS)));
}

#[test]
fn lookup_of_unknown_name_is_none() {
    assert!(Protocol::get_default_from_str("gopher").is_none());
    assert!(Protocol::get_default_from_str("").is_none());
    assert!(Protocol::get_default_from_str("http ").is_none());
    assert!(Protocol::get_default_from_str("httpss").is_none());
    assert!(Protocol::get_default_from_str("htt").is_none());
    assert!(Protocol::get_default_from_str("http://").is_none());
}

#[test]
fn lookup_of_lowercase_name_is_exact() {
    assert!(matches!(Protocol::get_default_from_lowercase("http"), Some(Protocol::HTTP)));
    assert!(matches!(Protocol::get_default_from_lowercase("https"), Some(Protocol::HTTPS)));
    assert!(matches!(Protocol::get_default_from_lowercase("ftp"), Some(Protocol::FTP)));
    assert!(matches!(Protocol::get_default_from_lowercase("ws"), Some(Protocol::WS)));
    assert!(matches!(Protocol::get_default_from_lowercase("wss"), Some(Protocol::WSS)));
    assert!(Protocol::get_default_from_lowercase("HTTP").is_none());
    assert!(Protocol::get_default_from_lowercase("Wss").is_none());
    assert!(Protocol::get_default_from_lowercase("").is_none());
}

#[test]
fn default_ports_of_the_table() {
    assert_eq!(80, Protocol::HTTP.get_default_port());
    assert_eq!(443, Protocol::HTTPS.get_default_port());
    assert_eq!(21, Protocol::FTP.get_default_port());
    assert_eq!(80, Protocol::WS.get_default_port());
    assert_eq!(443, Protocol::WSS.get_default_port());
    assert_eq!(70, Protocol::Custom(String::from("gopher"), 70).get_default_port());
}

#[test]
fn names_of_the_table() {
    assert_eq!("http", Protocol::HTTP.get_name());
    assert_eq!("https", Protocol::HTTPS.get_name());
    assert_eq!("ftp", Protocol::FTP.get_name());
    assert_eq!("ws", Protocol::WS.get_name());
    assert_eq!("wss", Protocol::WSS.get_name());
    assert_eq!("Gopher", Protocol::Custom(String::from("Gopher"), 70).get_name());
}

#[test]
fn built_in_is_found_by_its_own_name() {
    let all = [Protocol::HTTP, Protocol::HTTPS, Protocol::FTP, Protocol::WS, Protocol::WSS];
    for protocol in all.iter() {
        let found = Protocol::get_default_from_str(protocol.get_name()).unwrap();
        assert_eq!(protocol.get_name(), found.get_name());
        assert_eq!(protocol.get_default_port(), found.get_default_port());
    }
}

#[test]
fn clone_keeps_name_and_port() {
    let custom = Protocol::Custom(String::from("gopher"), 70);
    let copy = custom.clone();
    assert_eq!("gopher", copy.get_name());
    assert_eq!(70, copy.get_default_port());
    assert!(matches!(Protocol::WSS.clone(), Protocol::WSS));
}

#[test]
fn port_digits_are_decimal() {
    assert_eq!("0", url_prefix::port_digits(0));
    assert_eq!("9", url_prefix::port_digits(9));
    assert_eq!("10", url_prefix::port_digits(10));
    assert_eq!("443", url_prefix::port_digits(443));
    assert_eq!("8100", url_prefix::port_digits(8100));
    assert_eq!("10000", url_prefix::port_digits(10000));
    assert_eq!("65535", url_prefix::port_digits(65535));
}

#[test]
fn port_digits_agree_with_display() {
    let mut port: u16 = 0;
    loop {
        assert_eq!(format!("{}", port), url_prefix::port_digits(port));
        if port == u16::MAX {
            break;
        }
        port += 1;
    }
}
