use springql_core::error::{OptionError, SpringError};
use springql_core::option::{
    parse_u16, InMemoryQueueOptions, IpAddress, NetProtocol, NetServerOptions, Options,
};

fn options(pairs: &[(&str, &str)]) -> Options {
    let mut o = Options::new();
    for (k, v) in pairs {
        o.add(k.to_string(), v.to_string());
    }
    o
}

#[test]
fn later_value_of_a_key_wins() {
    let o = options(&[("NAME", "a"), ("OTHER", "x"), ("NAME", "b")]);
    assert_eq!(o.get("NAME"), Ok(&"b".to_string()));
    assert_eq!(o.get("OTHER"), Ok(&"x".to_string()));
}

#[test]
fn missing_key_is_an_invalid_option() {
    let o = options(&[("A", "1")]);
    assert_eq!(
        o.get("B"),
        Err(SpringError::InvalidOption {
            key: "B".to_string(),
            value: String::new(),
            cause: OptionError::NotFound
        })
    );
}

#[test]
fn in_memory_queue_options_read_name() {
    let o = options(&[("NAME", "q")]);
    assert_eq!(
        InMemoryQueueOptions::try_from(&o),
        Ok(InMemoryQueueOptions { queue_name: "q".to_string() })
    );
    assert!(matches!(
        InMemoryQueueOptions::try_from(&Options::new()),
        Err(SpringError::InvalidOption { cause: OptionError::NotFound, .. })
    ));
}

#[test]
fn parse_u16_follows_from_str() {
    assert_eq!(parse_u16(&"80".to_string()), Some(80));
    assert_eq!(parse_u16(&"+80".to_string()), Some(80));
    assert_eq!(parse_u16(&"007".to_string()), Some(7));
    assert_eq!(parse_u16(&"65535".to_string()), Some(65535));
    assert_eq!(parse_u16(&"65536".to_string()), None);
    assert_eq!(parse_u16(&"".to_string()), None);
    assert_eq!(parse_u16(&"+".to_string()), None);
    assert_eq!(parse_u16(&"-1".to_string()), None);
    assert_eq!(parse_u16(&"8a".to_string()), None);
    assert_eq!(parse_u16(&"99999999999".to_string()), None);
    for s in ["0", "1", "54300", "65535", "65536", "+12", "x", " 1"] {
        assert_eq!(parse_u16(&s.to_string()), s.parse::<u16>().ok());
    }
}

#[test]
fn net_server_options_read_all_keys() {
    let o = options(&[("PROTOCOL", "TCP"), ("REMOTE_HOST", "127.0.0.1"), ("REMOTE_PORT", "54300")]);
    assert_eq!(
        NetServerOptions::try_from(&o),
        Ok(NetServerOptions {
            protocol: NetProtocol::Tcp,
            remote_host: IpAddress::V4(0x7f00_0001),
            remote_port: 54300
        })
    );
    let o = options(&[("PROTOCOL", "TCP"), ("REMOTE_HOST", "::1"), ("REMOTE_PORT", "+80")]);
    assert_eq!(
        NetServerOptions::try_from(&o),
        Ok(NetServerOptions { protocol: NetProtocol::Tcp, remote_host: IpAddress::V6(1), remote_port: 80 })
    );
    let o = options(&[("PROTOCOL", "TCP"), ("REMOTE_HOST", "192.168.10.2"), ("REMOTE_PORT", "1")]);
    assert_eq!(NetServerOptions::try_from(&o).map(|n| n.remote_host), Ok(IpAddress::V4(0xc0a8_0a02)));
}

#[test]
fn net_server_options_refuse_a_host_that_is_no_ip_address() {
    for host in ["localhost", "127.0.0.256", "1.2.3", ""] {
        let o = options(&[("PROTOCOL", "TCP"), ("REMOTE_HOST", host), ("REMOTE_PORT", "54300")]);
        assert_eq!(
            NetServerOptions::try_from(&o),
            Err(SpringError::InvalidOption {
                key: "REMOTE_HOST".to_string(),
                value: host.to_string(),
                cause: OptionError::InvalidRemoteHost
            })
        );
    }
}

#[test]
fn net_server_options_with_a_given_host() {
    let o = options(&[("PROTOCOL", "TCP"), ("REMOTE_HOST", "anything"), ("REMOTE_PORT", "7")]);
    assert_eq!(
        NetServerOptions::try_from_with_host(&o, Some(IpAddress::V4(1))),
        Ok(NetServerOptions { protocol: NetProtocol::Tcp, remote_host: IpAddress::V4(1), remote_port: 7 })
    );
    assert_eq!(
        NetServerOptions::try_from_with_host(&o, None),
        Err(SpringError::InvalidOption {
            key: "REMOTE_HOST".to_string(),
            value: "anything".to_string(),
            cause: OptionError::InvalidRemoteHost
        })
    );
    // a missing key is reported before the host is looked at
    let o = options(&[("PROTOCOL", "TCP")]);
    assert_eq!(
        NetServerOptions::try_from_with_host(&o, Some(IpAddress::V4(1))),
        Err(SpringError::InvalidOption {
            key: "REMOTE_HOST".to_string(),
            value: String::new(),
            cause: OptionError::NotFound
        })
    );
}

#[test]
fn net_server_options_report_the_first_bad_key() {
    let o = options(&[("PROTOCOL", "UDP"), ("REMOTE_PORT", "x")]);
    assert_eq!(
        NetServerOptions::try_from(&o),
        Err(SpringError::InvalidOption {
            key: "PROTOCOL".to_string(),
            value: "UDP".to_string(),
            cause: OptionError::UnsupportedProtocol
        })
    );
    let o = options(&[("PROTOCOL", "TCP"), ("REMOTE_PORT", "x")]);
    assert_eq!(
        NetServerOptions::try_from(&o),
        Err(SpringError::InvalidOption {
            key: "REMOTE_HOST".to_string(),
            value: String::new(),
            cause: OptionError::NotFound
        })
    );
    // the host is checked before the port
    let o = options(&[("PROTOCOL", "TCP"), ("REMOTE_HOST", "h"), ("REMOTE_PORT", "70000")]);
    assert_eq!(
        NetServerOptions::try_from(&o),
        Err(SpringError::InvalidOption {
            key: "REMOTE_HOST".to_string(),
            value: "h".to_string(),
            cause: OptionError::InvalidRemoteHost
        })
    );
    let o = options(&[("PROTOCOL", "TCP"), ("REMOTE_HOST", "10.0.0.1"), ("REMOTE_PORT", "70000")]);
    assert_eq!(
        NetServerOptions::try_from(&o),
        Err(SpringError::InvalidOption {
            key: "REMOTE_PORT".to_string(),
            value: "70000".to_string(),
            cause: OptionError::InvalidPort
        })
    );
}
