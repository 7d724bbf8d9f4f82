use demo_things::cli::CliCommon;

fn cli() -> CliCommon {
    CliCommon {
        listen_port: 3000,
        bind_addr: [0, 0, 0, 0],
        verbose: 0,
        host: None,
        id: None,
        title: None,
    }
}

#[test]
fn verbosity_sets_the_level() {
    for (verbose, level) in [
        (0, "error"),
        (1, "warn"),
        (2, "info"),
        (3, "debug"),
        (4, "trace"),
        (255, "trace"),
    ] {
        let cli = CliCommon { verbose, ..cli() };
        assert_eq!(cli.setup_tracing(), level);
    }
}

#[test]
fn filter_of_the_environment_has_precedence() {
    for verbose in [0, 3, 200] {
        let cli = CliCommon { verbose, ..cli() };
        assert_eq!(cli.log_filter(true), None);
        assert_eq!(cli.log_filter(false), Some(cli.setup_tracing()));
    }
    assert_eq!(cli().log_filter(false), Some("error"));
}

#[test]
fn socket_address() {
    let cli = CliCommon {
        bind_addr: [127, 0, 0, 1],
        listen_port: 8080,
        ..cli()
    };
    assert_eq!(cli.socket_addr(), ([127, 0, 0, 1], 8080));
}

#[test]
fn base_names_host_and_port() {
    assert_eq!(cli().set_thing_base(), None);
    for (listen_port, base) in [
        (80, "http://lamp.local/"),
        (3000, "http://lamp.local:3000/"),
        (0, "http://lamp.local:0/"),
        (65535, "http://lamp.local:65535/"),
        (8, "http://lamp.local:8/"),
    ] {
        let cli = CliCommon {
            listen_port,
            host: Some("lamp.local".to_owned()),
            ..cli()
        };
        assert_eq!(cli.set_thing_base().as_deref(), Some(base));
    }
}

#[test]
fn given_identifier_is_kept() {
    let cli = CliCommon {
        id: Some("urn:dev:ops:oven".to_owned()),
        ..cli()
    };
    assert_eq!(cli.set_thing_id(), "urn:dev:ops:oven");
}

#[test]
fn missing_identifier_is_random() {
    let (a, b) = (cli().set_thing_id(), cli().set_thing_id());
    assert_ne!(a, b);
    for id in [a, b] {
        let uuid = id.strip_prefix("urn:uuid:").unwrap();
        assert_eq!(uuid.len(), 36);
        for (index, character) in uuid.chars().enumerate() {
            match index {
                8 | 13 | 18 | 23 => assert_eq!(character, '-'),
                14 => assert_eq!(character, '4'),
                19 => assert!("89ab".contains(character)),
                _ => assert!("0123456789abcdef".contains(character)),
            }
        }
    }
}

#[test]
fn title_falls_back() {
    assert_eq!(cli().title_or("My Oven"), "My Oven");
    let cli = CliCommon {
        title: Some("Stove".to_owned()),
        ..cli()
    };
    assert_eq!(cli.title_or("My Oven"), "Stove");
}
