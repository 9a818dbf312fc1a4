use pc::bpaste;
use pc::codec::{decode_backend, decode_config, encode_backend, encode_config};
use pc::codec::{ConfigDoc, ConfigError, Entry, Value};
use pc::config::{
    classify_config_override, history_line, resolve_backend, BackendConfig, Config, ConfigSource,
    DispatchError, MainConfig, ServerBlock,
};
use pc::registry::{backend_names, info_from_str};

fn entry_s(k: &str, v: &str) -> Entry {
    Entry { key: k.to_string(), value: Value::S(v.to_string()) }
}

fn entry_i(k: &str, v: u64) -> Entry {
    Entry { key: k.to_string(), value: Value::I(v) }
}

fn sample_config() -> Config {
    Config {
        main: MainConfig {
            server: Some("bp".to_string()),
            histfile: Some("/tmp/hist".to_string()),
        },
        servers: vec![
            ServerBlock {
                name: "rs".to_string(),
                backend: BackendConfig::Generic(pc::generic::Backend {
                    url: "https://paste.rs/".to_string(),
                }),
            },
            ServerBlock {
                name: "vp".to_string(),
                backend: BackendConfig::Vpaste(pc::vpaste::Backend {
                    url: "http://vpaste.net/".to_string(),
                }),
            },
            ServerBlock {
                name: "hb".to_string(),
                backend: BackendConfig::Haste(pc::haste::Backend {
                    url: "https://hastebin.com/".to_string(),
                }),
            },
            ServerBlock {
                name: "bp".to_string(),
                backend: BackendConfig::Bpaste(pc::bpaste::Backend {
                    url: "https://bpaste.net/".to_string(),
                    syntax: Some("python".to_string()),
                    expires: bpaste::Expiry::OneWeek,
                }),
            },
            ServerBlock {
                name: "tb".to_string(),
                backend: BackendConfig::Fiche(pc::fiche::Backend {
                    domain: "termbin.com".to_string(),
                    port: 9999,
                }),
            },
        ],
    }
}

fn assert_backend_eq(a: &BackendConfig, b: &BackendConfig) {
    match (a, b) {
        (BackendConfig::Generic(x), BackendConfig::Generic(y)) => assert_eq!(x.url, y.url),
        (BackendConfig::Vpaste(x), BackendConfig::Vpaste(y)) => assert_eq!(x.url, y.url),
        (BackendConfig::Haste(x), BackendConfig::Haste(y)) => assert_eq!(x.url, y.url),
        (BackendConfig::Bpaste(x), BackendConfig::Bpaste(y)) => {
            assert_eq!(x.url, y.url);
            assert_eq!(x.syntax, y.syntax);
            assert_eq!(x.expires.wire_str(), y.expires.wire_str());
        }
        (BackendConfig::Fiche(x), BackendConfig::Fiche(y)) => {
            assert_eq!(x.domain, y.domain);
            assert_eq!(x.port, y.port);
        }
        _ => panic!("variants differ"),
    }
}

#[test]
fn round_trip_every_variant() {
    // serialize then deserialize: field-for-field equal, for all five variants
    let c = sample_config();
    let doc = encode_config(&c);
    let c2 = decode_config(&doc).unwrap();
    assert_eq!(c2.main.server, c.main.server);
    assert_eq!(c2.main.histfile, c.main.histfile);
    assert_eq!(c2.servers.len(), c.servers.len());
    for (x, y) in c.servers.iter().zip(c2.servers.iter()) {
        assert_eq!(x.name, y.name);
        assert_backend_eq(&x.backend, &y.backend);
    }
}

#[test]
fn unknown_field_fails_for_every_variant() {
    let c = sample_config();
    for block in c.servers.iter() {
        let mut fields = encode_backend(&block.backend);
        fields.push(entry_s("bogus", "value"));
        match decode_backend(&fields) {
            Err(ConfigError::UnknownField(k)) => assert_eq!(k, "bogus"),
            other => panic!("expected UnknownField, got {:?}", other),
        }
    }
}

#[test]
fn duplicate_server_names_are_rejected() {
    // a server name is unique within a configuration
    let block = vec![entry_s("backend", "generic"), entry_s("url", "https://a.example/")];
    let doc = ConfigDoc {
        main: vec![],
        servers: vec![("rs".to_string(), block.clone()), ("rs".to_string(), block)],
    };
    match decode_config(&doc) {
        Err(ConfigError::DuplicateServer(n)) => assert_eq!(n, "rs"),
        other => panic!("expected DuplicateServer, got {:?}", other),
    }
}

#[test]
fn unknown_field_in_main_table_fails() {
    let doc = ConfigDoc { main: vec![entry_s("sever", "rs")], servers: vec![] };
    assert!(matches!(decode_config(&doc), Err(ConfigError::UnknownField(_))));
}

#[test]
fn decode_backend_errors() {
    assert!(matches!(
        decode_backend(&vec![entry_s("url", "https://a.example/")]),
        Err(ConfigError::MissingField(_))
    ));
    assert!(matches!(
        decode_backend(&vec![entry_s("backend", "gopher")]),
        Err(ConfigError::UnknownBackend(_))
    ));
    assert!(matches!(
        decode_backend(&vec![entry_s("backend", "generic")]),
        Err(ConfigError::MissingField(_))
    ));
    assert!(matches!(
        decode_backend(&vec![entry_s("backend", "generic"), entry_i("url", 3)]),
        Err(ConfigError::WrongType(_))
    ));
    assert!(matches!(
        decode_backend(&vec![
            entry_s("backend", "fiche"),
            entry_s("domain", "x.test"),
            entry_i("port", 70000),
        ]),
        Err(ConfigError::BadValue(_))
    ));
    assert!(matches!(
        decode_backend(&vec![
            entry_s("backend", "bpaste"),
            entry_s("url", "https://b.example/"),
            entry_s("expires", "never"),
        ]),
        Err(ConfigError::BadValue(_))
    ));
}

#[test]
fn decode_defaults_for_optional_fields() {
    let b = decode_backend(&vec![
        entry_s("backend", "fiche"),
        entry_s("domain", "termbin.com"),
    ])
    .unwrap();
    match b {
        BackendConfig::Fiche(f) => {
            assert_eq!(f.port, 9999);
        }
        _ => panic!("wrong variant"),
    }
    let b2 = decode_backend(&vec![
        entry_s("backend", "bpaste"),
        entry_s("url", "https://b.example/"),
    ])
    .unwrap();
    match b2 {
        BackendConfig::Bpaste(bb) => {
            assert_eq!(bb.syntax, None);
            assert!(matches!(bb.expires, bpaste::Expiry::OneDay));
        }
        _ => panic!("wrong variant"),
    }
}

#[test]
fn default_config_selects_first_builtin_without_network() {
    // with no config file, the defaults pick the first built-in server and
    // a generic backend pointed at the built-in URL can be constructed
    let c = Config::default();
    let block = resolve_backend(&c).unwrap();
    assert_eq!(block.name, "paste_rs");
    match &block.backend {
        BackendConfig::Generic(g) => {
            assert_eq!(g.url, "https://paste.rs/");
            match g.prepare("data".to_string()) {
                pc::types::PasteRequest::RawBody { url, .. } => {
                    assert_eq!(url, "https://paste.rs/")
                }
                _ => panic!("wrong request shape"),
            }
        }
        _ => panic!("first built-in server is not the generic variant"),
    }
}

#[test]
fn resolution_fails_with_no_servers() {
    let c = Config { main: MainConfig { server: None, histfile: None }, servers: vec![] };
    assert!(matches!(resolve_backend(&c), Err(DispatchError::NoServers)));
    let msg = DispatchError::NoServers.message();
    assert!(msg.starts_with("No servers defined in configuration!"));
}

#[test]
fn resolution_fails_for_absent_default_name() {
    let c = Config {
        main: MainConfig { server: Some("missing".to_string()), histfile: None },
        servers: vec![ServerBlock {
            name: "rs".to_string(),
            backend: BackendConfig::Generic(pc::generic::Backend {
                url: "https://paste.rs/".to_string(),
            }),
        }],
    };
    match resolve_backend(&c) {
        Err(DispatchError::UnknownServer(n)) => {
            assert_eq!(n, "missing");
            let msg = DispatchError::UnknownServer(n).message();
            assert!(msg.starts_with("No corresponding server config for missing."));
        }
        other => panic!("expected UnknownServer, got {:?}", other),
    }
}

#[test]
fn resolution_without_default_picks_first_block() {
    let mut c = sample_config();
    c.main.server = None;
    let block = resolve_backend(&c).unwrap();
    assert_eq!(block.name, "rs");
}

#[test]
fn server_override_rules() {
    let c = sample_config();
    let c = c.with_server_override(None);
    assert_eq!(c.main.server, Some("bp".to_string()));
    let c = c.with_server_override(Some("tb".to_string()));
    assert_eq!(c.main.server, Some("tb".to_string()));
    // the sentinel clears the choice whatever it was before
    let c = c.with_server_override(Some("NONE".to_string()));
    assert_eq!(c.main.server, None);
}

#[test]
fn histfile_override_rules() {
    let c = sample_config();
    let c = c.with_histfile_override(Some("NONE".to_string()));
    assert_eq!(c.main.histfile, None);
    let c = c.with_histfile_override(Some("/tmp/h2".to_string()));
    assert_eq!(c.main.histfile, Some("/tmp/h2".to_string()));
    let c = c.with_histfile_override(None);
    assert_eq!(c.main.histfile, Some("/tmp/h2".to_string()));
}

#[test]
fn config_source_classification() {
    assert!(matches!(
        classify_config_override(&Some("NONE".to_string())),
        ConfigSource::Defaults
    ));
    match classify_config_override(&Some("/etc/pc.toml".to_string())) {
        ConfigSource::Path(p) => assert_eq!(p, "/etc/pc.toml"),
        _ => panic!("expected a path"),
    }
    assert!(matches!(classify_config_override(&None), ConfigSource::SearchDefault));
}

#[test]
fn history_lines_in_call_order() {
    // two successful pastes append exactly two newline-terminated URLs
    let mut hist = String::new();
    hist.push_str(&history_line(&"https://paste.rs/abc".to_string()));
    hist.push_str(&history_line(&"https://paste.rs/def".to_string()));
    assert_eq!(hist, "https://paste.rs/abc\nhttps://paste.rs/def\n");
    assert_eq!(hist.lines().count(), 2);
}

#[test]
fn registry_names_and_info() {
    let names = backend_names();
    assert_eq!(names, vec!["bpaste", "fiche", "generic", "haste", "vpaste"]);
    for n in names {
        assert!(info_from_str(&n.to_string()).is_ok());
    }
    assert_eq!(
        info_from_str(&"gopher".to_string()).unwrap_err(),
        "not a recognized backend: gopher"
    );
    assert!(info_from_str(&"fiche".to_string()).unwrap().contains("termbin.com"));
}

#[test]
fn dispatch_describe_and_tag() {
    let c = sample_config();
    let expect = vec![
        ("generic", "generic | https://paste.rs/"),
        ("vpaste", "vpaste | http://vpaste.net/"),
        ("haste", "haste | https://hastebin.com/"),
        ("bpaste", "bpaste | https://bpaste.net/"),
        ("fiche", "fiche | termbin.com:9999"),
    ];
    for (block, (tag, line)) in c.servers.iter().zip(expect.iter()) {
        assert_eq!(&block.backend.tag(), tag);
        assert_eq!(&block.backend.describe(), line);
    }
}

#[test]
fn dispatch_apply_args_reaches_the_variant() {
    let mut b = BackendConfig::Bpaste(pc::bpaste::Backend {
        url: "https://bpaste.net/".to_string(),
        syntax: Some("rust".to_string()),
        expires: bpaste::Expiry::OneWeek,
    });
    let r = b.apply_args(&vec!["-s".to_string(), "NONE".to_string()]);
    assert!(matches!(r, pc::types::ApplyOutcome::Applied));
    match b {
        BackendConfig::Bpaste(bb) => assert_eq!(bb.syntax, None),
        _ => panic!("variant changed"),
    }
}

#[test]
fn encode_backend_is_canonical() {
    let b = BackendConfig::Bpaste(pc::bpaste::Backend {
        url: "https://b.example/".to_string(),
        syntax: Some("python".to_string()),
        expires: bpaste::Expiry::OneDay,
    });
    let fields = encode_backend(&b);
    let shown: Vec<(String, String)> = fields
        .iter()
        .map(|e| {
            (
                e.key.clone(),
                match &e.value {
                    Value::S(s) => s.clone(),
                    Value::I(n) => n.to_string(),
                },
            )
        })
        .collect();
    assert_eq!(
        shown,
        vec![
            ("backend".to_string(), "bpaste".to_string()),
            ("url".to_string(), "https://b.example/".to_string()),
            ("syntax".to_string(), "python".to_string()),
            ("expires".to_string(), "1day".to_string()),
        ]
    );
}
