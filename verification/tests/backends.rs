use pc::bpaste;
use pc::fiche;
use pc::generic;
use pc::haste;
use pc::types::{ApplyOutcome, HttpResponse, PasteError, PasteRequest};
use pc::vpaste;

fn args(v: &[&str]) -> Vec<String> {
    v.iter().map(|s| s.to_string()).collect()
}

#[test]
fn generic_prepare_is_raw_body() {
    let b = generic::Backend { url: "https://paste.rs/".to_string() };
    match b.prepare("hello".to_string()) {
        PasteRequest::RawBody { url, body } => {
            assert_eq!(url, "https://paste.rs/");
            assert_eq!(body, "hello");
        }
        _ => panic!("wrong request shape"),
    }
}

#[test]
fn generic_finish_parses_body_as_url() {
    let b = generic::Backend { url: "https://paste.rs/".to_string() };
    let resp = HttpResponse {
        status: 200,
        final_url: "https://paste.rs/".to_string(),
        body: "HTTP://X.test/a".to_string(),
    };
    // the url crate canonicalizes scheme and host
    assert_eq!(b.finish(&resp).unwrap(), "http://x.test/a");
}

#[test]
fn generic_finish_bad_status() {
    let b = generic::Backend { url: "https://paste.rs/".to_string() };
    let resp = HttpResponse {
        status: 404,
        final_url: "https://paste.rs/".to_string(),
        body: "http://x.test/a".to_string(),
    };
    assert!(matches!(b.finish(&resp), Err(PasteError::BadStatus(404))));
}

#[test]
fn generic_finish_body_not_a_url() {
    let b = generic::Backend { url: "https://paste.rs/".to_string() };
    let resp = HttpResponse {
        status: 200,
        final_url: "https://paste.rs/".to_string(),
        body: "not a url".to_string(),
    };
    assert!(matches!(b.finish(&resp), Err(PasteError::BadResponse(_))));
}

#[test]
fn generic_apply_args_overrides_url() {
    let mut b = generic::Backend { url: "https://paste.rs/".to_string() };
    let r = b.apply_args(&args(&["-u", "https://other.example/"]));
    assert!(matches!(r, ApplyOutcome::Applied));
    assert_eq!(b.url, "https://other.example/");
}

#[test]
fn url_none_resets_to_type_default() {
    // the sentinel rule is identical for every overridable field: a plain
    // string field resets to its type's default, the empty string
    let mut g = generic::Backend { url: "https://paste.rs/".to_string() };
    assert!(matches!(g.apply_args(&args(&["-u", "NONE"])), ApplyOutcome::Applied));
    assert_eq!(g.url, "");
    let mut b = bpaste::Backend {
        url: "https://bpaste.net/".to_string(),
        syntax: None,
        expires: bpaste::Expiry::OneDay,
    };
    assert!(matches!(b.apply_args(&args(&["--url", "NONE"])), ApplyOutcome::Applied));
    assert_eq!(b.url, "");
}

#[test]
fn generic_apply_args_help() {
    let mut b = generic::Backend { url: "https://paste.rs/".to_string() };
    let r = b.apply_args(&args(&["-h"]));
    match r {
        ApplyOutcome::Help(t) => assert!(t.contains("--url")),
        _ => panic!("expected help"),
    }
    assert_eq!(b.url, "https://paste.rs/");
}

#[test]
fn generic_apply_args_unknown_flag() {
    let mut b = generic::Backend { url: "https://paste.rs/".to_string() };
    let r = b.apply_args(&args(&["--bogus", "x"]));
    match r {
        ApplyOutcome::Invalid(m) => assert_eq!(m, "unrecognized flag: --bogus"),
        _ => panic!("expected invalid"),
    }
    assert_eq!(b.url, "https://paste.rs/");
}

#[test]
fn generic_apply_args_missing_value() {
    let mut b = generic::Backend { url: "https://paste.rs/".to_string() };
    let r = b.apply_args(&args(&["-u"]));
    match r {
        ApplyOutcome::Invalid(m) => assert_eq!(m, "missing value for flag: -u"),
        _ => panic!("expected invalid"),
    }
}

#[test]
fn vpaste_prepare_and_finish() {
    let b = vpaste::Backend { url: "http://vpaste.net/".to_string() };
    match b.prepare("text body".to_string()) {
        PasteRequest::Form { url, fields } => {
            assert_eq!(url, "http://vpaste.net/");
            assert_eq!(fields, vec![("text".to_string(), "text body".to_string())]);
        }
        _ => panic!("wrong request shape"),
    }
    let resp = HttpResponse {
        status: 200,
        final_url: "http://vpaste.net/abc".to_string(),
        body: String::new(),
    };
    assert_eq!(b.finish(&resp).unwrap(), "http://vpaste.net/abc");
}

#[test]
fn bpaste_rejects_redirect_back_to_itself() {
    // the service signals failure by answering from the posted URL,
    // even though the transport round trip itself succeeded
    let b = bpaste::Backend {
        url: "https://bpaste.net/".to_string(),
        syntax: None,
        expires: bpaste::Expiry::OneDay,
    };
    let resp = HttpResponse {
        status: 200,
        final_url: "https://bpaste.net/".to_string(),
        body: String::new(),
    };
    assert!(matches!(b.finish(&resp), Err(PasteError::Rejected(_))));
}

#[test]
fn bpaste_accepts_different_final_url() {
    let b = bpaste::Backend {
        url: "https://bpaste.net/".to_string(),
        syntax: None,
        expires: bpaste::Expiry::OneDay,
    };
    let resp = HttpResponse {
        status: 200,
        final_url: "https://bpaste.net/show/xyz".to_string(),
        body: String::new(),
    };
    assert_eq!(b.finish(&resp).unwrap(), "https://bpaste.net/show/xyz");
}

#[test]
fn bpaste_prepare_fields_and_lexer_default() {
    let b = bpaste::Backend {
        url: "https://bpaste.net/".to_string(),
        syntax: None,
        expires: bpaste::Expiry::OneWeek,
    };
    match b.prepare("code here".to_string()) {
        PasteRequest::Multipart { url, fields } => {
            assert_eq!(url, "https://bpaste.net/");
            assert_eq!(
                fields,
                vec![
                    ("code".to_string(), "code here".to_string()),
                    ("expiry".to_string(), "1week".to_string()),
                    ("lexer".to_string(), "text".to_string()),
                ]
            );
        }
        _ => panic!("wrong request shape"),
    }
}

#[test]
fn bpaste_syntax_none_resets_to_default() {
    let mut b = bpaste::Backend {
        url: "https://bpaste.net/".to_string(),
        syntax: Some("python".to_string()),
        expires: bpaste::Expiry::OneWeek,
    };
    let r = b.apply_args(&args(&["-s", "NONE", "-e", "NONE"]));
    assert!(matches!(r, ApplyOutcome::Applied));
    assert_eq!(b.syntax, None);
    assert!(matches!(b.expires, bpaste::Expiry::OneDay));
}

#[test]
fn bpaste_expires_override_and_error() {
    let mut b = bpaste::Backend {
        url: "https://bpaste.net/".to_string(),
        syntax: None,
        expires: bpaste::Expiry::OneDay,
    };
    assert!(matches!(b.apply_args(&args(&["-e", "1week"])), ApplyOutcome::Applied));
    assert!(matches!(b.expires, bpaste::Expiry::OneWeek));
    let r = b.apply_args(&args(&["-e", "fortnight"]));
    match r {
        ApplyOutcome::Invalid(m) => assert_eq!(
            m,
            "Invalid value for --expires: fortnight. Valid values are 1day, 1week, or NONE (to use default)"
        ),
        _ => panic!("expected invalid"),
    }
    // a malformed expiry leaves the configuration untouched
    assert!(matches!(b.expires, bpaste::Expiry::OneWeek));
}

#[test]
fn expiry_wire_forms() {
    assert_eq!(bpaste::Expiry::OneDay.wire_str(), "1day");
    assert_eq!(bpaste::Expiry::OneWeek.wire_str(), "1week");
    assert!(matches!(
        bpaste::Expiry::from_str(&"1day".to_string()),
        Ok(bpaste::Expiry::OneDay)
    ));
    assert!(matches!(
        bpaste::Expiry::from_str(&"1week".to_string()),
        Ok(bpaste::Expiry::OneWeek)
    ));
    assert!(bpaste::Expiry::from_str(&"never".to_string()).is_err());
    assert!(matches!(bpaste::Expiry::default(), bpaste::Expiry::OneDay));
}

#[test]
fn haste_missing_key_is_an_error_not_an_empty_url() {
    let b = haste::Backend { url: "https://hastebin.com/".to_string() };
    assert!(matches!(
        b.finish_with_key(None),
        Err(PasteError::BadResponse(_))
    ));
    let empty = String::new();
    assert!(matches!(
        b.finish_with_key(Some(&empty)),
        Err(PasteError::BadResponse(_))
    ));
}

#[test]
fn haste_finish_reads_json_key() {
    let b = haste::Backend { url: "https://h.test/".to_string() };
    let resp = HttpResponse {
        status: 200,
        final_url: "https://h.test/documents".to_string(),
        body: "{\"key\":\"abc\"}".to_string(),
    };
    assert_eq!(b.finish(&resp).unwrap(), "https://h.test/abc");
}

#[test]
fn haste_finish_body_without_key_fails() {
    let b = haste::Backend { url: "https://h.test/".to_string() };
    let resp = HttpResponse {
        status: 200,
        final_url: "https://h.test/documents".to_string(),
        body: "{\"other\":\"abc\"}".to_string(),
    };
    assert!(matches!(b.finish(&resp), Err(PasteError::BadResponse(_))));
}

#[test]
fn haste_prepare_posts_to_documents_path() {
    let b = haste::Backend { url: "https://h.test/".to_string() };
    match b.prepare("data".to_string()).unwrap() {
        PasteRequest::RawBody { url, body } => {
            assert_eq!(url, "https://h.test/documents");
            assert_eq!(body, "data");
        }
        _ => panic!("wrong request shape"),
    }
}

#[test]
fn fiche_strips_nul_and_trailing_whitespace() {
    let b = fiche::Backend { domain: "x.test".to_string(), port: 9999 };
    let resp = "http://x.test/ab1\u{0}\u{0}";
    assert_eq!(b.finish(resp).unwrap(), "http://x.test/ab1");
    let resp2 = "\u{0}http://x.test/ab1\n\u{0}\u{0}";
    assert_eq!(b.finish(resp2).unwrap(), "http://x.test/ab1");
    // trailing whitespace means Unicode's White_Space set, not just ASCII
    let resp3 = "http://x.test/ab1\u{a0}\u{2028}";
    assert_eq!(b.finish(resp3).unwrap(), "http://x.test/ab1");
}

#[test]
fn fiche_garbage_response_is_an_error() {
    let b = fiche::Backend { domain: "x.test".to_string(), port: 9999 };
    assert!(matches!(b.finish("\u{0}\u{0}  \n"), Err(PasteError::BadResponse(_))));
}

#[test]
fn fiche_prepare_and_port_override() {
    let mut b = fiche::Backend { domain: "termbin.com".to_string(), port: fiche::default_port() };
    assert_eq!(b.port, 9999);
    assert!(matches!(b.apply_args(&args(&["-p", "80", "-d", "tb.example"])), ApplyOutcome::Applied));
    assert_eq!(b.port, 80);
    assert_eq!(b.domain, "tb.example");
    match b.prepare("payload".to_string()) {
        PasteRequest::Tcp { domain, port, payload } => {
            assert_eq!(domain, "tb.example");
            assert_eq!(port, 80);
            assert_eq!(payload, "payload");
        }
        _ => panic!("wrong request shape"),
    }
}

#[test]
fn fiche_none_resets_port_and_domain() {
    let mut b = fiche::Backend { domain: "termbin.com".to_string(), port: 1234 };
    assert!(matches!(b.apply_args(&args(&["-p", "NONE"])), ApplyOutcome::Applied));
    assert_eq!(b.port, 9999);
    assert!(matches!(b.apply_args(&args(&["--domain", "NONE"])), ApplyOutcome::Applied));
    assert_eq!(b.domain, "");
}

#[test]
fn fiche_bad_port_values() {
    let mut b = fiche::Backend { domain: "x.test".to_string(), port: 9999 };
    assert!(matches!(b.apply_args(&args(&["-p", "99999"])), ApplyOutcome::Invalid(_)));
    assert_eq!(b.port, 9999);
    assert!(matches!(b.apply_args(&args(&["-p", "12ab"])), ApplyOutcome::Invalid(_)));
    assert!(matches!(b.apply_args(&args(&["-p", ""])), ApplyOutcome::Invalid(_)));
}

#[test]
fn describe_lines() {
    let g = generic::Backend { url: "https://paste.rs/".to_string() };
    assert_eq!(g.describe(), "generic | https://paste.rs/");
    let f = fiche::Backend { domain: "termbin.com".to_string(), port: 9999 };
    assert_eq!(f.describe(), "fiche | termbin.com:9999");
    let b = bpaste::Backend {
        url: "https://bpaste.net/".to_string(),
        syntax: None,
        expires: bpaste::Expiry::OneDay,
    };
    assert_eq!(b.describe(), "bpaste | https://bpaste.net/");
}

#[test]
fn last_flag_occurrence_wins() {
    let mut b = generic::Backend { url: "https://a.example/".to_string() };
    let r = b.apply_args(&args(&["-u", "https://b.example/", "--url", "https://c.example/"]));
    assert!(matches!(r, ApplyOutcome::Applied));
    assert_eq!(b.url, "https://c.example/");
}
