//! The persisted shape of a configuration, free of any carrier syntax: a
//! main table and named server tables, each a list of key/value pairs.
//! Decoding fails closed: a key the named variant does not know is a hard
//! error, never dropped. Encoding and decoding are exact inverses.

use vstd::prelude::*;

use crate::bpaste::Expiry;
use crate::config::{BackendConfig, Config, MainConfig, ServerBlock};

verus! {

broadcast use vstd::string::group_string_axioms;

/// A primitive value of the persisted configuration.
#[derive(Debug, Clone)]
pub enum Value {
    S(String),
    I(u64),
}

pub enum ValueV {
    S(Seq<char>),
    I(u64),
}

pub open spec fn value_model(v: Value) -> ValueV {
    match v {
        Value::S(s) => ValueV::S(s@),
        Value::I(n) => ValueV::I(n),
    }
}

/// One key/value pair of a table.
#[derive(Debug, Clone)]
pub struct Entry {
    pub key: String,
    pub value: Value,
}

pub struct EntryV {
    pub key: Seq<char>,
    pub value: ValueV,
}

pub open spec fn entry_model(e: Entry) -> EntryV {
    EntryV { key: e.key@, value: value_model(e.value) }
}

pub open spec fn entries_model(es: Seq<Entry>) -> Seq<EntryV> {
    es.map_values(|e: Entry| entry_model(e))
}

pub open spec fn strs_model(ss: Seq<String>) -> Seq<Seq<char>> {
    ss.map_values(|s: String| s@)
}

/// The whole persisted configuration: the main table and the server tables.
#[derive(Debug, Clone)]
pub struct ConfigDoc {
    pub main: Vec<Entry>,
    pub servers: Vec<(String, Vec<Entry>)>,
}

pub struct ConfigDocV {
    pub main: Seq<EntryV>,
    pub servers: Seq<(Seq<char>, Seq<EntryV>)>,
}

pub open spec fn doc_model(d: ConfigDoc) -> ConfigDocV {
    ConfigDocV {
        main: entries_model(d.main@),
        servers: d.servers@.map_values(
            |p: (String, Vec<Entry>)| (p.0@, entries_model(p.1@)),
        ),
    }
}

/// Why a persisted configuration is refused.
#[derive(Debug, Clone)]
pub enum ConfigError {
    /// A key the table's shape does not know: misspelled configuration is
    /// rejected, never dropped.
    UnknownField(String),
    /// A required key is absent.
    MissingField(String),
    /// A key carries the wrong primitive.
    WrongType(String),
    /// A key carries a value outside its range.
    BadValue(String),
    /// The backend tag names no known variant.
    UnknownBackend(String),
    /// A server name that appears more than once: names are unique within
    /// a configuration.
    DuplicateServer(String),
}

pub enum ConfigErrorV {
    UnknownField(Seq<char>),
    MissingField(Seq<char>),
    WrongType(Seq<char>),
    BadValue(Seq<char>),
    UnknownBackend(Seq<char>),
    DuplicateServer(Seq<char>),
}

pub open spec fn err_model(e: ConfigError) -> ConfigErrorV {
    match e {
        ConfigError::UnknownField(k) => ConfigErrorV::UnknownField(k@),
        ConfigError::MissingField(k) => ConfigErrorV::MissingField(k@),
        ConfigError::WrongType(k) => ConfigErrorV::WrongType(k@),
        ConfigError::BadValue(k) => ConfigErrorV::BadValue(k@),
        ConfigError::UnknownBackend(k) => ConfigErrorV::UnknownBackend(k@),
        ConfigError::DuplicateServer(k) => ConfigErrorV::DuplicateServer(k@),
    }
}

/// The model of one backend configuration.
pub enum BackendConfigV {
    Generic { url: Seq<char> },
    Vpaste { url: Seq<char> },
    Haste { url: Seq<char> },
    Bpaste { url: Seq<char>, syntax: Option<Seq<char>>, expires: Expiry },
    Fiche { domain: Seq<char>, port: u16 },
}

pub open spec fn backend_model(b: BackendConfig) -> BackendConfigV {
    match b {
        BackendConfig::Generic(g) => BackendConfigV::Generic { url: g.url@ },
        BackendConfig::Vpaste(v) => BackendConfigV::Vpaste { url: v.url@ },
        BackendConfig::Haste(h) => BackendConfigV::Haste { url: h.url@ },
        BackendConfig::Bpaste(b) => BackendConfigV::Bpaste {
            url: b.url@,
            syntax: b.syntax.deep_view(),
            expires: b.expires,
        },
        BackendConfig::Fiche(f) => BackendConfigV::Fiche { domain: f.domain@, port: f.port },
    }
}

/// The model of a whole configuration.
pub struct ConfigV {
    pub server: Option<Seq<char>>,
    pub histfile: Option<Seq<char>>,
    pub servers: Seq<(Seq<char>, BackendConfigV)>,
}

pub open spec fn config_model(c: Config) -> ConfigV {
    ConfigV {
        server: c.main.server.deep_view(),
        histfile: c.main.histfile.deep_view(),
        servers: c.servers@.map_values(
            |b: ServerBlock| (b.name@, backend_model(b.backend)),
        ),
    }
}

/// The value under the first occurrence of `key`.
pub open spec fn spec_find(es: Seq<EntryV>, key: Seq<char>) -> Option<ValueV>
    decreases es.len(),
{
    if es.len() == 0 {
        Option::None
    } else if es[0].key == key {
        Option::Some(es[0].value)
    } else {
        spec_find(es.drop_first(), key)
    }
}

pub open spec fn spec_in(keys: Seq<Seq<char>>, k: Seq<char>) -> bool {
    exists|i: int| 0 <= i < keys.len() && (#[trigger] keys[i]) == k
}

/// The first key the allowed set does not know.
pub open spec fn spec_first_unknown(es: Seq<EntryV>, allowed: Seq<Seq<char>>) -> Option<Seq<char>>
    decreases es.len(),
{
    if es.len() == 0 {
        Option::None
    } else if !spec_in(allowed, es[0].key) {
        Option::Some(es[0].key)
    } else {
        spec_first_unknown(es.drop_first(), allowed)
    }
}

/// The names of the server tables, in order.
pub open spec fn spec_block_names(bs: Seq<(Seq<char>, Seq<EntryV>)>) -> Seq<Seq<char>> {
    bs.map_values(|p: (Seq<char>, Seq<EntryV>)| p.0)
}

/// The first name that appears again later in the list.
pub open spec fn spec_first_dup(names: Seq<Seq<char>>) -> Option<Seq<char>>
    decreases names.len(),
{
    if names.len() == 0 {
        Option::None
    } else if spec_in(names.drop_first(), names[0]) {
        Option::Some(names[0])
    } else {
        spec_first_dup(names.drop_first())
    }
}

fn clone_value(v: &Value) -> (r: Value)
    ensures
        value_model(r) == value_model(*v),
{
    match v {
        Value::S(s) => Value::S(s.clone()),
        Value::I(n) => Value::I(*n),
    }
}

fn find_field(es: &Vec<Entry>, key: &String) -> (r: Option<Value>)
    ensures
        match r {
            Option::Some(v) => spec_find(entries_model(es@), key@) == Option::Some(value_model(v)),
            Option::None => spec_find(entries_model(es@), key@) == Option::<ValueV>::None,
        },
{
    let ghost m = entries_model(es@);
    proof {
        assert(m.skip(0) =~= m);
    }
    let mut i: usize = 0;
    while i < es.len()
        invariant
            0 <= i <= es@.len(),
            m == entries_model(es@),
            m.len() == es@.len(),
            spec_find(m, key@) == spec_find(m.skip(i as int), key@),
        decreases es@.len() - i,
    {
        proof {
            assert(m.skip(i as int)[0] == entry_model(es@[i as int]));
        }
        if es[i].key == *key {
            return Option::Some(clone_value(&es[i].value));
        }
        proof {
            assert(m.skip(i as int).drop_first() =~= m.skip(i as int + 1));
        }
        i = i + 1;
    }
    proof {
        assert(m.skip(i as int) =~= Seq::empty());
    }
    Option::None
}

fn contains_key(allowed: &Vec<String>, k: &String) -> (r: bool)
    ensures
        r == spec_in(strs_model(allowed@), k@),
{
    let mut i: usize = 0;
    while i < allowed.len()
        invariant
            0 <= i <= allowed@.len(),
            forall|j: int| 0 <= j < i ==> (#[trigger] allowed@[j])@ != k@,
        decreases allowed@.len() - i,
    {
        if allowed[i] == *k {
            proof {
                assert(strs_model(allowed@)[i as int] == k@);
            }
            return true;
        }
        i = i + 1;
    }
    proof {
        assert forall|j: int| 0 <= j < strs_model(allowed@).len() implies (#[trigger] strs_model(
            allowed@,
        )[j]) != k@ by {
            assert(strs_model(allowed@)[j] == allowed@[j]@);
        }
    }
    false
}

fn first_unknown(es: &Vec<Entry>, allowed: &Vec<String>) -> (r: Option<String>)
    ensures
        match r {
            Option::Some(k) => spec_first_unknown(entries_model(es@), strs_model(allowed@))
                == Option::Some(k@),
            Option::None => spec_first_unknown(entries_model(es@), strs_model(allowed@))
                == Option::<Seq<char>>::None,
        },
{
    let ghost m = entries_model(es@);
    let ghost al = strs_model(allowed@);
    proof {
        assert(m.skip(0) =~= m);
    }
    let mut i: usize = 0;
    while i < es.len()
        invariant
            0 <= i <= es@.len(),
            m == entries_model(es@),
            al == strs_model(allowed@),
            m.len() == es@.len(),
            spec_first_unknown(m, al) == spec_first_unknown(m.skip(i as int), al),
        decreases es@.len() - i,
    {
        proof {
            assert(m.skip(i as int)[0] == entry_model(es@[i as int]));
        }
        if !contains_key(allowed, &es[i].key) {
            return Option::Some(es[i].key.clone());
        }
        proof {
            assert(m.skip(i as int).drop_first() =~= m.skip(i as int + 1));
        }
        i = i + 1;
    }
    proof {
        assert(m.skip(i as int) =~= Seq::empty());
    }
    Option::None
}

pub open spec fn spec_url_like_keys() -> Seq<Seq<char>> {
    seq!["backend"@, "url"@]
}

pub open spec fn spec_bpaste_keys() -> Seq<Seq<char>> {
    seq!["backend"@, "url"@, "syntax"@, "expires"@]
}

pub open spec fn spec_fiche_keys() -> Seq<Seq<char>> {
    seq!["backend"@, "domain"@, "port"@]
}

pub open spec fn spec_main_keys() -> Seq<Seq<char>> {
    seq!["server"@, "histfile"@]
}

/// Decoding a variant whose only field is the URL.
pub open spec fn spec_decode_url(m: Seq<EntryV>) -> Result<Seq<char>, ConfigErrorV> {
    match spec_first_unknown(m, spec_url_like_keys()) {
        Option::Some(k) => Result::Err(ConfigErrorV::UnknownField(k)),
        Option::None => match spec_find(m, "url"@) {
            Option::Some(ValueV::S(u)) => Result::Ok(u),
            Option::Some(ValueV::I(_)) => Result::Err(ConfigErrorV::WrongType("url"@)),
            Option::None => Result::Err(ConfigErrorV::MissingField("url"@)),
        },
    }
}

pub open spec fn spec_decode_bpaste(m: Seq<EntryV>) -> Result<BackendConfigV, ConfigErrorV> {
    match spec_first_unknown(m, spec_bpaste_keys()) {
        Option::Some(k) => Result::Err(ConfigErrorV::UnknownField(k)),
        Option::None => match spec_find(m, "url"@) {
            Option::None => Result::Err(ConfigErrorV::MissingField("url"@)),
            Option::Some(ValueV::I(_)) => Result::Err(ConfigErrorV::WrongType("url"@)),
            Option::Some(ValueV::S(u)) => match spec_find(m, "syntax"@) {
                Option::Some(ValueV::I(_)) => Result::Err(ConfigErrorV::WrongType("syntax"@)),
                syn => {
                    let syntax = match syn {
                        Option::Some(ValueV::S(s)) => Option::Some(s),
                        _ => Option::<Seq<char>>::None,
                    };
                    match spec_find(m, "expires"@) {
                        Option::Some(ValueV::I(_)) => Result::Err(
                            ConfigErrorV::WrongType("expires"@),
                        ),
                        Option::Some(ValueV::S(es)) => match Expiry::spec_from_wire(es) {
                            Option::Some(e) => Result::Ok(
                                BackendConfigV::Bpaste { url: u, syntax, expires: e },
                            ),
                            Option::None => Result::Err(ConfigErrorV::BadValue("expires"@)),
                        },
                        Option::None => Result::Ok(
                            BackendConfigV::Bpaste { url: u, syntax, expires: Expiry::OneDay },
                        ),
                    }
                },
            },
        },
    }
}

pub open spec fn spec_decode_fiche(m: Seq<EntryV>) -> Result<BackendConfigV, ConfigErrorV> {
    match spec_first_unknown(m, spec_fiche_keys()) {
        Option::Some(k) => Result::Err(ConfigErrorV::UnknownField(k)),
        Option::None => match spec_find(m, "domain"@) {
            Option::None => Result::Err(ConfigErrorV::MissingField("domain"@)),
            Option::Some(ValueV::I(_)) => Result::Err(ConfigErrorV::WrongType("domain"@)),
            Option::Some(ValueV::S(d)) => match spec_find(m, "port"@) {
                Option::None => Result::Ok(
                    BackendConfigV::Fiche { domain: d, port: crate::fiche::spec_default_port() },
                ),
                Option::Some(ValueV::S(_)) => Result::Err(ConfigErrorV::WrongType("port"@)),
                Option::Some(ValueV::I(n)) => if n <= 65535 {
                    Result::Ok(BackendConfigV::Fiche { domain: d, port: n as u16 })
                } else {
                    Result::Err(ConfigErrorV::BadValue("port"@))
                },
            },
        },
    }
}

/// Decoding one server table: the `backend` tag picks the variant, which
/// then reads exactly its own keys.
pub open spec fn spec_decode_backend(m: Seq<EntryV>) -> Result<BackendConfigV, ConfigErrorV> {
    match spec_find(m, "backend"@) {
        Option::None => Result::Err(ConfigErrorV::MissingField("backend"@)),
        Option::Some(ValueV::I(_)) => Result::Err(ConfigErrorV::WrongType("backend"@)),
        Option::Some(ValueV::S(tag)) => if tag == "generic"@ {
            match spec_decode_url(m) {
                Result::Ok(u) => Result::Ok(BackendConfigV::Generic { url: u }),
                Result::Err(e) => Result::Err(e),
            }
        } else if tag == "vpaste"@ {
            match spec_decode_url(m) {
                Result::Ok(u) => Result::Ok(BackendConfigV::Vpaste { url: u }),
                Result::Err(e) => Result::Err(e),
            }
        } else if tag == "haste"@ {
            match spec_decode_url(m) {
                Result::Ok(u) => Result::Ok(BackendConfigV::Haste { url: u }),
                Result::Err(e) => Result::Err(e),
            }
        } else if tag == "bpaste"@ {
            spec_decode_bpaste(m)
        } else if tag == "fiche"@ {
            spec_decode_fiche(m)
        } else {
            Result::Err(ConfigErrorV::UnknownBackend(tag))
        },
    }
}

/// Decoding the main table.
pub open spec fn spec_decode_main(m: Seq<EntryV>) -> Result<
    (Option<Seq<char>>, Option<Seq<char>>),
    ConfigErrorV,
> {
    match spec_first_unknown(m, spec_main_keys()) {
        Option::Some(k) => Result::Err(ConfigErrorV::UnknownField(k)),
        Option::None => match spec_find(m, "server"@) {
            Option::Some(ValueV::I(_)) => Result::Err(ConfigErrorV::WrongType("server"@)),
            sv => match spec_find(m, "histfile"@) {
                Option::Some(ValueV::I(_)) => Result::Err(ConfigErrorV::WrongType("histfile"@)),
                hv => Result::Ok(
                    (
                        match sv {
                            Option::Some(ValueV::S(s)) => Option::Some(s),
                            _ => Option::<Seq<char>>::None,
                        },
                        match hv {
                            Option::Some(ValueV::S(h)) => Option::Some(h),
                            _ => Option::<Seq<char>>::None,
                        },
                    ),
                ),
            },
        },
    }
}

pub open spec fn spec_decode_blocks(bs: Seq<(Seq<char>, Seq<EntryV>)>) -> Result<
    Seq<(Seq<char>, BackendConfigV)>,
    ConfigErrorV,
>
    decreases bs.len(),
{
    if bs.len() == 0 {
        Result::Ok(Seq::empty())
    } else {
        match spec_decode_backend(bs[0].1) {
            Result::Err(e) => Result::Err(e),
            Result::Ok(b) => match spec_decode_blocks(bs.drop_first()) {
                Result::Err(e) => Result::Err(e),
                Result::Ok(rest) => Result::Ok(seq![(bs[0].0, b)] + rest),
            },
        }
    }
}

pub open spec fn spec_decode_config(d: ConfigDocV) -> Result<ConfigV, ConfigErrorV> {
    match spec_decode_main(d.main) {
        Result::Err(e) => Result::Err(e),
        Result::Ok(mc) => match spec_first_dup(spec_block_names(d.servers)) {
            Option::Some(n) => Result::Err(ConfigErrorV::DuplicateServer(n)),
            Option::None => match spec_decode_blocks(d.servers) {
                Result::Err(e) => Result::Err(e),
                Result::Ok(svs) => Result::Ok(
                    ConfigV { server: mc.0, histfile: mc.1, servers: svs },
                ),
            },
        },
    }
}

/// The canonical encoding of one backend configuration: the tag first, then
/// the variant's fields; absent optional fields are omitted.
pub open spec fn spec_encode_backend(v: BackendConfigV) -> Seq<EntryV> {
    match v {
        BackendConfigV::Generic { url } => seq![
            EntryV { key: "backend"@, value: ValueV::S("generic"@) },
            EntryV { key: "url"@, value: ValueV::S(url) },
        ],
        BackendConfigV::Vpaste { url } => seq![
            EntryV { key: "backend"@, value: ValueV::S("vpaste"@) },
            EntryV { key: "url"@, value: ValueV::S(url) },
        ],
        BackendConfigV::Haste { url } => seq![
            EntryV { key: "backend"@, value: ValueV::S("haste"@) },
            EntryV { key: "url"@, value: ValueV::S(url) },
        ],
        BackendConfigV::Bpaste { url, syntax, expires } => seq![
            EntryV { key: "backend"@, value: ValueV::S("bpaste"@) },
            EntryV { key: "url"@, value: ValueV::S(url) },
        ] + (match syntax {
            Option::Some(s) => seq![EntryV { key: "syntax"@, value: ValueV::S(s) }],
            Option::None => Seq::empty(),
        }) + seq![EntryV { key: "expires"@, value: ValueV::S(expires.spec_wire()) }],
        BackendConfigV::Fiche { domain, port } => seq![
            EntryV { key: "backend"@, value: ValueV::S("fiche"@) },
            EntryV { key: "domain"@, value: ValueV::S(domain) },
            EntryV { key: "port"@, value: ValueV::I(port as u64) },
        ],
    }
}

pub open spec fn spec_encode_main(
    server: Option<Seq<char>>,
    histfile: Option<Seq<char>>,
) -> Seq<EntryV> {
    (match server {
        Option::Some(s) => seq![EntryV { key: "server"@, value: ValueV::S(s) }],
        Option::None => Seq::empty(),
    }) + (match histfile {
        Option::Some(h) => seq![EntryV { key: "histfile"@, value: ValueV::S(h) }],
        Option::None => Seq::empty(),
    })
}

pub open spec fn spec_encode_config(v: ConfigV) -> ConfigDocV {
    ConfigDocV {
        main: spec_encode_main(v.server, v.histfile),
        servers: v.servers.map_values(
            |p: (Seq<char>, BackendConfigV)| (p.0, spec_encode_backend(p.1)),
        ),
    }
}

fn url_like_keys() -> (r: Vec<String>)
    ensures
        strs_model(r@) == spec_url_like_keys(),
{
    let mut v: Vec<String> = Vec::new();
    v.push("backend".to_owned());
    v.push("url".to_owned());
    proof {
        assert(strs_model(v@) =~= spec_url_like_keys());
    }
    v
}

fn bpaste_keys() -> (r: Vec<String>)
    ensures
        strs_model(r@) == spec_bpaste_keys(),
{
    let mut v: Vec<String> = Vec::new();
    v.push("backend".to_owned());
    v.push("url".to_owned());
    v.push("syntax".to_owned());
    v.push("expires".to_owned());
    proof {
        assert(strs_model(v@) =~= spec_bpaste_keys());
    }
    v
}

fn fiche_keys() -> (r: Vec<String>)
    ensures
        strs_model(r@) == spec_fiche_keys(),
{
    let mut v: Vec<String> = Vec::new();
    v.push("backend".to_owned());
    v.push("domain".to_owned());
    v.push("port".to_owned());
    proof {
        assert(strs_model(v@) =~= spec_fiche_keys());
    }
    v
}

fn main_keys() -> (r: Vec<String>)
    ensures
        strs_model(r@) == spec_main_keys(),
{
    let mut v: Vec<String> = Vec::new();
    v.push("server".to_owned());
    v.push("histfile".to_owned());
    proof {
        assert(strs_model(v@) =~= spec_main_keys());
    }
    v
}

fn decode_url_like(es: &Vec<Entry>) -> (r: Result<String, ConfigError>)
    ensures
        match r {
            Result::Ok(u) => spec_decode_url(entries_model(es@)) == Result::<
                Seq<char>,
                ConfigErrorV,
            >::Ok(u@),
            Result::Err(e) => spec_decode_url(entries_model(es@)) == Result::<
                Seq<char>,
                ConfigErrorV,
            >::Err(err_model(e)),
        },
{
    let allowed = url_like_keys();
    match first_unknown(es, &allowed) {
        Option::Some(k) => {
            return Result::Err(ConfigError::UnknownField(k));
        },
        Option::None => {},
    }
    match find_field(es, &"url".to_owned()) {
        Option::Some(Value::S(u)) => Result::Ok(u),
        Option::Some(Value::I(_)) => Result::Err(ConfigError::WrongType("url".to_owned())),
        Option::None => Result::Err(ConfigError::MissingField("url".to_owned())),
    }
}

fn decode_bpaste(es: &Vec<Entry>) -> (r: Result<BackendConfig, ConfigError>)
    ensures
        match r {
            Result::Ok(b) => spec_decode_bpaste(entries_model(es@)) == Result::<
                BackendConfigV,
                ConfigErrorV,
            >::Ok(backend_model(b)),
            Result::Err(e) => spec_decode_bpaste(entries_model(es@)) == Result::<
                BackendConfigV,
                ConfigErrorV,
            >::Err(err_model(e)),
        },
{
    let allowed = bpaste_keys();
    match first_unknown(es, &allowed) {
        Option::Some(k) => {
            return Result::Err(ConfigError::UnknownField(k));
        },
        Option::None => {},
    }
    let url = match find_field(es, &"url".to_owned()) {
        Option::Some(Value::S(u)) => u,
        Option::Some(Value::I(_)) => {
            return Result::Err(ConfigError::WrongType("url".to_owned()));
        },
        Option::None => {
            return Result::Err(ConfigError::MissingField("url".to_owned()));
        },
    };
    let syntax = match find_field(es, &"syntax".to_owned()) {
        Option::Some(Value::S(s)) => Option::Some(s),
        Option::Some(Value::I(_)) => {
            return Result::Err(ConfigError::WrongType("syntax".to_owned()));
        },
        Option::None => Option::None,
    };
    let expires = match find_field(es, &"expires".to_owned()) {
        Option::Some(Value::S(s)) => match Expiry::from_str(&s) {
            Result::Ok(e) => e,
            Result::Err(_) => {
                return Result::Err(ConfigError::BadValue("expires".to_owned()));
            },
        },
        Option::Some(Value::I(_)) => {
            return Result::Err(ConfigError::WrongType("expires".to_owned()));
        },
        Option::None => Expiry::default(),
    };
    Result::Ok(BackendConfig::Bpaste(crate::bpaste::Backend { url, syntax, expires }))
}

fn decode_fiche(es: &Vec<Entry>) -> (r: Result<BackendConfig, ConfigError>)
    ensures
        match r {
            Result::Ok(b) => spec_decode_fiche(entries_model(es@)) == Result::<
                BackendConfigV,
                ConfigErrorV,
            >::Ok(backend_model(b)),
            Result::Err(e) => spec_decode_fiche(entries_model(es@)) == Result::<
                BackendConfigV,
                ConfigErrorV,
            >::Err(err_model(e)),
        },
{
    let allowed = fiche_keys();
    match first_unknown(es, &allowed) {
        Option::Some(k) => {
            return Result::Err(ConfigError::UnknownField(k));
        },
        Option::None => {},
    }
    let domain = match find_field(es, &"domain".to_owned()) {
        Option::Some(Value::S(d)) => d,
        Option::Some(Value::I(_)) => {
            return Result::Err(ConfigError::WrongType("domain".to_owned()));
        },
        Option::None => {
            return Result::Err(ConfigError::MissingField("domain".to_owned()));
        },
    };
    let port = match find_field(es, &"port".to_owned()) {
        Option::Some(Value::I(n)) => {
            if n <= 65535 {
                n as u16
            } else {
                return Result::Err(ConfigError::BadValue("port".to_owned()));
            }
        },
        Option::Some(Value::S(_)) => {
            return Result::Err(ConfigError::WrongType("port".to_owned()));
        },
        Option::None => crate::fiche::default_port(),
    };
    Result::Ok(BackendConfig::Fiche(crate::fiche::Backend { domain, port }))
}

/// Decode one server table into the backend configuration it describes.
pub fn decode_backend(es: &Vec<Entry>) -> (r: Result<BackendConfig, ConfigError>)
    ensures
        match r {
            Result::Ok(b) => spec_decode_backend(entries_model(es@)) == Result::<
                BackendConfigV,
                ConfigErrorV,
            >::Ok(backend_model(b)),
            Result::Err(e) => spec_decode_backend(entries_model(es@)) == Result::<
                BackendConfigV,
                ConfigErrorV,
            >::Err(err_model(e)),
        },
{
    let tag = match find_field(es, &"backend".to_owned()) {
        Option::Some(Value::S(t)) => t,
        Option::Some(Value::I(_)) => {
            return Result::Err(ConfigError::WrongType("backend".to_owned()));
        },
        Option::None => {
            return Result::Err(ConfigError::MissingField("backend".to_owned()));
        },
    };
    if tag == "generic".to_owned() {
        match decode_url_like(es) {
            Result::Ok(u) => Result::Ok(
                BackendConfig::Generic(crate::generic::Backend { url: u }),
            ),
            Result::Err(e) => Result::Err(e),
        }
    } else if tag == "vpaste".to_owned() {
        match decode_url_like(es) {
            Result::Ok(u) => Result::Ok(BackendConfig::Vpaste(crate::vpaste::Backend { url: u })),
            Result::Err(e) => Result::Err(e),
        }
    } else if tag == "haste".to_owned() {
        match decode_url_like(es) {
            Result::Ok(u) => Result::Ok(BackendConfig::Haste(crate::haste::Backend { url: u })),
            Result::Err(e) => Result::Err(e),
        }
    } else if tag == "bpaste".to_owned() {
        decode_bpaste(es)
    } else if tag == "fiche".to_owned() {
        decode_fiche(es)
    } else {
        Result::Err(ConfigError::UnknownBackend(tag))
    }
}

fn decode_main(es: &Vec<Entry>) -> (r: Result<MainConfig, ConfigError>)
    ensures
        match r {
            Result::Ok(mc) => spec_decode_main(entries_model(es@)) == Result::<
                (Option<Seq<char>>, Option<Seq<char>>),
                ConfigErrorV,
            >::Ok((mc.server.deep_view(), mc.histfile.deep_view())),
            Result::Err(e) => spec_decode_main(entries_model(es@)) == Result::<
                (Option<Seq<char>>, Option<Seq<char>>),
                ConfigErrorV,
            >::Err(err_model(e)),
        },
{
    let allowed = main_keys();
    match first_unknown(es, &allowed) {
        Option::Some(k) => {
            return Result::Err(ConfigError::UnknownField(k));
        },
        Option::None => {},
    }
    let server = match find_field(es, &"server".to_owned()) {
        Option::Some(Value::S(s)) => Option::Some(s),
        Option::Some(Value::I(_)) => {
            return Result::Err(ConfigError::WrongType("server".to_owned()));
        },
        Option::None => Option::None,
    };
    let histfile = match find_field(es, &"histfile".to_owned()) {
        Option::Some(Value::S(h)) => Option::Some(h),
        Option::Some(Value::I(_)) => {
            return Result::Err(ConfigError::WrongType("histfile".to_owned()));
        },
        Option::None => Option::None,
    };
    Result::Ok(MainConfig { server, histfile })
}

fn name_in_suffix(doc: &ConfigDoc, from: usize, name: &String) -> (r: bool)
    requires
        from <= doc.servers@.len(),
    ensures
        r == spec_in(spec_block_names(doc_model(*doc).servers).skip(from as int), name@),
{
    let ghost names = spec_block_names(doc_model(*doc).servers);
    let mut j: usize = from;
    while j < doc.servers.len()
        invariant
            from <= j <= doc.servers@.len(),
            names == spec_block_names(doc_model(*doc).servers),
            names.len() == doc.servers@.len(),
            forall|t: int| from <= t < j ==> (#[trigger] names[t]) != name@,
        decreases doc.servers@.len() - j,
    {
        proof {
            assert(doc_model(*doc).servers[j as int] == (
                doc.servers@[j as int].0@,
                entries_model(doc.servers@[j as int].1@),
            ));
            assert(names[j as int] == doc_model(*doc).servers[j as int].0);
        }
        if doc.servers[j].0 == *name {
            proof {
                assert(names.skip(from as int)[j as int - from] == names[j as int]);
            }
            return true;
        }
        j = j + 1;
    }
    proof {
        assert forall|i: int|
            0 <= i < names.skip(from as int).len() implies (#[trigger] names.skip(from as int)[i])
            != name@ by {
            assert(names.skip(from as int)[i] == names[from + i]);
        }
    }
    false
}

/// Decode a whole persisted configuration.
pub fn decode_config(doc: &ConfigDoc) -> (r: Result<Config, ConfigError>)
    ensures
        match r {
            Result::Ok(c) => spec_decode_config(doc_model(*doc)) == Result::<
                ConfigV,
                ConfigErrorV,
            >::Ok(config_model(c)),
            Result::Err(e) => spec_decode_config(doc_model(*doc)) == Result::<
                ConfigV,
                ConfigErrorV,
            >::Err(err_model(e)),
        },
{
    let main = match decode_main(&doc.main) {
        Result::Ok(mc) => mc,
        Result::Err(e) => {
            return Result::Err(e);
        },
    };
    let ghost dm = doc_model(*doc);
    let ghost names = spec_block_names(dm.servers);
    proof {
        assert(dm.servers.skip(0) =~= dm.servers);
        assert(names.skip(0) =~= names);
    }
    let mut d: usize = 0;
    while d < doc.servers.len()
        invariant
            0 <= d <= doc.servers@.len(),
            dm == doc_model(*doc),
            names == spec_block_names(dm.servers),
            names.len() == doc.servers@.len(),
            spec_decode_main(dm.main) == Result::<
                (Option<Seq<char>>, Option<Seq<char>>),
                ConfigErrorV,
            >::Ok((main.server.deep_view(), main.histfile.deep_view())),
            spec_first_dup(names) == spec_first_dup(names.skip(d as int)),
        decreases doc.servers@.len() - d,
    {
        proof {
            assert(dm.servers[d as int] == (
                doc.servers@[d as int].0@,
                entries_model(doc.servers@[d as int].1@),
            ));
            assert(names.skip(d as int)[0] == names[d as int]);
            assert(names[d as int] == dm.servers[d as int].0);
            assert(names.skip(d as int).drop_first() =~= names.skip(d as int + 1));
        }
        if name_in_suffix(doc, d + 1, &doc.servers[d].0) {
            return Result::Err(ConfigError::DuplicateServer(doc.servers[d].0.clone()));
        }
        d = d + 1;
    }
    proof {
        assert(names.skip(d as int) =~= Seq::<Seq<char>>::empty());
    }
    let mut servers: Vec<ServerBlock> = Vec::new();
    let mut i: usize = 0;
    while i < doc.servers.len()
        invariant
            0 <= i <= doc.servers@.len(),
            dm == doc_model(*doc),
            dm.servers.len() == doc.servers@.len(),
            servers@.len() == i,
            spec_first_dup(spec_block_names(dm.servers)) is None,
            spec_decode_main(dm.main) == Result::<
                (Option<Seq<char>>, Option<Seq<char>>),
                ConfigErrorV,
            >::Ok((main.server.deep_view(), main.histfile.deep_view())),
            match spec_decode_blocks(dm.servers.skip(i as int)) {
                Result::Ok(rest) => spec_decode_blocks(dm.servers) == Result::<
                    Seq<(Seq<char>, BackendConfigV)>,
                    ConfigErrorV,
                >::Ok(
                    servers@.map_values(|b: ServerBlock| (b.name@, backend_model(b.backend)))
                        + rest,
                ),
                Result::Err(e) => spec_decode_blocks(dm.servers) == Result::<
                    Seq<(Seq<char>, BackendConfigV)>,
                    ConfigErrorV,
                >::Err(e),
            },
        decreases doc.servers@.len() - i,
    {
        proof {
            assert(dm.servers.skip(i as int)[0] == (
                doc.servers@[i as int].0@,
                entries_model(doc.servers@[i as int].1@),
            ));
            assert(dm.servers.skip(i as int).drop_first() =~= dm.servers.skip(i as int + 1));
        }
        let ghost servers_old = servers@;
        match decode_backend(&doc.servers[i].1) {
            Result::Ok(b) => {
                servers.push(ServerBlock { name: doc.servers[i].0.clone(), backend: b });
            },
            Result::Err(e) => {
                proof {
                    assert(spec_decode_blocks(dm.servers.skip(i as int)) == Result::<
                        Seq<(Seq<char>, BackendConfigV)>,
                        ConfigErrorV,
                    >::Err(err_model(e)));
                }
                return Result::Err(e);
            },
        }
        proof {
            let f = |b: ServerBlock| (b.name@, backend_model(b.backend));
            assert(servers@.map_values(f) =~= servers_old.map_values(f) + seq![
                (doc.servers@[i as int].0@, backend_model(servers@.last().backend)),
            ]);
            match spec_decode_blocks(dm.servers.skip(i as int + 1)) {
                Result::Ok(rest) => {
                    assert(servers_old.map_values(f) + (seq![
                        (dm.servers.skip(i as int)[0].0, backend_model(servers@.last().backend)),
                    ] + rest) =~= servers@.map_values(f) + rest);
                },
                Result::Err(_) => {},
            }
        }
        i = i + 1;
    }
    proof {
        assert(dm.servers.skip(i as int) =~= Seq::empty());
        let f = |b: ServerBlock| (b.name@, backend_model(b.backend));
        assert(servers@.map_values(f) + Seq::empty() =~= servers@.map_values(f));
    }
    Result::Ok(Config { main, servers })
}

/// Encode one backend configuration canonically.
pub fn encode_backend(b: &BackendConfig) -> (r: Vec<Entry>)
    ensures
        entries_model(r@) == spec_encode_backend(backend_model(*b)),
{
    let mut out: Vec<Entry> = Vec::new();
    match b {
        BackendConfig::Generic(g) => {
            out.push(Entry { key: "backend".to_owned(), value: Value::S("generic".to_owned()) });
            out.push(Entry { key: "url".to_owned(), value: Value::S(g.url.clone()) });
        },
        BackendConfig::Vpaste(v) => {
            out.push(Entry { key: "backend".to_owned(), value: Value::S("vpaste".to_owned()) });
            out.push(Entry { key: "url".to_owned(), value: Value::S(v.url.clone()) });
        },
        BackendConfig::Haste(h) => {
            out.push(Entry { key: "backend".to_owned(), value: Value::S("haste".to_owned()) });
            out.push(Entry { key: "url".to_owned(), value: Value::S(h.url.clone()) });
        },
        BackendConfig::Bpaste(bb) => {
            out.push(Entry { key: "backend".to_owned(), value: Value::S("bpaste".to_owned()) });
            out.push(Entry { key: "url".to_owned(), value: Value::S(bb.url.clone()) });
            match &bb.syntax {
                Option::Some(s) => {
                    out.push(Entry { key: "syntax".to_owned(), value: Value::S(s.clone()) });
                },
                Option::None => {},
            }
            out.push(
                Entry {
                    key: "expires".to_owned(),
                    value: Value::S(bb.expires.wire_str().to_owned()),
                },
            );
        },
        BackendConfig::Fiche(f) => {
            out.push(Entry { key: "backend".to_owned(), value: Value::S("fiche".to_owned()) });
            out.push(Entry { key: "domain".to_owned(), value: Value::S(f.domain.clone()) });
            out.push(Entry { key: "port".to_owned(), value: Value::I(f.port as u64) });
        },
    }
    proof {
        assert(entries_model(out@) =~= spec_encode_backend(backend_model(*b)));
    }
    out
}

/// Encode a whole configuration canonically.
pub fn encode_config(c: &Config) -> (r: ConfigDoc)
    ensures
        doc_model(r) == spec_encode_config(config_model(*c)),
{
    let mut main: Vec<Entry> = Vec::new();
    match &c.main.server {
        Option::Some(s) => {
            main.push(Entry { key: "server".to_owned(), value: Value::S(s.clone()) });
        },
        Option::None => {},
    }
    match &c.main.histfile {
        Option::Some(h) => {
            main.push(Entry { key: "histfile".to_owned(), value: Value::S(h.clone()) });
        },
        Option::None => {},
    }
    proof {
        assert(entries_model(main@) =~= spec_encode_main(
            c.main.server.deep_view(),
            c.main.histfile.deep_view(),
        ));
    }
    let mut servers: Vec<(String, Vec<Entry>)> = Vec::new();
    let mut i: usize = 0;
    while i < c.servers.len()
        invariant
            0 <= i <= c.servers@.len(),
            servers@.len() == i,
            forall|j: int|
                0 <= j < i ==> (#[trigger] servers@[j]).0@ == c.servers@[j].name@
                    && entries_model(servers@[j].1@) == spec_encode_backend(
                    backend_model(c.servers@[j].backend),
                ),
        decreases c.servers@.len() - i,
    {
        let block = encode_backend(&c.servers[i].backend);
        servers.push((c.servers[i].name.clone(), block));
        i = i + 1;
    }
    let out = ConfigDoc { main, servers };
    proof {
        assert(doc_model(out).servers =~= spec_encode_config(config_model(*c)).servers);
    }
    out
}

/// The keys one variant's table may carry.
pub open spec fn spec_variant_keys(v: BackendConfigV) -> Seq<Seq<char>> {
    match v {
        BackendConfigV::Generic { .. } => spec_url_like_keys(),
        BackendConfigV::Vpaste { .. } => spec_url_like_keys(),
        BackendConfigV::Haste { .. } => spec_url_like_keys(),
        BackendConfigV::Bpaste { .. } => spec_bpaste_keys(),
        BackendConfigV::Fiche { .. } => spec_fiche_keys(),
    }
}

proof fn lemma_no_unknown_all_known(es: Seq<EntryV>, allowed: Seq<Seq<char>>, i: int)
    requires
        spec_first_unknown(es, allowed) is None,
        0 <= i < es.len(),
    ensures
        spec_in(allowed, es[i].key),
    decreases es.len(),
{
    if i > 0 {
        lemma_no_unknown_all_known(es.drop_first(), allowed, i - 1);
        assert(es.drop_first()[i - 1] == es[i]);
    }
}

proof fn lemma_url_like_decode(m: Seq<EntryV>, url: Seq<char>)
    requires
        m.len() == 2,
        m[0].key == "backend"@,
        m[1] == (EntryV { key: "url"@, value: ValueV::S(url) }),
    ensures
        spec_decode_url(m) == Result::<Seq<char>, ConfigErrorV>::Ok(url),
{
    reveal_strlit("backend");
    reveal_strlit("url");
    assert("backend"@.len() == 7);
    assert("url"@.len() == 3);
    let keys = spec_url_like_keys();
    assert(m.drop_first() =~= seq![m[1]]);
    assert(m.drop_first().drop_first() =~= Seq::<EntryV>::empty());
    assert(keys[0] == "backend"@);
    assert(spec_in(keys, "backend"@));
    assert(keys[1] == "url"@);
    assert(spec_in(keys, "url"@));
    assert(spec_first_unknown(m.drop_first().drop_first(), keys) is None);
    assert(spec_first_unknown(m.drop_first(), keys) is None);
    assert(spec_first_unknown(m, keys) is None);
    assert("backend"@ != "url"@);
    assert(spec_find(m.drop_first(), "url"@) == Option::Some(ValueV::S(url)));
    assert(spec_find(m, "url"@) == Option::Some(ValueV::S(url)));
}

proof fn lemma_bpaste_decode(m: Seq<EntryV>, url: Seq<char>, syntax: Option<Seq<char>>, e: Expiry)
    requires
        m == spec_encode_backend(BackendConfigV::Bpaste { url, syntax, expires: e }),
    ensures
        spec_decode_bpaste(m) == Result::<BackendConfigV, ConfigErrorV>::Ok(
            BackendConfigV::Bpaste { url, syntax, expires: e },
        ),
{
    reveal_strlit("backend");
    reveal_strlit("url");
    reveal_strlit("syntax");
    reveal_strlit("expires");
    reveal_strlit("1day");
    reveal_strlit("1week");
    assert("backend"@.len() == 7);
    assert("url"@.len() == 3);
    assert("syntax"@.len() == 6);
    assert("expires"@.len() == 7);
    assert("backend"@[0] == 'b');
    assert("expires"@[0] == 'e');
    assert("1day"@.len() == 4);
    assert("1week"@.len() == 5);
    let keys = spec_bpaste_keys();
    assert(keys[0] == "backend"@ && keys[1] == "url"@ && keys[2] == "syntax"@ && keys[3]
        == "expires"@);
    assert(spec_in(keys, "backend"@));
    assert(spec_in(keys, "url"@));
    assert(spec_in(keys, "syntax"@));
    assert(spec_in(keys, "expires"@));
    assert("backend"@ != "url"@ && "backend"@ != "syntax"@ && "backend"@ != "expires"@);
    assert("url"@ != "syntax"@ && "url"@ != "expires"@ && "syntax"@ != "expires"@);
    assert(Expiry::spec_from_wire(e.spec_wire()) == Option::Some(e));
    match syntax {
        Option::Some(s) => {
            let b = EntryV { key: "backend"@, value: ValueV::S("bpaste"@) };
            let u = EntryV { key: "url"@, value: ValueV::S(url) };
            let sy = EntryV { key: "syntax"@, value: ValueV::S(s) };
            let ex = EntryV { key: "expires"@, value: ValueV::S(e.spec_wire()) };
            assert(m =~= seq![b, u, sy, ex]);
            let m1 = m.drop_first();
            let m2 = m1.drop_first();
            let m3 = m2.drop_first();
            let m4 = m3.drop_first();
            assert(m1 =~= seq![u, sy, ex]);
            assert(m2 =~= seq![sy, ex]);
            assert(m3 =~= seq![ex]);
            assert(m4 =~= Seq::<EntryV>::empty());
            assert(spec_first_unknown(m4, keys) is None);
            assert(spec_first_unknown(m3, keys) is None);
            assert(spec_first_unknown(m2, keys) is None);
            assert(spec_first_unknown(m1, keys) is None);
            assert(spec_first_unknown(m, keys) is None);
            assert(spec_find(m1, "url"@) == Option::Some(ValueV::S(url)));
            assert(spec_find(m, "url"@) == Option::Some(ValueV::S(url)));
            assert(spec_find(m2, "syntax"@) == Option::Some(ValueV::S(s)));
            assert(spec_find(m1, "syntax"@) == Option::Some(ValueV::S(s)));
            assert(spec_find(m, "syntax"@) == Option::Some(ValueV::S(s)));
            assert(spec_find(m3, "expires"@) == Option::Some(ValueV::S(e.spec_wire())));
            assert(spec_find(m2, "expires"@) == Option::Some(ValueV::S(e.spec_wire())));
            assert(spec_find(m1, "expires"@) == Option::Some(ValueV::S(e.spec_wire())));
            assert(spec_find(m, "expires"@) == Option::Some(ValueV::S(e.spec_wire())));
        },
        Option::None => {
            let b = EntryV { key: "backend"@, value: ValueV::S("bpaste"@) };
            let u = EntryV { key: "url"@, value: ValueV::S(url) };
            let ex = EntryV { key: "expires"@, value: ValueV::S(e.spec_wire()) };
            assert(m =~= seq![b, u, ex]);
            let m1 = m.drop_first();
            let m2 = m1.drop_first();
            let m3 = m2.drop_first();
            assert(m1 =~= seq![u, ex]);
            assert(m2 =~= seq![ex]);
            assert(m3 =~= Seq::<EntryV>::empty());
            assert(spec_first_unknown(m3, keys) is None);
            assert(spec_first_unknown(m2, keys) is None);
            assert(spec_first_unknown(m1, keys) is None);
            assert(spec_first_unknown(m, keys) is None);
            assert(spec_find(m1, "url"@) == Option::Some(ValueV::S(url)));
            assert(spec_find(m, "url"@) == Option::Some(ValueV::S(url)));
            assert(spec_find(m3, "syntax"@) is None);
            assert(spec_find(m2, "syntax"@) is None);
            assert(spec_find(m1, "syntax"@) is None);
            assert(spec_find(m, "syntax"@) is None);
            assert(spec_find(m2, "expires"@) == Option::Some(ValueV::S(e.spec_wire())));
            assert(spec_find(m1, "expires"@) == Option::Some(ValueV::S(e.spec_wire())));
            assert(spec_find(m, "expires"@) == Option::Some(ValueV::S(e.spec_wire())));
        },
    }
}

proof fn lemma_fiche_decode(m: Seq<EntryV>, domain: Seq<char>, port: u16)
    requires
        m == spec_encode_backend(BackendConfigV::Fiche { domain, port }),
    ensures
        spec_decode_fiche(m) == Result::<BackendConfigV, ConfigErrorV>::Ok(
            BackendConfigV::Fiche { domain, port },
        ),
{
    reveal_strlit("backend");
    reveal_strlit("domain");
    reveal_strlit("port");
    assert("backend"@.len() == 7);
    assert("domain"@.len() == 6);
    assert("port"@.len() == 4);
    let keys = spec_fiche_keys();
    assert(keys[0] == "backend"@ && keys[1] == "domain"@ && keys[2] == "port"@);
    assert(spec_in(keys, "backend"@));
    assert(spec_in(keys, "domain"@));
    assert(spec_in(keys, "port"@));
    assert("backend"@ != "domain"@ && "backend"@ != "port"@ && "domain"@ != "port"@);
    let m1 = m.drop_first();
    let m2 = m1.drop_first();
    let m3 = m2.drop_first();
    assert(m1 =~= seq![m[1], m[2]]);
    assert(m2 =~= seq![m[2]]);
    assert(m3 =~= Seq::<EntryV>::empty());
    assert(spec_first_unknown(m3, keys) is None);
    assert(spec_first_unknown(m2, keys) is None);
    assert(spec_first_unknown(m1, keys) is None);
    assert(spec_first_unknown(m, keys) is None);
    assert(spec_find(m1, "domain"@) == Option::Some(ValueV::S(domain)));
    assert(spec_find(m, "domain"@) == Option::Some(ValueV::S(domain)));
    assert(spec_find(m2, "port"@) == Option::Some(ValueV::I(port as u64)));
    assert(spec_find(m1, "port"@) == Option::Some(ValueV::I(port as u64)));
    assert(spec_find(m, "port"@) == Option::Some(ValueV::I(port as u64)));
    assert(port as u64 <= 65535);
    assert((port as u64) as u16 == port);
}

/// Law (round trip): decoding the canonical encoding of any backend
/// configuration yields that configuration back, field for field.
pub proof fn lemma_backend_round_trip(v: BackendConfigV)
    ensures
        spec_decode_backend(spec_encode_backend(v)) == Result::<BackendConfigV, ConfigErrorV>::Ok(
            v,
        ),
{
    reveal_strlit("backend");
    reveal_strlit("generic");
    reveal_strlit("vpaste");
    reveal_strlit("haste");
    reveal_strlit("bpaste");
    reveal_strlit("fiche");
    assert("generic"@.len() == 7);
    assert("vpaste"@.len() == 6);
    assert("haste"@.len() == 5);
    assert("bpaste"@.len() == 6);
    assert("fiche"@.len() == 5);
    assert("vpaste"@[0] == 'v');
    assert("bpaste"@[0] == 'b');
    assert("haste"@[0] == 'h');
    assert("fiche"@[0] == 'f');
    let m = spec_encode_backend(v);
    match v {
        BackendConfigV::Generic { url } => {
            assert(spec_find(m, "backend"@) == Option::Some(ValueV::S("generic"@)));
            lemma_url_like_decode(m, url);
        },
        BackendConfigV::Vpaste { url } => {
            assert(spec_find(m, "backend"@) == Option::Some(ValueV::S("vpaste"@)));
            assert("vpaste"@ != "generic"@);
            lemma_url_like_decode(m, url);
        },
        BackendConfigV::Haste { url } => {
            assert(spec_find(m, "backend"@) == Option::Some(ValueV::S("haste"@)));
            assert("haste"@ != "generic"@ && "haste"@ != "vpaste"@);
            lemma_url_like_decode(m, url);
        },
        BackendConfigV::Bpaste { url, syntax, expires } => {
            assert(m[0] == (EntryV { key: "backend"@, value: ValueV::S("bpaste"@) }));
            assert(spec_find(m, "backend"@) == Option::Some(ValueV::S("bpaste"@)));
            assert("bpaste"@ != "generic"@ && "bpaste"@ != "vpaste"@ && "bpaste"@ != "haste"@);
            lemma_bpaste_decode(m, url, syntax, expires);
        },
        BackendConfigV::Fiche { domain, port } => {
            assert(spec_find(m, "backend"@) == Option::Some(ValueV::S("fiche"@)));
            assert("fiche"@ != "generic"@ && "fiche"@ != "vpaste"@ && "fiche"@ != "haste"@
                && "fiche"@ != "bpaste"@);
            lemma_fiche_decode(m, domain, port);
        },
    }
}

proof fn lemma_main_round_trip(server: Option<Seq<char>>, histfile: Option<Seq<char>>)
    ensures
        spec_decode_main(spec_encode_main(server, histfile)) == Result::<
            (Option<Seq<char>>, Option<Seq<char>>),
            ConfigErrorV,
        >::Ok((server, histfile)),
{
    reveal_strlit("server");
    reveal_strlit("histfile");
    assert("server"@.len() == 6);
    assert("histfile"@.len() == 8);
    let keys = spec_main_keys();
    assert(keys[0] == "server"@ && keys[1] == "histfile"@);
    assert(spec_in(keys, "server"@));
    assert(spec_in(keys, "histfile"@));
    assert("server"@ != "histfile"@);
    let m = spec_encode_main(server, histfile);
    match (server, histfile) {
        (Option::Some(s), Option::Some(h)) => {
            let se = EntryV { key: "server"@, value: ValueV::S(s) };
            let he = EntryV { key: "histfile"@, value: ValueV::S(h) };
            assert(m =~= seq![se, he]);
            assert(m.drop_first() =~= seq![he]);
            assert(m.drop_first().drop_first() =~= Seq::<EntryV>::empty());
            assert(spec_first_unknown(m.drop_first().drop_first(), keys) is None);
            assert(spec_first_unknown(m.drop_first(), keys) is None);
            assert(spec_first_unknown(m, keys) is None);
            assert(spec_find(m, "server"@) == Option::Some(ValueV::S(s)));
            assert(spec_find(m.drop_first(), "histfile"@) == Option::Some(ValueV::S(h)));
            assert(spec_find(m, "histfile"@) == Option::Some(ValueV::S(h)));
        },
        (Option::Some(s), Option::None) => {
            let se = EntryV { key: "server"@, value: ValueV::S(s) };
            assert(m =~= seq![se]);
            assert(m.drop_first() =~= Seq::<EntryV>::empty());
            assert(spec_first_unknown(m.drop_first(), keys) is None);
            assert(spec_first_unknown(m, keys) is None);
            assert(spec_find(m, "server"@) == Option::Some(ValueV::S(s)));
            assert(spec_find(m.drop_first(), "histfile"@) is None);
            assert(spec_find(m, "histfile"@) is None);
        },
        (Option::None, Option::Some(h)) => {
            let he = EntryV { key: "histfile"@, value: ValueV::S(h) };
            assert(m =~= seq![he]);
            assert(m.drop_first() =~= Seq::<EntryV>::empty());
            assert(spec_first_unknown(m.drop_first(), keys) is None);
            assert(spec_first_unknown(m, keys) is None);
            assert(spec_find(m.drop_first(), "server"@) is None);
            assert(spec_find(m, "server"@) is None);
            assert(spec_find(m, "histfile"@) == Option::Some(ValueV::S(h)));
        },
        (Option::None, Option::None) => {
            assert(m =~= Seq::<EntryV>::empty());
            assert(spec_first_unknown(m, keys) is None);
            assert(spec_find(m, "server"@) is None);
            assert(spec_find(m, "histfile"@) is None);
        },
    }
}

proof fn lemma_blocks_round_trip(bs: Seq<(Seq<char>, BackendConfigV)>)
    ensures
        spec_decode_blocks(
            bs.map_values(|p: (Seq<char>, BackendConfigV)| (p.0, spec_encode_backend(p.1))),
        ) == Result::<Seq<(Seq<char>, BackendConfigV)>, ConfigErrorV>::Ok(bs),
    decreases bs.len(),
{
    let f = |p: (Seq<char>, BackendConfigV)| (p.0, spec_encode_backend(p.1));
    let enc = bs.map_values(f);
    if bs.len() == 0 {
        assert(enc =~= Seq::<(Seq<char>, Seq<EntryV>)>::empty());
        assert(bs =~= Seq::<(Seq<char>, BackendConfigV)>::empty());
    } else {
        lemma_backend_round_trip(bs[0].1);
        lemma_blocks_round_trip(bs.drop_first());
        assert(bs.drop_first().map_values(f) =~= enc.drop_first());
        assert(enc[0] == (bs[0].0, spec_encode_backend(bs[0].1)));
        assert(seq![(enc[0].0, bs[0].1)] + bs.drop_first() =~= bs);
    }
}

/// The names of a configuration's server blocks, in order.
pub open spec fn spec_config_names(v: ConfigV) -> Seq<Seq<char>> {
    v.servers.map_values(|p: (Seq<char>, BackendConfigV)| p.0)
}

/// Law (round trip): decoding the canonical encoding of any whole
/// configuration whose server names are unique — the one invariant a
/// configuration carries, which decoding enforces — yields that
/// configuration back, field for field.
pub proof fn lemma_config_round_trip(v: ConfigV)
    requires
        spec_first_dup(spec_config_names(v)) is None,
    ensures
        spec_decode_config(spec_encode_config(v)) == Result::<ConfigV, ConfigErrorV>::Ok(v),
{
    lemma_main_round_trip(v.server, v.histfile);
    lemma_blocks_round_trip(v.servers);
    let f = |p: (Seq<char>, BackendConfigV)| (p.0, spec_encode_backend(p.1));
    assert(spec_encode_config(v).servers =~= v.servers.map_values(f));
    assert(spec_block_names(spec_encode_config(v).servers) =~= spec_config_names(v));
}

/// Law (fail-closed): a table decodes successfully only when every one of
/// its keys is among the keys its variant knows; an extra unrecognized
/// field always makes decoding fail, for every variant.
pub proof fn lemma_fail_closed(m: Seq<EntryV>, v: BackendConfigV, i: int)
    requires
        spec_decode_backend(m) == Result::<BackendConfigV, ConfigErrorV>::Ok(v),
        0 <= i < m.len(),
    ensures
        spec_in(spec_variant_keys(v), m[i].key),
{
    match spec_find(m, "backend"@) {
        Option::Some(ValueV::S(tag)) => {
            if tag == "generic"@ || tag == "vpaste"@ || tag == "haste"@ {
                lemma_no_unknown_all_known(m, spec_url_like_keys(), i);
            } else if tag == "bpaste"@ {
                lemma_no_unknown_all_known(m, spec_bpaste_keys(), i);
            } else if tag == "fiche"@ {
                lemma_no_unknown_all_known(m, spec_fiche_keys(), i);
            } else {
                assert(false);
            }
        },
        _ => {
            assert(false);
        },
    }
}

} // verus!


