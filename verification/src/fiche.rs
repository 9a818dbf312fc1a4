//! The raw-TCP line protocol: connect to domain:port, write the whole text,
//! read until the peer closes, then strip NUL padding and trailing
//! whitespace and read what is left as the paste's URL.

use vstd::prelude::*;
use vstd::string::StrSliceExecFns;
use vstd::string::StringExecFns;

use crate::flags::{
    defs_model, fold_one, missing_msg, parse_flags, spec_fold_one, spec_missing_msg, spec_parse,
    spec_unknown_msg, unknown_msg, FlagDef, FlagsOutcome, FlagsOutcomeV,
};
use crate::overrides::{
    is_sentinel, override_if_present, override_string_with_none, spec_override_string,
    spec_sentinel,
};
use crate::types::{ApplyOutcome, PasteError, PasteRequest};
use crate::urls::{parse_url, url_parse};

verus! {

pub const NAME: &'static str = "fiche";

pub const INFO: &'static str = "Fiche backend.\nSupports any servers running fiche <https://github.com/solusipse/fiche>.\n(for example: termbin.com)\n\nExample config block:\n\n    [servers.termbin]\n    backend = \"fiche\"\n    domain = \"termbin.com\"\n\n    # Optional values\n\n    # default port if missing is 9999\n    port = 9999\n";

/// The port used when none is configured.
pub open spec fn spec_default_port() -> u16 {
    9999
}

pub fn default_port() -> (r: u16)
    ensures
        r == spec_default_port(),
{
    9999
}

/// Configuration of one fiche server block.
#[derive(Debug, Clone)]
pub struct Backend {
    pub domain: String,
    pub port: u16,
}

/// Per-invocation overrides accepted by this backend.
#[derive(Debug, Clone)]
pub struct Opt {
    pub domain: Option<String>,
    pub port: Option<u16>,
}

pub open spec fn spec_fiche_defs() -> Seq<(Seq<char>, Seq<char>)> {
    seq![("-d"@, "--domain"@), ("-p"@, "--port"@)]
}

fn fiche_defs() -> (r: Vec<FlagDef>)
    ensures
        defs_model(r@) == spec_fiche_defs(),
{
    let mut v: Vec<FlagDef> = Vec::new();
    v.push(FlagDef { short: "-d".to_owned(), long: "--domain".to_owned() });
    v.push(FlagDef { short: "-p".to_owned(), long: "--port".to_owned() });
    proof {
        assert(defs_model(v@) =~= spec_fiche_defs());
    }
    v
}

pub open spec fn spec_usage() -> Seq<char> {
    "fiche backend\n\nFLAGS:\n    -d, --domain <domain|NONE>    overrides domain set in config\n    -p, --port <port|NONE>        overrides port set in config\n"@
}

pub fn usage() -> (r: String)
    ensures
        r@ == spec_usage(),
{
    "fiche backend\n\nFLAGS:\n    -d, --domain <domain|NONE>    overrides domain set in config\n    -p, --port <port|NONE>        overrides port set in config\n".to_owned()
}

/// Decimal digits of `n`, most significant first.
pub open spec fn spec_dec(n: int) -> Seq<char>
    recommends
        n >= 0,
    decreases n,
{
    if n < 10 {
        seq![spec_digit_char(n)]
    } else {
        spec_dec(n / 10) + seq![spec_digit_char(n % 10)]
    }
}

pub open spec fn spec_digit_char(d: int) -> char
    recommends
        0 <= d <= 9,
{
    if d == 0 {
        '0'
    } else if d == 1 {
        '1'
    } else if d == 2 {
        '2'
    } else if d == 3 {
        '3'
    } else if d == 4 {
        '4'
    } else if d == 5 {
        '5'
    } else if d == 6 {
        '6'
    } else if d == 7 {
        '7'
    } else if d == 8 {
        '8'
    } else {
        '9'
    }
}

fn digit_str(d: u16) -> (r: &'static str)
    requires
        d <= 9,
    ensures
        r@ == seq![spec_digit_char(d as int)],
{
    let s = if d == 0 {
        "0"
    } else if d == 1 {
        "1"
    } else if d == 2 {
        "2"
    } else if d == 3 {
        "3"
    } else if d == 4 {
        "4"
    } else if d == 5 {
        "5"
    } else if d == 6 {
        "6"
    } else if d == 7 {
        "7"
    } else if d == 8 {
        "8"
    } else {
        "9"
    };
    proof {
        reveal_strlit("0");
        reveal_strlit("1");
        reveal_strlit("2");
        reveal_strlit("3");
        reveal_strlit("4");
        reveal_strlit("5");
        reveal_strlit("6");
        reveal_strlit("7");
        reveal_strlit("8");
        reveal_strlit("9");
        assert(s@ =~= seq![spec_digit_char(d as int)]);
    }
    s
}

fn push_dec(s: &mut String, n: u16)
    ensures
        final(s)@ == old(s)@ + spec_dec(n as int),
    decreases n,
{
    if n >= 10 {
        push_dec(s, n / 10);
    }
    s.append(digit_str(n % 10));
    proof {
        if n >= 10 {
            assert(old(s)@ + spec_dec(n as int) =~= (old(s)@ + spec_dec(n as int / 10)) + seq![
                spec_digit_char(n as int % 10),
            ]);
        } else {
            assert(old(s)@ + spec_dec(n as int) =~= old(s)@ + seq![spec_digit_char(n as int)]);
        }
    }
}

/// Decimal digits a string denotes, when it is nothing but digits and the
/// value fits a port number.
pub open spec fn spec_parse_u16_rec(s: Seq<char>, i: int, acc: int) -> Option<int>
    decreases s.len() - i,
{
    if i < 0 || i >= s.len() {
        Option::Some(acc)
    } else if '0' <= s[i] <= '9' {
        let a2 = acc * 10 + (s[i] as int - '0' as int);
        if a2 > 65535 {
            Option::None
        } else {
            spec_parse_u16_rec(s, i + 1, a2)
        }
    } else {
        Option::None
    }
}

pub open spec fn spec_parse_u16(s: Seq<char>) -> Option<u16> {
    if s.len() == 0 {
        Option::None
    } else {
        match spec_parse_u16_rec(s, 0, 0) {
            Option::Some(v) => Option::Some(v as u16),
            Option::None => Option::None,
        }
    }
}

pub fn parse_u16(s: &String) -> (r: Option<u16>)
    ensures
        r == spec_parse_u16(s@),
{
    let st = s.as_str();
    let n = st.unicode_len();
    if n == 0 {
        return Option::None;
    }
    let mut acc: u32 = 0;
    let mut i: usize = 0;
    while i < n
        invariant
            0 <= i <= n,
            n == st@.len(),
            st@ == s@,
            acc <= 65535,
            spec_parse_u16_rec(s@, 0, 0) == spec_parse_u16_rec(s@, i as int, acc as int),
        decreases n - i,
    {
        let c = st.get_char(i);
        if c < '0' || c > '9' {
            return Option::None;
        }
        let d: u32 = c as u32 - '0' as u32;
        let a2: u32 = acc * 10 + d;
        if a2 > 65535 {
            return Option::None;
        }
        acc = a2;
        i = i + 1;
    }
    Option::Some(acc as u16)
}

/// The message for a port override that is not a port number.
pub open spec fn spec_port_err(s: Seq<char>) -> Seq<char> {
    "Invalid value for --port: "@ + s
}

fn port_err(s: &String) -> (r: String)
    ensures
        r@ == spec_port_err(s@),
{
    let mut m = "Invalid value for --port: ".to_owned();
    m.append(s.as_str());
    m
}

/// The merge rule for the port override: absent keeps the current value,
/// the sentinel resets to the default port, a decimal port replaces it,
/// anything else is the parse error.
pub open spec fn spec_port_merged(cur: u16, sup: Option<Seq<char>>) -> Result<u16, Seq<char>> {
    match sup {
        Option::None => Result::Ok(cur),
        Option::Some(s) => if s == spec_sentinel() {
            Result::Ok(spec_default_port())
        } else {
            match spec_parse_u16(s) {
                Option::Some(p) => Result::Ok(p),
                Option::None => Result::Err(spec_port_err(s)),
            }
        },
    }
}

/// What `apply_args` must do.
pub open spec fn spec_apply_outcome(
    prev: Backend,
    args: Seq<Seq<char>>,
    r: ApplyOutcome,
    next: Backend,
) -> bool {
    match spec_parse(spec_fiche_defs(), args, 0) {
        FlagsOutcomeV::Help => next == prev && (r matches ApplyOutcome::Help(t) && t@
            == spec_usage()),
        FlagsOutcomeV::Unknown(tok) => next == prev && (r matches ApplyOutcome::Invalid(m) && m@
            == spec_unknown_msg(tok)),
        FlagsOutcomeV::MissingValue(tok) => next == prev && (r matches ApplyOutcome::Invalid(m)
            && m@ == spec_missing_msg(tok)),
        FlagsOutcomeV::Pairs(ps) => match spec_port_merged(
            prev.port,
            spec_fold_one(Option::None, ps, 1),
        ) {
            Result::Ok(p) => (r matches ApplyOutcome::Applied) && next.domain@
                == spec_override_string(prev.domain@, spec_fold_one(Option::None, ps, 0))
                && next.port == p,
            Result::Err(m) => next == prev && (r matches ApplyOutcome::Invalid(mm) && mm@ == m),
        },
    }
}

impl Backend {
    /// Overlay per-invocation flags onto this configuration. On a malformed
    /// port the configuration is left untouched.
    pub fn apply_args(&mut self, args: &Vec<String>) -> (r: ApplyOutcome)
        ensures
            spec_apply_outcome(*old(self), args.deep_view(), r, *final(self)),
    {
        let defs = fiche_defs();
        match parse_flags(&defs, args) {
            FlagsOutcome::Help => ApplyOutcome::Help(usage()),
            FlagsOutcome::Unknown(t) => ApplyOutcome::Invalid(unknown_msg(&t)),
            FlagsOutcome::MissingValue(t) => ApplyOutcome::Invalid(missing_msg(&t)),
            FlagsOutcome::Pairs(ps) => {
                let dom = fold_one(&ps, 0);
                let prt = fold_one(&ps, 1);
                let port = match prt {
                    Option::Some(s) => {
                        if is_sentinel(&s) {
                            Option::Some(default_port())
                        } else {
                            match parse_u16(&s) {
                                Option::Some(p) => Option::Some(p),
                                Option::None => {
                                    return ApplyOutcome::Invalid(port_err(&s));
                                },
                            }
                        }
                    },
                    Option::None => Option::None,
                };
                let o = Opt { domain: dom, port };
                override_string_with_none(&mut self.domain, o.domain);
                override_if_present(&mut self.port, o.port);
                ApplyOutcome::Applied
            },
        }
    }

    /// Shape the one exchange this protocol makes: the text as the payload.
    pub fn prepare(&self, data: String) -> (r: PasteRequest)
        ensures
            (r matches PasteRequest::Tcp { domain, port, payload } && domain@ == self.domain@
                && port == self.port && payload@ == data@),
    {
        PasteRequest::Tcp { domain: self.domain.clone(), port: self.port, payload: data }
    }

    /// Decide what the peer's response means: after stripping NUL padding
    /// and trailing whitespace, the rest must read as a URL.
    pub fn finish(&self, resp: &str) -> (r: Result<String, PasteError>)
        ensures
            match url_parse(spec_trim_response(resp@)) {
                Option::Some(u) => (r matches Result::Ok(out) && out@ == u),
                Option::None => (r matches Result::Err(PasteError::BadResponse(m)) && m@
                    == "response is not a URL"@),
            },
    {
        let t = trim_response(resp);
        match parse_url(t.as_str()) {
            Option::Some(u) => Result::Ok(u),
            Option::None => Result::Err(
                PasteError::BadResponse("response is not a URL".to_owned()),
            ),
        }
    }

    /// One-line summary for listings.
    pub fn describe(&self) -> (r: String)
        ensures
            r@ == "fiche | "@ + self.domain@ + ":"@ + spec_dec(self.port as int),
    {
        let mut s = "fiche | ".to_owned();
        s.append(self.domain.as_str());
        s.append(":");
        push_dec(&mut s, self.port);
        s
    }
}

/// Law: supplying the sentinel always resets each overridable field to its
/// type's default, whatever it held before: the domain becomes empty and
/// the port becomes the default port.
pub proof fn lemma_sentinel_resets_fields(prev: Backend)
    ensures
        spec_override_string(prev.domain@, Option::Some(spec_sentinel())) == Seq::<char>::empty(),
        spec_port_merged(prev.port, Option::Some(spec_sentinel())) == Result::<u16, Seq<char>>::Ok(
            spec_default_port(),
        ),
{
}

/// The characters of Unicode's White_Space set, which is what trailing
/// whitespace means here.
pub open spec fn spec_is_ws(c: char) -> bool {
    let u = c as u32;
    (9 <= u && u <= 13) || u == 0x20 || u == 0x85 || u == 0xA0 || u == 0x1680 || (0x2000 <= u
        && u <= 0x200A) || u == 0x2028 || u == 0x2029 || u == 0x202F || u == 0x205F || u == 0x3000
}

fn is_ws(c: char) -> (r: bool)
    ensures
        r == spec_is_ws(c),
{
    let u = c as u32;
    (9 <= u && u <= 13) || u == 0x20 || u == 0x85 || u == 0xA0 || u == 0x1680 || (0x2000 <= u
        && u <= 0x200A) || u == 0x2028 || u == 0x2029 || u == 0x202F || u == 0x205F || u == 0x3000
}

pub open spec fn spec_drop_leading_nul(s: Seq<char>) -> Seq<char>
    decreases s.len(),
{
    if s.len() > 0 && s[0] == '\u{0}' {
        spec_drop_leading_nul(s.drop_first())
    } else {
        s
    }
}

pub open spec fn spec_drop_trailing_nul(s: Seq<char>) -> Seq<char>
    decreases s.len(),
{
    if s.len() > 0 && s.last() == '\u{0}' {
        spec_drop_trailing_nul(s.drop_last())
    } else {
        s
    }
}

pub open spec fn spec_drop_trailing_ws(s: Seq<char>) -> Seq<char>
    decreases s.len(),
{
    if s.len() > 0 && spec_is_ws(s.last()) {
        spec_drop_trailing_ws(s.drop_last())
    } else {
        s
    }
}

/// What sanitising a fiche response means: NUL padding stripped from both
/// ends, then trailing whitespace stripped.
pub open spec fn spec_trim_response(s: Seq<char>) -> Seq<char> {
    spec_drop_trailing_ws(spec_drop_trailing_nul(spec_drop_leading_nul(s)))
}

pub fn trim_response(s: &str) -> (r: String)
    ensures
        r@ == spec_trim_response(s@),
{
    let n = s.unicode_len();
    proof {
        assert(s@.skip(0) =~= s@);
    }
    let mut lo: usize = 0;
    while lo < n && s.get_char(lo) == '\u{0}'
        invariant
            0 <= lo <= n,
            n == s@.len(),
            spec_drop_leading_nul(s@) == spec_drop_leading_nul(s@.skip(lo as int)),
        decreases n - lo,
    {
        proof {
            assert(s@.skip(lo as int).drop_first() =~= s@.skip(lo as int + 1));
        }
        lo = lo + 1;
    }
    proof {
        if lo == n {
            assert(s@.skip(lo as int) =~= Seq::empty());
        }
        assert(spec_drop_leading_nul(s@) == s@.skip(lo as int));
        assert(s@.subrange(lo as int, n as int) =~= s@.skip(lo as int));
    }
    let mut hi: usize = n;
    while hi > lo && s.get_char(hi - 1) == '\u{0}'
        invariant
            lo <= hi <= n,
            n == s@.len(),
            spec_drop_leading_nul(s@) == s@.skip(lo as int),
            spec_drop_trailing_nul(s@.skip(lo as int)) == spec_drop_trailing_nul(
                s@.subrange(lo as int, hi as int),
            ),
        decreases hi,
    {
        proof {
            assert(s@.subrange(lo as int, hi as int).last() == s@[hi as int - 1]);
            assert(s@.subrange(lo as int, hi as int).drop_last() =~= s@.subrange(
                lo as int,
                hi as int - 1,
            ));
        }
        hi = hi - 1;
    }
    proof {
        assert(spec_drop_trailing_nul(s@.skip(lo as int)) == s@.subrange(lo as int, hi as int));
    }
    let mut hi2: usize = hi;
    while hi2 > lo && is_ws(s.get_char(hi2 - 1))
        invariant
            lo <= hi2 <= hi <= n,
            n == s@.len(),
            spec_drop_trailing_nul(s@.skip(lo as int)) == s@.subrange(lo as int, hi as int),
            spec_drop_trailing_ws(s@.subrange(lo as int, hi as int)) == spec_drop_trailing_ws(
                s@.subrange(lo as int, hi2 as int),
            ),
        decreases hi2,
    {
        proof {
            assert(s@.subrange(lo as int, hi2 as int).last() == s@[hi2 as int - 1]);
            assert(s@.subrange(lo as int, hi2 as int).drop_last() =~= s@.subrange(
                lo as int,
                hi2 as int - 1,
            ));
        }
        hi2 = hi2 - 1;
    }
    let out = s.substring_char(lo, hi2);
    proof {
        assert(spec_trim_response(s@) == s@.subrange(lo as int, hi2 as int));
    }
    out.to_owned()
}

} // verus!
