//! The multipart-form protocol: the text, a syntax hint and an expiry are
//! posted as multipart fields. The service signals failure by redirecting
//! back to the posted URL rather than by a status code, so a final URL equal
//! to the target is a rejected paste, not a success.

use vstd::prelude::*;
use vstd::string::StringExecFns;

use crate::flags::{
    defs_model, fold_one, missing_msg, parse_flags, spec_fold_one, spec_missing_msg, spec_parse,
    spec_unknown_msg, unknown_msg, FlagDef, FlagsOutcome, FlagsOutcomeV,
};
use crate::overrides::{
    is_sentinel, override_option_with_option_none, override_string_with_none,
    spec_override_option, spec_override_string, spec_sentinel,
};
use crate::types::{is_success, spec_is_success};
use crate::types::{ApplyOutcome, HttpResponse, PasteError, PasteRequest};

verus! {

pub const NAME: &'static str = "bpaste";

pub const INFO: &'static str = "Bpaste backend. Supports <https://bpaste.net/>.\n\nExample config block:\n\n    [servers.bpaste]\n    backend = \"bpaste\"\n    url = \"https://bpaste.net/\"\n\n    # Optional values\n\n    # Filetype for syntax highlighting. Default is set by the server.\n    syntax = \"python\"\n\n    # Paste lifetime. Supports \"1day\" and \"1week\". Default is 1 day.\n    expires = \"1week\"\n";

/// How long the service keeps a paste. The wire form is the short string
/// `1day` or `1week`; when unspecified, one day.
#[derive(Debug, Clone, Copy, PartialEq, Eq, Structural)]
pub enum Expiry {
    OneDay,
    OneWeek,
}

/// The expiry used when none is configured.
pub open spec fn spec_default_expiry() -> Expiry {
    Expiry::OneDay
}

impl Default for Expiry {
    fn default() -> (r: Self)
        ensures
            r == spec_default_expiry(),
    {
        Expiry::OneDay
    }
}

impl Expiry {
    /// The canonical short wire form.
    pub open spec fn spec_wire(self) -> Seq<char> {
        match self {
            Expiry::OneDay => "1day"@,
            Expiry::OneWeek => "1week"@,
        }
    }

    pub fn wire_str(self) -> (r: &'static str)
        ensures
            r@ == self.spec_wire(),
    {
        match self {
            Expiry::OneDay => "1day",
            Expiry::OneWeek => "1week",
        }
    }

    /// The expiry a wire string denotes, when it denotes one.
    pub open spec fn spec_from_wire(s: Seq<char>) -> Option<Expiry> {
        if s == "1day"@ {
            Option::Some(Expiry::OneDay)
        } else if s == "1week"@ {
            Option::Some(Expiry::OneWeek)
        } else {
            Option::None
        }
    }

    pub fn from_str(s: &String) -> (r: Result<Expiry, String>)
        ensures
            match Expiry::spec_from_wire(s@) {
                Option::Some(e) => r == Result::<Expiry, String>::Ok(e),
                Option::None => (r matches Result::Err(m) && m@ == spec_expiry_err(s@)),
            },
    {
        if *s == "1day".to_owned() {
            Result::Ok(Expiry::OneDay)
        } else if *s == "1week".to_owned() {
            Result::Ok(Expiry::OneWeek)
        } else {
            Result::Err(expiry_err(s))
        }
    }
}

/// The message for a value that names no expiry.
pub open spec fn spec_expiry_err(s: Seq<char>) -> Seq<char> {
    "Invalid value for --expires: "@ + s
        + ". Valid values are 1day, 1week, or NONE (to use default)"@
}

fn expiry_err(s: &String) -> (r: String)
    ensures
        r@ == spec_expiry_err(s@),
{
    let mut m = "Invalid value for --expires: ".to_owned();
    m.append(s.as_str());
    m.append(". Valid values are 1day, 1week, or NONE (to use default)");
    m
}

/// Configuration of one bpaste server block.
#[derive(Debug, Clone)]
pub struct Backend {
    pub url: String,
    pub syntax: Option<String>,
    pub expires: Expiry,
}

/// Per-invocation overrides accepted by this backend.
#[derive(Debug, Clone)]
pub struct Opt {
    pub url: Option<String>,
    pub syntax: Option<String>,
    pub expires: Option<String>,
}

pub open spec fn spec_bpaste_defs() -> Seq<(Seq<char>, Seq<char>)> {
    seq![("-u"@, "--url"@), ("-s"@, "--syntax"@), ("-e"@, "--expires"@)]
}

fn bpaste_defs() -> (r: Vec<FlagDef>)
    ensures
        defs_model(r@) == spec_bpaste_defs(),
{
    let mut v: Vec<FlagDef> = Vec::new();
    v.push(FlagDef { short: "-u".to_owned(), long: "--url".to_owned() });
    v.push(FlagDef { short: "-s".to_owned(), long: "--syntax".to_owned() });
    v.push(FlagDef { short: "-e".to_owned(), long: "--expires".to_owned() });
    proof {
        assert(defs_model(v@) =~= spec_bpaste_defs());
    }
    v
}

pub open spec fn spec_usage() -> Seq<char> {
    "bpaste backend\n\nFLAGS:\n    -u, --url <url|NONE>            overrides url set in config\n    -s, --syntax <filetype|NONE>    filetype for syntax highlighting\n    -e, --expires <1day|1week|NONE> time to live\n"@
}

pub fn usage() -> (r: String)
    ensures
        r@ == spec_usage(),
{
    "bpaste backend\n\nFLAGS:\n    -u, --url <url|NONE>            overrides url set in config\n    -s, --syntax <filetype|NONE>    filetype for syntax highlighting\n    -e, --expires <1day|1week|NONE> time to live\n".to_owned()
}

/// The merge rule for the expiry override: absent keeps the current value,
/// the sentinel resets to the default, a wire form replaces it, anything
/// else is the parse error.
pub open spec fn spec_expires_merged(cur: Expiry, sup: Option<Seq<char>>) -> Result<
    Expiry,
    Seq<char>,
> {
    match sup {
        Option::None => Result::Ok(cur),
        Option::Some(s) => if s == spec_sentinel() {
            Result::Ok(spec_default_expiry())
        } else {
            match Expiry::spec_from_wire(s) {
                Option::Some(e) => Result::Ok(e),
                Option::None => Result::Err(spec_expiry_err(s)),
            }
        },
    }
}

/// What `apply_args` must do.
pub open spec fn spec_apply_outcome(
    prev: Backend,
    args: Seq<Seq<char>>,
    r: ApplyOutcome,
    next: Backend,
) -> bool {
    match spec_parse(spec_bpaste_defs(), args, 0) {
        FlagsOutcomeV::Help => next == prev && (r matches ApplyOutcome::Help(t) && t@
            == spec_usage()),
        FlagsOutcomeV::Unknown(tok) => next == prev && (r matches ApplyOutcome::Invalid(m) && m@
            == spec_unknown_msg(tok)),
        FlagsOutcomeV::MissingValue(tok) => next == prev && (r matches ApplyOutcome::Invalid(m)
            && m@ == spec_missing_msg(tok)),
        FlagsOutcomeV::Pairs(ps) => match spec_expires_merged(
            prev.expires,
            spec_fold_one(Option::None, ps, 2),
        ) {
            Result::Ok(e) => (r matches ApplyOutcome::Applied) && next.url@
                == spec_override_string(prev.url@, spec_fold_one(Option::None, ps, 0))
                && next.syntax.deep_view() == spec_override_option(
                prev.syntax.deep_view(),
                spec_fold_one(Option::None, ps, 1),
            ) && next.expires == e,
            Result::Err(m) => next == prev && (r matches ApplyOutcome::Invalid(mm) && mm@ == m),
        },
    }
}

impl Backend {
    /// Overlay per-invocation flags onto this configuration. On a malformed
    /// expiry the configuration is left untouched.
    pub fn apply_args(&mut self, args: &Vec<String>) -> (r: ApplyOutcome)
        ensures
            spec_apply_outcome(*old(self), args.deep_view(), r, *final(self)),
    {
        let defs = bpaste_defs();
        match parse_flags(&defs, args) {
            FlagsOutcome::Help => ApplyOutcome::Help(usage()),
            FlagsOutcome::Unknown(t) => ApplyOutcome::Invalid(unknown_msg(&t)),
            FlagsOutcome::MissingValue(t) => ApplyOutcome::Invalid(missing_msg(&t)),
            FlagsOutcome::Pairs(ps) => {
                let o = Opt {
                    url: fold_one(&ps, 0),
                    syntax: fold_one(&ps, 1),
                    expires: fold_one(&ps, 2),
                };
                match o.expires {
                    Option::Some(s) => {
                        if is_sentinel(&s) {
                            self.expires = Expiry::default();
                        } else {
                            match Expiry::from_str(&s) {
                                Result::Ok(e) => {
                                    self.expires = e;
                                },
                                Result::Err(m) => {
                                    return ApplyOutcome::Invalid(m);
                                },
                            }
                        }
                    },
                    Option::None => {},
                }
                override_string_with_none(&mut self.url, o.url);
                override_option_with_option_none(&mut self.syntax, o.syntax);
                ApplyOutcome::Applied
            },
        }
    }

    /// Shape the one request this protocol makes: the multipart fields in
    /// the order the service expects, with the syntax hint defaulting to
    /// `text` when unset.
    pub fn prepare(&self, data: String) -> (r: PasteRequest)
        ensures
            (r matches PasteRequest::Multipart { url, fields } && url@ == self.url@
                && fields@.len() == 3 && fields@[0].0@ == "code"@ && fields@[0].1@ == data@
                && fields@[1].0@ == "expiry"@ && fields@[1].1@ == self.expires.spec_wire()
                && fields@[2].0@ == "lexer"@ && fields@[2].1@ == (match self.syntax {
                Option::Some(s) => s@,
                Option::None => "text"@,
            })),
    {
        let mut fields: Vec<(String, String)> = Vec::new();
        fields.push(("code".to_owned(), data));
        fields.push(("expiry".to_owned(), self.expires.wire_str().to_owned()));
        let lexer = match &self.syntax {
            Option::Some(s) => s.clone(),
            Option::None => "text".to_owned(),
        };
        fields.push(("lexer".to_owned(), lexer));
        PasteRequest::Multipart { url: self.url.clone(), fields }
    }

    /// Decide what a completed round trip means: the service signals a
    /// rejected paste by answering from the posted URL itself, even with a
    /// success status; any other success URL is the paste's URL.
    pub fn finish(&self, resp: &HttpResponse) -> (r: Result<String, PasteError>)
        ensures
            !spec_is_success(resp.status) ==> r == Result::<String, PasteError>::Err(
                PasteError::BadStatus(resp.status),
            ),
            spec_is_success(resp.status) && resp.final_url@ == self.url@ ==> (r matches Result::Err(
                PasteError::Rejected(m),
            ) && m@ == spec_rejected_msg()),
            spec_is_success(resp.status) && resp.final_url@ != self.url@ ==> (r matches Result::Ok(
                out,
            ) && out@ == resp.final_url@),
    {
        if !is_success(resp.status) {
            return Result::Err(PasteError::BadStatus(resp.status));
        }
        if resp.final_url == self.url {
            Result::Err(PasteError::Rejected(rejected_msg()))
        } else {
            Result::Ok(resp.final_url.clone())
        }
    }

    /// One-line summary for listings.
    pub fn describe(&self) -> (r: String)
        ensures
            r@ == "bpaste | "@ + self.url@,
    {
        let mut s = "bpaste | ".to_owned();
        s.append(self.url.as_str());
        s
    }
}

/// The message for a paste the service redirected back to itself.
pub open spec fn spec_rejected_msg() -> Seq<char> {
    "Paste failed.\nCheck parameters, it is possible that the syntax name provided wasn't recognized."@
}

fn rejected_msg() -> (r: String)
    ensures
        r@ == spec_rejected_msg(),
{
    "Paste failed.\nCheck parameters, it is possible that the syntax name provided wasn't recognized.".to_owned()
}

/// Law: supplying the sentinel always resets each overridable field to its
/// type's default, whatever it held before: the URL becomes empty, the
/// syntax hint becomes absent and the expiry becomes the default expiry.
pub proof fn lemma_sentinel_resets_fields(prev: Backend)
    ensures
        spec_override_string(prev.url@, Option::Some(spec_sentinel())) == Seq::<char>::empty(),
        spec_override_option(prev.syntax.deep_view(), Option::Some(spec_sentinel()))
            == Option::<Seq<char>>::None,
        spec_expires_merged(prev.expires, Option::Some(spec_sentinel())) == Result::<
            Expiry,
            Seq<char>,
        >::Ok(spec_default_expiry()),
{
}

} // verus!
