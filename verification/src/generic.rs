//! The plain HTTP-POST protocol: the text is posted verbatim to the
//! configured URL, and a successful response carries the paste's URL as
//! its whole body.

use vstd::prelude::*;
use vstd::string::StringExecFns;

use crate::flags::{
    fold_one, missing_msg, parse_flags, spec_fold_one, spec_missing_msg, spec_parse,
    spec_unknown_msg, spec_url_defs, unknown_msg, url_defs, FlagsOutcome, FlagsOutcomeV,
};
use crate::overrides::{override_string_with_none, spec_override_string};
use crate::types::{ApplyOutcome, HttpResponse, PasteError, PasteRequest};
use crate::types::{is_success, spec_is_success};
use crate::urls::{parse_url, url_parse};

verus! {

pub const NAME: &'static str = "generic";

pub const INFO: &'static str = "Generic backend. Supports any server that answers a raw POST\nwith the paste URL as the response body (for example <https://paste.rs/>).\n\nExample config block:\n\n    [servers.rs]\n    backend = \"generic\"\n    url = \"https://paste.rs/\"\n";

/// Configuration of one generic server block.
#[derive(Debug, Clone)]
pub struct Backend {
    pub url: String,
}

/// Per-invocation overrides accepted by this backend.
#[derive(Debug, Clone)]
pub struct Opt {
    pub url: Option<String>,
}

pub open spec fn spec_usage() -> Seq<char> {
    "generic backend\n\nFLAGS:\n    -u, --url <url|NONE>    overrides url set in config\n"@
}

pub fn usage() -> (r: String)
    ensures
        r@ == spec_usage(),
{
    "generic backend\n\nFLAGS:\n    -u, --url <url|NONE>    overrides url set in config\n".to_owned()
}

/// What `apply_args` must do: the relation between the old configuration,
/// the token list, the outcome and the new configuration.
pub open spec fn spec_apply_outcome(
    prev: Backend,
    args: Seq<Seq<char>>,
    r: ApplyOutcome,
    next: Backend,
) -> bool {
    match spec_parse(spec_url_defs(), args, 0) {
        FlagsOutcomeV::Help => next == prev && (r matches ApplyOutcome::Help(t) && t@
            == spec_usage()),
        FlagsOutcomeV::Unknown(tok) => next == prev && (r matches ApplyOutcome::Invalid(m) && m@
            == spec_unknown_msg(tok)),
        FlagsOutcomeV::MissingValue(tok) => next == prev && (r matches ApplyOutcome::Invalid(m)
            && m@ == spec_missing_msg(tok)),
        FlagsOutcomeV::Pairs(ps) => (r matches ApplyOutcome::Applied) && next.url@
            == spec_override_string(prev.url@, spec_fold_one(Option::None, ps, 0)),
    }
}

impl Backend {
    /// Overlay per-invocation flags onto this configuration.
    pub fn apply_args(&mut self, args: &Vec<String>) -> (r: ApplyOutcome)
        ensures
            spec_apply_outcome(*old(self), args.deep_view(), r, *final(self)),
    {
        let defs = url_defs();
        match parse_flags(&defs, args) {
            FlagsOutcome::Help => ApplyOutcome::Help(usage()),
            FlagsOutcome::Unknown(t) => ApplyOutcome::Invalid(unknown_msg(&t)),
            FlagsOutcome::MissingValue(t) => ApplyOutcome::Invalid(missing_msg(&t)),
            FlagsOutcome::Pairs(ps) => {
                let o = Opt { url: fold_one(&ps, 0) };
                override_string_with_none(&mut self.url, o.url);
                ApplyOutcome::Applied
            },
        }
    }

    /// Shape the one request this protocol makes: the text as the raw body.
    pub fn prepare(&self, data: String) -> (r: PasteRequest)
        ensures
            (r matches PasteRequest::RawBody { url, body } && url@ == self.url@ && body@
                == data@),
    {
        PasteRequest::RawBody { url: self.url.clone(), body: data }
    }

    /// Decide what a completed round trip means: a success status whose body
    /// parses as a URL is the paste's URL; anything else is an error.
    pub fn finish(&self, resp: &HttpResponse) -> (r: Result<String, PasteError>)
        ensures
            !spec_is_success(resp.status) ==> r == Result::<String, PasteError>::Err(
                PasteError::BadStatus(resp.status),
            ),
            spec_is_success(resp.status) ==> match url_parse(resp.body@) {
                Option::Some(u) => (r matches Result::Ok(out) && out@ == u),
                Option::None => (r matches Result::Err(PasteError::BadResponse(m)) && m@
                    == "response body is not a URL"@),
            },
    {
        if !is_success(resp.status) {
            return Result::Err(PasteError::BadStatus(resp.status));
        }
        match parse_url(resp.body.as_str()) {
            Option::Some(u) => Result::Ok(u),
            Option::None => Result::Err(
                PasteError::BadResponse("response body is not a URL".to_owned()),
            ),
        }
    }

    /// One-line summary for listings.
    pub fn describe(&self) -> (r: String)
        ensures
            r@ == "generic | "@ + self.url@,
    {
        let mut s = "generic | ".to_owned();
        s.append(self.url.as_str());
        s
    }
}

} // verus!
