//! The vpaste protocol: the text is posted as the `text` field of an
//! urlencoded form, and the URL the final response comes from is the
//! paste's URL.

use vstd::prelude::*;
use vstd::string::StringExecFns;

use crate::flags::{
    fold_one, missing_msg, parse_flags, spec_fold_one, spec_missing_msg, spec_parse,
    spec_unknown_msg, spec_url_defs, unknown_msg, url_defs, FlagsOutcome, FlagsOutcomeV,
};
use crate::overrides::{override_string_with_none, spec_override_string};
use crate::types::{is_success, spec_is_success};
use crate::types::{ApplyOutcome, HttpResponse, PasteError, PasteRequest};

verus! {

pub const NAME: &'static str = "vpaste";

pub const INFO: &'static str = "Vpaste backend. Supports any server running vpaste.\nOfficial publicly available server for this is <http://vpaste.net/>.\n\nExample config block:\n\n    [servers.vp]\n    backend = \"vpaste\"\n    url = \"http://vpaste.net/\"\n";

/// Configuration of one vpaste server block.
#[derive(Debug, Clone)]
pub struct Backend {
    pub url: String,
}

/// Per-invocation overrides accepted by this backend.
#[derive(Debug, Clone)]
pub struct Opt {
    pub url: Option<String>,
}

pub open spec fn spec_usage() -> Seq<char> {
    "vpaste backend\n\nFLAGS:\n    -u, --url <url|NONE>    overrides url set in config\n"@
}

pub fn usage() -> (r: String)
    ensures
        r@ == spec_usage(),
{
    "vpaste backend\n\nFLAGS:\n    -u, --url <url|NONE>    overrides url set in config\n".to_owned()
}

/// What `apply_args` must do.
pub open spec fn spec_apply_outcome(
    prev: Backend,
    args: Seq<Seq<char>>,
    r: ApplyOutcome,
    next: Backend,
) -> bool {
    match spec_parse(spec_url_defs(), args, 0) {
        FlagsOutcomeV::Help => next == prev && (r matches ApplyOutcome::Help(t) && t@
            == spec_usage()),
        FlagsOutcomeV::Unknown(tok) => next == prev && (r matches ApplyOutcome::Invalid(m) && m@
            == spec_unknown_msg(tok)),
        FlagsOutcomeV::MissingValue(tok) => next == prev && (r matches ApplyOutcome::Invalid(m)
            && m@ == spec_missing_msg(tok)),
        FlagsOutcomeV::Pairs(ps) => (r matches ApplyOutcome::Applied) && next.url@
            == spec_override_string(prev.url@, spec_fold_one(Option::None, ps, 0)),
    }
}

impl Backend {
    /// Overlay per-invocation flags onto this configuration.
    pub fn apply_args(&mut self, args: &Vec<String>) -> (r: ApplyOutcome)
        ensures
            spec_apply_outcome(*old(self), args.deep_view(), r, *final(self)),
    {
        let defs = url_defs();
        match parse_flags(&defs, args) {
            FlagsOutcome::Help => ApplyOutcome::Help(usage()),
            FlagsOutcome::Unknown(t) => ApplyOutcome::Invalid(unknown_msg(&t)),
            FlagsOutcome::MissingValue(t) => ApplyOutcome::Invalid(missing_msg(&t)),
            FlagsOutcome::Pairs(ps) => {
                let o = Opt { url: fold_one(&ps, 0) };
                override_string_with_none(&mut self.url, o.url);
                ApplyOutcome::Applied
            },
        }
    }

    /// Shape the one request this protocol makes: a form with the text.
    pub fn prepare(&self, data: String) -> (r: PasteRequest)
        ensures
            (r matches PasteRequest::Form { url, fields } && url@ == self.url@ && fields@.len()
                == 1 && fields@[0].0@ == "text"@ && fields@[0].1@ == data@),
    {
        let mut fields: Vec<(String, String)> = Vec::new();
        fields.push(("text".to_owned(), data));
        PasteRequest::Form { url: self.url.clone(), fields }
    }

    /// Decide what a completed round trip means: on a success status the
    /// URL the final response came from is the paste's URL.
    pub fn finish(&self, resp: &HttpResponse) -> (r: Result<String, PasteError>)
        ensures
            !spec_is_success(resp.status) ==> r == Result::<String, PasteError>::Err(
                PasteError::BadStatus(resp.status),
            ),
            spec_is_success(resp.status) ==> (r matches Result::Ok(out) && out@
                == resp.final_url@),
    {
        if !is_success(resp.status) {
            return Result::Err(PasteError::BadStatus(resp.status));
        }
        Result::Ok(resp.final_url.clone())
    }

    /// One-line summary for listings.
    pub fn describe(&self) -> (r: String)
        ensures
            r@ == "vpaste | "@ + self.url@,
    {
        let mut s = "vpaste | ".to_owned();
        s.append(self.url.as_str());
        s
    }
}

} // verus!
