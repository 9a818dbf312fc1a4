//! The JSON-API protocol: the text is posted verbatim to the `documents`
//! path of the configured URL, and the response is a JSON object whose
//! `key` member names the paste; the paste's URL is the base URL with its
//! path replaced by that key.

use vstd::prelude::*;
use vstd::string::StringExecFns;

use crate::flags::{
    fold_one, missing_msg, parse_flags, spec_fold_one, spec_missing_msg, spec_parse,
    spec_unknown_msg, spec_url_defs, unknown_msg, url_defs, FlagsOutcome, FlagsOutcomeV,
};
use crate::overrides::{override_string_with_none, spec_override_string};
use crate::types::{is_success, spec_is_success};
use crate::types::{ApplyOutcome, HttpResponse, PasteError, PasteRequest};
use crate::urls::{set_url_path, spec_url_len_limit, url_len_limit, url_with_path};

verus! {

pub const NAME: &'static str = "haste";

pub const INFO: &'static str = "Haste backend.\nSupports any servers running Haste <https://github.com/seejohnrun/haste-server>.\nOfficial publicly available server for this is <https://hastebin.com/>.\n\nExample config block:\n\n    [servers.hastebin]\n    backend = \"haste\"\n    url = \"https://hastebin.com/\"\n";

/// Configuration of one haste server block.
#[derive(Debug, Clone)]
pub struct Backend {
    pub url: String,
}

/// Per-invocation overrides accepted by this backend.
#[derive(Debug, Clone)]
pub struct Opt {
    pub url: Option<String>,
}

pub open spec fn spec_usage() -> Seq<char> {
    "haste backend\n\nFLAGS:\n    -u, --url <url|NONE>    overrides url set in config\n"@
}

pub fn usage() -> (r: String)
    ensures
        r@ == spec_usage(),
{
    "haste backend\n\nFLAGS:\n    -u, --url <url|NONE>    overrides url set in config\n".to_owned()
}

/// What a string member of the JSON response decodes to: the string under
/// the member called `name` when the body is a JSON object carrying one,
/// absent otherwise.
pub uninterp spec fn json_str_field(body: Seq<char>, name: Seq<char>) -> Option<Seq<char>>;

/// Relies on serde_json::from_str, serde_json::Value::get and
/// serde_json::Value::as_str: the named string member of the decoded JSON
/// object, a function of the body text and the member name alone.
#[verifier::external_body]
fn extract_field(body: &str, name: &str) -> (r: Option<String>)
    ensures
        r.deep_view() == json_str_field(body@, name@),
{
    match serde_json::from_str::<serde_json::Value>(body) {
        Ok(v) => v.get(name).and_then(|k| k.as_str()).map(|s| s.to_owned()),
        Err(_) => None,
    }
}

/// What `apply_args` must do.
pub open spec fn spec_apply_outcome(
    prev: Backend,
    args: Seq<Seq<char>>,
    r: ApplyOutcome,
    next: Backend,
) -> bool {
    match spec_parse(spec_url_defs(), args, 0) {
        FlagsOutcomeV::Help => next == prev && (r matches ApplyOutcome::Help(t) && t@
            == spec_usage()),
        FlagsOutcomeV::Unknown(tok) => next == prev && (r matches ApplyOutcome::Invalid(m) && m@
            == spec_unknown_msg(tok)),
        FlagsOutcomeV::MissingValue(tok) => next == prev && (r matches ApplyOutcome::Invalid(m)
            && m@ == spec_missing_msg(tok)),
        FlagsOutcomeV::Pairs(ps) => (r matches ApplyOutcome::Applied) && next.url@
            == spec_override_string(prev.url@, spec_fold_one(Option::None, ps, 0)),
    }
}

/// The message for a response without a usable key.
pub open spec fn spec_no_key_msg() -> Seq<char> {
    "response JSON carries no key field"@
}

/// The message for a configured URL the url parser refuses.
pub open spec fn spec_bad_target_msg() -> Seq<char> {
    "configured url is not a valid URL"@
}

/// The message for a response key too long to form a URL from.
pub open spec fn spec_key_too_long_msg() -> Seq<char> {
    "response key is too long"@
}

impl Backend {
    /// Overlay per-invocation flags onto this configuration.
    pub fn apply_args(&mut self, args: &Vec<String>) -> (r: ApplyOutcome)
        ensures
            spec_apply_outcome(*old(self), args.deep_view(), r, *final(self)),
    {
        let defs = url_defs();
        match parse_flags(&defs, args) {
            FlagsOutcome::Help => ApplyOutcome::Help(usage()),
            FlagsOutcome::Unknown(t) => ApplyOutcome::Invalid(unknown_msg(&t)),
            FlagsOutcome::MissingValue(t) => ApplyOutcome::Invalid(missing_msg(&t)),
            FlagsOutcome::Pairs(ps) => {
                let o = Opt { url: fold_one(&ps, 0) };
                override_string_with_none(&mut self.url, o.url);
                ApplyOutcome::Applied
            },
        }
    }

    /// Shape the one request this protocol makes: the text as the raw body,
    /// posted to the `documents` path of the base URL. A base URL too long
    /// for a safe path rewrite is refused like an unparseable one.
    pub fn prepare(&self, data: String) -> (r: Result<PasteRequest, PasteError>)
        ensures
            self.url@.len() + "documents"@.len() > spec_url_len_limit() ==> (r
                matches Result::Err(PasteError::BadTarget(m)) && m@ == spec_bad_target_msg()),
            self.url@.len() + "documents"@.len() <= spec_url_len_limit() ==> match url_with_path(
                self.url@,
                "documents"@,
            ) {
                Option::Some(u) => (r matches Result::Ok(PasteRequest::RawBody { url, body })
                    && url@ == u && body@ == data@),
                Option::None => (r matches Result::Err(PasteError::BadTarget(m)) && m@
                    == spec_bad_target_msg()),
            },
    {
        proof {
            reveal_strlit("documents");
        }
        let n = self.url.as_str().unicode_len();
        if n > url_len_limit() - 9 {
            return Result::Err(
                PasteError::BadTarget("configured url is not a valid URL".to_owned()),
            );
        }
        match set_url_path(self.url.as_str(), "documents") {
            Option::Some(u) => Result::Ok(PasteRequest::RawBody { url: u, body: data }),
            Option::None => Result::Err(
                PasteError::BadTarget("configured url is not a valid URL".to_owned()),
            ),
        }
    }

    /// Decide what a decoded key means: a present, non-empty key names the
    /// paste, whose URL is the base URL with the key as its path; a missing
    /// or empty key is a protocol error, never an empty URL; a key too long
    /// for a safe path rewrite is a protocol error too.
    pub fn finish_with_key(&self, key: Option<&String>) -> (r: Result<String, PasteError>)
        ensures
            match key {
                Option::None => (r matches Result::Err(PasteError::BadResponse(m)) && m@
                    == spec_no_key_msg()),
                Option::Some(k) => if k@.len() == 0 {
                    (r matches Result::Err(PasteError::BadResponse(m)) && m@ == spec_no_key_msg())
                } else if self.url@.len() + k@.len() > spec_url_len_limit() {
                    (r matches Result::Err(PasteError::BadResponse(m)) && m@
                        == spec_key_too_long_msg())
                } else {
                    match url_with_path(self.url@, k@) {
                        Option::Some(u) => (r matches Result::Ok(out) && out@ == u),
                        Option::None => (r matches Result::Err(PasteError::BadTarget(m)) && m@
                            == spec_bad_target_msg()),
                    }
                },
            },
    {
        match key {
            Option::None => Result::Err(
                PasteError::BadResponse("response JSON carries no key field".to_owned()),
            ),
            Option::Some(k) => {
                if k.as_str().is_empty() {
                    return Result::Err(
                        PasteError::BadResponse("response JSON carries no key field".to_owned()),
                    );
                }
                let url_n = self.url.as_str().unicode_len();
                let key_n = k.as_str().unicode_len();
                let limit = url_len_limit();
                if url_n > limit || key_n > limit - url_n {
                    return Result::Err(
                        PasteError::BadResponse("response key is too long".to_owned()),
                    );
                }
                match set_url_path(self.url.as_str(), k.as_str()) {
                    Option::Some(u) => Result::Ok(u),
                    Option::None => Result::Err(
                        PasteError::BadTarget("configured url is not a valid URL".to_owned()),
                    ),
                }
            },
        }
    }

    /// Decide what a completed round trip means: on a success status the
    /// body's JSON `key` member, read as `finish_with_key` says.
    pub fn finish(&self, resp: &HttpResponse) -> (r: Result<String, PasteError>)
        ensures
            !spec_is_success(resp.status) ==> r == Result::<String, PasteError>::Err(
                PasteError::BadStatus(resp.status),
            ),
            spec_is_success(resp.status) ==> match json_str_field(resp.body@, "key"@) {
                Option::None => (r matches Result::Err(PasteError::BadResponse(m)) && m@
                    == spec_no_key_msg()),
                Option::Some(k) => if k.len() == 0 {
                    (r matches Result::Err(PasteError::BadResponse(m)) && m@ == spec_no_key_msg())
                } else if self.url@.len() + k.len() > spec_url_len_limit() {
                    (r matches Result::Err(PasteError::BadResponse(m)) && m@
                        == spec_key_too_long_msg())
                } else {
                    match url_with_path(self.url@, k) {
                        Option::Some(u) => (r matches Result::Ok(out) && out@ == u),
                        Option::None => (r matches Result::Err(PasteError::BadTarget(m)) && m@
                            == spec_bad_target_msg()),
                    }
                },
            },
    {
        if !is_success(resp.status) {
            return Result::Err(PasteError::BadStatus(resp.status));
        }
        let key = extract_field(resp.body.as_str(), "key");
        self.finish_with_key(key.as_ref())
    }

    /// One-line summary for listings.
    pub fn describe(&self) -> (r: String)
        ensures
            r@ == "haste | "@ + self.url@,
    {
        let mut s = "haste | ".to_owned();
        s.append(self.url.as_str());
        s
    }
}

} // verus!
