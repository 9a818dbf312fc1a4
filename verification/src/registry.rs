//! The closed registry of backend variants: their names, their static
//! informational texts, and dispatch over a tagged backend configuration.

use vstd::prelude::*;
use vstd::string::StringExecFns;

use crate::config::BackendConfig;
use crate::types::ApplyOutcome;

verus! {

/// The closed set of backend type names, alphabetically.
pub fn backend_names() -> (r: Vec<&'static str>)
    ensures
        r@.len() == 5,
        r@[0]@ == "bpaste"@,
        r@[1]@ == "fiche"@,
        r@[2]@ == "generic"@,
        r@[3]@ == "haste"@,
        r@[4]@ == "vpaste"@,
{
    let mut v: Vec<&'static str> = Vec::new();
    v.push("bpaste");
    v.push("fiche");
    v.push("generic");
    v.push("haste");
    v.push("vpaste");
    v
}

/// The static informational text of the named variant.
pub open spec fn spec_info(name: Seq<char>) -> Option<Seq<char>> {
    if name == "bpaste"@ {
        Option::Some(crate::bpaste::INFO@)
    } else if name == "fiche"@ {
        Option::Some(crate::fiche::INFO@)
    } else if name == "generic"@ {
        Option::Some(crate::generic::INFO@)
    } else if name == "haste"@ {
        Option::Some(crate::haste::INFO@)
    } else if name == "vpaste"@ {
        Option::Some(crate::vpaste::INFO@)
    } else {
        Option::None
    }
}

pub open spec fn spec_unknown_backend_msg(name: Seq<char>) -> Seq<char> {
    "not a recognized backend: "@ + name
}

pub fn info_from_str(name: &String) -> (r: Result<&'static str, String>)
    ensures
        match r {
            Result::Ok(i) => spec_info(name@) == Option::Some(i@),
            Result::Err(m) => spec_info(name@) is None && m@ == spec_unknown_backend_msg(name@),
        },
{
    if *name == "bpaste".to_owned() {
        Result::Ok(crate::bpaste::INFO)
    } else if *name == "fiche".to_owned() {
        Result::Ok(crate::fiche::INFO)
    } else if *name == "generic".to_owned() {
        Result::Ok(crate::generic::INFO)
    } else if *name == "haste".to_owned() {
        Result::Ok(crate::haste::INFO)
    } else if *name == "vpaste".to_owned() {
        Result::Ok(crate::vpaste::INFO)
    } else {
        let mut m = "not a recognized backend: ".to_owned();
        m.append(name.as_str());
        Result::Err(m)
    }
}

impl BackendConfig {
    /// The tag this variant is serialized under.
    pub fn tag(&self) -> (r: &'static str)
        ensures
            match self {
                BackendConfig::Generic(_) => r@ == "generic"@,
                BackendConfig::Vpaste(_) => r@ == "vpaste"@,
                BackendConfig::Haste(_) => r@ == "haste"@,
                BackendConfig::Bpaste(_) => r@ == "bpaste"@,
                BackendConfig::Fiche(_) => r@ == "fiche"@,
            },
    {
        match self {
            BackendConfig::Generic(_) => "generic",
            BackendConfig::Vpaste(_) => "vpaste",
            BackendConfig::Haste(_) => "haste",
            BackendConfig::Bpaste(_) => "bpaste",
            BackendConfig::Fiche(_) => "fiche",
        }
    }

    /// One-line summary of the configured variant, for listings.
    pub fn describe(&self) -> (r: String)
        ensures
            match self {
                BackendConfig::Generic(g) => r@ == "generic | "@ + g.url@,
                BackendConfig::Vpaste(v) => r@ == "vpaste | "@ + v.url@,
                BackendConfig::Haste(h) => r@ == "haste | "@ + h.url@,
                BackendConfig::Bpaste(b) => r@ == "bpaste | "@ + b.url@,
                BackendConfig::Fiche(f) => r@ == "fiche | "@ + f.domain@ + ":"@
                    + crate::fiche::spec_dec(f.port as int),
            },
    {
        match self {
            BackendConfig::Generic(g) => g.describe(),
            BackendConfig::Vpaste(v) => v.describe(),
            BackendConfig::Haste(h) => h.describe(),
            BackendConfig::Bpaste(b) => b.describe(),
            BackendConfig::Fiche(f) => f.describe(),
        }
    }

    /// Overlay per-invocation flags onto whichever variant is configured,
    /// under that variant's own flag set and merge rule.
    pub fn apply_args(&mut self, args: &Vec<String>) -> (r: ApplyOutcome)
        ensures
            ((*old(self)) matches BackendConfig::Generic(g) ==> ((*final(self))
                matches BackendConfig::Generic(g2) && crate::generic::spec_apply_outcome(
                g,
                args.deep_view(),
                r,
                g2,
            ))),
            ((*old(self)) matches BackendConfig::Vpaste(v) ==> ((*final(self))
                matches BackendConfig::Vpaste(v2) && crate::vpaste::spec_apply_outcome(
                v,
                args.deep_view(),
                r,
                v2,
            ))),
            ((*old(self)) matches BackendConfig::Haste(h) ==> ((*final(self))
                matches BackendConfig::Haste(h2) && crate::haste::spec_apply_outcome(
                h,
                args.deep_view(),
                r,
                h2,
            ))),
            ((*old(self)) matches BackendConfig::Bpaste(b) ==> ((*final(self))
                matches BackendConfig::Bpaste(b2) && crate::bpaste::spec_apply_outcome(
                b,
                args.deep_view(),
                r,
                b2,
            ))),
            ((*old(self)) matches BackendConfig::Fiche(f) ==> ((*final(self))
                matches BackendConfig::Fiche(f2) && crate::fiche::spec_apply_outcome(
                f,
                args.deep_view(),
                r,
                f2,
            ))),
    {
        match self {
            BackendConfig::Generic(g) => g.apply_args(args),
            BackendConfig::Vpaste(v) => v.apply_args(args),
            BackendConfig::Haste(h) => h.apply_args(args),
            BackendConfig::Bpaste(b) => b.apply_args(args),
            BackendConfig::Fiche(f) => f.apply_args(args),
        }
    }
}

} // verus!
