//! A small command-line flag grammar, shared by every backend.
//!
//! The token list is read pairwise: a token that names a known flag must be
//! followed by its value; `-h` or `--help` anywhere short-circuits to a help
//! request; any other token is rejected. Each backend supplies its own set
//! of flag definitions and folds the resulting (flag, value) pairs onto its
//! configuration.

use vstd::prelude::*;

verus! {

/// One accepted flag: a short form such as `-u` and a long form such as `--url`.
pub struct FlagDef {
    pub short: String,
    pub long: String,
}

pub open spec fn def_model(d: FlagDef) -> (Seq<char>, Seq<char>) {
    (d.short@, d.long@)
}

pub open spec fn defs_model(ds: Seq<FlagDef>) -> Seq<(Seq<char>, Seq<char>)> {
    ds.map_values(|d: FlagDef| def_model(d))
}

/// What scanning a token list yields: a help request, the recognised
/// (flag index, value) pairs in order, or the first offending token.
pub enum FlagsOutcome {
    Help,
    Pairs(Vec<(usize, String)>),
    Unknown(String),
    MissingValue(String),
}

pub enum FlagsOutcomeV {
    Help,
    Pairs(Seq<(int, Seq<char>)>),
    Unknown(Seq<char>),
    MissingValue(Seq<char>),
}

pub open spec fn pairs_model(ps: Seq<(usize, String)>) -> Seq<(int, Seq<char>)> {
    ps.map_values(|p: (usize, String)| (p.0 as int, p.1@))
}

pub open spec fn outcome_model(o: FlagsOutcome) -> FlagsOutcomeV {
    match o {
        FlagsOutcome::Help => FlagsOutcomeV::Help,
        FlagsOutcome::Pairs(ps) => FlagsOutcomeV::Pairs(pairs_model(ps@)),
        FlagsOutcome::Unknown(t) => FlagsOutcomeV::Unknown(t@),
        FlagsOutcome::MissingValue(t) => FlagsOutcomeV::MissingValue(t@),
    }
}

/// Index of the first definition whose short or long form is `tok`.
pub open spec fn spec_find_def(ds: Seq<(Seq<char>, Seq<char>)>, tok: Seq<char>) -> Option<int>
    decreases ds.len(),
{
    if ds.len() == 0 {
        Option::None
    } else if ds[0].0 == tok || ds[0].1 == tok {
        Option::Some(0int)
    } else {
        match spec_find_def(ds.drop_first(), tok) {
            Option::Some(j) => Option::Some(j + 1),
            Option::None => Option::None,
        }
    }
}

pub proof fn lemma_find_def_in_range(ds: Seq<(Seq<char>, Seq<char>)>, tok: Seq<char>)
    ensures
        match spec_find_def(ds, tok) {
            Option::Some(j) => 0 <= j < ds.len(),
            Option::None => true,
        },
    decreases ds.len(),
{
    if ds.len() > 0 {
        lemma_find_def_in_range(ds.drop_first(), tok);
    }
}

/// The grammar itself, reading `args` from position `i` on.
pub open spec fn spec_parse(
    ds: Seq<(Seq<char>, Seq<char>)>,
    args: Seq<Seq<char>>,
    i: int,
) -> FlagsOutcomeV
    decreases args.len() - i,
{
    if i < 0 || i >= args.len() {
        FlagsOutcomeV::Pairs(Seq::empty())
    } else if args[i] == "-h"@ || args[i] == "--help"@ {
        FlagsOutcomeV::Help
    } else {
        match spec_find_def(ds, args[i]) {
            Option::None => FlagsOutcomeV::Unknown(args[i]),
            Option::Some(j) => if i + 1 >= args.len() {
                FlagsOutcomeV::MissingValue(args[i])
            } else {
                match spec_parse(ds, args, i + 2) {
                    FlagsOutcomeV::Pairs(rest) => FlagsOutcomeV::Pairs(
                        seq![(j, args[i + 1])] + rest,
                    ),
                    other => other,
                }
            },
        }
    }
}

/// The message returned for a token that names no known flag.
pub open spec fn spec_unknown_msg(tok: Seq<char>) -> Seq<char> {
    "unrecognized flag: "@ + tok
}

pub fn unknown_msg(tok: &String) -> (r: String)
    ensures
        r@ == spec_unknown_msg(tok@),
{
    let mut m = "unrecognized flag: ".to_owned();
    m.append(tok.as_str());
    m
}

/// The message returned for a flag whose value is missing.
pub open spec fn spec_missing_msg(tok: Seq<char>) -> Seq<char> {
    "missing value for flag: "@ + tok
}

pub fn missing_msg(tok: &String) -> (r: String)
    ensures
        r@ == spec_missing_msg(tok@),
{
    let mut m = "missing value for flag: ".to_owned();
    m.append(tok.as_str());
    m
}

/// The single-flag set shared by the backends whose only override is the URL.
pub open spec fn spec_url_defs() -> Seq<(Seq<char>, Seq<char>)> {
    seq![("-u"@, "--url"@)]
}

pub fn url_defs() -> (r: Vec<FlagDef>)
    ensures
        defs_model(r@) == spec_url_defs(),
{
    let mut v: Vec<FlagDef> = Vec::new();
    v.push(FlagDef { short: "-u".to_owned(), long: "--url".to_owned() });
    proof {
        assert(defs_model(v@) =~= spec_url_defs());
    }
    v
}

/// The value the flag with definition index `idx` ends up with after the
/// pairs are applied in order: the last occurrence wins.
pub open spec fn spec_fold_one(
    cur: Option<Seq<char>>,
    ps: Seq<(int, Seq<char>)>,
    idx: int,
) -> Option<Seq<char>>
    decreases ps.len(),
{
    if ps.len() == 0 {
        cur
    } else {
        let c2 = if ps[0].0 == idx {
            Option::Some(ps[0].1)
        } else {
            cur
        };
        spec_fold_one(c2, ps.drop_first(), idx)
    }
}

pub fn fold_one(ps: &Vec<(usize, String)>, idx: usize) -> (r: Option<String>)
    ensures
        r.deep_view() == spec_fold_one(Option::None, pairs_model(ps@), idx as int),
{
    let ghost full = pairs_model(ps@);
    proof {
        assert(full.skip(0) =~= full);
    }
    let mut cur: Option<String> = Option::None;
    let mut i: usize = 0;
    while i < ps.len()
        invariant
            0 <= i <= ps@.len(),
            full == pairs_model(ps@),
            full.len() == ps@.len(),
            spec_fold_one(Option::None, full, idx as int) == spec_fold_one(
                cur.deep_view(),
                full.skip(i as int),
                idx as int,
            ),
        decreases ps@.len() - i,
    {
        proof {
            assert(full.skip(i as int)[0] == (ps@[i as int].0 as int, ps@[i as int].1@));
            assert(full.skip(i as int).drop_first() =~= full.skip(i as int + 1));
        }
        if ps[i].0 == idx {
            cur = Option::Some(ps[i].1.clone());
        }
        i = i + 1;
    }
    proof {
        assert(full.skip(i as int) =~= Seq::empty());
    }
    cur
}

fn is_help(tok: &String) -> (r: bool)
    ensures
        r == (tok@ == "-h"@ || tok@ == "--help"@),
{
    *tok == "-h".to_owned() || *tok == "--help".to_owned()
}

fn find_def(defs: &Vec<FlagDef>, tok: &String) -> (r: Option<usize>)
    ensures
        match r {
            Option::Some(j) => spec_find_def(defs_model(defs@), tok@) == Option::Some(j as int),
            Option::None => spec_find_def(defs_model(defs@), tok@) == Option::<int>::None,
        },
{
    let ghost ds = defs_model(defs@);
    proof {
        assert(ds.skip(0) =~= ds);
    }
    let mut i: usize = 0;
    while i < defs.len()
        invariant
            0 <= i <= defs.len(),
            ds == defs_model(defs@),
            ds.len() == defs@.len(),
            spec_find_def(ds, tok@) == match spec_find_def(ds.skip(i as int), tok@) {
                Option::Some(j) => Option::Some(j + i),
                Option::None => Option::<int>::None,
            },
        decreases defs.len() - i,
    {
        proof {
            assert(ds.skip(i as int)[0] == def_model(defs@[i as int]));
        }
        if defs[i].short == *tok || defs[i].long == *tok {
            return Option::Some(i);
        }
        proof {
            assert(ds.skip(i as int).drop_first() =~= ds.skip(i as int + 1));
        }
        i = i + 1;
    }
    proof {
        assert(ds.skip(i as int) =~= Seq::empty());
    }
    Option::None
}

/// Scan `args` against `defs`: help short-circuits, a known flag consumes
/// the following token as its value, anything else is the offending token.
pub fn parse_flags(defs: &Vec<FlagDef>, args: &Vec<String>) -> (r: FlagsOutcome)
    ensures
        outcome_model(r) == spec_parse(defs_model(defs@), args.deep_view(), 0),
        r matches FlagsOutcome::Pairs(ps) ==> forall|k: int|
            0 <= k < ps@.len() ==> (#[trigger] ps@[k]).0 < defs@.len(),
{
    let ghost ds = defs_model(defs@);
    let ghost argsv = args.deep_view();
    let mut acc: Vec<(usize, String)> = Vec::new();
    let mut i: usize = 0;
    loop
        invariant
            0 <= i <= args@.len(),
            ds == defs_model(defs@),
            argsv == args.deep_view(),
            argsv.len() == args@.len(),
            forall|k: int| 0 <= k < args@.len() ==> argsv[k] == (#[trigger] args@[k])@,
            forall|k: int| 0 <= k < acc@.len() ==> (#[trigger] acc@[k]).0 < defs@.len(),
            match spec_parse(ds, argsv, i as int) {
                FlagsOutcomeV::Pairs(rest) => spec_parse(ds, argsv, 0) == FlagsOutcomeV::Pairs(
                    pairs_model(acc@) + rest,
                ),
                other => spec_parse(ds, argsv, 0) == other,
            },
        decreases args@.len() - i,
    {
        if i >= args.len() {
            proof {
                assert(pairs_model(acc@) + Seq::empty() =~= pairs_model(acc@));
            }
            return FlagsOutcome::Pairs(acc);
        }
        let tok = &args[i];
        if is_help(tok) {
            return FlagsOutcome::Help;
        }
        match find_def(defs, tok) {
            Option::None => {
                return FlagsOutcome::Unknown(tok.clone());
            },
            Option::Some(j) => {
                if i + 1 >= args.len() {
                    return FlagsOutcome::MissingValue(tok.clone());
                }
                proof {
                    lemma_find_def_in_range(ds, argsv[i as int]);
                }
                let val = args[i + 1].clone();
                let ghost acc_old = acc@;
                acc.push((j, val));
                proof {
                    assert(pairs_model(acc@) =~= pairs_model(acc_old) + seq![
                        (j as int, args@[i as int + 1]@),
                    ]);
                    match spec_parse(ds, argsv, i as int + 2) {
                        FlagsOutcomeV::Pairs(rest) => {
                            assert(pairs_model(acc_old) + (seq![(j as int, argsv[i as int + 1])]
                                + rest) =~= pairs_model(acc@) + rest);
                        },
                        _ => {},
                    }
                }
                i = i + 2;
            },
        }
    }
}

} // verus!
