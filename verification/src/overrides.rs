//! The override/merge rule shared by every configurable field.
//!
//! Three tiers of settings exist, low to high: compiled-in default, value
//! from the configuration file, per-invocation argument. A supplied argument
//! replaces the stored value; the reserved literal `NONE` instead clears the
//! field back to its default; an absent argument leaves the field unchanged.

use vstd::prelude::*;

verus! {

/// The reserved override literal that clears a field back to its default.
pub open spec fn spec_sentinel() -> Seq<char> {
    "NONE"@
}

/// True when `s` is the reserved clear-to-default literal.
pub fn is_sentinel(s: &String) -> (r: bool)
    ensures
        r == (s@ == spec_sentinel()),
{
    *s == "NONE".to_owned()
}

/// The merge rule for a plain (non-optional) field: a supplied value
/// replaces the current one, an absent value leaves it unchanged.
pub open spec fn spec_override_if_present<T>(cur: T, sup: Option<T>) -> T {
    match sup {
        Option::Some(v) => v,
        Option::None => cur,
    }
}

pub fn override_if_present<T>(dest: &mut T, sup: Option<T>)
    ensures
        *final(dest) == spec_override_if_present(*old(dest), sup),
{
    match sup {
        Option::Some(v) => {
            *dest = v;
        },
        Option::None => {},
    }
}

/// The merge rule for an optional string field with the clear-to-default
/// sentinel: absent keeps the current value, the sentinel clears the field,
/// and anything else replaces it.
pub open spec fn spec_override_option(cur: Option<Seq<char>>, sup: Option<Seq<char>>) -> Option<
    Seq<char>,
> {
    match sup {
        Option::None => cur,
        Option::Some(v) => if v == spec_sentinel() {
            Option::None
        } else {
            Option::Some(v)
        },
    }
}

pub fn override_option_with_option_none(dest: &mut Option<String>, sup: Option<String>)
    ensures
        final(dest).deep_view() == spec_override_option(old(dest).deep_view(), sup.deep_view()),
{
    match sup {
        Option::Some(v) => {
            if is_sentinel(&v) {
                *dest = Option::None;
            } else {
                *dest = Option::Some(v);
            }
        },
        Option::None => {},
    }
}

/// The merge rule for a plain (non-optional) string field with the
/// clear-to-default sentinel: absent keeps the current value, the sentinel
/// resets the field to its type's default (the empty string), and anything
/// else replaces it.
pub open spec fn spec_override_string(cur: Seq<char>, sup: Option<Seq<char>>) -> Seq<char> {
    match sup {
        Option::None => cur,
        Option::Some(v) => if v == spec_sentinel() {
            Seq::empty()
        } else {
            v
        },
    }
}

pub fn override_string_with_none(dest: &mut String, sup: Option<String>)
    ensures
        final(dest)@ == spec_override_string(old(dest)@, sup.deep_view()),
{
    match sup {
        Option::Some(v) => {
            if is_sentinel(&v) {
                *dest = String::new();
            } else {
                *dest = v;
            }
        },
        Option::None => {},
    }
}

/// Law: supplying the sentinel always resets a field to its type's default,
/// whatever the field held before: an optional field becomes absent, a plain
/// string field becomes empty.
pub proof fn lemma_sentinel_resets(opt_cur: Option<Seq<char>>, str_cur: Seq<char>)
    ensures
        spec_override_option(opt_cur, Option::Some(spec_sentinel())) == Option::<Seq<char>>::None,
        spec_override_string(str_cur, Option::Some(spec_sentinel())) == Seq::<char>::empty(),
{
}

} // verus!
