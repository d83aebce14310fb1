//! Model of a store hash: a list of string-valued fields.
//!
//! The upstream store keeps match state in hashes whose fields and values are
//! both strings.  The unverified adapter hands each hash over as a vector of
//! `(field, value)` pairs; field names are unique in a hash, and lookup takes
//! the first pair whose name matches.
use vstd::prelude::*;

verus! {

use vstd::string::StringExecFns;
use crate::text::{parse_u32_spec, parse_u8_spec, parse_u32, parse_u8, str_eq};

/// Spec-level lookup: the value of the first field with the given name.
pub open spec fn lookup(fields: Seq<(String, String)>, name: Seq<char>) -> Option<Seq<char>>
    decreases fields.len(),
{
    if fields.len() == 0 {
        None
    } else if fields[0].0@ == name {
        Some(fields[0].1@)
    } else {
        lookup(fields.drop_first(), name)
    }
}

/// The value of a string field, or empty when absent.
pub open spec fn str_field(fields: Seq<(String, String)>, name: Seq<char>) -> Seq<char> {
    match lookup(fields, name) {
        Some(v) => v,
        None => Seq::empty(),
    }
}

/// The value of a string field, or a default when absent.
pub open spec fn str_field_or(
    fields: Seq<(String, String)>,
    name: Seq<char>,
    dflt: Seq<char>,
) -> Seq<char> {
    match lookup(fields, name) {
        Some(v) => v,
        None => dflt,
    }
}

/// A numeric field parsed as `u32`; absent or unparseable fields read zero.
pub open spec fn u32_field(fields: Seq<(String, String)>, name: Seq<char>) -> u32 {
    match lookup(fields, name) {
        Some(v) => match parse_u32_spec(v) {
            Some(n) => n,
            None => 0,
        },
        None => 0,
    }
}

/// A numeric field parsed as `u8`; absent or unparseable fields read zero.
pub open spec fn u8_field(fields: Seq<(String, String)>, name: Seq<char>) -> u8 {
    match lookup(fields, name) {
        Some(v) => match parse_u8_spec(v) {
            Some(n) => n,
            None => 0,
        },
        None => 0,
    }
}

/// An optional numeric field: present and parseable, or nothing.
pub open spec fn opt_u32_field(fields: Seq<(String, String)>, name: Seq<char>) -> Option<u32> {
    match lookup(fields, name) {
        Some(v) => parse_u32_spec(v),
        None => None,
    }
}

/// Find a field by name.
pub fn get_field<'a>(fields: &'a Vec<(String, String)>, name: &str) -> (r: Option<&'a String>)
    ensures
        match r {
            Some(v) => lookup(fields@, name@) == Some(v@),
            None => lookup(fields@, name@) is None,
        },
{
    proof {
        assert(fields@.subrange(0, fields@.len() as int) =~= fields@);
    }
    let mut i: usize = 0;
    while i < fields.len()
        invariant
            i <= fields@.len(),
            lookup(fields@, name@) == lookup(fields@.subrange(i as int, fields@.len() as int), name@),
        decreases fields@.len() - i,
    {
        let ghost suf = fields@.subrange(i as int, fields@.len() as int);
        proof {
            assert(suf[0] == fields@[i as int]);
            assert(suf.drop_first() =~= fields@.subrange(i + 1 as int, fields@.len() as int));
        }
        if str_eq(fields[i].0.as_str(), name) {
            return Some(&fields[i].1);
        }
        i += 1;
    }
    proof {
        assert(fields@.subrange(fields@.len() as int, fields@.len() as int).len() == 0);
    }
    None
}

/// A string field's value as an owned string, or empty when absent.
pub fn get_str_field(fields: &Vec<(String, String)>, name: &str) -> (r: String)
    ensures
        r@ == str_field(fields@, name@),
{
    match get_field(fields, name) {
        Some(v) => v.clone(),
        None => String::new(),
    }
}

/// A string field's value, or the given default when absent.
pub fn get_str_field_or(fields: &Vec<(String, String)>, name: &str, dflt: &str) -> (r: String)
    ensures
        r@ == str_field_or(fields@, name@, dflt@),
{
    match get_field(fields, name) {
        Some(v) => v.clone(),
        None => String::from_str(dflt),
    }
}

/// An optional string field.
pub fn get_opt_field(fields: &Vec<(String, String)>, name: &str) -> (r: Option<String>)
    ensures
        match r {
            Some(v) => lookup(fields@, name@) == Some(v@),
            None => lookup(fields@, name@) is None,
        },
{
    match get_field(fields, name) {
        Some(v) => Some(v.clone()),
        None => None,
    }
}

/// A numeric field as `u32`, zero when absent or unparseable.
pub fn get_u32_field(fields: &Vec<(String, String)>, name: &str) -> (r: u32)
    ensures
        r == u32_field(fields@, name@),
{
    match get_field(fields, name) {
        Some(v) => match parse_u32(v.as_str()) {
            Some(n) => n,
            None => 0,
        },
        None => 0,
    }
}

/// A numeric field as `u8`, zero when absent or unparseable.
pub fn get_u8_field(fields: &Vec<(String, String)>, name: &str) -> (r: u8)
    ensures
        r == u8_field(fields@, name@),
{
    match get_field(fields, name) {
        Some(v) => match parse_u8(v.as_str()) {
            Some(n) => n,
            None => 0,
        },
        None => 0,
    }
}

/// An optional numeric field as `u32`.
pub fn get_opt_u32_field(fields: &Vec<(String, String)>, name: &str) -> (r: Option<u32>)
    ensures
        r == opt_u32_field(fields@, name@),
{
    match get_field(fields, name) {
        Some(v) => parse_u32(v.as_str()),
        None => None,
    }
}

} // verus!
