//! A property list as the sources read it: the plain tree `plist::Value`
//! decodes to, and the lookups the parsers make in it.

use vstd::prelude::*;

use crate::text::{chars_eq, chars_of};

verus! {

/// One value of a property list. Dictionaries keep their entries in file
/// order; kinds the parsers never read (data, dates, reals, UIDs) are
/// `Other`.
#[derive(Debug, PartialEq)]
pub enum PlistValue {
    Array(Vec<PlistValue>),
    Dictionary(Vec<(String, PlistValue)>),
    Boolean(bool),
    /// An integer, or `None` when it does not fit in an `i64`.
    Integer(Option<i64>),
    String(String),
    Other,
}

/// A property list file as far as it could be read.
#[derive(Debug)]
pub enum PlistRead {
    /// Read and decoded.
    Parsed(PlistValue),
    /// The file could not be read; what the system said.
    Unreadable(String),
    /// The bytes are not a property list; what the decoder said.
    Malformed(String),
}

#[verifier::external_type_specification]
#[verifier::external_body]
pub struct ExPlistDocument(plist::Value);

/// What `plist::from_bytes` makes of `bytes`, as plain values: the
/// decoded tree, or the decoder's message.
pub uninterp spec fn plist_document(bytes: Seq<u8>) -> PlistRead;

/// Decodes a property list in any of its encodings with
/// `plist::from_bytes::<plist::Value>`. The contract names the outcome,
/// a function of the bytes alone, and states the one thing the code
/// shows of it: a decode never reports an unreadable file.
#[verifier::external_body]
fn decode_plist(bytes: &[u8]) -> (r: PlistRead)
    ensures
        r == plist_document(bytes@),
        !(r is Unreadable),
{
    match plist::from_bytes::<plist::Value>(bytes) {
        Ok(v) => PlistRead::Parsed(plain_value(&v)),
        Err(e) => PlistRead::Malformed(e.to_string()),
    }
}

/// The tree of a decoded `plist::Value`, kind for kind: arrays and
/// dictionaries in their order, `Integer::as_signed` for integers, and
/// `Other` for data, dates, reals and UIDs. Nothing is stated of it; it
/// serves `decode_plist`, whose outcome is named as a whole.
#[verifier::external_body]
fn plain_value(v: &plist::Value) -> PlistValue {
    match v {
        plist::Value::Array(items) => PlistValue::Array(items.iter().map(plain_value).collect()),
        plist::Value::Dictionary(d) => PlistValue::Dictionary(
            d.iter().map(|(k, x)| (k.clone(), plain_value(x))).collect(),
        ),
        plist::Value::Boolean(b) => PlistValue::Boolean(*b),
        plist::Value::Integer(i) => PlistValue::Integer(i.as_signed()),
        plist::Value::String(s) => PlistValue::String(s.clone()),
        _ => PlistValue::Other,
    }
}

/// A property list file from what reading it gave: its bytes, decoded,
/// or the system's message when it could not be read.
pub fn read_plist(read: Result<Vec<u8>, String>) -> (r: PlistRead)
    ensures
        match read {
            Ok(bytes) => r == plist_document(bytes@) && !(r is Unreadable),
            Err(m) => r == PlistRead::Unreadable(m),
        },
{
    match read {
        Ok(bytes) => decode_plist(bytes.as_slice()),
        Err(m) => PlistRead::Unreadable(m),
    }
}

/// The value stored under `key`, if any: the first entry with that key.
pub open spec fn dict_lookup(entries: Seq<(String, PlistValue)>, key: Seq<char>) -> Option<PlistValue>
    decreases entries.len(),
{
    if entries.len() == 0 {
        None
    } else if entries[0].0@ == key {
        Some(entries[0].1)
    } else {
        dict_lookup(entries.drop_first(), key)
    }
}

/// `Value::as_dictionary`.
pub open spec fn spec_as_dictionary(v: PlistValue) -> Option<Seq<(String, PlistValue)>> {
    match v {
        PlistValue::Dictionary(d) => Some(d@),
        _ => None,
    }
}

/// `Value::as_boolean`.
pub open spec fn spec_as_boolean(v: PlistValue) -> Option<bool> {
    match v {
        PlistValue::Boolean(b) => Some(b),
        _ => None,
    }
}

/// `Value::as_signed_integer`.
pub open spec fn spec_as_signed_integer(v: PlistValue) -> Option<i64> {
    match v {
        PlistValue::Integer(i) => i,
        _ => None,
    }
}

/// `key` of a dictionary, if the value is one and holds it.
pub open spec fn spec_get(v: Option<PlistValue>, key: Seq<char>) -> Option<PlistValue> {
    match v {
        Some(PlistValue::Dictionary(d)) => dict_lookup(d@, key),
        _ => None,
    }
}

/// Looks `key` up among the entries of a dictionary.
pub fn dict_get<'a>(entries: &'a Vec<(String, PlistValue)>, key: &str) -> (r: Option<&'a PlistValue>)
    ensures
        match r {
            Some(v) => dict_lookup(entries@, key@) == Some(*v),
            None => dict_lookup(entries@, key@) is None,
        },
{
    let k = chars_of(key);
    let mut i: usize = 0;
    assert(entries@.skip(0) =~= entries@);
    while i < entries.len()
        invariant
            i <= entries@.len(),
            k@ == key@,
            dict_lookup(entries@, key@) == dict_lookup(entries@.skip(i as int), key@),
        decreases entries@.len() - i,
    {
        let ghost rest = entries@.skip(i as int);
        assert(rest.drop_first() =~= entries@.skip(i + 1));
        let name = chars_of(entries[i].0.as_str());
        if chars_eq(name.as_slice(), k.as_slice()) {
            return Some(&entries[i].1);
        }
        i = i + 1;
    }
    None
}

/// An optional reference taken by value.
pub open spec fn deref_opt(v: Option<&PlistValue>) -> Option<PlistValue> {
    match v {
        Some(p) => Some(*p),
        None => None,
    }
}

/// `key` of `v` when `v` is a dictionary.
pub fn get<'a>(v: Option<&'a PlistValue>, key: &str) -> (r: Option<&'a PlistValue>)
    ensures
        match r {
            Some(x) => spec_get(deref_opt(v), key@) == Some(*x),
            None => spec_get(deref_opt(v), key@) is None,
        },
{
    match v {
        Some(PlistValue::Dictionary(d)) => dict_get(d, key),
        _ => None,
    }
}

} // verus!
