//! Reference value sets: external mappings from short code strings to
//! display metadata. Resolution is best-effort - a missing set or an
//! unknown code degrades to the raw code with no metadata, never an
//! error.

use vstd::prelude::*;

use crate::cbor::bytes_eq;
use crate::dcc::Date;

verus! {

/// Display metadata for one coded value.
#[derive(Debug, Clone, PartialEq, Eq)]
pub struct Value {
    pub display: Vec<u8>,
    pub lang: Vec<u8>,
    pub active: bool,
    pub version: Vec<u8>,
    pub system: Vec<u8>,
}

/// The mathematical content of display metadata.
pub struct SpecValue {
    pub display: Seq<u8>,
    pub lang: Seq<u8>,
    pub active: bool,
    pub version: Seq<u8>,
    pub system: Seq<u8>,
}

impl View for Value {
    type V = SpecValue;

    open spec fn view(&self) -> SpecValue {
        SpecValue {
            display: self.display@,
            lang: self.lang@,
            active: self.active,
            version: self.version@,
            system: self.system@,
        }
    }
}

/// One reference value set: its identifier, its version date, and the
/// mapping from code to metadata as a list of pairs.
#[derive(Debug, Clone)]
pub struct ValueSet {
    pub id: Vec<u8>,
    pub date: Date,
    pub values: Vec<(Vec<u8>, Value)>,
}

/// The metadata of the first pair whose code equals `key`, if any.
pub open spec fn spec_lookup(values: Seq<(Vec<u8>, Value)>, key: Seq<u8>) -> Option<SpecValue>
    decreases values.len(),
{
    if values.len() == 0 {
        None
    } else if values[0].0@ == key {
        Some(values[0].1@)
    } else {
        spec_lookup(values.skip(1), key)
    }
}

/// The resolution of a code against an optionally available value set:
/// `None` where the set is unavailable or the code is not in it.
pub open spec fn spec_resolve(set: Option<ValueSet>, key: Seq<u8>) -> Option<SpecValue> {
    match set {
        None => None,
        Some(vs) => spec_lookup(vs.values@, key),
    }
}

/// A coded value as decoded from a payload: the raw code string, and the
/// display metadata it resolved to, if any.
#[derive(Debug, Clone, PartialEq, Eq)]
pub struct ValueSetEntry {
    pub key: Vec<u8>,
    pub value: Option<Value>,
}

/// The mathematical content of a coded value entry.
pub struct SpecValueSetEntry {
    pub key: Seq<u8>,
    pub value: Option<SpecValue>,
}

impl View for ValueSetEntry {
    type V = SpecValueSetEntry;

    open spec fn view(&self) -> SpecValueSetEntry {
        SpecValueSetEntry {
            key: self.key@,
            value: match self.value {
                Some(v) => Some(v@),
                None => None,
            },
        }
    }
}

/// Copies a byte buffer.
pub fn copy_bytes(v: &[u8]) -> (r: Vec<u8>)
    ensures
        r@ == v@,
{
    crate::cbor::copy_range(v, 0, v.len())
}

/// Copies one metadata record.
fn copy_value(v: &Value) -> (r: Value)
    ensures
        r@ == v@,
{
    Value {
        display: copy_bytes(v.display.as_slice()),
        lang: copy_bytes(v.lang.as_slice()),
        active: v.active,
        version: copy_bytes(v.version.as_slice()),
        system: copy_bytes(v.system.as_slice()),
    }
}

/// Finds the metadata of the first pair whose code equals `key`.
fn lookup(values: &Vec<(Vec<u8>, Value)>, key: &[u8]) -> (r: Option<Value>)
    ensures
        r matches Some(v) ==> spec_lookup(values@, key@) == Some(v@),
        r is None ==> spec_lookup(values@, key@) is None,
{
    let n = values.len();
    let mut k: usize = 0;
    proof {
        assert(values@.skip(0) =~= values@);
    }
    while k < n
        invariant
            k <= n,
            n == values@.len(),
            spec_lookup(values@, key@) == spec_lookup(values@.skip(k as int), key@),
        decreases n - k,
    {
        proof {
            assert(values@.skip(k as int)[0] == values@[k as int]);
            assert(values@.skip(k as int).skip(1) =~= values@.skip(k as int + 1));
        }
        if bytes_eq(values[k].0.as_slice(), key) {
            return Some(copy_value(&values[k].1));
        }
        k = k + 1;
    }
    proof {
        assert(values@.skip(k as int).len() == 0);
    }
    None
}

/// Resolves a raw code against an optionally available value set,
/// keeping the raw code either way.
pub fn resolve(set: &Option<ValueSet>, key: Vec<u8>) -> (r: ValueSetEntry)
    ensures
        r@.key == key@,
        r@.value == spec_resolve(*set, key@),
{
    let found: Option<Value> = match set {
        None => None,
        Some(vs) => lookup(&vs.values, key.as_slice()),
    };
    ValueSetEntry { key, value: found }
}

/// The externally loaded reference data handed into payload decoding:
/// one optional value set per coded field category.
#[derive(Debug, Clone, Default)]
pub struct EhnData {
    pub vaccine_prophylaxis: Option<ValueSet>,
    pub disease_agent_targeted: Option<ValueSet>,
    pub vaccine_mah_manf: Option<ValueSet>,
    pub vaccine_medicinal_product: Option<ValueSet>,
}

} // verus!
