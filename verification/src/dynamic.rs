//! The crate's model of a dynamic host value.
//!
//! The facade receives its binding as an untyped value whose structure is
//! discoverable only at runtime.  This module gives that value a concrete
//! shape the rest of the crate can reason about: a tree of primitives,
//! arrays and keyed objects, plus opaque handles for host-owned callables
//! and genuine binding objects.

use vstd::prelude::*;

use crate::shim::ShimSnapshot;

verus! {

/// One named property of a dynamic object.
#[derive(Debug, PartialEq)]
pub struct Prop {
    pub key: String,
    pub value: DynValue,
}

/// A dynamic object: a finite list of named properties.
///
/// Lookup takes the first entry with a matching key, so an earlier entry
/// shadows a later one with the same name; the objects this crate builds
/// never repeat a key.
#[derive(Debug, PartialEq)]
pub struct DynObject {
    pub entries: Vec<Prop>,
}

/// A dynamic host value.
///
/// Numbers are modeled at the precision the facade reads them: a number
/// with an exact non-negative integral value is `IntNum`, and any other
/// number is carried opaquely as its IEEE-754 float64 bit pattern
/// (`RawNum`), which the facade never interprets.
#[derive(Debug, PartialEq)]
pub enum DynValue {
    Undefined,
    Null,
    Boolean(bool),
    /// A number with an exact non-negative integral value.
    IntNum(u64),
    /// Any other number, as its IEEE-754 float64 bit pattern.
    RawNum(u64),
    Text(String),
    Array(Vec<DynValue>),
    Object(DynObject),
    /// An opaque host function, identified by a handle the host assigns.
    Callable(u64),
    /// The synthesized `describe` operation that the shim installer attaches.
    Shim(ShimSnapshot),
    /// A genuine host index binding, identified by an opaque handle.
    Genuine(u64),
}

/// First-match lookup of a key in a property list.
pub open spec fn obj_lookup(s: Seq<Prop>, k: Seq<char>) -> Option<DynValue>
    decreases s.len(),
{
    if s.len() == 0 {
        None
    } else if s[0].key@ == k {
        Some(s[0].value)
    } else {
        obj_lookup(s.drop_first(), k)
    }
}

pub proof fn lemma_obj_lookup_skip_step(s: Seq<Prop>, i: int, k: Seq<char>)
    requires
        0 <= i < s.len(),
    ensures
        obj_lookup(s.skip(i), k) == (if s[i].key@ == k {
            Some(s[i].value)
        } else {
            obj_lookup(s.skip(i + 1), k)
        }),
{
    assert(s.skip(i)[0] == s[i]);
    assert(s.skip(i).drop_first() =~= s.skip(i + 1));
}

/// Appending a property leaves every present key as it was and fills in
/// the appended key where it was absent.
pub proof fn lemma_obj_lookup_push(s: Seq<Prop>, p: Prop, k: Seq<char>)
    ensures
        obj_lookup(s.push(p), k) == (match obj_lookup(s, k) {
            Some(v) => Some(v),
            None => if p.key@ == k {
                Some(p.value)
            } else {
                None
            },
        }),
    decreases s.len(),
{
    reveal_with_fuel(obj_lookup, 3);
    if s.len() == 0 {
        assert(s.push(p)[0] == p);
        assert(s.push(p).drop_first() =~= Seq::<Prop>::empty());
    } else {
        assert(s.push(p)[0] == s[0]);
        assert(s.push(p).drop_first() =~= s.drop_first().push(p));
        lemma_obj_lookup_push(s.drop_first(), p, k);
    }
}

/// Append a property, leaving every present key as it was and filling
/// in the appended key where it was absent.
pub fn push_prop(entries: &mut Vec<Prop>, key: &str, value: DynValue)
    ensures
        forall|k: Seq<char>|
            #![trigger obj_lookup(final(entries)@, k)]
            obj_lookup(final(entries)@, k) == (match obj_lookup(old(entries)@, k) {
                Some(v) => Some(v),
                None => if k == key@ {
                    Some(value)
                } else {
                    None
                },
            }),
        final(entries)@.len() == old(entries)@.len() + 1,
{
    let prop = Prop { key: key.to_owned(), value };
    let ghost p = prop;
    entries.push(prop);
    proof {
        assert forall|k: Seq<char>|
            obj_lookup(entries@, k) == (match obj_lookup(old(entries)@, k) {
                Some(v) => Some(v),
                None => if k == key@ {
                    Some(p.value)
                } else {
                    None
                },
            }) by {
            lemma_obj_lookup_push(old(entries)@, p, k);
        }
    }
}

/// Whether a stored key equals the given property name.
fn key_is(key: &String, name: &str) -> (r: bool)
    ensures
        r == (key@ == name@),
{
    let owned: String = name.to_owned();
    *key == owned
}

impl DynObject {
    /// The value stored under a key, if any.
    pub open spec fn lookup(self, k: Seq<char>) -> Option<DynValue> {
        obj_lookup(self.entries@, k)
    }

    /// Whether the object exposes a property under the given key.
    pub open spec fn has_key(self, k: Seq<char>) -> bool {
        self.lookup(k) is Some
    }

    pub fn get<'a>(&'a self, name: &str) -> (r: Option<&'a DynValue>)
        ensures
            match r {
                Some(v) => self.lookup(name@) == Some(*v),
                None => self.lookup(name@) is None,
            },
    {
        let mut i: usize = 0;
        proof {
            assert(self.entries@.skip(0) =~= self.entries@);
        }
        while i < self.entries.len()
            invariant
                i <= self.entries.len(),
                obj_lookup(self.entries@, name@) == obj_lookup(self.entries@.skip(i as int), name@),
            decreases self.entries.len() - i,
        {
            proof {
                lemma_obj_lookup_skip_step(self.entries@, i as int, name@);
            }
            if key_is(&self.entries[i].key, name) {
                return Some(&self.entries[i].value);
            }
            i = i + 1;
        }
        proof {
            assert(self.entries@.skip(i as int) =~= Seq::<Prop>::empty());
        }
        None
    }

    pub fn has(&self, name: &str) -> (r: bool)
        ensures
            r == self.has_key(name@),
    {
        match self.get(name) {
            Some(_) => true,
            None => false,
        }
    }
}

/// The runtime type name of a value, as the host's `typeof` reports it;
/// a missing binding slot reads as `"undefined"` and an empty one as
/// `"null"`.
pub open spec fn spec_kind_name(v: DynValue) -> Seq<char> {
    match v {
        DynValue::Undefined => "undefined"@,
        DynValue::Null => "null"@,
        DynValue::Boolean(_) => "boolean"@,
        DynValue::IntNum(_) => "number"@,
        DynValue::RawNum(_) => "number"@,
        DynValue::Text(_) => "string"@,
        DynValue::Array(_) => "object"@,
        DynValue::Object(_) => "object"@,
        DynValue::Callable(_) => "function"@,
        DynValue::Shim(_) => "function"@,
        DynValue::Genuine(_) => "object"@,
    }
}

pub fn kind_name(v: &DynValue) -> (r: &'static str)
    ensures
        r@ == spec_kind_name(*v),
{
    match v {
        DynValue::Undefined => "undefined",
        DynValue::Null => "null",
        DynValue::Boolean(_) => "boolean",
        DynValue::IntNum(_) => "number",
        DynValue::RawNum(_) => "number",
        DynValue::Text(_) => "string",
        DynValue::Array(_) => "object",
        DynValue::Object(_) => "object",
        DynValue::Callable(_) => "function",
        DynValue::Shim(_) => "function",
        DynValue::Genuine(_) => "object",
    }
}

} // verus!
