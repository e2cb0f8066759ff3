//! The model of an opaque foreign value.
//!
//! Everything the engine hands back — notification payloads and promise
//! resolutions — arrives as a loosely typed object. The library holds such
//! data as a [`Value`]: a JSON-like tree of plain values. The host side
//! converts the real foreign objects into this shape at the boundary.

use vstd::prelude::*;

verus! {

/// A foreign value as the library models it.
#[derive(Debug)]
pub enum Value {
    /// The foreign `null` (and `undefined` where it stands for a value).
    Null,
    Bool(bool),
    /// An integral number.
    Int(i64),
    Str(String),
    Arr(Vec<Value>),
    /// An object, as its key/value pairs in source order.
    Obj(Vec<(String, Value)>),
    /// A foreign value outside this model (a fractional number, a function, ...).
    Other,
}

/// The value under the first pair whose key reads `key`, if any.
pub open spec fn spec_get(fields: Seq<(String, Value)>, key: Seq<char>) -> Option<Value>
    decreases fields.len(),
{
    if fields.len() == 0 {
        None
    } else if fields[0].0@ == key {
        Some(fields[0].1)
    } else {
        spec_get(fields.drop_first(), key)
    }
}

/// String comparison whose result is pinned to the views.
pub fn str_eq(a: &str, b: &str) -> (r: bool)
    ensures
        r == (a@ == b@),
{
    let sa: String = a.to_owned();
    let sb: String = b.to_owned();
    sa == sb
}

/// Field lookup in a decoded object: the first pair whose key reads `key`.
pub fn obj_get<'a>(fields: &'a Vec<(String, Value)>, key: &str) -> (r: Option<&'a Value>)
    ensures
        match r {
            Some(v) => spec_get(fields@, key@) == Some(*v),
            None => spec_get(fields@, key@) is None,
        },
{
    proof {
        assert(fields@.skip(0) =~= fields@);
    }
    let mut i: usize = 0;
    while i < fields.len()
        invariant
            i <= fields@.len(),
            spec_get(fields@, key@) == spec_get(fields@.skip(i as int), key@),
            forall|j: int| 0 <= j < i ==> fields@[j].0@ != key@,
        decreases fields@.len() - i,
    {
        proof {
            assert(fields@.skip(i as int).drop_first() =~= fields@.skip(i as int + 1));
        }
        if str_eq(fields[i].0.as_str(), key) {
            return Some(&fields[i].1);
        }
        i = i + 1;
    }
    proof {
        assert(fields@.skip(i as int).len() == 0);
    }
    None
}

/// Removing a pair whose key is not `key` leaves the lookup of `key` as it was.
proof fn lemma_get_after_remove(f: Seq<(String, Value)>, i: int, k: Seq<char>)
    requires
        0 <= i < f.len(),
        f[i].0@ != k,
    ensures
        spec_get(f.remove(i), k) == spec_get(f, k),
    decreases i,
{
    if i == 0 {
        assert(f.remove(0) =~= f.drop_first());
    } else {
        assert(f.remove(i).drop_first() =~= f.drop_first().remove(i - 1));
        lemma_get_after_remove(f.drop_first(), i - 1, k);
    }
}

/// Field lookup that hands the found value out by move.
///
/// Lookups of every other key are unaffected by the removal.
pub fn take_field(fields: &mut Vec<(String, Value)>, key: &str) -> (r: Option<Value>)
    ensures
        r == spec_get(old(fields)@, key@),
        forall|k: Seq<char>|
            k != key@ ==> #[trigger] spec_get(final(fields)@, k) == spec_get(old(fields)@, k),
{
    proof {
        assert(fields@.skip(0) =~= fields@);
    }
    let mut i: usize = 0;
    while i < fields.len()
        invariant
            i <= fields@.len(),
            fields@ == old(fields)@,
            spec_get(fields@, key@) == spec_get(fields@.skip(i as int), key@),
            forall|j: int| 0 <= j < i ==> fields@[j].0@ != key@,
        decreases fields@.len() - i,
    {
        proof {
            assert(fields@.skip(i as int).drop_first() =~= fields@.skip(i as int + 1));
        }
        if str_eq(fields[i].0.as_str(), key) {
            proof {
                assert forall|k: Seq<char>| k != key@ implies #[trigger] spec_get(
                    fields@.remove(i as int),
                    k,
                ) == spec_get(fields@, k) by {
                    lemma_get_after_remove(fields@, i as int, k);
                }
            }
            let pair = fields.remove(i);
            return Some(pair.1);
        }
        i = i + 1;
    }
    proof {
        assert(fields@.skip(i as int).len() == 0);
    }
    None
}

} // verus!
