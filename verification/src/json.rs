//! The wire document model: a JSON value built from plain values, the
//! shape in which requests leave the library and responses enter it. The
//! surrounding application moves these trees to and from the network.

use vstd::prelude::*;

verus! {

/// A JSON value as this protocol uses it. Object fields keep their
/// order; a number is carried as a fixed-point count of hundredths,
/// matching the protocol's single numeric field, an amount displayed to
/// two decimal places.
pub enum JsonValue {
    Null,
    Bool(bool),
    /// A number, in hundredths of its value.
    Num(i64),
    Str(String),
    Arr(Vec<JsonValue>),
    Obj(Vec<(String, JsonValue)>),
}

/// The first value under the given key, reading fields in order.
pub open spec fn spec_obj_get(fields: Seq<(String, JsonValue)>, key: Seq<char>) -> Option<
    JsonValue,
>
    decreases fields.len(),
{
    if fields.len() == 0 {
        None
    } else if fields[0].0@ == key {
        Some(fields[0].1)
    } else {
        spec_obj_get(fields.drop_first(), key)
    }
}

/// Looks a key up among an object's fields; the first match wins.
pub fn obj_get<'a>(fields: &'a Vec<(String, JsonValue)>, key: &String) -> (r: Option<
    &'a JsonValue,
>)
    ensures
        match r {
            Some(v) => spec_obj_get(fields@, key@) == Some(*v),
            None => spec_obj_get(fields@, key@) is None,
        },
{
    let mut i: usize = 0;
    proof {
        assert(fields@.skip(0) =~= fields@);
    }
    while i < fields.len()
        invariant
            i <= fields@.len(),
            spec_obj_get(fields@.skip(i as int), key@) == spec_obj_get(fields@, key@),
        decreases fields@.len() - i,
    {
        let pair = &fields[i];
        proof {
            assert(fields@.skip(i as int)[0] == fields@[i as int]);
        }
        if pair.0 == *key {
            return Some(&pair.1);
        }
        proof {
            assert(fields@.skip(i as int).drop_first() =~= fields@.skip(i + 1));
        }
        i = i + 1;
    }
    proof {
        assert(fields@.skip(fields@.len() as int).len() == 0);
    }
    None
}

} // verus!
