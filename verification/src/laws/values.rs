//! Values that are read by key.

use crate::json::{field, member, str_field, JsonV};
use vstd::prelude::*;

verus! {

/// Reading a key gives the value of the first member of that key, and nothing where there is no
/// such member.
pub proof fn a_key_reads_its_first_member(m: Seq<(Seq<char>, JsonV)>, key: Seq<char>, i: int)
    ensures
        0 <= i < m.len() && m[i].0 == key && (forall|j: int| 0 <= j < i ==> (#[trigger] m[j]).0 != key)
            ==> member(m, key) == Some(m[i].1),
        (forall|j: int| 0 <= j < m.len() ==> (#[trigger] m[j]).0 != key) ==> member(m, key) is None,
    decreases m.len(),
{
    if m.len() > 0 && m[0].0 != key {
        let rest = m.drop_first();
        assert(forall|j: int| 0 <= j < rest.len() ==> rest[j] == m[j + 1]);
        a_key_reads_its_first_member(rest, key, i - 1);
    }
}

/// Only an object has fields, and a field is read as text only where it is one.
pub proof fn only_texts_are_read_as_texts(j: JsonV, key: Seq<char>, t: Seq<char>)
    ensures
        j is Object ==> field(j, key) == member(j->Object_0, key),
        !(j is Object) ==> field(j, key) is None && str_field(j, key) is None,
        field(j, key) == Some(JsonV::Str(t)) ==> str_field(j, key) == Some(t),
        field(j, key) is None || !(field(j, key)->0 is Str) ==> str_field(j, key) is None,
{
}

} // verus!
