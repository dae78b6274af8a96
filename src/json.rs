//! JSON values as the page exchanges them with the host.
use vstd::prelude::*;

verus! {

/// A JSON number, kept in the form the wire format distinguishes.
#[derive(Clone, Copy, Debug, PartialEq, Eq)]
pub enum Number {
    /// A non-negative integer.
    Unsigned(u64),
    /// A negative integer.
    Negative(i64),
    /// Any other number, held as the bit pattern of its IEEE-754 double.
    Double(u64),
}

/// A JSON value. An object keeps its members in order, as pairs of a key
/// and a value.
#[derive(Debug, PartialEq)]
pub enum Json {
    Null,
    Bool(bool),
    Number(Number),
    Str(String),
    Array(Vec<Json>),
    Object(Vec<(String, Json)>),
}

/// `i` is the position of the first member of `members` named `key`.
pub open spec fn is_first_key(members: Seq<(String, Json)>, key: Seq<char>, i: int) -> bool {
    &&& 0 <= i < members.len()
    &&& members[i].0@ == key
    &&& forall|j: int| 0 <= j < i ==> members[j].0@ != key
}

/// The value of the first member named `key`, if there is one.
pub open spec fn field(members: Seq<(String, Json)>, key: Seq<char>) -> Option<Json> {
    if exists|i: int| is_first_key(members, key, i) {
        Some(members[choose|i: int| is_first_key(members, key, i)].1)
    } else {
        None
    }
}

/// The first member named `key` is the one at `i`, and `field` gives its value.
pub proof fn lemma_field_at(members: Seq<(String, Json)>, key: Seq<char>, i: int)
    requires
        is_first_key(members, key, i),
    ensures
        field(members, key) == Some(members[i].1),
{
    let k = choose|k: int| is_first_key(members, key, k);
    assert(is_first_key(members, key, k));
    if k < i {
        assert(members[k].0@ != key);
    } else if i < k {
        assert(members[i].0@ != key);
    }
}

/// Without a member named `key`, `field` gives nothing.
pub proof fn lemma_field_absent(members: Seq<(String, Json)>, key: Seq<char>)
    requires
        forall|j: int| 0 <= j < members.len() ==> members[j].0@ != key,
    ensures
        field(members, key) is None,
{
    if exists|i: int| is_first_key(members, key, i) {
        let i = choose|i: int| is_first_key(members, key, i);
        assert(members[i].0@ == key);
    }
}

/// Position of the first member of `members` named `key`.
pub fn find_member(members: &Vec<(String, Json)>, key: &String) -> (r: Option<usize>)
    ensures
        match r {
            Some(i) => is_first_key(members@, key@, i as int),
            None => forall|j: int| 0 <= j < members.len() ==> members@[j].0@ != key@,
        },
        r is None <==> field(members@, key@) is None,
        r matches Some(i) ==> field(members@, key@) == Some(members@[i as int].1),
{
    let mut i: usize = 0;
    while i < members.len()
        invariant
            i <= members.len(),
            forall|j: int| 0 <= j < i ==> members@[j].0@ != key@,
        decreases members.len() - i,
    {
        if members[i].0 == *key {
            proof {
                lemma_field_at(members@, key@, i as int);
            }
            return Some(i);
        }
        i = i + 1;
    }
    proof {
        lemma_field_absent(members@, key@);
    }
    None
}

} // verus!
