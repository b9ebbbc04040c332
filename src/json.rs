//! JSON values as the library reads and writes them.
use vstd::prelude::*;

verus! {

/// A JSON value.
///
/// Numbers come in three forms: a non-negative integer that fits in `u64`,
/// a negative integer that fits in `i64`, and any other number, kept as its
/// decimal text. Object members keep their order; a key is looked up by its
/// first occurrence.
#[derive(Debug, PartialEq, Eq)]
pub enum Json {
    Null,
    Bool(bool),
    Uint(u64),
    Int(i64),
    Float(String),
    Str(String),
    Array(Vec<Json>),
    Object(Vec<(String, Json)>),
}

/// The value of the first member of `members` named `key`, if any.
pub open spec fn entry(members: Seq<(String, Json)>, key: Seq<char>) -> Option<Json>
    decreases members.len(),
{
    if members.len() == 0 {
        None
    } else if members[0].0@ == key {
        Some(members[0].1)
    } else {
        entry(members.drop_first(), key)
    }
}

/// The member that a lookup finds, or `None`.
pub open spec fn found(v: Option<&Json>) -> Option<Json> {
    match v {
        Some(x) => Some(*x),
        None => None,
    }
}

/// Members that do not carry `key` can be skipped when looking it up.
pub proof fn lemma_entry_skip(members: Seq<(String, Json)>, key: Seq<char>, i: int)
    requires
        0 <= i <= members.len(),
        forall|j: int| 0 <= j < i ==> members[j].0@ != key,
    ensures
        entry(members, key) == entry(members.subrange(i, members.len() as int), key),
    decreases i,
{
    if i == 0 {
        assert(members.subrange(0, members.len() as int) =~= members);
    } else {
        lemma_entry_skip(members.drop_first(), key, i - 1);
        assert(members.drop_first().subrange(i - 1, members.len() - 1) =~= members.subrange(
            i,
            members.len() as int,
        ));
    }
}

/// Finds the first member of `members` named `key`.
pub fn lookup<'a>(members: &'a Vec<(String, Json)>, key: &str) -> (r: Option<&'a Json>)
    ensures
        found(r) == entry(members@, key@),
{
    let name = String::from_str(key);
    let mut i: usize = 0;
    while i < members.len()
        invariant
            0 <= i <= members.len(),
            name@ == key@,
            forall|j: int| 0 <= j < i ==> members@[j].0@ != key@,
        decreases members.len() - i,
    {
        if members[i].0 == name {
            proof {
                lemma_entry_skip(members@, key@, i as int);
            }
            return Some(&members[i].1);
        }
        i = i + 1;
    }
    proof {
        lemma_entry_skip(members@, key@, i as int);
    }
    None
}

/// The first member named `key` stands at index `i`.
pub proof fn lemma_entry_at(members: Seq<(String, Json)>, key: Seq<char>, i: int)
    requires
        0 <= i < members.len(),
        members[i].0@ == key,
        forall|j: int| 0 <= j < i ==> members[j].0@ != key,
    ensures
        entry(members, key) == Some(members[i].1),
{
    lemma_entry_skip(members, key, i);
    let rest = members.subrange(i, members.len() as int);
    assert(rest[0] == members[i]);
}

} // verus!
