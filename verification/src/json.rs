//! JSON documents as plain values. `serde_json` reads the text; what the
//! library decides on is the tree that it hands back.

use vstd::prelude::*;

use crate::text::str_eq;

verus! {

/// `serde_json::Value`, which is changed into a [`Json`] as soon as it
/// comes.
#[verifier::external_type_specification]
#[verifier::external_body]
pub struct ExJsonValue(serde_json::Value);

/// A JSON value. A number is held as the text that `serde_json` displays
/// for it; the members of an object are held in the order in which
/// `serde_json` walks them.
#[derive(Debug, PartialEq, Eq)]
pub enum Json {
    /// `null`
    Null,
    /// `true` or `false`
    Bool(bool),
    /// A number, by its text
    Number(String),
    /// A string
    Str(String),
    /// An array, by its items
    Array(Vec<Json>),
    /// An object, by its members: names and values
    Object(Vec<(String, Json)>),
}

/// What `serde_json::from_slice::<serde_json::Value>` makes of `bytes`:
/// the document, or the text of the error that it reports.
pub uninterp spec fn json_document(bytes: Seq<u8>) -> Result<Json, Seq<char>>;

/// The first member named `key` among `members`.
pub open spec fn find_member(members: Seq<(String, Json)>, key: Seq<char>) -> Option<Json>
    decreases members.len(),
{
    if members.len() == 0 {
        None
    } else if members[0].0@ == key {
        Some(members[0].1)
    } else {
        find_member(members.drop_first(), key)
    }
}

/// The position of the first member named `key` among `members`, or their
/// number where there is none.
pub open spec fn member_position(members: Seq<(String, Json)>, key: Seq<char>) -> int
    decreases members.len(),
{
    if members.len() == 0 {
        0
    } else if members[0].0@ == key {
        0
    } else {
        1 + member_position(members.drop_first(), key)
    }
}

/// Where the first member named `key` stands, and that it is the one that
/// [`find_member`] finds.
pub proof fn lemma_member_position(members: Seq<(String, Json)>, key: Seq<char>)
    ensures
        0 <= member_position(members, key) <= members.len(),
        forall|k: int| 0 <= k < member_position(members, key) ==> (#[trigger] members[k]).0@ != key,
        member_position(members, key) < members.len() ==> {
            &&& members[member_position(members, key)].0@ == key
            &&& find_member(members, key) == Some(members[member_position(members, key)].1)
        },
        member_position(members, key) == members.len() ==> find_member(members, key) is None,
    decreases members.len(),
{
    if members.len() > 0 && members[0].0@ != key {
        let rest = members.drop_first();
        lemma_member_position(rest, key);
        assert forall|k: int| 0 <= k < member_position(members, key) implies (
        #[trigger] members[k]).0@ != key by {
            if k > 0 {
                assert(members[k] == rest[k - 1]);
            }
        }
    }
}

/// Taking out a member with another name does not change what is found
/// under `key`.
pub proof fn lemma_find_after_remove(members: Seq<(String, Json)>, at: int, key: Seq<char>)
    requires
        0 <= at < members.len(),
        members[at].0@ != key,
    ensures
        find_member(members.remove(at), key) == find_member(members, key),
    decreases members.len(),
{
    if at == 0 {
        assert(members.remove(0) =~= members.drop_first());
    } else {
        assert(members.remove(at)[0] == members[0]);
        assert(members.remove(at).drop_first() =~= members.drop_first().remove(at - 1));
        if members[0].0@ != key {
            lemma_find_after_remove(members.drop_first(), at - 1, key);
        }
    }
}

/// Changes a `serde_json::Value` into a [`Json`], variant by variant; a
/// `serde_json::Number` becomes the text that it displays.
#[verifier::external_body]
fn json_of_value(value: serde_json::Value) -> Json {
    match value {
        serde_json::Value::Null => Json::Null,
        serde_json::Value::Bool(b) => Json::Bool(b),
        serde_json::Value::Number(n) => Json::Number(n.to_string()),
        serde_json::Value::String(s) => Json::Str(s),
        serde_json::Value::Array(a) => Json::Array(a.into_iter().map(json_of_value).collect()),
        serde_json::Value::Object(o) => Json::Object(
            o.into_iter().map(|(k, v)| (k, json_of_value(v))).collect(),
        ),
    }
}

/// Calls `serde_json::from_slice::<serde_json::Value>` and hands back the
/// document as a [`Json`], or the error as the text that it displays. The
/// contract names that outcome and claims nothing else of it.
#[verifier::external_body]
fn read_document(bytes: &[u8]) -> (r: Result<Json, String>)
    ensures
        match r {
            Ok(document) => json_document(bytes@) == Ok::<Json, Seq<char>>(document),
            Err(message) => json_document(bytes@) == Err::<Json, Seq<char>>(message@),
        },
{
    serde_json::from_slice::<serde_json::Value>(bytes).map(json_of_value).map_err(|e| e.to_string())
}

/// Why a member of an object could not be read as text.
#[derive(Debug, Clone, Copy, PartialEq, Eq)]
pub enum MemberFault {
    /// The value is no object, or the object has no such member.
    Missing,
    /// The member is no string.
    NotText,
}

impl Json {
    /// The characters of a JSON string; nothing for any other value.
    pub open spec fn text(self) -> Option<Seq<char>> {
        match self {
            Json::Str(s) => Some(s@),
            _ => None,
        }
    }

    /// The first member named `key` of an object; nothing where there is
    /// none or the value is no object.
    pub open spec fn member(self, key: Seq<char>) -> Option<Json> {
        match self {
            Json::Object(members) => find_member(members@, key),
            _ => None,
        }
    }

    /// The text of the member named `key`, or why there is none.
    pub open spec fn member_text(self, key: Seq<char>) -> Result<Seq<char>, MemberFault> {
        match self.member(key) {
            None => Err(MemberFault::Missing),
            Some(value) => match value.text() {
                Some(text) => Ok(text),
                None => Err(MemberFault::NotText),
            },
        }
    }

    /// Reads a JSON document from its bytes. On failure the message is the
    /// one that `serde_json` gives.
    pub fn parse(bytes: &[u8]) -> (r: Result<Json, String>)
        ensures
            match r {
                Ok(document) => json_document(bytes@) == Ok::<Json, Seq<char>>(document),
                Err(message) => json_document(bytes@) == Err::<Json, Seq<char>>(message@),
            },
    {
        read_document(bytes)
    }

    /// Whether the value is `null`.
    pub fn is_null(&self) -> (r: bool)
        ensures
            r == (*self is Null),
    {
        match self {
            Json::Null => true,
            _ => false,
        }
    }

    /// The characters of a JSON string.
    pub fn as_str(&self) -> (r: Option<&str>)
        ensures
            match r {
                Some(s) => self.text() == Some(s@),
                None => self.text() is None,
            },
    {
        match self {
            Json::Str(s) => Some(s.as_str()),
            _ => None,
        }
    }

    /// The first member named `key` of an object.
    pub fn get(&self, key: &str) -> (r: Option<&Json>)
        ensures
            match r {
                Some(value) => self.member(key@) == Some(*value),
                None => self.member(key@) is None,
            },
    {
        match self {
            Json::Object(members) => {
                let mut i: usize = 0;
                proof {
                    lemma_member_position(members@, key@);
                }
                while i < members.len()
                    invariant
                        i <= members.len(),
                        i <= member_position(members@, key@),
                        self.member(key@) == find_member(members@, key@),
                    decreases members.len() - i,
                {
                    proof {
                        lemma_member_position(members@, key@);
                    }
                    if str_eq(members[i].0.as_str(), key) {
                        return Some(&members[i].1);
                    }
                    i += 1;
                }
                proof {
                    lemma_member_position(members@, key@);
                }
                None
            },
            _ => None,
        }
    }

    /// Takes the first member named `key` out of `members`. What is found
    /// under any other name stays as it was.
    pub fn take_member(members: &mut Vec<(String, Json)>, key: &str) -> (r: Option<Json>)
        ensures
            r == find_member(old(members)@, key@),
            final(members)@ == if r is Some {
                old(members)@.remove(member_position(old(members)@, key@))
            } else {
                old(members)@
            },
            forall|other: Seq<char>|
                other != key@ ==> #[trigger] find_member(final(members)@, other) == find_member(
                    old(members)@,
                    other,
                ),
    {
        let mut i: usize = 0;
        proof {
            lemma_member_position(members@, key@);
        }
        while i < members.len()
            invariant
                i <= members.len(),
                i <= member_position(members@, key@),
                members@ == old(members)@,
            decreases members.len() - i,
        {
            proof {
                lemma_member_position(members@, key@);
            }
            if str_eq(members[i].0.as_str(), key) {
                let taken = members.remove(i);
                proof {
                    assert forall|other: Seq<char>| other != key@ implies #[trigger] find_member(
                        members@,
                        other,
                    ) == find_member(old(members)@, other) by {
                        lemma_find_after_remove(old(members)@, i as int, other);
                    }
                }
                return Some(taken.1);
            }
            i += 1;
        }
        proof {
            lemma_member_position(members@, key@);
        }
        None
    }

    /// The text of the member named `key`.
    pub fn get_str(&self, key: &str) -> (r: Result<&str, MemberFault>)
        ensures
            match r {
                Ok(s) => self.member_text(key@) == Ok::<Seq<char>, MemberFault>(s@),
                Err(fault) => self.member_text(key@) == Err::<Seq<char>, MemberFault>(fault),
            },
    {
        match self.get(key) {
            None => Err(MemberFault::Missing),
            Some(value) => match value.as_str() {
                Some(text) => Ok(text),
                None => Err(MemberFault::NotText),
            },
        }
    }
}

} // verus!
