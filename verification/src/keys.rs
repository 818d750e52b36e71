//! Names of the hashes and fields under which a chat's data is stored.
//!
//! Every chat owns the hashes `chat:<id>aliases` and `chat:<id>dialogues`,
//! where `<id>` is the chat id in decimal. Inside the dialogue hash a user is
//! filed under the decimal form of the user id, and the state kept for nobody
//! in particular under `NO_ID`.

use crate::decimal::{decimal, decimal_string, lemma_decimal_chars, lemma_decimal_injective};
use vstd::prelude::*;

verus! {

/// What every chat key starts with.
pub open spec fn chat_prefix() -> Seq<char> {
    seq!['c', 'h', 'a', 't', ':']
}

/// What the key of a chat's alias hash ends with.
pub open spec fn aliases_suffix() -> Seq<char> {
    seq!['a', 'l', 'i', 'a', 's', 'e', 's']
}

/// What the key of a chat's dialogue hash ends with.
pub open spec fn dialogues_suffix() -> Seq<char> {
    seq!['d', 'i', 'a', 'l', 'o', 'g', 'u', 'e', 's']
}

/// The field under which dialogue state without a user is filed.
pub open spec fn no_id() -> Seq<char> {
    seq!['N', 'O', '_', 'I', 'D']
}

/// The base key of a chat: `chat:` followed by the chat id.
pub open spec fn chat_key(chat_id: i64) -> Seq<char> {
    chat_prefix() + decimal(chat_id as int)
}

/// The key of the hash that maps a chat's aliases to sticker ids.
pub open spec fn aliases_key(chat_id: i64) -> Seq<char> {
    chat_key(chat_id) + aliases_suffix()
}

/// The key of the hash that holds a chat's dialogues, one field per user.
pub open spec fn dialogues_key(chat_id: i64) -> Seq<char> {
    chat_key(chat_id) + dialogues_suffix()
}

/// The field of the dialogue hash that belongs to `from_id`.
pub open spec fn from_field(from_id: Option<i64>) -> Seq<char> {
    match from_id {
        Some(id) => decimal(id as int),
        None => no_id(),
    }
}

/// Two texts that are equal, start alike and end alike are equal in
/// between.
proof fn lemma_equal_in_between(head: Seq<char>, x: Seq<char>, y: Seq<char>, tail: Seq<char>)
    requires
        head + x + tail == head + y + tail,
    ensures
        x == y,
{
    let left = head + x + tail;
    let right = head + y + tail;
    assert(left.len() == right.len());
    assert forall|k: int| 0 <= k < x.len() implies x[k] == y[k] by {
        assert(x[k] == left[head.len() + k]);
        assert(y[k] == right[head.len() + k]);
    }
    assert(x =~= y);
}

/// The key of an alias hash is never the key of a dialogue hash.
proof fn lemma_alias_key_is_no_dialogue_key(alias_chat: i64, dialogue_chat: i64)
    ensures
        aliases_key(alias_chat) != dialogues_key(dialogue_chat),
{
    let aliases = aliases_key(alias_chat);
    let dialogues = dialogues_key(dialogue_chat);
    if aliases == dialogues {
        // Third from the end stands `s` in the one and `u` in the other.
        assert(aliases[aliases.len() - 3] == aliases_suffix()[4]);
        assert(dialogues[dialogues.len() - 3] == dialogues_suffix()[6]);
        assert(false);
    }
}

/// Chat keys tell chats apart, and no alias hash shares its key with a
/// dialogue hash, be it of the same chat or of another.
pub proof fn lemma_chat_keys_distinct(c1: i64, c2: i64)
    ensures
        aliases_key(c1) != dialogues_key(c2),
        dialogues_key(c1) != aliases_key(c2),
        c1 != c2 ==> chat_key(c1) != chat_key(c2),
        c1 != c2 ==> aliases_key(c1) != aliases_key(c2),
        c1 != c2 ==> dialogues_key(c1) != dialogues_key(c2),
{
    lemma_alias_key_is_no_dialogue_key(c1, c2);
    lemma_alias_key_is_no_dialogue_key(c2, c1);
    let d1 = decimal(c1 as int);
    let d2 = decimal(c2 as int);
    if chat_key(c1) == chat_key(c2) {
        assert(chat_key(c1) =~= chat_prefix() + d1 + Seq::<char>::empty());
        assert(chat_key(c2) =~= chat_prefix() + d2 + Seq::<char>::empty());
        lemma_equal_in_between(chat_prefix(), d1, d2, Seq::<char>::empty());
        lemma_decimal_injective(c1 as int, c2 as int);
    }
    if aliases_key(c1) == aliases_key(c2) {
        lemma_equal_in_between(chat_prefix(), d1, d2, aliases_suffix());
        lemma_decimal_injective(c1 as int, c2 as int);
    }
    if dialogues_key(c1) == dialogues_key(c2) {
        lemma_equal_in_between(chat_prefix(), d1, d2, dialogues_suffix());
        lemma_decimal_injective(c1 as int, c2 as int);
    }
}

/// The placeholder is the field of no user id, and different user references
/// are filed under different fields.
pub proof fn lemma_from_fields_distinct(a: Option<i64>, b: Option<i64>)
    ensures
        from_field(None) == no_id(),
        a is Some ==> from_field(a) != no_id(),
        a != b ==> from_field(a) != from_field(b),
{
    // A decimal form starts with a digit or a minus sign, the placeholder
    // with a letter.
    assert(no_id()[0] == 'N');
    if let Some(id) = a {
        lemma_decimal_chars(id as int);
    }
    if let Some(id) = b {
        lemma_decimal_chars(id as int);
    }
    if a != b && from_field(a) == from_field(b) {
        match (a, b) {
            (Some(x), Some(y)) => {
                lemma_decimal_injective(x as int, y as int);
            },
            _ => {},
        }
    }
}

/// The base key of the chat `chat_id`.
pub fn get_chat_key(chat_id: i64) -> (key: String)
    ensures
        key@ == chat_key(chat_id),
{
    proof {
        reveal_strlit("chat:");
    }
    let mut key = String::from_str("chat:");
    let id = decimal_string(chat_id);
    key.append(id.as_str());
    key
}

/// The key of the alias hash of the chat `chat_id`.
pub fn get_aliases_key(chat_id: i64) -> (key: String)
    ensures
        key@ == aliases_key(chat_id),
{
    proof {
        reveal_strlit("aliases");
    }
    get_chat_key(chat_id).concat("aliases")
}

/// The key of the dialogue hash of the chat `chat_id`.
pub fn get_dialogues_key(chat_id: i64) -> (key: String)
    ensures
        key@ == dialogues_key(chat_id),
{
    proof {
        reveal_strlit("dialogues");
    }
    get_chat_key(chat_id).concat("dialogues")
}

/// The field of the dialogue hash under which `from_id` is filed.
pub fn get_from_field(from_id: Option<i64>) -> (field: String)
    ensures
        field@ == from_field(from_id),
{
    match from_id {
        Some(id) => decimal_string(id),
        None => {
            proof {
                reveal_strlit("NO_ID");
            }
            String::from_str("NO_ID")
        },
    }
}

} // verus!
