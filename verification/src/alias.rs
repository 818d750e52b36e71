//! Sticker aliases: short names that the members of a chat give to stickers.
//!
//! A chat's aliases are the fields of its alias hash, and the value of each
//! is the id of the sticker it stands for. Writing an alias that exists
//! overwrites it. Storing aliases is best effort: no failure of the store
//! reaches the caller, and an alias that cannot be read is an alias that is
//! not there.

use crate::keys::{aliases_key, get_aliases_key, lemma_chat_keys_distinct};
use crate::store::{
    applied_where, carries_value, DeleteField, DeleteFieldView, GetField, GetFieldView,
    HashContents, SetField, SetFieldView,
};
use vstd::prelude::*;

verus! {

/// The write that maps `alias` to `sticker_id` in the chat `chat_id`.
pub open spec fn alias_write(chat_id: i64, alias: Seq<char>, sticker_id: Seq<char>) -> SetFieldView {
    SetFieldView { key: aliases_key(chat_id), field: alias, value: sticker_id }
}

/// The writes that map each of `aliases` to `sticker_id` in the chat
/// `chat_id`, in the order of `aliases`.
pub open spec fn alias_writes(chat_id: i64, aliases: Seq<Seq<char>>, sticker_id: Seq<char>) -> Seq<
    SetFieldView,
> {
    Seq::new(aliases.len(), |i: int| alias_write(chat_id, aliases[i], sticker_id))
}

/// The read that looks `alias` up in the chat `chat_id`.
pub open spec fn alias_read(chat_id: i64, alias: Seq<char>) -> GetFieldView {
    GetFieldView { key: aliases_key(chat_id), field: alias }
}

/// The removal of `alias` from the chat `chat_id`.
pub open spec fn alias_removal(chat_id: i64, alias: Seq<char>) -> DeleteFieldView {
    DeleteFieldView { key: aliases_key(chat_id), field: alias }
}

/// The sticker id that a reply to an alias read gives the caller: the value
/// it carries, and nothing where the alias does not exist or the read failed.
pub open spec fn sticker_id_found(reply: Result<Option<String>, redis::RedisError>) -> Option<
    String,
> {
    match reply {
        Ok(Some(sticker_id)) => Some(sticker_id),
        _ => None,
    }
}

/// The request that maps `alias` to `sticker_id` in the chat `chat_id`. If
/// the alias is already tied to a sticker, it will be tied to this one
/// instead.
pub fn set_alias_request(chat_id: i64, alias: &str, sticker_id: &str) -> (request: SetField)
    ensures
        request@ == alias_write(chat_id, alias@, sticker_id@),
{
    SetField {
        key: get_aliases_key(chat_id),
        field: String::from_str(alias),
        value: String::from_str(sticker_id),
    }
}

/// The requests that map every one of `aliases` to `sticker_id` in the chat
/// `chat_id`, one request per alias, in the order of `aliases`.
///
/// The requests are independent of each other and no transaction: the store
/// serves them one by one, others may read and write in between, and one
/// that fails does not keep the next from being made.
pub fn set_aliases_requests(chat_id: i64, aliases: &[&str], sticker_id: &str) -> (requests: Vec<
    SetField,
>)
    ensures
        requests@.map_values(|request: SetField| request@) == alias_writes(
            chat_id,
            aliases@.map_values(|alias: &str| alias@),
            sticker_id@,
        ),
{
    let mut requests: Vec<SetField> = Vec::new();
    let mut done: usize = 0;
    while done < aliases.len()
        invariant
            done <= aliases@.len(),
            requests@.len() == done,
            forall|i: int|
                0 <= i < done ==> (#[trigger] requests@[i])@ == alias_write(
                    chat_id,
                    aliases@[i]@,
                    sticker_id@,
                ),
        decreases aliases@.len() - done,
    {
        requests.push(set_alias_request(chat_id, aliases[done], sticker_id));
        done += 1;
    }
    requests
}

/// The request that looks `alias` up in the chat `chat_id`.
pub fn get_sticker_id_request(chat_id: i64, alias: &str) -> (request: GetField)
    ensures
        request@ == alias_read(chat_id, alias@),
{
    GetField { key: get_aliases_key(chat_id), field: String::from_str(alias) }
}

/// The sticker id that the store's reply to an alias read holds, if any.
///
/// A read that failed looks to the caller like an alias that does not exist.
pub fn get_sticker_id_result(reply: Result<Option<String>, redis::RedisError>) -> (found: Option<
    String,
>)
    ensures
        found == sticker_id_found(reply),
{
    match reply {
        Ok(Some(sticker_id)) => Some(sticker_id),
        _ => None,
    }
}

/// The request that removes `alias` from the chat `chat_id`. Removing an
/// alias that does not exist is no error.
pub fn remove_alias_request(chat_id: i64, alias: &str) -> (request: DeleteField)
    ensures
        request@ == alias_removal(chat_id, alias@),
{
    DeleteField { key: get_aliases_key(chat_id), field: String::from_str(alias) }
}

/// An alias that was set is found, with the sticker id that was given for
/// it, whatever the store held before.
pub proof fn lemma_set_alias_then_get(
    contents: HashContents,
    chat_id: i64,
    alias: Seq<char>,
    sticker_id: Seq<char>,
    reply: Result<Option<String>, redis::RedisError>,
)
    requires
        carries_value(
            reply,
            alias_read(chat_id, alias).answer(
                alias_write(chat_id, alias, sticker_id).applied(contents),
            ),
        ),
    ensures
        sticker_id_found(reply) matches Some(found) && found@ == sticker_id,
{
}

/// The last write wins: an alias that was set twice is found with the
/// sticker id that was given for it the second time.
pub proof fn lemma_set_alias_overwrites(
    contents: HashContents,
    chat_id: i64,
    alias: Seq<char>,
    first: Seq<char>,
    second: Seq<char>,
    reply: Result<Option<String>, redis::RedisError>,
)
    requires
        carries_value(
            reply,
            alias_read(chat_id, alias).answer(
                alias_write(chat_id, alias, second).applied(
                    alias_write(chat_id, alias, first).applied(contents),
                ),
            ),
        ),
    ensures
        sticker_id_found(reply) matches Some(found) && found@ == second,
{
}

/// An alias that was removed is not found, whether it existed or not.
pub proof fn lemma_remove_alias_then_get(
    contents: HashContents,
    chat_id: i64,
    alias: Seq<char>,
    reply: Result<Option<String>, redis::RedisError>,
)
    requires
        carries_value(
            reply,
            alias_read(chat_id, alias).answer(alias_removal(chat_id, alias).applied(contents)),
        ),
    ensures
        sticker_id_found(reply) is None,
{
}

/// After the writes for a list of aliases, each alias whose write the store
/// served holds the sticker id, whichever of the other writes were served.
pub proof fn lemma_set_aliases_holds(
    contents: HashContents,
    chat_id: i64,
    aliases: Seq<Seq<char>>,
    sticker_id: Seq<char>,
    served: Seq<bool>,
    i: int,
)
    requires
        served.len() == aliases.len(),
        0 <= i < aliases.len(),
        served[i],
    ensures
        alias_read(chat_id, aliases[i]).answer(
            applied_where(alias_writes(chat_id, aliases, sticker_id), served, contents),
        ) == Some(sticker_id),
    decreases aliases.len(),
{
    // The writes but the last are the writes for the aliases but the last.
    let writes = alias_writes(chat_id, aliases, sticker_id);
    assert(writes.drop_last() =~= alias_writes(chat_id, aliases.drop_last(), sticker_id));
    assert(writes.last() == alias_write(chat_id, aliases.last(), sticker_id));
    if i < aliases.len() - 1 {
        lemma_set_aliases_holds(
            contents,
            chat_id,
            aliases.drop_last(),
            sticker_id,
            served.drop_last(),
            i,
        );
    }
}

/// When every write for a list of aliases was served, each of the aliases is
/// found with the sticker id.
pub proof fn lemma_set_aliases_then_get(
    contents: HashContents,
    chat_id: i64,
    aliases: Seq<Seq<char>>,
    sticker_id: Seq<char>,
    i: int,
    reply: Result<Option<String>, redis::RedisError>,
)
    requires
        0 <= i < aliases.len(),
        carries_value(
            reply,
            alias_read(chat_id, aliases[i]).answer(
                applied_where(
                    alias_writes(chat_id, aliases, sticker_id),
                    Seq::new(aliases.len(), |k: int| true),
                    contents,
                ),
            ),
        ),
    ensures
        sticker_id_found(reply) matches Some(found) && found@ == sticker_id,
{
    lemma_set_aliases_holds(
        contents,
        chat_id,
        aliases,
        sticker_id,
        Seq::new(aliases.len(), |k: int| true),
        i,
    );
}

/// Setting or removing an alias changes what is found for no other alias,
/// neither of the same chat nor of another.
pub proof fn lemma_alias_untouched(
    contents: HashContents,
    chat_id: i64,
    alias: Seq<char>,
    sticker_id: Seq<char>,
    other_chat: i64,
    other_alias: Seq<char>,
)
    requires
        chat_id != other_chat || alias != other_alias,
    ensures
        alias_read(other_chat, other_alias).answer(
            alias_write(chat_id, alias, sticker_id).applied(contents),
        ) == alias_read(other_chat, other_alias).answer(contents),
        alias_read(other_chat, other_alias).answer(alias_removal(chat_id, alias).applied(contents))
            == alias_read(other_chat, other_alias).answer(contents),
{
    lemma_chat_keys_distinct(chat_id, other_chat);
}

} // verus!
