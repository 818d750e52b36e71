//! Dialogues: the state of the conversation with each user of a chat.
//!
//! A chat's dialogues are the fields of its dialogue hash, one per user, and
//! the value of each is the state encoded as JSON text. Unlike aliases,
//! dialogues steer the conversation, so every failure reaches the caller:
//! a state that cannot be encoded, a text that cannot be decoded, a command
//! that the store did not serve, and a removal that found nothing to remove.

use crate::alias::{alias_read, alias_removal, alias_write};
use crate::error::RedisStorageError;
use crate::keys::{
    dialogues_key, from_field, get_dialogues_key, get_from_field, lemma_chat_keys_distinct,
    lemma_from_fields_distinct,
};
use crate::store::{
    carries_count, DeleteField, DeleteFieldView, GetField, GetFieldView, HashContents, SetField,
    SetFieldView,
};
use vstd::prelude::*;

verus! {

/// The write that stores `text` as the dialogue of `from_id` in the chat
/// `chat_id`.
pub open spec fn dialogue_write(chat_id: i64, from_id: Option<i64>, text: Seq<char>) -> SetFieldView {
    SetFieldView { key: dialogues_key(chat_id), field: from_field(from_id), value: text }
}

/// The read of the dialogue of `from_id` in the chat `chat_id`.
pub open spec fn dialogue_read(chat_id: i64, from_id: Option<i64>) -> GetFieldView {
    GetFieldView { key: dialogues_key(chat_id), field: from_field(from_id) }
}

/// The removal of the dialogue of `from_id` from the chat `chat_id`.
pub open spec fn dialogue_removal(chat_id: i64, from_id: Option<i64>) -> DeleteFieldView {
    DeleteFieldView { key: dialogues_key(chat_id), field: from_field(from_id) }
}

/// What the caller is told of an update once the store has replied.
pub open spec fn dialogue_updated(reply: Result<(), redis::RedisError>) -> Result<
    (),
    RedisStorageError,
> {
    match reply {
        Ok(_) => Ok(()),
        Err(error) => Err(RedisStorageError::RedisError(error)),
    }
}

/// The dialogue that the caller gets from a reply to a read whose text, if
/// it carried one, has been through the decoder.
///
/// A failure of the store comes first, then a field that does not exist,
/// which is no error, and last what the decoder made of the text.
pub open spec fn dialogue_got<D>(
    reply: Result<Option<Result<D, serde_json::Error>>, redis::RedisError>,
) -> Result<Option<D>, RedisStorageError> {
    match reply {
        Err(error) => Err(RedisStorageError::RedisError(error)),
        Ok(None) => Ok(None),
        Ok(Some(Ok(dialogue))) => Ok(Some(dialogue)),
        Ok(Some(Err(error))) => Err(RedisStorageError::SerdeError(error)),
    }
}

/// What the caller is told of a removal once the store has replied with the
/// number of fields it deleted: success where it deleted one, and that the
/// dialogue was not found where it deleted none.
pub open spec fn dialogue_removed(reply: Result<i64, redis::RedisError>) -> Result<
    (),
    RedisStorageError,
> {
    match reply {
        Ok(count) => if count > 0 {
            Ok(())
        } else {
            Err(RedisStorageError::DialogueNotFound)
        },
        Err(error) => Err(RedisStorageError::RedisError(error)),
    }
}

/// Whether `reply` is a store's answer `answer` to a dialogue read, come
/// back without an error, with the text it carried decoded or refused.
pub open spec fn carries_decoded<D>(
    reply: Result<Option<Result<D, serde_json::Error>>, redis::RedisError>,
    answer: Option<Seq<char>>,
) -> bool {
    match reply {
        Ok(Some(_)) => answer is Some,
        Ok(None) => answer is None,
        Err(_) => false,
    }
}

/// The request that stores a dialogue for `from_id` in the chat `chat_id`,
/// given what the encoder made of the dialogue.
///
/// Where the dialogue could not be encoded there is no request, and the
/// store is not touched.
pub fn update_dialogue_request(
    chat_id: i64,
    from_id: Option<i64>,
    encoded: Result<String, serde_json::Error>,
) -> (request: Result<SetField, RedisStorageError>)
    ensures
        match encoded {
            Ok(text) => request matches Ok(write) && write@ == dialogue_write(
                chat_id,
                from_id,
                text@,
            ),
            Err(error) => request matches Err(RedisStorageError::SerdeError(kept)) && kept
                == error,
        },
{
    match encoded {
        Ok(text) => Ok(
            SetField {
                key: get_dialogues_key(chat_id),
                field: get_from_field(from_id),
                value: text,
            },
        ),
        Err(error) => Err(RedisStorageError::SerdeError(error)),
    }
}

/// What became of an update, given the store's reply to its request.
pub fn update_dialogue_result(reply: Result<(), redis::RedisError>) -> (result: Result<
    (),
    RedisStorageError,
>)
    ensures
        result == dialogue_updated(reply),
{
    match reply {
        Ok(_) => Ok(()),
        Err(error) => Err(RedisStorageError::RedisError(error)),
    }
}

/// The request that reads the dialogue of `from_id` in the chat `chat_id`.
pub fn get_dialogue_request(chat_id: i64, from_id: Option<i64>) -> (request: GetField)
    ensures
        request@ == dialogue_read(chat_id, from_id),
{
    GetField { key: get_dialogues_key(chat_id), field: get_from_field(from_id) }
}

/// The dialogue read, given the store's reply with the text it carried, if
/// any, put through the decoder.
///
/// The shape to decode into is the caller's choice; nothing is checked of
/// the text beyond what the decoder checks.
pub fn get_dialogue_result<D>(
    reply: Result<Option<Result<D, serde_json::Error>>, redis::RedisError>,
) -> (result: Result<Option<D>, RedisStorageError>)
    ensures
        result == dialogue_got(reply),
{
    match reply {
        Err(error) => Err(RedisStorageError::RedisError(error)),
        Ok(None) => Ok(None),
        Ok(Some(Ok(dialogue))) => Ok(Some(dialogue)),
        Ok(Some(Err(error))) => Err(RedisStorageError::SerdeError(error)),
    }
}

/// The request that removes the dialogue of `from_id` from the chat
/// `chat_id`.
pub fn remove_dialogue_request(chat_id: i64, from_id: Option<i64>) -> (request: DeleteField)
    ensures
        request@ == dialogue_removal(chat_id, from_id),
{
    DeleteField { key: get_dialogues_key(chat_id), field: get_from_field(from_id) }
}

/// What became of a removal, given the store's reply with the number of
/// fields it deleted: a removal that deleted nothing did not find the
/// dialogue.
pub fn remove_dialogue_result(reply: Result<i64, redis::RedisError>) -> (result: Result<
    (),
    RedisStorageError,
>)
    ensures
        result == dialogue_removed(reply),
{
    match reply {
        Ok(count) => if count > 0 {
            Ok(())
        } else {
            Err(RedisStorageError::DialogueNotFound)
        },
        Err(error) => Err(RedisStorageError::RedisError(error)),
    }
}

/// A dialogue that was stored is read back letter for letter: the text that
/// a later read hands to the decoder is the text that the update wrote, and
/// the caller gets what the decoder makes of it.
pub proof fn lemma_update_dialogue_then_get<D>(
    contents: HashContents,
    chat_id: i64,
    from_id: Option<i64>,
    text: Seq<char>,
    reply: Result<Option<Result<D, serde_json::Error>>, redis::RedisError>,
)
    requires
        carries_decoded(
            reply,
            dialogue_read(chat_id, from_id).answer(
                dialogue_write(chat_id, from_id, text).applied(contents),
            ),
        ),
    ensures
        dialogue_read(chat_id, from_id).answer(
            dialogue_write(chat_id, from_id, text).applied(contents),
        ) == Some(text),
        reply matches Ok(Some(decoded)) && dialogue_got(reply) == match decoded {
            Ok(dialogue) => Ok::<Option<D>, RedisStorageError>(Some(dialogue)),
            Err(error) => Err(RedisStorageError::SerdeError(error)),
        },
{
}

/// Reading a dialogue that was never stored is no error: the caller gets
/// none.
pub proof fn lemma_get_dialogue_never_written<D>(
    contents: HashContents,
    chat_id: i64,
    from_id: Option<i64>,
    reply: Result<Option<Result<D, serde_json::Error>>, redis::RedisError>,
)
    requires
        !contents.contains_key((dialogues_key(chat_id), from_field(from_id))),
        carries_decoded(reply, dialogue_read(chat_id, from_id).answer(contents)),
    ensures
        dialogue_got(reply) == Ok::<Option<D>, RedisStorageError>(None),
{
}

/// Removing a dialogue that was never stored tells the caller that it was
/// not found.
pub proof fn lemma_remove_dialogue_never_written(
    contents: HashContents,
    chat_id: i64,
    from_id: Option<i64>,
    reply: Result<i64, redis::RedisError>,
)
    requires
        !contents.contains_key((dialogues_key(chat_id), from_field(from_id))),
        carries_count(reply, dialogue_removal(chat_id, from_id).answer(contents)),
    ensures
        dialogue_removed(reply) == Err::<(), RedisStorageError>(
            RedisStorageError::DialogueNotFound,
        ),
{
}

/// Removing a dialogue that was stored succeeds, and a read that follows
/// finds none.
pub proof fn lemma_remove_dialogue_written<D>(
    contents: HashContents,
    chat_id: i64,
    from_id: Option<i64>,
    text: Seq<char>,
    reply: Result<i64, redis::RedisError>,
    later: Result<Option<Result<D, serde_json::Error>>, redis::RedisError>,
)
    requires
        carries_count(
            reply,
            dialogue_removal(chat_id, from_id).answer(
                dialogue_write(chat_id, from_id, text).applied(contents),
            ),
        ),
        carries_decoded(
            later,
            dialogue_read(chat_id, from_id).answer(
                dialogue_removal(chat_id, from_id).applied(
                    dialogue_write(chat_id, from_id, text).applied(contents),
                ),
            ),
        ),
    ensures
        dialogue_removed(reply) == Ok::<(), RedisStorageError>(()),
        dialogue_got(later) == Ok::<Option<D>, RedisStorageError>(None),
{
}

/// Storing or removing the dialogue of one user changes what is read for no
/// other user, neither of the same chat nor of another; the user that is
/// nobody in particular counts as a user of its own.
pub proof fn lemma_dialogue_untouched(
    contents: HashContents,
    chat_id: i64,
    from_id: Option<i64>,
    text: Seq<char>,
    other_chat: i64,
    other_id: Option<i64>,
)
    requires
        chat_id != other_chat || from_id != other_id,
    ensures
        dialogue_read(other_chat, other_id).answer(
            dialogue_write(chat_id, from_id, text).applied(contents),
        ) == dialogue_read(other_chat, other_id).answer(contents),
        dialogue_read(other_chat, other_id).answer(
            dialogue_removal(chat_id, from_id).applied(contents),
        ) == dialogue_read(other_chat, other_id).answer(contents),
{
    lemma_chat_keys_distinct(chat_id, other_chat);
    lemma_from_fields_distinct(from_id, other_id);
}

/// Aliases and dialogues do not get in each other's way: no write or removal
/// of an alias changes what is read for a dialogue, and no write or removal
/// of a dialogue changes what is found for an alias, in any two chats.
pub proof fn lemma_aliases_and_dialogues_apart(
    contents: HashContents,
    alias_chat: i64,
    alias: Seq<char>,
    sticker_id: Seq<char>,
    dialogue_chat: i64,
    from_id: Option<i64>,
    text: Seq<char>,
)
    ensures
        dialogue_read(dialogue_chat, from_id).answer(
            alias_write(alias_chat, alias, sticker_id).applied(contents),
        ) == dialogue_read(dialogue_chat, from_id).answer(contents),
        dialogue_read(dialogue_chat, from_id).answer(
            alias_removal(alias_chat, alias).applied(contents),
        ) == dialogue_read(dialogue_chat, from_id).answer(contents),
        alias_read(alias_chat, alias).answer(
            dialogue_write(dialogue_chat, from_id, text).applied(contents),
        ) == alias_read(alias_chat, alias).answer(contents),
        alias_read(alias_chat, alias).answer(
            dialogue_removal(dialogue_chat, from_id).applied(contents),
        ) == alias_read(alias_chat, alias).answer(contents),
{
    lemma_chat_keys_distinct(alias_chat, dialogue_chat);
}

} // verus!
