use chat_store::alias::{
    get_sticker_id_request, get_sticker_id_result, remove_alias_request, set_alias_request,
    set_aliases_requests,
};
use chat_store::store::{DeleteField, GetField, SetField};
use redis::{ErrorKind, RedisError};

fn store_failure() -> RedisError {
    RedisError::from((ErrorKind::IoError, "connection lost"))
}

#[test]
fn set_alias_request_writes_the_alias_field() {
    let request = set_alias_request(42, "foo", "X");
    assert_eq!(request.key, "chat:42aliases");
    assert_eq!(request.field, "foo");
    assert_eq!(request.value, "X");
}

#[test]
fn set_alias_request_keeps_alias_and_sticker_id_apart() {
    let request = set_alias_request(-7, "cat", "CAACAgIAAxkBAAEB");
    assert_eq!(
        request,
        SetField {
            key: String::from("chat:-7aliases"),
            field: String::from("cat"),
            value: String::from("CAACAgIAAxkBAAEB"),
        }
    );
}

#[test]
fn set_alias_request_takes_any_text() {
    let request = set_alias_request(1, "", "");
    assert_eq!(request.field, "");
    assert_eq!(request.value, "");
    let request = set_alias_request(1, "привет мир", "стикер 🙂");
    assert_eq!(request.field, "привет мир");
    assert_eq!(request.value, "стикер 🙂");
}

#[test]
fn set_aliases_requests_of_no_alias_is_empty() {
    let aliases: [&str; 0] = [];
    assert_eq!(set_aliases_requests(42, &aliases, "X"), Vec::<SetField>::new());
}

#[test]
fn set_aliases_requests_has_one_write_per_alias_in_order() {
    let requests = set_aliases_requests(42, &["a", "b", "c"], "X");
    assert_eq!(
        requests,
        vec![
            set_alias_request(42, "a", "X"),
            set_alias_request(42, "b", "X"),
            set_alias_request(42, "c", "X"),
        ]
    );
    assert_eq!(requests[0].key, "chat:42aliases");
    assert_eq!(requests[0].field, "a");
    assert_eq!(requests[1].field, "b");
    assert_eq!(requests[2].field, "c");
    assert_eq!(requests[2].value, "X");
}

#[test]
fn set_aliases_requests_keeps_repeated_aliases() {
    let requests = set_aliases_requests(5, &["a", "a"], "X");
    assert_eq!(requests.len(), 2);
    assert_eq!(requests[0], requests[1]);
}

#[test]
fn get_sticker_id_request_reads_the_alias_field() {
    assert_eq!(
        get_sticker_id_request(42, "foo"),
        GetField { key: String::from("chat:42aliases"), field: String::from("foo") }
    );
}

#[test]
fn get_sticker_id_result_is_the_stored_value() {
    assert_eq!(get_sticker_id_result(Ok(Some(String::from("X")))), Some(String::from("X")));
    assert_eq!(get_sticker_id_result(Ok(Some(String::new()))), Some(String::new()));
}

#[test]
fn get_sticker_id_result_of_a_missing_alias_is_none() {
    assert_eq!(get_sticker_id_result(Ok(None)), None);
}

#[test]
fn get_sticker_id_result_of_a_failed_read_is_none() {
    assert_eq!(get_sticker_id_result(Err(store_failure())), None);
}

#[test]
fn remove_alias_request_deletes_the_alias_field() {
    assert_eq!(
        remove_alias_request(42, "foo"),
        DeleteField { key: String::from("chat:42aliases"), field: String::from("foo") }
    );
}

#[test]
fn requests_of_one_alias_name_the_same_field() {
    let write = set_alias_request(9, "foo", "X");
    let read = get_sticker_id_request(9, "foo");
    let removal = remove_alias_request(9, "foo");
    assert_eq!((&write.key, &write.field), (&read.key, &read.field));
    assert_eq!((&read.key, &read.field), (&removal.key, &removal.field));
}

#[test]
fn requests_can_be_cloned() {
    let write = set_alias_request(9, "foo", "X");
    assert_eq!(write.clone(), write);
    let read = get_sticker_id_request(9, "foo");
    assert_eq!(read.clone(), read);
    let removal = remove_alias_request(9, "foo");
    assert_eq!(removal.clone(), removal);
}
