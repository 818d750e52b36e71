use chat_store::decimal::decimal_string;
use chat_store::keys::{get_aliases_key, get_chat_key, get_dialogues_key, get_from_field};

const SAMPLE_IDS: [i64; 24] = [
    0,
    1,
    -1,
    7,
    9,
    10,
    11,
    -9,
    -10,
    99,
    100,
    101,
    -100,
    42,
    1234567890,
    -1234567890,
    1000000000000,
    -1001234567890,
    9007199254740993,
    i64::MAX,
    i64::MAX - 1,
    i64::MIN,
    i64::MIN + 1,
    -9223372036854775807,
];

#[test]
fn decimal_string_of_zero() {
    assert_eq!(decimal_string(0), "0");
}

#[test]
fn decimal_string_of_single_digits() {
    assert_eq!(decimal_string(5), "5");
    assert_eq!(decimal_string(9), "9");
    assert_eq!(decimal_string(-3), "-3");
}

#[test]
fn decimal_string_keeps_inner_and_trailing_zeros() {
    assert_eq!(decimal_string(10), "10");
    assert_eq!(decimal_string(1002003000), "1002003000");
    assert_eq!(decimal_string(-40), "-40");
}

#[test]
fn decimal_string_of_the_extremes() {
    assert_eq!(decimal_string(i64::MAX), "9223372036854775807");
    assert_eq!(decimal_string(i64::MIN), "-9223372036854775808");
}

#[test]
fn decimal_string_agrees_with_std_formatting() {
    for id in SAMPLE_IDS {
        assert_eq!(decimal_string(id), format!("{}", id));
    }
    let mut id: i64 = -2500;
    while id <= 2500 {
        assert_eq!(decimal_string(id), format!("{}", id));
        id += 1;
    }
}

#[test]
fn chat_key_is_prefix_and_id() {
    assert_eq!(get_chat_key(42), "chat:42");
    assert_eq!(get_chat_key(0), "chat:0");
    assert_eq!(get_chat_key(-1001234567890), "chat:-1001234567890");
}

#[test]
fn aliases_key_appends_its_suffix() {
    assert_eq!(get_aliases_key(42), "chat:42aliases");
    assert_eq!(get_aliases_key(-7), "chat:-7aliases");
    assert_eq!(get_aliases_key(i64::MIN), "chat:-9223372036854775808aliases");
}

#[test]
fn dialogues_key_appends_its_suffix() {
    assert_eq!(get_dialogues_key(42), "chat:42dialogues");
    assert_eq!(get_dialogues_key(-7), "chat:-7dialogues");
    assert_eq!(get_dialogues_key(i64::MAX), "chat:9223372036854775807dialogues");
}

#[test]
fn keys_extend_the_chat_key() {
    for id in SAMPLE_IDS {
        assert_eq!(get_chat_key(id), format!("chat:{}", id));
        assert_eq!(get_aliases_key(id), get_chat_key(id) + "aliases");
        assert_eq!(get_dialogues_key(id), get_chat_key(id) + "dialogues");
    }
}

#[test]
fn keys_of_one_chat_differ() {
    for id in SAMPLE_IDS {
        assert_ne!(get_aliases_key(id), get_dialogues_key(id));
    }
}

#[test]
fn keys_of_two_chats_are_pairwise_distinct() {
    for first in SAMPLE_IDS {
        for second in SAMPLE_IDS {
            assert_ne!(get_aliases_key(first), get_dialogues_key(second));
            if first != second {
                assert_ne!(get_chat_key(first), get_chat_key(second));
                assert_ne!(get_aliases_key(first), get_aliases_key(second));
                assert_ne!(get_dialogues_key(first), get_dialogues_key(second));
            }
        }
    }
}

#[test]
fn keys_of_chats_with_a_common_prefix_differ() {
    assert_ne!(get_aliases_key(1), get_aliases_key(11));
    assert_ne!(get_dialogues_key(1), get_dialogues_key(11));
    assert_ne!(get_aliases_key(1), get_aliases_key(-1));
    assert_ne!(get_dialogues_key(10), get_dialogues_key(100));
}

#[test]
fn from_field_of_nobody_is_the_placeholder() {
    assert_eq!(get_from_field(None), "NO_ID");
}

#[test]
fn from_field_of_a_user_is_the_decimal_id() {
    assert_eq!(get_from_field(Some(42)), "42");
    assert_eq!(get_from_field(Some(0)), "0");
    assert_eq!(get_from_field(Some(-5)), "-5");
    assert_eq!(get_from_field(Some(i64::MIN)), "-9223372036854775808");
}

#[test]
fn from_field_of_a_user_is_never_the_placeholder() {
    for id in SAMPLE_IDS {
        assert_ne!(get_from_field(Some(id)), get_from_field(None));
        assert_ne!(get_from_field(Some(id)), "NO_ID");
    }
}

#[test]
fn from_fields_of_two_users_differ() {
    for first in SAMPLE_IDS {
        for second in SAMPLE_IDS {
            if first != second {
                assert_ne!(get_from_field(Some(first)), get_from_field(Some(second)));
            }
        }
    }
}
