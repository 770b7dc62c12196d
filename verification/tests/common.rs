use tele::common::{ChatId, MessageId, NumericChatId, UserId};
use tele::error::Error;

#[test]
fn validates_chat_id_values() {
    assert!(ChatId::from(1_i64).validate().is_ok());
    assert!(ChatId::from(-100_i64).validate().is_ok());
    assert!(ChatId::from("@channel_name").validate().is_ok());

    for chat_id in [
        ChatId::from(0_i64),
        ChatId::from("channel"),
        ChatId::from("@"),
        ChatId::from("@abcd"),
        ChatId::from("@bad-name"),
        ChatId::from("@bad name"),
        ChatId::from("@abcdefghijklmnopqrstuvwxyzabcdefg"),
    ] {
        assert!(matches!(
            chat_id.validate(),
            Err(Error::InvalidRequest { .. })
        ));
    }
}

#[test]
fn validates_user_and_message_ids() {
    assert!(UserId::from(1_i64).validate().is_ok());
    assert!(MessageId::from(1_i64).validate().is_ok());
    assert!(NumericChatId::from(1_i64).validate().is_ok());
    assert!(NumericChatId::from(-100_i64).validate().is_ok());

    for user_id in [UserId::from(0_i64), UserId::from(-1_i64)] {
        assert!(matches!(
            user_id.validate(),
            Err(Error::InvalidRequest { .. })
        ));
    }

    for message_id in [MessageId::from(0_i64), MessageId::from(-1_i64)] {
        assert!(matches!(
            message_id.validate(),
            Err(Error::InvalidRequest { .. })
        ));
    }

    assert!(matches!(
        NumericChatId::from(0_i64).validate(),
        Err(Error::InvalidRequest { .. })
    ));
}
