use tele::command::{
    BotCommand, GetMyCommandsRequest, SetMyCommandsRequest, SetMyDescriptionRequest,
    SetMyNameRequest, SetMyShortDescriptionRequest, MAX_BOT_DESCRIPTION_CHARS,
    MAX_BOT_NAME_CHARS, MAX_BOT_SHORT_DESCRIPTION_CHARS,
};
use tele::error::Error;

fn command(name: &str, description: &str) -> Result<BotCommand, Error> {
    BotCommand::new(name.to_owned(), description.to_owned())
}

#[test]
fn validates_bot_command_contract() -> Result<(), Error> {
    assert!(command("start_1", "start the bot").is_ok());
    assert!(command("2fa", "manage two factor auth").is_ok());
    assert!(command("_debug", "debug current state").is_ok());
    assert!(command("x", "g").is_ok());
    assert!(command("ok", "go").is_ok());

    for name in [
        "",
        "Start",
        "/start",
        "start-bot",
        "a_very_long_command_name_over_32_chars",
    ] {
        assert!(matches!(
            command(name, "valid description"),
            Err(Error::InvalidRequest { .. })
        ));
    }

    for description in ["", "bad\ntext"] {
        assert!(matches!(
            command("start", description),
            Err(Error::InvalidRequest { .. })
        ));
    }

    Ok(())
}

#[test]
fn validates_set_my_commands_collection() -> Result<(), Error> {
    assert!(matches!(
        SetMyCommandsRequest::new(Vec::new()),
        Err(Error::InvalidRequest { .. })
    ));

    let duplicate = vec![
        command("start", "start the bot")?,
        command("start", "start again")?,
    ];
    assert!(matches!(
        SetMyCommandsRequest::new(duplicate),
        Err(Error::InvalidRequest { .. })
    ));

    let too_many = (0..101)
        .map(|index| BotCommand::new(format!("cmd{index}"), "valid description".to_owned()))
        .collect::<Result<Vec<_>, Error>>()?;
    assert!(matches!(
        SetMyCommandsRequest::new(too_many),
        Err(Error::InvalidRequest { .. })
    ));

    Ok(())
}

#[test]
fn validates_language_codes_on_public_requests() -> Result<(), Error> {
    SetMyCommandsRequest::new(vec![command("start", "start the bot")?])?
        .language_code("zh-hans".to_owned())?
        .validate()?;
    SetMyCommandsRequest::new(vec![command("start", "start the bot")?])?
        .language_code(String::new())?
        .validate()?;

    GetMyCommandsRequest {
        language_code: Some(String::new()),
        ..GetMyCommandsRequest::default()
    }
    .validate()?;

    for language_code in ["-", "en-", "en--us", "en us", "en_us"] {
        let request = GetMyCommandsRequest {
            language_code: Some(language_code.to_owned()),
            ..GetMyCommandsRequest::default()
        };
        assert!(matches!(
            request.validate(),
            Err(Error::InvalidRequest { .. })
        ));
    }

    Ok(())
}

#[test]
fn validates_bot_profile_text_limits() {
    let valid = SetMyNameRequest {
        name: Some(String::new()),
        language_code: Some(String::new()),
    };
    assert!(valid.validate().is_ok());

    let invalid_name = SetMyNameRequest {
        name: Some("a".repeat(MAX_BOT_NAME_CHARS + 1)),
        ..SetMyNameRequest::default()
    };
    assert!(matches!(
        invalid_name.validate(),
        Err(Error::InvalidRequest { .. })
    ));

    let multiline_name = SetMyNameRequest {
        name: Some("bot\nname".to_owned()),
        ..SetMyNameRequest::default()
    };
    assert!(matches!(
        multiline_name.validate(),
        Err(Error::InvalidRequest { .. })
    ));

    let invalid_description = SetMyDescriptionRequest {
        description: Some("a".repeat(MAX_BOT_DESCRIPTION_CHARS + 1)),
        ..SetMyDescriptionRequest::default()
    };
    assert!(matches!(
        invalid_description.validate(),
        Err(Error::InvalidRequest { .. })
    ));

    let multiline_description = SetMyDescriptionRequest {
        description: Some("hello\nworld".to_owned()),
        ..SetMyDescriptionRequest::default()
    };
    assert!(multiline_description.validate().is_ok());

    let invalid_short_description = SetMyShortDescriptionRequest {
        short_description: Some("a".repeat(MAX_BOT_SHORT_DESCRIPTION_CHARS + 1)),
        ..SetMyShortDescriptionRequest::default()
    };
    assert!(matches!(
        invalid_short_description.validate(),
        Err(Error::InvalidRequest { .. })
    ));
}

#[test]
fn command_reasons_name_the_rule() {
    let err = command("Start", "valid").err().unwrap();
    let Error::InvalidRequest { reason } = err;
    assert_eq!(reason, "command must contain only lowercase ASCII letters, digits, or `_`");

    let cmds = vec![command("start", "a").unwrap(), command("start", "b").unwrap()];
    let Error::InvalidRequest { reason } = SetMyCommandsRequest::new(cmds).err().unwrap();
    assert_eq!(reason, "duplicate bot command `start`");

    let request = GetMyCommandsRequest {
        language_code: Some("x".repeat(36)),
        ..GetMyCommandsRequest::default()
    };
    let Error::InvalidRequest { reason } = request.validate().unwrap_err();
    assert_eq!(reason, "language_code must be at most 35 bytes");
}

#[test]
fn bot_commands_compare_by_name_and_description() {
    assert!(command("start", "a").unwrap() == command("start", "a").unwrap());
    assert!(command("start", "a").unwrap() != command("start", "b").unwrap());
}
