use tele::common::ChatId;
use tele::error::Error;
use tele::message::content::PollKind;
use tele::message::requests::{
    validate_poll, InputPollOption, SendPollRequest, MAX_POLL_OPEN_PERIOD_SECONDS,
    MIN_POLL_OPEN_PERIOD_SECONDS,
};

fn options(texts: &[&str]) -> Vec<InputPollOption> {
    texts.iter().map(|t| InputPollOption::new((*t).to_owned())).collect()
}

fn reason<T: std::fmt::Debug>(result: Result<T, Error>) -> String {
    match result {
        Err(Error::InvalidRequest { reason }) => reason,
        Ok(value) => panic!("expected a refusal, got {value:?}"),
    }
}

fn poll() -> SendPollRequest {
    SendPollRequest::new(ChatId::from(1_i64), "question".to_owned(), options(&["one", "two"])).unwrap()
}

#[test]
fn send_poll_request_checks_the_poll() {
    assert_eq!(
        reason(SendPollRequest::new(ChatId::from(1_i64), "question".to_owned(), Vec::new())),
        "sendPoll requires 1-12 options"
    );
    let single = SendPollRequest::new(ChatId::from(1_i64), "question".to_owned(), options(&["only"])).unwrap();
    assert_eq!(single.options.len(), 1);

    let mut quiz = poll();
    quiz.kind = Some(PollKind::Quiz);
    quiz.correct_option_ids = Some(vec![2]);
    assert_eq!(reason(quiz.validate()), "correct_option_ids must point to existing poll options");
    quiz.correct_option_ids = Some(vec![0]);
    quiz.open_period = Some(MAX_POLL_OPEN_PERIOD_SECONDS);
    assert!(quiz.validate().is_ok());
    quiz.description = Some("choose carefully".to_owned());
    quiz.country_codes = Some(vec!["US".to_owned(), "FT".to_owned()]);
    assert!(quiz.validate().is_ok());

    quiz.open_period = Some(MAX_POLL_OPEN_PERIOD_SECONDS + 1);
    assert_eq!(reason(quiz.validate()), "open_period must be 5-2628000 seconds");
    quiz.open_period = None;
    quiz.close_date = Some(1);
    assert!(quiz.validate().is_ok());
    quiz.open_period = Some(MIN_POLL_OPEN_PERIOD_SECONDS);
    assert_eq!(reason(quiz.validate()), "open_period cannot be combined with close_date");
    quiz.open_period = None;
    quiz.close_date = Some(0);
    assert_eq!(reason(quiz.validate()), "close_date must be a positive Unix timestamp");
    quiz.close_date = None;
    quiz.country_codes = Some(vec!["usa".to_owned()]);
    assert_eq!(reason(quiz.validate()), "poll country codes must be two uppercase ASCII letters");

    let mut unsupported = poll();
    unsupported.kind = Some(PollKind::Unknown("future".to_owned()));
    assert_eq!(reason(unsupported.validate()), "unsupported poll type `future`");

    let mut regular_with_answer = poll();
    regular_with_answer.correct_option_ids = Some(vec![0]);
    assert_eq!(reason(regular_with_answer.validate()), "correct_option_ids can only be used for quiz polls");

    let mut quiz_without_answer = poll();
    quiz_without_answer.kind = Some(PollKind::Quiz);
    assert_eq!(
        reason(quiz_without_answer.validate()),
        "quiz polls require at least one correct_option_ids entry"
    );
    quiz_without_answer.correct_option_ids = Some(vec![1, 0]);
    assert_eq!(reason(quiz_without_answer.validate()), "correct_option_ids must be strictly increasing");

    let mut bad_explanation = poll();
    bad_explanation.explanation = Some("a\nb\nc\nd".to_owned());
    assert_eq!(reason(bad_explanation.validate()), "poll explanation must contain at most 2 line feeds");
}

#[test]
fn poll_question_and_options_come_first() {
    assert_eq!(
        reason(SendPollRequest::new(ChatId::from(0_i64), " ".to_owned(), Vec::new())),
        "chat_id cannot be 0"
    );
    assert_eq!(
        reason(SendPollRequest::new(ChatId::from(1_i64), " ".to_owned(), Vec::new())),
        "poll question must not be empty"
    );
    assert_eq!(
        reason(SendPollRequest::new(ChatId::from(1_i64), "q".repeat(301), options(&["a"]))),
        "poll question exceeds 300 characters"
    );
    let thirteen: Vec<&str> = vec!["x"; 13];
    assert_eq!(
        reason(SendPollRequest::new(ChatId::from(1_i64), "q".to_owned(), options(&thirteen))),
        "sendPoll requires 1-12 options"
    );
    assert_eq!(
        reason(SendPollRequest::new(ChatId::from(1_i64), "q".to_owned(), options(&["ok", " ", &"y".repeat(101)]))),
        "poll option must not be empty"
    );
    assert_eq!(
        reason(SendPollRequest::new(ChatId::from(1_i64), "q".to_owned(), options(&["ok", &"y".repeat(101)]))),
        "poll option exceeds 100 characters"
    );

    let mut request = poll();
    request.message_thread_id = Some(0);
    assert_eq!(reason(request.validate()), "message_thread_id must be greater than 0");

    assert!(validate_poll(
        "question",
        &options(&["a", "b"]),
        &Some(PollKind::Regular),
        &None,
        Some(60),
        None,
        Some("because"),
        None,
        &None
    )
    .is_ok());
}
