use pulse::blind_sig::BrssPublicKey;
use pulse::client::{ReadyToken, SessionContext};
use pulse::messages::{QuestionDelivery, ResponseData, ResponseType};
use pulse::newtypes::{
    KeyVersion, QuestionBatchId, QuestionText, SignatureBytes, TenantId, TokenBytes, UnixTimestamp,
};
use pulse::token::{AttestationClass, TokenPayload};
use pulse::tui::{Action, App, ConnectField, Effect, Screen};

fn question(rt: ResponseType) -> QuestionDelivery {
    QuestionDelivery {
        question_batch_id: QuestionBatchId(9),
        question_text: QuestionText::from_text("How are you feeling about work today?"),
        response_type: rt,
        expiry: UnixTimestamp(u64::MAX),
        segment_vector: Vec::new(),
    }
}

fn connected(questions: Vec<QuestionDelivery>) -> Action {
    Action::Connected {
        session: SessionContext { session_token: "s".to_string() },
        questions,
        tenant_id: TenantId(5),
        key_version: KeyVersion(1),
        public_key: BrssPublicKey(vec![1, 2, 3]),
    }
}

fn ready() -> ReadyToken {
    ReadyToken {
        payload: TokenPayload {
            nonce: [0u8; 32],
            question_batch_id: QuestionBatchId(9),
            tenant_id: TenantId(5),
            expiry: u64::MAX,
            segment_vector: vec!["company".to_string()],
            attestation_class: AttestationClass::Personal,
            key_version: 1,
        },
        token_bytes: TokenBytes(vec![1]),
        signature: SignatureBytes(vec![2]),
        msg_randomizer: None,
        key_version: KeyVersion(1),
    }
}

fn is_nothing(e: &Effect) -> bool {
    matches!(e, Effect::Nothing)
}

#[test]
fn initial_state() {
    let app = App::new();
    assert_eq!(app.screen, Screen::Connect);
    assert_eq!(app.identity_url, "http://127.0.0.1:8001");
    assert_eq!(app.signal_url, "http://127.0.0.1:8002");
    assert_eq!(app.scale_value, 3);
    assert_eq!(app.log, vec!["Welcome to Pulse TUI".to_string()]);
}

#[test]
fn editing_urls_and_key() {
    let mut app = App::new();
    assert!(is_nothing(&app.update(Action::CharInput('x'))));
    assert_eq!(app.identity_url, "http://127.0.0.1:8001x");
    app.update(Action::NextField);
    assert_eq!(app.connect_field, ConnectField::SignalUrl);
    app.update(Action::Backspace);
    assert_eq!(app.signal_url, "http://127.0.0.1:800");
    app.update(Action::PrevField);
    assert_eq!(app.connect_field, ConnectField::IdentityUrl);
    assert!(is_nothing(&app.update(Action::Submit)));
    assert_eq!(app.screen, Screen::Login);
    assert_eq!(app.log[1], "Connecting: identity=http://127.0.0.1:8001x, signal=http://127.0.0.1:800");
    app.update(Action::CharInput('k'));
    app.update(Action::Backspace);
    app.update(Action::Backspace);
    assert_eq!(app.api_key, "");
}

#[test]
fn login_starts_connect_and_auth() {
    let mut app = App::new();
    app.update(Action::Submit);
    let e = app.update(Action::Submit);
    assert!(matches!(e, Effect::ConnectAndAuth));
    assert_eq!(app.login_status.as_deref(), Some("Connecting..."));
    app.update(Action::ProtocolError("AuthFailed".to_string()));
    assert_eq!(app.login_status.as_deref(), Some("Error: AuthFailed"));
    assert_eq!(app.log.last().unwrap(), "Error: AuthFailed");
}

#[test]
fn full_screen_flow() {
    let mut app = App::new();
    app.update(Action::Submit);
    app.update(Action::Submit);
    app.update(connected(vec![question(ResponseType::Binary), question(ResponseType::Scale5)]));
    assert_eq!(app.screen, Screen::Questions);
    assert_eq!(app.login_status.as_deref(), Some("Connected!"));
    app.update(Action::SelectDown);
    app.update(Action::SelectDown);
    assert_eq!(app.selected_question, 1);
    app.update(Action::SelectUp);
    assert_eq!(app.selected_question, 0);
    let e = app.update(Action::Submit);
    assert!(matches!(e, Effect::TokenFlow));
    assert_eq!(app.screen, Screen::Token);
    assert_eq!(app.token_status, "Blinding token...");
    app.update(Action::TokenReady(Box::new(ready())));
    assert_eq!(app.screen, Screen::Respond);
    assert_eq!(app.token_status, "Token ready!");
    // scale stays within 1..=5
    for _ in 0..10 {
        app.update(Action::ScaleUp);
    }
    assert_eq!(app.scale_value, 5);
    for _ in 0..10 {
        app.update(Action::SelectDown);
    }
    assert_eq!(app.scale_value, 1);
    app.update(Action::ScaleUp);
    app.update(Action::ScaleUp);
    // Binary question: scale 3 > 2 answers true
    match app.update(Action::Submit) {
        Effect::SubmitResponse { ready_token, response_type, response_data } => {
            assert_eq!(ready_token.payload.tenant_id, TenantId(5));
            assert_eq!(response_type, ResponseType::Binary);
            assert_eq!(response_data, ResponseData::Binary(true));
        },
        _ => panic!("expected a submission"),
    }
    assert_eq!(app.screen, Screen::Submit);
    assert!(app.ready_token.is_none());
    assert_eq!(app.submit_status, "Encrypting and submitting...");
    // submitting again starts nothing
    assert!(is_nothing(&app.update(Action::Submit)));
    app.update(Action::ResponseSubmitted);
    assert_eq!(app.submit_status, "Response submitted successfully!");
    app.update(Action::Back);
    assert_eq!(app.screen, Screen::Questions);
    assert_eq!(app.submit_status, "");
}

#[test]
fn scale_question_answers_scale_value() {
    let mut app = App::new();
    app.update(connected(vec![question(ResponseType::Scale5)]));
    app.update(Action::Submit);
    app.update(Action::TokenReady(Box::new(ready())));
    app.update(Action::ScaleDown);
    match app.update(Action::Submit) {
        Effect::SubmitResponse { response_data, .. } => assert_eq!(response_data, ResponseData::Scale5(2)),
        _ => panic!("expected a submission"),
    }
}

#[test]
fn back_and_quit() {
    let mut app = App::new();
    app.update(Action::Back);
    assert!(app.should_quit);
    let mut app = App::new();
    app.update(Action::Quit);
    assert!(app.should_quit);
    let mut app = App::new();
    app.update(Action::Submit);
    app.update(Action::Back);
    assert_eq!(app.screen, Screen::Connect);
    assert!(!app.should_quit);
}

#[test]
fn no_questions_means_no_token_flow() {
    let mut app = App::new();
    app.update(connected(Vec::new()));
    assert!(is_nothing(&app.update(Action::Submit)));
    assert_eq!(app.screen, Screen::Questions);
}

use pulse::tui::{key_action, Key};

fn is(a: Option<Action>, f: fn(&Action) -> bool) -> bool {
    a.as_ref().map(f).unwrap_or(false)
}

#[test]
fn keys_map_to_actions() {
    assert!(is(key_action(Key::Char('c'), true, false), |a| matches!(a, Action::Quit)));
    // Ctrl+Shift+C types a 'c'; Ctrl+Q quits whatever else is held
    assert!(is(key_action(Key::Char('c'), true, true), |a| matches!(a, Action::CharInput('c'))));
    assert!(is(key_action(Key::Char('q'), true, true), |a| matches!(a, Action::Quit)));
    assert!(is(key_action(Key::Char('q'), false, false), |a| matches!(a, Action::CharInput('q'))));
    assert!(is(key_action(Key::Esc, false, false), |a| matches!(a, Action::Back)));
    assert!(is(key_action(Key::Tab, false, false), |a| matches!(a, Action::NextField)));
    assert!(is(key_action(Key::BackTab, false, true), |a| matches!(a, Action::PrevField)));
    assert!(is(key_action(Key::Enter, false, false), |a| matches!(a, Action::Submit)));
    assert!(is(key_action(Key::Up, false, false), |a| matches!(a, Action::SelectUp)));
    assert!(is(key_action(Key::Down, false, false), |a| matches!(a, Action::SelectDown)));
    assert!(is(key_action(Key::Left, false, false), |a| matches!(a, Action::ScaleDown)));
    assert!(is(key_action(Key::Right, false, false), |a| matches!(a, Action::ScaleUp)));
    assert!(is(key_action(Key::Backspace, false, false), |a| matches!(a, Action::Backspace)));
    assert!(key_action(Key::Other, false, false).is_none());
}
