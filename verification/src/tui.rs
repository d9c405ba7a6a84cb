//! The state machine of the interactive terminal client.
//!
//! `App::update` takes the current state and one action (a key press or the
//! result of a protocol step) to the next state, and names the protocol work
//! that the application must start, if any. Rendering, terminal input and
//! the network flows run outside this module.
use vstd::prelude::*;
use crate::decimal::string_push;

use crate::blind_sig::BrssPublicKey;
use crate::client::{ReadyToken, SessionContext};
use crate::messages::{QuestionDelivery, ResponseData, ResponseType};
use crate::newtypes::{KeyVersion, TenantId};

verus! {

/// Which screen the user is on.
#[derive(Debug, Clone, Copy, PartialEq, Eq, Structural)]
pub enum Screen {
    Connect,
    Login,
    Questions,
    Token,
    Respond,
    Submit,
}

/// Which field is focused on the Connect screen.
#[derive(Debug, Clone, Copy, PartialEq, Eq, Structural)]
pub enum ConnectField {
    IdentityUrl,
    SignalUrl,
}

/// All events that can change application state.
pub enum Action {
    // Navigation
    Quit,
    Back,
    NextField,
    PrevField,
    // Input
    CharInput(char),
    Backspace,
    Submit,
    // Question selection
    SelectUp,
    SelectDown,
    // Response input (Scale5)
    ScaleUp,
    ScaleDown,
    // Results of protocol operations
    Connected {
        session: SessionContext,
        questions: Vec<QuestionDelivery>,
        tenant_id: TenantId,
        key_version: KeyVersion,
        public_key: BrssPublicKey,
    },
    TokenReady(Box<ReadyToken>),
    ResponseSubmitted,
    /// A protocol step failed; the payload is the error's text.
    ProtocolError(String),
    // Log
    Log(String),
}

/// A key press, as far as the client tells keys apart.
#[derive(Debug, Clone, Copy, PartialEq, Eq)]
pub enum Key {
    Char(char),
    Esc,
    Tab,
    BackTab,
    Enter,
    Up,
    Down,
    Left,
    Right,
    Backspace,
    Other,
}

/// The action for a key press with the given modifiers: `control` when the
/// Control modifier is held, `others` when any other modifier is held too.
/// Ctrl+C (Control alone) and Ctrl+Q quit; Esc goes back; Tab and BackTab
/// switch fields; Enter submits; the arrows select and change the scale;
/// Backspace deletes; any other character is typed; other keys do nothing.
pub open spec fn key_action_spec(key: Key, control: bool, others: bool) -> Option<Action> {
    match key {
        Key::Char(c) => if c == 'c' && control && !others {
            Some(Action::Quit)
        } else if c == 'q' && control {
            Some(Action::Quit)
        } else {
            Some(Action::CharInput(c))
        },
        Key::Esc => Some(Action::Back),
        Key::Tab => Some(Action::NextField),
        Key::BackTab => Some(Action::PrevField),
        Key::Enter => Some(Action::Submit),
        Key::Up => Some(Action::SelectUp),
        Key::Down => Some(Action::SelectDown),
        Key::Left => Some(Action::ScaleDown),
        Key::Right => Some(Action::ScaleUp),
        Key::Backspace => Some(Action::Backspace),
        Key::Other => None,
    }
}

/// The action for a key press, as [`key_action_spec`] says.
pub fn key_action(key: Key, control: bool, others: bool) -> (r: Option<Action>)
    ensures
        r == key_action_spec(key, control, others),
{
    match key {
        Key::Char(c) => {
            if c == 'c' && control && !others {
                Some(Action::Quit)
            } else if c == 'q' && control {
                Some(Action::Quit)
            } else {
                Some(Action::CharInput(c))
            }
        },
        Key::Esc => Some(Action::Back),
        Key::Tab => Some(Action::NextField),
        Key::BackTab => Some(Action::PrevField),
        Key::Enter => Some(Action::Submit),
        Key::Up => Some(Action::SelectUp),
        Key::Down => Some(Action::SelectDown),
        Key::Left => Some(Action::ScaleDown),
        Key::Right => Some(Action::ScaleUp),
        Key::Backspace => Some(Action::Backspace),
        Key::Other => None,
    }
}

/// Protocol work that an update asks the application to start.
pub enum Effect {
    /// Nothing to start.
    Nothing,
    /// Fetch the server configuration, authenticate with the API key, then
    /// fetch the questions (using the URLs and key now in the state).
    ConnectAndAuth,
    /// Blind a token for the selected question, have it signed and unblind it
    /// (using the session, key and tenant now in the state).
    TokenFlow,
    /// Encrypt the answer and submit it anonymously, spending `ready_token`.
    SubmitResponse {
        ready_token: Box<ReadyToken>,
        response_type: ResponseType,
        response_data: ResponseData,
    },
}

/// Application state: the model of the terminal client.
pub struct App {
    pub screen: Screen,
    pub should_quit: bool,
    // Connect screen
    pub identity_url: String,
    pub signal_url: String,
    pub connect_field: ConnectField,
    // Login screen
    pub api_key: String,
    pub login_status: Option<String>,
    // Session and server config (populated after connect and auth)
    pub session: Option<SessionContext>,
    pub tenant_id: Option<TenantId>,
    pub key_version: Option<KeyVersion>,
    pub public_key: Option<BrssPublicKey>,
    // Questions screen
    pub questions: Vec<QuestionDelivery>,
    pub selected_question: usize,
    // Token screen
    pub token_status: String,
    pub ready_token: Option<Box<ReadyToken>>,
    // Respond screen
    pub scale_value: u8,
    pub text_response: String,
    // Submit screen
    pub submit_status: String,
    // Protocol log
    pub log: Vec<String>,
    // Analytics DEK (not yet distributed via the protocol)
    pub analytics_dek: Option<[u8; 32]>,
}

/// The application state as plain values.
pub struct AppView {
    pub screen: Screen,
    pub should_quit: bool,
    pub identity_url: Seq<char>,
    pub signal_url: Seq<char>,
    pub connect_field: ConnectField,
    pub api_key: Seq<char>,
    pub login_status: Option<Seq<char>>,
    pub session: Option<Seq<char>>,
    pub tenant_id: Option<u128>,
    pub key_version: Option<u32>,
    pub public_key: Option<Seq<u8>>,
    pub questions: Seq<QuestionDelivery>,
    pub selected_question: int,
    pub token_status: Seq<char>,
    pub ready_token: Option<ReadyToken>,
    pub scale_value: int,
    pub text_response: Seq<char>,
    pub submit_status: Seq<char>,
    pub log: Seq<Seq<char>>,
    pub analytics_dek: Option<Seq<u8>>,
}

/// An answer as plain values.
pub enum ResponseDataView {
    Scale5(u8),
    Binary(bool),
    Emoji(Seq<char>),
    FreeText(Seq<char>),
}

/// The view of an answer.
pub open spec fn response_data_view(d: ResponseData) -> ResponseDataView {
    match d {
        ResponseData::Scale5(v) => ResponseDataView::Scale5(v),
        ResponseData::Binary(b) => ResponseDataView::Binary(b),
        ResponseData::Emoji(t) => ResponseDataView::Emoji(t@),
        ResponseData::FreeText(t) => ResponseDataView::FreeText(t@),
    }
}

/// The answer for a question type: the scale value, "yes" for a scale value
/// above 2, or the text typed.
pub open spec fn answer_for(t: ResponseType, scale: int, text: Seq<char>) -> ResponseDataView {
    match t {
        ResponseType::Scale5 => ResponseDataView::Scale5(scale as u8),
        ResponseType::Binary => ResponseDataView::Binary(scale > 2),
        ResponseType::FreeText => ResponseDataView::FreeText(text),
        ResponseType::Emoji => ResponseDataView::Emoji(text),
    }
}

/// The view of an optional text.
pub open spec fn opt_text(o: Option<String>) -> Option<Seq<char>> {
    match o {
        Some(s) => Some(s@),
        None => None,
    }
}

/// The views of a list of texts.
pub open spec fn texts(v: Seq<String>) -> Seq<Seq<char>> {
    v.map_values(|s: String| s@)
}

impl View for App {
    type V = AppView;

    open spec fn view(&self) -> AppView {
        AppView {
            screen: self.screen,
            should_quit: self.should_quit,
            identity_url: self.identity_url@,
            signal_url: self.signal_url@,
            connect_field: self.connect_field,
            api_key: self.api_key@,
            login_status: opt_text(self.login_status),
            session: match self.session {
                Some(s) => Some(s.session_token@),
                None => None,
            },
            tenant_id: match self.tenant_id {
                Some(t) => Some(t.0),
                None => None,
            },
            key_version: match self.key_version {
                Some(k) => Some(k.0),
                None => None,
            },
            public_key: match self.public_key {
                Some(k) => Some(k.0@),
                None => None,
            },
            questions: self.questions@,
            selected_question: self.selected_question as int,
            token_status: self.token_status@,
            ready_token: match self.ready_token {
                Some(t) => Some(*t),
                None => None,
            },
            scale_value: self.scale_value as int,
            text_response: self.text_response@,
            submit_status: self.submit_status@,
            log: texts(self.log@),
            analytics_dek: match self.analytics_dek {
                Some(k) => Some(k@),
                None => None,
            },
        }
    }
}

/// The state invariant: the scale value is between 1 and 5, and the selected
/// question is the first one or an existing one.
pub open spec fn wf(s: AppView) -> bool {
    &&& 1 <= s.scale_value <= 5
    &&& (s.selected_question == 0 || s.selected_question < s.questions.len())
}

/// Whether an update is defined: submitting from the Questions screen needs
/// the session, public key, tenant and key version; submitting from the
/// Respond screen needs a ready token, the tenant and the selected question.
pub open spec fn update_defined(s: AppView, a: Action) -> bool {
    match a {
        Action::Submit => {
            &&& (s.screen == Screen::Questions && s.questions.len() > 0) ==> {
                &&& s.session is Some
                &&& s.public_key is Some
                &&& s.tenant_id is Some
                &&& s.key_version is Some
            }
            &&& s.screen == Screen::Respond ==> {
                &&& s.ready_token is Some
                &&& s.tenant_id is Some
                &&& s.selected_question < s.questions.len()
            }
        },
        _ => true,
    }
}

/// A text with its last character removed, if any.
pub open spec fn backspace(t: Seq<char>) -> Seq<char> {
    if t.len() > 0 {
        t.drop_last()
    } else {
        t
    }
}

/// The log line written when leaving the Connect screen.
pub open spec fn connecting_line(s: AppView) -> Seq<char> {
    "Connecting: identity="@ + s.identity_url + ", signal="@ + s.signal_url
}

/// The next state after action `a` in state `s`.
pub open spec fn step(s: AppView, a: Action) -> AppView {
    match a {
        Action::Quit => AppView { should_quit: true, ..s },
        Action::Back => match s.screen {
            Screen::Connect => AppView { should_quit: true, ..s },
            Screen::Login => AppView { screen: Screen::Connect, ..s },
            Screen::Questions => AppView { screen: Screen::Login, ..s },
            Screen::Token => AppView { screen: Screen::Questions, ..s },
            Screen::Respond => AppView { screen: Screen::Questions, ..s },
            Screen::Submit => AppView {
                screen: Screen::Questions,
                ready_token: None,
                submit_status: Seq::empty(),
                ..s
            },
        },
        Action::NextField | Action::PrevField => if s.screen == Screen::Connect {
            AppView {
                connect_field: match s.connect_field {
                    ConnectField::IdentityUrl => ConnectField::SignalUrl,
                    ConnectField::SignalUrl => ConnectField::IdentityUrl,
                },
                ..s
            }
        } else {
            s
        },
        Action::CharInput(c) => match s.screen {
            Screen::Connect => match s.connect_field {
                ConnectField::IdentityUrl => AppView { identity_url: s.identity_url.push(c), ..s },
                ConnectField::SignalUrl => AppView { signal_url: s.signal_url.push(c), ..s },
            },
            Screen::Login => AppView { api_key: s.api_key.push(c), ..s },
            Screen::Respond => AppView { text_response: s.text_response.push(c), ..s },
            _ => s,
        },
        Action::Backspace => match s.screen {
            Screen::Connect => match s.connect_field {
                ConnectField::IdentityUrl => AppView { identity_url: backspace(s.identity_url), ..s },
                ConnectField::SignalUrl => AppView { signal_url: backspace(s.signal_url), ..s },
            },
            Screen::Login => AppView { api_key: backspace(s.api_key), ..s },
            Screen::Respond => AppView { text_response: backspace(s.text_response), ..s },
            _ => s,
        },
        Action::SelectUp => if s.screen == Screen::Questions && s.selected_question > 0 {
            AppView { selected_question: s.selected_question - 1, ..s }
        } else if s.screen == Screen::Respond && s.scale_value < 5 {
            AppView { scale_value: s.scale_value + 1, ..s }
        } else {
            s
        },
        Action::SelectDown => if s.screen == Screen::Questions && s.selected_question + 1 < s.questions.len() {
            AppView { selected_question: s.selected_question + 1, ..s }
        } else if s.screen == Screen::Respond && s.scale_value > 1 {
            AppView { scale_value: s.scale_value - 1, ..s }
        } else {
            s
        },
        Action::ScaleUp => if s.screen == Screen::Respond && s.scale_value < 5 {
            AppView { scale_value: s.scale_value + 1, ..s }
        } else {
            s
        },
        Action::ScaleDown => if s.screen == Screen::Respond && s.scale_value > 1 {
            AppView { scale_value: s.scale_value - 1, ..s }
        } else {
            s
        },
        Action::Submit => match s.screen {
            Screen::Connect => AppView { log: s.log.push(connecting_line(s)), screen: Screen::Login, ..s },
            Screen::Login => AppView { login_status: Some("Connecting..."@), ..s },
            Screen::Questions => if s.questions.len() > 0 {
                AppView { screen: Screen::Token, token_status: "Blinding token..."@, ..s }
            } else {
                s
            },
            Screen::Respond => AppView {
                screen: Screen::Submit,
                submit_status: "Encrypting and submitting..."@,
                ready_token: None,
                ..s
            },
            _ => s,
        },
        Action::Connected { session, questions, tenant_id, key_version, public_key } => AppView {
            session: Some(session.session_token@),
            tenant_id: Some(tenant_id.0),
            key_version: Some(key_version.0),
            public_key: Some(public_key.0@),
            questions: questions@,
            selected_question: 0,
            login_status: Some("Connected!"@),
            screen: Screen::Questions,
            ..s
        },
        Action::TokenReady(t) => AppView {
            token_status: "Token ready!"@,
            log: s.log.push("[Client] Signature unblinded and verified — token ready for submission"@),
            ready_token: Some(*t),
            screen: Screen::Respond,
            ..s
        },
        Action::ResponseSubmitted => AppView {
            submit_status: "Response submitted successfully!"@,
            log: s.log.push("[Signal Zone] Response accepted — anonymous, verified, stored"@),
            ..s
        },
        Action::ProtocolError(e) => {
            let msg = "Error: "@ + e@;
            let s2 = AppView { log: s.log.push(msg), ..s };
            match s.screen {
                Screen::Login => AppView { login_status: Some(msg), ..s2 },
                Screen::Token => AppView { token_status: msg, ..s2 },
                Screen::Submit => AppView { submit_status: msg, ..s2 },
                _ => s2,
            }
        },
        Action::Log(m) => AppView { log: s.log.push(m@), ..s },
    }
}

/// The work an update starts: connecting from the Login screen, the token
/// flow from a non-empty Questions screen, the submission from the Respond
/// screen; nothing otherwise.
pub open spec fn effect_matches(s: AppView, a: Action, e: Effect) -> bool {
    if a is Submit && s.screen == Screen::Login {
        e is ConnectAndAuth
    } else if a is Submit && s.screen == Screen::Questions && s.questions.len() > 0 {
        e is TokenFlow
    } else if a is Submit && s.screen == Screen::Respond {
        match e {
            Effect::SubmitResponse { ready_token, response_type, response_data } => {
                &&& s.ready_token == Some(*ready_token)
                &&& response_type == s.questions[s.selected_question].response_type
                &&& response_data_view(response_data) == answer_for(response_type, s.scale_value, s.text_response)
            },
            _ => false,
        }
    } else {
        e is Nothing
    }
}

/// `String::pop`: removes and returns the last character, `None` for an
/// empty string (which stays empty).
#[verifier::external_body]
fn string_pop(s: &mut String) -> (r: Option<char>)
    ensures
        old(s)@.len() == 0 ==> r is None && final(s)@ == old(s)@,
        old(s)@.len() > 0 ==> r == Some(old(s)@.last()) && final(s)@ == old(s)@.drop_last(),
{
    s.pop()
}

impl App {
    /// The initial state: Connect screen with the development URLs, scale
    /// value 3, and a welcome line in the log.
    pub fn new() -> (r: Self)
        ensures
            wf(r@),
            r@.screen == Screen::Connect,
            !r@.should_quit,
            r@.identity_url == "http://127.0.0.1:8001"@,
            r@.signal_url == "http://127.0.0.1:8002"@,
            r@.connect_field == ConnectField::IdentityUrl,
            r@.api_key == Seq::<char>::empty(),
            r@.login_status is None,
            r@.session is None,
            r@.tenant_id is None,
            r@.key_version is None,
            r@.public_key is None,
            r@.questions.len() == 0,
            r@.selected_question == 0,
            r@.token_status == Seq::<char>::empty(),
            r@.ready_token is None,
            r@.scale_value == 3,
            r@.text_response == Seq::<char>::empty(),
            r@.submit_status == Seq::<char>::empty(),
            r@.log == seq!["Welcome to Pulse TUI"@],
            r@.analytics_dek is None,
    {
        let mut log: Vec<String> = Vec::new();
        log.push(String::from_str("Welcome to Pulse TUI"));
        let r = App {
            screen: Screen::Connect,
            should_quit: false,
            identity_url: String::from_str("http://127.0.0.1:8001"),
            signal_url: String::from_str("http://127.0.0.1:8002"),
            connect_field: ConnectField::IdentityUrl,
            api_key: String::new(),
            login_status: None,
            session: None,
            tenant_id: None,
            key_version: None,
            public_key: None,
            questions: Vec::new(),
            selected_question: 0,
            token_status: String::new(),
            ready_token: None,
            scale_value: 3,
            text_response: String::new(),
            submit_status: String::new(),
            log,
            analytics_dek: None,
        };
        assert(texts(r.log@) =~= seq!["Welcome to Pulse TUI"@]);
        r
    }

    /// Whether `update(action)` is defined in this state (see [`update_defined`]).
    pub fn update_is_defined(&self, action: &Action) -> (r: bool)
        ensures
            r == update_defined(self@, *action),
    {
        match action {
            Action::Submit => {
                let q_ok = !(self.screen == Screen::Questions && self.questions.len() > 0) || (
                self.session.is_some() && self.public_key.is_some() && self.tenant_id.is_some()
                    && self.key_version.is_some());
                let r_ok = self.screen != Screen::Respond || (self.ready_token.is_some()
                    && self.tenant_id.is_some() && self.selected_question < self.questions.len());
                q_ok && r_ok
            },
            _ => true,
        }
    }

    fn push_log(&mut self, line: String)
        ensures
            final(self)@ == (AppView { log: old(self)@.log.push(line@), ..old(self)@ }),
    {
        let ghost before = self.log@;
        self.log.push(line);
        assert(texts(self.log@) =~= texts(before).push(line@));
    }

    /// Process an action: move to the next state (see [`step`]) and name the
    /// protocol work to start (see [`effect_matches`]). Any state is
    /// accepted; one that meets the invariant [`wf`] keeps meeting it.
    #[verifier::rlimit(50)]
    pub fn update(&mut self, action: Action) -> (effect: Effect)
        requires
            update_defined(old(self)@, action),
        ensures
            wf(old(self)@) ==> wf(final(self)@),
            final(self)@ == step(old(self)@, action),
            effect_matches(old(self)@, action, effect),
    {
        let ghost s = self@;
        let ghost a = action;
        match action {
            Action::Quit => {
                self.should_quit = true;
                Effect::Nothing
            },
            Action::Back => {
                match self.screen {
                    Screen::Connect => self.should_quit = true,
                    Screen::Login => self.screen = Screen::Connect,
                    Screen::Questions => self.screen = Screen::Login,
                    Screen::Token => self.screen = Screen::Questions,
                    Screen::Respond => self.screen = Screen::Questions,
                    Screen::Submit => {
                        self.screen = Screen::Questions;
                        self.ready_token = None;
                        self.submit_status = String::new();
                    },
                }
                Effect::Nothing
            },
            Action::NextField | Action::PrevField => {
                if self.screen == Screen::Connect {
                    self.connect_field = match self.connect_field {
                        ConnectField::IdentityUrl => ConnectField::SignalUrl,
                        ConnectField::SignalUrl => ConnectField::IdentityUrl,
                    };
                }
                Effect::Nothing
            },
            Action::CharInput(c) => {
                match self.screen {
                    Screen::Connect => match self.connect_field {
                        ConnectField::IdentityUrl => string_push(&mut self.identity_url, c),
                        ConnectField::SignalUrl => string_push(&mut self.signal_url, c),
                    },
                    Screen::Login => string_push(&mut self.api_key, c),
                    Screen::Respond => string_push(&mut self.text_response, c),
                    _ => {},
                }
                Effect::Nothing
            },
            Action::Backspace => {
                match self.screen {
                    Screen::Connect => match self.connect_field {
                        ConnectField::IdentityUrl => {
                            string_pop(&mut self.identity_url);
                        },
                        ConnectField::SignalUrl => {
                            string_pop(&mut self.signal_url);
                        },
                    },
                    Screen::Login => {
                        string_pop(&mut self.api_key);
                    },
                    Screen::Respond => {
                        string_pop(&mut self.text_response);
                    },
                    _ => {},
                }
                Effect::Nothing
            },
            Action::SelectUp => {
                if self.screen == Screen::Questions && self.selected_question > 0 {
                    self.selected_question = self.selected_question - 1;
                } else if self.screen == Screen::Respond && self.scale_value < 5 {
                    self.scale_value = self.scale_value + 1;
                }
                Effect::Nothing
            },
            Action::SelectDown => {
                if self.screen == Screen::Questions && self.questions.len() > 0 && self.selected_question
                    < self.questions.len() - 1 {
                    self.selected_question = self.selected_question + 1;
                } else if self.screen == Screen::Respond && self.scale_value > 1 {
                    self.scale_value = self.scale_value - 1;
                }
                Effect::Nothing
            },
            Action::ScaleUp => {
                if self.screen == Screen::Respond && self.scale_value < 5 {
                    self.scale_value = self.scale_value + 1;
                }
                Effect::Nothing
            },
            Action::ScaleDown => {
                if self.screen == Screen::Respond && self.scale_value > 1 {
                    self.scale_value = self.scale_value - 1;
                }
                Effect::Nothing
            },
            Action::Submit => self.submit(),
            Action::Connected { session, questions, tenant_id, key_version, public_key } => {
                self.session = Some(session);
                self.tenant_id = Some(tenant_id);
                self.key_version = Some(key_version);
                self.public_key = Some(public_key);
                self.questions = questions;
                self.selected_question = 0;
                self.login_status = Some(String::from_str("Connected!"));
                self.screen = Screen::Questions;
                Effect::Nothing
            },
            Action::TokenReady(token) => {
                self.token_status = String::from_str("Token ready!");
                self.push_log(
                    String::from_str("[Client] Signature unblinded and verified — token ready for submission"),
                );
                self.ready_token = Some(token);
                self.screen = Screen::Respond;
                Effect::Nothing
            },
            Action::ResponseSubmitted => {
                self.submit_status = String::from_str("Response submitted successfully!");
                self.push_log(
                    String::from_str("[Signal Zone] Response accepted — anonymous, verified, stored"),
                );
                Effect::Nothing
            },
            Action::ProtocolError(err) => {
                let msg = String::from_str("Error: ").concat(err.as_str());
                self.push_log(msg.clone());
                match self.screen {
                    Screen::Login => self.login_status = Some(msg),
                    Screen::Token => self.token_status = msg,
                    Screen::Submit => self.submit_status = msg,
                    _ => {},
                }
                Effect::Nothing
            },
            Action::Log(msg) => {
                self.push_log(msg);
                Effect::Nothing
            },
        }
    }

    /// The Submit action (Enter), on each screen.
    fn submit(&mut self) -> (effect: Effect)
        requires
            update_defined(old(self)@, Action::Submit),
        ensures
            final(self)@ == step(old(self)@, Action::Submit),
            effect_matches(old(self)@, Action::Submit, effect),
    {
        match self.screen {
            Screen::Connect => {
                let line = String::from_str("Connecting: identity=").concat(self.identity_url.as_str()).concat(
                    ", signal=",
                ).concat(self.signal_url.as_str());
                self.push_log(line);
                self.screen = Screen::Login;
                Effect::Nothing
            },
            Screen::Login => {
                self.login_status = Some(String::from_str("Connecting..."));
                Effect::ConnectAndAuth
            },
            Screen::Questions => {
                if self.questions.len() > 0 {
                    self.screen = Screen::Token;
                    self.token_status = String::from_str("Blinding token...");
                    Effect::TokenFlow
                } else {
                    Effect::Nothing
                }
            },
            Screen::Respond => {
                self.screen = Screen::Submit;
                self.submit_status = String::from_str("Encrypting and submitting...");
                let ready_token = match self.ready_token.take() {
                    Some(t) => t,
                    None => {
                        proof {
                            assert(false);
                        }
                        return Effect::Nothing;
                    },
                };
                let response_type = self.questions[self.selected_question].response_type;
                let response_data = match response_type {
                    ResponseType::Scale5 => ResponseData::Scale5(self.scale_value),
                    ResponseType::Binary => ResponseData::Binary(self.scale_value > 2),
                    ResponseType::FreeText => ResponseData::FreeText(self.text_response.clone()),
                    ResponseType::Emoji => ResponseData::Emoji(self.text_response.clone()),
                };
                Effect::SubmitResponse { ready_token, response_type, response_data }
            },
            _ => Effect::Nothing,
        }
    }
}

/// A ready token is spent at most once: submitting from the Respond screen
/// moves to the Submit screen without a ready token, and submitting again
/// there starts nothing.
pub proof fn submit_twice_submits_once(s: AppView, e: Effect)
    requires
        s.screen == Screen::Respond,
        effect_matches(step(s, Action::Submit), Action::Submit, e),
    ensures
        step(s, Action::Submit).screen == Screen::Submit,
        step(s, Action::Submit).ready_token is None,
        e is Nothing,
        step(step(s, Action::Submit), Action::Submit) == step(s, Action::Submit),
{
}

/// The state invariant holds initially and is kept by every defined update,
/// so the scale value always stays between 1 and 5 and the selection always
/// names an existing question when there is one.
pub proof fn step_keeps_invariant(s: AppView, a: Action)
    requires
        wf(s),
    ensures
        wf(step(s, a)),
{
}

/// On the Respond screen the Up keys raise the answer and the Down keys
/// lower it, one step at a time within 1 to 5: SelectUp acts as ScaleUp,
/// SelectDown as ScaleDown, and nothing else changes.
pub proof fn up_raises_down_lowers_the_scale(s: AppView)
    requires
        s.screen == Screen::Respond,
        wf(s),
    ensures
        step(s, Action::SelectUp) == step(s, Action::ScaleUp),
        step(s, Action::SelectDown) == step(s, Action::ScaleDown),
        step(s, Action::ScaleUp) == (AppView {
            scale_value: if s.scale_value < 5 { s.scale_value + 1 } else { 5 },
            ..s
        }),
        step(s, Action::ScaleDown) == (AppView {
            scale_value: if s.scale_value > 1 { s.scale_value - 1 } else { 1 },
            ..s
        }),
        step(s, Action::SelectUp).scale_value >= s.scale_value,
        step(s, Action::SelectDown).scale_value <= s.scale_value,
{
}

/// A character typed without the Control modifier is typed, whatever other
/// modifiers are held; quitting needs Control and one of the letters c or q.
pub proof fn plain_characters_are_typed(key: Key, control: bool, others: bool)
    ensures
        forall|c: char, o: bool| #[trigger] key_action_spec(Key::Char(c), false, o) == Some(
            Action::CharInput(c),
        ),
        key_action_spec(key, control, others) == Some(Action::Quit) ==> control && (key
            == Key::Char('c') || key == Key::Char('q')),
{
}

} // verus!
