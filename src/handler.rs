//! The command dispatcher: the session, the timeouts, and the command in
//! progress.
use vstd::prelude::*;
use crate::engine::{
    Action, EngineReply, EngineRequest, Event, Frame, JsError, NavigationDirection, PipelineId,
    ScriptCommand,
};
use crate::error::{ErrorStatus, WebDriverError, WebDriverResult};
use crate::outside::{base64_alphabet, base64_of, encode_png, lemma_base64_shape, fresh_uuid, is_v4_uuid_text, parse_url, parsed_url, png_rgb8, to_base64};
use crate::poll::{after_unready, may_poll_again, next_attempt, MAX_POLLS, POLL_INTERVAL_MS};
use crate::protocol::{Capabilities, Command, LocatorStrategy, Response, TimeoutType, Value};
use crate::script::{async_script, async_script_source, sync_script, sync_script_source};

verus! {

/// The one automation session.
#[derive(Debug)]
pub struct WebdriverSession {
    pub id: String,
}

impl WebdriverSession {
    /// A session under a fresh random identifier.
    pub fn new() -> (r: WebdriverSession)
        ensures
            is_v4_uuid_text(r.id@),
    {
        WebdriverSession { id: fresh_uuid() }
    }
}

/// The kind of reply that the request in flight waits for.
#[derive(Clone, Copy, Debug, PartialEq, Eq, Structural)]
pub enum Expect {
    Loaded,
    Title,
    Element,
    Elements,
    ElementText,
    ActiveElement,
    TagName,
    Script,
}

/// What a command sends once the root pipeline is known.
#[derive(Debug)]
pub enum Pending {
    LoadUrl(String),
    Script(ScriptCommand),
}

impl Pending {
    pub open spec fn expect(self) -> Expect {
        match self {
            Pending::LoadUrl(_) => Expect::Loaded,
            Pending::Script(c) => match c {
                ScriptCommand::GetTitle => Expect::Title,
                ScriptCommand::FindElementCss(_) => Expect::Element,
                ScriptCommand::FindElementsCss(_) => Expect::Elements,
                ScriptCommand::GetElementText(_) => Expect::ElementText,
                ScriptCommand::GetActiveElement => Expect::ActiveElement,
                ScriptCommand::GetElementTagName(_) => Expect::TagName,
                ScriptCommand::ExecuteScript(_) => Expect::Script,
                ScriptCommand::ExecuteAsyncScript(_) => Expect::Script,
            },
        }
    }

    pub open spec fn request(self, pipeline: PipelineId) -> EngineRequest {
        match self {
            Pending::LoadUrl(url) => EngineRequest::LoadUrl { pipeline, url },
            Pending::Script(command) => EngineRequest::Script { pipeline, command },
        }
    }

    fn into_request(self, pipeline: PipelineId) -> (r: (EngineRequest, Expect))
        ensures
            r.0 == self.request(pipeline),
            r.1 == self.expect(),
    {
        match self {
            Pending::LoadUrl(url) => (EngineRequest::LoadUrl { pipeline, url }, Expect::Loaded),
            Pending::Script(command) => {
                let expect = match &command {
                    ScriptCommand::GetTitle => Expect::Title,
                    ScriptCommand::FindElementCss(_) => Expect::Element,
                    ScriptCommand::FindElementsCss(_) => Expect::Elements,
                    ScriptCommand::GetElementText(_) => Expect::ElementText,
                    ScriptCommand::GetActiveElement => Expect::ActiveElement,
                    ScriptCommand::GetElementTagName(_) => Expect::TagName,
                    ScriptCommand::ExecuteScript(_) => Expect::Script,
                    ScriptCommand::ExecuteAsyncScript(_) => Expect::Script,
                };
                (EngineRequest::Script { pipeline, command }, expect)
            },
        }
    }
}

/// Where the command in progress stands.
#[derive(Debug)]
pub enum Phase {
    /// No command in progress.
    Idle,
    /// Polling for the root pipeline: `attempts` polls were answered "not
    /// ready"; `sleeping` while the pause before the next poll runs.
    Resolving { attempts: u32, sleeping: bool, pending: Pending },
    /// The request was sent to the root pipeline; its reply is awaited.
    Awaiting(Expect),
    /// Polling for a frame, counted as for the root pipeline.
    Capturing { attempts: u32, sleeping: bool },
}

/// The protocol handler's state. One command runs at a time.
#[derive(Debug)]
pub struct Handler {
    pub session: Option<WebdriverSession>,
    pub script_timeout: u64,
    pub load_timeout: u64,
    pub implicit_wait_timeout: u64,
    pub phase: Phase,
}

/// The answer to a captured frame: its PNG file in base64, or `UnknownError`
/// where the pixels are not three bytes per pixel or the frame cannot be
/// encoded.
pub open spec fn screenshot_answer(width: u32, height: u32, pixels: Seq<u8>, r: WebDriverResult<Response>) -> bool {
    if pixels.len() != 3 * (width * height) {
        r matches Err(e) && e.status == ErrorStatus::UnknownError
    } else {
        match png_rgb8(width, height, pixels) {
            None => r matches Err(e) && e.status == ErrorStatus::UnknownError,
            Some(file) => {
                &&& r matches Ok(Response::Generic(Value::Str(s)))
                &&& s@ == base64_of(file)
                &&& s@.len() == (file.len() + 2) / 3 * 4
                &&& forall|i: int| 0 <= i < s@.len() ==> #[trigger] s@[i] == '=' || base64_alphabet().contains(s@[i])
            },
        }
    }
}

/// The answer that `reply` gives to a request waiting for `expect`; false of
/// every action where the reply is of another kind.
pub open spec fn reply_answer(expect: Expect, reply: EngineReply, r: Action) -> bool {
    match reply {
        EngineReply::Loaded => expect == Expect::Loaded
            && r == (Action::Finish { notify: None, result: Ok(Response::Void) }),
        EngineReply::Title(t) => expect == Expect::Title
            && r == (Action::Finish { notify: None, result: Ok(Response::Generic(Value::Str(t))) }),
        EngineReply::Element(found) => expect == Expect::Element && match found {
            Ok(e) => r == (Action::Finish { notify: None, result: Ok(Response::Generic(Value::Element(e))) }),
            Err(_) => r.fails_with(ErrorStatus::InvalidSelector),
        },
        EngineReply::Elements(found) => expect == Expect::Elements && match found {
            Ok(v) => r == (Action::Finish { notify: None, result: Ok(Response::Generic(Value::ElementList(v))) }),
            Err(_) => r.fails_with(ErrorStatus::InvalidSelector),
        },
        EngineReply::ElementText(found) => expect == Expect::ElementText && match found {
            Ok(t) => r == (Action::Finish { notify: None, result: Ok(Response::Generic(Value::Str(t))) }),
            Err(_) => r.fails_with(ErrorStatus::StaleElementReference),
        },
        EngineReply::ActiveElement(e) => expect == Expect::ActiveElement
            && r == (Action::Finish { notify: None, result: Ok(Response::Generic(Value::Element(e))) }),
        EngineReply::TagName(found) => expect == Expect::TagName && match found {
            Ok(t) => r == (Action::Finish { notify: None, result: Ok(Response::Generic(Value::Str(t))) }),
            Err(_) => r.fails_with(ErrorStatus::StaleElementReference),
        },
        EngineReply::Script(outcome) => expect == Expect::Script && match outcome {
            Ok(v) => r == (Action::Finish { notify: None, result: Ok(Response::Generic(Value::Script(v))) }),
            Err(JsError::Timeout) => r.fails_with(ErrorStatus::Timeout),
            Err(JsError::UnknownType) => r.fails_with(ErrorStatus::UnsupportedOperation),
        },
        _ => false,
    }
}

pub open spec fn reply_fits(expect: Expect, reply: EngineReply) -> bool {
    match reply {
        EngineReply::Loaded => expect == Expect::Loaded,
        EngineReply::Title(_) => expect == Expect::Title,
        EngineReply::Element(_) => expect == Expect::Element,
        EngineReply::Elements(_) => expect == Expect::Elements,
        EngineReply::ElementText(_) => expect == Expect::ElementText,
        EngineReply::ActiveElement(_) => expect == Expect::ActiveElement,
        EngineReply::TagName(_) => expect == Expect::TagName,
        EngineReply::Script(_) => expect == Expect::Script,
        _ => false,
    }
}

fn finish_ok(value: Value) -> (r: Action)
    ensures
        r == (Action::Finish { notify: None, result: Ok(Response::Generic(value)) }),
{
    Action::Finish { notify: None, result: Ok(Response::Generic(value)) }
}

fn finish_err(status: ErrorStatus, message: &str) -> (r: Action)
    ensures
        r.fails_with(status),
{
    Action::Finish { notify: None, result: Err(WebDriverError::new(status, message)) }
}

/// Maps the engine's reply to the request in flight onto the answer.
pub fn reply_action(expect: Expect, reply: EngineReply) -> (r: Option<Action>)
    ensures
        r is Some == reply_fits(expect, reply),
        r matches Some(a) ==> reply_answer(expect, reply, a),
{
    match reply {
        EngineReply::Loaded => if expect == Expect::Loaded {
            Some(Action::Finish { notify: None, result: Ok(Response::Void) })
        } else {
            None
        },
        EngineReply::Title(t) => if expect == Expect::Title {
            Some(finish_ok(Value::Str(t)))
        } else {
            None
        },
        EngineReply::Element(found) => if expect == Expect::Element {
            Some(match found {
                Ok(e) => finish_ok(Value::Element(e)),
                Err(_) => finish_err(ErrorStatus::InvalidSelector, "Invalid selector"),
            })
        } else {
            None
        },
        EngineReply::Elements(found) => if expect == Expect::Elements {
            Some(match found {
                Ok(v) => finish_ok(Value::ElementList(v)),
                Err(_) => finish_err(ErrorStatus::InvalidSelector, "Invalid selector"),
            })
        } else {
            None
        },
        EngineReply::ElementText(found) => if expect == Expect::ElementText {
            Some(match found {
                Ok(t) => finish_ok(Value::Str(t)),
                Err(_) => finish_err(ErrorStatus::StaleElementReference, "Unable to find element in document"),
            })
        } else {
            None
        },
        EngineReply::ActiveElement(e) => if expect == Expect::ActiveElement {
            Some(finish_ok(Value::Element(e)))
        } else {
            None
        },
        EngineReply::TagName(found) => if expect == Expect::TagName {
            Some(match found {
                Ok(t) => finish_ok(Value::Str(t)),
                Err(_) => finish_err(ErrorStatus::StaleElementReference, "Unable to find element in document"),
            })
        } else {
            None
        },
        EngineReply::Script(outcome) => if expect == Expect::Script {
            Some(match outcome {
                Ok(v) => finish_ok(Value::Script(v)),
                Err(JsError::Timeout) => finish_err(ErrorStatus::Timeout, ""),
                Err(JsError::UnknownType) => finish_err(ErrorStatus::UnsupportedOperation, "Unsupported return type"),
            })
        } else {
            None
        },
        _ => None,
    }
}

/// Encodes a captured frame as a PNG file and answers it in base64.
pub fn screenshot_response(frame: &Frame) -> (r: WebDriverResult<Response>)
    ensures
        screenshot_answer(frame.width, frame.height, frame.pixels@, r),
{
    let width = frame.width as u128;
    let height = frame.height as u128;
    proof {
        assert(width * height <= 0xffff_ffff * 0xffff_ffff) by (nonlinear_arith)
            requires
                width <= 0xffff_ffff,
                height <= 0xffff_ffff,
        ;
    }
    if frame.pixels.len() as u128 != 3 * (width * height) {
        return Err(WebDriverError::new(ErrorStatus::UnknownError, "Frame size does not match its pixels"));
    }
    match encode_png(frame.width, frame.height, &frame.pixels) {
        Ok(file) => {
            proof {
                lemma_base64_shape(file@);
            }
            Ok(Response::Generic(Value::Str(to_base64(&file))))
        },
        Err(_) => Err(WebDriverError::new(ErrorStatus::UnknownError, "Taking screenshot failed")),
    }
}

impl Handler {
    pub open spec fn with_phase(self, phase: Phase) -> Handler {
        Handler {
            session: self.session,
            script_timeout: self.script_timeout,
            load_timeout: self.load_timeout,
            implicit_wait_timeout: self.implicit_wait_timeout,
            phase,
        }
    }

    pub open spec fn with_session(self, session: Option<WebdriverSession>) -> Handler {
        Handler {
            session,
            script_timeout: self.script_timeout,
            load_timeout: self.load_timeout,
            implicit_wait_timeout: self.implicit_wait_timeout,
            phase: self.phase,
        }
    }

    /// `post` and `r` start a fresh poll for the root pipeline; the rest of
    /// the state is kept.
    pub open spec fn starts_resolving(self, post: Handler, r: Action) -> bool {
        &&& r.requests_root_pipeline()
        &&& post.phase matches Phase::Resolving { attempts, sleeping, .. }
        &&& attempts == 0 && !sleeping
        &&& post == self.with_phase(post.phase)
    }

    /// Session creation with `session` as the fresh session: refused while one
    /// exists, else the session is stored and its identifier answered with
    /// the browser's capabilities.
    pub open spec fn session_started(self, id: Seq<char>, post: Handler, r: Action) -> bool {
        if self.session is Some {
            post == self && r.fails_with(ErrorStatus::UnknownError)
        } else {
            &&& post.session matches Some(s) && s.id@ == id
            &&& post == self.with_session(post.session)
            &&& r matches Action::Finish {
                notify: None,
                result: Ok(Response::NewSession { session_id, capabilities }),
            }
            &&& session_id@ == id
            &&& capabilities.browser_name@ == "servo"@
            &&& capabilities.browser_version@ == "0.0.1"@
        }
    }

    /// `post` and `r` poll for the root pipeline, to send `pending` to it.
    pub open spec fn resolves_for(self, post: Handler, r: Action, pending: Pending) -> bool {
        self.starts_resolving(post, r) && post.phase->pending == pending
    }

    /// The command is over with `r`; nothing changed.
    pub open spec fn refuses(self, post: Handler, r: Action, status: ErrorStatus) -> bool {
        post == self && r.fails_with(status)
    }

    /// Loading `url`: refused before any request where it is no URL, else
    /// the parsed URL is loaded into the root pipeline.
    pub open spec fn get_step(self, url: Seq<char>, post: Handler, r: Action) -> bool {
        match parsed_url(url) {
            None => self.refuses(post, r, ErrorStatus::InvalidArgument),
            Some(u) => {
                &&& self.starts_resolving(post, r)
                &&& post.phase->pending matches Pending::LoadUrl(v)
                &&& v@ == u
            },
        }
    }

    pub open spec fn navigate_step(self, direction: NavigationDirection, post: Handler, r: Action) -> bool {
        post == self && r == (Action::Finish {
            notify: Some(EngineRequest::Navigate(direction)),
            result: Ok(Response::Void),
        })
    }

    /// The session identifier is the handle of the one window.
    pub open spec fn window_handle_step(self, post: Handler, r: Action) -> bool {
        match self.session {
            None => self.refuses(post, r, ErrorStatus::NoSuchSession),
            Some(s) => {
                &&& post == self
                &&& r matches Action::Finish { notify: None, result: Ok(Response::Generic(Value::Str(h))) }
                &&& h@ == s.id@
            },
        }
    }

    pub open spec fn window_handles_step(self, post: Handler, r: Action) -> bool {
        match self.session {
            None => self.refuses(post, r, ErrorStatus::NoSuchSession),
            Some(s) => {
                &&& post == self
                &&& r matches Action::Finish { notify: None, result: Ok(Response::Generic(Value::StrList(v))) }
                &&& v@.len() == 1
                &&& v@[0]@ == s.id@
            },
        }
    }

    /// Finding one element (or all, with `all`): only CSS selectors are
    /// served, and any other strategy is refused before any request.
    pub open spec fn find_step(self, using: LocatorStrategy, value: String, all: bool, post: Handler, r: Action) -> bool {
        if using != LocatorStrategy::CssSelector {
            self.refuses(post, r, ErrorStatus::UnsupportedOperation)
        } else if all {
            self.resolves_for(post, r, Pending::Script(ScriptCommand::FindElementsCss(value)))
        } else {
            self.resolves_for(post, r, Pending::Script(ScriptCommand::FindElementCss(value)))
        }
    }

    /// Running `body` as a script, with the asynchronous guard when
    /// `asynchronous`.
    pub open spec fn script_step(self, body: Seq<char>, asynchronous: bool, post: Handler, r: Action) -> bool {
        &&& self.starts_resolving(post, r)
        &&& if asynchronous {
            post.phase->pending matches Pending::Script(ScriptCommand::ExecuteAsyncScript(src))
                && src@ == async_script(body, self.script_timeout as nat)
        } else {
            post.phase->pending matches Pending::Script(ScriptCommand::ExecuteScript(src))
                && src@ == sync_script(body)
        }
    }

    pub open spec fn timeouts_step(self, kind: TimeoutType, ms: u64, post: Handler, r: Action) -> bool {
        match kind {
            TimeoutType::Unknown(name) => {
                &&& self.refuses(post, r, ErrorStatus::InvalidSelector)
                &&& r->result->Err_0.message@ == "Unknown timeout type "@ + name@
            },
            _ => {
                &&& r == (Action::Finish { notify: None, result: Ok(Response::Void) })
                &&& post.session == self.session && post.phase == self.phase
                &&& post.implicit_wait_timeout == (if kind is Implicit { ms } else { self.implicit_wait_timeout })
                &&& post.load_timeout == (if kind is PageLoad { ms } else { self.load_timeout })
                &&& post.script_timeout == (if kind is Script { ms } else { self.script_timeout })
            },
        }
    }

    pub open spec fn screenshot_step(self, post: Handler, r: Action) -> bool {
        post == self.with_phase(Phase::Capturing { attempts: 0, sleeping: false })
            && r == Action::Request(EngineRequest::TakeScreenshot)
    }

    /// What a command does when no other is in progress.
    pub open spec fn command_step(self, cmd: Command, post: Handler, r: Action) -> bool {
        match cmd {
            Command::NewSession => post.session matches Some(s) && self.session_started(s.id@, post, r),
            Command::Get(url) => self.get_step(url@, post, r),
            Command::GoBack => self.navigate_step(NavigationDirection::Back, post, r),
            Command::GoForward => self.navigate_step(NavigationDirection::Forward, post, r),
            Command::GetTitle => self.resolves_for(post, r, Pending::Script(ScriptCommand::GetTitle)),
            Command::GetWindowHandle => self.window_handle_step(post, r),
            Command::GetWindowHandles => self.window_handles_step(post, r),
            Command::FindElement(using, value) => self.find_step(using, value, false, post, r),
            Command::FindElements(using, value) => self.find_step(using, value, true, post, r),
            Command::GetActiveElement => self.resolves_for(post, r, Pending::Script(ScriptCommand::GetActiveElement)),
            Command::GetElementText(e) => self.resolves_for(post, r, Pending::Script(ScriptCommand::GetElementText(e))),
            Command::GetElementTagName(e) => self.resolves_for(post, r, Pending::Script(ScriptCommand::GetElementTagName(e))),
            Command::ExecuteScript(body) => self.script_step(body@, false, post, r),
            Command::ExecuteAsyncScript(body) => self.script_step(body@, true, post, r),
            Command::SetTimeouts(kind, ms) => self.timeouts_step(kind, ms, post, r),
            Command::TakeScreenshot => self.screenshot_step(post, r),
            Command::Unsupported => self.refuses(post, r, ErrorStatus::UnsupportedOperation),
        }
    }

    /// An event that the command in progress did not ask for ends it.
    pub open spec fn stray(self, post: Handler, r: Action) -> bool {
        post == self.with_phase(Phase::Idle) && r.fails_with(ErrorStatus::UnknownError)
    }

    /// What the driver's report of the last action does.
    pub open spec fn event_step(self, ev: Event, post: Handler, r: Action) -> bool {
        match self.phase {
            Phase::Idle => self.stray(post, r),
            Phase::Resolving { attempts, sleeping, pending } => if !sleeping {
                match ev {
                    Event::Reply(EngineReply::RootPipeline(Some(p))) =>
                        post == self.with_phase(Phase::Awaiting(pending.expect()))
                            && r == Action::Request(pending.request(p)),
                    Event::Reply(EngineReply::RootPipeline(None)) =>
                        post == self.with_phase(Phase::Resolving {
                            attempts: after_unready(attempts as nat) as u32,
                            sleeping: true,
                            pending,
                        }) && r == Action::Sleep(POLL_INTERVAL_MS),
                    _ => self.stray(post, r),
                }
            } else {
                match ev {
                    Event::Slept => if attempts < MAX_POLLS {
                        post == self.with_phase(Phase::Resolving { attempts, sleeping: false, pending })
                            && r == Action::Request(EngineRequest::GetRootPipeline)
                    } else {
                        post == self.with_phase(Phase::Idle) && r.fails_with(ErrorStatus::Timeout)
                    },
                    _ => self.stray(post, r),
                }
            },
            Phase::Awaiting(expect) => match ev {
                Event::Reply(reply) => if reply_fits(expect, reply) {
                    post == self.with_phase(Phase::Idle) && reply_answer(expect, reply, r)
                } else {
                    self.stray(post, r)
                },
                _ => self.stray(post, r),
            },
            Phase::Capturing { attempts, sleeping } => if !sleeping {
                match ev {
                    Event::Reply(EngineReply::Screenshot(Some(frame))) => {
                        &&& post == self.with_phase(Phase::Idle)
                        &&& r matches Action::Finish { notify: None, result }
                        &&& screenshot_answer(frame.width, frame.height, frame.pixels@, result)
                    },
                    Event::Reply(EngineReply::Screenshot(None)) =>
                        post == self.with_phase(Phase::Capturing {
                            attempts: after_unready(attempts as nat) as u32,
                            sleeping: true,
                        }) && r == Action::Sleep(POLL_INTERVAL_MS),
                    _ => self.stray(post, r),
                }
            } else {
                match ev {
                    Event::Slept => if attempts < MAX_POLLS {
                        post == self.with_phase(Phase::Capturing { attempts, sleeping: false })
                            && r == Action::Request(EngineRequest::TakeScreenshot)
                    } else {
                        post == self.with_phase(Phase::Idle) && r.fails_with(ErrorStatus::Timeout)
                    },
                    _ => self.stray(post, r),
                }
            },
        }
    }

    pub fn new() -> (r: Handler)
        ensures
            r.session is None,
            r.script_timeout == 30_000,
            r.load_timeout == 300_000,
            r.implicit_wait_timeout == 0,
            r.phase is Idle,
    {
        Handler {
            session: None,
            script_timeout: 30_000,
            load_timeout: 300_000,
            implicit_wait_timeout: 0,
            phase: Phase::Idle,
        }
    }

    pub fn is_idle(&self) -> (r: bool)
        ensures
            r == self.phase is Idle,
    {
        match self.phase {
            Phase::Idle => true,
            _ => false,
        }
    }

    /// Starts `session` unless one exists already.
    pub fn start_session(&mut self, session: WebdriverSession) -> (r: Action)
        ensures
            old(self).session_started(session.id@, *final(self), r),
    {
        if self.session.is_some() {
            return Action::Finish {
                notify: None,
                result: Err(WebDriverError::new(ErrorStatus::UnknownError, "Session already created")),
            };
        }
        let session_id = session.id.clone();
        self.session = Some(session);
        let capabilities = Capabilities {
            browser_name: String::from_str("servo"),
            browser_version: String::from_str("0.0.1"),
        };
        Action::Finish { notify: None, result: Ok(Response::NewSession { session_id, capabilities }) }
    }

    /// Starts a session under a fresh random identifier unless one exists.
    pub fn handle_new_session(&mut self) -> (r: Action)
        ensures
            old(self).session is Some ==> *final(self) == *old(self) && r.fails_with(ErrorStatus::UnknownError),
            old(self).session is None ==> (final(self).session matches Some(s) && is_v4_uuid_text(s.id@)
                && old(self).session_started(s.id@, *final(self), r)),
    {
        if self.session.is_some() {
            return Action::Finish {
                notify: None,
                result: Err(WebDriverError::new(ErrorStatus::UnknownError, "Session already created")),
            };
        }
        self.start_session(WebdriverSession::new())
    }

    /// Starts polling for the root pipeline, to send `pending` to it once
    /// the engine names one.
    fn get_root_pipeline(&mut self, pending: Pending) -> (r: Action)
        ensures
            old(self).resolves_for(*final(self), r, pending),
    {
        self.phase = Phase::Resolving { attempts: 0, sleeping: false, pending };
        Action::Request(EngineRequest::GetRootPipeline)
    }

    pub fn handle_get(&mut self, url: &str) -> (r: Action)
        ensures
            old(self).get_step(url@, *final(self), r),
    {
        match parse_url(url) {
            Ok(u) => self.get_root_pipeline(Pending::LoadUrl(u)),
            Err(_) => Action::Finish {
                notify: None,
                result: Err(WebDriverError::new(ErrorStatus::InvalidArgument, "Invalid URL")),
            },
        }
    }

    pub fn handle_go_back(&self) -> (r: Action)
        ensures
            self.navigate_step(NavigationDirection::Back, *self, r),
    {
        Action::Finish {
            notify: Some(EngineRequest::Navigate(NavigationDirection::Back)),
            result: Ok(Response::Void),
        }
    }

    pub fn handle_go_forward(&self) -> (r: Action)
        ensures
            self.navigate_step(NavigationDirection::Forward, *self, r),
    {
        Action::Finish {
            notify: Some(EngineRequest::Navigate(NavigationDirection::Forward)),
            result: Ok(Response::Void),
        }
    }

    pub fn handle_get_title(&mut self) -> (r: Action)
        ensures
            old(self).resolves_for(*final(self), r, Pending::Script(ScriptCommand::GetTitle)),
    {
        self.get_root_pipeline(Pending::Script(ScriptCommand::GetTitle))
    }

    pub fn handle_get_window_handle(&self) -> (r: Action)
        ensures
            self.window_handle_step(*self, r),
    {
        match &self.session {
            None => Action::Finish {
                notify: None,
                result: Err(WebDriverError::new(ErrorStatus::NoSuchSession, "No active session")),
            },
            Some(s) => Action::Finish {
                notify: None,
                result: Ok(Response::Generic(Value::Str(s.id.clone()))),
            },
        }
    }

    pub fn handle_get_window_handles(&self) -> (r: Action)
        ensures
            self.window_handles_step(*self, r),
    {
        match &self.session {
            None => Action::Finish {
                notify: None,
                result: Err(WebDriverError::new(ErrorStatus::NoSuchSession, "No active session")),
            },
            Some(s) => {
                let mut handles: Vec<String> = Vec::new();
                handles.push(s.id.clone());
                Action::Finish { notify: None, result: Ok(Response::Generic(Value::StrList(handles))) }
            },
        }
    }

    fn unsupported_strategy() -> (r: Action)
        ensures
            r.fails_with(ErrorStatus::UnsupportedOperation),
    {
        Action::Finish {
            notify: None,
            result: Err(WebDriverError::new(ErrorStatus::UnsupportedOperation, "Unsupported locator strategy")),
        }
    }

    pub fn handle_find_element(&mut self, using: LocatorStrategy, value: String) -> (r: Action)
        ensures
            old(self).find_step(using, value, false, *final(self), r),
    {
        if using != LocatorStrategy::CssSelector {
            return Self::unsupported_strategy();
        }
        self.get_root_pipeline(Pending::Script(ScriptCommand::FindElementCss(value)))
    }

    pub fn handle_find_elements(&mut self, using: LocatorStrategy, value: String) -> (r: Action)
        ensures
            old(self).find_step(using, value, true, *final(self), r),
    {
        if using != LocatorStrategy::CssSelector {
            return Self::unsupported_strategy();
        }
        self.get_root_pipeline(Pending::Script(ScriptCommand::FindElementsCss(value)))
    }

    pub fn handle_get_element_text(&mut self, element: String) -> (r: Action)
        ensures
            old(self).resolves_for(*final(self), r, Pending::Script(ScriptCommand::GetElementText(element))),
    {
        self.get_root_pipeline(Pending::Script(ScriptCommand::GetElementText(element)))
    }

    pub fn handle_get_active_element(&mut self) -> (r: Action)
        ensures
            old(self).resolves_for(*final(self), r, Pending::Script(ScriptCommand::GetActiveElement)),
    {
        self.get_root_pipeline(Pending::Script(ScriptCommand::GetActiveElement))
    }

    pub fn handle_get_element_tag_name(&mut self, element: String) -> (r: Action)
        ensures
            old(self).resolves_for(*final(self), r, Pending::Script(ScriptCommand::GetElementTagName(element))),
    {
        self.get_root_pipeline(Pending::Script(ScriptCommand::GetElementTagName(element)))
    }

    pub fn handle_set_timeouts(&mut self, kind: TimeoutType, ms: u64) -> (r: Action)
        ensures
            old(self).timeouts_step(kind, ms, *final(self), r),
    {
        match kind {
            TimeoutType::Implicit => self.implicit_wait_timeout = ms,
            TimeoutType::PageLoad => self.load_timeout = ms,
            TimeoutType::Script => self.script_timeout = ms,
            TimeoutType::Unknown(name) => {
                let mut message = String::from_str("Unknown timeout type ");
                message.append(name.as_str());
                return Action::Finish {
                    notify: None,
                    result: Err(WebDriverError { status: ErrorStatus::InvalidSelector, message }),
                };
            },
        }
        Action::Finish { notify: None, result: Ok(Response::Void) }
    }

    pub fn handle_execute_script(&mut self, body: &str) -> (r: Action)
        ensures
            old(self).script_step(body@, false, *final(self), r),
    {
        let script = sync_script_source(body);
        self.get_root_pipeline(Pending::Script(ScriptCommand::ExecuteScript(script)))
    }

    pub fn handle_execute_async_script(&mut self, body: &str) -> (r: Action)
        ensures
            old(self).script_step(body@, true, *final(self), r),
    {
        let script = async_script_source(body, self.script_timeout);
        self.get_root_pipeline(Pending::Script(ScriptCommand::ExecuteAsyncScript(script)))
    }

    pub fn handle_take_screenshot(&mut self) -> (r: Action)
        ensures
            old(self).screenshot_step(*final(self), r),
    {
        self.phase = Phase::Capturing { attempts: 0, sleeping: false };
        Action::Request(EngineRequest::TakeScreenshot)
    }

    /// Starts `cmd`. Commands run one at a time: the previous one is over.
    pub fn handle_command(&mut self, cmd: Command) -> (r: Action)
        requires
            old(self).phase is Idle,
        ensures
            old(self).command_step(cmd, *final(self), r),
    {
        match cmd {
            Command::NewSession => self.handle_new_session(),
            Command::Get(url) => self.handle_get(url.as_str()),
            Command::GoBack => self.handle_go_back(),
            Command::GoForward => self.handle_go_forward(),
            Command::GetTitle => self.handle_get_title(),
            Command::GetWindowHandle => self.handle_get_window_handle(),
            Command::GetWindowHandles => self.handle_get_window_handles(),
            Command::FindElement(using, value) => self.handle_find_element(using, value),
            Command::FindElements(using, value) => self.handle_find_elements(using, value),
            Command::GetActiveElement => self.handle_get_active_element(),
            Command::GetElementText(e) => self.handle_get_element_text(e),
            Command::GetElementTagName(e) => self.handle_get_element_tag_name(e),
            Command::ExecuteScript(body) => self.handle_execute_script(body.as_str()),
            Command::ExecuteAsyncScript(body) => self.handle_execute_async_script(body.as_str()),
            Command::SetTimeouts(kind, ms) => self.handle_set_timeouts(kind, ms),
            Command::TakeScreenshot => self.handle_take_screenshot(),
            Command::Unsupported => Action::Finish {
                notify: None,
                result: Err(WebDriverError::new(ErrorStatus::UnsupportedOperation, "Command not implemented")),
            },
        }
    }

    fn stray_event(&mut self) -> (r: Action)
        ensures
            old(self).stray(*final(self), r),
    {
        self.phase = Phase::Idle;
        finish_err(ErrorStatus::UnknownError, "Unexpected engine reply")
    }

    /// Advances the command in progress with the outcome of its last action.
    pub fn on_event(&mut self, ev: Event) -> (r: Action)
        ensures
            old(self).event_step(ev, *final(self), r),
    {
        let mut phase = Phase::Idle;
        std::mem::swap(&mut self.phase, &mut phase);
        let ghost before = *old(self);
        assert(*self == before.with_phase(Phase::Idle));
        match phase {
            Phase::Idle => self.stray_event(),
            Phase::Resolving { attempts, sleeping, pending } => {
                if !sleeping {
                    match ev {
                        Event::Reply(EngineReply::RootPipeline(Some(p))) => {
                            let (request, expect) = pending.into_request(p);
                            self.phase = Phase::Awaiting(expect);
                            Action::Request(request)
                        },
                        Event::Reply(EngineReply::RootPipeline(None)) => {
                            self.phase = Phase::Resolving { attempts: next_attempt(attempts), sleeping: true, pending };
                            Action::Sleep(POLL_INTERVAL_MS)
                        },
                        _ => self.stray_event(),
                    }
                } else {
                    match ev {
                        Event::Slept => if may_poll_again(attempts) {
                            self.phase = Phase::Resolving { attempts, sleeping: false, pending };
                            Action::Request(EngineRequest::GetRootPipeline)
                        } else {
                            finish_err(ErrorStatus::Timeout, "Failed to get root window handle")
                        },
                        _ => self.stray_event(),
                    }
                }
            },
            Phase::Awaiting(expect) => match ev {
                Event::Reply(reply) => match reply_action(expect, reply) {
                    Some(a) => a,
                    None => self.stray_event(),
                },
                _ => self.stray_event(),
            },
            Phase::Capturing { attempts, sleeping } => {
                if !sleeping {
                    match ev {
                        Event::Reply(EngineReply::Screenshot(Some(frame))) => {
                            Action::Finish { notify: None, result: screenshot_response(&frame) }
                        },
                        Event::Reply(EngineReply::Screenshot(None)) => {
                            self.phase = Phase::Capturing { attempts: next_attempt(attempts), sleeping: true };
                            Action::Sleep(POLL_INTERVAL_MS)
                        },
                        _ => self.stray_event(),
                    }
                } else {
                    match ev {
                        Event::Slept => if may_poll_again(attempts) {
                            self.phase = Phase::Capturing { attempts, sleeping: false };
                            Action::Request(EngineRequest::TakeScreenshot)
                        } else {
                            finish_err(ErrorStatus::Timeout, "Taking screenshot timed out")
                        },
                        _ => self.stray_event(),
                    }
                }
            },
        }
    }

    /// Ends the session, if any. Never fails.
    pub fn delete_session(&mut self)
        ensures
            *final(self) == old(self).with_session(None),
    {
        self.session = None;
    }
}

/// While a session exists, starting another is refused with `UnknownError`
/// and changes nothing.
pub proof fn lemma_single_session(h: Handler, id: Seq<char>, post: Handler, r: Action)
    requires
        h.session is Some,
        h.session_started(id, post, r),
    ensures
        post == h,
        r.fails_with(ErrorStatus::UnknownError),
{
}

/// Once the session is deleted, a new one starts, under the identifier it
/// was given, which differs from the old one where the given one does.
pub proof fn lemma_session_after_destroy(h: Handler, id: Seq<char>, post: Handler, r: Action)
    requires
        h.with_session(None).session_started(id, post, r),
    ensures
        post.session matches Some(s) && s.id@ == id,
        r.answers(),
        r.answer() matches Response::NewSession { session_id, .. } && session_id@ == id,
        h.session is Some && h.session->Some_0.id@ != id ==> post.session->Some_0.id@ != h.session->Some_0.id@,
{
}

/// Deleting the session when there is none leaves the handler as it was.
pub proof fn lemma_destroy_without_session(h: Handler)
    requires
        h.session is None,
    ensures
        h.with_session(None) == h,
{
}

/// A command leaves the handler idle exactly when it is answered, so a
/// failed command never leaves work behind for the next one; and an answer
/// never changes the session or the timeouts.
pub proof fn lemma_answer_leaves_idle(h: Handler, cmd: Command, ev: Event, post: Handler, r: Action, post2: Handler, r2: Action)
    requires
        h.phase is Idle,
        h.command_step(cmd, post, r),
        post.event_step(ev, post2, r2),
    ensures
        r is Finish <==> post.phase is Idle,
        r2 is Finish <==> post2.phase is Idle,
        r2 is Finish ==> post2 == post.with_phase(Phase::Idle),
{
}

/// The poll a polling phase repeats: for a frame when `capture`, else for the
/// root pipeline.
pub open spec fn poll_request(capture: bool) -> EngineRequest {
    if capture { EngineRequest::TakeScreenshot } else { EngineRequest::GetRootPipeline }
}

/// The "not ready" answer to `poll_request(capture)`.
pub open spec fn unready_reply(capture: bool) -> EngineReply {
    if capture { EngineReply::Screenshot(None) } else { EngineReply::RootPipeline(None) }
}

/// The count of "not ready" answers and whether a pause runs, in a phase
/// that polls as `capture` says.
pub open spec fn poll_state(phase: Phase, capture: bool) -> Option<(nat, bool)> {
    match phase {
        Phase::Resolving { attempts, sleeping, .. } => if capture { None } else { Some((attempts as nat, sleeping)) },
        Phase::Capturing { attempts, sleeping } => if capture { Some((attempts as nat, sleeping)) } else { None },
        _ => None,
    }
}

/// What the driver hands back before step `i` of a run against an engine that
/// is never ready: the end of the pause, or the answer to the poll.
pub open spec fn run_event(acts: Seq<Action>, i: int, capture: bool) -> Event {
    if i > 0 && acts[i - 1] is Sleep { Event::Slept } else { Event::Reply(unready_reply(capture)) }
}

/// `hs` and `acts` are a run of the handler against an engine that answers
/// every poll "not ready": step `i` takes `hs[i]` to `hs[i + 1]` and returns
/// `acts[i]`, and hands back what the action before it asked for (the first
/// step answers the request that started the poll).
pub open spec fn unready_run(hs: Seq<Handler>, acts: Seq<Action>, capture: bool) -> bool {
    &&& hs.len() == acts.len() + 1
    &&& forall|i: int| 0 <= i < acts.len() ==> #[trigger] hs[i].event_step(
        run_event(acts, i, capture),
        hs[i + 1],
        acts[i],
    )
}

proof fn lemma_unready_step(hs: Seq<Handler>, acts: Seq<Action>, capture: bool, i: int)
    requires
        poll_state(hs[0].phase, capture) == Some((0nat, false)),
        unready_run(hs, acts, capture),
        acts.len() == 2 * MAX_POLLS,
        0 <= i < 2 * MAX_POLLS,
    ensures
        i % 2 == 0 ==> poll_state(hs[i].phase, capture) == Some(((i / 2) as nat, false)),
        i % 2 == 1 ==> poll_state(hs[i].phase, capture) == Some((((i + 1) / 2) as nat, true)),
        i % 2 == 0 ==> acts[i] == Action::Sleep(POLL_INTERVAL_MS),
        i % 2 == 1 && i < 2 * MAX_POLLS - 1 ==> acts[i] == Action::Request(poll_request(capture)),
        i == 2 * MAX_POLLS - 1 ==> acts[i].fails_with(ErrorStatus::Timeout) && hs[i + 1].phase is Idle,
    decreases i,
{
    if i > 0 {
        lemma_unready_step(hs, acts, capture, i - 1);
        assert(hs[i - 1].event_step(run_event(acts, i - 1, capture), hs[i - 1 + 1], acts[i - 1]));
        assert(i - 1 + 1 == i);
    }
    assert(hs[i].event_step(
        run_event(acts, i, capture),
        hs[i + 1],
        acts[i],
    ));
}

/// Against an engine that is never ready, a poll (for the root pipeline, or
/// for a frame when `capture`) that starts with its first request out makes
/// `MAX_POLLS` requests in all (that one and one after each of the first
/// `MAX_POLLS - 1` pauses), pauses `POLL_INTERVAL_MS` after every answer, the
/// last one included, and then ends the command with `Timeout`.
pub proof fn lemma_never_ready(hs: Seq<Handler>, acts: Seq<Action>, capture: bool)
    requires
        poll_state(hs[0].phase, capture) == Some((0nat, false)),
        unready_run(hs, acts, capture),
        acts.len() == 2 * MAX_POLLS,
    ensures
        forall|k: int| 0 <= k < MAX_POLLS ==> #[trigger] acts[2 * k] == Action::Sleep(POLL_INTERVAL_MS),
        forall|k: int| 0 <= k < MAX_POLLS - 1 ==> #[trigger] acts[2 * k + 1] == Action::Request(poll_request(capture)),
        acts[2 * MAX_POLLS - 1].fails_with(ErrorStatus::Timeout),
        hs[2 * MAX_POLLS as int].phase is Idle,
{
    assert forall|k: int| 0 <= k < MAX_POLLS implies #[trigger] acts[2 * k] == Action::Sleep(POLL_INTERVAL_MS) by {
        lemma_unready_step(hs, acts, capture, 2 * k);
    }
    assert forall|k: int| 0 <= k < MAX_POLLS - 1 implies #[trigger] acts[2 * k + 1] == Action::Request(poll_request(capture)) by {
        lemma_unready_step(hs, acts, capture, 2 * k + 1);
    }
    lemma_unready_step(hs, acts, capture, 2 * MAX_POLLS - 1);
}

/// A command that polls starts its poll with the first request out and no
/// answer counted, so `lemma_never_ready` applies from the state it leaves.
pub proof fn lemma_poll_starts_fresh(h: Handler, cmd: Command, post: Handler, r: Action)
    requires
        h.phase is Idle,
        h.command_step(cmd, post, r),
    ensures
        post.phase is Resolving ==> poll_state(post.phase, false) == Some((0nat, false))
            && r == Action::Request(poll_request(false)),
        post.phase is Capturing ==> poll_state(post.phase, true) == Some((0nat, false))
            && r == Action::Request(poll_request(true)),
{
}

/// Loading a URL that parses: one poll for the root pipeline, then exactly
/// one load request to the pipeline named, with the parsed URL; the answer
/// `Void` comes only with the engine's reply to that load.
pub proof fn lemma_get_loads_once(
    h: Handler, url: String, p: PipelineId,
    h1: Handler, a1: Action, h2: Handler, a2: Action, h3: Handler, a3: Action,
)
    requires
        h.phase is Idle,
        parsed_url(url@) is Some,
        h.command_step(Command::Get(url), h1, a1),
        h1.event_step(Event::Reply(EngineReply::RootPipeline(Some(p))), h2, a2),
        h2.event_step(Event::Reply(EngineReply::Loaded), h3, a3),
    ensures
        a1.requests_root_pipeline(),
        a2 matches Action::Request(EngineRequest::LoadUrl { pipeline, url: u })
            && pipeline == p && u@ == parsed_url(url@)->Some_0,
        h2.phase == Phase::Awaiting(Expect::Loaded),
        a3 == (Action::Finish { notify: None, result: Ok(Response::Void) }),
        h3 == h.with_phase(Phase::Idle),
{
}

} // verus!
