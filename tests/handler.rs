use rustc_serialize::base64::FromBase64;
use webdriver_server::engine::{
    Action, EngineReply, EngineRequest, Event, Frame, JsError, NavigationDirection, ScriptCommand,
};
use webdriver_server::error::ErrorStatus;
use webdriver_server::handler::{Handler, Phase, WebdriverSession};
use webdriver_server::poll::{MAX_POLLS, POLL_INTERVAL_MS};
use webdriver_server::protocol::{Command, LocatorStrategy, Response, ScriptValue, TimeoutType, Value};

fn status_of(a: &Action) -> Option<ErrorStatus> {
    match a {
        Action::Finish { notify: None, result: Err(e) } => Some(e.status),
        _ => None,
    }
}

fn answer_of(a: Action) -> Response {
    match a {
        Action::Finish { notify: None, result: Ok(r) } => r,
        other => panic!("not an answer: {:?}", other),
    }
}

fn text_of(a: Action) -> String {
    match answer_of(a) {
        Response::Generic(Value::Str(s)) => s,
        other => panic!("not a string: {:?}", other),
    }
}

/// Resolves the root pipeline as `7` and returns the request sent to it.
fn resolve(h: &mut Handler, first: Action) -> EngineRequest {
    assert!(matches!(first, Action::Request(EngineRequest::GetRootPipeline)));
    match h.on_event(Event::Reply(EngineReply::RootPipeline(Some(7)))) {
        Action::Request(req) => req,
        other => panic!("no request: {:?}", other),
    }
}

fn frame() -> Frame {
    Frame { width: 2, height: 2, pixels: vec![255, 0, 0, 0, 255, 0, 0, 0, 255, 10, 20, 30] }
}

#[test]
fn new_handler_has_default_timeouts() {
    let h = Handler::new();
    assert!(h.session.is_none());
    assert_eq!(h.script_timeout, 30000);
    assert_eq!(h.load_timeout, 300000);
    assert_eq!(h.implicit_wait_timeout, 0);
    assert!(h.is_idle());
}

#[test]
fn second_session_is_refused() {
    let mut h = Handler::new();
    let first = h.handle_command(Command::NewSession);
    let id = match answer_of(first) {
        Response::NewSession { session_id, capabilities } => {
            assert_eq!(capabilities.browser_name, "servo");
            assert_eq!(capabilities.browser_version, "0.0.1");
            session_id
        }
        other => panic!("{:?}", other),
    };
    assert_eq!(id.len(), 36);
    let second = h.handle_command(Command::NewSession);
    assert_eq!(status_of(&second), Some(ErrorStatus::UnknownError));
    assert_eq!(h.session.as_ref().unwrap().id, id);
}

#[test]
fn session_after_delete_has_new_id() {
    let mut h = Handler::new();
    let a = match answer_of(h.handle_command(Command::NewSession)) {
        Response::NewSession { session_id, .. } => session_id,
        other => panic!("{:?}", other),
    };
    h.delete_session();
    assert!(h.session.is_none());
    let b = match answer_of(h.handle_command(Command::NewSession)) {
        Response::NewSession { session_id, .. } => session_id,
        other => panic!("{:?}", other),
    };
    assert_ne!(a, b);
    assert_eq!(h.session.as_ref().unwrap().id, b);
}

#[test]
fn start_session_uses_given_id() {
    let mut h = Handler::new();
    let r = h.start_session(WebdriverSession { id: "abc".to_string() });
    assert!(matches!(answer_of(r), Response::NewSession { session_id, .. } if session_id == "abc"));
    assert_eq!(text_of(h.handle_command(Command::GetWindowHandle)), "abc");
}

#[test]
fn delete_without_session_is_harmless() {
    let mut h = Handler::new();
    h.delete_session();
    h.delete_session();
    assert!(h.session.is_none());
    assert!(h.is_idle());
}

#[test]
fn window_handles_are_the_session_id() {
    let mut h = Handler::new();
    let r = h.handle_command(Command::GetWindowHandle);
    assert_eq!(status_of(&r), Some(ErrorStatus::NoSuchSession));
    let r = h.handle_command(Command::GetWindowHandles);
    assert_eq!(status_of(&r), Some(ErrorStatus::NoSuchSession));
    h.start_session(WebdriverSession { id: "s-1".to_string() });
    match answer_of(h.handle_command(Command::GetWindowHandles)) {
        Response::Generic(Value::StrList(v)) => assert_eq!(v, vec!["s-1".to_string()]),
        other => panic!("{:?}", other),
    }
}

#[test]
fn pipeline_poll_times_out_after_budget() {
    let mut h = Handler::new();
    let mut action = h.handle_command(Command::GetTitle);
    let mut polls: u32 = 0;
    let mut pauses: u32 = 0;
    loop {
        match action {
            Action::Request(EngineRequest::GetRootPipeline) => {
                polls += 1;
                action = h.on_event(Event::Reply(EngineReply::RootPipeline(None)));
            }
            Action::Sleep(ms) => {
                assert_eq!(ms, POLL_INTERVAL_MS);
                pauses += 1;
                action = h.on_event(Event::Slept);
            }
            other => {
                assert_eq!(status_of(&other), Some(ErrorStatus::Timeout));
                break;
            }
        }
    }
    assert_eq!(polls, 1500);
    assert_eq!(polls, MAX_POLLS);
    assert_eq!(pauses, 1500);
    assert!(h.is_idle());
}

#[test]
fn non_css_locator_is_refused_without_requests() {
    let mut h = Handler::new();
    for using in [LocatorStrategy::XPath, LocatorStrategy::LinkText, LocatorStrategy::PartialLinkText] {
        let r = h.handle_command(Command::FindElement(using, "//a".to_string()));
        assert_eq!(status_of(&r), Some(ErrorStatus::UnsupportedOperation));
        let r = h.handle_command(Command::FindElements(using, "//a".to_string()));
        assert_eq!(status_of(&r), Some(ErrorStatus::UnsupportedOperation));
        assert!(h.is_idle());
    }
}

#[test]
fn invalid_url_is_refused_before_any_request() {
    let mut h = Handler::new();
    let r = h.handle_command(Command::Get("not a url".to_string()));
    assert_eq!(status_of(&r), Some(ErrorStatus::InvalidArgument));
    assert!(h.is_idle());
}

#[test]
fn valid_url_is_loaded_once_and_answered_after_reply() {
    let mut h = Handler::new();
    let first = h.handle_command(Command::Get("https://example.test".to_string()));
    match resolve(&mut h, first) {
        EngineRequest::LoadUrl { pipeline, url } => {
            assert_eq!(pipeline, 7);
            assert_eq!(url, "https://example.test/");
        }
        other => panic!("{:?}", other),
    }
    assert!(!h.is_idle());
    let done = h.on_event(Event::Reply(EngineReply::Loaded));
    assert!(matches!(answer_of(done), Response::Void));
    assert!(h.is_idle());
}

#[test]
fn async_script_embeds_script_timeout() {
    let mut h = Handler::new();
    h.handle_command(Command::SetTimeouts(TimeoutType::Script, 5000));
    for body in ["return 1;", "callback(5);", ""] {
        let first = h.handle_command(Command::ExecuteAsyncScript(body.to_string()));
        match resolve(&mut h, first) {
            EngineRequest::Script { command: ScriptCommand::ExecuteAsyncScript(src), .. } => assert_eq!(
                src,
                format!(
                    "setTimeout(webdriverTimeout, 5000); (function(callback) {{ {} }})(window.webdriverCallback)",
                    body
                )
            ),
            other => panic!("{:?}", other),
        }
        h.on_event(Event::Reply(EngineReply::Script(Ok(ScriptValue::Null))));
    }
}

#[test]
fn sync_script_wraps_body() {
    let mut h = Handler::new();
    let first = h.handle_command(Command::ExecuteScript("return document.title;".to_string()));
    match resolve(&mut h, first) {
        EngineRequest::Script { pipeline: 7, command: ScriptCommand::ExecuteScript(src) } => {
            assert_eq!(src, "(function() { return document.title; })()")
        }
        other => panic!("{:?}", other),
    }
    let done = h.on_event(Event::Reply(EngineReply::Script(Ok(ScriptValue::String("t".to_string())))));
    assert!(matches!(answer_of(done), Response::Generic(Value::Script(ScriptValue::String(s))) if s == "t"));
}

#[test]
fn script_errors_are_mapped() {
    let mut h = Handler::new();
    let first = h.handle_command(Command::ExecuteScript("x".to_string()));
    resolve(&mut h, first);
    let r = h.on_event(Event::Reply(EngineReply::Script(Err(JsError::Timeout))));
    assert_eq!(status_of(&r), Some(ErrorStatus::Timeout));
    let first = h.handle_command(Command::ExecuteScript("x".to_string()));
    resolve(&mut h, first);
    let r = h.on_event(Event::Reply(EngineReply::Script(Err(JsError::UnknownType))));
    assert_eq!(status_of(&r), Some(ErrorStatus::UnsupportedOperation));
}

#[test]
fn screenshot_ready_on_third_poll_round_trips() {
    let mut h = Handler::new();
    let mut action = h.handle_command(Command::TakeScreenshot);
    let mut polls = 0;
    let encoded = loop {
        match action {
            Action::Request(EngineRequest::TakeScreenshot) => {
                polls += 1;
                let reply = if polls == 3 { Some(frame()) } else { None };
                action = h.on_event(Event::Reply(EngineReply::Screenshot(reply)));
            }
            Action::Sleep(_) => action = h.on_event(Event::Slept),
            other => break text_of(other),
        }
    };
    assert_eq!(polls, 3);
    let file = encoded.from_base64().unwrap();
    assert_eq!(encoded.len(), (file.len() + 2) / 3 * 4);
    let mut reader = png::Decoder::new(std::io::Cursor::new(file)).read_info().unwrap();
    let mut buf = vec![0; reader.output_buffer_size().unwrap()];
    let info = reader.next_frame(&mut buf).unwrap();
    assert_eq!((info.width, info.height), (2, 2));
    assert_eq!(&buf[..info.buffer_size()], &frame().pixels[..]);
}

#[test]
fn screenshot_never_ready_times_out() {
    let mut h = Handler::new();
    let mut action = h.handle_command(Command::TakeScreenshot);
    let mut polls = 0;
    let mut pauses = 0;
    loop {
        match action {
            Action::Request(EngineRequest::TakeScreenshot) => {
                polls += 1;
                action = h.on_event(Event::Reply(EngineReply::Screenshot(None)));
            }
            Action::Sleep(_) => {
                pauses += 1;
                action = h.on_event(Event::Slept)
            }
            other => {
                assert_eq!(status_of(&other), Some(ErrorStatus::Timeout));
                break;
            }
        }
    }
    assert_eq!(polls, 1500);
    assert_eq!(pauses, 1500);
}

#[test]
fn unencodable_frame_is_unknown_error() {
    let mut h = Handler::new();
    h.handle_command(Command::TakeScreenshot);
    let bad = Frame { width: 2, height: 2, pixels: vec![1, 2, 3] };
    let r = h.on_event(Event::Reply(EngineReply::Screenshot(Some(bad))));
    assert_eq!(status_of(&r), Some(ErrorStatus::UnknownError));
    h.handle_command(Command::TakeScreenshot);
    let huge = Frame { width: u32::MAX, height: u32::MAX, pixels: vec![] };
    let r = h.on_event(Event::Reply(EngineReply::Screenshot(Some(huge))));
    assert_eq!(status_of(&r), Some(ErrorStatus::UnknownError));
    h.handle_command(Command::TakeScreenshot);
    let empty = Frame { width: 0, height: 5, pixels: vec![] };
    let r = h.on_event(Event::Reply(EngineReply::Screenshot(Some(empty))));
    assert_eq!(status_of(&r), Some(ErrorStatus::UnknownError));
}

#[test]
fn element_lookups_map_failures() {
    let mut h = Handler::new();
    let first = h.handle_command(Command::GetElementText("e1".to_string()));
    match resolve(&mut h, first) {
        EngineRequest::Script { command: ScriptCommand::GetElementText(id), .. } => assert_eq!(id, "e1"),
        other => panic!("{:?}", other),
    }
    let r = h.on_event(Event::Reply(EngineReply::ElementText(Err(()))));
    assert_eq!(status_of(&r), Some(ErrorStatus::StaleElementReference));

    let first = h.handle_command(Command::GetElementTagName("e1".to_string()));
    resolve(&mut h, first);
    assert_eq!(text_of(h.on_event(Event::Reply(EngineReply::TagName(Ok("div".to_string()))))), "div");

    let first = h.handle_command(Command::FindElement(LocatorStrategy::CssSelector, "p".to_string()));
    match resolve(&mut h, first) {
        EngineRequest::Script { command: ScriptCommand::FindElementCss(sel), .. } => assert_eq!(sel, "p"),
        other => panic!("{:?}", other),
    }
    let r = h.on_event(Event::Reply(EngineReply::Element(Err(()))));
    assert_eq!(status_of(&r), Some(ErrorStatus::InvalidSelector));

    let first = h.handle_command(Command::FindElements(LocatorStrategy::CssSelector, "p".to_string()));
    resolve(&mut h, first);
    let r = h.on_event(Event::Reply(EngineReply::Elements(Ok(vec!["a".to_string(), "b".to_string()]))));
    assert!(matches!(answer_of(r), Response::Generic(Value::ElementList(v)) if v == vec!["a", "b"]));

    let first = h.handle_command(Command::GetActiveElement);
    resolve(&mut h, first);
    let r = h.on_event(Event::Reply(EngineReply::ActiveElement(None)));
    assert!(matches!(answer_of(r), Response::Generic(Value::Element(None))));
}

#[test]
fn title_is_answered() {
    let mut h = Handler::new();
    let first = h.handle_command(Command::GetTitle);
    assert!(matches!(resolve(&mut h, first), EngineRequest::Script { command: ScriptCommand::GetTitle, .. }));
    assert_eq!(text_of(h.on_event(Event::Reply(EngineReply::Title("Home".to_string())))), "Home");
}

#[test]
fn navigation_is_posted_without_reply() {
    let mut h = Handler::new();
    let r = h.handle_command(Command::GoBack);
    assert!(matches!(
        r,
        Action::Finish {
            notify: Some(EngineRequest::Navigate(NavigationDirection::Back)),
            result: Ok(Response::Void)
        }
    ));
    let r = h.handle_command(Command::GoForward);
    assert!(matches!(
        r,
        Action::Finish { notify: Some(EngineRequest::Navigate(NavigationDirection::Forward)), .. }
    ));
}

#[test]
fn timeouts_are_set_by_type() {
    let mut h = Handler::new();
    h.handle_command(Command::SetTimeouts(TimeoutType::from_name("implicit".to_string()), 7));
    h.handle_command(Command::SetTimeouts(TimeoutType::from_name("page load".to_string()), 8));
    h.handle_command(Command::SetTimeouts(TimeoutType::from_name("script".to_string()), 9));
    assert_eq!((h.implicit_wait_timeout, h.load_timeout, h.script_timeout), (7, 8, 9));
    let r = h.handle_command(Command::SetTimeouts(TimeoutType::from_name("bogus".to_string()), 1));
    assert_eq!(status_of(&r), Some(ErrorStatus::InvalidSelector));
    match r {
        Action::Finish { result: Err(e), .. } => assert_eq!(e.message, "Unknown timeout type bogus"),
        other => panic!("{:?}", other),
    }
    assert_eq!((h.implicit_wait_timeout, h.load_timeout, h.script_timeout), (7, 8, 9));
}

#[test]
fn unsupported_command_and_stray_reply() {
    let mut h = Handler::new();
    let r = h.handle_command(Command::Unsupported);
    assert_eq!(status_of(&r), Some(ErrorStatus::UnsupportedOperation));
    let r = h.on_event(Event::Slept);
    assert_eq!(status_of(&r), Some(ErrorStatus::UnknownError));
    let first = h.handle_command(Command::GetTitle);
    resolve(&mut h, first);
    let r = h.on_event(Event::Reply(EngineReply::Loaded));
    assert_eq!(status_of(&r), Some(ErrorStatus::UnknownError));
    assert!(matches!(h.phase, Phase::Idle));
}

#[test]
fn session_id_is_hyphenated_uuid() {
    let s = WebdriverSession::new();
    let text: Vec<char> = s.id.chars().collect();
    assert_eq!(text.len(), 36);
    for (i, c) in text.iter().enumerate() {
        if [8, 13, 18, 23].contains(&i) {
            assert_eq!(*c, '-');
        } else {
            assert!(c.is_ascii_digit() || ('a'..='f').contains(c));
        }
    }
    assert_eq!(text[14], '4');
    assert!(['8', '9', 'a', 'b'].contains(&text[19]));
}
