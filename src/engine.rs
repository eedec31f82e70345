//! What passes over the engine's control channel, and the steps of a command.
use vstd::prelude::*;
use crate::error::{ErrorStatus, WebDriverResult};
use crate::protocol::{Response, ScriptValue};

verus! {

/// Identifier of the engine's active top-level browsing context.
pub type PipelineId = u64;

#[derive(Clone, Copy, Debug, PartialEq, Eq, Structural)]
pub enum NavigationDirection {
    Back,
    Forward,
}

/// A request run by the script thread of one pipeline.
#[derive(Debug)]
pub enum ScriptCommand {
    GetTitle,
    FindElementCss(String),
    FindElementsCss(String),
    GetElementText(String),
    GetActiveElement,
    GetElementTagName(String),
    ExecuteScript(String),
    ExecuteAsyncScript(String),
}

/// A message to the engine's control process.
#[derive(Debug)]
pub enum EngineRequest {
    GetRootPipeline,
    LoadUrl { pipeline: PipelineId, url: String },
    Navigate(NavigationDirection),
    Script { pipeline: PipelineId, command: ScriptCommand },
    TakeScreenshot,
}

/// Why the engine could not hand back a script's result.
#[derive(Clone, Copy, Debug, PartialEq, Eq, Structural)]
pub enum JsError {
    Timeout,
    UnknownType,
}

/// A captured frame: 8-bit RGB pixels, row by row.
#[derive(Debug)]
pub struct Frame {
    pub width: u32,
    pub height: u32,
    pub pixels: Vec<u8>,
}

/// The engine's answer to a request; an `Err(())` is an element lookup or a
/// selector that failed.
#[derive(Debug)]
pub enum EngineReply {
    RootPipeline(Option<PipelineId>),
    Loaded,
    Title(String),
    Element(Result<Option<String>, ()>),
    Elements(Result<Vec<String>, ()>),
    ElementText(Result<String, ()>),
    ActiveElement(Option<String>),
    TagName(Result<String, ()>),
    Script(Result<ScriptValue, JsError>),
    Screenshot(Option<Frame>),
}

/// What the driver hands back after performing an action.
#[derive(Debug)]
pub enum Event {
    /// The reply to the request just sent.
    Reply(EngineReply),
    /// The requested pause is over.
    Slept,
}

/// What the driver must do next for the command in progress.
#[derive(Debug)]
pub enum Action {
    /// Send the request with a fresh reply destination, wait for the reply and
    /// hand it back.
    Request(EngineRequest),
    /// Pause for this many milliseconds, then hand back `Event::Slept`.
    Sleep(u32),
    /// Send `notify`, if any, without waiting for a reply, then answer the
    /// client with `result`. The command is over.
    Finish { notify: Option<EngineRequest>, result: WebDriverResult<Response> },
}

impl Action {
    pub open spec fn fails_with(self, status: ErrorStatus) -> bool {
        self matches Action::Finish { notify: None, result: Err(e) } && e.status == status
    }

    pub open spec fn answers(self) -> bool {
        self matches Action::Finish { notify: None, result: Ok(_) }
    }

    pub open spec fn answer(self) -> Response {
        self->Finish_result->Ok_0
    }

    pub open spec fn requests_root_pipeline(self) -> bool {
        self matches Action::Request(EngineRequest::GetRootPipeline)
    }
}

} // verus!
