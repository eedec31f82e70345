//! Commands as the protocol's codec decodes them, and the answers sent back.
use vstd::prelude::*;

verus! {

/// How a client asks to locate elements. Only CSS selectors are served.
#[derive(Clone, Copy, Debug, PartialEq, Eq, Structural)]
pub enum LocatorStrategy {
    CssSelector,
    LinkText,
    PartialLinkText,
    XPath,
}

/// Which of the three configurable timeouts a `SetTimeouts` command sets.
#[derive(Debug)]
pub enum TimeoutType {
    Implicit,
    PageLoad,
    Script,
    /// A name the protocol does not define; kept to report it.
    Unknown(String),
}

impl TimeoutType {
    /// Reads the protocol's name of a timeout.
    pub fn from_name(name: String) -> (r: TimeoutType)
        ensures
            name@ == "implicit"@ ==> r is Implicit,
            name@ == "page load"@ ==> r is PageLoad,
            name@ == "script"@ ==> r is Script,
            name@ != "implicit"@ && name@ != "page load"@ && name@ != "script"@ ==> (r matches TimeoutType::Unknown(n) && n@ == name@),
    {
        proof {
            reveal_strlit("implicit");
            reveal_strlit("page load");
            reveal_strlit("script");
            assert("implicit"@.len() == 8 && "page load"@.len() == 9 && "script"@.len() == 6);
        }
        if name == String::from_str("implicit") {
            TimeoutType::Implicit
        } else if name == String::from_str("page load") {
            TimeoutType::PageLoad
        } else if name == String::from_str("script") {
            TimeoutType::Script
        } else {
            TimeoutType::Unknown(name)
        }
    }
}

/// A decoded protocol command.
#[derive(Debug)]
pub enum Command {
    NewSession,
    Get(String),
    GoBack,
    GoForward,
    GetTitle,
    GetWindowHandle,
    GetWindowHandles,
    FindElement(LocatorStrategy, String),
    FindElements(LocatorStrategy, String),
    GetActiveElement,
    GetElementText(String),
    GetElementTagName(String),
    ExecuteScript(String),
    ExecuteAsyncScript(String),
    SetTimeouts(TimeoutType, u64),
    TakeScreenshot,
    /// Any command of the protocol that this server does not implement.
    Unsupported,
}

/// A value computed by a script in the page.
#[derive(Debug)]
pub enum ScriptValue {
    Undefined,
    Null,
    Boolean(bool),
    /// A number, as the bit pattern of its IEEE-754 double.
    Number(u64),
    String(String),
}

/// The payload of a generic answer.
#[derive(Debug)]
pub enum Value {
    Str(String),
    StrList(Vec<String>),
    /// An element reference, or null when nothing matched.
    Element(Option<String>),
    ElementList(Vec<String>),
    Script(ScriptValue),
}

/// The browser identity reported when a session starts.
#[derive(Debug)]
pub struct Capabilities {
    pub browser_name: String,
    pub browser_version: String,
}

/// The answer to a successful command.
#[derive(Debug)]
pub enum Response {
    Void,
    Generic(Value),
    NewSession { session_id: String, capabilities: Capabilities },
}

} // verus!
