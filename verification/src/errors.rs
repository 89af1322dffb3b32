use vstd::prelude::*;
use vstd::string::*;

verus! {

/// The terminal failure kinds a render session can produce. Creation-time
/// failures (`WindowCreation`, `WebViewCreation`) abort a render call before
/// its session enters the loop; `Timeout` and `Unknown` are delivered through
/// the session's one-shot channel like a success is.
#[derive(Debug)]
pub enum RenderError {
    /// The native windowing primitive could not be created.
    WindowCreation(String),
    /// The rendering engine could not be attached to the surface.
    WebViewCreation(String),
    /// No extraction message and no close event arrived before the deadline.
    Timeout,
    /// Reserved for page-side script errors; page-side scripts swallow their
    /// own exceptions, so the loop never produces this variant itself.
    ScriptExecution(String),
    /// Any other failure, notably a surface closed before extraction.
    Unknown(String),
}

/// Mathematical model of a `RenderError`: the same variants over character
/// sequences.
pub enum ErrorModel {
    WindowCreation(Seq<char>),
    WebViewCreation(Seq<char>),
    Timeout,
    ScriptExecution(Seq<char>),
    Unknown(Seq<char>),
}

impl View for RenderError {
    type V = ErrorModel;

    open spec fn view(&self) -> ErrorModel {
        match self {
            RenderError::WindowCreation(m) => ErrorModel::WindowCreation(m@),
            RenderError::WebViewCreation(m) => ErrorModel::WebViewCreation(m@),
            RenderError::Timeout => ErrorModel::Timeout,
            RenderError::ScriptExecution(m) => ErrorModel::ScriptExecution(m@),
            RenderError::Unknown(m) => ErrorModel::Unknown(m@),
        }
    }
}

/// The reason line that stands for a failure at the process boundary: a fixed
/// prefix naming the kind, followed by the kind's detail message.
pub open spec fn reason_model(e: ErrorModel) -> Seq<char> {
    match e {
        ErrorModel::WindowCreation(m) => "WindowCreationError: "@ + m,
        ErrorModel::WebViewCreation(m) => "WebViewCreationError: "@ + m,
        ErrorModel::Timeout => "RenderTimeoutError: Rendering timed out"@,
        ErrorModel::ScriptExecution(m) => "ScriptError: "@ + m,
        ErrorModel::Unknown(m) => "UnknownError: "@ + m,
    }
}

impl RenderError {
    /// Builds the human-readable reason line for this failure.
    pub fn reason(&self) -> (r: String)
        ensures
            r@ == reason_model(self@),
    {
        match self {
            RenderError::WindowCreation(m) => String::from_str("WindowCreationError: ").concat(
                m.as_str(),
            ),
            RenderError::WebViewCreation(m) => String::from_str("WebViewCreationError: ").concat(
                m.as_str(),
            ),
            RenderError::Timeout => String::from_str("RenderTimeoutError: Rendering timed out"),
            RenderError::ScriptExecution(m) => String::from_str("ScriptError: ").concat(m.as_str()),
            RenderError::Unknown(m) => String::from_str("UnknownError: ").concat(m.as_str()),
        }
    }
}

} // verus!
