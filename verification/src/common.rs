//! Prompt metadata, prompt kinds, key events, and the error type shared by
//! the text and numeric editing engines.
use vstd::prelude::*;

verus! {

/// The kind of value a prompt asks for.
#[derive(Clone, Copy, Debug, PartialEq, Eq, Structural)]
pub enum PromptType {
    String,
    Bool,
    Int,
    UInt,
    Float,
    UFloat,
    FilePath,
    FilePathExisting,
}

impl PromptType {
    /// Kinds whose value may carry a sign.
    pub open spec fn is_signed(self) -> bool {
        self == PromptType::Int || self == PromptType::Float
    }

    /// Kinds whose value may carry a decimal point.
    pub open spec fn is_fractional(self) -> bool {
        self == PromptType::Float || self == PromptType::UFloat
    }

    /// Kinds driven by the numeric editing engine.
    pub open spec fn is_numeric(self) -> bool {
        self == PromptType::Int || self == PromptType::UInt || self == PromptType::Float
            || self == PromptType::UFloat
    }

    /// Kinds driven by the text editing engine.
    pub open spec fn is_textual(self) -> bool {
        self == PromptType::String || self == PromptType::Bool
    }
}

/// `std::io::Error`, carried through unread: it is produced and consumed only
/// by the unverified terminal front end.
#[verifier::external_type_specification]
#[verifier::external_body]
pub struct ExIoError(std::io::Error);

/// How a prompt ends without producing a value.
#[derive(Debug)]
pub enum PromptError {
    /// A write, flush or cursor query on the terminal failed.
    IO(std::io::Error),
    /// The user pressed Ctrl-C or Esc.
    KeyboardInterrupt,
    /// A usage error, such as driving an engine with an inapplicable kind.
    Custom(String),
}

/// One key event, the vocabulary the engines consume. Enter arrives as
/// `Char('\n')`.
#[derive(Clone, Copy, Debug, PartialEq, Eq, Structural)]
pub enum KeyEvent {
    Char(char),
    Backspace,
    Delete,
    Left,
    Right,
    Home,
    End,
    PageUp,
    PageDown,
    CtrlC,
    Esc,
    Other,
}

impl KeyEvent {
    /// Ctrl-C and Esc both cancel.
    pub open spec fn is_cancel(self) -> bool {
        self == KeyEvent::CtrlC || self == KeyEvent::Esc
    }
}

/// How one key event leaves an editing attempt.
#[derive(Clone, Copy, Debug, PartialEq, Eq, Structural)]
pub enum StepStatus {
    /// The attempt goes on: read the next event.
    Editing,
    /// The attempt produced a value.
    Submitted,
    /// The user cancelled the attempt.
    Cancelled,
}

/// The `go_back` flag's value: an absent flag means `true`.
pub open spec fn or_true(o: Option<bool>) -> bool {
    match o {
        Option::None => true,
        Option::Some(b) => b,
    }
}

/// `n` truncated to sixteen bits, as a cursor-move count is.
pub open spec fn trunc16(n: nat) -> nat {
    n % 0x10000
}

/// The view of an optional string.
pub open spec fn opt_view(o: Option<String>) -> Option<Seq<char>> {
    match o {
        Option::None => Option::None,
        Option::Some(s) => Option::Some(s@),
    }
}

/// The outcome of driving an editing attempt over a sequence of events: the
/// result if one was reached (`None` when the events ran out mid-edit), the
/// output written along the way, and how many events were consumed.
pub ghost struct PromptRun {
    pub outcome: Option<Result<Seq<char>, PromptError>>,
    pub out: Seq<char>,
    pub used: nat,
}

/// The view of a driver's outcome.
pub open spec fn outcome_view(o: Option<Result<String, PromptError>>) -> Option<
    Result<Seq<char>, PromptError>,
> {
    match o {
        Option::None => Option::None,
        Option::Some(Ok(s)) => Option::Some(Ok(s@)),
        Option::Some(Err(e)) => Option::Some(Err(e)),
    }
}

/// Descriptive fields of one prompt: label prefix, prompt text, optional
/// default, optional annotation, remembered anchor row, and kind.
#[derive(Clone, Debug)]
pub struct PromptBase {
    pub prefix: String,
    pub text: String,
    pub default: Option<String>,
    pub extra: Option<String>,
    pub line: Option<u16>,
    pub prompt_type: PromptType,
}

} // verus!
