use crate::lexer::span::{TextSpan, TextSpanView};
use vstd::prelude::*;
use vstd::string::StringExecFns;

verus! {

/// `std::io::Error`, the error of an operation on files. The front end
/// never makes or reads one: it is declared so that an error of the
/// surroundings can be carried through, and nothing is claimed of what it
/// holds.
#[verifier::external_type_specification]
#[verifier::external_body]
pub struct ExIoError(std::io::Error);

/// Everything that can go wrong between finding a project and resolving its
/// main file. The front end itself raises the last five variants; the
/// others come from its surroundings and are only passed on.
#[derive(Debug)]
pub enum PulseError {
    ProjectNotFound,
    Io(std::io::Error),
    ProjectAlreadyExists,
    InvalidProjectStructure,
    MultipleEntryPoints,
    /// The offending text and where it stands.
    InvalidToken(String, TextSpan),
    /// What was expected, a sentence for the user, and the span of the
    /// token found instead.
    ExpectedToken(String, String, TextSpan),
    /// The kind of a token that no rule accepts at its place.
    UnexpectedToken(String, TextSpan),
    /// A violated rule of the language and the span of the node at fault.
    SemanticError(String, TextSpan),
    /// A violated rule that has no single place in the source.
    ResolverError(String),
}

/// The mathematical value of a [`PulseError`].
pub enum PulseErrorView {
    ProjectNotFound,
    Io,
    ProjectAlreadyExists,
    InvalidProjectStructure,
    MultipleEntryPoints,
    InvalidToken(Seq<char>, TextSpanView),
    ExpectedToken(Seq<char>, Seq<char>, TextSpanView),
    UnexpectedToken(Seq<char>, TextSpanView),
    SemanticError(Seq<char>, TextSpanView),
    ResolverError(Seq<char>),
}

impl View for PulseError {
    type V = PulseErrorView;

    open spec fn view(&self) -> PulseErrorView {
        match self {
            PulseError::ProjectNotFound => PulseErrorView::ProjectNotFound,
            PulseError::Io(_) => PulseErrorView::Io,
            PulseError::ProjectAlreadyExists => PulseErrorView::ProjectAlreadyExists,
            PulseError::InvalidProjectStructure => PulseErrorView::InvalidProjectStructure,
            PulseError::MultipleEntryPoints => PulseErrorView::MultipleEntryPoints,
            PulseError::InvalidToken(text, span) => PulseErrorView::InvalidToken(text@, span@),
            PulseError::ExpectedToken(what, message, span) => PulseErrorView::ExpectedToken(
                what@,
                message@,
                span@,
            ),
            PulseError::UnexpectedToken(kind, span) => PulseErrorView::UnexpectedToken(
                kind@,
                span@,
            ),
            PulseError::SemanticError(message, span) => PulseErrorView::SemanticError(
                message@,
                span@,
            ),
            PulseError::ResolverError(message) => PulseErrorView::ResolverError(message@),
        }
    }
}

/// The error of a check that hands nothing back when it passes.
pub open spec fn error_of(res: Result<(), PulseError>) -> Option<PulseErrorView> {
    match res {
        Ok(_) => None,
        Err(error) => Some(error@),
    }
}

impl PulseErrorView {
    /// The span that the error points at, where it has one.
    pub open spec fn span(self) -> Option<TextSpanView> {
        match self {
            PulseErrorView::InvalidToken(_, span) => Some(span),
            PulseErrorView::ExpectedToken(_, _, span) => Some(span),
            PulseErrorView::UnexpectedToken(_, span) => Some(span),
            PulseErrorView::SemanticError(_, span) => Some(span),
            _ => None,
        }
    }

    /// The one-line text of the error. For an error of the operating system
    /// only the prefix is fixed: its own text follows.
    pub open spec fn message(self) -> Seq<char> {
        match self {
            PulseErrorView::ProjectNotFound =>
                "Couldn't find pulse.toml in current directory or any parent directory"@,
            PulseErrorView::Io => "IO error: "@,
            PulseErrorView::ProjectAlreadyExists => "Project at this path already exists"@,
            PulseErrorView::InvalidProjectStructure =>
                "Invalid project structure. Expected src/main.pulse or src/lib.pulse"@,
            PulseErrorView::MultipleEntryPoints =>
                "Found both src/main.pulse and src/lib.pulse. Only one is allowed"@,
            PulseErrorView::InvalidToken(text, _) => "Invalid token: "@ + text,
            PulseErrorView::ExpectedToken(what, _, _) => "Expected "@ + what + "."@,
            PulseErrorView::UnexpectedToken(kind, _) => "Unexpected token: "@ + kind,
            PulseErrorView::SemanticError(message, _) => message,
            PulseErrorView::ResolverError(message) => "Semantic error: "@ + message,
        }
    }
}

impl PulseError {
    /// The span that the error points at, where it has one.
    pub fn span(&self) -> (span: Option<TextSpan>)
        ensures
            span.is_some() == self@.span().is_some(),
            span matches Some(s) ==> self@.span() == Some(s@),
    {
        match self {
            PulseError::InvalidToken(_, span) => Some(span.clone()),
            PulseError::ExpectedToken(_, _, span) => Some(span.clone()),
            PulseError::UnexpectedToken(_, span) => Some(span.clone()),
            PulseError::SemanticError(_, span) => Some(span.clone()),
            _ => None,
        }
    }

    /// The one-line text of the error.
    pub fn message(&self) -> (text: String)
        ensures
            self@ != PulseErrorView::Io ==> text@ == self@.message(),
            self@ == PulseErrorView::Io ==> self@.message().is_prefix_of(text@),
    {
        match self {
            PulseError::ProjectNotFound => String::from_str(
                "Couldn't find pulse.toml in current directory or any parent directory",
            ),
            PulseError::Io(cause) => {
                let detail = cause.to_string();
                String::from_str("IO error: ").concat(detail.as_str())
            },
            PulseError::ProjectAlreadyExists => String::from_str(
                "Project at this path already exists",
            ),
            PulseError::InvalidProjectStructure => String::from_str(
                "Invalid project structure. Expected src/main.pulse or src/lib.pulse",
            ),
            PulseError::MultipleEntryPoints => String::from_str(
                "Found both src/main.pulse and src/lib.pulse. Only one is allowed",
            ),
            PulseError::InvalidToken(text, _) => String::from_str("Invalid token: ").concat(
                text.as_str(),
            ),
            PulseError::ExpectedToken(what, _, _) => String::from_str("Expected ").concat(
                what.as_str(),
            ).concat("."),
            PulseError::UnexpectedToken(kind, _) => String::from_str("Unexpected token: ").concat(
                kind.as_str(),
            ),
            PulseError::SemanticError(message, _) => message.clone(),
            PulseError::ResolverError(message) => String::from_str("Semantic error: ").concat(
                message.as_str(),
            ),
        }
    }
}

} // verus!
