use vstd::prelude::*;
use vstd::string::StringExecFns;

verus! {

/// Why a conversion failed before a response could be built.
#[derive(Clone, Debug)]
pub enum ConvertError {
    /// Inlined page content is not valid base64; holds the decoder's description.
    Decode(String),
    /// A page that needs a source has neither a URL nor inlined content.
    MissingSource,
    /// A temporary file could not be created or written.
    TempFile(String),
    /// The renderer could not be started.
    Spawn(String),
    /// The renderer produced no bytes.
    EmptyOutput,
    /// The storage region could not be parsed; holds the parser's description.
    InvalidRegion(String),
    /// The storage call failed.
    Upload(String),
}

/// What a `ConvertError` holds, with its text as a character sequence.
pub enum ErrorView {
    Decode(Seq<char>),
    MissingSource,
    TempFile(Seq<char>),
    Spawn(Seq<char>),
    EmptyOutput,
    InvalidRegion(Seq<char>),
    Upload(Seq<char>),
}

impl View for ConvertError {
    type V = ErrorView;

    open spec fn view(&self) -> ErrorView {
        match self {
            ConvertError::Decode(s) => ErrorView::Decode(s@),
            ConvertError::MissingSource => ErrorView::MissingSource,
            ConvertError::TempFile(s) => ErrorView::TempFile(s@),
            ConvertError::Spawn(s) => ErrorView::Spawn(s@),
            ConvertError::EmptyOutput => ErrorView::EmptyOutput,
            ConvertError::InvalidRegion(s) => ErrorView::InvalidRegion(s@),
            ConvertError::Upload(s) => ErrorView::Upload(s@),
        }
    }
}

/// The text that reports an error.
pub open spec fn error_text(e: ErrorView) -> Seq<char> {
    match e {
        ErrorView::Decode(s) => "Failed to decode Base64: "@ + s,
        ErrorView::MissingSource => "No page source specified"@,
        ErrorView::TempFile(s) => s,
        ErrorView::Spawn(s) => s,
        ErrorView::EmptyOutput => "Failed to read PDF output"@,
        ErrorView::InvalidRegion(s) => s,
        ErrorView::Upload(s) => s,
    }
}

impl ConvertError {
    /// The error's description, as it is reported to the caller.
    pub fn message(&self) -> (r: String)
        ensures
            r@ == error_text(self@),
    {
        match self {
            ConvertError::Decode(s) => String::from_str("Failed to decode Base64: ").concat(s.as_str()),
            ConvertError::MissingSource => String::from_str("No page source specified"),
            ConvertError::TempFile(s) => s.clone(),
            ConvertError::Spawn(s) => s.clone(),
            ConvertError::EmptyOutput => String::from_str("Failed to read PDF output"),
            ConvertError::InvalidRegion(s) => s.clone(),
            ConvertError::Upload(s) => s.clone(),
        }
    }
}

} // verus!
