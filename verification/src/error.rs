//! The failures that end the watcher.

use vstd::prelude::*;
use vstd::string::StringExecFns;

verus! {

/// The code under which the detection engine files an error that it cannot
/// classify further.
pub const ENGINE_UNSPECIFIED: i32 = -2;

/// A failure of the file system or of the detection engine, held by the text
/// that describes it.
#[derive(Clone, Debug, PartialEq, Eq)]
pub enum CustomError {
    /// A file or directory could not be created, written, protected, removed
    /// or copied.
    IoError(String),
    /// The detection engine refused a definition, a frame or a snapshot.
    OpenCvError(String),
}

/// A failure by its kind and the text that describes it.
pub enum CustomErrorView {
    IoError(Seq<char>),
    OpenCvError(Seq<char>),
}

impl View for CustomError {
    type V = CustomErrorView;

    open spec fn view(&self) -> CustomErrorView {
        match self {
            CustomError::IoError(text) => CustomErrorView::IoError(text@),
            CustomError::OpenCvError(text) => CustomErrorView::OpenCvError(text@),
        }
    }
}

impl CustomError {
    /// The text that describes the failure: that of the failure it wraps.
    pub open spec fn spec_describe(&self) -> Seq<char> {
        match self {
            CustomError::IoError(text) => text@,
            CustomError::OpenCvError(text) => text@,
        }
    }

    /// The text under which the failure is handed to the detection engine's
    /// own error type.
    pub open spec fn spec_engine_message(&self) -> Seq<char> {
        "Custom error: "@ + self.spec_describe()
    }

    pub fn describe(&self) -> (text: String)
        ensures
            text@ == self.spec_describe(),
    {
        match self {
            CustomError::IoError(text) => text.clone(),
            CustomError::OpenCvError(text) => text.clone(),
        }
    }

    /// The code under which the failure is handed to the detection engine's
    /// own error type, whichever failure it is.
    pub fn engine_code(&self) -> (code: i32)
        ensures
            code == ENGINE_UNSPECIFIED,
    {
        ENGINE_UNSPECIFIED
    }

    pub fn engine_message(&self) -> (text: String)
        ensures
            text@ == self.spec_engine_message(),
    {
        let described = self.describe();
        String::from_str("Custom error: ").concat(described.as_str())
    }
}

} // verus!
