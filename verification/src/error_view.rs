//! The view that stands in a tab whose terminal could not be started.

use vstd::prelude::*;
use vstd::string::*;

verus! {

/// Why a terminal could not be started, in words for the user.
#[derive(Clone, Debug)]
pub struct TerminalError {
    pub message: String,
}

/// A view that shows a failure. It never changes.
#[derive(Clone, Debug)]
pub struct ErrorView {
    error: TerminalError,
}

impl View for ErrorView {
    type V = Seq<char>;

    closed spec fn view(&self) -> Seq<char> {
        self.error.message@
    }
}

impl ErrorView {
    pub fn new(error: TerminalError) -> (view: ErrorView)
        ensures
            view@ == error.message@,
    {
        ErrorView { error }
    }

    pub fn ui_name() -> (name: &'static str)
        ensures
            name@ == "Terminal Error"@,
    {
        "Terminal Error"
    }

    /// The text in the tab's body: a fixed opening, then the failure word for word.
    pub fn render(&self) -> (label: String)
        ensures
            label@ == "Failed to open the terminal. Info: \n"@ + self@,
    {
        String::from_str("Failed to open the terminal. Info: \n").concat(
            self.error.message.as_str(),
        )
    }
}

} // verus!
