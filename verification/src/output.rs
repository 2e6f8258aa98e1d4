//! The lines the feed owes its reader.

use vstd::prelude::*;

verus! {

/// One line owed to the output stream.
#[derive(Clone, Debug, PartialEq, Eq)]
pub enum Output {
    /// The title of the focused window, owed at the end of a burst of changes.
    Title(String),
    /// An empty line, owed once when the focus passes from a window to none.
    Blank,
}

/// The mathematical content of an [`Output`].
pub enum OutputView {
    Title(Seq<char>),
    Blank,
}

impl OutputView {
    /// The text of the line, without its line terminator.
    pub open spec fn line(self) -> Seq<char> {
        match self {
            OutputView::Title(title) => title,
            OutputView::Blank => Seq::empty(),
        }
    }
}

impl View for Output {
    type V = OutputView;

    open spec fn view(&self) -> OutputView {
        match *self {
            Output::Title(title) => OutputView::Title(title@),
            Output::Blank => OutputView::Blank,
        }
    }
}

impl Output {
    /// The text to print for this line, without its line terminator.
    pub fn line(&self) -> (text: String)
        ensures
            text@ == self@.line(),
    {
        match self {
            Output::Title(title) => title.clone(),
            Output::Blank => String::new(),
        }
    }
}

/// The content of an optional line.
pub open spec fn output_view(output: Option<Output>) -> Option<OutputView> {
    match output {
        Some(line) => Some(line@),
        None => None,
    }
}

/// The content of an optional text.
pub open spec fn text_view(text: Option<String>) -> Option<Seq<char>> {
    match text {
        Some(t) => Some(t@),
        None => None,
    }
}

} // verus!
