//! Failures of the bridge, and the words in which they reach the caller.
//!
//! A failure crosses the boundary to the user interface as one plain string
//! and as nothing else. What that string is, for every failure, is fixed by
//! [`ErrorView::message`]; it is never empty.

use vstd::prelude::*;
use vstd::std_specs::convert::FromSpecImpl;
use vstd::string::StringExecFns;

verus! {

/// A failure of a command.
///
/// Each kind holds the description of what went wrong, as text: a failure is
/// made for one call, put into words for the caller and then dropped, and its
/// description is all that is ever read of it.
#[derive(Debug, PartialEq, Eq)]
pub enum Error {
    /// A low-level input or output failure, in the words of the operating system.
    Io(String),
    /// A failure of the channel to a mobile plugin, in that channel's own words.
    /// Only builds for a mobile host ever make one.
    PluginInvoke(String),
    /// Any other failure, by its description. Failures of the host runtime
    /// itself arrive here, see [`TauriErrorWrapper`].
    Unknown(String),
}

/// The mathematical value of an [`Error`]: its kind and its description.
pub enum ErrorView {
    Io(Seq<char>),
    PluginInvoke(Seq<char>),
    Unknown(Seq<char>),
}

impl View for Error {
    type V = ErrorView;

    open spec fn view(&self) -> ErrorView {
        match self {
            Error::Io(description) => ErrorView::Io(description@),
            Error::PluginInvoke(description) => ErrorView::PluginInvoke(description@),
            Error::Unknown(description) => ErrorView::Unknown(description@),
        }
    }
}

impl ErrorView {
    /// The description that the failure holds.
    pub open spec fn description(self) -> Seq<char> {
        match self {
            ErrorView::Io(description) => description,
            ErrorView::PluginInvoke(description) => description,
            ErrorView::Unknown(description) => description,
        }
    }

    /// The string that the caller gets for this failure.
    ///
    /// An input/output failure and a plugin-channel failure speak for
    /// themselves; where one has nothing to say, its kind is named in its
    /// place. Any other failure is announced as unknown, followed by its
    /// description.
    pub open spec fn message(self) -> Seq<char> {
        match self {
            ErrorView::Io(description) => if description.len() == 0 {
                "input/output error"@
            } else {
                description
            },
            ErrorView::PluginInvoke(description) => if description.len() == 0 {
                "plugin invoke error"@
            } else {
                description
            },
            ErrorView::Unknown(description) => "unknown error: "@ + description,
        }
    }
}

impl Error {
    /// The string that the caller gets for this failure.
    pub fn to_string(&self) -> (text: String)
        ensures
            text@ == self@.message(),
    {
        match self {
            Error::Io(description) => {
                if description.as_str().is_empty() {
                    String::from_str("input/output error")
                } else {
                    description.clone()
                }
            },
            Error::PluginInvoke(description) => {
                if description.as_str().is_empty() {
                    String::from_str("plugin invoke error")
                } else {
                    description.clone()
                }
            },
            Error::Unknown(description) => {
                String::from_str("unknown error: ").concat(description.as_str())
            },
        }
    }
}

/// What the host runtime said of a failure of its own: the text of its error.
#[derive(Debug, PartialEq, Eq)]
pub struct TauriErrorWrapper(pub String);

impl View for TauriErrorWrapper {
    type V = Seq<char>;

    open spec fn view(&self) -> Seq<char> {
        self.0@
    }
}

impl FromSpecImpl<TauriErrorWrapper> for Error {
    open spec fn obeys_from_spec() -> bool {
        true
    }

    open spec fn from_spec(value: TauriErrorWrapper) -> Error {
        Error::Unknown(value.0)
    }
}

impl From<TauriErrorWrapper> for Error {
    /// A failure of the host runtime is an unknown failure with the host's text
    /// as its description.
    fn from(value: TauriErrorWrapper) -> (error: Error) {
        Error::Unknown(value.0)
    }
}

/// No failure reaches the caller as an empty string, whatever its kind and
/// whatever its description.
pub proof fn lemma_message_not_empty(error: ErrorView)
    ensures
        error.message().len() > 0,
{
    reveal_strlit("input/output error");
    reveal_strlit("plugin invoke error");
    reveal_strlit("unknown error: ");
}

/// A failure that has something to say is not rewritten: the message of an
/// input/output or plugin-channel failure with a description is that
/// description, and the message of an unknown failure is its description
/// after the announcement.
pub proof fn lemma_message_keeps_description(error: ErrorView)
    ensures
        !(error is Unknown) && error.description().len() > 0 ==> error.message()
            == error.description(),
        error is Unknown ==> error.message().take(15) == "unknown error: "@,
        error is Unknown ==> error.message().skip(15) == error.description(),
{
    reveal_strlit("unknown error: ");
    if error is Unknown {
        assert(error.message().take(15) =~= "unknown error: "@);
        assert(error.message().skip(15) =~= error.description());
    }
}

} // verus!
