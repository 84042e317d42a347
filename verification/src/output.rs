//! Where an alert goes, and what is to be done with it.

use crate::text::same_text;
use vstd::prelude::*;
use vstd::string::*;

verus! {

/// The channel an alert is sent to.
#[derive(Clone, Copy, Debug, PartialEq, Eq, Structural)]
pub enum Output {
    Mail,
    Stdout,
}

/// What the caller is to do at the end of a run.
#[derive(Debug, PartialEq, Eq)]
pub enum Dispatch {
    /// Nothing escalated: there is nothing to send.
    Nothing,
    /// Write the message to standard output as it is.
    Print { message: String },
    /// Hand the message to the mail transport for the recipient.
    Mail { recipient: String, message: String },
}

impl Output {
    /// The channel that `name` selects, if it selects one.
    pub open spec fn named(name: Seq<char>) -> Option<Output> {
        if name == "mail"@ {
            Some(Output::Mail)
        } else if name == "stdout"@ {
            Some(Output::Stdout)
        } else {
            None
        }
    }

    /// What is to be done with `message` on this channel when the run alerts,
    /// and that nothing is to be done when it does not.
    pub open spec fn dispatched(
        self,
        alert: bool,
        recipient: Seq<char>,
        message: Seq<char>,
        dispatch: Dispatch,
    ) -> bool {
        if !alert {
            dispatch == Dispatch::Nothing
        } else {
            match self {
                Output::Stdout => dispatch matches Dispatch::Print { message: m } && m@ == message,
                Output::Mail => dispatch matches Dispatch::Mail { recipient: r, message: m } && r@
                    == recipient && m@ == message,
            }
        }
    }

    /// Reads the name of a channel. Exactly `mail` and `stdout` are accepted;
    /// every other text is an error that says so.
    pub fn parse(name: &str) -> (output: Result<Output, &'static str>)
        ensures
            match Output::named(name@) {
                Some(channel) => output == Ok::<Output, &'static str>(channel),
                None => output matches Err(reason) && reason@
                    == "valid outputs are `mail` and `stdout`"@,
            },
    {
        if same_text(name, "mail") {
            Ok(Output::Mail)
        } else if same_text(name, "stdout") {
            Ok(Output::Stdout)
        } else {
            Err("valid outputs are `mail` and `stdout`")
        }
    }

    /// Decides what is to be done with the message of a run on this channel.
    pub fn dispatch(self, alert: bool, recipient: &str, message: String) -> (dispatch: Dispatch)
        ensures
            self.dispatched(alert, recipient@, message@, dispatch),
    {
        if !alert {
            Dispatch::Nothing
        } else {
            match self {
                Output::Stdout => Dispatch::Print { message },
                Output::Mail => Dispatch::Mail { recipient: recipient.to_owned(), message },
            }
        }
    }
}

impl std::str::FromStr for Output {
    type Err = &'static str;

    /// As [`Output::parse`].
    fn from_str(s: &str) -> (output: Result<Output, &'static str>)
        ensures
            match Output::named(s@) {
                Some(channel) => output == Ok::<Output, &'static str>(channel),
                None => output matches Err(reason) && reason@
                    == "valid outputs are `mail` and `stdout`"@,
            },
    {
        Output::parse(s)
    }
}

/// The two channel names are different, so each selects its own channel.
pub proof fn lemma_channel_names()
    ensures
        Output::named("mail"@) == Some(Output::Mail),
        Output::named("stdout"@) == Some(Output::Stdout),
{
    reveal_strlit("mail");
    reveal_strlit("stdout");
    assert("mail"@.len() != "stdout"@.len());
}

} // verus!
