//! The calls, the menus and the ways in which a run can fail.

use crate::text::{decimal, decimal_string, lemma_decimal_one_line, one_line};
use vstd::prelude::*;
use vstd::string::*;

verus! {

/// One of the four requests that the client makes.
#[derive(Clone, Copy, Debug, PartialEq, Eq, Structural)]
pub enum Call {
    Customers,
    Projects,
    Services,
    CreateEntry,
}

impl Call {
    /// The path of the call below the service's host.
    pub open spec fn path_spec(self) -> Seq<char> {
        match self {
            Call::Customers => "/customers.json"@,
            Call::Projects => "/projects.json"@,
            Call::Services => "/services.json"@,
            Call::CreateEntry => "/time_entries.json"@,
        }
    }

    /// The path of the call below the service's host.
    pub fn path(self) -> (path: &'static str)
        ensures
            path@ == self.path_spec(),
    {
        match self {
            Call::Customers => "/customers.json",
            Call::Projects => "/projects.json",
            Call::Services => "/services.json",
            Call::CreateEntry => "/time_entries.json",
        }
    }
}

/// One of the three lists that the user chooses from.
#[derive(Clone, Copy, Debug, PartialEq, Eq, Structural)]
pub enum Menu {
    Customers,
    Projects,
    Services,
}

impl Menu {
    /// What the menu's records are called, in the plural.
    pub open spec fn noun_spec(self) -> Seq<char> {
        match self {
            Menu::Customers => "customers"@,
            Menu::Projects => "projects"@,
            Menu::Services => "services"@,
        }
    }

    /// What the menu's records are called, in the plural.
    pub fn noun(self) -> (noun: &'static str)
        ensures
            noun@ == self.noun_spec(),
    {
        match self {
            Menu::Customers => "customers",
            Menu::Projects => "projects",
            Menu::Services => "services",
        }
    }
}

/// Why a run of the client stopped short of a confirmed entry.
#[derive(Clone, Copy, Debug, PartialEq, Eq, Structural)]
pub enum Failure {
    /// The credential is missing or cannot be sent as a header.
    Startup,
    /// The network failed on the given call.
    Transport(Call),
    /// The body answered to the given call does not have the expected shape.
    Decode(Call),
    /// The given menu has nothing to choose from.
    EmptySelection(Menu),
    /// The service answered the submission with the given status, not with
    /// 201.
    SubmissionRejected(u16),
    /// An index was chosen that the given menu did not offer.
    InvalidChoice(Menu),
    /// An event arrived that the current step did not ask for.
    OutOfTurn,
}

/// The line that reports a submission refused with `status`.
pub open spec fn rejection_of(status: u16) -> Seq<char> {
    "Something happened trying to create an entry: "@ + decimal(status as nat)
}

/// The line that reports a submission refused with `status`: a fixed
/// phrase, then the status as a decimal numeral.
pub fn rejection_line(status: u16) -> (line: String)
    ensures
        line@ == rejection_of(status),
{
    let mut line = String::from_str("Something happened trying to create an entry: ");
    let numeral = decimal_string(status as u64);
    line.append(numeral.as_str());
    line
}

/// The report of a refused submission is a single line, and it ends with
/// the status as a decimal numeral.
pub proof fn lemma_rejection_one_line(status: u16)
    ensures
        one_line(rejection_of(status)),
        rejection_of(status).len() >= decimal(status as nat).len(),
        rejection_of(status).subrange(
            rejection_of(status).len() - decimal(status as nat).len(),
            rejection_of(status).len() as int,
        ) == decimal(status as nat),
{
    reveal_strlit("Something happened trying to create an entry: ");
    lemma_decimal_one_line(status as nat);
    let phrase = "Something happened trying to create an entry: "@;
    let numeral = decimal(status as nat);
    assert(one_line(phrase));
    assert(rejection_of(status).subrange(phrase.len() as int, (phrase + numeral).len() as int)
        =~= numeral);
}

impl Failure {
    /// Whether the run ends normally after this error was reported: true of
    /// a refused submission alone.
    pub open spec fn is_graceful_spec(self) -> bool {
        self is SubmissionRejected
    }

    /// Whether the run ends normally after this error was reported: true of
    /// a refused submission alone.
    pub fn is_graceful(self) -> (graceful: bool)
        ensures
            graceful == self.is_graceful_spec(),
    {
        match self {
            Failure::SubmissionRejected(_) => true,
            _ => false,
        }
    }

    /// The one-line report of the error.
    pub open spec fn message_spec(self) -> Seq<char> {
        match self {
            Failure::Startup => "the API key is missing or cannot be sent as a header"@,
            Failure::Transport(call) => "the request to "@ + call.path_spec() + " failed"@,
            Failure::Decode(call) => "the answer of "@ + call.path_spec()
                + " does not have the expected shape"@,
            Failure::EmptySelection(menu) => "there are no "@ + menu.noun_spec()
                + " to choose from"@,
            Failure::SubmissionRejected(status) => rejection_of(status),
            Failure::InvalidChoice(menu) => "the choice is not among the offered "@
                + menu.noun_spec(),
            Failure::OutOfTurn => "an event arrived out of turn"@,
        }
    }

    /// The one-line report of the error.
    pub fn message(self) -> (message: String)
        ensures
            message@ == self.message_spec(),
    {
        match self {
            Failure::Startup => String::from_str(
                "the API key is missing or cannot be sent as a header",
            ),
            Failure::Transport(call) => {
                let mut message = String::from_str("the request to ");
                message.append(call.path());
                message.append(" failed");
                message
            },
            Failure::Decode(call) => {
                let mut message = String::from_str("the answer of ");
                message.append(call.path());
                message.append(" does not have the expected shape");
                message
            },
            Failure::EmptySelection(menu) => {
                let mut message = String::from_str("there are no ");
                message.append(menu.noun());
                message.append(" to choose from");
                message
            },
            Failure::SubmissionRejected(status) => rejection_line(status),
            Failure::InvalidChoice(menu) => {
                let mut message = String::from_str("the choice is not among the offered ");
                message.append(menu.noun());
                message
            },
            Failure::OutOfTurn => String::from_str("an event arrived out of turn"),
        }
    }
}

} // verus!
