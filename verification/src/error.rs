//! The failures that the stores and the grid report.

use vstd::prelude::*;
use vstd::string::StringExecFns;

verus! {

/// A document that exists at `location` but could not be read or parsed.
#[derive(Debug, PartialEq, Eq)]
pub struct LoadError {
    pub location: String,
    pub cause: String,
}

/// A document that could not be written to `location`.
#[derive(Debug, PartialEq, Eq)]
pub struct SaveError {
    pub location: String,
    pub cause: String,
}

/// An identifier that names nothing.
#[derive(Debug, PartialEq, Eq)]
pub enum Unresolved {
    /// No device of this id is registered.
    Device(String),
    /// The position lies outside a grid of `length` slots.
    Position { position: u8, length: usize },
}

/// A transition that the state of the target does not allow.
#[derive(Debug, PartialEq, Eq)]
pub enum Invalid {
    /// The instance has no states to step through.
    NoStates,
    /// The slot at this position holds no instance.
    Unbound(u8),
}

/// Every failure that an operation of this crate can report.
#[derive(Debug, PartialEq, Eq)]
pub enum Error {
    /// The document of `device` (and of `profile`, for a profile document) failed to load.
    Load { device: String, profile: Option<String>, error: LoadError },
    /// A document could not be written; the value in memory is kept.
    Save(SaveError),
    /// A device or a position does not exist.
    Resolution(Unresolved),
    /// The requested transition is not available.
    InvalidState(Invalid),
}

pub struct LoadErrorView {
    pub location: Seq<char>,
    pub cause: Seq<char>,
}

pub struct SaveErrorView {
    pub location: Seq<char>,
    pub cause: Seq<char>,
}

pub enum UnresolvedView {
    Device(Seq<char>),
    Position { position: nat, length: nat },
}

pub enum ErrorView {
    Load { device: Seq<char>, profile: Option<Seq<char>>, error: LoadErrorView },
    Save(SaveErrorView),
    Resolution(UnresolvedView),
    InvalidState(Invalid),
}

impl View for LoadError {
    type V = LoadErrorView;

    open spec fn view(&self) -> LoadErrorView {
        LoadErrorView { location: self.location@, cause: self.cause@ }
    }
}

impl View for SaveError {
    type V = SaveErrorView;

    open spec fn view(&self) -> SaveErrorView {
        SaveErrorView { location: self.location@, cause: self.cause@ }
    }
}

impl View for Unresolved {
    type V = UnresolvedView;

    open spec fn view(&self) -> UnresolvedView {
        match self {
            Unresolved::Device(device) => UnresolvedView::Device(device@),
            Unresolved::Position { position, length } => UnresolvedView::Position {
                position: *position as nat,
                length: *length as nat,
            },
        }
    }
}

impl View for Error {
    type V = ErrorView;

    open spec fn view(&self) -> ErrorView {
        match self {
            Error::Load { device, profile, error } => ErrorView::Load {
                device: device@,
                profile: match profile {
                    Some(p) => Some(p@),
                    None => None,
                },
                error: error@,
            },
            Error::Save(error) => ErrorView::Save(error@),
            Error::Resolution(what) => ErrorView::Resolution(what@),
            Error::InvalidState(why) => ErrorView::InvalidState(*why),
        }
    }
}

/// The character of the digit `digit`.
pub open spec fn digit_char(digit: nat) -> char
    recommends
        digit < 10,
{
    if digit == 0 {
        '0'
    } else if digit == 1 {
        '1'
    } else if digit == 2 {
        '2'
    } else if digit == 3 {
        '3'
    } else if digit == 4 {
        '4'
    } else if digit == 5 {
        '5'
    } else if digit == 6 {
        '6'
    } else if digit == 7 {
        '7'
    } else if digit == 8 {
        '8'
    } else {
        '9'
    }
}

/// `number` in decimal, without leading zeros.
pub open spec fn decimal(number: nat) -> Seq<char>
    decreases number,
{
    if number < 10 {
        seq![digit_char(number)]
    } else {
        decimal(number / 10).push(digit_char(number % 10))
    }
}

/// What a failure says of itself.
pub open spec fn described(error: ErrorView) -> Seq<char> {
    match error {
        ErrorView::Load { device, profile, error } => {
            let subject = match profile {
                Some(profile) => "profile "@ + profile + " of device "@ + device,
                None => "device "@ + device,
            };
            "failed to load the document of "@ + subject + " from "@ + error.location + ": "@
                + error.cause
        },
        ErrorView::Save(error) => "failed to save the document at "@ + error.location + ": "@
            + error.cause,
        ErrorView::Resolution(UnresolvedView::Device(device)) => "unknown device "@ + device,
        ErrorView::Resolution(UnresolvedView::Position { position, length }) => "position "@
            + decimal(position) + " is outside a grid of "@ + decimal(length) + " positions"@,
        ErrorView::InvalidState(Invalid::NoStates) => "the action has no states"@,
        ErrorView::InvalidState(Invalid::Unbound(position)) => "nothing is bound at position "@
            + decimal(position as nat),
    }
}

fn digit_text(digit: usize) -> (text: &'static str)
    requires
        digit < 10,
    ensures
        text@ == seq![digit_char(digit as nat)],
{
    proof {
        reveal_strlit("0");
        reveal_strlit("1");
        reveal_strlit("2");
        reveal_strlit("3");
        reveal_strlit("4");
        reveal_strlit("5");
        reveal_strlit("6");
        reveal_strlit("7");
        reveal_strlit("8");
        reveal_strlit("9");
    }
    let text = if digit == 0 {
        "0"
    } else if digit == 1 {
        "1"
    } else if digit == 2 {
        "2"
    } else if digit == 3 {
        "3"
    } else if digit == 4 {
        "4"
    } else if digit == 5 {
        "5"
    } else if digit == 6 {
        "6"
    } else if digit == 7 {
        "7"
    } else if digit == 8 {
        "8"
    } else {
        "9"
    };
    assert(text@ =~= seq![digit_char(digit as nat)]);
    text
}

/// `number` in decimal.
pub fn decimal_text(number: usize) -> (text: String)
    ensures
        text@ == decimal(number as nat),
    decreases number,
{
    if number < 10 {
        digit_text(number).to_owned()
    } else {
        let mut text = decimal_text(number / 10);
        text.append(digit_text(number % 10));
        assert(text@ =~= decimal(number as nat));
        text
    }
}

impl Error {
    /// What this failure says of itself, for whoever shows it to the user.
    pub fn description(&self) -> (text: String)
        ensures
            text@ == described(self@),
    {
        match self {
            Error::Load { device, profile, error } => {
                let mut text = "failed to load the document of ".to_owned();
                match profile {
                    Some(profile) => {
                        text.append("profile ");
                        text.append(profile.as_str());
                        text.append(" of device ");
                        text.append(device.as_str());
                    },
                    None => {
                        text.append("device ");
                        text.append(device.as_str());
                    },
                }
                text.append(" from ");
                text.append(error.location.as_str());
                text.append(": ");
                text.append(error.cause.as_str());
                assert(text@ =~= described(self@));
                text
            },
            Error::Save(error) => {
                let mut text = "failed to save the document at ".to_owned();
                text.append(error.location.as_str());
                text.append(": ");
                text.append(error.cause.as_str());
                text
            },
            Error::Resolution(Unresolved::Device(device)) => {
                let mut text = "unknown device ".to_owned();
                text.append(device.as_str());
                text
            },
            Error::Resolution(Unresolved::Position { position, length }) => {
                let mut text = "position ".to_owned();
                let place = decimal_text(*position as usize);
                text.append(place.as_str());
                text.append(" is outside a grid of ");
                let size = decimal_text(*length);
                text.append(size.as_str());
                text.append(" positions");
                text
            },
            Error::InvalidState(Invalid::NoStates) => "the action has no states".to_owned(),
            Error::InvalidState(Invalid::Unbound(position)) => {
                let mut text = "nothing is bound at position ".to_owned();
                let place = decimal_text(*position as usize);
                text.append(place.as_str());
                text
            },
        }
    }
}

} // verus!
