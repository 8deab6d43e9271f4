//! The ways a command can fail, each answered to the user in plain text.

use vstd::prelude::*;
use vstd::string::StringExecFns;

verus! {

#[derive(Clone, Copy, Debug, PartialEq, Eq, Structural)]
pub enum BotError {
    /// The price API could not be reached at all.
    ApiUnreachable,
    /// The price API answered with an error status.
    PairNotFound,
    /// The price API's answer did not have the expected shape.
    MalformedResponse,
    /// The price API listed no pair.
    NoPairsAvailable,
    /// The chosen pair lacks a figure that the reply needs.
    IncompleteData,
    /// The user may not do this.
    PermissionDenied,
    /// A menu was not answered in time.
    InteractionTimeout,
    /// A guild setting was asked for outside a guild.
    NotInGuild,
}

pub open spec fn error_text(e: BotError) -> Seq<char> {
    match e {
        BotError::ApiUnreachable => "The dexscreener api can not be reached"@,
        BotError::PairNotFound =>
            "This pair can not be retrieved from dexscreener, make sure you write it down correctly"@,
        BotError::MalformedResponse => "Something went wrong with parsing the data"@,
        BotError::NoPairsAvailable => "This token is not available on dexscreener"@,
        BotError::IncompleteData => "Dexscreener has no price data to show for this pair"@,
        BotError::PermissionDenied =>
            "Sorry, you are not allowed to use this command.\nOnly administrators and bot owners are."@,
        BotError::InteractionTimeout => "Timed out"@,
        BotError::NotInGuild => "It looks you are not in a server"@,
    }
}

impl BotError {
    /// The text the user is shown.
    pub fn message(&self) -> (r: String)
        ensures
            r@ == error_text(*self),
    {
        match self {
            BotError::ApiUnreachable => String::from_str("The dexscreener api can not be reached"),
            BotError::PairNotFound => String::from_str(
                "This pair can not be retrieved from dexscreener, make sure you write it down correctly",
            ),
            BotError::MalformedResponse => String::from_str(
                "Something went wrong with parsing the data",
            ),
            BotError::NoPairsAvailable => String::from_str(
                "This token is not available on dexscreener",
            ),
            BotError::IncompleteData => String::from_str(
                "Dexscreener has no price data to show for this pair",
            ),
            BotError::PermissionDenied => String::from_str(
                "Sorry, you are not allowed to use this command.\nOnly administrators and bot owners are.",
            ),
            BotError::InteractionTimeout => String::from_str("Timed out"),
            BotError::NotInGuild => String::from_str("It looks you are not in a server"),
        }
    }
}

} // verus!
