//! Tokens that guilds add to the price command's autocompletion.

use vstd::prelude::*;
use vstd::string::StringExecFns;

use crate::error::BotError;
use crate::numeral::{digits_text, push_digits};
use crate::pair::BaseToken;
use crate::text::texts;

verus! {

/// A token tracked for the price command, stored under its symbol.
pub struct TrackedToken {
    /// The token's symbol, which users type.
    pub name: String,
    pub address: String,
    /// The guild that added it.
    pub guildid: u64,
    /// Whether every guild sees it.
    pub global: bool,
}

pub open spec fn global_button_prefix() -> Seq<char> {
    "globalbutton-"@
}

/// The identifier of the button that adds a token for every guild.
pub fn global_button_id(invocation: u64) -> (r: String)
    ensures
        r@ == global_button_prefix() + digits_text(invocation as nat),
{
    let mut id = String::from_str("globalbutton-");
    push_digits(&mut id, invocation as u128);
    id
}

/// The record stored when a user confirms a token: for every guild when the
/// global button was pressed, which only guilds allowed to may do.
pub fn addtoken(token: &BaseToken, guildid: u64, globaltokenpermission: bool, global: bool) -> (r:
    Result<TrackedToken, BotError>)
    ensures
        global && !globaltokenpermission ==> r == Err::<TrackedToken, BotError>(
            BotError::PermissionDenied,
        ),
        !(global && !globaltokenpermission) ==> (r matches Ok(t) && t.name@ == token.symbol@
            && t.address@ == token.address@ && t.guildid == guildid && t.global == global),
{
    if global && !globaltokenpermission {
        return Err(BotError::PermissionDenied);
    }
    Ok(
        TrackedToken {
            name: token.symbol.clone(),
            address: token.address.clone(),
            guildid,
            global,
        },
    )
}

pub open spec fn global_denied_text() -> Seq<char> {
    "This guild does not have the permission to set coins globally"@
}

/// What a guild without the right to add tokens for everyone is told.
pub fn global_denied_notice() -> (r: String)
    ensures
        r@ == global_denied_text(),
{
    String::from_str("This guild does not have the permission to set coins globally")
}

/// The names of tracked tokens, in their order, for autocompletion.
pub fn tracked_names(tokens: &Vec<TrackedToken>) -> (r: Vec<String>)
    ensures
        texts(r@) == tokens@.map_values(|t: TrackedToken| t.name@),
{
    let mut out: Vec<String> = Vec::new();
    let mut i: usize = 0;
    while i < tokens.len()
        invariant
            i <= tokens@.len(),
            texts(out@) == tokens@.subrange(0, i as int).map_values(|t: TrackedToken| t.name@),
        decreases tokens@.len() - i,
    {
        let ghost before = out@;
        out.push(tokens[i].name.clone());
        proof {
            assert(texts(out@) =~= texts(before).push(tokens@[i as int].name@));
            assert(tokens@.subrange(0, i + 1).map_values(|t: TrackedToken| t.name@)
                =~= tokens@.subrange(0, i as int).map_values(|t: TrackedToken| t.name@).push(
                tokens@[i as int].name@,
            ));
        }
        i += 1;
    }
    assert(tokens@.subrange(0, tokens@.len() as int) =~= tokens@);
    out
}

pub open spec fn not_listed_text(coin: Seq<char>) -> Seq<char> {
    coin + " is not available on Dexscreener"@
}

/// What a user is told when no pair is listed for the coin they asked for.
pub fn not_listed_message(coin: &str) -> (r: String)
    ensures
        r@ == not_listed_text(coin@),
{
    let mut m = String::from_str(coin);
    m.append(" is not available on Dexscreener");
    m
}

} // verus!
