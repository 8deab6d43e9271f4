//! The reply a price lookup is shown in.

use vstd::prelude::*;
use vstd::string::StringExecFns;

use crate::lookup::{PriceColour, Resultstruct};
use crate::numeral::{fixed4_string, fixed4_text, fixed4_units, to_fixed4_units};

verus! {

/// A message embed: what the chat platform draws for a reply.
pub struct EmbedPayload {
    pub author: Option<String>,
    pub title: String,
    pub description: Option<String>,
    pub colour: PriceColour,
    pub url: Option<String>,
    pub footer: Option<String>,
}

pub open spec fn price_title(res: Resultstruct) -> Seq<char> {
    "$"@ + res.price@ + "    *( "@ + res.change@ + ")*"@
}

pub open spec fn price_footer() -> Seq<char> {
    "All rights reserved to Dexscreener.com"@
}

/// The reply of the price command: the token as author, price and change in
/// the title.
pub fn price_embed(res: &Resultstruct) -> (r: EmbedPayload)
    ensures
        r.author matches Some(a) && a@ == res.name@,
        r.title@ == price_title(*res),
        r.description is None,
        r.colour == res.colour,
        r.url is None,
        r.footer matches Some(f) && f@ == price_footer(),
{
    let mut title = String::from_str("$");
    title.append(res.price.as_str());
    title.append("    *( ");
    title.append(res.change.as_str());
    title.append(")*");
    EmbedPayload {
        author: Some(res.name.clone()),
        title,
        description: None,
        colour: res.colour,
        url: None,
        footer: Some(String::from_str("All rights reserved to Dexscreener.com")),
    }
}

pub open spec fn coin_description(res: Resultstruct) -> Seq<char> {
    "Price : $"@ + fixed4_text(fixed4_units(res.usd)) + "\nVolume : $"@ + res.volume@
        + "\nChange : "@ + res.change@
}

/// The reply of the coin command: the token as title, price to four
/// decimals, volume and change below, and a link to the pair.
pub fn coin_embed(res: &Resultstruct) -> (r: EmbedPayload)
    requires
        res.usd.wf(),
    ensures
        r.author is None,
        r.title@ == res.name@,
        r.description matches Some(d) && d@ == coin_description(*res),
        r.colour == res.colour,
        r.url matches Some(u) && u@ == res.urlresult@,
        r.footer is None,
{
    let price = fixed4_string(to_fixed4_units(res.usd));
    let mut description = String::from_str("Price : $");
    description.append(price.as_str());
    description.append("\nVolume : $");
    description.append(res.volume.as_str());
    description.append("\nChange : ");
    description.append(res.change.as_str());
    EmbedPayload {
        author: None,
        title: res.name.clone(),
        description: Some(description),
        colour: res.colour,
        url: Some(res.urlresult.clone()),
        footer: None,
    }
}

pub open spec fn help_text_of(with_settings: bool) -> Seq<char> {
    if with_settings {
        "You can fetch the latest prices from dexscreener using `/price`\nSome tokens are autocompleted. If this is not available, the bot will offer the option to search by smart contract address.\nYour admin is capable to set more tokens to be autocompleted for your guild."@
    } else {
        "You can fetch the latest prices from dexscreener using `/price`\nSome tokens are autocompleted. If this is not available, the bot will offer the option to search by smart contract address."@
    }
}

/// The text of the help command; it mentions tracked tokens only where the
/// bot keeps them.
pub fn help_text(with_settings: bool) -> (r: String)
    ensures
        r@ == help_text_of(with_settings),
{
    if with_settings {
        String::from_str(
            "You can fetch the latest prices from dexscreener using `/price`\nSome tokens are autocompleted. If this is not available, the bot will offer the option to search by smart contract address.\nYour admin is capable to set more tokens to be autocompleted for your guild.",
        )
    } else {
        String::from_str(
            "You can fetch the latest prices from dexscreener using `/price`\nSome tokens are autocompleted. If this is not available, the bot will offer the option to search by smart contract address.",
        )
    }
}

} // verus!
