//! Where each lookup fetches from: the price API's endpoints, the fixed coin
//! choices and the built-in table of token addresses.

use vstd::prelude::*;
use vstd::string::{StrSliceExecFns, StringExecFns};

use crate::text::same_text;

verus! {

/// How a lookup finds its pairs.
pub enum Lookup {
    /// Every pair that trades the token at this address.
    Token(String),
    /// Pairs that match a free-text query.
    Search(String),
    /// One pair, by chain and pair address.
    PairAt { chain: String, address: String },
}

pub open spec fn lookup_url_of(l: Lookup) -> Seq<char> {
    match l {
        Lookup::Token(a) => "https://api.dexscreener.com/latest/dex/tokens/"@ + a@,
        Lookup::Search(q) => "https://api.dexscreener.com/latest/dex/search?q="@ + q@,
        Lookup::PairAt { chain, address } => "https://api.dexscreener.com/latest/dex/pairs/"@
            + chain@ + "/"@ + address@,
    }
}

/// The address the lookup fetches.
pub fn lookup_url(l: &Lookup) -> (r: String)
    ensures
        r@ == lookup_url_of(*l),
{
    match l {
        Lookup::Token(a) => {
            let mut u = String::from_str("https://api.dexscreener.com/latest/dex/tokens/");
            u.append(a.as_str());
            u
        },
        Lookup::Search(q) => {
            let mut u = String::from_str("https://api.dexscreener.com/latest/dex/search?q=");
            u.append(q.as_str());
            u
        },
        Lookup::PairAt { chain, address } => {
            let mut u = String::from_str("https://api.dexscreener.com/latest/dex/pairs/");
            u.append(chain.as_str());
            u.append("/");
            u.append(address.as_str());
            u
        },
    }
}

/// The address of the endpoint that lists the pairs of a token.
pub fn token_url(address: &str) -> (r: String)
    ensures
        r@ == "https://api.dexscreener.com/latest/dex/tokens/"@ + address@,
{
    let mut u = String::from_str("https://api.dexscreener.com/latest/dex/tokens/");
    u.append(address);
    u
}

/// The length of a token address as users enter it: `0x` and 40 hex digits.
pub const ADDRESS_LEN: usize = 42;

/// Whether `s` has the length of a token address.
pub fn has_address_length(s: &str) -> (r: bool)
    ensures
        r == (s@.len() == ADDRESS_LEN),
{
    s.unicode_len() == ADDRESS_LEN
}

/// Which token of a pair is shown.
#[derive(Clone, Copy, Debug, PartialEq, Eq, Structural)]
pub enum PairSide {
    /// The base token, with its price and change.
    Base,
    /// The quote token, priced through the base token.
    Quote,
}

/// The coins offered as fixed choices.
#[allow(non_camel_case_types)]
#[derive(Clone, Copy, Debug, PartialEq, Eq, Structural)]
pub enum Coin {
    Openx,
    XopenX,
    OP,
    Eth,
}

pub open spec fn coin_pair_address(c: Coin) -> Seq<char> {
    match c {
        Coin::Openx => "0x442659a6d04b907c879032da1ef634548110dd37"@,
        Coin::XopenX => "0x7ed0ac1dced6da79369ba36c5f48679f2d4daa90"@,
        Coin::OP => "0x47029bc8f5cbe3b464004e87ef9c9419a48018cd"@,
        Coin::Eth => "0x85149247691df622eaf1a8bd0cafd40bc45154a9"@,
    }
}

impl Coin {
    /// The pair on Optimism that the coin is priced by.
    pub fn lookup(&self) -> (r: Lookup)
        ensures
            r matches Lookup::PairAt { chain, address } && chain@ == "optimism"@ && address@
                == coin_pair_address(*self),
    {
        let address = match self {
            Coin::Openx => String::from_str("0x442659a6d04b907c879032da1ef634548110dd37"),
            Coin::XopenX => String::from_str("0x7ed0ac1dced6da79369ba36c5f48679f2d4daa90"),
            Coin::OP => String::from_str("0x47029bc8f5cbe3b464004e87ef9c9419a48018cd"),
            Coin::Eth => String::from_str("0x85149247691df622eaf1a8bd0cafd40bc45154a9"),
        };
        Lookup::PairAt { chain: String::from_str("optimism"), address }
    }

    /// OPENX is listed only as the quote token of its pair.
    pub fn side(&self) -> (r: PairSide)
        ensures
            r == (if *self == Coin::Openx {
                PairSide::Quote
            } else {
                PairSide::Base
            }),
    {
        match self {
            Coin::Openx => PairSide::Quote,
            _ => PairSide::Base,
        }
    }
}

/// The symbols the bot knows without being told, and their token addresses.
pub open spec fn listed_address(symbol: Seq<char>) -> Option<Seq<char>> {
    if symbol == "BTC"@ {
        Some("0xC0BC84e95864BdfDCd1CCFB8A3AA522E79Ca1410"@)
    } else if symbol == "OPENX"@ {
        Some("0xc3864f98f2a61A7cAeb95b039D031b4E2f55e0e9"@)
    } else if symbol == "OP"@ {
        Some("0x4200000000000000000000000000000000000042"@)
    } else if symbol == "ETH"@ {
        Some("0xC02aaA39b223FE8D0A0e5C4F27eAD9083C756Cc2"@)
    } else {
        None
    }
}

/// The symbols offered for autocompletion when no tracked tokens are kept.
pub fn listed_symbols() -> (r: Vec<String>)
    ensures
        r@.len() == 4,
        r@[0]@ == "BTC"@,
        r@[1]@ == "ETH"@,
        r@[2]@ == "OPENX"@,
        r@[3]@ == "OP"@,
{
    let mut v: Vec<String> = Vec::new();
    v.push(String::from_str("BTC"));
    v.push(String::from_str("ETH"));
    v.push(String::from_str("OPENX"));
    v.push(String::from_str("OP"));
    v
}

/// The address listed for a symbol, written as listed (upper case).
pub fn listed_coin_address(symbol: &str) -> (r: Option<String>)
    ensures
        match r {
            Some(a) => listed_address(symbol@) == Some(a@),
            None => listed_address(symbol@) is None,
        },
{
    if same_text(symbol, "BTC") {
        Some(String::from_str("0xC0BC84e95864BdfDCd1CCFB8A3AA522E79Ca1410"))
    } else if same_text(symbol, "OPENX") {
        Some(String::from_str("0xc3864f98f2a61A7cAeb95b039D031b4E2f55e0e9"))
    } else if same_text(symbol, "OP") {
        Some(String::from_str("0x4200000000000000000000000000000000000042"))
    } else if same_text(symbol, "ETH") {
        Some(String::from_str("0xC02aaA39b223FE8D0A0e5C4F27eAD9083C756Cc2"))
    } else {
        None
    }
}

/// What `str::to_uppercase` makes of a text.
pub uninterp spec fn upper_of(s: Seq<char>) -> Seq<char>;

/// Relies on `str::to_uppercase`: the result depends on the characters alone.
#[verifier::external_body]
fn uppercase(s: &str) -> (r: String)
    ensures
        r@ == upper_of(s@),
{
    s.to_uppercase()
}

/// The address listed for a coin as a user typed it, in any case.
pub fn hardcoded_address(coin: &str) -> (r: Option<String>)
    ensures
        match r {
            Some(a) => listed_address(upper_of(coin@)) == Some(a@),
            None => listed_address(upper_of(coin@)) is None,
        },
{
    let upper = uppercase(coin);
    listed_coin_address(upper.as_str())
}

} // verus!
