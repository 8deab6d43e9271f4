//! From the pair chosen to the figures shown: price, change, volume, colour.

use vstd::prelude::*;
use vstd::string::StringExecFns;

use crate::error::BotError;
use crate::numeral::{
    decimal_of, divide, lemma_sign_of_value, fixed4_string, fixed4_text, fixed4_units, numeral_sign, parse_decimal,
    quotient_of, sign_of, to_fixed4_units, Decimal, Sign,
};
use crate::pair::{is_volume_choice, select_by_volume, select_first, volume_text, Pair, Root};

verus! {

/// The colour a reply is drawn in.
#[derive(Clone, Copy, Debug, PartialEq, Eq, Structural)]
pub enum PriceColour {
    /// The price went up.
    Positive,
    /// The price went down.
    Negative,
    /// The price stayed, or its change is not known.
    Neutral,
}

pub open spec fn colour_rgb(c: PriceColour) -> u32 {
    match c {
        PriceColour::Positive => 0x1F8B4C,
        PriceColour::Negative => 0xE74C3C,
        PriceColour::Neutral => 0xF1C40F,
    }
}

impl PriceColour {
    /// The colour as `0xRRGGBB`: dark green, red or gold.
    pub fn rgb(&self) -> (r: u32)
        ensures
            r == colour_rgb(*self),
    {
        match self {
            PriceColour::Positive => 0x1F8B4C,
            PriceColour::Negative => 0xE74C3C,
            PriceColour::Neutral => 0xF1C40F,
        }
    }
}

pub open spec fn colour_for(s: Sign) -> PriceColour {
    match s {
        Sign::Positive => PriceColour::Positive,
        Sign::Negative => PriceColour::Negative,
        Sign::Zero => PriceColour::Neutral,
    }
}

/// A change above zero is drawn in the positive colour, one below zero in the
/// negative colour, and no change in the neutral one.
pub proof fn lemma_colour_follows_change(s: Seq<char>, d: Decimal)
    requires
        decimal_of(s) == Some(d),
    ensures
        colour_for(sign_of(s)) == (if d.mantissa > 0 {
            PriceColour::Positive
        } else {
            PriceColour::Neutral
        }),
        colour_for(sign_of(seq!['-'] + s)) == (if d.mantissa > 0 {
            PriceColour::Negative
        } else {
            PriceColour::Neutral
        }),
{
    lemma_sign_of_value(s, d);
}

/// The colour for a change in price.
pub fn colour_of_change(change: &str) -> (r: PriceColour)
    ensures
        r == colour_for(sign_of(change@)),
{
    match numeral_sign(change) {
        Sign::Positive => PriceColour::Positive,
        Sign::Negative => PriceColour::Negative,
        Sign::Zero => PriceColour::Neutral,
    }
}

/// What a price lookup found, ready to be shown.
pub struct Resultstruct {
    /// The token's name.
    pub name: String,
    /// Its price in US dollars.
    pub usd: Decimal,
    /// That price as it is shown in a title.
    pub price: String,
    /// The 24-hour change with its `%`, or a note that there is none.
    pub change: String,
    /// The 24-hour volume.
    pub volume: String,
    pub colour: PriceColour,
    /// The pair's page.
    pub urlresult: String,
}

/// The note shown where no change can be given.
pub open spec fn no_change_text() -> Seq<char> {
    "no data available"@
}

/// The 24-hour change numeral of a pair, if it has one.
pub open spec fn change_text(p: Pair) -> Option<Seq<char>> {
    match p.price_change {
        Some(c) => match c.h24 {
            Some(t) => Some(t@),
            None => None,
        },
        None => None,
    }
}

/// The 24-hour volume as shown: a missing figure counts as zero.
pub open spec fn volume_shown(p: Pair) -> Seq<char> {
    match volume_text(p) {
        Some(t) => t,
        None => "0"@,
    }
}

/// The price in US dollars of the base token of `p`.
pub open spec fn standard_price(p: Pair) -> Result<Decimal, BotError> {
    match p.price_usd {
        Some(u) => match change_text(p) {
            Some(_) => match decimal_of(u@) {
                Some(d) => Ok(d),
                None => Err(BotError::MalformedResponse),
            },
            None => Err(BotError::IncompleteData),
        },
        None => Err(BotError::IncompleteData),
    }
}

/// The price in US dollars of the quote token of `p`: the base token's price
/// divided by the price of the base in quote tokens.
pub open spec fn inverse_price(p: Pair) -> Result<Decimal, BotError> {
    match p.price_usd {
        Some(u) => match p.price_native {
            Some(n) => match decimal_of(u@) {
                Some(ud) => match decimal_of(n@) {
                    Some(nd) => match quotient_of(ud, nd) {
                        Some(q) => Ok(q),
                        None => Err(BotError::IncompleteData),
                    },
                    None => Err(BotError::MalformedResponse),
                },
                None => Err(BotError::MalformedResponse),
            },
            None => Err(BotError::IncompleteData),
        },
        None => Err(BotError::IncompleteData),
    }
}

fn volume_string(p: &Pair) -> (r: String)
    ensures
        r@ == volume_shown(*p),
{
    match &p.volume {
        Some(v) => match &v.h24 {
            Some(t) => t.clone(),
            None => String::from_str("0"),
        },
        None => String::from_str("0"),
    }
}

/// The figures of a pair for its base token.
pub fn normalize_standard(p: &Pair) -> (r: Result<Resultstruct, BotError>)
    ensures
        match r {
            Ok(res) => {
                &&& standard_price(*p) == Ok::<Decimal, BotError>(res.usd)
                &&& res.name@ == p.base_token.name@
                &&& res.price@ == p.price_usd.unwrap()@
                &&& res.change@ == change_text(*p).unwrap() + "%"@
                &&& res.colour == colour_for(sign_of(change_text(*p).unwrap()))
                &&& res.volume@ == volume_shown(*p)
                &&& res.urlresult@ == p.url@
                &&& res.usd.wf()
            },
            Err(e) => standard_price(*p) == Err::<Decimal, BotError>(e),
        },
{
    let price_text = match &p.price_usd {
        Some(t) => t,
        None => return Err(BotError::IncompleteData),
    };
    let figure = match &p.price_change {
        Some(c) => match &c.h24 {
            Some(t) => t.clone(),
            None => return Err(BotError::IncompleteData),
        },
        None => return Err(BotError::IncompleteData),
    };
    let usd = match parse_decimal(price_text.as_str()) {
        Some(d) => d,
        None => return Err(BotError::MalformedResponse),
    };
    let colour = colour_of_change(figure.as_str());
    let mut shown = figure;
    shown.append("%");
    Ok(
        Resultstruct {
            name: p.base_token.name.clone(),
            usd,
            price: price_text.clone(),
            change: shown,
            volume: volume_string(p),
            colour,
            urlresult: p.url.clone(),
        },
    )
}

/// The figures of a pair for its quote token, for tokens that the API lists
/// only on the quote side. No change can be given for them.
pub fn normalize_inverse(p: &Pair) -> (r: Result<Resultstruct, BotError>)
    ensures
        match r {
            Ok(res) => {
                &&& inverse_price(*p) == Ok::<Decimal, BotError>(res.usd)
                &&& res.name@ == p.quote_token.name@
                &&& res.price@ == fixed4_text(fixed4_units(res.usd))
                &&& res.change@ == no_change_text()
                &&& res.colour == PriceColour::Neutral
                &&& res.volume@ == volume_shown(*p)
                &&& res.urlresult@ == p.url@
                &&& res.usd.wf()
            },
            Err(e) => inverse_price(*p) == Err::<Decimal, BotError>(e),
        },
{
    let usd_text = match &p.price_usd {
        Some(t) => t,
        None => return Err(BotError::IncompleteData),
    };
    let native_text = match &p.price_native {
        Some(t) => t,
        None => return Err(BotError::IncompleteData),
    };
    let usd = match parse_decimal(usd_text.as_str()) {
        Some(d) => d,
        None => return Err(BotError::MalformedResponse),
    };
    let native = match parse_decimal(native_text.as_str()) {
        Some(d) => d,
        None => return Err(BotError::MalformedResponse),
    };
    let quote_usd = match divide(usd, native) {
        Some(q) => q,
        None => return Err(BotError::IncompleteData),
    };
    Ok(
        Resultstruct {
            name: p.quote_token.name.clone(),
            usd: quote_usd,
            price: fixed4_string(to_fixed4_units(quote_usd)),
            change: String::from_str("no data available"),
            volume: volume_string(p),
            colour: PriceColour::Neutral,
            urlresult: p.url.clone(),
        },
    )
}

/// The figures of the single pair of a fixed pair endpoint.
pub fn vectorinfo(root: &Root) -> (r: Result<Resultstruct, BotError>)
    ensures
        root.pairs@.len() == 0 ==> r == Err::<Resultstruct, BotError>(BotError::NoPairsAvailable),
        root.pairs@.len() > 0 ==> match r {
            Ok(res) => standard_price(root.pairs@[0]) == Ok::<Decimal, BotError>(res.usd)
                && res.name@ == root.pairs@[0].base_token.name@
                && res.price@ == root.pairs@[0].price_usd.unwrap()@
                && res.change@ == change_text(root.pairs@[0]).unwrap() + "%"@
                && res.colour == colour_for(
                sign_of(change_text(root.pairs@[0]).unwrap()),
            ) && res.volume@ == volume_shown(root.pairs@[0]) && res.urlresult@
                == root.pairs@[0].url@ && res.usd.wf(),
            Err(e) => standard_price(root.pairs@[0]) == Err::<Decimal, BotError>(e),
        },
{
    let i = select_first(&root.pairs)?;
    normalize_standard(&root.pairs[i])
}

/// The figures of the single pair of a fixed pair endpoint, for its quote token.
pub fn vectorinfoinverse(root: &Root) -> (r: Result<Resultstruct, BotError>)
    ensures
        root.pairs@.len() == 0 ==> r == Err::<Resultstruct, BotError>(BotError::NoPairsAvailable),
        root.pairs@.len() > 0 ==> match r {
            Ok(res) => inverse_price(root.pairs@[0]) == Ok::<Decimal, BotError>(res.usd)
                && res.name@ == root.pairs@[0].quote_token.name@
                && res.price@ == fixed4_text(fixed4_units(res.usd)) && res.change@
                == no_change_text() && res.colour == PriceColour::Neutral && res.volume@
                == volume_shown(root.pairs@[0]) && res.urlresult@ == root.pairs@[0].url@
                && res.usd.wf(),
            Err(e) => inverse_price(root.pairs@[0]) == Err::<Decimal, BotError>(e),
        },
{
    let i = select_first(&root.pairs)?;
    normalize_inverse(&root.pairs[i])
}

/// The figures of the pair with the highest 24-hour volume among those found
/// for a token; the index says which pair that was.
pub fn lookup_by_volume(root: &Root) -> (r: Result<(usize, Resultstruct), BotError>)
    ensures
        root.pairs@.len() == 0 ==> r is Err && r->Err_0 == BotError::NoPairsAvailable,
        root.pairs@.len() > 0 ==> exists|i: int|
            is_volume_choice(root.pairs@, i) && match r {
                Ok((k, res)) => k == i && standard_price(root.pairs@[i]) == Ok::<
                    Decimal,
                    BotError,
                >(res.usd) && res.name@ == root.pairs@[i].base_token.name@ && res.price@
                    == root.pairs@[i].price_usd.unwrap()@ && res.change@ == change_text(
                    root.pairs@[i],
                ).unwrap() + "%"@ && res.colour == colour_for(
                    sign_of(change_text(root.pairs@[i]).unwrap()),
                ) && res.volume@ == volume_shown(root.pairs@[i]) && res.urlresult@
                    == root.pairs@[i].url@ && res.usd.wf(),
                Err(e) => standard_price(root.pairs@[i]) == Err::<Decimal, BotError>(e),
            },
{
    let i = select_by_volume(&root.pairs)?;
    let res = normalize_standard(&root.pairs[i])?;
    Ok((i, res))
}

/// What to do with the price API's answer before reading its body: nothing
/// when it could not be reached, nothing on an error status (4xx or 5xx),
/// and read it otherwise.
pub fn check_response(reached: bool, status: u16) -> (r: Result<(), BotError>)
    ensures
        !reached ==> r == Err::<(), BotError>(BotError::ApiUnreachable),
        reached && 400 <= status <= 599 ==> r == Err::<(), BotError>(BotError::PairNotFound),
        reached && !(400 <= status <= 599) ==> r == Ok::<(), BotError>(()),
{
    if !reached {
        Err(BotError::ApiUnreachable)
    } else if 400 <= status && status <= 599 {
        Err(BotError::PairNotFound)
    } else {
        Ok(())
    }
}

} // verus!
