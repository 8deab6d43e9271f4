//! The trading-pair records that the price API lists, and the choice of the
//! one to show.

use vstd::prelude::*;

use crate::error::BotError;
use crate::numeral::{decimal_of, parse_decimal, round_to_whole, rounded};

verus! {

/// A token as the price API describes it.
pub struct BaseToken {
    pub address: String,
    pub name: String,
    pub symbol: String,
}

/// Traded volume in US dollars, as a numeral.
pub struct Volume {
    pub h24: Option<String>,
}

/// Change of price in percent, as a numeral.
pub struct PriceChange {
    pub h24: Option<String>,
}

/// One market between a base and a quote token. Figures are kept as the
/// numerals the API wrote.
pub struct Pair {
    pub chain_id: String,
    pub dex_id: String,
    pub url: String,
    pub pair_address: String,
    pub base_token: BaseToken,
    pub quote_token: BaseToken,
    pub price_native: Option<String>,
    pub price_usd: Option<String>,
    pub volume: Option<Volume>,
    pub price_change: Option<PriceChange>,
}

/// The price API's answer: a schema version and the pairs found.
pub struct Root {
    pub schema_version: String,
    pub pairs: Vec<Pair>,
}

/// The 24-hour volume numeral of a pair, if it has one.
pub open spec fn volume_text(p: Pair) -> Option<Seq<char>> {
    match p.volume {
        Some(v) => match v.h24 {
            Some(t) => Some(t@),
            None => None,
        },
        None => None,
    }
}

/// What pairs are ranked by: the 24-hour volume rounded to a whole number and
/// held to `i64::MAX`, with a missing or unreadable volume counting as zero.
pub open spec fn volume_rank_of(p: Pair) -> nat {
    match volume_text(p) {
        Some(t) => match decimal_of(t) {
            Some(d) => if rounded(d) <= i64::MAX {
                rounded(d)
            } else {
                i64::MAX as nat
            },
            None => 0,
        },
        None => 0,
    }
}

/// The rank of a pair by its 24-hour volume.
pub fn volume_rank(p: &Pair) -> (r: u64)
    ensures
        r == volume_rank_of(*p),
{
    match &p.volume {
        Some(v) => match &v.h24 {
            Some(t) => match parse_decimal(t.as_str()) {
                Some(d) => {
                    let w = round_to_whole(d);
                    if w <= i64::MAX as u128 {
                        w as u64
                    } else {
                        i64::MAX as u64
                    }
                },
                None => 0,
            },
            None => 0,
        },
        None => 0,
    }
}

/// Pair `i` has the highest rank, and every later pair a lower one: it is the
/// last of the list once the list is sorted by rank, keeping the order of
/// equal ones.
pub open spec fn is_volume_choice(pairs: Seq<Pair>, i: int) -> bool {
    &&& 0 <= i < pairs.len()
    &&& forall|j: int| 0 <= j < pairs.len() ==> volume_rank_of(#[trigger] pairs[j]) <= volume_rank_of(pairs[i])
    &&& forall|j: int| i < j < pairs.len() ==> volume_rank_of(#[trigger] pairs[j]) < volume_rank_of(pairs[i])
}

/// At most one pair of a list is the volume choice.
pub proof fn lemma_volume_choice_unique(pairs: Seq<Pair>, i: int, k: int)
    requires
        is_volume_choice(pairs, i),
        is_volume_choice(pairs, k),
    ensures
        i == k,
{
    if i < k {
        assert(volume_rank_of(pairs[k]) < volume_rank_of(pairs[i]));
        assert(volume_rank_of(pairs[i]) <= volume_rank_of(pairs[k]));
    } else if k < i {
        assert(volume_rank_of(pairs[i]) < volume_rank_of(pairs[k]));
        assert(volume_rank_of(pairs[k]) <= volume_rank_of(pairs[i]));
    }
}

/// Picks the pair with the highest 24-hour volume; of equal ones the last.
pub fn select_by_volume(pairs: &Vec<Pair>) -> (r: Result<usize, BotError>)
    ensures
        match r {
            Ok(i) => is_volume_choice(pairs@, i as int),
            Err(e) => pairs@.len() == 0 && e == BotError::NoPairsAvailable,
        },
        pairs@.len() > 0 ==> r is Ok,
{
    if pairs.len() == 0 {
        return Err(BotError::NoPairsAvailable);
    }
    let mut best: usize = 0;
    let mut best_rank = volume_rank(&pairs[0]);
    let mut i: usize = 1;
    while i < pairs.len()
        invariant
            1 <= i <= pairs@.len(),
            best < i,
            best_rank == volume_rank_of(pairs@[best as int]),
            forall|j: int| 0 <= j < i ==> volume_rank_of(#[trigger] pairs@[j]) <= best_rank,
            forall|j: int| best < j < i ==> volume_rank_of(#[trigger] pairs@[j]) < best_rank,
        decreases pairs@.len() - i,
    {
        let rank = volume_rank(&pairs[i]);
        if rank >= best_rank {
            best = i;
            best_rank = rank;
        }
        i += 1;
    }
    Ok(best)
}

/// Picks the first pair, for endpoints that list a single one.
pub fn select_first(pairs: &Vec<Pair>) -> (r: Result<usize, BotError>)
    ensures
        pairs@.len() > 0 ==> r == Ok::<usize, BotError>(0),
        pairs@.len() == 0 ==> r == Err::<usize, BotError>(BotError::NoPairsAvailable),
{
    if pairs.len() == 0 {
        Err(BotError::NoPairsAvailable)
    } else {
        Ok(0)
    }
}

} // verus!
