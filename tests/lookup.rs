use pricebot::coins::{hardcoded_address, listed_symbols, lookup_url, token_url, Coin, PairSide};
use pricebot::embed::{coin_embed, price_embed};
use pricebot::error::BotError;
use pricebot::lookup::{
    check_response, colour_of_change, lookup_by_volume, normalize_inverse, normalize_standard,
    vectorinfo, vectorinfoinverse, PriceColour,
};
use pricebot::numeral::Decimal;
use pricebot::pair::{select_by_volume, select_first, volume_rank, BaseToken, Pair, PriceChange, Root, Volume};
use pricebot::text::autocomplete_name;

fn token(name: &str, symbol: &str) -> BaseToken {
    BaseToken { address: format!("0x{}", symbol), name: name.to_string(), symbol: symbol.to_string() }
}

fn pair(url: &str, usd: Option<&str>, native: Option<&str>, volume: Option<&str>, change: Option<Option<&str>>) -> Pair {
    Pair {
        chain_id: "optimism".to_string(),
        dex_id: "velodrome".to_string(),
        url: url.to_string(),
        pair_address: "0xpair".to_string(),
        base_token: token("Base Coin", "BASE"),
        quote_token: token("Quote Coin", "QUOTE"),
        price_native: native.map(|s| s.to_string()),
        price_usd: usd.map(|s| s.to_string()),
        volume: volume.map(|v| Volume { h24: Some(v.to_string()) }),
        price_change: change.map(|c| PriceChange { h24: c.map(|s| s.to_string()) }),
    }
}

fn root(pairs: Vec<Pair>) -> Root {
    Root { schema_version: "1.0.0".to_string(), pairs }
}

#[test]
fn selector_takes_highest_rounded_volume() {
    let pairs = vec![
        pair("a", Some("1"), None, Some("10.4"), Some(Some("1"))),
        pair("b", Some("1"), None, Some("99.6"), Some(Some("1"))),
        pair("c", Some("1"), None, Some("3"), Some(Some("1"))),
    ];
    assert_eq!(select_by_volume(&pairs), Ok(1));
}

#[test]
fn selector_ties_go_to_the_last() {
    let pairs = vec![
        pair("a", Some("1"), None, Some("20.5"), Some(Some("1"))),
        pair("b", Some("1"), None, Some("21.4"), Some(Some("1"))),
        pair("c", Some("1"), None, Some("5"), Some(Some("1"))),
    ];
    // 20.5 and 21.4 both round to 21.
    assert_eq!(select_by_volume(&pairs), Ok(1));
    let pairs = vec![
        pair("a", Some("1"), None, Some("21.4"), Some(Some("1"))),
        pair("b", Some("1"), None, Some("20.5"), Some(Some("1"))),
    ];
    assert_eq!(select_by_volume(&pairs), Ok(1));
}

#[test]
fn missing_volume_ranks_as_zero() {
    let p = pair("a", Some("1"), None, None, Some(Some("1")));
    assert_eq!(volume_rank(&p), 0);
    let q = pair("b", Some("1"), None, Some("0.4"), Some(Some("1")));
    assert_eq!(volume_rank(&q), 0);
    let r = pair("c", Some("1"), None, Some("1000.0"), Some(Some("1")));
    assert_eq!(volume_rank(&r), 1000);
    let pairs = vec![q, p];
    assert_eq!(select_by_volume(&pairs), Ok(1));
}

#[test]
fn empty_pair_list_is_no_pairs_available() {
    let pairs: Vec<Pair> = vec![];
    assert_eq!(select_by_volume(&pairs), Err(BotError::NoPairsAvailable));
    assert_eq!(select_first(&pairs), Err(BotError::NoPairsAvailable));
    assert!(matches!(lookup_by_volume(&root(vec![])), Err(BotError::NoPairsAvailable)));
    assert!(matches!(vectorinfo(&root(vec![])), Err(BotError::NoPairsAvailable)));
    assert!(matches!(vectorinfoinverse(&root(vec![])), Err(BotError::NoPairsAvailable)));
}

#[test]
fn colour_follows_sign_of_change() {
    assert_eq!(colour_of_change("3.5"), PriceColour::Positive);
    assert_eq!(colour_of_change("-0.25"), PriceColour::Negative);
    assert_eq!(colour_of_change("0"), PriceColour::Neutral);
    assert_eq!(colour_of_change("-0.0"), PriceColour::Neutral);
    assert_eq!(PriceColour::Positive.rgb(), 0x1F8B4C);
    assert_eq!(PriceColour::Negative.rgb(), 0xE74C3C);
    assert_eq!(PriceColour::Neutral.rgb(), 0xF1C40F);
}

#[test]
fn inverse_mode_is_neutral_without_change() {
    let p = pair("u", Some("10.0"), Some("2.0"), Some("5"), Some(Some("-7.5")));
    let r = normalize_inverse(&p).ok().unwrap();
    assert_eq!(r.colour, PriceColour::Neutral);
    assert_eq!(r.change, "no data available");
    assert_eq!(r.name, "Quote Coin");
}

#[test]
fn inverse_price_divides_base_price_by_native_price() {
    let p = pair("u", Some("10.0"), Some("2.0"), Some("5"), None);
    let r = normalize_inverse(&p).ok().unwrap();
    assert_eq!(r.usd, Decimal { mantissa: 500_000_000, scale: 8 });
    assert_eq!(r.price, "5.0000");
    let p = pair("u", Some("1"), Some("3"), None, None);
    let r = normalize_inverse(&p).ok().unwrap();
    assert_eq!(r.usd, Decimal { mantissa: 33_333_333, scale: 8 });
    assert_eq!(r.price, "0.3333");
}

#[test]
fn inverse_price_needs_a_nonzero_native_price() {
    let p = pair("u", Some("10.0"), Some("0.00"), None, None);
    assert!(matches!(normalize_inverse(&p), Err(BotError::IncompleteData)));
    let p = pair("u", Some("10.0"), None, None, None);
    assert!(matches!(normalize_inverse(&p), Err(BotError::IncompleteData)));
    let p = pair("u", Some("ten"), Some("2"), None, None);
    assert!(matches!(normalize_inverse(&p), Err(BotError::MalformedResponse)));
}

#[test]
fn missing_price_or_change_shows_nothing() {
    let p = pair("u", None, None, Some("5"), Some(Some("1")));
    assert!(matches!(normalize_standard(&p), Err(BotError::IncompleteData)));
    let p = pair("u", Some("1.5"), None, Some("5"), None);
    assert!(matches!(normalize_standard(&p), Err(BotError::IncompleteData)));
    let p = pair("u", Some("1.5"), None, Some("5"), Some(None));
    assert!(matches!(normalize_standard(&p), Err(BotError::IncompleteData)));
    let p = pair("u", Some("1.5"), None, None, Some(Some("0")));
    let r = normalize_standard(&p).ok().unwrap();
    assert_eq!(r.change, "0%");
    assert_eq!(r.volume, "0");
    assert_eq!(r.colour, PriceColour::Neutral);
}

#[test]
fn one_pair_renders_title_and_colour() {
    let data = root(vec![pair(
        "https://dexscreener.com/optimism/0xpair",
        Some("1.2345"),
        None,
        Some("1000.0"),
        Some(Some("3.5")),
    )]);
    let (i, r) = lookup_by_volume(&data).ok().unwrap();
    assert_eq!(i, 0);
    let e = price_embed(&r);
    assert!(e.title.contains("$1.2345"));
    assert!(e.title.contains("3.5%"));
    assert_eq!(e.title, "$1.2345    *( 3.5%)*");
    assert_eq!(e.colour, PriceColour::Positive);
    assert_eq!(e.author.as_deref(), Some("Base Coin"));
    assert_eq!(e.footer.as_deref(), Some("All rights reserved to Dexscreener.com"));
    assert_eq!(r.volume, "1000.0");
}

#[test]
fn coin_embed_shows_four_decimals() {
    let data = root(vec![pair("https://x/p", Some("1.23456"), None, Some("1000.0"), Some(Some("-2")))]);
    let r = vectorinfo(&data).ok().unwrap();
    let e = coin_embed(&r);
    assert_eq!(e.title, "Base Coin");
    assert_eq!(
        e.description.as_deref(),
        Some("Price : $1.2346\nVolume : $1000.0\nChange : -2%")
    );
    assert_eq!(e.colour, PriceColour::Negative);
    assert_eq!(e.url.as_deref(), Some("https://x/p"));
}

#[test]
fn error_status_is_pair_not_found() {
    assert_eq!(check_response(true, 404), Err(BotError::PairNotFound));
    assert_eq!(check_response(true, 500), Err(BotError::PairNotFound));
    assert_eq!(check_response(false, 0), Err(BotError::ApiUnreachable));
    assert_eq!(check_response(true, 200), Ok(()));
    assert!(BotError::PairNotFound.message().contains("can not be retrieved"));
}

#[test]
fn autocomplete_filters_by_prefix() {
    let names = listed_symbols();
    assert_eq!(names, vec!["BTC", "ETH", "OPENX", "OP"]);
    assert_eq!(autocomplete_name(&names, "O"), vec!["OPENX", "OP"]);
    assert_eq!(autocomplete_name(&names, ""), vec!["BTC", "ETH", "OPENX", "OP"]);
    assert_eq!(autocomplete_name(&names, "x"), Vec::<String>::new());
}

#[test]
fn hardcoded_coins_ignore_case() {
    assert_eq!(
        hardcoded_address("btc").as_deref(),
        Some("0xC0BC84e95864BdfDCd1CCFB8A3AA522E79Ca1410")
    );
    assert_eq!(
        hardcoded_address("Op").as_deref(),
        Some("0x4200000000000000000000000000000000000042")
    );
    assert_eq!(hardcoded_address("doge"), None);
}

#[test]
fn coin_choices_fetch_their_pairs() {
    let url = lookup_url(&Coin::Eth.lookup());
    assert_eq!(
        url,
        "https://api.dexscreener.com/latest/dex/pairs/optimism/0x85149247691df622eaf1a8bd0cafd40bc45154a9"
    );
    assert_eq!(Coin::Openx.side(), PairSide::Quote);
    assert_eq!(Coin::OP.side(), PairSide::Base);
    assert_eq!(
        token_url("0xabc"),
        "https://api.dexscreener.com/latest/dex/tokens/0xabc"
    );
}
