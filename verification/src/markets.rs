//! Views derived from fetched markets: the keyword filter, the price list of
//! a market, and the plan of a batch of fetches.

use vstd::prelude::*;
use vstd::string::*;
use crate::clock::{is_utc_stamp, timestamp_now};
use crate::error::PolymarketError;
use crate::models::{Market, MarketPrice};
use crate::number::{is_number, is_number_text};
use crate::query::QueryView;
use crate::text::{contains_text, decimal, decimal_digits, is_substring, lowercased, to_lowercase};

verus! {

/// `text`, case aside, holds the lower-case `needle`.
pub open spec fn mentions(text: Seq<char>, needle: Seq<char>) -> bool {
    is_substring(lowercased(text), needle)
}

/// The market's question, description or category holds the lower-case `needle`.
pub open spec fn market_mentions(m: Market, needle: Seq<char>) -> bool {
    ||| mentions(m.question@, needle)
    ||| (m.description matches Some(d) && mentions(d@, needle))
    ||| (m.category matches Some(c) && mentions(c@, needle))
}

/// The market matches `keyword`, letter case aside.
pub open spec fn market_matches(m: Market, keyword: Seq<char>) -> bool {
    market_mentions(m, lowercased(keyword))
}

/// The markets that references point to.
pub open spec fn pointees(refs: Seq<&Market>) -> Seq<Market> {
    refs.map_values(|m: &Market| *m)
}

fn text_mentions(text: &str, needle: &str) -> (r: bool)
    ensures
        r == mentions(text@, needle@),
{
    contains_text(to_lowercase(text).as_str(), needle)
}

fn mentions_keyword(market: &Market, needle: &str) -> (r: bool)
    ensures
        r == market_mentions(*market, needle@),
{
    if text_mentions(market.question.as_str(), needle) {
        return true;
    }
    if let Some(d) = &market.description {
        if text_mentions(d.as_str(), needle) {
            return true;
        }
    }
    if let Some(c) = &market.category {
        if text_mentions(c.as_str(), needle) {
            return true;
        }
    }
    false
}

/// The markets that match `keyword`, in their order.
pub fn filter_markets<'a>(markets: &'a Vec<Market>, keyword: &str) -> (r: Vec<&'a Market>)
    ensures
        pointees(r@) == markets@.filter(|m: Market| market_matches(m, keyword@)),
{
    let needle = to_lowercase(keyword);
    let ghost pred = |m: Market| market_matches(m, keyword@);
    let mut found: Vec<&'a Market> = Vec::new();
    let mut i: usize = 0;
    proof {
        reveal(Seq::filter);
        assert(markets@.take(0).filter(pred) =~= Seq::<Market>::empty());
        assert(pointees(found@) =~= Seq::<Market>::empty());
    }
    while i < markets.len()
        invariant
            i <= markets@.len(),
            needle@ == lowercased(keyword@),
            pred == (|m: Market| market_matches(m, keyword@)),
            pointees(found@) == markets@.take(i as int).filter(pred),
        decreases markets@.len() - i,
    {
        let ghost before = found@;
        let market = &markets[i];
        let hit = mentions_keyword(market, needle.as_str());
        if hit {
            found.push(market);
        }
        proof {
            reveal(Seq::filter);
            let next = markets@.take(i + 1);
            assert(next.drop_last() =~= markets@.take(i as int));
            assert(next.last() == markets@[i as int]);
            assert(pred(markets@[i as int]) == hit);
            if hit {
                assert(pointees(found@) =~= pointees(before).push(markets@[i as int]));
            }
        }
        i = i + 1;
    }
    proof {
        assert(markets@.take(markets@.len() as int) =~= markets@);
    }
    found
}

/// Two keywords that differ in letter case only select the same markets.
pub proof fn lemma_search_ignores_case(markets: Seq<Market>, first: Seq<char>, second: Seq<char>)
    requires
        lowercased(first) == lowercased(second),
    ensures
        markets.filter(|m: Market| market_matches(m, first)) == markets.filter(
            |m: Market| market_matches(m, second),
        ),
{
    let with_first = |m: Market| market_matches(m, first);
    let with_second = |m: Market| market_matches(m, second);
    assert forall|m: Market| #[trigger] with_first(m) == with_second(m) by {}
    assert(with_first =~= with_second);
}

/// A market honours the filters of a query: it has the state that each
/// present filter asks for. A market without an `archived` mark counts as
/// not archived.
pub open spec fn honours_filters(q: QueryView, m: Market) -> bool {
    &&& (q.active matches Some(a) ==> m.active == a)
    &&& (q.closed matches Some(c) ==> m.closed == c)
    &&& (q.archived matches Some(a) ==> (m.archived == Some(true)) == a)
}

/// Outcome `i` of the market has a price that denotes a number.
pub open spec fn has_price(m: Market, i: int) -> bool {
    0 <= i < m.outcomes@.len() && i < m.outcome_prices@.len() && is_number_text(
        m.outcome_prices@[i]@,
    )
}

/// The outcomes before `upto` that have a price, in rising order.
pub open spec fn priced(m: Market, upto: int) -> Seq<int>
    decreases upto,
{
    if upto <= 0 {
        Seq::empty()
    } else if has_price(m, upto - 1) {
        priced(m, upto - 1).push(upto - 1)
    } else {
        priced(m, upto - 1)
    }
}

/// The identifier of outcome `i`: `outcome_` and the index.
pub open spec fn outcome_name(i: nat) -> Seq<char> {
    "outcome_"@ + decimal_digits(i)
}

/// `p` is the price of outcome `i` of `m`, asked for as `market_id`, with
/// a date and time in UTC as its timestamp.
pub open spec fn is_price_of(p: MarketPrice, m: Market, market_id: Seq<char>, i: int) -> bool {
    &&& has_price(m, i)
    &&& p.market_id@ == market_id
    &&& p.outcome_id@ == outcome_name(i as nat)
    &&& p.price@ == m.outcome_prices@[i]@
    &&& is_utc_stamp(p.timestamp@)
}

/// The price entry of outcome `index` as of `timestamp`.
pub fn price_entry(market_id: &str, index: usize, price: &str, timestamp: String) -> (p: MarketPrice)
    ensures
        p.market_id@ == market_id@,
        p.outcome_id@ == outcome_name(index as nat),
        p.price@ == price@,
        p.timestamp == timestamp,
{
    let mut outcome_id = String::from_str("outcome_");
    outcome_id.append(decimal(index as u64).as_str());
    MarketPrice {
        market_id: String::from_str(market_id),
        outcome_id,
        price: String::from_str(price),
        timestamp,
    }
}

/// The prices of a market's outcomes, in the order of the outcomes: one
/// entry for each outcome whose price denotes a number, none for the
/// others. Each entry carries the time at which it was made, as a date and
/// time in UTC; which time that is depends on the clock.
pub fn market_prices(market: &Market, market_id: &str) -> (r: Vec<MarketPrice>)
    ensures
        r@.len() == priced(*market, market.outcomes@.len() as int).len(),
        forall|k: int|
            0 <= k < r@.len() ==> is_price_of(
                #[trigger] r@[k],
                *market,
                market_id@,
                priced(*market, market.outcomes@.len() as int)[k],
            ),
{
    let mut prices: Vec<MarketPrice> = Vec::new();
    let mut i: usize = 0;
    while i < market.outcomes.len()
        invariant
            i <= market.outcomes@.len(),
            prices@.len() == priced(*market, i as int).len(),
            forall|k: int|
                0 <= k < prices@.len() ==> is_price_of(
                    #[trigger] prices@[k],
                    *market,
                    market_id@,
                    priced(*market, i as int)[k],
                ),
        decreases market.outcomes@.len() - i,
    {
        if i < market.outcome_prices.len() {
            let text = market.outcome_prices[i].as_str();
            if is_number(text) {
                prices.push(price_entry(market_id, i, text, timestamp_now()));
            }
        }
        i = i + 1;
    }
    prices
}

/// The prices among `prices` that denote a number.
pub open spec fn parsable(prices: Seq<String>) -> Seq<String> {
    prices.filter(|p: String| is_number_text(p@))
}

proof fn lemma_priced_counts(m: Market, upto: int)
    requires
        0 <= upto <= m.outcomes@.len(),
    ensures
        priced(m, upto).len() <= upto,
        upto <= m.outcome_prices@.len() ==> priced(m, upto).len() == parsable(
            m.outcome_prices@.take(upto),
        ).len(),
        upto >= m.outcome_prices@.len() ==> priced(m, upto).len() == parsable(
            m.outcome_prices@,
        ).len(),
    decreases upto,
{
    reveal(Seq::filter);
    let pred = |p: String| is_number_text(p@);
    if upto == 0 {
        assert(m.outcome_prices@.take(0) =~= Seq::<String>::empty());
        if m.outcome_prices@.len() == 0 {
            assert(m.outcome_prices@ =~= Seq::<String>::empty());
        }
    } else {
        lemma_priced_counts(m, upto - 1);
        if upto <= m.outcome_prices@.len() {
            let next = m.outcome_prices@.take(upto);
            assert(next.drop_last() =~= m.outcome_prices@.take(upto - 1));
            assert(next.last() == m.outcome_prices@[upto - 1]);
            assert(pred(next.last()) == has_price(m, upto - 1));
            if upto == m.outcome_prices@.len() {
                assert(next =~= m.outcome_prices@);
            }
        }
    }
}

/// The smaller of two counts.
pub open spec fn smaller(a: nat, b: nat) -> nat {
    if a <= b {
        a
    } else {
        b
    }
}

/// The price list never has more entries than the market has outcomes, nor
/// more than it has parsable prices. Where every outcome has its price, it
/// has exactly as many entries as the smaller of the two counts, which is
/// the count of the parsable prices.
pub proof fn lemma_price_count(m: Market)
    ensures
        priced(m, m.outcomes@.len() as int).len() <= smaller(
            m.outcomes@.len(),
            parsable(m.outcome_prices@).len(),
        ),
        m.wf() ==> priced(m, m.outcomes@.len() as int).len() == smaller(
            m.outcomes@.len(),
            parsable(m.outcome_prices@).len(),
        ),
        m.outcomes@.len() >= m.outcome_prices@.len() ==> priced(m, m.outcomes@.len() as int).len()
            == parsable(m.outcome_prices@).len(),
{
    let n = m.outcomes@.len() as int;
    let pred = |p: String| is_number_text(p@);
    lemma_priced_counts(m, n);
    m.outcome_prices@.lemma_filter_len(pred);
    if n < m.outcome_prices@.len() {
        m.outcome_prices@.lemma_filter_take_len(pred, n);
    }
}

/// The number of fetches that run side by side.
pub const BATCH_SIZE: usize = 10;

/// The pause between two batches, in milliseconds.
pub const BATCH_PAUSE_MS: u64 = 100;

/// The number of batches that `len` fetches are made in.
pub open spec fn batch_count(len: nat) -> nat {
    (len + 9) / 10
}

/// The positions that batch `k` of `len` fetches covers: its first, and the
/// one behind its last.
pub open spec fn batch_range(len: nat, k: nat) -> (nat, nat) {
    (10 * k, if 10 * k + 10 <= len {
        10 * k + 10
    } else {
        len
    })
}

/// Splits `len` fetches into batches of ten, the last one shorter where ten
/// does not divide `len`: the positions each batch covers, in order.
pub fn batch_ranges(len: usize) -> (r: Vec<(usize, usize)>)
    ensures
        r@.len() == batch_count(len as nat),
        forall|k: int|
            0 <= k < r@.len() ==> (#[trigger] r@[k].0 as nat, r@[k].1 as nat) == batch_range(
                len as nat,
                k as nat,
            ),
{
    let mut ranges: Vec<(usize, usize)> = Vec::new();
    let mut start: usize = 0;
    while start < len
        invariant
            start <= len,
            start == 10 * ranges@.len() || (start == len && ranges@.len() == batch_count(
                len as nat,
            )),
            forall|k: int|
                0 <= k < ranges@.len() ==> (#[trigger] ranges@[k].0 as nat, ranges@[k].1 as nat)
                    == batch_range(len as nat, k as nat),
        decreases len - start,
    {
        let end: usize = if len - start >= BATCH_SIZE {
            start + BATCH_SIZE
        } else {
            len
        };
        ranges.push((start, end));
        start = end;
    }
    ranges
}

/// Tells whether a pause follows the batch that ends at position `end` of
/// `len` fetches: a pause lies between two batches, so none follows the
/// last one.
pub fn pause_between(end: usize, len: usize) -> (r: bool)
    ensures
        r == (end < len),
{
    end < len
}

/// A pause follows every batch but the last: `len` fetches are made with
/// one pause less than there are batches.
pub proof fn lemma_pauses_lie_between_batches(len: nat, k: nat)
    requires
        k < batch_count(len),
    ensures
        (batch_range(len, k).1 < len) <==> (k + 1 < batch_count(len)),
{
}

/// The market of a fetch that succeeded.
pub open spec fn fetched(r: Result<Market, PolymarketError>) -> Option<Market> {
    match r {
        Ok(m) => Some(m),
        Err(_) => None,
    }
}

/// The markets of the fetches that succeeded, in the order of the fetches;
/// the failed ones are left out.
pub fn collect_fetched(results: Vec<Result<Market, PolymarketError>>) -> (r: Vec<Market>)
    ensures
        r@ == results@.filter_map(|x: Result<Market, PolymarketError>| fetched(x)),
{
    let ghost f = |x: Result<Market, PolymarketError>| fetched(x);
    let ghost all = results@;
    let mut markets: Vec<Market> = Vec::new();
    for result in it: results.into_iter()
        invariant
            it.seq() == all,
            f == (|x: Result<Market, PolymarketError>| fetched(x)),
            markets@ == all.take(it.index()).filter_map(f),
    {
        proof {
            all.lemma_filter_map_take_succ(f, it.index());
        }
        match result {
            Ok(market) => {
                markets.push(market);
            },
            Err(_) => {},
        }
    }
    proof {
        assert(all.take(all.len() as int) =~= all);
    }
    markets
}

} // verus!
