//! The texts of the three prompts. Each one interleaves fixed wording with
//! market data; lists of markets and prices come in as rendered JSON, and
//! amounts as text rounded to whole units.

use vstd::prelude::*;
use vstd::string::*;
use crate::models::Market;
use crate::text::{bool_text, bool_to_text, decimal, decimal_digits};

verus! {

/// The prompt that asks for the analysis of one market.
pub open spec fn analysis_text(
    m: Market,
    liquidity: Seq<char>,
    volume: Seq<char>,
    prices: Seq<char>,
) -> Seq<char> {
    "Analyze this prediction market:\n\nMarket: "@ + m.id@ + "\nQuestion: "@ + m.question@
        + "\nLiquidity: $"@ + liquidity + "\nVolume: $"@ + volume + "\nActive: "@ + bool_text(
        m.active,
    ) + "\n\nCurrent Prices:\n"@ + prices
        + "\n\nProvide analysis on:\n1. Market sentiment and trends\n2. Liquidity assessment\n3. Price efficiency\n4. Potential trading opportunities\n5. Risk factors"@
}

/// The prompt that asks for arbitrage among the markets a search found.
pub open spec fn arbitrage_text(keyword: Seq<char>, found: nat, markets: Seq<char>) -> Seq<char> {
    "Find arbitrage opportunities among these related markets:\n\nKeyword: "@ + keyword
        + "\nMarkets found: "@ + decimal_digits(found) + "\n\n"@ + markets
        + "\n\nAnalyze:\n1. Similar questions with different prices\n2. Cross-market arbitrage opportunities\n3. Risk-adjusted returns\n4. Execution feasibility\n5. Recommended actions"@
}

/// The prompt that asks for a summary of the trending and the active markets.
pub open spec fn summary_text(trending: Seq<char>, active: Seq<char>) -> Seq<char> {
    "Provide a comprehensive market summary:\n\nTop Trending Markets (by volume):\n"@ + trending
        + "\n\nTop Active Markets:\n"@ + active
        + "\n\nSummarize:\n1. Overall market sentiment\n2. Popular categories and themes\n3. Liquidity distribution\n4. Notable price movements\n5. Trading recommendations"@
}

/// Writes the prompt that asks for the analysis of `market`. `liquidity`
/// and `volume` are the market's amounts rounded to whole units, `prices`
/// its rendered price list.
pub fn analyze_market_prompt(market: &Market, liquidity: &str, volume: &str, prices: &str) -> (r:
    String)
    ensures
        r@ == analysis_text(*market, liquidity@, volume@, prices@),
{
    let mut s = String::from_str("Analyze this prediction market:\n\nMarket: ");
    s.append(market.id.as_str());
    s.append("\nQuestion: ");
    s.append(market.question.as_str());
    s.append("\nLiquidity: $");
    s.append(liquidity);
    s.append("\nVolume: $");
    s.append(volume);
    s.append("\nActive: ");
    s.append(bool_to_text(market.active));
    s.append("\n\nCurrent Prices:\n");
    s.append(prices);
    s.append(
        "\n\nProvide analysis on:\n1. Market sentiment and trends\n2. Liquidity assessment\n3. Price efficiency\n4. Potential trading opportunities\n5. Risk factors",
    );
    s
}

/// Writes the prompt that asks for arbitrage among the `found` markets that
/// the search for `keyword` brought, rendered as `markets`.
pub fn find_arbitrage_prompt(keyword: &str, found: usize, markets: &str) -> (r: String)
    ensures
        r@ == arbitrage_text(keyword@, found as nat, markets@),
{
    let mut s = String::from_str(
        "Find arbitrage opportunities among these related markets:\n\nKeyword: ",
    );
    s.append(keyword);
    s.append("\nMarkets found: ");
    s.append(decimal(found as u64).as_str());
    s.append("\n\n");
    s.append(markets);
    s.append(
        "\n\nAnalyze:\n1. Similar questions with different prices\n2. Cross-market arbitrage opportunities\n3. Risk-adjusted returns\n4. Execution feasibility\n5. Recommended actions",
    );
    s
}

/// Writes the prompt that asks for a summary of the rendered lists of
/// trending and of active markets.
pub fn market_summary_prompt(trending: &str, active: &str) -> (r: String)
    ensures
        r@ == summary_text(trending@, active@),
{
    let mut s = String::from_str(
        "Provide a comprehensive market summary:\n\nTop Trending Markets (by volume):\n",
    );
    s.append(trending);
    s.append("\n\nTop Active Markets:\n");
    s.append(active);
    s.append(
        "\n\nSummarize:\n1. Overall market sentiment\n2. Popular categories and themes\n3. Liquidity distribution\n4. Notable price movements\n5. Trading recommendations",
    );
    s
}

} // verus!
