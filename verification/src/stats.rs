//! The monitoring-stats and opportunities read APIs.
//!
//! Both records are produced elsewhere (the monitoring worker writes a
//! stats file); the shell only passes a parsed record through, and
//! synthesizes a fixed default anchored at the current time when no
//! usable record exists. Money, percentage and rate fields are carried
//! in hundredths (cents for USD amounts) so the records stay in
//! integers.

use vstd::prelude::*;
use vstd::string::StringExecFns;

use crate::clock::now_millis;

verus! {

/// `now - delta`, saturating at the representable minimum.
pub open spec fn spec_millis_before(now: i64, delta: i64) -> i64 {
    if now - delta < i64::MIN {
        i64::MIN
    } else {
        (now - delta) as i64
    }
}

/// A nearby past instant, `delta` milliseconds before `now`.
pub fn millis_before(now: i64, delta: i64) -> (r: i64)
    requires
        delta >= 0,
    ensures
        r == spec_millis_before(now, delta),
{
    match now.checked_sub(delta) {
        Some(v) => v,
        None => i64::MIN,
    }
}

/// The best opportunity seen, as recorded inside the monitoring stats.
pub struct BestOpportunity {
    pub pair: String,
    pub buy_dex: String,
    pub sell_dex: String,
    pub profit_usd_hundredths: i64,
    pub profit_pct_hundredths: i64,
    /// Milliseconds since the Unix epoch.
    pub time: i64,
}

/// The monitoring-stats record the shell answers status queries with.
pub struct MonitoringStats {
    /// Milliseconds since the Unix epoch.
    pub start_time: i64,
    pub loop_count: i64,
    pub total_opportunities_found: i64,
    pub opportunities_executed: i64,
    pub total_profit_usd_hundredths: i64,
    pub errors: i64,
    pub avg_execution_time_hundredths: i64,
    pub opportunities_per_hour_hundredths: i64,
    /// Uptime in seconds.
    pub uptime: i64,
    pub last_opportunity_time: Option<i64>,
    pub best_opportunity: Option<BestOpportunity>,
}

/// The synthesized default record, anchored at clock reading `now`:
/// a run that started an hour ago, with a best opportunity half an
/// hour ago and a last opportunity five minutes ago.
pub open spec fn spec_is_default_stats(s: MonitoringStats, now: i64) -> bool {
    &&& s.start_time == spec_millis_before(now, 3600000)
    &&& s.loop_count == 1234
    &&& s.total_opportunities_found == 45
    &&& s.opportunities_executed == 12
    &&& s.total_profit_usd_hundredths == 12345
    &&& s.errors == 2
    &&& s.avg_execution_time_hundredths == 230
    &&& s.opportunities_per_hour_hundredths == 1250
    &&& s.uptime == 3600
    &&& s.last_opportunity_time == Some(spec_millis_before(now, 300000))
    &&& s.best_opportunity matches Some(b) && b.pair@ == "ETH/USDC"@ && b.buy_dex@ == "Uniswap"@
        && b.sell_dex@ == "SushiSwap"@ && b.profit_usd_hundredths == 2567
        && b.profit_pct_hundredths == 245 && b.time == spec_millis_before(now, 1800000)
}

/// The default stats record for clock reading `now`: syntactically
/// valid and fully populated, answered when no stats file is present
/// or its content does not parse.
pub fn default_monitoring_stats(now: i64) -> (r: MonitoringStats)
    ensures
        spec_is_default_stats(r, now),
{
    MonitoringStats {
        start_time: millis_before(now, 3600000),
        loop_count: 1234,
        total_opportunities_found: 45,
        opportunities_executed: 12,
        total_profit_usd_hundredths: 12345,
        errors: 2,
        avg_execution_time_hundredths: 230,
        opportunities_per_hour_hundredths: 1250,
        uptime: 3600,
        last_opportunity_time: Some(millis_before(now, 300000)),
        best_opportunity: Some(
            BestOpportunity {
                pair: String::from_str("ETH/USDC"),
                buy_dex: String::from_str("Uniswap"),
                sell_dex: String::from_str("SushiSwap"),
                profit_usd_hundredths: 2567,
                profit_pct_hundredths: 245,
                time: millis_before(now, 1800000),
            },
        ),
    }
}

/// The monitoring-stats reply: the record parsed from the stats file
/// when one was read and parsed, else the synthesized default for
/// clock reading `now`. Never an error.
pub fn monitoring_stats_response(parsed: Option<MonitoringStats>, now: i64) -> (r: MonitoringStats)
    ensures
        parsed matches Some(s) ==> r == s,
        parsed is None ==> spec_is_default_stats(r, now),
{
    match parsed {
        Some(s) => s,
        None => default_monitoring_stats(now),
    }
}

/// `monitoring_stats_response` anchored at the current clock reading.
pub fn monitoring_stats_now(parsed: Option<MonitoringStats>) -> (r: MonitoringStats)
    ensures
        parsed matches Some(s) ==> r == s,
        parsed is None ==> exists|now: i64| now >= 0 && #[trigger] spec_is_default_stats(r, now),
{
    let now = now_millis();
    monitoring_stats_response(parsed, now)
}

/// One demo arbitrage opportunity, as the opportunities query answers.
pub struct Opportunity {
    pub id: String,
    pub pair: String,
    pub buy_dex: String,
    pub sell_dex: String,
    pub buy_price_hundredths: i64,
    pub sell_price_hundredths: i64,
    pub profit_pct_hundredths: i64,
    pub profit_usd_hundredths: i64,
    pub volume_hundredths: i64,
    /// Milliseconds since the Unix epoch.
    pub timestamp: i64,
}

pub open spec fn spec_first_demo_opportunity(o: Opportunity, now: i64) -> bool {
    &&& o.id@ == "1"@
    &&& o.pair@ == "ETH/USDC"@
    &&& o.buy_dex@ == "Uniswap V3"@
    &&& o.sell_dex@ == "SushiSwap"@
    &&& o.buy_price_hundredths == 245678
    &&& o.sell_price_hundredths == 247890
    &&& o.profit_pct_hundredths == 89
    &&& o.profit_usd_hundredths == 1234
    &&& o.volume_hundredths == 5000000
    &&& o.timestamp == now
}

pub open spec fn spec_second_demo_opportunity(o: Opportunity, now: i64) -> bool {
    &&& o.id@ == "2"@
    &&& o.pair@ == "BTC/USDC"@
    &&& o.buy_dex@ == "Aerodrome"@
    &&& o.sell_dex@ == "Balancer V2"@
    &&& o.buy_price_hundredths == 6789012
    &&& o.sell_price_hundredths == 6823456
    &&& o.profit_pct_hundredths == 51
    &&& o.profit_usd_hundredths == 876
    &&& o.volume_hundredths == 2500000
    &&& o.timestamp == spec_millis_before(now, 30000)
}

/// The demo opportunity list for clock reading `now`: two fixed
/// records, the second thirty seconds older than the first.
pub fn demo_opportunities(now: i64) -> (r: Vec<Opportunity>)
    ensures
        r@.len() == 2,
        spec_first_demo_opportunity(r@[0], now),
        spec_second_demo_opportunity(r@[1], now),
{
    let mut r: Vec<Opportunity> = Vec::new();
    r.push(
        Opportunity {
            id: String::from_str("1"),
            pair: String::from_str("ETH/USDC"),
            buy_dex: String::from_str("Uniswap V3"),
            sell_dex: String::from_str("SushiSwap"),
            buy_price_hundredths: 245678,
            sell_price_hundredths: 247890,
            profit_pct_hundredths: 89,
            profit_usd_hundredths: 1234,
            volume_hundredths: 5000000,
            timestamp: now,
        },
    );
    r.push(
        Opportunity {
            id: String::from_str("2"),
            pair: String::from_str("BTC/USDC"),
            buy_dex: String::from_str("Aerodrome"),
            sell_dex: String::from_str("Balancer V2"),
            buy_price_hundredths: 6789012,
            sell_price_hundredths: 6823456,
            profit_pct_hundredths: 51,
            profit_usd_hundredths: 876,
            volume_hundredths: 2500000,
            timestamp: millis_before(now, 30000),
        },
    );
    r
}

/// `demo_opportunities` anchored at the current clock reading.
pub fn demo_opportunities_now() -> (r: Vec<Opportunity>)
    ensures
        r@.len() == 2,
        exists|now: i64|
            now >= 0 && #[trigger] spec_first_demo_opportunity(r@[0], now)
                && spec_second_demo_opportunity(r@[1], now),
{
    let now = now_millis();
    let r = demo_opportunities(now);
    proof {
        assert(now >= 0 && spec_first_demo_opportunity(r@[0], now)
            && spec_second_demo_opportunity(r@[1], now));
    }
    r
}

} // verus!
