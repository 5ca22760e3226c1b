//! The crate's cross-cutting guarantees, stated and proved over the same
//! spec functions the executable contracts use: what a full observation does
//! to the store and the view, what a partial one leaves alone, how other
//! addresses are isolated from an update, and when the view falls back to
//! its placeholder.

use vstd::prelude::*;

use crate::render::{
    spec_address_view, spec_coin_view, spec_format_timestamp, MAX_FORMATTABLE_SECS,
};
use crate::store::{spec_apply, AddressModel, ApiType, CoinModel, ObservedModel};

verus! {

/// Law: applying an observation that carries both a balance and a timestamp
/// stores both, and the rendered view of that address then shows the balance
/// text with the coin's ticker concatenated directly after it, and the
/// formatted timestamp.
pub proof fn lemma_full_observation_shown(
    coins: Seq<CoinModel>,
    ci: int,
    ai: int,
    observed: ObservedModel,
    now: u64,
)
    requires
        0 <= ci < coins.len(),
        0 <= ai < coins[ci].addresses.len(),
        observed.balance is Some,
        observed.last_activity_timestamp is Some,
    ensures
        ({
            let after = spec_apply(coins, ci, ai, observed);
            let a = after[ci].addresses[ai];
            &&& a.balance == observed.balance
            &&& a.last_activity_timestamp == observed.last_activity_timestamp
            &&& spec_coin_view(after[ci], now).addresses[ai].balance_display == observed.balance->0
                + coins[ci].ticker
            &&& spec_coin_view(after[ci], now).addresses[ai].timestamp_display
                == spec_format_timestamp(observed.last_activity_timestamp->0)
        }),
{
}

/// Law: an observation that omits the balance leaves the balance at its
/// prior value and updates exactly what it carries; the address string never
/// changes.
pub proof fn lemma_partial_observation_keeps_balance(
    coins: Seq<CoinModel>,
    ci: int,
    ai: int,
    observed: ObservedModel,
)
    requires
        0 <= ci < coins.len(),
        0 <= ai < coins[ci].addresses.len(),
        observed.balance is None,
    ensures
        ({
            let a = spec_apply(coins, ci, ai, observed)[ci].addresses[ai];
            &&& a.balance == coins[ci].addresses[ai].balance
            &&& a.last_activity_timestamp == (if observed.last_activity_timestamp is Some {
                observed.last_activity_timestamp
            } else {
                coins[ci].addresses[ai].last_activity_timestamp
            })
            &&& a.address == coins[ci].addresses[ai].address
        }),
{
}

/// Law: an observation applied to one address leaves every other address's
/// stored fields and rendered view exactly as they were, whether it shares
/// the coin or not.
pub proof fn lemma_refresh_isolated(
    coins: Seq<CoinModel>,
    ci: int,
    ai: int,
    observed: ObservedModel,
    cj: int,
    aj: int,
    now: u64,
)
    requires
        0 <= ci < coins.len(),
        0 <= ai < coins[ci].addresses.len(),
        0 <= cj < coins.len(),
        0 <= aj < coins[cj].addresses.len(),
        !(ci == cj && ai == aj),
    ensures
        spec_apply(coins, ci, ai, observed)[cj].addresses[aj] == coins[cj].addresses[aj],
        spec_coin_view(spec_apply(coins, ci, ai, observed)[cj], now).addresses[aj]
            == spec_coin_view(coins[cj], now).addresses[aj],
{
    let after = spec_apply(coins, ci, ai, observed);
    if ci == cj {
        assert(after[cj].addresses[aj] == coins[cj].addresses[aj]);
    } else {
        assert(after[cj] == coins[cj]);
    }
    assert(spec_coin_view(after[cj], now).addresses[aj] == spec_address_view(
        after[cj].api,
        after[cj].ticker,
        after[cj].addresses[aj],
        now,
    ));
    assert(spec_coin_view(coins[cj], now).addresses[aj] == spec_address_view(
        coins[cj].api,
        coins[cj].ticker,
        coins[cj].addresses[aj],
        now,
    ));
}

/// Law: an address with no observed balance renders the placeholder for it,
/// one with no observed timestamp renders the placeholder for both time
/// fields, and a timestamp the calendar cannot place also renders the
/// placeholder.
pub proof fn lemma_placeholders(api: ApiType, ticker: Seq<char>, a: AddressModel, now: u64)
    ensures
        a.balance is None ==> spec_address_view(api, ticker, a, now).balance_display == "?"@,
        a.last_activity_timestamp is None ==> spec_address_view(
            api,
            ticker,
            a,
            now,
        ).timestamp_display == "?"@ && spec_address_view(api, ticker, a, now).elapsed_display
            == "?"@,
        (a.last_activity_timestamp is Some && a.last_activity_timestamp->0
            > MAX_FORMATTABLE_SECS as u64) ==> spec_address_view(
            api,
            ticker,
            a,
            now,
        ).timestamp_display == "?"@,
{
}

} // verus!
