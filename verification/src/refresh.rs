//! The refresh pass, laid out as data: one target per configured address, in
//! configuration order, each carrying the provider and the URL to fetch. The
//! caller performs the transport for each target and hands the outcome back
//! to `Coins::apply_outcome`, so a failure on one target can touch nothing
//! but that target.

use vstd::prelude::*;

use crate::adapter::{request_url, spec_request_url};
use crate::store::{ApiType, CoinModel, Coins};

verus! {

/// One fetch of a refresh pass: which address of which coin, through which
/// provider, at which URL.
pub struct RefreshTarget {
    pub coin_index: usize,
    pub address_index: usize,
    pub api: ApiType,
    pub url: String,
}

/// Mathematical value of a `RefreshTarget`.
#[verifier::ext_equal]
pub struct RefreshTargetModel {
    pub coin_index: int,
    pub address_index: int,
    pub api: ApiType,
    pub url: Seq<char>,
}

impl View for RefreshTarget {
    type V = RefreshTargetModel;

    open spec fn view(&self) -> RefreshTargetModel {
        RefreshTargetModel {
            coin_index: self.coin_index as int,
            address_index: self.address_index as int,
            api: self.api,
            url: self.url@,
        }
    }
}

/// The targets one coin contributes, in address order.
pub open spec fn spec_coin_plan(c: CoinModel, ci: int) -> Seq<RefreshTargetModel> {
    Seq::new(
        c.addresses.len(),
        |j: int|
            RefreshTargetModel {
                coin_index: ci,
                address_index: j,
                api: c.api,
                url: spec_request_url(c.api, c.ticker, c.addresses[j].address),
            },
    )
}

/// The targets of the first `n` coins, in configuration order.
pub open spec fn spec_plan_prefix(coins: Seq<CoinModel>, n: int) -> Seq<RefreshTargetModel>
    decreases n,
{
    if n <= 0 {
        Seq::empty()
    } else {
        spec_plan_prefix(coins, n - 1) + spec_coin_plan(coins[n - 1], n - 1)
    }
}

/// Every target of one full refresh pass, in configuration order.
pub open spec fn spec_plan(coins: Seq<CoinModel>) -> Seq<RefreshTargetModel> {
    spec_plan_prefix(coins, coins.len() as int)
}

/// Lays out one full refresh pass over the registry: every address of every
/// coin exactly once, in configuration order.
pub fn refresh_plan(coins: &Coins) -> (r: Vec<RefreshTarget>)
    ensures
        r@.map_values(|t: RefreshTarget| t@) == spec_plan(coins@),
{
    let mut out: Vec<RefreshTarget> = Vec::new();
    let mut i: usize = 0;
    while i < coins.coins.len()
        invariant
            i <= coins@.len(),
            out@.map_values(|t: RefreshTarget| t@) == spec_plan_prefix(coins@, i as int),
        decreases coins@.len() - i,
    {
        let coin = &coins.coins[i];
        let mut j: usize = 0;
        while j < coin.addresses.len()
            invariant
                i < coins@.len(),
                j <= coins@[i as int].addresses.len(),
                coin == coins.coins@[i as int],
                out@.map_values(|t: RefreshTarget| t@) == spec_plan_prefix(coins@, i as int)
                    + spec_coin_plan(coins@[i as int], i as int).take(j as int),
            decreases coins@[i as int].addresses.len() - j,
        {
            let url = request_url(coin.api, coin.ticker.as_str(), coin.addresses[j].address.as_str());
            let t = RefreshTarget { coin_index: i, address_index: j, api: coin.api, url };
            proof {
                let cm = coins@[i as int];
                assert(cm == coin@);
                assert(cm.addresses[j as int] == coin.addresses@[j as int]@);
                assert(t@ =~= spec_coin_plan(cm, i as int)[j as int]);
            }
            let ghost pre = out@;
            out.push(t);
            proof {
                assert(out@.map_values(|t: RefreshTarget| t@) =~= pre.map_values(
                    |t: RefreshTarget| t@,
                ).push(t@));
                assert(out@.map_values(|t: RefreshTarget| t@) =~= spec_plan_prefix(
                    coins@,
                    i as int,
                ) + spec_coin_plan(coins@[i as int], i as int).take(j + 1));
            }
            j = j + 1;
        }
        proof {
            assert(spec_coin_plan(coins@[i as int], i as int).take(j as int) =~= spec_coin_plan(
                coins@[i as int],
                i as int,
            ));
            assert(out@.map_values(|t: RefreshTarget| t@) =~= spec_plan_prefix(coins@, i + 1));
        }
        i = i + 1;
    }
    proof {
        assert(out@.map_values(|t: RefreshTarget| t@) == spec_plan(coins@));
    }
    out
}

} // verus!
