//! The shared registry of coins and addresses, and the rules by which a
//! refresh pass may change it: only a field that a provider response
//! successfully supplied is ever overwritten, and a failed fetch changes
//! nothing at all.

use vstd::prelude::*;

verus! {

/// Which third-party explorer API serves a coin's addresses.
///
/// `Unrecognized` stands in for a future provider the rest of the crate does
/// not know: it gets empty icon, link and request URLs, and a refresh of such
/// an address observes nothing. No function panics on it.
#[derive(Clone, Copy, PartialEq, Eq, Structural, Debug)]
pub enum ApiType {
    Chainz,
    Blnscan,
    Unrecognized,
}

/// Why one fetch produced no observation. Such a fetch leaves the address
/// exactly as it was.
#[derive(Clone, Copy, PartialEq, Eq, Structural, Debug)]
pub enum FetchError {
    /// Connection-level failure, reported by the transport layer.
    Transport,
    /// Non-success HTTP status, reported by the transport layer.
    Status,
    /// The response body was not a well-formed JSON document.
    InvalidBody,
}

/// Why an initial registry was rejected at startup.
#[derive(Clone, Copy, PartialEq, Eq, Structural, Debug)]
pub enum ConfigError {
    /// A coin was configured with an empty address list.
    EmptyAddressList,
}

/// What one provider response was successfully parsed into. The fields are
/// independently optional: a response may supply one without the other, and
/// an absent field must leave the stored field untouched.
pub struct ObservedActivity {
    /// Decimal text of the observed balance, in the coin's native unit.
    pub balance: Option<String>,
    /// Unix epoch seconds of the last observed activity.
    pub last_activity_timestamp: Option<u64>,
}

/// One tracked blockchain address. `address` never changes after load;
/// `balance` and `last_activity_timestamp` are unset until a fetch
/// successfully parses them, and then always hold the most recent
/// successfully parsed value.
pub struct Address {
    pub address: String,
    pub balance: Option<String>,
    pub last_activity_timestamp: Option<u64>,
}

/// One configured coin with its ordered (configuration order) address list.
pub struct Coin {
    pub name: String,
    pub ticker: String,
    pub api: ApiType,
    pub addresses: Vec<Address>,
}

/// The registry of all tracked coins, in configuration order.
pub struct Coins {
    pub coins: Vec<Coin>,
}

/// Mathematical value of an `Address`.
pub struct AddressModel {
    pub address: Seq<char>,
    pub balance: Option<Seq<char>>,
    pub last_activity_timestamp: Option<u64>,
}

/// Mathematical value of an `ObservedActivity`.
pub struct ObservedModel {
    pub balance: Option<Seq<char>>,
    pub last_activity_timestamp: Option<u64>,
}

/// Mathematical value of a `Coin`.
pub struct CoinModel {
    pub name: Seq<char>,
    pub ticker: Seq<char>,
    pub api: ApiType,
    pub addresses: Seq<AddressModel>,
}

impl View for Address {
    type V = AddressModel;

    open spec fn view(&self) -> AddressModel {
        AddressModel {
            address: self.address@,
            balance: match self.balance {
                Option::Some(b) => Option::Some(b@),
                Option::None => Option::None,
            },
            last_activity_timestamp: self.last_activity_timestamp,
        }
    }
}

impl View for ObservedActivity {
    type V = ObservedModel;

    open spec fn view(&self) -> ObservedModel {
        ObservedModel {
            balance: match self.balance {
                Option::Some(b) => Option::Some(b@),
                Option::None => Option::None,
            },
            last_activity_timestamp: self.last_activity_timestamp,
        }
    }
}

impl View for Coin {
    type V = CoinModel;

    open spec fn view(&self) -> CoinModel {
        CoinModel {
            name: self.name@,
            ticker: self.ticker@,
            api: self.api,
            addresses: self.addresses@.map_values(|a: Address| a@),
        }
    }
}

impl View for Coins {
    type V = Seq<CoinModel>;

    open spec fn view(&self) -> Seq<CoinModel> {
        self.coins@.map_values(|c: Coin| c@)
    }
}

/// How one address changes under an observation: exactly the fields the
/// observation carries are overwritten, the rest stay.
pub open spec fn spec_apply_address(a: AddressModel, observed: ObservedModel) -> AddressModel {
    AddressModel {
        address: a.address,
        balance: if observed.balance is Some {
            observed.balance
        } else {
            a.balance
        },
        last_activity_timestamp: if observed.last_activity_timestamp is Some {
            observed.last_activity_timestamp
        } else {
            a.last_activity_timestamp
        },
    }
}

/// How one coin changes when the observation lands on its address `ai`.
pub open spec fn spec_apply_coin(c: CoinModel, ai: int, observed: ObservedModel) -> CoinModel {
    CoinModel {
        name: c.name,
        ticker: c.ticker,
        api: c.api,
        addresses: c.addresses.update(ai, spec_apply_address(c.addresses[ai], observed)),
    }
}

/// How the whole registry changes when the observation lands on coin `ci`,
/// address `ai`.
pub open spec fn spec_apply(
    coins: Seq<CoinModel>,
    ci: int,
    ai: int,
    observed: ObservedModel,
) -> Seq<CoinModel> {
    coins.update(ci, spec_apply_coin(coins[ci], ai, observed))
}

/// The initial form of a loaded coin: configuration fields kept, both
/// observed fields unset.
pub open spec fn spec_initial_coin(src: CoinModel, out: CoinModel) -> bool {
    &&& out.name == src.name
    &&& out.ticker == src.ticker
    &&& out.api == src.api
    &&& out.addresses.len() == src.addresses.len()
    &&& forall|j: int|
        0 <= j < src.addresses.len() ==> out.addresses[j] == (AddressModel {
            address: src.addresses[j].address,
            balance: Option::None,
            last_activity_timestamp: Option::None,
        })
}

impl Address {
    /// Overwrites exactly the fields present in `observed`.
    pub fn apply(&mut self, observed: ObservedActivity)
        ensures
            final(self)@ == spec_apply_address(old(self)@, observed@),
    {
        match observed.balance {
            Option::Some(b) => {
                self.balance = Option::Some(b);
            },
            Option::None => {},
        }
        match observed.last_activity_timestamp {
            Option::Some(t) => {
                self.last_activity_timestamp = Option::Some(t);
            },
            Option::None => {},
        }
    }
}

impl Coin {
    /// Applies the observation to address `address_index` of this coin and
    /// touches nothing else.
    pub fn apply_at(&mut self, address_index: usize, observed: ObservedActivity)
        requires
            address_index < old(self)@.addresses.len(),
        ensures
            final(self)@ == spec_apply_coin(old(self)@, address_index as int, observed@),
    {
        let observed_view: Ghost<ObservedModel> = Ghost(observed@);
        let addr = &mut self.addresses[address_index];
        addr.apply(observed);
        proof {
            assert(self@.addresses =~= spec_apply_coin(
                old(self)@,
                address_index as int,
                observed_view@,
            ).addresses);
        }
    }
}

impl Coins {
    /// Every coin keeps at least one address, as the configuration schema
    /// demands.
    pub open spec fn wf(&self) -> bool {
        forall|i: int| 0 <= i < self@.len() ==> self@[i].addresses.len() > 0
    }

    /// One-time load of the registry from the configuration: coin names,
    /// tickers, providers and address strings are kept in configuration
    /// order, and every balance and timestamp starts unset. Rejected, and
    /// only rejected, when some coin has no addresses.
    pub fn load_initial(config: Vec<Coin>) -> (r: Result<Coins, ConfigError>)
        ensures
            (r is Ok) <==> (forall|i: int|
                0 <= i < config@.len() ==> #[trigger] config@[i]@.addresses.len() > 0),
            r matches Ok(out) ==> {
                &&& out@.len() == config@.len()
                &&& forall|i: int|
                    0 <= i < config@.len() ==> spec_initial_coin(config@[i]@, #[trigger] out@[i])
                &&& out.wf()
            },
            r matches Err(e) ==> e == ConfigError::EmptyAddressList,
    {
        let mut out_coins: Vec<Coin> = Vec::new();
        let mut i: usize = 0;
        while i < config.len()
            invariant
                i <= config@.len(),
                out_coins@.len() == i,
                forall|k: int|
                    0 <= k < i ==> spec_initial_coin(config@[k]@, #[trigger] out_coins@[k]@),
                forall|k: int| 0 <= k < i ==> #[trigger] config@[k]@.addresses.len() > 0,
            decreases config@.len() - i,
        {
            let c = &config[i];
            if c.addresses.len() == 0 {
                proof {
                    assert(config@[i as int]@.addresses.len() == 0);
                }
                return Err(ConfigError::EmptyAddressList);
            }
            let mut addrs: Vec<Address> = Vec::new();
            let mut j: usize = 0;
            while j < c.addresses.len()
                invariant
                    j <= c@.addresses.len(),
                    addrs@.len() == j,
                    forall|k: int|
                        0 <= k < j ==> #[trigger] addrs@[k]@ == (AddressModel {
                            address: c@.addresses[k].address,
                            balance: Option::None,
                            last_activity_timestamp: Option::None,
                        }),
                decreases c@.addresses.len() - j,
            {
                let a = Address {
                    address: c.addresses[j].address.clone(),
                    balance: Option::None,
                    last_activity_timestamp: Option::None,
                };
                addrs.push(a);
                j = j + 1;
            }
            let loaded = Coin {
                name: c.name.clone(),
                ticker: c.ticker.clone(),
                api: c.api,
                addresses: addrs,
            };
            out_coins.push(loaded);
            i = i + 1;
        }
        Ok(Coins { coins: out_coins })
    }

    /// Overwrites only the fields present in `observed` at the given address;
    /// absent fields, every other address and every other coin are untouched.
    pub fn apply_result(
        &mut self,
        coin_index: usize,
        address_index: usize,
        observed: ObservedActivity,
    )
        requires
            coin_index < old(self)@.len(),
            address_index < old(self)@[coin_index as int].addresses.len(),
        ensures
            final(self)@ == spec_apply(
                old(self)@,
                coin_index as int,
                address_index as int,
                observed@,
            ),
    {
        let observed_view: Ghost<ObservedModel> = Ghost(observed@);
        let coin = &mut self.coins[coin_index];
        coin.apply_at(address_index, observed);
        proof {
            assert(self@ =~= spec_apply(
                old(self)@,
                coin_index as int,
                address_index as int,
                observed_view@,
            ));
        }
    }

    /// Applies a successful fetch outcome; a failed fetch leaves the whole
    /// registry exactly as it was.
    pub fn apply_outcome(
        &mut self,
        coin_index: usize,
        address_index: usize,
        outcome: Result<ObservedActivity, FetchError>,
    )
        requires
            coin_index < old(self)@.len(),
            address_index < old(self)@[coin_index as int].addresses.len(),
        ensures
            outcome matches Ok(observed) ==> final(self)@ == spec_apply(
                old(self)@,
                coin_index as int,
                address_index as int,
                observed@,
            ),
            outcome is Err ==> final(self)@ == old(self)@,
    {
        match outcome {
            Ok(observed) => self.apply_result(coin_index, address_index, observed),
            Err(_) => {},
        }
    }
}

} // verus!
