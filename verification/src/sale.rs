//! The sale: takes payment in units, prices it, and feeds the vesting
//! ledger.

use crate::az_airdrop::errors::Refusal;
use crate::errors::AzTokenSaleToAirdropError;
use crate::primitives::{AccountId, Balance, Timestamp};
use crate::registry::{
    copy_records, distinct, find, is_distinct, lemma_put_distinct, put, record_of, store,
};
use crate::wide::{checked_mul_div, mul_div, narrowed};
use vstd::prelude::*;

verus! {

/// What one buyer has paid in, and whether they may buy early.
#[derive(Clone, Copy, Debug, PartialEq, Eq, Structural)]
pub struct Buyer {
    pub total_in: Balance,
    pub whitelisted: bool,
}

/// The sale's settings and progress.
#[derive(Clone, Copy, Debug, PartialEq, Eq)]
pub struct Config {
    pub admin: AccountId,
    pub airdrop_smart_contract: AccountId,
    pub in_unit: Balance,
    pub out_unit: Balance,
    pub start: Timestamp,
    pub end: Timestamp,
    pub whitelist_duration: Timestamp,
    pub in_target: Balance,
    pub in_raised: Balance,
}

/// A recipient's record as the vesting ledger reports it back.
#[derive(Clone, Copy, Debug, PartialEq, Eq, Structural)]
pub struct Recipient {
    pub total_amount: Balance,
    pub collected: Balance,
    pub collectable_at_tge_percentage: u8,
    pub cliff_duration: Timestamp,
    pub vesting_duration: Timestamp,
}

/// What a purchase comes to: the part of the payment handed back, the part
/// accepted, and the amount allocated for it.
#[derive(Clone, Copy, Debug, PartialEq, Eq, Structural)]
pub struct Purchase {
    pub refund: Balance,
    pub in_amount: Balance,
    pub out_amount: Balance,
}

/// The buyers' records, in the order in which they were first seen.
pub type Buyers = Seq<(AccountId, Buyer)>;

/// The sale as a mathematical value.
pub struct Sale {
    pub config: Config,
    pub buyers: Buyers,
}

/// Why a sale with these settings is not opened: the whitelist phase would
/// not end before the sale does; a unit or the target is zero; or the target
/// is no multiple of the unit paid in.
pub open spec fn opening_refusal(
    in_unit: Balance,
    out_unit: Balance,
    start: Timestamp,
    end: Timestamp,
    whitelist_duration: Timestamp,
    in_target: Balance,
) -> Option<Refusal> {
    if start + whitelist_duration >= end {
        Some(Refusal::Unprocessable("Start + whitelist_duration must be less than end"@))
    } else if in_unit == 0 || out_unit == 0 || in_target == 0 {
        Some(Refusal::Unprocessable("In unit, out unit and in target must be positive"@))
    } else if in_target % in_unit > 0 {
        Some(Refusal::Unprocessable("In target must be a multiple of in unit"@))
    } else {
        None
    }
}

impl Sale {
    /// The sale's own validity: one record per buyer, positive units and
    /// target, a target that is a multiple of the unit paid in, a whitelist
    /// phase that ends before the sale does, no more raised than the target,
    /// and no buyer credited with more than was raised.
    pub open spec fn wf(self) -> bool {
        &&& distinct(self.buyers)
        &&& self.config.in_unit > 0
        &&& self.config.out_unit > 0
        &&& self.config.in_target > 0
        &&& self.config.in_target % self.config.in_unit == 0
        &&& self.config.start + self.config.whitelist_duration < self.config.end
        &&& self.config.in_raised <= self.config.in_target
        &&& forall|i: int|
            0 <= i < self.buyers.len() ==> (#[trigger] self.buyers[i]).1.total_in
                <= self.config.in_raised
    }

    /// The record of `address`, or that of someone who has paid nothing and
    /// is not whitelisted.
    pub open spec fn buyer(self, address: AccountId) -> Buyer {
        match record_of(self.buyers, address) {
            Some(buyer) => buyer,
            None => Buyer { total_in: 0, whitelisted: false },
        }
    }

    /// The part of a payment of `value` that the sale can still take.
    pub open spec fn accepted(self, value: Balance) -> Balance {
        if value > self.config.in_target - self.config.in_raised {
            (self.config.in_target - self.config.in_raised) as u128
        } else {
            value
        }
    }

    /// Why a purchase is declined, in the order in which the rules are
    /// tested: the sale has not started; it has ended; it is in its
    /// whitelist phase and the caller is not whitelisted; the payment is
    /// zero or no multiple of the unit; the target is reached; or the amount
    /// to allocate does not fit the amount domain.
    pub open spec fn purchase_refusal(
        self,
        caller: AccountId,
        now: Timestamp,
        value: Balance,
    ) -> Option<Refusal> {
        if now < self.config.start {
            Some(Refusal::Unprocessable("Sale has not started"@))
        } else if now > self.config.end {
            Some(Refusal::Unprocessable("Sale has ended"@))
        } else if self.config.whitelist_duration > 0 && now < self.config.start
            + self.config.whitelist_duration && !self.buyer(caller).whitelisted {
            Some(
                Refusal::Unprocessable(
                    "Sale is currently only available to whitelisted addresses"@,
                ),
            )
        } else if value == 0 || value % self.config.in_unit > 0 {
            Some(Refusal::Unprocessable("In amount must be in multiples of in_unit"@))
        } else if self.config.in_raised == self.config.in_target {
            Some(Refusal::Unprocessable("Sold out"@))
        } else if narrowed(
            self.accepted(value) as nat,
            self.config.out_unit as nat,
            self.config.in_unit as nat,
        ) is None {
            Some(Refusal::Unprocessable("Out amount exceeds limit"@))
        } else {
            None
        }
    }

    /// What a purchase with a payment of `value` comes to: the payment is
    /// accepted up to what the target leaves open, the rest is handed back,
    /// and the accepted part is priced at `out_unit` per `in_unit`, rounded
    /// down.
    pub open spec fn priced(self, value: Balance) -> Purchase {
        Purchase {
            refund: (value - self.accepted(value)) as u128,
            in_amount: self.accepted(value),
            out_amount: mul_div(
                self.accepted(value) as nat,
                self.config.out_unit as nat,
                self.config.in_unit as nat,
            ) as u128,
        }
    }

    /// The sale after `caller` has paid in the accepted part of `value`.
    pub open spec fn after_buy(self, caller: AccountId, value: Balance) -> Sale {
        Sale {
            config: Config {
                in_raised: (self.config.in_raised + self.accepted(value)) as u128,
                ..self.config
            },
            buyers: put(
                self.buyers,
                caller,
                Buyer {
                    total_in: (self.buyer(caller).total_in + self.accepted(value)) as u128,
                    ..self.buyer(caller)
                },
            ),
        }
    }

    /// Why the whitelist is not changed to hold `address` or not, as
    /// `listed` says: the caller is not the admin, or the address already
    /// stands as asked.
    pub open spec fn whitelist_refusal(
        self,
        caller: AccountId,
        address: AccountId,
        listed: bool,
    ) -> Option<Refusal> {
        if caller != self.config.admin {
            Some(Refusal::Unauthorised)
        } else if self.buyer(address).whitelisted == listed {
            if listed {
                Some(Refusal::Unprocessable("Already on whitelist"@))
            } else {
                Some(Refusal::Unprocessable("Not on whitelist"@))
            }
        } else {
            None
        }
    }

    /// The sale with `address` on the whitelist or off it, as `listed` says.
    pub open spec fn with_whitelisted(self, address: AccountId, listed: bool) -> Sale {
        Sale {
            buyers: put(
                self.buyers,
                address,
                Buyer { whitelisted: listed, ..self.buyer(address) },
            ),
            ..self
        }
    }
}

/// The sale.
pub struct AzTokenSaleToAirdrop {
    admin: AccountId,
    airdrop_smart_contract: AccountId,
    in_unit: Balance,
    out_unit: Balance,
    start: Timestamp,
    end: Timestamp,
    buyers: Vec<(AccountId, Buyer)>,
    whitelist_duration: Timestamp,
    in_target: Balance,
    in_raised: Balance,
}

impl View for AzTokenSaleToAirdrop {
    type V = Sale;

    closed spec fn view(&self) -> Sale {
        Sale {
            config: Config {
                admin: self.admin,
                airdrop_smart_contract: self.airdrop_smart_contract,
                in_unit: self.in_unit,
                out_unit: self.out_unit,
                start: self.start,
                end: self.end,
                whitelist_duration: self.whitelist_duration,
                in_target: self.in_target,
                in_raised: self.in_raised,
            },
            buyers: self.buyers@,
        }
    }
}

impl AzTokenSaleToAirdrop {
    /// The sale is valid.
    pub open spec fn wf(&self) -> bool {
        self@.wf()
    }

    /// A sale with `caller` as admin, no buyers and nothing raised, if the
    /// settings are acceptable; else the refusal for the first rule that
    /// they break.
    pub fn new(
        caller: AccountId,
        airdrop_smart_contract: AccountId,
        in_unit: Balance,
        out_unit: Balance,
        start: Timestamp,
        end: Timestamp,
        whitelist_duration: Timestamp,
        in_target: Balance,
    ) -> (r: Result<AzTokenSaleToAirdrop, AzTokenSaleToAirdropError>)
        ensures
            match opening_refusal(in_unit, out_unit, start, end, whitelist_duration, in_target) {
                Some(why) => r matches Err(e) && e.reports(why),
                None => r matches Ok(sale) && sale.wf() && sale@ == (Sale {
                    config: Config {
                        admin: caller,
                        airdrop_smart_contract,
                        in_unit,
                        out_unit,
                        start,
                        end,
                        whitelist_duration,
                        in_target,
                        in_raised: 0,
                    },
                    buyers: Seq::empty(),
                }),
            },
    {
        if start as u128 + whitelist_duration as u128 >= end as u128 {
            return Err(
                AzTokenSaleToAirdropError::unprocessable(
                    "Start + whitelist_duration must be less than end",
                ),
            );
        }
        if in_unit == 0 || out_unit == 0 || in_target == 0 {
            return Err(
                AzTokenSaleToAirdropError::unprocessable(
                    "In unit, out unit and in target must be positive",
                ),
            );
        }
        if in_target % in_unit > 0 {
            return Err(
                AzTokenSaleToAirdropError::unprocessable("In target must be a multiple of in unit"),
            );
        }
        Ok(
            AzTokenSaleToAirdrop {
                admin: caller,
                airdrop_smart_contract,
                in_unit,
                out_unit,
                start,
                end,
                buyers: Vec::new(),
                whitelist_duration,
                in_target,
                in_raised: 0,
            },
        )
    }

    /// The sale with the given settings and buyers, if that is a valid sale:
    /// what was taken apart with `config` and `buyers` is put together
    /// again.
    pub fn from_parts(config: Config, buyers: Vec<(AccountId, Buyer)>) -> (r: Option<
        AzTokenSaleToAirdrop,
    >)
        ensures
            match r {
                Some(sale) => sale.wf() && sale@ == (Sale { config, buyers: buyers@ }),
                None => !(Sale { config, buyers: buyers@ }).wf(),
            },
    {
        if !is_distinct(&buyers) {
            return None;
        }
        if config.in_unit == 0 || config.out_unit == 0 || config.in_target == 0 {
            return None;
        }
        if config.in_target % config.in_unit != 0 || config.in_raised > config.in_target {
            return None;
        }
        if config.start as u128 + config.whitelist_duration as u128 >= config.end as u128 {
            return None;
        }
        let mut i: usize = 0;
        while i < buyers.len()
            invariant
                i <= buyers.len(),
                forall|j: int| 0 <= j < i ==> (#[trigger] buyers@[j]).1.total_in <= config.in_raised,
            decreases buyers.len() - i,
        {
            if buyers[i].1.total_in > config.in_raised {
                assert(buyers@[i as int].1.total_in > config.in_raised);
                return None;
            }
            i += 1;
        }
        Some(
            AzTokenSaleToAirdrop {
                admin: config.admin,
                airdrop_smart_contract: config.airdrop_smart_contract,
                in_unit: config.in_unit,
                out_unit: config.out_unit,
                start: config.start,
                end: config.end,
                buyers,
                whitelist_duration: config.whitelist_duration,
                in_target: config.in_target,
                in_raised: config.in_raised,
            },
        )
    }

    /// The buyers' records as they stand, in the order in which they were
    /// first seen.
    pub fn buyers(&self) -> (records: Vec<(AccountId, Buyer)>)
        ensures
            records@ == self@.buyers,
    {
        copy_records(&self.buyers)
    }

    /// The sale's settings and progress as they stand.
    pub fn config(&self) -> (c: Config)
        ensures
            c == self@.config,
    {
        Config {
            admin: self.admin,
            airdrop_smart_contract: self.airdrop_smart_contract,
            in_unit: self.in_unit,
            out_unit: self.out_unit,
            start: self.start,
            end: self.end,
            whitelist_duration: self.whitelist_duration,
            in_target: self.in_target,
            in_raised: self.in_raised,
        }
    }

    /// The record of `address`, or that of someone who has paid nothing and
    /// is not whitelisted.
    pub fn show(&self, address: AccountId) -> (buyer: Buyer)
        requires
            self.wf(),
        ensures
            buyer == self@.buyer(address),
    {
        match find(&self.buyers, address) {
            Some(i) => self.buyers[i].1,
            None => Buyer { total_in: 0, whitelisted: false },
        }
    }

    /// Accepts exactly when the identity received is the one allowed.
    pub fn authorise(allowed: AccountId, received: AccountId) -> (r: Result<
        (),
        AzTokenSaleToAirdropError,
    >)
        ensures
            allowed == received ==> r is Ok,
            allowed != received ==> r matches Err(AzTokenSaleToAirdropError::Unauthorised),
    {
        if allowed != received {
            return Err(AzTokenSaleToAirdropError::Unauthorised);
        }
        Ok(())
    }

    /// Turns the host's answer to a transfer of native currency into the
    /// sale's own: any failure is reported as a balance that does not
    /// suffice.
    pub fn transfer_azero(outcome: Result<(), ink::env::Error>) -> (r: Result<
        (),
        AzTokenSaleToAirdropError,
    >)
        ensures
            outcome is Ok ==> r is Ok,
            outcome is Err ==> (r matches Err(e) && e.is_unprocessable(
                "Insufficient AZERO balance"@,
            )),
    {
        if outcome.is_err() {
            return Err(AzTokenSaleToAirdropError::unprocessable("Insufficient AZERO balance"));
        }
        Ok(())
    }

    /// What a purchase by `caller` at `now` with a payment of `value` comes
    /// to, or why it is declined.
    pub fn purchase(&self, caller: AccountId, now: Timestamp, value: Balance) -> (r: Result<
        Purchase,
        AzTokenSaleToAirdropError,
    >)
        requires
            self.wf(),
        ensures
            match self@.purchase_refusal(caller, now, value) {
                Some(why) => r matches Err(e) && e.reports(why),
                None => r == Ok::<Purchase, AzTokenSaleToAirdropError>(self@.priced(value)),
            },
            r matches Ok(p) ==> p.in_amount > 0 && p.refund + p.in_amount == value
                && self@.config.in_raised + p.in_amount <= self@.config.in_target,
    {
        if now < self.start {
            return Err(AzTokenSaleToAirdropError::unprocessable("Sale has not started"));
        }
        if now > self.end {
            return Err(AzTokenSaleToAirdropError::unprocessable("Sale has ended"));
        }
        let buyer: Buyer = self.show(caller);
        if self.whitelist_duration > 0 && now < self.start + self.whitelist_duration {
            if !buyer.whitelisted {
                return Err(
                    AzTokenSaleToAirdropError::unprocessable(
                        "Sale is currently only available to whitelisted addresses",
                    ),
                );
            }
        }
        if value == 0 || value % self.in_unit > 0 {
            return Err(
                AzTokenSaleToAirdropError::unprocessable(
                    "In amount must be in multiples of in_unit",
                ),
            );
        }
        if self.in_raised == self.in_target {
            return Err(AzTokenSaleToAirdropError::unprocessable("Sold out"));
        }
        let max_in_amount: Balance = self.in_target - self.in_raised;
        let mut in_amount: Balance = value;
        let mut refund: Balance = 0;
        if in_amount > max_in_amount {
            refund = in_amount - max_in_amount;
            in_amount = max_in_amount;
        }
        match checked_mul_div(in_amount, self.out_unit, self.in_unit) {
            None => Err(AzTokenSaleToAirdropError::unprocessable("Out amount exceeds limit")),
            Some(out_amount) => Ok(Purchase { refund, in_amount, out_amount }),
        }
    }

    /// Books a purchase by `caller` at `now` with a payment of `value`,
    /// given how its settlement went (the refund, the allocation on the
    /// vesting ledger and the payout to the admin): after a settlement that
    /// succeeded, the accepted part is added to what was raised and to what
    /// the caller paid in, and returned with the amount allocated; a
    /// settlement that failed is reported as it is; declined calls change
    /// nothing.
    pub fn buy(
        &mut self,
        caller: AccountId,
        now: Timestamp,
        value: Balance,
        settled: Result<(), AzTokenSaleToAirdropError>,
    ) -> (r: Result<(Balance, Balance), AzTokenSaleToAirdropError>)
        requires
            old(self).wf(),
        ensures
            final(self).wf(),
            match old(self)@.purchase_refusal(caller, now, value) {
                Some(why) => r matches Err(e) && e.reports(why) && final(self)@ == old(self)@,
                None => match settled {
                    Err(failure) => r == Err::<(Balance, Balance), AzTokenSaleToAirdropError>(
                        failure,
                    ) && final(self)@ == old(self)@,
                    Ok(_) => r == Ok::<(Balance, Balance), AzTokenSaleToAirdropError>(
                        (old(self)@.priced(value).in_amount, old(self)@.priced(value).out_amount),
                    ) && final(self)@ == old(self)@.after_buy(caller, value),
                },
            },
            r is Ok ==> final(self)@.buyer(caller) == (Buyer {
                total_in: (old(self)@.buyer(caller).total_in + old(self)@.accepted(value)) as u128,
                ..old(self)@.buyer(caller)
            }),
            forall|other: AccountId|
                other != caller ==> #[trigger] final(self)@.buyer(other) == old(self)@.buyer(other),
    {
        let purchase: Purchase = match self.purchase(caller, now, value) {
            Err(e) => {
                return Err(e);
            },
            Ok(purchase) => purchase,
        };
        match settled {
            Err(failure) => {
                return Err(failure);
            },
            Ok(_) => {},
        }
        let found = find(&self.buyers, caller);
        let prior: Buyer = self.show(caller);
        proof {
            if found is Some {
                assert(self@.buyers[found.unwrap() as int].1.total_in <= self@.config.in_raised);
            }
        }
        let buyer = Buyer { total_in: prior.total_in + purchase.in_amount, ..prior };
        proof {
            lemma_put_distinct(self@.buyers, caller, buyer);
        }
        store(&mut self.buyers, found, caller, buyer);
        self.in_raised = self.in_raised + purchase.in_amount;
        Ok((purchase.in_amount, purchase.out_amount))
    }

    /// Puts `address` on the whitelist and returns its record. Declined
    /// calls change nothing.
    pub fn whitelist_add(&mut self, caller: AccountId, address: AccountId) -> (r: Result<
        Buyer,
        AzTokenSaleToAirdropError,
    >)
        requires
            old(self).wf(),
        ensures
            final(self).wf(),
            match old(self)@.whitelist_refusal(caller, address, true) {
                Some(why) => r matches Err(e) && e.reports(why) && final(self)@ == old(self)@,
                None => r == Ok::<Buyer, AzTokenSaleToAirdropError>(
                    Buyer { whitelisted: true, ..old(self)@.buyer(address) },
                ) && final(self)@ == old(self)@.with_whitelisted(address, true),
            },
            r is Ok ==> final(self)@.buyer(address).whitelisted,
            forall|other: AccountId|
                other != address ==> #[trigger] final(self)@.buyer(other) == old(self)@.buyer(other),
    {
        self.whitelist_set(caller, address, true)
    }

    /// Takes `address` off the whitelist and returns its record. Declined
    /// calls change nothing.
    pub fn whitelist_remove(&mut self, caller: AccountId, address: AccountId) -> (r: Result<
        Buyer,
        AzTokenSaleToAirdropError,
    >)
        requires
            old(self).wf(),
        ensures
            final(self).wf(),
            match old(self)@.whitelist_refusal(caller, address, false) {
                Some(why) => r matches Err(e) && e.reports(why) && final(self)@ == old(self)@,
                None => r == Ok::<Buyer, AzTokenSaleToAirdropError>(
                    Buyer { whitelisted: false, ..old(self)@.buyer(address) },
                ) && final(self)@ == old(self)@.with_whitelisted(address, false),
            },
            r is Ok ==> !final(self)@.buyer(address).whitelisted,
            forall|other: AccountId|
                other != address ==> #[trigger] final(self)@.buyer(other) == old(self)@.buyer(other),
    {
        self.whitelist_set(caller, address, false)
    }

    /// Puts `address` on the whitelist or takes it off, as `listed` says.
    fn whitelist_set(&mut self, caller: AccountId, address: AccountId, listed: bool) -> (r: Result<
        Buyer,
        AzTokenSaleToAirdropError,
    >)
        requires
            old(self).wf(),
        ensures
            final(self).wf(),
            match old(self)@.whitelist_refusal(caller, address, listed) {
                Some(why) => r matches Err(e) && e.reports(why) && final(self)@ == old(self)@,
                None => r == Ok::<Buyer, AzTokenSaleToAirdropError>(
                    Buyer { whitelisted: listed, ..old(self)@.buyer(address) },
                ) && final(self)@ == old(self)@.with_whitelisted(address, listed),
            },
            r is Ok ==> final(self)@.buyer(address).whitelisted == listed,
            forall|other: AccountId|
                other != address ==> #[trigger] final(self)@.buyer(other) == old(self)@.buyer(other),
    {
        match Self::authorise(caller, self.admin) {
            Err(e) => {
                return Err(e);
            },
            Ok(()) => {},
        }
        let found = find(&self.buyers, address);
        let prior: Buyer = self.show(address);
        if prior.whitelisted == listed {
            if listed {
                return Err(AzTokenSaleToAirdropError::unprocessable("Already on whitelist"));
            } else {
                return Err(AzTokenSaleToAirdropError::unprocessable("Not on whitelist"));
            }
        }
        proof {
            if found is Some {
                assert(self@.buyers[found.unwrap() as int].1.total_in <= self@.config.in_raised);
            }
        }
        let buyer = Buyer { whitelisted: listed, ..prior };
        proof {
            lemma_put_distinct(self@.buyers, address, buyer);
        }
        store(&mut self.buyers, found, address, buyer);
        Ok(buyer)
    }
}

} // verus!
