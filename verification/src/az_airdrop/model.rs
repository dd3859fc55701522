//! The ledger as a mathematical value: who is owed what, who may change it,
//! and what each call does to it or why it is declined.

use crate::az_airdrop::errors::{AzAirdropError, PSP22Error, Refusal};
use crate::az_airdrop::outstanding::{
    all_fit, all_sound, all_within_rules, total_outstanding, Records,
};
use crate::az_airdrop::recipient::Recipient;
use crate::az_airdrop::schedule::{schedule_fault, schedule_valid};
use crate::primitives::{AccountId, Balance, Timestamp};
use crate::registry::{distinct, put, record_of};
use std::string::String;
use vstd::prelude::*;

verus! {

/// Announces that an amount was added to a recipient's entitlement.
#[derive(Debug, PartialEq, Eq)]
pub struct AddToRecipient {
    pub address: AccountId,
    pub amount: Balance,
    pub description: Option<String>,
}

/// Announces that an amount was taken off a recipient's entitlement.
#[derive(Debug, PartialEq, Eq)]
pub struct SubtractFromRecipient {
    pub address: AccountId,
    pub amount: Balance,
    pub description: Option<String>,
}

/// An order to send tokens out of custody.
#[derive(Clone, Copy, Debug, PartialEq, Eq)]
pub struct TokenTransfer {
    pub token: AccountId,
    pub to: AccountId,
    pub amount: Balance,
}

/// An order to pull tokens into custody.
#[derive(Clone, Copy, Debug, PartialEq, Eq)]
pub struct TokenTransferFrom {
    pub token: AccountId,
    pub from: AccountId,
    pub amount: Balance,
}

/// A snapshot of the ledger's settings.
#[derive(Debug, Clone)]
pub struct Config {
    pub admin: AccountId,
    pub sub_admins: Vec<AccountId>,
    pub token: AccountId,
    pub to_be_collected: Balance,
    pub start: Timestamp,
    pub default_collectable_at_tge_percentage: u8,
    pub default_cliff_duration: Timestamp,
    pub default_vesting_duration: Timestamp,
}

/// The ledger as a mathematical value.
pub struct Ledger {
    /// The identity with full authority.
    pub admin: AccountId,
    /// The identities that may change recipients' records, in the order in
    /// which they were added.
    pub sub_admins: Seq<AccountId>,
    /// The token that the ledger accounts against.
    pub token: AccountId,
    /// The running total of what is promised and not yet withdrawn.
    pub to_be_collected: Balance,
    /// When distribution starts.
    pub start: Timestamp,
    /// The recipients' records.
    pub recipients: Records,
    /// The schedule of a recipient who is given none.
    pub default_collectable_at_tge_percentage: u8,
    pub default_cliff_duration: Timestamp,
    pub default_vesting_duration: Timestamp,
}

impl Ledger {
    /// `who` is one of the sub-admins.
    pub open spec fn is_sub_admin(self, who: AccountId) -> bool {
        self.sub_admins.contains(who)
    }

    /// `who` may change recipients' records: the admin and the sub-admins.
    pub open spec fn may_update_recipients(self, who: AccountId) -> bool {
        who == self.admin || self.is_sub_admin(who)
    }

    /// The record that an allocation to `address` builds on: its own, or an
    /// empty one with the default schedule.
    pub open spec fn record_or_default(self, address: AccountId) -> Recipient {
        match record_of(self.recipients, address) {
            Some(recipient) => recipient,
            None => Recipient {
                total_amount: 0,
                collected: 0,
                collectable_at_tge_percentage: self.default_collectable_at_tge_percentage,
                cliff_duration: self.default_cliff_duration,
                vesting_duration: self.default_vesting_duration,
            },
        }
    }

    /// Every record's schedule, begun at `start`, ends at a representable
    /// point in time.
    pub open spec fn fits(self, start: Timestamp) -> bool {
        all_fit(self.recipients, start)
    }

    /// Every record's schedule ends at a representable point in time.
    pub open spec fn schedules_fit(self) -> bool {
        self.fits(self.start)
    }

    /// The ledger's own validity: one record per recipient, no sub-admin
    /// listed twice, no record with more collected than allocated, every
    /// record's schedule within the rules and ending at a representable
    /// point in time, and the default schedule valid for the start.
    pub open spec fn wf(self) -> bool {
        &&& distinct(self.recipients)
        &&& self.sub_admins.no_duplicates()
        &&& all_sound(self.recipients)
        &&& all_within_rules(self.recipients)
        &&& self.schedules_fit()
        &&& schedule_valid(
            self.start,
            self.default_collectable_at_tge_percentage,
            self.default_cliff_duration,
            self.default_vesting_duration,
        )
    }

    /// Conservation: the running total equals the sum of what the records
    /// still owe.
    pub open spec fn conserved(self) -> bool {
        self.to_be_collected == total_outstanding(self.recipients)
    }

    /// The ledger that has the given settings and records.
    pub open spec fn of_parts(config: Config, recipients: Records) -> Ledger {
        Ledger {
            admin: config.admin,
            sub_admins: config.sub_admins@,
            token: config.token,
            to_be_collected: config.to_be_collected,
            start: config.start,
            recipients,
            default_collectable_at_tge_percentage: config.default_collectable_at_tge_percentage,
            default_cliff_duration: config.default_cliff_duration,
            default_vesting_duration: config.default_vesting_duration,
        }
    }

    /// `answer` is what a query for the record of `address` returns: the
    /// record, or the report that no recipient is recorded under it.
    pub open spec fn shows(self, address: AccountId, answer: Result<Recipient, AzAirdropError>) -> bool {
        match record_of(self.recipients, address) {
            Some(recipient) => answer == Ok::<Recipient, AzAirdropError>(recipient),
            None => answer matches Err(e) && e.is_not_found("Recipient"@),
        }
    }

    /// `snapshot` is what a query for the settings returns.
    pub open spec fn configured(self, snapshot: Config) -> bool {
        &&& snapshot.admin == self.admin
        &&& snapshot.sub_admins@ == self.sub_admins
        &&& snapshot.token == self.token
        &&& snapshot.to_be_collected == self.to_be_collected
        &&& snapshot.start == self.start
        &&& snapshot.default_collectable_at_tge_percentage
            == self.default_collectable_at_tge_percentage
        &&& snapshot.default_cliff_duration == self.default_cliff_duration
        &&& snapshot.default_vesting_duration == self.default_vesting_duration
    }

    /// Asking twice for a record of the same ledger gives the same answer:
    /// the same record, or twice the same report.
    pub proof fn lemma_show_repeatable(
        self,
        address: AccountId,
        first: Result<Recipient, AzAirdropError>,
        second: Result<Recipient, AzAirdropError>,
    )
        requires
            self.shows(address, first),
            self.shows(address, second),
        ensures
            first is Ok <==> second is Ok,
            first is Ok ==> first == second,
            first is Err ==> first->Err_0.is_not_found("Recipient"@)
                && second->Err_0.is_not_found("Recipient"@),
    {
    }

    /// Asking twice for the settings of the same ledger gives snapshots that
    /// agree in every part.
    pub proof fn lemma_config_repeatable(self, first: Config, second: Config)
        requires
            self.configured(first),
            self.configured(second),
        ensures
            first.admin == second.admin,
            first.sub_admins@ == second.sub_admins@,
            first.token == second.token,
            first.to_be_collected == second.to_be_collected,
            first.start == second.start,
            first.default_collectable_at_tge_percentage
                == second.default_collectable_at_tge_percentage,
            first.default_cliff_duration == second.default_cliff_duration,
            first.default_vesting_duration == second.default_vesting_duration,
    {
    }

    /// Why a call that changes a recipient's record is declined on entry:
    /// the caller is neither admin nor sub-admin, or distribution has
    /// started.
    pub open spec fn update_refusal(self, caller: AccountId, now: Timestamp) -> Option<Refusal> {
        if !self.may_update_recipients(caller) {
            Some(Refusal::Unauthorised)
        } else if now >= self.start {
            Some(Refusal::Unprocessable("Airdrop has started"@))
        } else {
            None
        }
    }

    /// Why an allocation is declined: on entry; because the running total
    /// would leave the amount domain; because it would exceed the custody
    /// balance; or because the recipient's total would leave the amount
    /// domain.
    pub open spec fn add_refusal(
        self,
        caller: AccountId,
        now: Timestamp,
        balance: Balance,
        address: AccountId,
        amount: Balance,
    ) -> Option<Refusal> {
        if self.update_refusal(caller, now) is Some {
            self.update_refusal(caller, now)
        } else if amount + self.to_be_collected > u128::MAX {
            Some(Refusal::Unprocessable("Amount will cause to_be_collected to overflow"@))
        } else if amount + self.to_be_collected > balance {
            Some(Refusal::Unprocessable("Insufficient balance"@))
        } else if self.record_or_default(address).total_amount + amount > u128::MAX {
            Some(Refusal::Unprocessable("Amount will cause total_amount to overflow"@))
        } else {
            None
        }
    }

    /// The record of `address` after `amount` is allocated to it.
    pub open spec fn added(self, address: AccountId, amount: Balance) -> Recipient {
        let prior = self.record_or_default(address);
        Recipient { total_amount: (prior.total_amount + amount) as u128, ..prior }
    }

    /// The ledger after `amount` is allocated to `address`.
    pub open spec fn after_add(self, address: AccountId, amount: Balance) -> Ledger {
        Ledger {
            to_be_collected: (self.to_be_collected + amount) as u128,
            recipients: put(self.recipients, address, self.added(address, amount)),
            ..self
        }
    }

    /// Why a deallocation is declined: on entry; because the address has
    /// no record; because the amount exceeds the record's total; or because
    /// it exceeds what the record still owes, so that less would stay
    /// allocated than was already collected.
    pub open spec fn subtract_refusal(
        self,
        caller: AccountId,
        now: Timestamp,
        address: AccountId,
        amount: Balance,
    ) -> Option<Refusal> {
        if self.update_refusal(caller, now) is Some {
            self.update_refusal(caller, now)
        } else {
            match record_of(self.recipients, address) {
                None => Some(Refusal::NotFound("Recipient"@)),
                Some(recipient) => if amount > recipient.total_amount {
                    Some(
                        Refusal::Unprocessable(
                            "Amount is greater than recipient's total amount"@,
                        ),
                    )
                } else if amount > recipient.total_amount - recipient.collected {
                    Some(
                        Refusal::Unprocessable(
                            "Amount is greater than recipient's uncollected amount"@,
                        ),
                    )
                } else {
                    None
                },
            }
        }
    }

    /// The record of `address` after `amount` is taken off it.
    pub open spec fn subtracted(self, address: AccountId, amount: Balance) -> Recipient {
        let prior = record_of(self.recipients, address).unwrap();
        Recipient { total_amount: (prior.total_amount - amount) as u128, ..prior }
    }

    /// The ledger after `amount` is taken off `address`; the running total
    /// stops at zero.
    pub open spec fn after_subtract(self, address: AccountId, amount: Balance) -> Ledger {
        Ledger {
            to_be_collected: if self.to_be_collected >= amount {
                (self.to_be_collected - amount) as u128
            } else {
                0
            },
            recipients: put(self.recipients, address, self.subtracted(address, amount)),
            ..self
        }
    }

    /// The record of `address` with the given parts of its schedule replaced.
    pub open spec fn rescheduled(
        self,
        address: AccountId,
        collectable_at_tge_percentage: Option<u8>,
        cliff_duration: Option<Timestamp>,
        vesting_duration: Option<Timestamp>,
    ) -> Recipient {
        let prior = record_of(self.recipients, address).unwrap();
        Recipient {
            collectable_at_tge_percentage: match collectable_at_tge_percentage {
                Some(p) => p,
                None => prior.collectable_at_tge_percentage,
            },
            cliff_duration: match cliff_duration {
                Some(c) => c,
                None => prior.cliff_duration,
            },
            vesting_duration: match vesting_duration {
                Some(v) => v,
                None => prior.vesting_duration,
            },
            ..prior
        }
    }

    /// Why a change of schedule is declined: on entry; because the address
    /// has no record; or for the first rule that the resulting schedule
    /// breaks.
    pub open spec fn reschedule_refusal(
        self,
        caller: AccountId,
        now: Timestamp,
        address: AccountId,
        collectable_at_tge_percentage: Option<u8>,
        cliff_duration: Option<Timestamp>,
        vesting_duration: Option<Timestamp>,
    ) -> Option<Refusal> {
        if self.update_refusal(caller, now) is Some {
            self.update_refusal(caller, now)
        } else if record_of(self.recipients, address) is None {
            Some(Refusal::NotFound("Recipient"@))
        } else {
            let next = self.rescheduled(
                address,
                collectable_at_tge_percentage,
                cliff_duration,
                vesting_duration,
            );
            schedule_fault(
                self.start,
                next.collectable_at_tge_percentage,
                next.cliff_duration,
                next.vesting_duration,
            )
        }
    }

    /// The ledger with the given settings replaced.
    pub open spec fn reconfigured(
        self,
        admin: Option<AccountId>,
        start: Option<Timestamp>,
        default_collectable_at_tge_percentage: Option<u8>,
        default_cliff_duration: Option<Timestamp>,
        default_vesting_duration: Option<Timestamp>,
    ) -> Ledger {
        Ledger {
            admin: match admin {
                Some(a) => a,
                None => self.admin,
            },
            start: match start {
                Some(s) => s,
                None => self.start,
            },
            default_collectable_at_tge_percentage: match default_collectable_at_tge_percentage {
                Some(p) => p,
                None => self.default_collectable_at_tge_percentage,
            },
            default_cliff_duration: match default_cliff_duration {
                Some(c) => c,
                None => self.default_cliff_duration,
            },
            default_vesting_duration: match default_vesting_duration {
                Some(v) => v,
                None => self.default_vesting_duration,
            },
            ..self
        }
    }

    /// Why a change of settings is declined: the caller is not the admin; a
    /// new start is not in the future; a new start is given while something
    /// is promised; for the first rule that the resulting default schedule
    /// breaks against the resulting start; or because some record's schedule,
    /// begun at the resulting start, would end beyond the last representable
    /// point in time.
    pub open spec fn reconfigure_refusal(
        self,
        caller: AccountId,
        now: Timestamp,
        admin: Option<AccountId>,
        start: Option<Timestamp>,
        default_collectable_at_tge_percentage: Option<u8>,
        default_cliff_duration: Option<Timestamp>,
        default_vesting_duration: Option<Timestamp>,
    ) -> Option<Refusal> {
        if caller != self.admin {
            Some(Refusal::Unauthorised)
        } else if start is Some && start.unwrap() <= now {
            Some(Refusal::Unprocessable("New start time must be in the future"@))
        } else if start is Some && self.to_be_collected != 0 {
            Some(
                Refusal::Unprocessable(
                    "to_be_collected must be zero when changing start time"@,
                ),
            )
        } else {
            let next = self.reconfigured(
                admin,
                start,
                default_collectable_at_tge_percentage,
                default_cliff_duration,
                default_vesting_duration,
            );
            let fault = schedule_fault(
                next.start,
                next.default_collectable_at_tge_percentage,
                next.default_cliff_duration,
                next.default_vesting_duration,
            );
            if fault is Some {
                fault
            } else if !self.fits(next.start) {
                Some(
                    Refusal::Unprocessable(
                        "Combination of start, cliff_duration and vesting_duration exceeds limit"@,
                    ),
                )
            } else {
                None
            }
        }
    }

    /// Why a withdrawal is not ordered: the caller has no record, or nothing
    /// can be withdrawn at `now`.
    pub open spec fn collect_transfer_refusal(self, caller: AccountId, now: Timestamp) -> Option<
        Refusal,
    > {
        match record_of(self.recipients, caller) {
            None => Some(Refusal::NotFound("Recipient"@)),
            Some(recipient) => if recipient.collectable(self.start, now) == 0 {
                Some(Refusal::Unprocessable("Amount is zero"@))
            } else {
                None
            },
        }
    }

    /// Why a withdrawal is declined: it is not ordered, or the custody token
    /// declined the transfer.
    pub open spec fn collect_refusal(
        self,
        caller: AccountId,
        now: Timestamp,
        transferred: Result<(), PSP22Error>,
    ) -> Option<Refusal> {
        if self.collect_transfer_refusal(caller, now) is Some {
            self.collect_transfer_refusal(caller, now)
        } else {
            match transferred {
                Err(e) => Some(Refusal::Token(e)),
                Ok(_) => None,
            }
        }
    }

    /// What `caller` can withdraw at `now`.
    pub open spec fn due(self, caller: AccountId, now: Timestamp) -> nat {
        record_of(self.recipients, caller).unwrap().collectable(self.start, now)
    }

    /// The record of `caller` after withdrawing what is due at `now`.
    pub open spec fn collected(self, caller: AccountId, now: Timestamp) -> Recipient {
        let prior = record_of(self.recipients, caller).unwrap();
        Recipient { collected: (prior.collected + self.due(caller, now)) as u128, ..prior }
    }

    /// The ledger after `caller` withdraws what is due at `now`; the running
    /// total stops at zero.
    pub open spec fn after_collect(self, caller: AccountId, now: Timestamp) -> Ledger {
        Ledger {
            to_be_collected: if self.to_be_collected >= self.due(caller, now) {
                (self.to_be_collected - self.due(caller, now)) as u128
            } else {
                0
            },
            recipients: put(self.recipients, caller, self.collected(caller, now)),
            ..self
        }
    }

    /// What a custody balance of `balance` holds beyond what is promised.
    pub open spec fn spare(self, balance: Balance) -> nat {
        if balance >= self.to_be_collected {
            (balance - self.to_be_collected) as nat
        } else {
            0
        }
    }

    /// Why a reclaim is declined: the caller is not the admin, or nothing is
    /// spare.
    pub open spec fn reclaim_refusal(self, caller: AccountId, balance: Balance) -> Option<Refusal> {
        if caller != self.admin {
            Some(Refusal::Unauthorised)
        } else if self.spare(balance) == 0 {
            Some(Refusal::Unprocessable("Amount is zero"@))
        } else {
            None
        }
    }

    /// Why funding is declined: the caller is not the admin, or distribution
    /// has started.
    pub open spec fn acquire_refusal(self, caller: AccountId, now: Timestamp) -> Option<Refusal> {
        if caller != self.admin {
            Some(Refusal::Unauthorised)
        } else if now >= self.start {
            Some(Refusal::Unprocessable("Airdrop has started"@))
        } else {
            None
        }
    }

    /// Why a sub-admin is not added: the caller is not the admin, or the
    /// address is one already.
    pub open spec fn sub_admins_add_refusal(self, caller: AccountId, address: AccountId) -> Option<
        Refusal,
    > {
        if caller != self.admin {
            Some(Refusal::Unauthorised)
        } else if self.is_sub_admin(address) {
            Some(Refusal::Unprocessable("Already a sub admin"@))
        } else {
            None
        }
    }

    /// Why a sub-admin is not removed: the caller is not the admin, or the
    /// address is none.
    pub open spec fn sub_admins_remove_refusal(
        self,
        caller: AccountId,
        address: AccountId,
    ) -> Option<Refusal> {
        if caller != self.admin {
            Some(Refusal::Unauthorised)
        } else if !self.is_sub_admin(address) {
            Some(Refusal::Unprocessable("Not a sub admin"@))
        } else {
            None
        }
    }
}

} // verus!
