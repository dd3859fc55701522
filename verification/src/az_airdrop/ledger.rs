//! The ledger in memory, and the calls that read and change it.

use crate::az_airdrop::errors::{AzAirdropError, PSP22Error};
use crate::az_airdrop::model::{
    AddToRecipient, Config, Ledger, SubtractFromRecipient, TokenTransfer, TokenTransferFrom,
};
use crate::az_airdrop::outstanding::{
    fit_behind, lemma_outstanding_covers, lemma_put, sound_and_within_rules,
};
use crate::az_airdrop::recipient::Recipient;
use crate::az_airdrop::schedule::{schedule_fault, schedule_valid};
use crate::primitives::{AccountId, Balance, Timestamp};
use crate::registry::{
    copy_accounts, copy_records, find, has_no_duplicates, is_distinct, put, record_of, store,
};
use std::string::String;
use vstd::prelude::*;

verus! {

/// The vesting ledger.
pub struct AzAirdrop {
    admin: AccountId,
    sub_admins: Vec<AccountId>,
    token: AccountId,
    to_be_collected: Balance,
    start: Timestamp,
    recipients: Vec<(AccountId, Recipient)>,
    default_collectable_at_tge_percentage: u8,
    default_cliff_duration: Timestamp,
    default_vesting_duration: Timestamp,
}

impl View for AzAirdrop {
    type V = Ledger;

    closed spec fn view(&self) -> Ledger {
        Ledger {
            admin: self.admin,
            sub_admins: self.sub_admins@,
            token: self.token,
            to_be_collected: self.to_be_collected,
            start: self.start,
            recipients: self.recipients@,
            default_collectable_at_tge_percentage: self.default_collectable_at_tge_percentage,
            default_cliff_duration: self.default_cliff_duration,
            default_vesting_duration: self.default_vesting_duration,
        }
    }
}

impl AzAirdrop {
    /// The ledger is valid.
    pub open spec fn wf(&self) -> bool {
        self@.wf()
    }

    /// A ledger with `caller` as admin, no sub-admins, no records and nothing
    /// promised, if the default schedule is valid for the start; else the
    /// refusal for the first rule that the schedule breaks.
    pub fn new(
        caller: AccountId,
        token: AccountId,
        start: Timestamp,
        default_collectable_at_tge_percentage: u8,
        default_cliff_duration: Timestamp,
        default_vesting_duration: Timestamp,
    ) -> (r: Result<AzAirdrop, AzAirdropError>)
        ensures
            match schedule_fault(
                start,
                default_collectable_at_tge_percentage,
                default_cliff_duration,
                default_vesting_duration,
            ) {
                Some(why) => r matches Err(e) && e.reports(why),
                None => r matches Ok(ledger) && ledger.wf() && ledger@.conserved() && ledger@ == (
                Ledger {
                    admin: caller,
                    sub_admins: Seq::empty(),
                    token,
                    to_be_collected: 0,
                    start,
                    recipients: Seq::empty(),
                    default_collectable_at_tge_percentage,
                    default_cliff_duration,
                    default_vesting_duration,
                }),
            },
    {
        match Self::validate_airdrop_calculation_variables(
            start,
            default_collectable_at_tge_percentage,
            default_cliff_duration,
            default_vesting_duration,
        ) {
            Err(e) => Err(e),
            Ok(()) => Ok(
                AzAirdrop {
                    admin: caller,
                    sub_admins: Vec::new(),
                    token,
                    to_be_collected: 0,
                    start,
                    recipients: Vec::new(),
                    default_collectable_at_tge_percentage,
                    default_cliff_duration,
                    default_vesting_duration,
                },
            ),
        }
    }

    /// The ledger with the given settings and records, if that is a valid
    /// ledger: what was taken apart with `config` and `recipients` is put
    /// together again.
    pub fn from_parts(config: Config, recipients: Vec<(AccountId, Recipient)>) -> (r: Option<
        AzAirdrop,
    >)
        ensures
            match r {
                Some(ledger) => ledger.wf() && ledger@.configured(config) && ledger@.recipients
                    == recipients@,
                None => !Ledger::of_parts(config, recipients@).wf(),
            },
    {
        if !is_distinct(&recipients) || !has_no_duplicates(&config.sub_admins) {
            return None;
        }
        if !sound_and_within_rules(&recipients) || !fit_behind(&recipients, config.start) {
            return None;
        }
        if Self::validate_airdrop_calculation_variables(
            config.start,
            config.default_collectable_at_tge_percentage,
            config.default_cliff_duration,
            config.default_vesting_duration,
        ).is_err() {
            return None;
        }
        Some(
            AzAirdrop {
                admin: config.admin,
                sub_admins: config.sub_admins,
                token: config.token,
                to_be_collected: config.to_be_collected,
                start: config.start,
                recipients,
                default_collectable_at_tge_percentage: config.default_collectable_at_tge_percentage,
                default_cliff_duration: config.default_cliff_duration,
                default_vesting_duration: config.default_vesting_duration,
            },
        )
    }

    /// The records as they stand, in the order of first allocation.
    pub fn recipients(&self) -> (records: Vec<(AccountId, Recipient)>)
        ensures
            records@ == self@.recipients,
    {
        copy_records(&self.recipients)
    }

    /// Accepts a schedule exactly when it is valid for `start`, and refuses
    /// it for the first rule that it breaks.
    pub fn validate_airdrop_calculation_variables(
        start: Timestamp,
        collectable_at_tge_percentage: u8,
        cliff_duration: Timestamp,
        vesting_duration: Timestamp,
    ) -> (r: Result<(), AzAirdropError>)
        ensures
            r is Ok <==> schedule_valid(
                start,
                collectable_at_tge_percentage,
                cliff_duration,
                vesting_duration,
            ),
            match schedule_fault(
                start,
                collectable_at_tge_percentage,
                cliff_duration,
                vesting_duration,
            ) {
                Some(why) => r matches Err(e) && e.reports(why),
                None => r is Ok,
            },
    {
        if collectable_at_tge_percentage > 100 {
            return Err(
                AzAirdropError::unprocessable(
                    "collectable_at_tge_percentage must be less than or equal to 100",
                ),
            );
        } else if collectable_at_tge_percentage == 100 {
            if cliff_duration > 0 || vesting_duration > 0 {
                return Err(
                    AzAirdropError::unprocessable(
                        "cliff_duration and vesting_duration must be 0 when collectable_tge_percentage is 100",
                    ),
                );
            }
        } else if vesting_duration == 0 {
            return Err(
                AzAirdropError::unprocessable(
                    "vesting_duration must be greater than 0 when collectable_tge_percentage is not 100",
                ),
            );
        }
        let end_timestamp: u128 = start as u128 + cliff_duration as u128 + vesting_duration as u128;
        if end_timestamp > u64::MAX as u128 {
            return Err(
                AzAirdropError::unprocessable(
                    "Combination of start, cliff_duration and vesting_duration exceeds limit",
                ),
            );
        }
        Ok(())
    }

    /// Accepts exactly when the identity received is the one allowed.
    pub fn authorise(allowed: AccountId, received: AccountId) -> (r: Result<(), AzAirdropError>)
        ensures
            allowed == received ==> r is Ok,
            allowed != received ==> r matches Err(AzAirdropError::Unauthorised),
    {
        if allowed != received {
            return Err(AzAirdropError::Unauthorised);
        }
        Ok(())
    }

    /// Where `who` stands in the list of sub-admins, if it is one.
    fn sub_admin_index(&self, who: AccountId) -> (r: Option<usize>)
        ensures
            match r {
                Some(i) => i < self@.sub_admins.len() && self@.sub_admins[i as int] == who,
                None => !self@.is_sub_admin(who),
            },
    {
        let mut i: usize = 0;
        while i < self.sub_admins.len()
            invariant
                i <= self.sub_admins.len(),
                forall|j: int| 0 <= j < i ==> self.sub_admins@[j] != who,
            decreases self.sub_admins.len() - i,
        {
            if self.sub_admins[i] == who {
                return Some(i);
            }
            i += 1;
        }
        None
    }

    /// Accepts exactly the admin and the sub-admins.
    pub fn authorise_to_update_recipient(&self, caller: AccountId) -> (r: Result<
        (),
        AzAirdropError,
    >)
        ensures
            self@.may_update_recipients(caller) ==> r is Ok,
            !self@.may_update_recipients(caller) ==> r matches Err(AzAirdropError::Unauthorised),
    {
        if caller == self.admin || self.sub_admin_index(caller).is_some() {
            Ok(())
        } else {
            Err(AzAirdropError::Unauthorised)
        }
    }

    /// Accepts exactly while `now` is before the start of distribution.
    pub fn airdrop_has_not_started(&self, now: Timestamp) -> (r: Result<(), AzAirdropError>)
        ensures
            now < self@.start ==> r is Ok,
            now >= self@.start ==> (r matches Err(e) && e.is_unprocessable("Airdrop has started"@)),
    {
        if now >= self.start {
            return Err(AzAirdropError::unprocessable("Airdrop has started"));
        }
        Ok(())
    }

    /// Both conditions of a call that changes a recipient's record, the caller's
    /// role first.
    fn authorise_update(&self, caller: AccountId, now: Timestamp) -> (r: Result<(), AzAirdropError>)
        ensures
            match self@.update_refusal(caller, now) {
                Some(why) => r matches Err(e) && e.reports(why),
                None => r is Ok,
            },
    {
        match self.authorise_to_update_recipient(caller) {
            Err(e) => Err(e),
            Ok(()) => self.airdrop_has_not_started(now),
        }
    }

    /// The ledger's settings as they stand.
    pub fn config(&self) -> (c: Config)
        ensures
            self@.configured(c),
    {
        Config {
            admin: self.admin,
            sub_admins: copy_accounts(&self.sub_admins),
            token: self.token,
            to_be_collected: self.to_be_collected,
            start: self.start,
            default_collectable_at_tge_percentage: self.default_collectable_at_tge_percentage,
            default_cliff_duration: self.default_cliff_duration,
            default_vesting_duration: self.default_vesting_duration,
        }
    }

    /// The record of `address`, or the report that no recipient is recorded
    /// under it.
    pub fn show(&self, address: AccountId) -> (r: Result<Recipient, AzAirdropError>)
        requires
            self.wf(),
        ensures
            self@.shows(address, r),
    {
        match find(&self.recipients, address) {
            Some(i) => Ok(self.recipients[i].1),
            None => Err(AzAirdropError::not_found("Recipient")),
        }
    }

    /// What `address` could withdraw at `timestamp`, or the report that no
    /// recipient is recorded under it.
    pub fn collectable_amount(&self, address: AccountId, timestamp: Timestamp) -> (r: Result<
        Balance,
        AzAirdropError,
    >)
        requires
            self.wf(),
        ensures
            match record_of(self@.recipients, address) {
                Some(recipient) => r matches Ok(amount) && amount == recipient.collectable(
                    self@.start,
                    timestamp,
                ),
                None => r matches Err(e) && e.is_not_found("Recipient"@),
            },
    {
        match self.show(address) {
            Err(e) => Err(e),
            Ok(recipient) => {
                Ok(recipient.collectable_amount(self.start, timestamp))
            },
        }
    }

    /// Allocates `amount` to `address` against a custody balance of
    /// `balance`: adds it to the recipient's total, on a new record with the
    /// default schedule where the address had none, and to the running
    /// total. Declined calls change nothing. Afterwards the running total is
    /// covered by the balance.
    pub fn add_to_recipient(
        &mut self,
        caller: AccountId,
        now: Timestamp,
        balance: Balance,
        address: AccountId,
        amount: Balance,
        description: Option<String>,
    ) -> (r: Result<(Recipient, AddToRecipient), AzAirdropError>)
        requires
            old(self).wf(),
        ensures
            final(self).wf(),
            match old(self)@.add_refusal(caller, now, balance, address, amount) {
                Some(why) => r matches Err(e) && e.reports(why) && final(self)@ == old(self)@,
                None => r matches Ok(done) && done.0 == old(self)@.added(address, amount)
                    && done.1 == (AddToRecipient { address, amount, description })
                    && final(self)@ == old(self)@.after_add(address, amount),
            },
            r matches Ok(done) ==> record_of(final(self)@.recipients, address) == Some(done.0),
            forall|other: AccountId|
                other != address ==> #[trigger] record_of(final(self)@.recipients, other) == record_of(
                    old(self)@.recipients,
                    other,
                ),
            r is Ok ==> final(self)@.to_be_collected <= balance,
            old(self)@.conserved() ==> final(self)@.conserved(),
    {
        match self.authorise_update(caller, now) {
            Err(e) => {
                return Err(e);
            },
            Ok(()) => {},
        }
        let new_to_be_collected: Balance = match amount.checked_add(self.to_be_collected) {
            Some(sum) => sum,
            None => {
                return Err(
                    AzAirdropError::unprocessable("Amount will cause to_be_collected to overflow"),
                );
            },
        };
        if new_to_be_collected > balance {
            return Err(AzAirdropError::unprocessable("Insufficient balance"));
        }
        let found = find(&self.recipients, address);
        let prior: Recipient = match found {
            Some(i) => self.recipients[i].1,
            None => Recipient {
                total_amount: 0,
                collected: 0,
                collectable_at_tge_percentage: self.default_collectable_at_tge_percentage,
                cliff_duration: self.default_cliff_duration,
                vesting_duration: self.default_vesting_duration,
            },
        };
        let new_total: Balance = match prior.total_amount.checked_add(amount) {
            Some(sum) => sum,
            None => {
                return Err(
                    AzAirdropError::unprocessable("Amount will cause total_amount to overflow"),
                );
            },
        };
        let recipient = Recipient { total_amount: new_total, ..prior };
        proof {
            lemma_put(self@.recipients, address, recipient);
        }
        store(&mut self.recipients, found, address, recipient);
        self.to_be_collected = new_to_be_collected;
        Ok((recipient, AddToRecipient { address, amount, description }))
    }

    /// Takes `amount` off the total of `address` and off the running total,
    /// which stops at zero. No more can be taken off than the record still
    /// owes, so that what was collected stays covered by what is allocated.
    /// Declined calls change nothing.
    pub fn subtract_from_recipient(
        &mut self,
        caller: AccountId,
        now: Timestamp,
        address: AccountId,
        amount: Balance,
        description: Option<String>,
    ) -> (r: Result<(Recipient, SubtractFromRecipient), AzAirdropError>)
        requires
            old(self).wf(),
        ensures
            final(self).wf(),
            match old(self)@.subtract_refusal(caller, now, address, amount) {
                Some(why) => r matches Err(e) && e.reports(why) && final(self)@ == old(self)@,
                None => r matches Ok(done) && done.0 == old(self)@.subtracted(address, amount)
                    && done.1 == (SubtractFromRecipient { address, amount, description })
                    && final(self)@ == old(self)@.after_subtract(address, amount),
            },
            r matches Ok(done) ==> record_of(final(self)@.recipients, address) == Some(done.0),
            forall|other: AccountId|
                other != address ==> #[trigger] record_of(final(self)@.recipients, other) == record_of(
                    old(self)@.recipients,
                    other,
                ),
            r matches Ok(done) ==> done.0.sound(),
            old(self)@.conserved() ==> final(self)@.conserved(),
            r is Ok && old(self)@.conserved() ==> final(self)@.to_be_collected
                == old(self)@.to_be_collected - amount,
    {
        match self.authorise_update(caller, now) {
            Err(e) => {
                return Err(e);
            },
            Ok(()) => {},
        }
        let found = find(&self.recipients, address);
        let i: usize = match found {
            Some(i) => i,
            None => {
                return Err(AzAirdropError::not_found("Recipient"));
            },
        };
        let prior: Recipient = self.recipients[i].1;
        if amount > prior.total_amount {
            return Err(
                AzAirdropError::unprocessable("Amount is greater than recipient's total amount"),
            );
        }
        if amount > prior.total_amount - prior.collected {
            return Err(
                AzAirdropError::unprocessable(
                    "Amount is greater than recipient's uncollected amount",
                ),
            );
        }
        let recipient = Recipient { total_amount: prior.total_amount - amount, ..prior };
        proof {
            lemma_put(self@.recipients, address, recipient);
            if self@.conserved() {
                lemma_outstanding_covers(self@.recipients, i as int);
            }
        }
        store(&mut self.recipients, found, address, recipient);
        self.to_be_collected = self.to_be_collected.saturating_sub(amount);
        Ok((recipient, SubtractFromRecipient { address, amount, description }))
    }

    /// Replaces the given parts of the schedule of `address`, if the
    /// resulting schedule is valid for the start. Declined calls change
    /// nothing.
    pub fn update_recipient(
        &mut self,
        caller: AccountId,
        now: Timestamp,
        address: AccountId,
        collectable_at_tge_percentage: Option<u8>,
        cliff_duration: Option<Timestamp>,
        vesting_duration: Option<Timestamp>,
    ) -> (r: Result<Recipient, AzAirdropError>)
        requires
            old(self).wf(),
        ensures
            final(self).wf(),
            match old(self)@.reschedule_refusal(
                caller,
                now,
                address,
                collectable_at_tge_percentage,
                cliff_duration,
                vesting_duration,
            ) {
                Some(why) => r matches Err(e) && e.reports(why) && final(self)@ == old(self)@,
                None => r matches Ok(recipient) && recipient == old(self)@.rescheduled(
                    address,
                    collectable_at_tge_percentage,
                    cliff_duration,
                    vesting_duration,
                ) && final(self)@ == (Ledger {
                    recipients: put(old(self)@.recipients, address, recipient),
                    ..old(self)@
                }),
            },
            r matches Ok(recipient) ==> record_of(final(self)@.recipients, address) == Some(
                recipient,
            ),
            forall|other: AccountId|
                other != address ==> #[trigger] record_of(final(self)@.recipients, other) == record_of(
                    old(self)@.recipients,
                    other,
                ),
            r matches Ok(recipient) ==> schedule_valid(
                final(self)@.start,
                recipient.collectable_at_tge_percentage,
                recipient.cliff_duration,
                recipient.vesting_duration,
            ),
            old(self)@.conserved() ==> final(self)@.conserved(),
    {
        match self.authorise_update(caller, now) {
            Err(e) => {
                return Err(e);
            },
            Ok(()) => {},
        }
        let found = find(&self.recipients, address);
        let i: usize = match found {
            Some(i) => i,
            None => {
                return Err(AzAirdropError::not_found("Recipient"));
            },
        };
        let mut recipient: Recipient = self.recipients[i].1;
        if let Some(percentage) = collectable_at_tge_percentage {
            recipient.collectable_at_tge_percentage = percentage;
        }
        if let Some(cliff) = cliff_duration {
            recipient.cliff_duration = cliff;
        }
        if let Some(vesting) = vesting_duration {
            recipient.vesting_duration = vesting;
        }
        match Self::validate_airdrop_calculation_variables(
            self.start,
            recipient.collectable_at_tge_percentage,
            recipient.cliff_duration,
            recipient.vesting_duration,
        ) {
            Err(e) => {
                return Err(e);
            },
            Ok(()) => {},
        }
        proof {
            lemma_put(self@.recipients, address, recipient);
        }
        store(&mut self.recipients, found, address, recipient);
        Ok(recipient)
    }

    /// Replaces the given settings, if the caller is the admin, a new start
    /// lies in the future and nothing is promised when it changes, the
    /// resulting default schedule is valid for the resulting start, and
    /// every record's schedule still ends at a representable point in time
    /// when begun at the resulting start. Declined calls change nothing.
    pub fn update_config(
        &mut self,
        caller: AccountId,
        now: Timestamp,
        admin: Option<AccountId>,
        start: Option<Timestamp>,
        default_collectable_at_tge_percentage: Option<u8>,
        default_cliff_duration: Option<Timestamp>,
        default_vesting_duration: Option<Timestamp>,
    ) -> (r: Result<(), AzAirdropError>)
        requires
            old(self).wf(),
        ensures
            final(self).wf(),
            match old(self)@.reconfigure_refusal(
                caller,
                now,
                admin,
                start,
                default_collectable_at_tge_percentage,
                default_cliff_duration,
                default_vesting_duration,
            ) {
                Some(why) => r matches Err(e) && e.reports(why) && final(self)@ == old(self)@,
                None => r is Ok && final(self)@ == old(self)@.reconfigured(
                    admin,
                    start,
                    default_collectable_at_tge_percentage,
                    default_cliff_duration,
                    default_vesting_duration,
                ),
            },
            old(self)@.conserved() ==> final(self)@.conserved(),
            final(self)@.schedules_fit(),
    {
        match Self::authorise(caller, self.admin) {
            Err(e) => {
                return Err(e);
            },
            Ok(()) => {},
        }
        let mut new_start: Timestamp = self.start;
        if let Some(start_unwrapped) = start {
            if start_unwrapped > now {
                if self.to_be_collected == 0 {
                    new_start = start_unwrapped;
                } else {
                    return Err(
                        AzAirdropError::unprocessable(
                            "to_be_collected must be zero when changing start time",
                        ),
                    );
                }
            } else {
                return Err(AzAirdropError::unprocessable("New start time must be in the future"));
            }
        }
        let new_percentage: u8 = match default_collectable_at_tge_percentage {
            Some(p) => p,
            None => self.default_collectable_at_tge_percentage,
        };
        let new_cliff: Timestamp = match default_cliff_duration {
            Some(c) => c,
            None => self.default_cliff_duration,
        };
        let new_vesting: Timestamp = match default_vesting_duration {
            Some(v) => v,
            None => self.default_vesting_duration,
        };
        match Self::validate_airdrop_calculation_variables(
            new_start,
            new_percentage,
            new_cliff,
            new_vesting,
        ) {
            Err(e) => {
                return Err(e);
            },
            Ok(()) => {},
        }
        if !fit_behind(&self.recipients, new_start) {
            return Err(
                AzAirdropError::unprocessable(
                    "Combination of start, cliff_duration and vesting_duration exceeds limit",
                ),
            );
        }
        if let Some(admin_unwrapped) = admin {
            self.admin = admin_unwrapped;
        }
        self.start = new_start;
        self.default_collectable_at_tge_percentage = new_percentage;
        self.default_cliff_duration = new_cliff;
        self.default_vesting_duration = new_vesting;
        Ok(())
    }

    /// The transfer that a withdrawal by `caller` at `now` calls for: what is
    /// due, to the caller. Nothing is ordered for a caller without a record
    /// or when nothing is due.
    pub fn collect_transfer(&self, caller: AccountId, now: Timestamp) -> (r: Result<
        TokenTransfer,
        AzAirdropError,
    >)
        requires
            self.wf(),
        ensures
            match self@.collect_transfer_refusal(caller, now) {
                Some(why) => r matches Err(e) && e.reports(why),
                None => r matches Ok(order) && order == (TokenTransfer {
                    token: self@.token,
                    to: caller,
                    amount: self@.due(caller, now) as u128,
                }) && order.amount > 0,
            },
    {
        let amount: Balance = match self.collectable_amount(caller, now) {
            Err(e) => {
                return Err(e);
            },
            Ok(amount) => amount,
        };
        if amount == 0 {
            return Err(AzAirdropError::unprocessable("Amount is zero"));
        }
        Ok(TokenTransfer { token: self.token, to: caller, amount })
    }

    /// Books a withdrawal by `caller` at `now`, given how the transfer of
    /// what is due went: after a transfer that succeeded, the amount moves
    /// from the running total to the caller's collected amount and is
    /// returned; after one that failed, or when none was called for, nothing
    /// changes.
    pub fn collect(
        &mut self,
        caller: AccountId,
        now: Timestamp,
        transferred: Result<(), PSP22Error>,
    ) -> (r: Result<Balance, AzAirdropError>)
        requires
            old(self).wf(),
        ensures
            final(self).wf(),
            match old(self)@.collect_refusal(caller, now, transferred) {
                Some(why) => r matches Err(e) && e.reports(why) && final(self)@ == old(self)@,
                None => r matches Ok(amount) && amount == old(self)@.due(caller, now) && amount > 0
                    && final(self)@ == old(self)@.after_collect(caller, now),
            },
            r is Ok ==> record_of(final(self)@.recipients, caller).unwrap().collected
                == record_of(old(self)@.recipients, caller).unwrap().unlocked(
                old(self)@.start,
                now,
            ),
            forall|other: AccountId|
                other != caller ==> #[trigger] record_of(final(self)@.recipients, other) == record_of(
                    old(self)@.recipients,
                    other,
                ),
            r is Ok ==> final(self)@.due(caller, now) == 0,
            old(self)@.conserved() ==> final(self)@.conserved(),
            r is Ok && old(self)@.conserved() ==> final(self)@.to_be_collected
                == old(self)@.to_be_collected - old(self)@.due(caller, now),
    {
        let order: TokenTransfer = match self.collect_transfer(caller, now) {
            Err(e) => {
                return Err(e);
            },
            Ok(order) => order,
        };
        match transferred {
            Err(e) => {
                return Err(AzAirdropError::from(e));
            },
            Ok(_) => {},
        }
        let found = find(&self.recipients, caller);
        let i: usize = found.unwrap();
        let prior: Recipient = self.recipients[i].1;
        proof {
            prior.lemma_unlocked_bounded(self@.start, now);
        }
        let recipient = Recipient {
            collected: prior.collected.saturating_add(order.amount),
            ..prior
        };
        proof {
            lemma_put(self@.recipients, caller, recipient);
            if self@.conserved() {
                lemma_outstanding_covers(self@.recipients, i as int);
            }
        }
        store(&mut self.recipients, found, caller, recipient);
        self.to_be_collected = self.to_be_collected.saturating_sub(order.amount);
        Ok(order.amount)
    }

    /// The transfer that hands the admin what a custody balance of `balance`
    /// holds beyond what is promised.
    pub fn return_spare_tokens(&self, caller: AccountId, balance: Balance) -> (r: Result<
        TokenTransfer,
        AzAirdropError,
    >)
        ensures
            match self@.reclaim_refusal(caller, balance) {
                Some(why) => r matches Err(e) && e.reports(why),
                None => r matches Ok(order) && order == (TokenTransfer {
                    token: self@.token,
                    to: caller,
                    amount: self@.spare(balance) as u128,
                }) && order.amount > 0,
            },
    {
        match Self::authorise(caller, self.admin) {
            Err(e) => {
                return Err(e);
            },
            Ok(()) => {},
        }
        let spare_amount: Balance = balance.saturating_sub(self.to_be_collected);
        if spare_amount > 0 {
            Ok(TokenTransfer { token: self.token, to: caller, amount: spare_amount })
        } else {
            Err(AzAirdropError::unprocessable("Amount is zero"))
        }
    }

    /// The transfer that pulls `amount` from `from` into custody, which only
    /// the admin may order and only before distribution starts.
    pub fn acquire_token(
        &self,
        caller: AccountId,
        now: Timestamp,
        amount: Balance,
        from: AccountId,
    ) -> (r: Result<TokenTransferFrom, AzAirdropError>)
        ensures
            match self@.acquire_refusal(caller, now) {
                Some(why) => r matches Err(e) && e.reports(why),
                None => r matches Ok(order) && order == (TokenTransferFrom {
                    token: self@.token,
                    from,
                    amount,
                }),
            },
    {
        match Self::authorise(caller, self.admin) {
            Err(e) => {
                return Err(e);
            },
            Ok(()) => {},
        }
        match self.airdrop_has_not_started(now) {
            Err(e) => {
                return Err(e);
            },
            Ok(()) => {},
        }
        Ok(TokenTransferFrom { token: self.token, from, amount })
    }

    /// Makes `address` a sub-admin, at the end of the list, and returns the
    /// list. Declined calls change nothing.
    pub fn sub_admins_add(&mut self, caller: AccountId, address: AccountId) -> (r: Result<
        Vec<AccountId>,
        AzAirdropError,
    >)
        requires
            old(self).wf(),
        ensures
            final(self).wf(),
            match old(self)@.sub_admins_add_refusal(caller, address) {
                Some(why) => r matches Err(e) && e.reports(why) && final(self)@ == old(self)@,
                None => r matches Ok(list) && list@ == final(self)@.sub_admins && final(self)@ == (
                Ledger { sub_admins: old(self)@.sub_admins.push(address), ..old(self)@ }),
            },
            old(self)@.conserved() ==> final(self)@.conserved(),
    {
        match Self::authorise(caller, self.admin) {
            Err(e) => {
                return Err(e);
            },
            Ok(()) => {},
        }
        if self.sub_admin_index(address).is_some() {
            return Err(AzAirdropError::unprocessable("Already a sub admin"));
        }
        self.sub_admins.push(address);
        Ok(copy_accounts(&self.sub_admins))
    }

    /// Takes `address` out of the list of sub-admins, keeping the order of
    /// the others, and returns the list. Declined calls change nothing.
    pub fn sub_admins_remove(&mut self, caller: AccountId, address: AccountId) -> (r: Result<
        Vec<AccountId>,
        AzAirdropError,
    >)
        requires
            old(self).wf(),
        ensures
            final(self).wf(),
            match old(self)@.sub_admins_remove_refusal(caller, address) {
                Some(why) => r matches Err(e) && e.reports(why) && final(self)@ == old(self)@,
                None => r matches Ok(list) && list@ == final(self)@.sub_admins && final(self)@ == (
                Ledger {
                    sub_admins: old(self)@.sub_admins.remove(
                        old(self)@.sub_admins.index_of(address),
                    ),
                    ..old(self)@
                }),
            },
            r is Ok ==> !final(self)@.is_sub_admin(address),
            old(self)@.conserved() ==> final(self)@.conserved(),
    {
        match Self::authorise(caller, self.admin) {
            Err(e) => {
                return Err(e);
            },
            Ok(()) => {},
        }
        let index: usize = match self.sub_admin_index(address) {
            None => {
                return Err(AzAirdropError::unprocessable("Not a sub admin"));
            },
            Some(index) => index,
        };
        proof {
            let listed = self@.sub_admins;
            let chosen = listed.index_of(address);
            assert(0 <= chosen < listed.len() && listed[chosen] == address);
            assert(chosen == index);
            listed.remove_ensures(index as int);
        }
        self.sub_admins.remove(index);
        Ok(copy_accounts(&self.sub_admins))
    }
}

} // verus!
