//! The recipients' records and the sum of what they are still owed.

use crate::az_airdrop::recipient::Recipient;
use crate::az_airdrop::schedule::schedule_rules;
use crate::primitives::{AccountId, Timestamp};
use crate::registry::{distinct, lemma_put_distinct, position, put, record_of, recorded};
use vstd::prelude::*;

verus! {

/// The records, one per recipient, in the order of first allocation.
pub type Records = Seq<(AccountId, Recipient)>;

/// The sum over all records of what is still owed.
pub open spec fn total_outstanding(records: Records) -> int
    decreases records.len(),
{
    if records.len() == 0 {
        0
    } else {
        total_outstanding(records.drop_last()) + records.last().1.outstanding()
    }
}

/// No record has more collected than allocated.
pub open spec fn all_sound(records: Records) -> bool {
    forall|i: int| 0 <= i < records.len() ==> (#[trigger] records[i]).1.sound()
}

/// Every record's schedule keeps the rules that do not depend on the start.
pub open spec fn all_within_rules(records: Records) -> bool {
    forall|i: int|
        0 <= i < records.len() ==> {
            let r = (#[trigger] records[i]).1;
            schedule_rules(r.collectable_at_tge_percentage, r.cliff_duration, r.vesting_duration)
        }
}

/// Every record's schedule, begun at `start`, ends at a representable point
/// in time.
pub open spec fn all_fit(records: Records, start: Timestamp) -> bool {
    forall|i: int|
        0 <= i < records.len() ==> {
            let r = (#[trigger] records[i]).1;
            start + r.cliff_duration + r.vesting_duration <= u64::MAX
        }
}

/// Whether no record has more collected than allocated and every record's
/// schedule keeps the rules.
pub fn sound_and_within_rules(records: &Vec<(AccountId, Recipient)>) -> (r: bool)
    ensures
        r == (all_sound(records@) && all_within_rules(records@)),
{
    let mut i: usize = 0;
    while i < records.len()
        invariant
            i <= records.len(),
            forall|j: int| 0 <= j < i ==> (#[trigger] records@[j]).1.sound(),
            forall|j: int|
                0 <= j < i ==> {
                    let r = (#[trigger] records@[j]).1;
                    schedule_rules(
                        r.collectable_at_tge_percentage,
                        r.cliff_duration,
                        r.vesting_duration,
                    )
                },
        decreases records.len() - i,
    {
        let percentage: u8 = records[i].1.collectable_at_tge_percentage;
        let cliff: Timestamp = records[i].1.cliff_duration;
        let vesting: Timestamp = records[i].1.vesting_duration;
        let kept: bool = if percentage == 100 {
            cliff == 0 && vesting == 0
        } else {
            percentage < 100 && vesting > 0
        };
        if !kept || records[i].1.collected > records[i].1.total_amount {
            assert(!records@[i as int].1.sound() || !schedule_rules(
                records@[i as int].1.collectable_at_tge_percentage,
                records@[i as int].1.cliff_duration,
                records@[i as int].1.vesting_duration,
            ));
            return false;
        }
        i += 1;
    }
    true
}

/// Whether every record's schedule, begun at `start`, ends at a
/// representable point in time.
pub fn fit_behind(records: &Vec<(AccountId, Recipient)>, start: Timestamp) -> (r: bool)
    ensures
        r == all_fit(records@, start),
{
    let mut i: usize = 0;
    while i < records.len()
        invariant
            i <= records.len(),
            forall|j: int|
                0 <= j < i ==> {
                    let r = (#[trigger] records@[j]).1;
                    start + r.cliff_duration + r.vesting_duration <= u64::MAX
                },
        decreases records.len() - i,
    {
        let end: u128 = start as u128 + records[i].1.cliff_duration as u128
            + records[i].1.vesting_duration as u128;
        if end > u64::MAX as u128 {
            assert(start + records@[i as int].1.cliff_duration
                + records@[i as int].1.vesting_duration > u64::MAX);
            return false;
        }
        i += 1;
    }
    true
}

/// A new record at the end adds what it owes to the sum.
pub proof fn lemma_outstanding_push(records: Records, entry: (AccountId, Recipient))
    ensures
        total_outstanding(records.push(entry)) == total_outstanding(records)
            + entry.1.outstanding(),
{
    assert(records.push(entry).drop_last() =~= records);
}

/// Replacing a record changes the sum by the difference of what the two owe.
pub proof fn lemma_outstanding_update(records: Records, i: int, entry: (AccountId, Recipient))
    requires
        0 <= i < records.len(),
    ensures
        total_outstanding(records.update(i, entry)) == total_outstanding(records)
            - records[i].1.outstanding() + entry.1.outstanding(),
    decreases records.len(),
{
    let updated = records.update(i, entry);
    if i == records.len() - 1 {
        assert(updated.drop_last() =~= records.drop_last());
    } else {
        lemma_outstanding_update(records.drop_last(), i, entry);
        assert(updated.drop_last() =~= records.drop_last().update(i, entry));
    }
}

/// Among sound records, each owes at most the sum, and nothing is negative.
pub proof fn lemma_outstanding_covers(records: Records, i: int)
    requires
        all_sound(records),
        0 <= i < records.len(),
    ensures
        0 <= records[i].1.outstanding() <= total_outstanding(records),
    decreases records.len(),
{
    lemma_outstanding_nonnegative(records.drop_last());
    if i < records.len() - 1 {
        lemma_outstanding_covers(records.drop_last(), i);
    }
}

/// Among sound records the sum is not negative.
pub proof fn lemma_outstanding_nonnegative(records: Records)
    requires
        all_sound(records),
    ensures
        0 <= total_outstanding(records),
    decreases records.len(),
{
    if records.len() > 0 {
        lemma_outstanding_nonnegative(records.drop_last());
    }
}

/// Writing a record changes the sum of what is owed by the difference
/// between what the new record owes and what the address was owed before.
pub proof fn lemma_put(records: Records, address: AccountId, recipient: Recipient)
    requires
        distinct(records),
    ensures
        distinct(put(records, address, recipient)),
        record_of(put(records, address, recipient), address) == Some(recipient),
        total_outstanding(put(records, address, recipient)) == total_outstanding(records) - (
        match record_of(records, address) {
            Some(prior) => prior.outstanding(),
            None => 0,
        }) + recipient.outstanding(),
{
    lemma_put_distinct(records, address, recipient);
    if recorded(records, address) {
        let p = position(records, address);
        assert(0 <= p < records.len() && records[p].0 == address);
        lemma_outstanding_update(records, p, (address, recipient));
    } else {
        lemma_outstanding_push(records, (address, recipient));
    }
}

} // verus!
