//! Records kept one per account, in the order in which the accounts were
//! first seen.

use crate::primitives::AccountId;
use vstd::prelude::*;

verus! {

/// Some record belongs to `address`.
pub open spec fn recorded<V>(records: Seq<(AccountId, V)>, address: AccountId) -> bool {
    exists|i: int| 0 <= i < records.len() && (#[trigger] records[i]).0 == address
}

/// Where the record of `address` stands, if it has one.
pub open spec fn position<V>(records: Seq<(AccountId, V)>, address: AccountId) -> int {
    choose|i: int| 0 <= i < records.len() && (#[trigger] records[i]).0 == address
}

/// The record of `address`, if it has one.
pub open spec fn record_of<V>(records: Seq<(AccountId, V)>, address: AccountId) -> Option<V> {
    if recorded(records, address) {
        Some(records[position(records, address)].1)
    } else {
        None
    }
}

/// No two records belong to the same account.
pub open spec fn distinct<V>(records: Seq<(AccountId, V)>) -> bool {
    forall|i: int, j: int|
        0 <= i < j < records.len() ==> (#[trigger] records[i]).0 != (#[trigger] records[j]).0
}

/// The records with that of `address` replaced by `value`, or with a new
/// record at the end where `address` had none.
pub open spec fn put<V>(records: Seq<(AccountId, V)>, address: AccountId, value: V) -> Seq<
    (AccountId, V),
> {
    if recorded(records, address) {
        records.update(position(records, address), (address, value))
    } else {
        records.push((address, value))
    }
}

/// Among distinct records, the one that belongs to `address` is found at its
/// only place.
pub proof fn lemma_position_unique<V>(records: Seq<(AccountId, V)>, address: AccountId, i: int)
    requires
        distinct(records),
        0 <= i < records.len(),
        records[i].0 == address,
    ensures
        recorded(records, address),
        position(records, address) == i,
        record_of(records, address) == Some(records[i].1),
{
    let p = position(records, address);
    assert(0 <= p < records.len() && records[p].0 == address);
    if p < i {
        assert(records[p].0 != records[i].0);
    } else if i < p {
        assert(records[i].0 != records[p].0);
    }
}

/// Writing a record keeps one record per account and makes it the record of
/// its address.
pub proof fn lemma_put_distinct<V>(records: Seq<(AccountId, V)>, address: AccountId, value: V)
    requires
        distinct(records),
    ensures
        distinct(put(records, address, value)),
        record_of(put(records, address, value), address) == Some(value),
{
    let after = put(records, address, value);
    if recorded(records, address) {
        let p = position(records, address);
        assert(0 <= p < records.len() && records[p].0 == address);
        assert forall|i: int, j: int| 0 <= i < j < after.len() implies (#[trigger] after[i]).0 != (
        #[trigger] after[j]).0 by {
            assert(records[i].0 != records[j].0);
        }
        lemma_position_unique(after, address, p);
    } else {
        assert forall|i: int, j: int| 0 <= i < j < after.len() implies (#[trigger] after[i]).0 != (
        #[trigger] after[j]).0 by {
            if j < records.len() {
                assert(records[i].0 != records[j].0);
            } else {
                assert(records[i].0 != address);
            }
        }
        lemma_position_unique(after, address, records.len() as int);
    }
}

/// Writing a record leaves the record of every other account as it was.
pub proof fn lemma_put_frame<V>(
    records: Seq<(AccountId, V)>,
    address: AccountId,
    value: V,
    other: AccountId,
)
    requires
        distinct(records),
        other != address,
    ensures
        record_of(put(records, address, value), other) == record_of(records, other),
{
    let after = put(records, address, value);
    lemma_put_distinct(records, address, value);
    if recorded(records, other) {
        let q = position(records, other);
        assert(0 <= q < records.len() && records[q].0 == other);
        assert(after[q] == records[q]);
        lemma_position_unique(after, other, q);
    } else {
        if recorded(after, other) {
            let q = position(after, other);
            assert(0 <= q < after.len() && after[q].0 == other);
            if q < records.len() {
                assert(records[q].0 == other);
            }
        }
    }
}

/// Where the record of `address` stands, if it has one.
pub fn find<V>(records: &Vec<(AccountId, V)>, address: AccountId) -> (r: Option<usize>)
    requires
        distinct(records@),
    ensures
        match r {
            Some(i) => recorded(records@, address) && i == position(records@, address) && i
                < records@.len(),
            None => !recorded(records@, address),
        },
{
    let mut i: usize = 0;
    while i < records.len()
        invariant
            i <= records.len(),
            distinct(records@),
            forall|j: int| 0 <= j < i ==> (#[trigger] records@[j]).0 != address,
        decreases records.len() - i,
    {
        if records[i].0 == address {
            proof {
                lemma_position_unique(records@, address, i as int);
            }
            return Some(i);
        }
        i += 1;
    }
    None
}

/// Writes `value` as the record of `address`, at the place where the address
/// was found or at the end.
pub fn store<V>(
    records: &mut Vec<(AccountId, V)>,
    found: Option<usize>,
    address: AccountId,
    value: V,
)
    requires
        match found {
            Some(i) => recorded(old(records)@, address) && i == position(old(records)@, address)
                && i < old(records)@.len(),
            None => !recorded(old(records)@, address),
        },
    ensures
        final(records)@ == put(old(records)@, address, value),
        distinct(old(records)@) ==> distinct(final(records)@),
        distinct(old(records)@) ==> record_of(final(records)@, address) == Some(value),
        distinct(old(records)@) ==> forall|other: AccountId|
            other != address ==> #[trigger] record_of(final(records)@, other) == record_of(
                old(records)@,
                other,
            ),
{
    proof {
        if distinct(records@) {
            lemma_put_distinct(records@, address, value);
            assert forall|other: AccountId| other != address implies #[trigger] record_of(
                put(records@, address, value),
                other,
            ) == record_of(records@, other) by {
                lemma_put_frame(records@, address, value, other);
            }
        }
    }
    match found {
        Some(i) => {
            records.set(i, (address, value));
        },
        None => {
            records.push((address, value));
        },
    }
}

/// Whether no two records belong to the same account.
pub fn is_distinct<V>(records: &Vec<(AccountId, V)>) -> (r: bool)
    ensures
        r == distinct(records@),
{
    let mut j: usize = 0;
    while j < records.len()
        invariant
            j <= records.len(),
            forall|a: int, b: int|
                0 <= a < b < j ==> (#[trigger] records@[a]).0 != (#[trigger] records@[b]).0,
        decreases records.len() - j,
    {
        let mut i: usize = 0;
        while i < j
            invariant
                i <= j < records.len(),
                forall|a: int| 0 <= a < i ==> (#[trigger] records@[a]).0 != records@[j as int].0,
            decreases j - i,
        {
            if records[i].0 == records[j].0 {
                assert(records@[i as int].0 == records@[j as int].0);
                return false;
            }
            i += 1;
        }
        j += 1;
    }
    true
}

/// Whether no account is listed twice.
pub fn has_no_duplicates(accounts: &Vec<AccountId>) -> (r: bool)
    ensures
        r == accounts@.no_duplicates(),
{
    let mut j: usize = 0;
    while j < accounts.len()
        invariant
            j <= accounts.len(),
            forall|a: int, b: int| 0 <= a < b < j ==> accounts@[a] != accounts@[b],
        decreases accounts.len() - j,
    {
        let mut i: usize = 0;
        while i < j
            invariant
                i <= j < accounts.len(),
                forall|a: int| 0 <= a < i ==> accounts@[a] != accounts@[j as int],
            decreases j - i,
        {
            if accounts[i] == accounts[j] {
                assert(accounts@[i as int] == accounts@[j as int]);
                return false;
            }
            i += 1;
        }
        j += 1;
    }
    assert forall|a: int, b: int|
        0 <= a < accounts@.len() && 0 <= b < accounts@.len() && a != b implies accounts@[a]
        != accounts@[b] by {
        if a < b {
            assert(accounts@[a] != accounts@[b]);
        } else {
            assert(accounts@[b] != accounts@[a]);
        }
    }
    true
}

/// A copy of a list of accounts.
pub fn copy_accounts(accounts: &Vec<AccountId>) -> (copy: Vec<AccountId>)
    ensures
        copy@ == accounts@,
{
    let mut copy: Vec<AccountId> = Vec::new();
    let mut i: usize = 0;
    while i < accounts.len()
        invariant
            i <= accounts.len(),
            copy@ == accounts@.subrange(0, i as int),
        decreases accounts.len() - i,
    {
        copy.push(accounts[i]);
        i += 1;
        assert(copy@ =~= accounts@.subrange(0, i as int));
    }
    assert(accounts@.subrange(0, i as int) =~= accounts@);
    copy
}

/// A copy of the records.
pub fn copy_records<V: Copy>(records: &Vec<(AccountId, V)>) -> (copy: Vec<(AccountId, V)>)
    ensures
        copy@ == records@,
{
    let mut copy: Vec<(AccountId, V)> = Vec::new();
    let mut i: usize = 0;
    while i < records.len()
        invariant
            i <= records.len(),
            copy@ == records@.subrange(0, i as int),
        decreases records.len() - i,
    {
        copy.push((records[i].0, records[i].1));
        i += 1;
        assert(copy@ =~= records@.subrange(0, i as int));
    }
    assert(records@.subrange(0, i as int) =~= records@);
    copy
}

} // verus!
