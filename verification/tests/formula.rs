use az_token_sale_to_airdrop::az_airdrop::recipient::Recipient;
use az_token_sale_to_airdrop::wide::checked_mul_div;
use az_token_sale_to_airdrop::wide::share;

const YEAR: u64 = 31_556_952_000;
const T: u64 = 2_708_669_904_756;

fn record(total: u128, collected: u128, percentage: u8, cliff: u64, vesting: u64) -> Recipient {
    Recipient {
        total_amount: total,
        collected,
        collectable_at_tge_percentage: percentage,
        cliff_duration: cliff,
        vesting_duration: vesting,
    }
}

#[test]
fn linear_schedule_unlocks_tge_then_half_then_all() {
    let r = record(1000, 0, 20, 0, YEAR);
    assert_eq!(r.collectable_amount(T, T), 200);
    assert_eq!(r.collectable_amount(T, T + YEAR / 2), 600);
    assert_eq!(r.collectable_amount(T, T + YEAR), 1000);
}

#[test]
fn full_tge_unlocks_everything_at_start() {
    let r = record(500, 0, 100, 0, 0);
    assert_eq!(r.collectable_amount(T, T - 1), 0);
    assert_eq!(r.collectable_amount(T, T), 500);
}

#[test]
fn nothing_unlocks_before_start() {
    let r = record(1000, 0, 20, 0, YEAR);
    assert_eq!(r.unlocked_amount(T, 0), 0);
    assert_eq!(r.unlocked_amount(T, T - 1), 0);
}

#[test]
fn cliff_holds_back_vesting() {
    let r = record(1000, 0, 10, 500, 1000);
    assert_eq!(r.unlocked_amount(T, T), 100);
    assert_eq!(r.unlocked_amount(T, T + 499), 100);
    assert_eq!(r.unlocked_amount(T, T + 500), 100);
    assert_eq!(r.unlocked_amount(T, T + 501), 100);
    assert_eq!(r.unlocked_amount(T, T + 510), 109);
    assert_eq!(r.unlocked_amount(T, T + 1000), 550);
    assert_eq!(r.unlocked_amount(T, T + 1500), 1000);
}

#[test]
fn elapsed_time_is_capped_at_vesting_duration() {
    let r = record(u128::MAX, 0, 0, 0, 10);
    assert_eq!(r.unlocked_amount(0, 10), u128::MAX);
    assert_eq!(r.unlocked_amount(0, 1_000_000), u128::MAX);
    assert_eq!(r.unlocked_amount(0, u64::MAX), u128::MAX);
}

#[test]
fn cliff_beyond_the_clock_never_vests() {
    let r = record(1000, 0, 25, u64::MAX, 10);
    assert_eq!(r.unlocked_amount(5, u64::MAX), 250);
}

#[test]
fn tge_amount_rounds_down() {
    let r = record(999, 0, 33, 0, 100);
    assert_eq!(r.unlocked_amount(T, T), 329);
    let r = record(1, 0, 99, 0, 100);
    assert_eq!(r.unlocked_amount(T, T), 0);
    assert_eq!(r.unlocked_amount(T, T + 100), 1);
}

#[test]
fn collectable_subtracts_collected_and_stops_at_zero() {
    let r = record(1000, 150, 20, 0, YEAR);
    assert_eq!(r.collectable_amount(T, T), 50);
    let r = record(1000, 300, 20, 0, YEAR);
    assert_eq!(r.collectable_amount(T, T), 0);
    assert_eq!(r.collectable_amount(T, T + YEAR), 700);
}

#[test]
fn collectable_stays_within_what_is_owed() {
    let r = record(777, 123, 37, 40, 1300);
    let mut now = T;
    while now < T + 2000 {
        let c = r.collectable_amount(T, now);
        assert!(c <= r.total_amount - r.collected);
        now += 37;
    }
}

#[test]
fn unlocked_never_shrinks_over_time() {
    let r = record(1_000_003, 0, 17, 250, 999);
    let mut last = 0;
    let mut now = T - 10;
    while now < T + 1500 {
        let u = r.unlocked_amount(T, now);
        assert!(u >= last);
        last = u;
        now += 1;
    }
    assert_eq!(last, 1_000_003);
}

#[test]
fn wide_product_does_not_wrap() {
    assert_eq!(checked_mul_div(u128::MAX, u128::MAX, u128::MAX), Some(u128::MAX));
    assert_eq!(checked_mul_div(u128::MAX, 3, 4), Some(255211775190703847597530955573826158591));
    assert_eq!(checked_mul_div(10, 500, 10), Some(500));
    assert_eq!(checked_mul_div(7, 3, 2), Some(10));
}

#[test]
fn wide_quotient_that_does_not_fit_is_none() {
    assert_eq!(checked_mul_div(u128::MAX, 2, 1), None);
    assert_eq!(checked_mul_div(u128::MAX, u128::MAX, 1), None);
}

#[test]
fn wide_division_by_zero_is_none() {
    assert_eq!(checked_mul_div(1, 1, 0), None);
}

#[test]
fn share_of_an_amount() {
    assert_eq!(share(1000, 20, 100), 200);
    assert_eq!(share(u128::MAX, 100, 100), u128::MAX);
    assert_eq!(share(u128::MAX, 1, 2), u128::MAX / 2);
    assert_eq!(share(5, 0, 7), 0);
}
