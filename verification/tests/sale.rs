use az_token_sale_to_airdrop::errors::AzTokenSaleToAirdropError;
use az_token_sale_to_airdrop::primitives::AccountId;
use az_token_sale_to_airdrop::sale::AzTokenSaleToAirdrop;
use az_token_sale_to_airdrop::sale::Buyer;
use az_token_sale_to_airdrop::sale::Purchase;

const MOCK_IN_UNIT: u128 = 10;
const MOCK_OUT_UNIT: u128 = 500;
const MOCK_START: u64 = 654_654;
const MOCK_END: u64 = 754_654;
const MOCK_WHITELIST_DURATION: u64 = 1_000;
const MOCK_IN_TARGET: u128 = 50_000_000_000_000_000;

fn named(byte: u8) -> AccountId {
    AccountId([byte; 32])
}

fn bob() -> AccountId {
    named(2)
}

fn charlie() -> AccountId {
    named(3)
}

fn django() -> AccountId {
    named(4)
}

fn mock_airdrop_smart_contract() -> AccountId {
    named(5)
}

fn init() -> AzTokenSaleToAirdrop {
    AzTokenSaleToAirdrop::new(
        bob(),
        mock_airdrop_smart_contract(),
        MOCK_IN_UNIT,
        MOCK_OUT_UNIT,
        MOCK_START,
        MOCK_END,
        MOCK_WHITELIST_DURATION,
        MOCK_IN_TARGET,
    )
    .expect("REASON")
}

fn rule(msg: &str) -> AzTokenSaleToAirdropError {
    AzTokenSaleToAirdropError::UnprocessableEntity(msg.to_string())
}

#[test]
fn test_new() {
    let result = AzTokenSaleToAirdrop::new(
        bob(),
        mock_airdrop_smart_contract(),
        MOCK_IN_UNIT,
        MOCK_OUT_UNIT,
        10,
        20,
        10,
        MOCK_IN_TARGET,
    );
    // when start + whitelist_duration is greater than or equal to end
    // * it raises an error
    assert!(result.is_err());
    // when start + whitelist_duration is less than end
    // == when in_unit is zero
    // == * it raises an error
    let result = AzTokenSaleToAirdrop::new(
        bob(),
        mock_airdrop_smart_contract(),
        0,
        MOCK_OUT_UNIT,
        MOCK_START,
        MOCK_END,
        MOCK_WHITELIST_DURATION,
        MOCK_IN_TARGET,
    );
    assert!(result.is_err());
    // == when in_unit is positive
    // === when out_unit is zero
    // === * it raises an error
    let result = AzTokenSaleToAirdrop::new(
        bob(),
        mock_airdrop_smart_contract(),
        MOCK_IN_UNIT,
        0,
        MOCK_START,
        MOCK_END,
        MOCK_WHITELIST_DURATION,
        MOCK_IN_TARGET,
    );
    assert!(result.is_err());
    // === when out_unit is positive
    // ==== when in target is zero
    let result = AzTokenSaleToAirdrop::new(
        bob(),
        mock_airdrop_smart_contract(),
        MOCK_IN_UNIT,
        MOCK_OUT_UNIT,
        MOCK_START,
        MOCK_END,
        MOCK_WHITELIST_DURATION,
        0,
    );
    assert!(result.is_err());
    // ==== when in target is positive
    // ===== when in target is not a multiple of in unit
    let result = AzTokenSaleToAirdrop::new(
        bob(),
        mock_airdrop_smart_contract(),
        MOCK_IN_UNIT,
        MOCK_OUT_UNIT,
        MOCK_START,
        MOCK_END,
        MOCK_WHITELIST_DURATION,
        MOCK_IN_TARGET + 1,
    );
    // ===== * it raises an error
    assert!(result.is_err());
    // ===== when in target is a multiple of in unit
    // ===== * it is valid
    let result = AzTokenSaleToAirdrop::new(
        bob(),
        mock_airdrop_smart_contract(),
        MOCK_IN_UNIT,
        MOCK_OUT_UNIT,
        MOCK_START,
        MOCK_END,
        MOCK_WHITELIST_DURATION,
        MOCK_IN_TARGET,
    );
    assert!(result.is_ok());
}

#[test]
fn test_config() {
    let az_token_sale_to_airdrop = init();
    let config = az_token_sale_to_airdrop.config();
    // * it returns the config
    assert_eq!(config.admin, bob());
    assert_eq!(config.airdrop_smart_contract, mock_airdrop_smart_contract());
    assert_eq!(config.in_unit, MOCK_IN_UNIT);
    assert_eq!(config.out_unit, MOCK_OUT_UNIT);
    assert_eq!(config.start, MOCK_START);
    assert_eq!(config.end, MOCK_END);
    assert_eq!(config.whitelist_duration, MOCK_WHITELIST_DURATION);
    assert_eq!(config.in_target, MOCK_IN_TARGET);
}

#[test]
fn lib_test_buy() {
    let mut az_token_sale_to_airdrop = init();
    // when sale has not started
    // * it raises an error
    let mut result = az_token_sale_to_airdrop.buy(bob(), MOCK_START - 1, 0, Ok(()));
    assert_eq!(result, Err(rule("Sale has not started")));
    // when sale has started
    // = when sale has ended
    // = * it raises an error
    result = az_token_sale_to_airdrop.buy(bob(), MOCK_END + 1, 0, Ok(()));
    assert_eq!(result, Err(rule("Sale has ended")));
    // == when in whitelist phase
    let now = MOCK_START + MOCK_WHITELIST_DURATION - 1;
    // === when buyer is not on whitelist
    // === * it raises an error
    result = az_token_sale_to_airdrop.buy(bob(), now, 0, Ok(()));
    assert_eq!(
        result,
        Err(rule("Sale is currently only available to whitelisted addresses"))
    );
    // === when buyer is on whitelist
    assert_eq!(
        az_token_sale_to_airdrop.whitelist_add(bob(), bob()),
        Ok(Buyer { total_in: 0, whitelisted: true })
    );
    // ==== when in amount is zero
    // ==== * it raises an error
    result = az_token_sale_to_airdrop.buy(bob(), now, 0, Ok(()));
    assert_eq!(result, Err(rule("In amount must be in multiples of in_unit")));
    // ==== when in amount is positive
    // ===== when in amount is not a multiple of in_unit
    // ===== * it raises an error
    result = az_token_sale_to_airdrop.buy(bob(), now, MOCK_IN_UNIT + 1, Ok(()));
    assert_eq!(result, Err(rule("In amount must be in multiples of in_unit")));
    result = az_token_sale_to_airdrop.buy(bob(), now, MOCK_IN_UNIT - 1, Ok(()));
    assert_eq!(result, Err(rule("In amount must be in multiples of in_unit")));
    // ===== when in amount is a multiple of in_unit
    // ====== when there is no more available for sale
    assert!(az_token_sale_to_airdrop.buy(bob(), now, MOCK_IN_TARGET, Ok(())).is_ok());
    assert_eq!(az_token_sale_to_airdrop.config().in_raised, MOCK_IN_TARGET);
    // ====== * it raises an error
    result = az_token_sale_to_airdrop.buy(bob(), now, MOCK_IN_UNIT, Ok(()));
    assert_eq!(result, Err(rule("Sold out")));
}

#[test]
fn test_whitelist_add() {
    let mut az_token_sale_to_airdrop = init();
    let new_address: AccountId = django();
    // when called by admin
    // = when address is not on whitelist
    let mut result = az_token_sale_to_airdrop.whitelist_add(bob(), new_address);
    result.unwrap();
    // = * it adds the address to whitelist
    assert_eq!(az_token_sale_to_airdrop.show(new_address).whitelisted, true);
    // = when already on whitelist
    // = * it raises an error
    result = az_token_sale_to_airdrop.whitelist_add(bob(), new_address);
    assert_eq!(result, Err(rule("Already on whitelist")));
    // when called by non admin
    // * it raises an error
    result = az_token_sale_to_airdrop.whitelist_add(charlie(), new_address);
    assert_eq!(result, Err(AzTokenSaleToAirdropError::Unauthorised));
}

#[test]
fn test_whitelist_remove() {
    let mut az_token_sale_to_airdrop = init();
    let address_to_remove: AccountId = django();
    // when called by admin
    // = when not on whitelist
    let mut result = az_token_sale_to_airdrop.whitelist_remove(bob(), address_to_remove);
    assert_eq!(result, Err(rule("Not on whitelist")));
    // = when on whitelist
    az_token_sale_to_airdrop.whitelist_add(bob(), address_to_remove).unwrap();
    result = az_token_sale_to_airdrop.whitelist_remove(bob(), address_to_remove);
    result.unwrap();
    // = * it remove the address from whitelist
    assert_eq!(az_token_sale_to_airdrop.show(address_to_remove).whitelisted, false);
    // when called by non admin
    // * it raises an error
    result = az_token_sale_to_airdrop.whitelist_remove(charlie(), address_to_remove);
    assert_eq!(result, Err(AzTokenSaleToAirdropError::Unauthorised));
}

#[test]
fn purchase_is_priced_by_units() {
    let sale = AzTokenSaleToAirdrop::new(
        bob(),
        mock_airdrop_smart_contract(),
        1_000_000_000_000,
        50_000_000_000_000,
        708_669_904_756,
        2_708_669_904_756,
        0,
        50_000_000_000_000_000,
    )
    .unwrap();
    assert_eq!(
        sale.purchase(charlie(), 708_669_904_756, 1_000_000_000_000),
        Ok(Purchase { refund: 0, in_amount: 1_000_000_000_000, out_amount: 50_000_000_000_000 })
    );
    assert_eq!(
        sale.purchase(charlie(), 2_708_669_904_756, 3_000_000_000_000),
        Ok(Purchase { refund: 0, in_amount: 3_000_000_000_000, out_amount: 150_000_000_000_000 })
    );
}

#[test]
fn purchase_beyond_target_is_partly_refunded() {
    let mut sale = AzTokenSaleToAirdrop::new(
        bob(),
        mock_airdrop_smart_contract(),
        1_000_000_000_000,
        50_000_000_000_000,
        708_669_904_756,
        2_708_669_904_756,
        0,
        50_000_000_000_000_000,
    )
    .unwrap();
    let now = 708_669_904_757;
    assert_eq!(
        sale.buy(charlie(), now, 1_000_000_000_000, Ok(())),
        Ok((1_000_000_000_000, 50_000_000_000_000))
    );
    assert_eq!(sale.config().in_raised, 1_000_000_000_000);
    assert_eq!(sale.show(charlie()).total_in, 1_000_000_000_000);
    assert_eq!(
        sale.purchase(charlie(), now, 50_000_000_000_000_000),
        Ok(Purchase {
            refund: 1_000_000_000_000,
            in_amount: 49_999_000_000_000_000,
            out_amount: 2_499_950_000_000_000_000,
        })
    );
    assert_eq!(
        sale.buy(charlie(), now, 50_000_000_000_000_000, Ok(())),
        Ok((49_999_000_000_000_000, 2_499_950_000_000_000_000))
    );
    assert_eq!(sale.config().in_raised, 50_000_000_000_000_000);
    assert_eq!(sale.show(charlie()).total_in, 50_000_000_000_000_000);
    assert_eq!(sale.show(charlie()).whitelisted, false);
}

#[test]
fn failed_settlement_changes_nothing() {
    let mut sale = init();
    let now = MOCK_START + MOCK_WHITELIST_DURATION;
    assert_eq!(
        sale.buy(charlie(), now, 20, Err(rule("Insufficient AZERO balance"))),
        Err(rule("Insufficient AZERO balance"))
    );
    assert_eq!(
        sale.buy(charlie(), now, 20, Err(AzTokenSaleToAirdropError::Unauthorised)),
        Err(AzTokenSaleToAirdropError::Unauthorised)
    );
    assert_eq!(sale.config().in_raised, 0);
    assert_eq!(sale.show(charlie()), Buyer { total_in: 0, whitelisted: false });
    assert_eq!(sale.buy(charlie(), now, 20, Ok(())), Ok((20, 1000)));
    assert_eq!(sale.show(charlie()), Buyer { total_in: 20, whitelisted: false });
}

#[test]
fn out_amount_that_does_not_fit_is_declined() {
    let mut sale = AzTokenSaleToAirdrop::new(
        bob(),
        mock_airdrop_smart_contract(),
        1,
        u128::MAX,
        0,
        10,
        0,
        100,
    )
    .unwrap();
    assert_eq!(sale.purchase(charlie(), 1, 2), Err(rule("Out amount exceeds limit")));
    assert_eq!(sale.buy(charlie(), 1, 2, Ok(())), Err(rule("Out amount exceeds limit")));
    assert_eq!(sale.buy(charlie(), 1, 1, Ok(())), Ok((1, u128::MAX)));
}

#[test]
fn opening_reports_first_broken_rule() {
    let open = |in_unit, out_unit, start, end, whitelist, target| {
        AzTokenSaleToAirdrop::new(
            bob(),
            mock_airdrop_smart_contract(),
            in_unit,
            out_unit,
            start,
            end,
            whitelist,
            target,
        )
        .err()
    };
    assert_eq!(
        open(0, 0, 10, 20, 10, 0),
        Some(rule("Start + whitelist_duration must be less than end"))
    );
    assert_eq!(
        open(1, 1, u64::MAX, u64::MAX, 1, 1),
        Some(rule("Start + whitelist_duration must be less than end"))
    );
    assert_eq!(
        open(0, 1, 10, 20, 9, 7),
        Some(rule("In unit, out unit and in target must be positive"))
    );
    assert_eq!(open(2, 1, 10, 20, 9, 7), Some(rule("In target must be a multiple of in unit")));
    assert_eq!(open(2, 1, 10, 20, 9, 8), None);
}

#[test]
fn native_transfer_failure_is_reported_as_balance() {
    assert_eq!(AzTokenSaleToAirdrop::transfer_azero(Ok(())), Ok(()));
    assert_eq!(
        AzTokenSaleToAirdrop::transfer_azero(Err(ink::env::Error::TransferFailed)),
        Err(rule("Insufficient AZERO balance"))
    );
}

#[test]
fn sale_authorise_compares_identities() {
    assert_eq!(AzTokenSaleToAirdrop::authorise(bob(), bob()), Ok(()));
    assert_eq!(
        AzTokenSaleToAirdrop::authorise(bob(), charlie()),
        Err(AzTokenSaleToAirdropError::Unauthorised)
    );
}

#[test]
fn host_errors_convert_into_sale_errors() {
    assert_eq!(
        AzTokenSaleToAirdropError::from(ink::LangError::CouldNotReadInput),
        AzTokenSaleToAirdropError::ContractCall(ink::LangError::CouldNotReadInput)
    );
    assert_eq!(
        AzTokenSaleToAirdropError::from(ink::env::Error::TransferFailed),
        AzTokenSaleToAirdropError::InkEnvError("TransferFailed".to_string())
    );
}

#[test]
fn sale_is_put_together_from_its_parts() {
    let mut sale = init();
    sale.whitelist_add(bob(), django()).unwrap();
    sale.buy(django(), MOCK_START, 30, Ok(())).unwrap();
    let buyers = sale.buyers();
    assert_eq!(buyers, vec![(django(), Buyer { total_in: 30, whitelisted: true })]);
    let again = AzTokenSaleToAirdrop::from_parts(sale.config(), buyers).unwrap();
    assert_eq!(again.config(), sale.config());
    assert_eq!(again.show(django()), Buyer { total_in: 30, whitelisted: true });
}

#[test]
fn invalid_parts_make_no_sale() {
    let sale = init();
    let paid = Buyer { total_in: 0, whitelisted: false };
    assert!(AzTokenSaleToAirdrop::from_parts(sale.config(), vec![(bob(), paid)]).is_some());
    assert!(
        AzTokenSaleToAirdrop::from_parts(sale.config(), vec![(bob(), paid), (bob(), paid)])
            .is_none()
    );
    let over = Buyer { total_in: 1, whitelisted: false };
    assert!(AzTokenSaleToAirdrop::from_parts(sale.config(), vec![(bob(), over)]).is_none());
    let mut config = sale.config();
    config.in_unit = 0;
    assert!(AzTokenSaleToAirdrop::from_parts(config, vec![]).is_none());
    let mut config = sale.config();
    config.out_unit = 0;
    assert!(AzTokenSaleToAirdrop::from_parts(config, vec![]).is_none());
    let mut config = sale.config();
    config.in_target = 15;
    assert!(AzTokenSaleToAirdrop::from_parts(config, vec![]).is_none());
    let mut config = sale.config();
    config.in_raised = MOCK_IN_TARGET + 10;
    assert!(AzTokenSaleToAirdrop::from_parts(config, vec![]).is_none());
    let mut config = sale.config();
    config.end = config.start + config.whitelist_duration;
    assert!(AzTokenSaleToAirdrop::from_parts(config, vec![]).is_none());
}
