use az_token_sale_to_airdrop::az_airdrop::errors::PSP22Error;
use az_token_sale_to_airdrop::az_button::Approval;
use az_token_sale_to_airdrop::az_button::Burn;
use az_token_sale_to_airdrop::az_button::Button;
use az_token_sale_to_airdrop::az_button::Mint;
use az_token_sale_to_airdrop::az_button::Transfer;
use az_token_sale_to_airdrop::az_button::_emit_approval_event;
use az_token_sale_to_airdrop::az_button::_emit_transfer_event;
use az_token_sale_to_airdrop::primitives::AccountId;

fn holder(n: u8) -> AccountId {
    let mut bytes = [0u8; 32];
    bytes[0] = n;
    bytes[31] = !n;
    AccountId(bytes)
}

#[test]
fn transfer_event_carries_its_parts() {
    assert_eq!(
        _emit_transfer_event(Some(holder(1)), None, 9),
        Transfer { from: Some(holder(1)), to: None, value: 9 }
    );
    assert_eq!(
        _emit_transfer_event(None, Some(holder(2)), 0),
        Transfer { from: None, to: Some(holder(2)), value: 0 }
    );
}

#[test]
fn approval_event_carries_its_parts() {
    assert_eq!(
        _emit_approval_event(holder(1), holder(2), 77),
        Approval { owner: holder(1), spender: holder(2), value: 77 }
    );
}

#[test]
fn new_token_mints_cap_to_creator() {
    let (button, mint) = Button::new(
        holder(2),
        28_000_000_000_000,
        Some("Button".to_string()),
        Some("BTN".to_string()),
        6,
    );
    assert_eq!(button.cap, 28_000_000_000_000);
    assert_eq!(button.name, Some("Button".to_string()));
    assert_eq!(button.symbol, Some("BTN".to_string()));
    assert_eq!(button.decimals, 6);
    assert_eq!(mint, Mint { to: holder(2), amount: 28_000_000_000_000 });
}

#[test]
fn burning_own_tokens_touches_no_allowance() {
    assert_eq!(
        Button::burn(holder(2), holder(2), 1_000_000_000_000, 0),
        Ok(Burn { approval: None, account: holder(2), amount: 1_000_000_000_000 })
    );
}

#[test]
fn burning_anothers_tokens_needs_and_uses_allowance() {
    assert_eq!(
        Button::burn(holder(1), holder(2), 27_000_000_000_000, 0),
        Err(PSP22Error::InsufficientAllowance)
    );
    assert_eq!(
        Button::burn(holder(1), holder(2), 1_000_000_000_000, 28_000_000_000_000),
        Ok(Burn {
            approval: Some(Approval {
                owner: holder(2),
                spender: holder(1),
                value: 27_000_000_000_000
            }),
            account: holder(2),
            amount: 1_000_000_000_000,
        })
    );
    assert_eq!(
        Button::burn(holder(1), holder(2), 5, 5),
        Ok(Burn {
            approval: Some(Approval { owner: holder(2), spender: holder(1), value: 0 }),
            account: holder(2),
            amount: 5,
        })
    );
}
