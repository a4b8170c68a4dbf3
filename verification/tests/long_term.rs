use codedestate::error::ContractError;
use codedestate::escrow::EscrowLedger;
use codedestate::execute::Cw721Contract;
use codedestate::expiration::{BlockInfo, Expiration};
use codedestate::longterm::{ComplianceFlag, Landlord, LongTermRental, Tenant};
use codedestate::payment::Payment;
use codedestate::token::{Approval, Caller, TokenInfo};

fn lease_caller(sender: &str) -> Caller {
    Caller { sender: sender.to_string(), block: BlockInfo { height: 100, time: 5_000 }, operator_grant: None }
}

fn lease_record() -> TokenInfo<u8> {
    TokenInfo::new("owner".to_string(), None, 0)
}

fn lease_period() -> Vec<String> {
    vec!["2024/01/01".to_string(), "2025/01/01".to_string()]
}

fn list(token: &mut TokenInfo<u8>) {
    let outcome = Cw721Contract {}.setlistforlongtermrental(
        token,
        &lease_caller("owner"),
        true,
        "u".to_string(),
        1_000,
        500,
        lease_period(),
    );
    assert_eq!(outcome, Ok(vec![]));
}

fn reserve(token: &mut TokenInfo<u8>, tenant: &str) {
    let outcome =
        Cw721Contract {}.setreservationforlongterm(token, &lease_caller(tenant), true, 500, "u".to_string(), lease_period());
    assert_eq!(outcome, Ok(vec![]));
}

#[test]
fn new_record_is_unlisted_and_unreserved() {
    let token = lease_record();
    assert_eq!(
        token.longterm_rental,
        LongTermRental {
            listed: None,
            landlord: None,
            reserved: None,
            tenant_address: None,
            tenant: None,
            escrow: EscrowLedger { deposit_total: 0, withdrawn_total: 0 },
            renting_active: None,
            compliance_flag: ComplianceFlag::Unset,
        }
    );
    assert!(token.is_wf());
}

#[test]
fn listing_stores_the_terms() {
    let mut token = lease_record();
    list(&mut token);
    assert_eq!(token.longterm_rental.listed, Some(true));
    assert_eq!(
        token.longterm_rental.landlord,
        Some(Landlord {
            denom: "u".to_string(),
            price_per_month: 1_000,
            refundable_deposit: 500,
            available_period: lease_period(),
        })
    );
    assert!(token.is_wf());
}

#[test]
fn listing_lists_whatever_the_flag_says() {
    let mut token = lease_record();
    let outcome = Cw721Contract {}.setlistforlongtermrental(
        &mut token,
        &lease_caller("owner"),
        false,
        "u".to_string(),
        1,
        2,
        vec![],
    );
    assert_eq!(outcome, Ok(vec![]));
    assert_eq!(token.longterm_rental.listed, Some(true));
}

#[test]
fn listing_a_lease_needs_the_owner() {
    let mut token = lease_record();
    let before = token.clone();
    let outcome = Cw721Contract {}.setlistforlongtermrental(
        &mut token,
        &lease_caller("stranger"),
        true,
        "u".to_string(),
        1_000,
        500,
        lease_period(),
    );
    assert_eq!(outcome, Err(ContractError::NotOwner));
    assert_eq!(token, before);
}

#[test]
fn unlisting_clears_the_terms() {
    let mut token = lease_record();
    list(&mut token);
    assert_eq!(Cw721Contract {}.setunlistforlongtermrental(&mut token, &lease_caller("owner")), Ok(vec![]));
    assert_eq!(token.longterm_rental, LongTermRental::new());
    assert_eq!(
        Cw721Contract {}.setunlistforlongtermrental(&mut token, &lease_caller("stranger")),
        Err(ContractError::NotOwner)
    );
}

#[test]
fn unlisting_an_unlisted_record_changes_nothing() {
    let mut token = lease_record();
    let before = token.clone();
    assert_eq!(Cw721Contract {}.setunlistforlongtermrental(&mut token, &lease_caller("owner")), Ok(vec![]));
    assert_eq!(token, before);
    list(&mut token);
    assert_eq!(Cw721Contract {}.setunlistforlongtermrental(&mut token, &lease_caller("owner")), Ok(vec![]));
    let once = token.clone();
    assert_eq!(Cw721Contract {}.setunlistforlongtermrental(&mut token, &lease_caller("owner")), Ok(vec![]));
    assert_eq!(token, once);
}

#[test]
fn reservation_records_the_tenant_as_declared() {
    let mut token = lease_record();
    list(&mut token);
    let outcome = Cw721Contract {}.setreservationforlongterm(
        &mut token,
        &lease_caller("tenant"),
        false,
        77,
        "other".to_string(),
        lease_period(),
    );
    assert_eq!(outcome, Ok(vec![]));
    assert_eq!(token.longterm_rental.reserved, Some(true));
    assert_eq!(token.longterm_rental.tenant_address, Some("tenant".to_string()));
    assert_eq!(
        token.longterm_rental.tenant,
        Some(Tenant { deposit_amount: 77, deposit_denom: "other".to_string(), renting_period: lease_period() })
    );
    assert_eq!(token.longterm_rental.escrow, EscrowLedger::new());
    assert!(token.is_wf());
}

#[test]
fn cancel_by_another_address_fails_and_by_the_tenant_clears() {
    let mut token = lease_record();
    list(&mut token);
    reserve(&mut token, "tenant");
    let reserved = token.clone();
    assert_eq!(
        Cw721Contract {}.cancelreservationforlongterm(&mut token, &lease_caller("stranger")),
        Err(ContractError::NotReserved)
    );
    assert_eq!(token, reserved);
    assert_eq!(
        Cw721Contract {}.cancelreservationforlongterm(&mut token, &lease_caller("owner")),
        Err(ContractError::NotReserved)
    );
    assert_eq!(Cw721Contract {}.cancelreservationforlongterm(&mut token, &lease_caller("tenant")), Ok(vec![]));
    assert_eq!(token.longterm_rental.reserved, None);
    assert_eq!(token.longterm_rental.tenant_address, None);
    assert_eq!(token.longterm_rental.tenant, None);
    assert_eq!(token.longterm_rental.listed, Some(true));
    assert!(token.longterm_rental.landlord.is_some());
    assert!(token.is_wf());
}

#[test]
fn cancel_without_a_reservation_fails() {
    let mut token = lease_record();
    assert_eq!(
        Cw721Contract {}.cancelreservationforlongterm(&mut token, &lease_caller("tenant")),
        Err(ContractError::NotReserved)
    );
}

#[test]
fn reject_clears_the_reservation_and_pays_nothing() {
    let mut token = lease_record();
    list(&mut token);
    reserve(&mut token, "tenant");
    assert_eq!(
        Cw721Contract {}.rejectreservationforlongterm(&mut token, &lease_caller("tenant")),
        Err(ContractError::NotOwner)
    );
    assert_eq!(Cw721Contract {}.rejectreservationforlongterm(&mut token, &lease_caller("owner")), Ok(vec![]));
    assert_eq!(token.longterm_rental.reserved, None);
    assert_eq!(token.longterm_rental.tenant_address, None);
    assert_eq!(token.longterm_rental.tenant, None);
    assert_eq!(token.longterm_rental.listed, Some(true));
}

fn approved_tenant(token: &mut TokenInfo<u8>, tenant: &str) {
    token.approvals.push(Approval { spender: tenant.to_string(), expires: Expiration::Never });
}

#[test]
fn activation_needs_the_tenant_and_the_right_to_dispose() {
    let mut token = lease_record();
    list(&mut token);
    reserve(&mut token, "tenant");
    assert_eq!(
        Cw721Contract {}.proceedlongtermrental(&mut token, &lease_caller("owner")),
        Err(ContractError::NotReserved)
    );
    assert_eq!(
        Cw721Contract {}.proceedlongtermrental(&mut token, &lease_caller("tenant")),
        Err(ContractError::NotOwner)
    );
    assert_eq!(token.longterm_rental.renting_active, None);
    approved_tenant(&mut token, "tenant");
    assert_eq!(Cw721Contract {}.proceedlongtermrental(&mut token, &lease_caller("tenant")), Ok(vec![]));
    assert_eq!(token.longterm_rental.renting_active, Some(true));
}

#[test]
fn deposit_needs_an_active_lease() {
    let mut token = lease_record();
    list(&mut token);
    assert_eq!(
        Cw721Contract {}.depositforlongtermrental(&mut token, &lease_caller("tenant"), 10),
        Err(ContractError::NotOwner)
    );
    assert_eq!(
        Cw721Contract {}.depositforlongtermrental(&mut token, &lease_caller("owner"), 10),
        Err(ContractError::NotReserved)
    );
    reserve(&mut token, "tenant");
    approved_tenant(&mut token, "tenant");
    assert_eq!(
        Cw721Contract {}.depositforlongtermrental(&mut token, &lease_caller("owner"), 10),
        Err(ContractError::NotReserved)
    );
    assert_eq!(
        Cw721Contract {}.depositforlongtermrental(&mut token, &lease_caller("tenant"), 10),
        Err(ContractError::RentalNotActivated)
    );
    assert_eq!(token.longterm_rental.escrow, EscrowLedger::new());
    assert_eq!(Cw721Contract {}.proceedlongtermrental(&mut token, &lease_caller("tenant")), Ok(vec![]));
    assert_eq!(Cw721Contract {}.depositforlongtermrental(&mut token, &lease_caller("tenant"), 10), Ok(vec![]));
    assert_eq!(Cw721Contract {}.depositforlongtermrental(&mut token, &lease_caller("tenant"), 5), Ok(vec![]));
    assert_eq!(token.longterm_rental.escrow, EscrowLedger { deposit_total: 15, withdrawn_total: 0 });
    assert_eq!(
        Cw721Contract {}.depositforlongtermrental(&mut token, &lease_caller("tenant"), u128::MAX),
        Err(ContractError::Overflow)
    );
    assert_eq!(token.longterm_rental.escrow, EscrowLedger { deposit_total: 15, withdrawn_total: 0 });
}

fn active_lease_with(deposit: u128) -> TokenInfo<u8> {
    let mut token = lease_record();
    list(&mut token);
    reserve(&mut token, "tenant");
    approved_tenant(&mut token, "tenant");
    assert_eq!(Cw721Contract {}.proceedlongtermrental(&mut token, &lease_caller("tenant")), Ok(vec![]));
    assert_eq!(Cw721Contract {}.depositforlongtermrental(&mut token, &lease_caller("tenant"), deposit), Ok(vec![]));
    token
}

#[test]
fn withdrawal_fails_while_the_flag_is_unset_whatever_the_balance() {
    let mut token = active_lease_with(100);
    let before = token.clone();
    for amount in [0, 1, 100, 101, u128::MAX] {
        assert_eq!(
            Cw721Contract {}.withdrawtolandlord(&mut token, &lease_caller("owner"), amount, "u".to_string()),
            Err(ContractError::EjariNotConfirmed)
        );
        assert_eq!(token, before);
    }
}

#[test]
fn withdrawal_succeeds_once_the_flag_is_recorded_even_as_false() {
    let mut token = active_lease_with(100);
    assert_eq!(Cw721Contract {}.setejariforlongtermrental(&mut token, &lease_caller("owner"), false), Ok(vec![]));
    assert_eq!(token.longterm_rental.compliance_flag, ComplianceFlag::Confirmed(false));
    assert_eq!(
        Cw721Contract {}.withdrawtolandlord(&mut token, &lease_caller("owner"), 60, "coin".to_string()),
        Ok(vec![Payment { to_address: "owner".to_string(), denom: "coin".to_string(), amount: 60 }])
    );
    assert_eq!(token.longterm_rental.escrow, EscrowLedger { deposit_total: 100, withdrawn_total: 60 });
    assert_eq!(
        Cw721Contract {}.withdrawtolandlord(&mut token, &lease_caller("owner"), 41, "coin".to_string()),
        Err(ContractError::UnavailableAmount)
    );
    assert_eq!(
        Cw721Contract {}.withdrawtolandlord(&mut token, &lease_caller("owner"), 40, "coin".to_string()),
        Ok(vec![Payment { to_address: "owner".to_string(), denom: "coin".to_string(), amount: 40 }])
    );
    assert_eq!(token.longterm_rental.escrow, EscrowLedger { deposit_total: 100, withdrawn_total: 100 });
}

#[test]
fn withdrawal_succeeds_with_the_flag_recorded_as_true() {
    let mut token = active_lease_with(100);
    assert_eq!(Cw721Contract {}.setejariforlongtermrental(&mut token, &lease_caller("tenant"), true), Ok(vec![]));
    assert_eq!(token.longterm_rental.compliance_flag, ComplianceFlag::Confirmed(true));
    assert_eq!(
        Cw721Contract {}.withdrawtolandlord(&mut token, &lease_caller("owner"), 100, "u".to_string()),
        Ok(vec![Payment { to_address: "owner".to_string(), denom: "u".to_string(), amount: 100 }])
    );
}

#[test]
fn withdrawal_needs_the_owner_before_anything_else() {
    let mut token = active_lease_with(100);
    assert_eq!(
        Cw721Contract {}.withdrawtolandlord(&mut token, &lease_caller("tenant"), 1, "u".to_string()),
        Err(ContractError::NotOwner)
    );
    assert_eq!(
        Cw721Contract {}.setejariforlongtermrental(&mut token, &lease_caller("stranger"), true),
        Err(ContractError::NotOwner)
    );
}

#[test]
fn finalize_resets_the_lease_and_keeps_the_listing() {
    let mut token = active_lease_with(100);
    assert_eq!(Cw721Contract {}.setejariforlongtermrental(&mut token, &lease_caller("owner"), true), Ok(vec![]));
    assert_eq!(
        Cw721Contract {}.withdrawtolandlord(&mut token, &lease_caller("owner"), 30, "u".to_string()).map(|p| p.len()),
        Ok(1)
    );
    assert_eq!(
        Cw721Contract {}.finalizelongtermrental(&mut token, &lease_caller("stranger")),
        Err(ContractError::NotOwner)
    );
    assert_eq!(Cw721Contract {}.finalizelongtermrental(&mut token, &lease_caller("owner")), Ok(vec![]));
    let lease = &token.longterm_rental;
    assert_eq!(lease.reserved, None);
    assert_eq!(lease.tenant_address, None);
    assert_eq!(lease.tenant, None);
    assert_eq!(lease.escrow, EscrowLedger { deposit_total: 0, withdrawn_total: 0 });
    assert_eq!(lease.renting_active, None);
    assert_eq!(lease.compliance_flag, ComplianceFlag::Unset);
    assert_eq!(lease.listed, Some(true));
    assert!(lease.landlord.is_some());
    assert!(token.is_wf());
}

#[test]
fn state_with_terms_but_no_listing_is_not_well_formed() {
    let mut state = LongTermRental::new();
    assert!(state.is_wf());
    state.landlord = Some(Landlord {
        denom: "u".to_string(),
        price_per_month: 1,
        refundable_deposit: 1,
        available_period: vec![],
    });
    assert!(!state.is_wf());
    state.listed = Some(true);
    assert!(state.is_wf());
    state.tenant_address = Some("tenant".to_string());
    assert!(!state.is_wf());
    state.escrow = EscrowLedger { deposit_total: 1, withdrawn_total: 2 };
    state.tenant_address = None;
    assert!(!state.is_wf());
}
