use codedestate::error::ContractError;
use codedestate::execute::Cw721Contract;
use codedestate::expiration::{BlockInfo, Expiration};
use codedestate::msg::ExecuteMsg;
use codedestate::payment::{Coin, Payment};
use codedestate::token::{Approval, Caller, TokenInfo};

fn record_caller(sender: &str) -> Caller {
    Caller { sender: sender.to_string(), block: BlockInfo { height: 100, time: 5_000 }, operator_grant: None }
}

fn operator(sender: &str, expires: Expiration) -> Caller {
    Caller { sender: sender.to_string(), block: BlockInfo { height: 100, time: 5_000 }, operator_grant: Some(expires) }
}

fn plain_record() -> TokenInfo<u8> {
    TokenInfo::new("owner".to_string(), Some("uri".to_string()), 9)
}

#[test]
fn owner_can_approve_and_send() {
    let contract = Cw721Contract {};
    let token = plain_record();
    assert_eq!(contract.check_can_approve(&record_caller("owner"), &token), Ok(()));
    assert_eq!(contract.check_can_send(&record_caller("owner"), &token), Ok(()));
}

#[test]
fn stranger_can_neither_approve_nor_send() {
    let contract = Cw721Contract {};
    let token = plain_record();
    assert_eq!(contract.check_can_approve(&record_caller("stranger"), &token), Err(ContractError::NotOwner));
    assert_eq!(contract.check_can_send(&record_caller("stranger"), &token), Err(ContractError::NotOwner));
}

#[test]
fn operator_acts_until_the_grant_lapses() {
    let contract = Cw721Contract {};
    let token = plain_record();
    for live in [Expiration::Never, Expiration::AtHeight(101), Expiration::AtTime(5_001)] {
        assert_eq!(contract.check_can_approve(&operator("agent", live), &token), Ok(()));
        assert_eq!(contract.check_can_send(&operator("agent", live), &token), Ok(()));
    }
    for lapsed in [Expiration::AtHeight(100), Expiration::AtHeight(1), Expiration::AtTime(5_000)] {
        assert_eq!(contract.check_can_approve(&operator("agent", lapsed), &token), Err(ContractError::NotOwner));
        assert_eq!(contract.check_can_send(&operator("agent", lapsed), &token), Err(ContractError::NotOwner));
    }
}

#[test]
fn approved_spender_can_send_but_not_approve() {
    let contract = Cw721Contract {};
    let mut token = plain_record();
    token.approvals = vec![
        Approval { spender: "lapsed".to_string(), expires: Expiration::AtHeight(100) },
        Approval { spender: "spender".to_string(), expires: Expiration::AtHeight(101) },
    ];
    assert_eq!(contract.check_can_send(&record_caller("spender"), &token), Ok(()));
    assert_eq!(contract.check_can_approve(&record_caller("spender"), &token), Err(ContractError::NotOwner));
    assert_eq!(contract.check_can_send(&record_caller("lapsed"), &token), Err(ContractError::NotOwner));
    assert_eq!(contract.check_can_send(&operator("lapsed", Expiration::Never), &token), Ok(()));
}

#[test]
fn mint_makes_an_empty_record_of_the_caller() {
    let contract = Cw721Contract {};
    let token = contract.mint(None, &record_caller("minter"), Some("uri".to_string()), 7u8).unwrap();
    assert_eq!(token, TokenInfo::new("minter".to_string(), Some("uri".to_string()), 7u8));
    assert_eq!(token.owner, "minter");
    assert!(token.approvals.is_empty());
    assert_eq!(token.token_uri, Some("uri".to_string()));
    assert_eq!(token.extension, 7);
    assert!(token.is_wf());
}

#[test]
fn mint_of_a_claimed_identifier_fails() {
    let contract = Cw721Contract {};
    assert_eq!(contract.mint(Some(plain_record()), &record_caller("minter"), None, 7u8), Err(ContractError::Claimed));
}

#[test]
fn metadata_is_set_by_the_owner() {
    let contract = Cw721Contract {};
    let mut token = plain_record();
    assert_eq!(
        contract.setmetadata(&mut token, &record_caller("stranger"), "new".to_string()),
        Err(ContractError::NotOwner)
    );
    assert_eq!(token.token_uri, Some("uri".to_string()));
    assert_eq!(contract.setmetadata(&mut token, &record_caller("owner"), "new".to_string()), Ok(vec![]));
    assert_eq!(token.token_uri, Some("new".to_string()));
}

#[test]
fn transfer_changes_the_owner_and_drops_approvals() {
    let contract = Cw721Contract {};
    let mut token = plain_record();
    token.approvals = vec![Approval { spender: "spender".to_string(), expires: Expiration::Never }];
    assert_eq!(
        contract._transfer_nft(&mut token, &record_caller("stranger"), "stranger".to_string()),
        Err(ContractError::NotOwner)
    );
    assert_eq!(token.owner, "owner");
    assert_eq!(contract._transfer_nft(&mut token, &record_caller("spender"), "buyer".to_string()), Ok(vec![]));
    assert_eq!(token.owner, "buyer");
    assert!(token.approvals.is_empty());
    assert_eq!(contract.check_can_send(&record_caller("spender"), &token), Err(ContractError::NotOwner));
}

#[test]
fn approval_replaces_the_one_for_the_same_spender() {
    let contract = Cw721Contract {};
    let mut token = plain_record();
    let owner = record_caller("owner");
    assert_eq!(contract._update_approvals(&mut token, &owner, "a".to_string(), true, None), Ok(vec![]));
    assert_eq!(
        contract._update_approvals(&mut token, &owner, "b".to_string(), true, Some(Expiration::AtHeight(200))),
        Ok(vec![])
    );
    assert_eq!(
        contract._update_approvals(&mut token, &owner, "a".to_string(), true, Some(Expiration::AtTime(9_000))),
        Ok(vec![])
    );
    assert_eq!(
        token.approvals,
        vec![
            Approval { spender: "b".to_string(), expires: Expiration::AtHeight(200) },
            Approval { spender: "a".to_string(), expires: Expiration::AtTime(9_000) },
        ]
    );
    assert!(token.is_wf());
    assert_eq!(contract._update_approvals(&mut token, &owner, "b".to_string(), false, None), Ok(vec![]));
    assert_eq!(token.approvals, vec![Approval { spender: "a".to_string(), expires: Expiration::AtTime(9_000) }]);
    assert_eq!(contract._update_approvals(&mut token, &owner, "c".to_string(), false, None), Ok(vec![]));
    assert_eq!(token.approvals.len(), 1);
}

#[test]
fn approval_that_has_lapsed_already_is_refused() {
    let contract = Cw721Contract {};
    let mut token = plain_record();
    token.approvals = vec![Approval { spender: "a".to_string(), expires: Expiration::Never }];
    let before = token.clone();
    assert_eq!(
        contract._update_approvals(&mut token, &record_caller("owner"), "a".to_string(), true, Some(Expiration::AtHeight(100))),
        Err(ContractError::Expired)
    );
    assert_eq!(token, before);
    assert_eq!(
        contract._update_approvals(&mut token, &record_caller("a"), "b".to_string(), true, None),
        Err(ContractError::NotOwner)
    );
    assert_eq!(
        contract._update_approvals(&mut token, &record_caller("owner"), "a".to_string(), false, Some(Expiration::AtHeight(1))),
        Ok(vec![])
    );
    assert!(token.approvals.is_empty());
}

#[test]
fn record_with_two_approvals_for_one_spender_is_not_well_formed() {
    let mut token = plain_record();
    token.approvals = vec![
        Approval { spender: "a".to_string(), expires: Expiration::Never },
        Approval { spender: "b".to_string(), expires: Expiration::Never },
    ];
    assert!(token.is_wf());
    token.approvals.push(Approval { spender: "a".to_string(), expires: Expiration::AtHeight(3) });
    assert!(!token.is_wf());
}

#[test]
fn blanket_grant_defaults_to_never_and_must_not_have_lapsed() {
    let contract = Cw721Contract {};
    assert_eq!(contract.approve_all(&record_caller("owner"), None), Ok(Expiration::Never));
    assert_eq!(
        contract.approve_all(&record_caller("owner"), Some(Expiration::AtHeight(101))),
        Ok(Expiration::AtHeight(101))
    );
    assert_eq!(
        contract.approve_all(&record_caller("owner"), Some(Expiration::AtHeight(100))),
        Err(ContractError::Expired)
    );
    assert_eq!(contract.approve_all(&record_caller("owner"), Some(Expiration::AtTime(5_000))), Err(ContractError::Expired));
}

#[test]
fn burn_is_decided_by_the_right_to_dispose() {
    let contract = Cw721Contract {};
    let token = plain_record();
    assert_eq!(contract.burn(&token, &record_caller("owner")), Ok(vec![]));
    assert_eq!(contract.burn(&token, &record_caller("stranger")), Err(ContractError::NotOwner));
}

fn two_nights() -> Vec<String> {
    vec!["2024/01/01".to_string(), "2024/01/03".to_string()]
}

#[test]
fn commands_are_routed_to_their_operations() {
    let contract = Cw721Contract {};
    let mut token = plain_record();
    let owner = record_caller("owner");
    let guest = record_caller("guest");
    let run = |token: &mut TokenInfo<u8>, who: &Caller, msg: ExecuteMsg| contract.execute(token, who, msg);

    assert_eq!(run(&mut token, &owner, ExecuteMsg::SetMetadata { token_uri: "m".to_string() }), Ok(vec![]));
    assert_eq!(token.token_uri, Some("m".to_string()));

    let list = ExecuteMsg::SetListForShortTermRental {
        denom: "u".to_string(),
        price_per_day: 10,
        auto_approve: false,
        available_period: vec![],
    };
    assert_eq!(run(&mut token, &guest, list.clone()), Err(ContractError::NotOwner));
    assert_eq!(run(&mut token, &owner, list), Ok(vec![]));
    let funds = Coin { denom: "u".to_string(), amount: 20 };
    assert_eq!(
        run(&mut token, &guest, ExecuteMsg::SetReservationForShortTerm { renting_period: two_nights(), funds }),
        Ok(vec![])
    );
    assert_eq!(
        run(
            &mut token,
            &owner,
            ExecuteMsg::SetApproveForShortTerm { traveler: "guest".to_string(), renting_period: two_nights() }
        ),
        Ok(vec![Payment { to_address: "owner".to_string(), denom: "u".to_string(), amount: 20 }])
    );
    assert_eq!(
        run(
            &mut token,
            &owner,
            ExecuteMsg::RejectReservationForShortterm { traveler: "guest".to_string(), renting_period: two_nights() }
        ),
        Err(ContractError::ApprovedAlready)
    );
    assert_eq!(
        run(&mut token, &guest, ExecuteMsg::CancelReservationForShortterm { renting_period: two_nights() }),
        Err(ContractError::ApprovedAlready)
    );
    assert_eq!(
        run(&mut token, &owner, ExecuteMsg::WithdrawToHost { amount: 20, denom: "u".to_string() }),
        Ok(vec![Payment { to_address: "owner".to_string(), denom: "u".to_string(), amount: 20 }])
    );
    assert_eq!(
        run(
            &mut token,
            &owner,
            ExecuteMsg::FinalizeShortTermRental { traveler: "guest".to_string(), renting_period: two_nights() }
        ),
        Ok(vec![])
    );
    assert!(token.shortterm_rental.bookings.is_empty());
    assert_eq!(run(&mut token, &owner, ExecuteMsg::SetUnlistForShorttermRental), Ok(vec![]));
    assert_eq!(token.shortterm_rental.listed, None);
    assert!(token.is_wf());
}

#[test]
fn commands_of_the_lease_are_routed_to_their_operations() {
    let contract = Cw721Contract {};
    let mut token = plain_record();
    let owner = record_caller("owner");
    let tenant = record_caller("tenant");
    let run = |token: &mut TokenInfo<u8>, who: &Caller, msg: ExecuteMsg| contract.execute(token, who, msg);

    let list = ExecuteMsg::SetListForLongTermRental {
        islisted: true,
        denom: "u".to_string(),
        price_per_month: 100,
        refundable_deposit: 50,
        available_period: two_nights(),
    };
    assert_eq!(run(&mut token, &owner, list), Ok(vec![]));
    let reserve = ExecuteMsg::SetReservationForLongTerm {
        isreserved: true,
        deposit_amount: 50,
        deposit_denom: "u".to_string(),
        renting_period: two_nights(),
    };
    assert_eq!(run(&mut token, &tenant, reserve.clone()), Ok(vec![]));
    assert_eq!(run(&mut token, &owner, ExecuteMsg::RejectReservationForLongterm), Ok(vec![]));
    assert_eq!(token.longterm_rental.tenant_address, None);
    assert_eq!(run(&mut token, &tenant, reserve.clone()), Ok(vec![]));
    assert_eq!(run(&mut token, &tenant, ExecuteMsg::CancelReservationForLongterm), Ok(vec![]));
    assert_eq!(run(&mut token, &tenant, reserve), Ok(vec![]));
    assert_eq!(
        run(&mut token, &owner, ExecuteMsg::Approve { spender: "tenant".to_string(), expires: None }),
        Ok(vec![])
    );
    assert_eq!(run(&mut token, &tenant, ExecuteMsg::ProceedLongtermRental), Ok(vec![]));
    assert_eq!(run(&mut token, &tenant, ExecuteMsg::DepositForLongTermRental { amount: 70 }), Ok(vec![]));
    assert_eq!(
        run(&mut token, &owner, ExecuteMsg::WithdrawToLandlord { amount: 70, denom: "u".to_string() }),
        Err(ContractError::EjariNotConfirmed)
    );
    assert_eq!(run(&mut token, &owner, ExecuteMsg::SetEjariForLongTermRental { ejari: false }), Ok(vec![]));
    assert_eq!(
        run(&mut token, &owner, ExecuteMsg::WithdrawToLandlord { amount: 70, denom: "u".to_string() }),
        Ok(vec![Payment { to_address: "owner".to_string(), denom: "u".to_string(), amount: 70 }])
    );
    assert_eq!(run(&mut token, &owner, ExecuteMsg::Revoke { spender: "tenant".to_string() }), Ok(vec![]));
    assert_eq!(run(&mut token, &tenant, ExecuteMsg::FinalizeLongTermRental), Err(ContractError::NotOwner));
    assert_eq!(run(&mut token, &owner, ExecuteMsg::FinalizeLongTermRental), Ok(vec![]));
    assert_eq!(token.longterm_rental.escrow.deposit_total, 0);
    assert_eq!(run(&mut token, &owner, ExecuteMsg::SetUnlistForLongtermRental), Ok(vec![]));
    assert_eq!(token.longterm_rental.listed, None);
    assert_eq!(run(&mut token, &tenant, ExecuteMsg::Burn), Err(ContractError::NotOwner));
    assert_eq!(run(&mut token, &owner, ExecuteMsg::Burn), Ok(vec![]));
    assert_eq!(
        run(&mut token, &owner, ExecuteMsg::TransferNft { recipient: "tenant".to_string() }),
        Ok(vec![])
    );
    assert_eq!(token.owner, "tenant");
    assert!(token.is_wf());
}
