use frame_support::PalletId;
use sp_runtime::traits::AccountIdConversion;
use sp_runtime::AccountId32;
use xcm_helper::location::{Junction, Location, NetworkId};
use xcm_helper::message::{
    Instruction, OriginKind, QueryResponseInfo, Weight, WeightLimit, Xcm, REPORT_SLOT,
    TRANSACT_SLOT,
};
use xcm_helper::operation::XcmHelper;
use xcm_helper::pallet::{
    Config, Debit, Error, Event, OriginCheck, Pallet, XcmCall, XcmWeightFeeMisc,
};
use xcm_helper::ump::RelayNetwork;

fn refund() -> Location {
    Location { parents: 0, interior: vec![Junction::AccountId32 { network: None, id: [9; 32] }] }
}

fn config() -> Config {
    Config {
        relay_network: RelayNetwork::Kusama,
        pallet_id: *b"par/fees",
        refund_location: refund(),
        universal_location: vec![
            Junction::GlobalConsensus(NetworkId::Kusama),
            Junction::Parachain(2087),
        ],
        notify_timeout: 100,
        relay_currency: 4,
    }
}

fn weight(ref_time: u64, proof_size: u64) -> Weight {
    Weight { ref_time, proof_size }
}

fn misc(ref_time: u64, fee: u128) -> XcmWeightFeeMisc {
    XcmWeightFeeMisc { weight: weight(ref_time, 0), fee }
}

fn zero() -> XcmWeightFeeMisc {
    misc(0, 0)
}

fn kinds() -> Vec<XcmCall> {
    vec![
        XcmCall::Bond,
        XcmCall::BondExtra,
        XcmCall::Unbond,
        XcmCall::Rebond,
        XcmCall::WithdrawUnbonded,
        XcmCall::Nominate,
        XcmCall::TransferToSiblingchain(sibling(1000)),
        XcmCall::TransferToSiblingchain(sibling(2000)),
    ]
}

fn sibling(id: u32) -> Location {
    Location { parents: 1, interior: vec![Junction::Parachain(id)] }
}

fn skeleton(call: Vec<u8>, w: Weight, fees: u128) -> Vec<Instruction> {
    vec![
        Instruction::WithdrawAsset { amount: fees },
        Instruction::BuyExecution { fees, weight_limit: WeightLimit::Unlimited },
        Instruction::Transact {
            origin_kind: OriginKind::SovereignAccount,
            require_weight_at_most: w,
            call,
        },
        Instruction::RefundSurplus,
        Instruction::DepositAsset { amount: fees, beneficiary: refund() },
    ]
}

#[test]
fn a_fresh_helper_reads_every_kind_as_zero() {
    let pallet = Pallet::new(config());
    for kind in kinds() {
        assert_eq!(pallet.xcm_weight_fee(&kind), zero());
        assert_eq!(pallet.xcm_weight_fee(&kind), zero());
        assert_eq!(pallet.xcm_weight_fee(&kind), XcmWeightFeeMisc::default());
    }
    assert_eq!(pallet.get_xcm_weight_fee_to_sibling(sibling(1000)), zero());
    assert!(pallet.events().is_empty());
    assert_eq!(pallet.config(), &config());
}

#[test]
fn set_then_get_for_every_kind() {
    for (i, kind) in kinds().into_iter().enumerate() {
        let mut pallet = Pallet::new(config());
        let value = misc(1000 + i as u64, 10 + i as u128);
        let probe = kinds().remove(i);
        assert_eq!(pallet.update_xcm_weight_fee(OriginCheck::Authorized, kind, value), Ok(()));
        assert_eq!(pallet.xcm_weight_fee(&probe), value);
        for (j, other) in kinds().iter().enumerate() {
            if j != i {
                assert_eq!(pallet.xcm_weight_fee(other), zero());
            }
        }
        assert_eq!(pallet.events(), &vec![Event::XcmWeightFeeUpdated(value)]);
    }
}

#[test]
fn a_second_update_replaces_the_first() {
    let mut pallet = Pallet::new(config());
    assert!(pallet.update_xcm_weight_fee(OriginCheck::Authorized, XcmCall::Bond, misc(1, 1)).is_ok());
    assert!(pallet
        .update_xcm_weight_fee(OriginCheck::Authorized, XcmCall::Unbond, misc(2, 2))
        .is_ok());
    assert!(pallet.update_xcm_weight_fee(OriginCheck::Authorized, XcmCall::Bond, misc(3, 3)).is_ok());
    assert_eq!(pallet.xcm_weight_fee(&XcmCall::Bond), misc(3, 3));
    assert_eq!(pallet.xcm_weight_fee(&XcmCall::Unbond), misc(2, 2));
    assert_eq!(pallet.xcm_weight_fee(&XcmCall::Rebond), zero());
    assert_eq!(
        pallet.events(),
        &vec![
            Event::XcmWeightFeeUpdated(misc(1, 1)),
            Event::XcmWeightFeeUpdated(misc(2, 2)),
            Event::XcmWeightFeeUpdated(misc(3, 3)),
        ]
    );
}

#[test]
fn sibling_fees_are_kept_by_location() {
    let mut pallet = Pallet::new(config());
    let kind = XcmCall::TransferToSiblingchain(sibling(1000));
    assert!(pallet.update_xcm_weight_fee(OriginCheck::Authorized, kind, misc(7, 8)).is_ok());
    assert_eq!(pallet.get_xcm_weight_fee_to_sibling(sibling(1000)), misc(7, 8));
    assert_eq!(pallet.get_xcm_weight_fee_to_sibling(sibling(1001)), zero());
    assert_eq!(pallet.get_xcm_weight_fee_to_sibling(Location::parent()), zero());
}

#[test]
fn a_zero_fee_is_refused_and_changes_nothing() {
    let mut pallet = Pallet::new(config());
    assert!(pallet.update_xcm_weight_fee(OriginCheck::Authorized, XcmCall::Bond, misc(5, 6)).is_ok());
    assert_eq!(
        pallet.update_xcm_weight_fee(OriginCheck::Authorized, XcmCall::Bond, misc(9, 0)),
        Err(Error::ZeroXcmFees)
    );
    assert_eq!(pallet.xcm_weight_fee(&XcmCall::Bond), misc(5, 6));
    assert_eq!(pallet.events().len(), 1);
}

#[test]
fn a_zero_weight_is_refused_and_changes_nothing() {
    let mut pallet = Pallet::new(config());
    assert!(pallet.update_xcm_weight_fee(OriginCheck::Authorized, XcmCall::Bond, misc(5, 6)).is_ok());
    assert_eq!(
        pallet.update_xcm_weight_fee(OriginCheck::Authorized, XcmCall::Bond, misc(0, 9)),
        Err(Error::ZeroXcmWeightMisc)
    );
    assert_eq!(pallet.xcm_weight_fee(&XcmCall::Bond), misc(5, 6));
    assert_eq!(pallet.events().len(), 1);
}

#[test]
fn a_weight_with_one_dimension_set_is_not_zero() {
    let mut pallet = Pallet::new(config());
    let only_proof = XcmWeightFeeMisc { weight: weight(0, 1), fee: 1 };
    assert_eq!(
        pallet.update_xcm_weight_fee(OriginCheck::Authorized, XcmCall::Nominate, only_proof),
        Ok(())
    );
    assert_eq!(pallet.xcm_weight_fee(&XcmCall::Nominate), only_proof);
    assert!(weight(0, 0).is_zero());
    assert!(!weight(0, 1).is_zero());
    assert!(!weight(1, 0).is_zero());
    assert_eq!(Weight::zero(), weight(0, 0));
}

#[test]
fn the_fee_is_looked_at_before_the_weight() {
    let mut pallet = Pallet::new(config());
    assert_eq!(
        pallet.update_xcm_weight_fee(OriginCheck::Authorized, XcmCall::Bond, zero()),
        Err(Error::ZeroXcmFees)
    );
}

#[test]
fn an_unauthorized_update_is_refused_and_changes_nothing() {
    let mut pallet = Pallet::new(config());
    assert!(pallet.update_xcm_weight_fee(OriginCheck::Authorized, XcmCall::Bond, misc(5, 6)).is_ok());
    assert_eq!(
        pallet.update_xcm_weight_fee(OriginCheck::Unauthorized, XcmCall::Bond, misc(7, 8)),
        Err(Error::BadOrigin)
    );
    assert_eq!(
        pallet.update_xcm_weight_fee(OriginCheck::Unauthorized, XcmCall::Unbond, zero()),
        Err(Error::BadOrigin)
    );
    assert_eq!(pallet.xcm_weight_fee(&XcmCall::Bond), misc(5, 6));
    assert_eq!(pallet.xcm_weight_fee(&XcmCall::Unbond), zero());
    assert_eq!(pallet.events(), &vec![Event::XcmWeightFeeUpdated(misc(5, 6))]);
}

#[test]
fn the_account_is_derived_from_the_pallet_id() {
    let pallet = Pallet::new(config());
    let mut expected = Vec::new();
    expected.extend(b"modl");
    expected.extend(b"par/fees");
    expected.extend([0u8; 20]);
    assert_eq!(pallet.account_id().to_vec(), expected);
    let derived: AccountId32 = PalletId(*b"par/fees").into_account_truncating();
    let derived: [u8; 32] = derived.into();
    assert_eq!(pallet.account_id(), derived);
    assert_ne!(pallet.account_id()[..8].to_vec(), b"par/fees".to_vec());
}

#[test]
fn the_refund_location_is_the_configured_one() {
    let pallet = Pallet::new(config());
    assert_eq!(pallet.refund_location(), refund());
}

#[test]
fn a_built_message_is_the_five_instruction_skeleton() {
    let message =
        Pallet::do_ump_transact(vec![1, 2, 3], weight(1000, 7), refund(), 10, Debit::Taken(10))
            .unwrap();
    assert_eq!(message.len(), 5);
    assert_eq!(message, Xcm(skeleton(vec![1, 2, 3], weight(1000, 7), 10)));
}

#[test]
fn a_short_debit_still_builds_the_message() {
    for taken in [0u128, 3, 10, 11] {
        let message =
            Pallet::do_ump_transact(vec![1], weight(1, 1), refund(), 10, Debit::Taken(taken));
        assert_eq!(message, Ok(Xcm(skeleton(vec![1], weight(1, 1), 10))));
    }
}

#[test]
fn a_failed_debit_builds_nothing() {
    let result = Pallet::do_ump_transact(vec![1], weight(1, 1), refund(), 10, Debit::Failed);
    assert_eq!(result, Err(Error::InsufficientXcmFees));
}

#[test]
fn the_report_goes_into_the_third_place() {
    let pallet = Pallet::new(config());
    let mut message =
        Pallet::do_ump_transact(vec![1], weight(5, 5), refund(), 10, Debit::Taken(10)).unwrap();
    let result =
        pallet.report_outcome_notify(&mut message, &Location::parent(), weight(77, 3), 42);
    assert_eq!(result, Ok(42));
    let mut expected = skeleton(vec![1], weight(5, 5), 10);
    expected.insert(
        2,
        Instruction::SetAppendix {
            report_error: QueryResponseInfo {
                destination: Location { parents: 0, interior: vec![Junction::Parachain(2087)] },
                query_id: 42,
                max_weight: weight(77, 3),
            },
        },
    );
    assert_eq!(message.len(), 6);
    assert_eq!(message, Xcm(expected));
    assert_eq!(REPORT_SLOT, 2);
}

#[test]
fn a_further_call_goes_into_the_fourth_place() {
    let pallet = Pallet::new(config());
    let mut message =
        Pallet::do_ump_transact(vec![1], weight(5, 5), refund(), 10, Debit::Taken(10)).unwrap();
    pallet.report_outcome_notify(&mut message, &Location::parent(), weight(77, 3), 42).unwrap();
    let reported = message.0.len();
    Pallet::append_transact(&mut message, vec![8, 9], weight(6, 6));
    assert_eq!(reported, 6);
    assert_eq!(message.len(), 7);
    assert_eq!(
        message.0[3],
        Instruction::Transact {
            origin_kind: OriginKind::SovereignAccount,
            require_weight_at_most: weight(6, 6),
            call: vec![8, 9],
        }
    );
    assert!(matches!(message.0[2], Instruction::SetAppendix { .. }));
    assert_eq!(
        message.0[4],
        Instruction::Transact {
            origin_kind: OriginKind::SovereignAccount,
            require_weight_at_most: weight(5, 5),
            call: vec![1],
        }
    );
    assert_eq!(message.0[5], Instruction::RefundSurplus);
    assert_eq!(TRANSACT_SLOT, 3);
}

#[test]
fn a_responder_without_a_way_back_leaves_the_message_alone() {
    let pallet = Pallet::new(config());
    let mut message =
        Pallet::do_ump_transact(vec![1], weight(5, 5), refund(), 10, Debit::Taken(10)).unwrap();
    let far = Location { parents: 9, interior: Vec::new() };
    assert_eq!(
        pallet.report_outcome_notify(&mut message, &far, weight(1, 1), 1),
        Err(Error::MultiLocationNotInvertible)
    );
    assert_eq!(message, Xcm(skeleton(vec![1], weight(5, 5), 10)));
    assert_eq!(pallet.return_path(&far), Err(Error::MultiLocationNotInvertible));
    assert_eq!(
        pallet.return_path(&Location::parent()),
        Ok(Location { parents: 0, interior: vec![Junction::Parachain(2087)] })
    );
}

#[test]
fn a_further_call_put_in_before_the_report_ends_up_fifth() {
    let pallet = Pallet::new(config());
    let mut message =
        Pallet::do_ump_transact(vec![1], weight(5, 5), refund(), 10, Debit::Taken(10)).unwrap();
    Pallet::append_transact(&mut message, vec![8, 9], weight(6, 6));
    pallet.report_outcome_notify(&mut message, &Location::parent(), weight(77, 3), 42).unwrap();
    assert_eq!(message.len(), 7);
    assert!(matches!(message.0[2], Instruction::SetAppendix { .. }));
    assert_eq!(
        message.0[3],
        Instruction::Transact {
            origin_kind: OriginKind::SovereignAccount,
            require_weight_at_most: weight(5, 5),
            call: vec![1],
        }
    );
    assert_eq!(
        message.0[4],
        Instruction::Transact {
            origin_kind: OriginKind::SovereignAccount,
            require_weight_at_most: weight(6, 6),
            call: vec![8, 9],
        }
    );
}
