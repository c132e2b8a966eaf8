//! Staking operations on the relay chain, each taken through the same
//! stages: planned, built once the fee was taken, correlated once the query
//! was registered, and dispatched once the transport took the message.
//!
//! The ledger, the registry of queries and the transport are not part of
//! this crate. Between two stages the caller does what the stage asks of
//! them and comes back with the answer.

use crate::location::{inverted, Location, LocationView};
use crate::message::{
    skeleton, sovereign_transact, with_report, with_transact, Balance, InstructionView, QueryId,
    QueryResponseInfoView, Weight, WeightLimit, Xcm,
};
use crate::pallet::{
    module_account_bytes, BlockNumber, Burn, Debit, Error, Pallet, Transfer, XcmCall, XcmCallView,
    XcmWeightFeeMisc,
};
use crate::ump::{
    AccountId, BalancesCall, RelaychainCall, RewardDestination, StakingCall, UtilityCall,
};
use vstd::prelude::*;

verus! {

/// The local call that runs when the outcome of a message arrives, and the
/// most weight that dispatching it takes.
#[derive(Debug, PartialEq, Eq)]
pub struct Notify {
    pub call: Vec<u8>,
    pub weight: Weight,
}

/// An operation that was decided on. The ledger is now to take `misc.fee`
/// from the helper's account, as much of it as the account holds.
#[derive(Debug, PartialEq, Eq)]
pub struct Planned {
    /// The weight of each call and the fee of the message.
    pub misc: XcmWeightFeeMisc,
    /// The call that the relay chain runs first, where there are two.
    pub first: Option<Vec<u8>>,
    /// The call that the relay chain runs last.
    pub last: Vec<u8>,
    /// Who receives what is left of the fee.
    pub beneficiary: Location,
    /// Who reports the outcome.
    pub responder: Location,
    /// What runs when the outcome arrives.
    pub notify: Notify,
    /// How many blocks the outcome may take.
    pub timeout: BlockNumber,
}

/// An operation whose message was built. A query is now to be registered
/// for `responder`, `notify` and `timeout`.
#[derive(Debug, PartialEq, Eq)]
pub struct Built {
    pub message: Xcm,
    pub weight: Weight,
    pub first: Option<Vec<u8>>,
    pub responder: Location,
    pub notify: Notify,
    pub timeout: BlockNumber,
}

/// An operation whose message reports under `query_id`. The message is now
/// to be sent to `destination`.
#[derive(Debug, PartialEq, Eq)]
pub struct Correlated {
    pub message: Xcm,
    pub destination: Location,
    pub query_id: QueryId,
}

/// What the transport said of a message.
#[derive(Clone, Copy, Debug, PartialEq, Eq, Structural)]
pub enum Delivery {
    Accepted,
    Unroutable,
}

/// `call`, to be run from the sub-account that `index` derives.
pub open spec fn as_derivative(index: u16, call: RelaychainCall) -> RelaychainCall {
    RelaychainCall::Utility(Box::new(UtilityCall::AsDerivative { index, call }))
}

/// The transfer that funds a stash.
pub open spec fn funding(stash: AccountId, value: u128) -> RelaychainCall {
    RelaychainCall::Balances(BalancesCall::TransferKeepAlive { dest: stash, value })
}

/// The transfer that brings everything back to `dest` and keeps the sender.
pub open spec fn sweeping(dest: AccountId) -> RelaychainCall {
    RelaychainCall::Balances(BalancesCall::TransferAll { dest, keep_alive: true })
}

/// The message of an operation once it reports under `query_id` to
/// `destination`: the skeleton built for the last call, the report in its
/// slot, and the first call, where there is one, directly behind the report.
pub open spec fn correlated_message(
    misc: XcmWeightFeeMisc,
    first: Option<Seq<u8>>,
    last: Seq<u8>,
    beneficiary: LocationView,
    report: QueryResponseInfoView,
) -> Seq<InstructionView> {
    let reported = with_report(skeleton(last, misc.weight, beneficiary, misc.fee), report);
    match first {
        Some(call) => with_transact(reported, call, misc.weight),
        None => reported,
    }
}

/// Whatever the operation, its message has the report as third instruction.
/// With one call it has six instructions and the call is the fourth; with
/// two it has seven, the first call fourth and the last call fifth. It
/// begins with the withdrawal and the purchase and ends with the refund and
/// the deposit.
pub proof fn lemma_correlated_layout(
    misc: XcmWeightFeeMisc,
    first: Option<Seq<u8>>,
    last: Seq<u8>,
    beneficiary: LocationView,
    report: QueryResponseInfoView,
)
    ensures
        ({
            let message = correlated_message(misc, first, last, beneficiary, report);
            let count = message.len() as int;
            &&& count == if first.is_some() {
                7int
            } else {
                6int
            }
            &&& message[0] == (InstructionView::WithdrawAsset { amount: misc.fee })
            &&& message[1] == (InstructionView::BuyExecution {
                fees: misc.fee,
                weight_limit: WeightLimit::Unlimited,
            })
            &&& message[2] == (InstructionView::SetAppendix { report_error: report })
            &&& first matches Some(call) ==> message[3] == sovereign_transact(call, misc.weight)
            &&& message[count - 3] == sovereign_transact(last, misc.weight)
            &&& message[count - 2] == InstructionView::RefundSurplus
            &&& message[count - 1] == (InstructionView::DepositAsset {
                amount: misc.fee,
                beneficiary,
            })
        }),
{
}

/// How an operation ends, from what the ledger, the registry of queries
/// and the transport answered: a ledger that failed comes first, then a
/// responder without a way back, then a transport without a route.
pub open spec fn operation_outcome(
    return_path: Option<LocationView>,
    debit: Debit,
    query_id: QueryId,
    delivery: Delivery,
) -> Result<QueryId, Error> {
    if debit == Debit::Failed {
        Err(Error::InsufficientXcmFees)
    } else if return_path.is_none() {
        Err(Error::MultiLocationNotInvertible)
    } else if delivery == Delivery::Unroutable {
        Err(Error::SendFailure)
    } else {
        Ok(query_id)
    }
}

/// The bytes of an optional call.
pub open spec fn call_view(call: Option<Vec<u8>>) -> Option<Seq<u8>> {
    match call {
        Some(bytes) => Some(bytes@),
        None => None,
    }
}

impl Planned {
    /// The operation as the helper `pallet` plans it for the kind `kind`
    /// with the calls `first` and `last`.
    pub open spec fn plans(
        &self,
        pallet: &Pallet,
        kind: XcmCallView,
        first: Option<Seq<u8>>,
        last: Seq<u8>,
        notify: Notify,
    ) -> bool {
        &&& self.misc == pallet.fee_of(kind)
        &&& call_view(self.first) == first
        &&& self.last@ == last
        &&& self.beneficiary@ == pallet.setup().refund_location@
        &&& self.responder@ == LocationView::parent()
        &&& self.notify.call@ == notify.call@
        &&& self.notify.weight == notify.weight
        &&& self.timeout == pallet.setup().notify_timeout
    }
}

/// The operations on the relay chain and the steps that they share.
pub trait XcmHelper {
    /// The order to the ledger that pays `amount` from `payer` into the
    /// helper's account, out of which fees are taken.
    fn add_xcm_fees(&self, payer: &AccountId, amount: u128) -> Transfer;

    /// Builds the message that pays `fees` for `call`, once the ledger was
    /// asked to take the fee from the helper's account and answered `debit`.
    fn do_ump_transact(
        call: Vec<u8>,
        weight: Weight,
        beneficiary: Location,
        fees: Balance,
        debit: Debit,
    ) -> Result<Xcm, Error>;

    /// Bonds `value` from the sub-account `index`, after funding `stash`
    /// with it.
    fn do_bond(
        &self,
        value: u128,
        payee: RewardDestination,
        stash: AccountId,
        index: u16,
        notify: Notify,
    ) -> Planned;

    /// Adds `value` to the bond of the sub-account `index`, after funding
    /// `stash` with it.
    fn do_bond_extra(&self, value: u128, stash: AccountId, index: u16, notify: Notify) -> Planned;

    /// Starts to release `value` of the bond of the sub-account `index`.
    fn do_unbond(&self, value: u128, index: u16, notify: Notify) -> Planned;

    /// Bonds `value` again that the sub-account `index` was releasing.
    fn do_rebond(&self, value: u128, index: u16, notify: Notify) -> Planned;

    /// Collects what the sub-account `index` has released and brings all of
    /// it back to `para_account_id`.
    fn do_withdraw_unbonded(
        &self,
        num_slashing_spans: u32,
        para_account_id: AccountId,
        index: u16,
        notify: Notify,
    ) -> Planned;

    /// Lets the sub-account `index` nominate `targets`.
    fn do_nominate(&self, targets: Vec<AccountId>, index: u16, notify: Notify) -> Planned
        requires
            targets@.len() <= u32::MAX,
    ;
}

impl Pallet {
    /// Plans an operation of the kind `kind` whose calls are `first`, where
    /// there is one, and `last`.
    fn plan(&self, kind: XcmCall, first: Option<Vec<u8>>, last: Vec<u8>, notify: Notify) -> (planned:
        Planned)
        ensures
            planned.plans(self, kind@, call_view(first), last@, notify),
    {
        Planned {
            misc: self.xcm_weight_fee(&kind),
            first,
            last,
            beneficiary: self.refund_location(),
            responder: Location::parent(),
            notify,
            timeout: self.config().notify_timeout,
        }
    }

    /// Encodes `call`, to be run from the sub-account that `index` derives.
    fn derivative(&self, index: u16, call: RelaychainCall) -> (bytes: Vec<u8>)
        requires
            call.encodable(),
        ensures
            bytes@ == as_derivative(index, call).wire(self.setup().relay_network),
    {
        let wrapped = RelaychainCall::Utility(Box::new(UtilityCall::AsDerivative { index, call }));
        wrapped.encode(self.config().relay_network)
    }

    /// The order to the ledger that a planned operation begins with: the fee
    /// is taken out of the helper's account.
    pub fn fee_debit(&self, planned: &Planned) -> (burn: Burn)
        ensures
            burn.currency == self.setup().relay_currency,
            burn.from@ == module_account_bytes(self.setup().pallet_id@),
            burn.amount == planned.misc.fee,
    {
        Burn {
            currency: self.config().relay_currency,
            from: self.account_id(),
            amount: planned.misc.fee,
        }
    }

    /// What building a planned operation gives: a ledger that failed ends
    /// the operation, and so does a responder without a way back to the
    /// local chain; else the message is the skeleton for the last call, and
    /// what the later stages need is carried along.
    pub open spec fn builds(
        &self,
        planned: Planned,
        debit: Debit,
        result: Result<Built, Error>,
    ) -> bool {
        if debit == Debit::Failed {
            result == Err::<Built, Error>(Error::InsufficientXcmFees)
        } else if inverted(self.setup().universal_location@, planned.responder@).is_none() {
            result == Err::<Built, Error>(Error::MultiLocationNotInvertible)
        } else {
            &&& result matches Ok(built)
            &&& built.message@ == skeleton(
                planned.last@,
                planned.misc.weight,
                planned.beneficiary@,
                planned.misc.fee,
            )
            &&& built.weight == planned.misc.weight
            &&& call_view(built.first) == call_view(planned.first)
            &&& built.responder@ == planned.responder@
            &&& built.notify == planned.notify
            &&& built.timeout == planned.timeout
        }
    }

    /// What correlating a built operation gives: the message with the
    /// report in its slot and the first call, where there is one, directly
    /// behind it; or the end of the operation, where the responder has no
    /// way back to the local chain.
    pub open spec fn correlates(
        &self,
        built: Built,
        query_id: QueryId,
        result: Result<Correlated, Error>,
    ) -> bool {
        match self.report_for(built.responder@, query_id, built.notify.weight) {
            Some(report) => {
                &&& result matches Ok(correlated)
                &&& correlated.query_id == query_id
                &&& correlated.destination@ == built.responder@
                &&& correlated.message@ == match built.first {
                    Some(call) => with_transact(
                        with_report(built.message@, report),
                        call@,
                        built.weight,
                    ),
                    None => with_report(built.message@, report),
                }
            },
            None => result == Err::<Correlated, Error>(Error::MultiLocationNotInvertible),
        }
    }

    /// Builds the message of a planned operation from what the ledger
    /// answered.
    pub fn build(&self, planned: Planned, debit: Debit) -> (result: Result<Built, Error>)
        requires
            planned.responder.wf(),
        ensures
            self.builds(planned, debit, result),
    {
        let Planned { misc, first, last, beneficiary, responder, notify, timeout } = planned;
        let message = match Pallet::do_ump_transact(last, misc.weight, beneficiary, misc.fee, debit) {
            Ok(message) => message,
            Err(error) => {
                return Err(error);
            },
        };
        match self.return_path(&responder) {
            Ok(_) => Ok(Built { message, weight: misc.weight, first, responder, notify, timeout }),
            Err(error) => Err(error),
        }
    }

    /// Makes the message of a built operation report under `query_id`, the
    /// number that the registry of queries gave, and puts the first call,
    /// where there is one, behind the report.
    pub fn correlate(&self, built: Built, query_id: QueryId) -> (result: Result<Correlated, Error>)
        requires
            built.message@.len() >= 2,
            built.responder.wf(),
        ensures
            self.correlates(built, query_id, result),
    {
        let Built { message, weight, first, responder, notify, timeout } = built;
        let mut message = message;
        match self.report_outcome_notify(&mut message, &responder, notify.weight, query_id) {
            Ok(_) => {},
            Err(error) => {
                return Err(error);
            },
        }
        match first {
            Some(call) => {
                Pallet::append_transact(&mut message, call, weight);
            },
            None => {},
        }
        Ok(Correlated { message, destination: responder, query_id })
    }
}

/// An operation taken through all its stages ends as `operation_outcome`
/// says; where it ends well, the number it returns is the one that the
/// registry of queries gave. Once it was built it is also correlated.
pub proof fn lemma_stages_outcome(
    pallet: Pallet,
    planned: Planned,
    debit: Debit,
    query_id: QueryId,
    delivery: Delivery,
    built: Result<Built, Error>,
    correlated: Result<Correlated, Error>,
    dispatched: Result<QueryId, Error>,
)
    requires
        pallet.builds(planned, debit, built),
        built matches Ok(operation) ==> pallet.correlates(operation, query_id, correlated),
        correlated matches Ok(operation) ==> operation.dispatches(delivery, dispatched),
    ensures
        built matches Err(error) ==> operation_outcome(
            inverted(pallet.setup().universal_location@, planned.responder@),
            debit,
            query_id,
            delivery,
        ) == Err::<QueryId, Error>(error),
        built.is_ok() ==> correlated.is_ok(),
        built.is_ok() ==> dispatched == operation_outcome(
            inverted(pallet.setup().universal_location@, planned.responder@),
            debit,
            query_id,
            delivery,
        ),
{
}

/// The message of an operation that went through its stages is the one that
/// its plan determines: what building and correlating do one after the
/// other is what `correlated_message` says at once.
pub proof fn lemma_stages_compose(
    pallet: Pallet,
    planned: Planned,
    debit: Debit,
    query_id: QueryId,
    built: Built,
    correlated: Correlated,
)
    requires
        pallet.builds(planned, debit, Ok(built)),
        pallet.correlates(built, query_id, Ok(correlated)),
    ensures
        pallet.report_for(planned.responder@, query_id, planned.notify.weight) matches Some(
            report,
        ) && correlated.message@ == correlated_message(
            planned.misc,
            call_view(planned.first),
            planned.last@,
            planned.beneficiary@,
            report,
        ),
{
}

impl Correlated {
    /// What the end of the operation is, given what the transport said: the
    /// number under which the outcome will be reported, or the failure to
    /// send.
    pub open spec fn dispatches(self, delivery: Delivery, result: Result<QueryId, Error>) -> bool {
        match delivery {
            Delivery::Accepted => result == Ok::<QueryId, Error>(self.query_id),
            Delivery::Unroutable => result == Err::<QueryId, Error>(Error::SendFailure),
        }
    }

    /// Ends the operation with what the transport said.
    pub fn dispatched(self, delivery: Delivery) -> (result: Result<QueryId, Error>)
        ensures
            self.dispatches(delivery, result),
    {
        match delivery {
            Delivery::Accepted => Ok(self.query_id),
            Delivery::Unroutable => Err(Error::SendFailure),
        }
    }
}

impl XcmHelper for Pallet {
    fn add_xcm_fees(&self, payer: &AccountId, amount: u128) -> (transfer: Transfer)
        ensures
            transfer.currency == self.setup().relay_currency,
            transfer.from == *payer,
            transfer.to@ == module_account_bytes(self.setup().pallet_id@),
            transfer.amount == amount,
            !transfer.keep_alive,
    {
        Transfer {
            currency: self.config().relay_currency,
            from: *payer,
            to: self.account_id(),
            amount,
            keep_alive: false,
        }
    }

    /// Only a ledger that failed stops the message; one that took less than
    /// the fee does not.
    fn do_ump_transact(
        call: Vec<u8>,
        weight: Weight,
        beneficiary: Location,
        fees: Balance,
        debit: Debit,
    ) -> (result: Result<Xcm, Error>)
        ensures
            debit == Debit::Failed ==> result == Err::<Xcm, Error>(Error::InsufficientXcmFees),
            debit != Debit::Failed ==> (result matches Ok(message) && message@ == skeleton(
                call@,
                weight,
                beneficiary@,
                fees,
            )),
    {
        match debit {
            Debit::Failed => Err(Error::InsufficientXcmFees),
            Debit::Taken(_) => Ok(Xcm::pay_and_transact(call, weight, beneficiary, fees)),
        }
    }

    fn do_bond(
        &self,
        value: u128,
        payee: RewardDestination,
        stash: AccountId,
        index: u16,
        notify: Notify,
    ) -> (planned: Planned)
        ensures
            planned.plans(
                self,
                XcmCallView::Bond,
                Some(funding(stash, value).wire(self.setup().relay_network)),
                as_derivative(index, RelaychainCall::Staking(StakingCall::Bond { value, payee })).wire(
                    self.setup().relay_network,
                ),
                notify,
            ),
    {
        let fund = RelaychainCall::Balances(BalancesCall::TransferKeepAlive { dest: stash, value });
        let first = fund.encode(self.config().relay_network);
        let last = self.derivative(
            index,
            RelaychainCall::Staking(StakingCall::Bond { value, payee }),
        );
        self.plan(XcmCall::Bond, Some(first), last, notify)
    }

    fn do_bond_extra(&self, value: u128, stash: AccountId, index: u16, notify: Notify) -> (planned:
        Planned)
        ensures
            planned.plans(
                self,
                XcmCallView::BondExtra,
                Some(funding(stash, value).wire(self.setup().relay_network)),
                as_derivative(index, RelaychainCall::Staking(StakingCall::BondExtra { value })).wire(
                    self.setup().relay_network,
                ),
                notify,
            ),
    {
        let fund = RelaychainCall::Balances(BalancesCall::TransferKeepAlive { dest: stash, value });
        let first = fund.encode(self.config().relay_network);
        let last = self.derivative(
            index,
            RelaychainCall::Staking(StakingCall::BondExtra { value }),
        );
        self.plan(XcmCall::BondExtra, Some(first), last, notify)
    }

    fn do_unbond(&self, value: u128, index: u16, notify: Notify) -> (planned: Planned)
        ensures
            planned.plans(
                self,
                XcmCallView::Unbond,
                None,
                as_derivative(index, RelaychainCall::Staking(StakingCall::Unbond { value })).wire(
                    self.setup().relay_network,
                ),
                notify,
            ),
    {
        let last = self.derivative(index, RelaychainCall::Staking(StakingCall::Unbond { value }));
        self.plan(XcmCall::Unbond, None, last, notify)
    }

    fn do_rebond(&self, value: u128, index: u16, notify: Notify) -> (planned: Planned)
        ensures
            planned.plans(
                self,
                XcmCallView::Rebond,
                None,
                as_derivative(index, RelaychainCall::Staking(StakingCall::Rebond { value })).wire(
                    self.setup().relay_network,
                ),
                notify,
            ),
    {
        let last = self.derivative(index, RelaychainCall::Staking(StakingCall::Rebond { value }));
        self.plan(XcmCall::Rebond, None, last, notify)
    }

    fn do_withdraw_unbonded(
        &self,
        num_slashing_spans: u32,
        para_account_id: AccountId,
        index: u16,
        notify: Notify,
    ) -> (planned: Planned)
        ensures
            planned.plans(
                self,
                XcmCallView::WithdrawUnbonded,
                Some(
                    as_derivative(
                        index,
                        RelaychainCall::Staking(StakingCall::WithdrawUnbonded { num_slashing_spans }),
                    ).wire(self.setup().relay_network),
                ),
                as_derivative(index, sweeping(para_account_id)).wire(self.setup().relay_network),
                notify,
            ),
    {
        let first = self.derivative(
            index,
            RelaychainCall::Staking(StakingCall::WithdrawUnbonded { num_slashing_spans }),
        );
        let last = self.derivative(
            index,
            RelaychainCall::Balances(
                BalancesCall::TransferAll { dest: para_account_id, keep_alive: true },
            ),
        );
        self.plan(XcmCall::WithdrawUnbonded, Some(first), last, notify)
    }

    fn do_nominate(&self, targets: Vec<AccountId>, index: u16, notify: Notify) -> (planned: Planned)
        ensures
            planned.plans(
                self,
                XcmCallView::Nominate,
                None,
                as_derivative(index, RelaychainCall::Staking(StakingCall::Nominate { targets })).wire(
                    self.setup().relay_network,
                ),
                notify,
            ),
    {
        let last = self.derivative(index, RelaychainCall::Staking(StakingCall::Nominate { targets }));
        self.plan(XcmCall::Nominate, None, last, notify)
    }
}

} // verus!
