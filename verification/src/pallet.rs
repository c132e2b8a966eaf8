//! The helper's state and rules: its configuration, the table of weights and
//! fees per kind of operation, and the steps that turn an encoded call into a
//! message that reports its outcome.

use crate::location::{invert_target, inverted, Junction, Location, LocationView};
use crate::message::{
    with_report, with_transact, Balance, QueryId, QueryResponseInfo, QueryResponseInfoView,
    Weight, Xcm, REPORT_SLOT, TRANSACT_SLOT,
};
use crate::ump::{AccountId, RelayNetwork};
use vstd::prelude::*;

verus! {

/// Identifies an asset of the local chain.
pub type CurrencyId = u128;

/// A height of the local chain.
pub type BlockNumber = u32;

/// The kinds of operation that have a weight and a fee of their own.
#[derive(Debug, PartialEq, Eq)]
pub enum XcmCall {
    Bond,
    BondExtra,
    Unbond,
    Rebond,
    WithdrawUnbonded,
    Nominate,
    TransferToSiblingchain(Location),
}

/// What an `XcmCall` says, with the location by its view.
pub enum XcmCallView {
    Bond,
    BondExtra,
    Unbond,
    Rebond,
    WithdrawUnbonded,
    Nominate,
    TransferToSiblingchain(LocationView),
}

impl View for XcmCall {
    type V = XcmCallView;

    open spec fn view(&self) -> XcmCallView {
        match *self {
            XcmCall::Bond => XcmCallView::Bond,
            XcmCall::BondExtra => XcmCallView::BondExtra,
            XcmCall::Unbond => XcmCallView::Unbond,
            XcmCall::Rebond => XcmCallView::Rebond,
            XcmCall::WithdrawUnbonded => XcmCallView::WithdrawUnbonded,
            XcmCall::Nominate => XcmCallView::Nominate,
            XcmCall::TransferToSiblingchain(location) => XcmCallView::TransferToSiblingchain(
                location@,
            ),
        }
    }
}

impl XcmCall {
    /// Whether `self` and `other` are the same kind of operation.
    pub fn same(&self, other: &XcmCall) -> (same: bool)
        ensures
            same == (self@ == other@),
    {
        match (self, other) {
            (XcmCall::Bond, XcmCall::Bond) => true,
            (XcmCall::BondExtra, XcmCall::BondExtra) => true,
            (XcmCall::Unbond, XcmCall::Unbond) => true,
            (XcmCall::Rebond, XcmCall::Rebond) => true,
            (XcmCall::WithdrawUnbonded, XcmCall::WithdrawUnbonded) => true,
            (XcmCall::Nominate, XcmCall::Nominate) => true,
            (XcmCall::TransferToSiblingchain(a), XcmCall::TransferToSiblingchain(b)) => a.same(b),
            _ => false,
        }
    }
}

/// The execution budget and the fee of one kind of operation.
#[derive(Clone, Copy, Debug, PartialEq, Eq, Structural)]
pub struct XcmWeightFeeMisc {
    pub weight: Weight,
    pub fee: Balance,
}

impl XcmWeightFeeMisc {
    /// What a kind of operation reads as while nothing was set for it.
    pub open spec fn unset() -> XcmWeightFeeMisc {
        XcmWeightFeeMisc { weight: Weight { ref_time: 0, proof_size: 0 }, fee: 0 }
    }
}

impl Default for XcmWeightFeeMisc {
    fn default() -> (misc: XcmWeightFeeMisc)
        ensures
            misc == XcmWeightFeeMisc::unset(),
    {
        XcmWeightFeeMisc { weight: Weight::zero(), fee: 0 }
    }
}

/// What the helper tells its surroundings.
#[derive(Clone, Copy, Debug, PartialEq, Eq, Structural)]
pub enum Event {
    /// The weight and fee of a kind of operation were set to this.
    XcmWeightFeeUpdated(XcmWeightFeeMisc),
}

/// Why the helper refused.
#[derive(Clone, Copy, Debug, PartialEq, Eq, Structural)]
pub enum Error {
    /// The responder goes up more steps than a return path can answer.
    MultiLocationNotInvertible,
    /// A weight to be set is zero.
    ZeroXcmWeightMisc,
    /// A fee to be set is zero.
    ZeroXcmFees,
    /// The ledger could not take the fee.
    InsufficientXcmFees,
    /// The transport found no route for the message.
    SendFailure,
    /// The caller may not change weights and fees.
    BadOrigin,
}

/// What the check of a caller's origin found.
#[derive(Clone, Copy, Debug, PartialEq, Eq, Structural)]
pub enum OriginCheck {
    Authorized,
    Unauthorized,
}

/// What the ledger answered when asked to take the fee from the helper's
/// account. The ledger takes as much as the account holds, so less than the
/// fee is no failure.
#[derive(Clone, Copy, Debug, PartialEq, Eq, Structural)]
pub enum Debit {
    Taken(Balance),
    Failed,
}

/// An order to the ledger: move `amount` of `currency` from `from` to `to`,
/// whether or not `from` lives on.
#[derive(Clone, Copy, Debug, PartialEq, Eq)]
pub struct Transfer {
    pub currency: CurrencyId,
    pub from: AccountId,
    pub to: AccountId,
    pub amount: Balance,
    pub keep_alive: bool,
}

/// An order to the ledger: take `amount` of `currency` out of `from` and
/// destroy it. Where `from` holds less, the ledger takes what is there.
#[derive(Clone, Copy, Debug, PartialEq, Eq)]
pub struct Burn {
    pub currency: CurrencyId,
    pub from: AccountId,
    pub amount: Balance,
}

/// The values that a runtime sets once.
#[derive(Debug, PartialEq, Eq)]
pub struct Config {
    /// The relay chain that decodes the calls.
    pub relay_network: RelayNetwork,
    /// The seed of the helper's own account.
    pub pallet_id: [u8; 8],
    /// The relay-chain account that receives fees left over.
    pub refund_location: Location,
    /// The way from the top of the hierarchy down to the local chain.
    pub universal_location: Vec<Junction>,
    /// How many blocks the answer to a query may take.
    pub notify_timeout: BlockNumber,
    /// The local asset that stands for the relay chain's token.
    pub relay_currency: CurrencyId,
}

/// The account that belongs to a pallet: the four bytes `modl`, the eight
/// bytes of the pallet's identifier, and zeros up to 32 bytes.
pub open spec fn module_account_bytes(pallet_id: Seq<u8>) -> Seq<u8> {
    seq![0x6du8, 0x6fu8, 0x64u8, 0x6cu8] + pallet_id + Seq::new(20, |i: int| 0u8)
}

/// Calls `sp_runtime::traits::AccountIdConversion::into_account_truncating`
/// on a `frame_support::PalletId`, for a 32-byte account. The contract claims
/// the layout that `module_account_bytes` spells out; Verus takes it on trust.
#[verifier::external_body]
fn module_account(pallet_id: [u8; 8]) -> (account: AccountId)
    ensures
        account@ == module_account_bytes(pallet_id@),
{
    let account: sp_runtime::AccountId32 =
        sp_runtime::traits::AccountIdConversion::into_account_truncating(
        &frame_support::PalletId(pallet_id),
    );
    account.into()
}

/// One row of the table of weights and fees.
struct FeeEntry {
    call: XcmCall,
    misc: XcmWeightFeeMisc,
}

/// The first row for `call` decides; without one the kind is unset.
spec fn lookup(
    table: Seq<(XcmCallView, XcmWeightFeeMisc)>,
    call: XcmCallView,
) -> XcmWeightFeeMisc
    decreases table.len(),
{
    if table.len() == 0 {
        XcmWeightFeeMisc::unset()
    } else if table[0].0 == call {
        table[0].1
    } else {
        lookup(table.drop_first(), call)
    }
}

/// Whether the table has a row for `call`.
spec fn has_row(table: Seq<(XcmCallView, XcmWeightFeeMisc)>, call: XcmCallView) -> bool {
    exists|j: int| 0 <= j < table.len() && (#[trigger] table[j]).0 == call
}

proof fn lemma_keys_update(
    table: Seq<(XcmCallView, XcmWeightFeeMisc)>,
    i: int,
    row: (XcmCallView, XcmWeightFeeMisc),
    other: XcmCallView,
)
    requires
        0 <= i < table.len(),
        table[i].0 == row.0,
    ensures
        has_row(table.update(i, row), other) == (other == row.0 || has_row(table, other)),
{
    let after = table.update(i, row);
    if has_row(table, other) {
        let j = choose|j: int| 0 <= j < table.len() && (#[trigger] table[j]).0 == other;
        assert(after[j].0 == other);
    }
    if other == row.0 {
        assert(after[i].0 == other);
    }
    if has_row(after, other) {
        let j = choose|j: int| 0 <= j < after.len() && (#[trigger] after[j]).0 == other;
        assert(table[j].0 == other);
    }
}

proof fn lemma_keys_push(
    table: Seq<(XcmCallView, XcmWeightFeeMisc)>,
    row: (XcmCallView, XcmWeightFeeMisc),
    other: XcmCallView,
)
    ensures
        has_row(table.push(row), other) == (other == row.0 || has_row(table, other)),
{
    let after = table.push(row);
    if has_row(table, other) {
        let j = choose|j: int| 0 <= j < table.len() && (#[trigger] table[j]).0 == other;
        assert(after[j].0 == other);
    }
    if other == row.0 {
        assert(after[table.len() as int].0 == other);
    }
    if has_row(after, other) && other != row.0 {
        let j = choose|j: int| 0 <= j < after.len() && (#[trigger] after[j]).0 == other;
        assert(table[j].0 == other);
    }
}

proof fn lemma_lookup_absent(table: Seq<(XcmCallView, XcmWeightFeeMisc)>, call: XcmCallView)
    requires
        forall|j: int| 0 <= j < table.len() ==> (#[trigger] table[j]).0 != call,
    ensures
        lookup(table, call) == XcmWeightFeeMisc::unset(),
    decreases table.len(),
{
    if table.len() > 0 {
        let rest = table.drop_first();
        assert forall|j: int| 0 <= j < rest.len() implies (#[trigger] rest[j]).0 != call by {
            assert(rest[j] == table[j + 1]);
        }
        assert(table[0].0 != call);
        lemma_lookup_absent(rest, call);
    }
}

proof fn lemma_lookup_present(
    table: Seq<(XcmCallView, XcmWeightFeeMisc)>,
    call: XcmCallView,
    j: int,
)
    requires
        0 <= j < table.len(),
        table[j].0 == call,
    ensures
        exists|k: int| 0 <= k <= j && (#[trigger] table[k]).0 == call && lookup(table, call) == table[k].1,
    decreases j,
{
    if table[0].0 == call {
        assert(table[0].0 == call && lookup(table, call) == table[0].1);
    } else {
        let rest = table.drop_first();
        assert(rest[j - 1] == table[j]);
        lemma_lookup_present(rest, call, j - 1);
        let k = choose|k: int|
            0 <= k <= j - 1 && (#[trigger] rest[k]).0 == call && lookup(rest, call) == rest[k].1;
        assert(table[k + 1] == rest[k]);
    }
}

proof fn lemma_lookup_update(
    table: Seq<(XcmCallView, XcmWeightFeeMisc)>,
    i: int,
    row: (XcmCallView, XcmWeightFeeMisc),
    call: XcmCallView,
)
    requires
        0 <= i < table.len(),
        table[i].0 == row.0,
        forall|j: int| 0 <= j < i ==> table[j].0 != row.0,
    ensures
        lookup(table.update(i, row), call) == if call == row.0 {
            row.1
        } else {
            lookup(table, call)
        },
    decreases i,
{
    if i > 0 {
        let rest = table.drop_first();
        assert(table.update(i, row).drop_first() == rest.update(i - 1, row));
        assert forall|j: int| 0 <= j < i - 1 implies rest[j].0 != row.0 by {
            assert(rest[j] == table[j + 1]);
        }
        assert(rest[i - 1] == table[i]);
        assert(table.update(i, row)[0] == table[0]);
        lemma_lookup_update(rest, i - 1, row, call);
    } else {
        assert(table.update(i, row).drop_first() == table.drop_first());
    }
}

proof fn lemma_lookup_push(
    table: Seq<(XcmCallView, XcmWeightFeeMisc)>,
    row: (XcmCallView, XcmWeightFeeMisc),
    call: XcmCallView,
)
    requires
        forall|j: int| 0 <= j < table.len() ==> table[j].0 != row.0,
    ensures
        lookup(table.push(row), call) == if call == row.0 {
            row.1
        } else {
            lookup(table, call)
        },
    decreases table.len(),
{
    if table.len() > 0 {
        let rest = table.drop_first();
        assert(table.push(row).drop_first() == rest.push(row));
        assert forall|j: int| 0 <= j < rest.len() implies rest[j].0 != row.0 by {
            assert(rest[j] == table[j + 1]);
        }
        assert(table.push(row)[0] == table[0]);
        lemma_lookup_push(rest, row, call);
    } else {
        assert(table.push(row)[0] == row);
        assert(table.push(row).drop_first() == Seq::<(XcmCallView, XcmWeightFeeMisc)>::empty());
        reveal_with_fuel(lookup, 2);
    }
}

/// How an update of weight and fee ends: the origin is looked at first, then
/// the fee, then the weight.
pub open spec fn update_outcome(origin: OriginCheck, misc: XcmWeightFeeMisc) -> Result<(), Error> {
    if origin == OriginCheck::Unauthorized {
        Err(Error::BadOrigin)
    } else if misc.fee == 0 {
        Err(Error::ZeroXcmFees)
    } else if misc.weight.is_zero() {
        Err(Error::ZeroXcmWeightMisc)
    } else {
        Ok(())
    }
}

/// An update goes through exactly for an authorized origin with a fee and a
/// weight that are not zero.
pub proof fn lemma_update_accepted(origin: OriginCheck, misc: XcmWeightFeeMisc)
    ensures
        update_outcome(origin, misc).is_ok() <==> origin == OriginCheck::Authorized && misc.fee
            != 0 && !misc.weight.is_zero(),
{
}

/// After an update the kind reads as what was set, and every other kind as
/// it read before.
pub proof fn lemma_read_after_update(
    before: Pallet,
    after: Pallet,
    call: XcmCallView,
    misc: XcmWeightFeeMisc,
    other: XcmCallView,
)
    requires
        after.updated(&before, call, misc),
    ensures
        after.fee_of(call) == misc,
        other != call ==> after.fee_of(other) == before.fee_of(other),
{
}

/// An update that was refused leaves every kind as it read before, whether
/// the origin, the fee or the weight was at fault.
pub proof fn lemma_refused_update(
    before: Pallet,
    after: Pallet,
    origin: OriginCheck,
    misc: XcmWeightFeeMisc,
    call: XcmCallView,
)
    requires
        origin == OriginCheck::Unauthorized || misc.fee == 0 || misc.weight.is_zero(),
        update_outcome(origin, misc).is_err() ==> after.unchanged(&before),
    ensures
        update_outcome(origin, misc).is_err(),
        after.fee_of(call) == before.fee_of(call),
        after.emitted() == before.emitted(),
{
}

/// The helper: its configuration, the table of weights and fees, and the
/// events that it has emitted.
pub struct Pallet {
    config: Config,
    fees: Vec<FeeEntry>,
    events: Vec<Event>,
}

impl Pallet {
    /// The table as rows of kind and values.
    spec fn table(&self) -> Seq<(XcmCallView, XcmWeightFeeMisc)> {
        self.fees@.map_values(|entry: FeeEntry| (entry.call@, entry.misc))
    }

    /// The weight and fee that hold for `call`.
    pub closed spec fn fee_of(&self, call: XcmCallView) -> XcmWeightFeeMisc {
        lookup(self.table(), call)
    }

    /// Whether a weight and fee were set for `call`.
    pub closed spec fn is_set(&self, call: XcmCallView) -> bool {
        has_row(self.table(), call)
    }

    /// What is in the table went through an update: no row has a fee or a
    /// weight of zero.
    pub closed spec fn wf(&self) -> bool {
        forall|j: int|
            0 <= j < self.table().len() ==> (#[trigger] self.table()[j]).1.fee != 0
                && !self.table()[j].1.weight.is_zero()
    }

    /// The values that the helper was set up with.
    pub closed spec fn setup(&self) -> Config {
        self.config
    }

    /// The events emitted so far, oldest first.
    pub closed spec fn emitted(&self) -> Seq<Event> {
        self.events@
    }

    /// `self` is `before` but for the weight and fee of `call`, which are
    /// `misc`, and for the event that says so.
    pub open spec fn updated(&self, before: &Pallet, call: XcmCallView, misc: XcmWeightFeeMisc) -> bool {
        &&& self.setup() == before.setup()
        &&& self.emitted() == before.emitted().push(Event::XcmWeightFeeUpdated(misc))
        &&& forall|other: XcmCallView|
            self.fee_of(other) == if other == call {
                misc
            } else {
                before.fee_of(other)
            }
        &&& forall|other: XcmCallView|
            self.is_set(other) == (other == call || before.is_set(other))
    }

    /// `self` holds what `before` holds.
    pub open spec fn unchanged(&self, before: &Pallet) -> bool {
        &&& self.setup() == before.setup()
        &&& self.emitted() == before.emitted()
        &&& forall|call: XcmCallView| self.fee_of(call) == before.fee_of(call)
        &&& forall|call: XcmCallView| self.is_set(call) == before.is_set(call)
    }

    /// A kind for which nothing was set reads as zero weight and zero fee.
    pub proof fn lemma_unset_reads_zero(&self, call: XcmCallView)
        requires
            !self.is_set(call),
        ensures
            self.fee_of(call) == XcmWeightFeeMisc::unset(),
    {
        lemma_lookup_absent(self.table(), call);
    }

    /// A kind for which something was set reads with a fee and a weight that
    /// are not zero.
    pub proof fn lemma_set_reads_nonzero(&self, call: XcmCallView)
        requires
            self.wf(),
            self.is_set(call),
        ensures
            self.fee_of(call).fee != 0,
            !self.fee_of(call).weight.is_zero(),
    {
        let table = self.table();
        let j = choose|j: int| 0 <= j < table.len() && (#[trigger] table[j]).0 == call;
        lemma_lookup_present(table, call, j);
    }

    /// A helper with nothing set and nothing emitted.
    pub fn new(config: Config) -> (pallet: Pallet)
        ensures
            pallet.wf(),
            pallet.setup() == config,
            forall|call: XcmCallView| !pallet.is_set(call),
            forall|call: XcmCallView| pallet.fee_of(call) == XcmWeightFeeMisc::unset(),
            pallet.emitted() == Seq::<Event>::empty(),
    {
        let pallet = Pallet { config, fees: Vec::new(), events: Vec::new() };
        assert(pallet.table() =~= Seq::empty());
        pallet
    }

    /// The weight and fee that hold for `xcm_call`.
    pub fn xcm_weight_fee(&self, xcm_call: &XcmCall) -> (misc: XcmWeightFeeMisc)
        ensures
            misc == self.fee_of(xcm_call@),
    {
        let mut i: usize = 0;
        assert(self.table().skip(0) == self.table());
        while i < self.fees.len()
            invariant
                i <= self.fees.len(),
                lookup(self.table(), xcm_call@) == lookup(self.table().skip(i as int), xcm_call@),
            decreases self.fees.len() - i,
        {
            if self.fees[i].call.same(xcm_call) {
                return self.fees[i].misc;
            }
            proof {
                assert(self.table().skip(i as int).drop_first() == self.table().skip(i + 1));
            }
            i += 1;
        }
        XcmWeightFeeMisc::default()
    }

    /// The values that the helper was set up with.
    pub fn config(&self) -> (config: &Config)
        ensures
            *config == self.setup(),
    {
        &self.config
    }

    /// The events emitted so far, oldest first.
    pub fn events(&self) -> (events: &Vec<Event>)
        ensures
            events@ == self.emitted(),
    {
        &self.events
    }

    /// Sets the weight and fee of a kind of operation. The origin is looked
    /// at first, then the fee, then the weight; a refusal changes nothing.
    pub fn update_xcm_weight_fee(
        &mut self,
        origin: OriginCheck,
        xcm_call: XcmCall,
        xcm_weight_fee_misc: XcmWeightFeeMisc,
    ) -> (result: Result<(), Error>)
        requires
            old(self).wf(),
        ensures
            final(self).wf(),
            result == update_outcome(origin, xcm_weight_fee_misc),
            result.is_ok() ==> final(self).updated(old(self), xcm_call@, xcm_weight_fee_misc),
            result.is_err() ==> final(self).unchanged(old(self)),
    {
        match origin {
            OriginCheck::Unauthorized => {
                return Err(Error::BadOrigin);
            },
            OriginCheck::Authorized => {},
        }
        if xcm_weight_fee_misc.fee == 0 {
            return Err(Error::ZeroXcmFees);
        }
        if xcm_weight_fee_misc.weight.is_zero() {
            return Err(Error::ZeroXcmWeightMisc);
        }
        self.events.push(Event::XcmWeightFeeUpdated(xcm_weight_fee_misc));
        let ghost before = self.table();
        let ghost row = (xcm_call@, xcm_weight_fee_misc);
        assert(before == old(self).table());
        let mut i: usize = 0;
        let mut found = false;
        while i < self.fees.len() && !found
            invariant
                i <= self.fees.len(),
                self.table() == before,
                forall|j: int| 0 <= j < i ==> before[j].0 != xcm_call@,
                found ==> i < self.fees.len() && before[i as int].0 == xcm_call@,
            decreases self.fees.len() - i,
                if found {
                    0int
                } else {
                    1int
                },
        {
            if self.fees[i].call.same(&xcm_call) {
                found = true;
            } else {
                i += 1;
            }
        }
        if found {
            self.fees.set(i, FeeEntry { call: xcm_call, misc: xcm_weight_fee_misc });
            proof {
                assert(self.table() =~= before.update(i as int, row));
                assert forall|other: XcmCallView|
                    self.is_set(other) == (other == row.0 || old(self).is_set(other)) by {
                    lemma_keys_update(before, i as int, row, other);
                }
                assert forall|call: XcmCallView|
                    lookup(self.table(), call) == if call == row.0 {
                        row.1
                    } else {
                        lookup(before, call)
                    } by {
                    lemma_lookup_update(before, i as int, row, call);
                }
            }
        } else {
            self.fees.push(FeeEntry { call: xcm_call, misc: xcm_weight_fee_misc });
            proof {
                assert(self.table() =~= before.push(row));
                assert forall|other: XcmCallView|
                    self.is_set(other) == (other == row.0 || old(self).is_set(other)) by {
                    lemma_keys_push(before, row, other);
                }
                assert forall|call: XcmCallView|
                    lookup(self.table(), call) == if call == row.0 {
                        row.1
                    } else {
                        lookup(before, call)
                    } by {
                    lemma_lookup_push(before, row, call);
                }
            }
        }
        Ok(())
    }

    /// The weight and fee of a transfer to the sibling chain at `location`.
    pub fn get_xcm_weight_fee_to_sibling(&self, location: Location) -> (misc: XcmWeightFeeMisc)
        ensures
            misc == self.fee_of(XcmCallView::TransferToSiblingchain(location@)),
    {
        let call = XcmCall::TransferToSiblingchain(location);
        self.xcm_weight_fee(&call)
    }

    /// The helper's own account, which holds the fees.
    pub fn account_id(&self) -> (account: AccountId)
        ensures
            account@ == module_account_bytes(self.setup().pallet_id@),
    {
        module_account(self.config.pallet_id)
    }

    /// The relay-chain location that receives fees left over.
    pub fn refund_location(&self) -> (location: Location)
        ensures
            location@ == self.setup().refund_location@,
    {
        self.config.refund_location.duplicate()
    }

    /// The report that `responder` is asked for: sent to the local chain as
    /// `responder` sees it, or nothing where there is no such path.
    pub open spec fn report_for(
        &self,
        responder: LocationView,
        query_id: QueryId,
        max_weight: Weight,
    ) -> Option<QueryResponseInfoView> {
        match inverted(self.setup().universal_location@, responder) {
            Some(destination) => Some(QueryResponseInfoView { destination, query_id, max_weight }),
            None => None,
        }
    }

    /// The way back from `responder` to the local chain.
    pub fn return_path(&self, responder: &Location) -> (result: Result<Location, Error>)
        requires
            responder.wf(),
        ensures
            match inverted(self.setup().universal_location@, responder@) {
                Some(destination) => result matches Ok(path) && path@ == destination
                    && path.wf(),
                None => result == Err::<Location, Error>(Error::MultiLocationNotInvertible),
            },
    {
        match invert_target(&self.config.universal_location, responder) {
            Some(path) => Ok(path),
            None => Err(Error::MultiLocationNotInvertible),
        }
    }

    /// Makes `message` report its outcome under `query_id`, the number under
    /// which the answer of `responder` is awaited. The report goes into the
    /// report slot. Without a way back from `responder` the message stays as
    /// it is.
    pub fn report_outcome_notify(
        &self,
        message: &mut Xcm,
        responder: &Location,
        max_weight: Weight,
        query_id: QueryId,
    ) -> (result: Result<QueryId, Error>)
        requires
            old(message)@.len() >= REPORT_SLOT,
            responder.wf(),
        ensures
            match self.report_for(responder@, query_id, max_weight) {
                Some(report) => result == Ok::<QueryId, Error>(query_id) && final(message)@
                    == with_report(old(message)@, report),
                None => result == Err::<QueryId, Error>(Error::MultiLocationNotInvertible)
                    && final(message)@ == old(message)@,
            },
    {
        match self.return_path(responder) {
            Ok(destination) => {
                message.insert_report(QueryResponseInfo { destination, query_id, max_weight });
                Ok(query_id)
            },
            Err(error) => Err(error),
        }
    }

    /// Puts a further call into `message`, directly behind the outcome report.
    pub fn append_transact(message: &mut Xcm, call: Vec<u8>, weight: Weight)
        requires
            old(message)@.len() >= TRANSACT_SLOT,
        ensures
            final(message)@ == with_transact(old(message)@, call@, weight),
    {
        message.insert_transact(call, weight);
    }
}

} // verus!
