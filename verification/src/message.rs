//! Outbound messages: the instructions that the relay chain executes in
//! order, and the fixed places at which a message is extended.

use crate::location::{Location, LocationView};
use vstd::prelude::*;

verus! {

/// An amount of the relay chain's native token.
pub type Balance = u128;

/// Identifies a registered query; the answer to it carries the same number.
pub type QueryId = u64;

/// A budget of execution on the relay chain, in its two dimensions.
#[derive(Clone, Copy, Debug, PartialEq, Eq, Structural)]
pub struct Weight {
    pub ref_time: u64,
    pub proof_size: u64,
}

impl Weight {
    /// No budget in either dimension.
    pub open spec fn spec_is_zero(self) -> bool {
        self.ref_time == 0 && self.proof_size == 0
    }

    /// Whether there is no budget in either dimension.
    #[verifier::when_used_as_spec(spec_is_zero)]
    pub fn is_zero(self) -> (zero: bool)
        ensures
            zero == self.spec_is_zero(),
    {
        self.ref_time == 0 && self.proof_size == 0
    }

    /// No budget in either dimension.
    pub fn zero() -> (weight: Weight)
        ensures
            weight == (Weight { ref_time: 0, proof_size: 0 }),
    {
        Weight { ref_time: 0, proof_size: 0 }
    }
}

/// The authority under which a transacted call is dispatched.
#[derive(Clone, Copy, Debug, PartialEq, Eq, Structural)]
pub enum OriginKind {
    Native,
    SovereignAccount,
    Superuser,
    Xcm,
}

/// How much execution may be bought with the fees.
#[derive(Clone, Copy, Debug, PartialEq, Eq, Structural)]
pub enum WeightLimit {
    Unlimited,
    Limited(Weight),
}

/// Where and how the outcome of a message is reported.
#[derive(Debug, PartialEq, Eq)]
pub struct QueryResponseInfo {
    pub destination: Location,
    pub query_id: QueryId,
    pub max_weight: Weight,
}

/// What a `QueryResponseInfo` says.
pub struct QueryResponseInfoView {
    pub destination: LocationView,
    pub query_id: QueryId,
    pub max_weight: Weight,
}

impl View for QueryResponseInfo {
    type V = QueryResponseInfoView;

    open spec fn view(&self) -> QueryResponseInfoView {
        QueryResponseInfoView {
            destination: self.destination@,
            query_id: self.query_id,
            max_weight: self.max_weight,
        }
    }
}

/// One instruction of an outbound message. Amounts are of the relay chain's
/// native token.
#[derive(Debug, PartialEq, Eq)]
pub enum Instruction {
    /// Takes `amount` from the sender's account on the relay chain into holding.
    WithdrawAsset { amount: Balance },
    /// Pays for execution out of holding with up to `fees`.
    BuyExecution { fees: Balance, weight_limit: WeightLimit },
    /// Dispatches the encoded `call`.
    Transact { origin_kind: OriginKind, require_weight_at_most: Weight, call: Vec<u8> },
    /// Returns what was paid for execution and not used to holding.
    RefundSurplus,
    /// Moves up to `amount` from holding to `beneficiary`.
    DepositAsset { amount: Balance, beneficiary: Location },
    /// Sets, as the code to run when execution ends, a single report of the
    /// error that occurred, if any.
    SetAppendix { report_error: QueryResponseInfo },
}

/// What an `Instruction` says: calls as sequences of bytes, locations by
/// their views.
pub enum InstructionView {
    WithdrawAsset { amount: Balance },
    BuyExecution { fees: Balance, weight_limit: WeightLimit },
    Transact { origin_kind: OriginKind, require_weight_at_most: Weight, call: Seq<u8> },
    RefundSurplus,
    DepositAsset { amount: Balance, beneficiary: LocationView },
    SetAppendix { report_error: QueryResponseInfoView },
}

impl View for Instruction {
    type V = InstructionView;

    open spec fn view(&self) -> InstructionView {
        match *self {
            Instruction::WithdrawAsset { amount } => InstructionView::WithdrawAsset { amount },
            Instruction::BuyExecution { fees, weight_limit } => InstructionView::BuyExecution {
                fees,
                weight_limit,
            },
            Instruction::Transact {
                origin_kind,
                require_weight_at_most,
                call,
            } => InstructionView::Transact { origin_kind, require_weight_at_most, call: call@ },
            Instruction::RefundSurplus => InstructionView::RefundSurplus,
            Instruction::DepositAsset { amount, beneficiary } => InstructionView::DepositAsset {
                amount,
                beneficiary: beneficiary@,
            },
            Instruction::SetAppendix { report_error } => InstructionView::SetAppendix {
                report_error: report_error@,
            },
        }
    }
}

/// The place of the outcome report in a message: behind the two instructions
/// that withdraw the fee and buy execution, before anything is transacted.
pub const REPORT_SLOT: usize = 2;

/// The place of a further call in a message: directly behind the outcome
/// report.
pub const TRANSACT_SLOT: usize = 3;

/// A call dispatched from the sender's sovereign account.
pub open spec fn sovereign_transact(call: Seq<u8>, weight: Weight) -> InstructionView {
    InstructionView::Transact {
        origin_kind: OriginKind::SovereignAccount,
        require_weight_at_most: weight,
        call,
    }
}

/// The message that pays `fees` for one call of at most `weight` and leaves
/// what is not used with `beneficiary`.
pub open spec fn skeleton(
    call: Seq<u8>,
    weight: Weight,
    beneficiary: LocationView,
    fees: Balance,
) -> Seq<InstructionView> {
    seq![
        InstructionView::WithdrawAsset { amount: fees },
        InstructionView::BuyExecution { fees, weight_limit: WeightLimit::Unlimited },
        sovereign_transact(call, weight),
        InstructionView::RefundSurplus,
        InstructionView::DepositAsset { amount: fees, beneficiary },
    ]
}

/// `message` with the outcome report in its slot.
pub open spec fn with_report(
    message: Seq<InstructionView>,
    report_error: QueryResponseInfoView,
) -> Seq<InstructionView> {
    message.insert(REPORT_SLOT as int, InstructionView::SetAppendix { report_error })
}

/// `message` with a further call in its slot.
pub open spec fn with_transact(message: Seq<InstructionView>, call: Seq<u8>, weight: Weight) -> Seq<
    InstructionView,
> {
    message.insert(TRANSACT_SLOT as int, sovereign_transact(call, weight))
}

/// An outbound message: instructions in the order of their execution.
#[derive(Debug, PartialEq, Eq)]
pub struct Xcm(pub Vec<Instruction>);

impl View for Xcm {
    type V = Seq<InstructionView>;

    open spec fn view(&self) -> Seq<InstructionView> {
        self.0@.map_values(|instruction: Instruction| instruction@)
    }
}

impl Xcm {
    /// The number of instructions.
    pub fn len(&self) -> (count: usize)
        ensures
            count == self@.len(),
    {
        self.0.len()
    }

    /// Builds the message that pays `fees` for `call`.
    pub fn pay_and_transact(
        call: Vec<u8>,
        weight: Weight,
        beneficiary: Location,
        fees: Balance,
    ) -> (message: Xcm)
        ensures
            message@ == skeleton(call@, weight, beneficiary@, fees),
    {
        let mut instructions: Vec<Instruction> = Vec::new();
        instructions.push(Instruction::WithdrawAsset { amount: fees });
        instructions.push(
            Instruction::BuyExecution { fees, weight_limit: WeightLimit::Unlimited },
        );
        instructions.push(
            Instruction::Transact {
                origin_kind: OriginKind::SovereignAccount,
                require_weight_at_most: weight,
                call,
            },
        );
        instructions.push(Instruction::RefundSurplus);
        instructions.push(Instruction::DepositAsset { amount: fees, beneficiary });
        let message = Xcm(instructions);
        assert(message@ =~= skeleton(call@, weight, beneficiary@, fees));
        message
    }

    /// Puts the outcome report into its slot.
    pub fn insert_report(&mut self, report_error: QueryResponseInfo)
        requires
            old(self)@.len() >= REPORT_SLOT,
        ensures
            final(self)@ == with_report(old(self)@, report_error@),
    {
        self.0.insert(REPORT_SLOT, Instruction::SetAppendix { report_error });
        assert(self@ =~= with_report(old(self)@, report_error@));
    }

    /// Puts a further call into its slot.
    pub fn insert_transact(&mut self, call: Vec<u8>, weight: Weight)
        requires
            old(self)@.len() >= TRANSACT_SLOT,
        ensures
            final(self)@ == with_transact(old(self)@, call@, weight),
    {
        self.0.insert(
            TRANSACT_SLOT,
            Instruction::Transact {
                origin_kind: OriginKind::SovereignAccount,
                require_weight_at_most: weight,
                call,
            },
        );
        assert(self@ =~= with_transact(old(self)@, call@, weight));
    }
}

/// A message that carries an outcome report has it in the report slot, with
/// one instruction more than before and the others in their order; a further
/// call put in afterwards stands in the slot directly behind the report and
/// leaves the report where it is.
pub proof fn lemma_slots(
    message: Seq<InstructionView>,
    report_error: QueryResponseInfoView,
    call: Seq<u8>,
    weight: Weight,
)
    requires
        message.len() >= REPORT_SLOT,
    ensures
        with_report(message, report_error).len() == message.len() + 1,
        with_report(message, report_error)[REPORT_SLOT as int] == (InstructionView::SetAppendix {
            report_error,
        }),
        with_report(message, report_error).remove(REPORT_SLOT as int) == message,
        with_transact(with_report(message, report_error), call, weight).len() == message.len()
            + 2,
        with_transact(with_report(message, report_error), call, weight)[REPORT_SLOT as int] == (
        InstructionView::SetAppendix { report_error }),
        with_transact(with_report(message, report_error), call, weight)[TRANSACT_SLOT as int]
            == sovereign_transact(call, weight),
        with_transact(with_report(message, report_error), call, weight).remove(
            TRANSACT_SLOT as int,
        ) == with_report(message, report_error),
{
    let reported = with_report(message, report_error);
    assert(reported.remove(REPORT_SLOT as int) =~= message);
    assert(with_transact(reported, call, weight).remove(TRANSACT_SLOT as int) =~= reported);
}

/// The order of the two insertions matters. A further call put into a
/// fresh message before the report ends up fifth, behind the call that the
/// message was built for, once the report is in: the report is then third
/// all the same, but the two calls have changed places.
pub proof fn lemma_transact_before_report(
    call: Seq<u8>,
    weight: Weight,
    beneficiary: LocationView,
    fees: Balance,
    report_error: QueryResponseInfoView,
    second_call: Seq<u8>,
    second_weight: Weight,
)
    ensures
        with_report(
            with_transact(skeleton(call, weight, beneficiary, fees), second_call, second_weight),
            report_error,
        ) == seq![
            InstructionView::WithdrawAsset { amount: fees },
            InstructionView::BuyExecution { fees, weight_limit: WeightLimit::Unlimited },
            InstructionView::SetAppendix { report_error },
            sovereign_transact(call, weight),
            sovereign_transact(second_call, second_weight),
            InstructionView::RefundSurplus,
            InstructionView::DepositAsset { amount: fees, beneficiary },
        ],
{
}

/// Whatever call it pays for, a freshly built message has five instructions;
/// with the outcome report it has six, the report third; with a further call
/// it has seven, that call fourth, and the call that the message was built
/// for fifth.
pub proof fn lemma_layout(
    call: Seq<u8>,
    weight: Weight,
    beneficiary: LocationView,
    fees: Balance,
    report_error: QueryResponseInfoView,
    second_call: Seq<u8>,
    second_weight: Weight,
)
    ensures
        skeleton(call, weight, beneficiary, fees).len() == 5,
        with_report(skeleton(call, weight, beneficiary, fees), report_error) == seq![
            InstructionView::WithdrawAsset { amount: fees },
            InstructionView::BuyExecution { fees, weight_limit: WeightLimit::Unlimited },
            InstructionView::SetAppendix { report_error },
            sovereign_transact(call, weight),
            InstructionView::RefundSurplus,
            InstructionView::DepositAsset { amount: fees, beneficiary },
        ],
        with_transact(
            with_report(skeleton(call, weight, beneficiary, fees), report_error),
            second_call,
            second_weight,
        ) == seq![
            InstructionView::WithdrawAsset { amount: fees },
            InstructionView::BuyExecution { fees, weight_limit: WeightLimit::Unlimited },
            InstructionView::SetAppendix { report_error },
            sovereign_transact(second_call, second_weight),
            sovereign_transact(call, weight),
            InstructionView::RefundSurplus,
            InstructionView::DepositAsset { amount: fees, beneficiary },
        ],
{
}

} // verus!
