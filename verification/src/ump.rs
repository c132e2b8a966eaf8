//! Calls that the relay chain's dispatcher understands, and their wire format.
//!
//! A call is encoded as the index of its pallet, the index of the call inside
//! the pallet, and the call's arguments in declaration order.

use crate::codec::{compact, le_bytes, put_compact, put_length, put_u16, put_u32};
use vstd::prelude::*;

verus! {

/// A relay-chain account: the 32 bytes of its public key.
pub type AccountId = [u8; 32];

/// The relay chain whose dispatcher decodes the calls.
#[derive(Clone, Copy, Debug, PartialEq, Eq, Structural)]
pub enum RelayNetwork {
    Kusama,
    Polkadot,
}

/// Where staking rewards are paid.
#[derive(Clone, Copy, Debug, PartialEq, Eq)]
pub enum RewardDestination {
    Staked,
    Stash,
    Controller,
    Account(AccountId),
    /// Rewards are not paid out at all.
    Discarded,
}

/// Calls of the relay chain's balances pallet.
#[derive(Clone, Copy, Debug, PartialEq, Eq)]
pub enum BalancesCall {
    TransferKeepAlive { dest: AccountId, value: u128 },
    TransferAll { dest: AccountId, keep_alive: bool },
}

/// Calls of the relay chain's staking pallet.
#[derive(Debug, PartialEq, Eq)]
pub enum StakingCall {
    Bond { value: u128, payee: RewardDestination },
    BondExtra { value: u128 },
    Unbond { value: u128 },
    WithdrawUnbonded { num_slashing_spans: u32 },
    Nominate { targets: Vec<AccountId> },
    Rebond { value: u128 },
}

/// Calls of the relay chain's utility pallet.
#[derive(Debug, PartialEq, Eq)]
pub enum UtilityCall {
    /// Runs `call` from the sub-account derived from the caller and `index`.
    AsDerivative { index: u16, call: RelaychainCall },
}

/// A call on the relay chain.
#[derive(Debug, PartialEq, Eq)]
pub enum RelaychainCall {
    Balances(BalancesCall),
    Staking(StakingCall),
    Utility(Box<UtilityCall>),
}

/// The index of the balances pallet in Kusama's runtime.
pub const KUSAMA_BALANCES: u8 = 4;

/// The index of the staking pallet in Kusama's runtime.
pub const KUSAMA_STAKING: u8 = 6;

/// The index of the utility pallet in Kusama's runtime.
pub const KUSAMA_UTILITY: u8 = 24;

/// The index of the balances pallet in Polkadot's runtime.
pub const POLKADOT_BALANCES: u8 = 5;

/// The index of the staking pallet in Polkadot's runtime.
pub const POLKADOT_STAKING: u8 = 7;

/// The index of the utility pallet in Polkadot's runtime.
pub const POLKADOT_UTILITY: u8 = 26;

/// The index of `transfer_keep_alive` in the balances pallet.
pub const TRANSFER_KEEP_ALIVE: u8 = 3;

/// The index of `transfer_all` in the balances pallet.
pub const TRANSFER_ALL: u8 = 4;

/// The index of `bond` in the staking pallet.
pub const BOND: u8 = 0;

/// The index of `bond_extra` in the staking pallet.
pub const BOND_EXTRA: u8 = 1;

/// The index of `unbond` in the staking pallet.
pub const UNBOND: u8 = 2;

/// The index of `withdraw_unbonded` in the staking pallet.
pub const WITHDRAW_UNBONDED: u8 = 3;

/// The index of `nominate` in the staking pallet.
pub const NOMINATE: u8 = 5;

/// The index of `rebond` in the staking pallet.
pub const REBOND: u8 = 19;

/// The index of `as_derivative` in the utility pallet.
pub const AS_DERIVATIVE: u8 = 1;

impl RelayNetwork {
    /// The index of the balances pallet in the network's runtime.
    pub open spec fn balances_index(self) -> u8 {
        match self {
            RelayNetwork::Kusama => KUSAMA_BALANCES,
            RelayNetwork::Polkadot => POLKADOT_BALANCES,
        }
    }

    /// The index of the staking pallet in the network's runtime.
    pub open spec fn staking_index(self) -> u8 {
        match self {
            RelayNetwork::Kusama => KUSAMA_STAKING,
            RelayNetwork::Polkadot => POLKADOT_STAKING,
        }
    }

    /// The index of the utility pallet in the network's runtime.
    pub open spec fn utility_index(self) -> u8 {
        match self {
            RelayNetwork::Kusama => KUSAMA_UTILITY,
            RelayNetwork::Polkadot => POLKADOT_UTILITY,
        }
    }

    /// The index of the balances pallet in the network's runtime.
    pub fn balances(self) -> (index: u8)
        ensures
            index == self.balances_index(),
    {
        match self {
            RelayNetwork::Kusama => KUSAMA_BALANCES,
            RelayNetwork::Polkadot => POLKADOT_BALANCES,
        }
    }

    /// The index of the staking pallet in the network's runtime.
    pub fn staking(self) -> (index: u8)
        ensures
            index == self.staking_index(),
    {
        match self {
            RelayNetwork::Kusama => KUSAMA_STAKING,
            RelayNetwork::Polkadot => POLKADOT_STAKING,
        }
    }

    /// The index of the utility pallet in the network's runtime.
    pub fn utility(self) -> (index: u8)
        ensures
            index == self.utility_index(),
    {
        match self {
            RelayNetwork::Kusama => KUSAMA_UTILITY,
            RelayNetwork::Polkadot => POLKADOT_UTILITY,
        }
    }
}

/// An account as the relay chain's lookup takes it: the tag of the
/// plain-identifier form, then the 32 bytes.
pub open spec fn address_wire(id: AccountId) -> Seq<u8> {
    seq![0u8] + id@
}

/// The wire form of each address of `targets` from position `from` on.
pub open spec fn addresses_wire(targets: Seq<AccountId>, from: int) -> Seq<u8>
    decreases targets.len() - from,
{
    if from < 0 || from >= targets.len() {
        Seq::empty()
    } else {
        address_wire(targets[from]) + addresses_wire(targets, from + 1)
    }
}

/// A flag is one byte, 1 for true.
pub open spec fn bool_wire(flag: bool) -> Seq<u8> {
    seq![
        if flag {
            1u8
        } else {
            0u8
        },
    ]
}

impl RewardDestination {
    /// One byte that tells the destinations apart, then the account where
    /// there is one.
    pub open spec fn wire(self) -> Seq<u8> {
        match self {
            RewardDestination::Staked => seq![0u8],
            RewardDestination::Stash => seq![1u8],
            RewardDestination::Controller => seq![2u8],
            RewardDestination::Account(id) => seq![3u8] + id@,
            RewardDestination::Discarded => seq![4u8],
        }
    }

    /// Appends the destination's wire form to `out`.
    pub fn encode_to(&self, out: &mut Vec<u8>)
        ensures
            final(out)@ == old(out)@ + self.wire(),
    {
        match self {
            RewardDestination::Staked => out.push(0),
            RewardDestination::Stash => out.push(1),
            RewardDestination::Controller => out.push(2),
            RewardDestination::Account(id) => {
                out.push(3);
                put_account(out, id);
            },
            RewardDestination::Discarded => out.push(4),
        }
    }
}

/// Appends the 32 bytes of `id` to `out`.
pub fn put_account(out: &mut Vec<u8>, id: &AccountId)
    ensures
        final(out)@ == old(out)@ + id@,
{
    let mut i: usize = 0;
    while i < 32
        invariant
            i <= 32,
            out@ == old(out)@ + id@.subrange(0, i as int),
        decreases 32 - i,
    {
        out.push(id[i]);
        i += 1;
    }
    assert(id@.subrange(0, 32) == id@);
}

/// Appends the lookup form of `id` to `out`.
pub fn put_address(out: &mut Vec<u8>, id: &AccountId)
    ensures
        final(out)@ == old(out)@ + address_wire(*id),
{
    out.push(0);
    put_account(out, id);
}

impl BalancesCall {
    /// The call's index in the pallet, then its arguments.
    pub open spec fn wire(self) -> Seq<u8> {
        match self {
            BalancesCall::TransferKeepAlive { dest, value } => seq![TRANSFER_KEEP_ALIVE]
                + address_wire(dest) + compact(value as nat),
            BalancesCall::TransferAll { dest, keep_alive } => seq![TRANSFER_ALL] + address_wire(
                dest,
            ) + bool_wire(keep_alive),
        }
    }

    /// Appends the call's wire form to `out`.
    pub fn encode_to(&self, out: &mut Vec<u8>)
        ensures
            final(out)@ == old(out)@ + self.wire(),
    {
        match self {
            BalancesCall::TransferKeepAlive { dest, value } => {
                out.push(TRANSFER_KEEP_ALIVE);
                put_address(out, dest);
                put_compact(out, *value);
            },
            BalancesCall::TransferAll { dest, keep_alive } => {
                out.push(TRANSFER_ALL);
                put_address(out, dest);
                out.push(
                    if *keep_alive {
                        1
                    } else {
                        0
                    },
                );
            },
        }
    }
}

impl StakingCall {
    /// The call's index in the pallet, then its arguments. A list of
    /// accounts is led by its length in compact form.
    pub open spec fn wire(self) -> Seq<u8> {
        match self {
            StakingCall::Bond { value, payee } => seq![BOND] + compact(value as nat)
                + payee.wire(),
            StakingCall::BondExtra { value } => seq![BOND_EXTRA] + compact(value as nat),
            StakingCall::Unbond { value } => seq![UNBOND] + compact(value as nat),
            StakingCall::WithdrawUnbonded { num_slashing_spans } => seq![WITHDRAW_UNBONDED]
                + le_bytes(num_slashing_spans as nat, 4),
            StakingCall::Nominate { targets } => seq![NOMINATE] + compact(targets@.len())
                + addresses_wire(targets@, 0),
            StakingCall::Rebond { value } => seq![REBOND] + compact(value as nat),
        }
    }

    /// Whether the call can be encoded: a list's length must fit the 32 bits
    /// of its prefix.
    pub open spec fn encodable(self) -> bool {
        self matches StakingCall::Nominate { targets } ==> targets@.len() <= u32::MAX
    }

    /// Appends the call's wire form to `out`.
    pub fn encode_to(&self, out: &mut Vec<u8>)
        requires
            self.encodable(),
        ensures
            final(out)@ == old(out)@ + self.wire(),
    {
        match self {
            StakingCall::Bond { value, payee } => {
                out.push(BOND);
                put_compact(out, *value);
                payee.encode_to(out);
            },
            StakingCall::BondExtra { value } => {
                out.push(BOND_EXTRA);
                put_compact(out, *value);
            },
            StakingCall::Unbond { value } => {
                out.push(UNBOND);
                put_compact(out, *value);
            },
            StakingCall::WithdrawUnbonded { num_slashing_spans } => {
                out.push(WITHDRAW_UNBONDED);
                put_u32(out, *num_slashing_spans);
            },
            StakingCall::Nominate { targets } => {
                out.push(NOMINATE);
                put_length(out, targets.len() as u32);
                let ghost head = out@;
                let mut i: usize = 0;
                while i < targets.len()
                    invariant
                        i <= targets.len(),
                        out@ + addresses_wire(targets@, i as int) == head + addresses_wire(
                            targets@,
                            0,
                        ),
                    decreases targets.len() - i,
                {
                    let ghost before = out@;
                    put_address(out, &targets[i]);
                    assert(out@ + addresses_wire(targets@, i + 1) == before + addresses_wire(
                        targets@,
                        i as int,
                    ));
                    i += 1;
                }
                assert(addresses_wire(targets@, targets.len() as int) == Seq::<u8>::empty());
                assert(out@ == out@ + Seq::<u8>::empty());
            },
            StakingCall::Rebond { value } => {
                out.push(REBOND);
                put_compact(out, *value);
            },
        }
    }
}

impl RelaychainCall {
    /// The index of the call's pallet in the runtime of `network`, then the
    /// call as its pallet encodes it. A derivative call carries the sub-account
    /// index in two bytes, then the inner call in full.
    pub open spec fn wire(self, network: RelayNetwork) -> Seq<u8>
        decreases self,
    {
        match self {
            RelaychainCall::Balances(call) => seq![network.balances_index()] + call.wire(),
            RelaychainCall::Staking(call) => seq![network.staking_index()] + call.wire(),
            RelaychainCall::Utility(call) => match *call {
                UtilityCall::AsDerivative { index, call } => seq![
                    network.utility_index(),
                    AS_DERIVATIVE,
                ] + le_bytes(index as nat, 2) + call.wire(network),
            },
        }
    }

    /// Whether every list inside the call fits its length prefix.
    pub open spec fn encodable(self) -> bool
        decreases self,
    {
        match self {
            RelaychainCall::Balances(_) => true,
            RelaychainCall::Staking(call) => call.encodable(),
            RelaychainCall::Utility(call) => match *call {
                UtilityCall::AsDerivative { index, call } => call.encodable(),
            },
        }
    }

    /// Appends the call's wire form for `network` to `out`.
    pub fn encode_to(&self, network: RelayNetwork, out: &mut Vec<u8>)
        requires
            self.encodable(),
        ensures
            final(out)@ == old(out)@ + self.wire(network),
        decreases self,
    {
        match self {
            RelaychainCall::Balances(call) => {
                out.push(network.balances());
                call.encode_to(out);
            },
            RelaychainCall::Staking(call) => {
                out.push(network.staking());
                call.encode_to(out);
            },
            RelaychainCall::Utility(boxed) => {
                match &**boxed {
                    UtilityCall::AsDerivative { index, call } => {
                        out.push(network.utility());
                        out.push(AS_DERIVATIVE);
                        put_u16(out, *index);
                        call.encode_to(network, out);
                    },
                }
            },
        }
    }

    /// The bytes that the dispatcher of `network` decodes as this call.
    pub fn encode(&self, network: RelayNetwork) -> (bytes: Vec<u8>)
        requires
            self.encodable(),
        ensures
            bytes@ == self.wire(network),
    {
        let mut bytes: Vec<u8> = Vec::new();
        self.encode_to(network, &mut bytes);
        bytes
    }
}

} // verus!
