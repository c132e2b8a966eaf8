//! Hierarchical cross-chain addresses and the return path between two of them.

use vstd::prelude::*;

verus! {

broadcast use vstd::array::group_array_axioms;

/// The most junctions that the interior of a location can hold.
pub const MAX_JUNCTIONS: usize = 8;

/// A consensus system that is addressed from outside any hierarchy.
#[derive(Clone, Copy, Debug, PartialEq, Eq)]
pub enum NetworkId {
    ByGenesis([u8; 32]),
    ByFork { block_number: u64, block_hash: [u8; 32] },
    Polkadot,
    Kusama,
    Westend,
    Rococo,
    Wococo,
    Ethereum { chain_id: u64 },
    BitcoinCore,
    BitcoinCash,
    PolkadotBulletin,
}

/// A body of governance inside a consensus system.
#[derive(Clone, Copy, Debug, PartialEq, Eq)]
pub enum BodyId {
    Unit,
    Moniker([u8; 4]),
    Index(u32),
    Executive,
    Technical,
    Legislative,
    Judicial,
    Defense,
    Administration,
    Treasury,
}

/// The part of a body that acts.
#[derive(Clone, Copy, Debug, PartialEq, Eq, Structural)]
pub enum BodyPart {
    Voice,
    Members { count: u32 },
    Fraction { nom: u32, denom: u32 },
    AtLeastProportion { nom: u32, denom: u32 },
    MoreThanProportion { nom: u32, denom: u32 },
}

/// One step down from a consensus system into something that it contains.
#[derive(Clone, Copy, Debug, PartialEq, Eq)]
#[allow(inconsistent_fields)]
pub enum Junction {
    Parachain(u32),
    AccountId32 { network: Option<NetworkId>, id: [u8; 32] },
    AccountIndex64 { network: Option<NetworkId>, index: u64 },
    AccountKey20 { network: Option<NetworkId>, key: [u8; 20] },
    PalletInstance(u8),
    GeneralIndex(u128),
    GeneralKey { length: u8, data: [u8; 32] },
    OnlyChild,
    Plurality { id: BodyId, part: BodyPart },
    GlobalConsensus(NetworkId),
}

/// Whether two byte arrays hold the same bytes.
pub fn same_bytes<const N: usize>(a: &[u8; N], b: &[u8; N]) -> (same: bool)
    ensures
        same == (*a == *b),
{
    let mut i: usize = 0;
    while i < N
        invariant
            i <= N,
            forall|k: int| 0 <= k < i ==> a@[k] == b@[k],
        decreases N - i,
    {
        if a[i] != b[i] {
            return false;
        }
        i += 1;
    }
    assert(*a =~= *b);
    true
}

impl NetworkId {
    /// Whether `self` and `other` are the same network.
    pub fn same(&self, other: &NetworkId) -> (same: bool)
        ensures
            same == (*self == *other),
    {
        match (self, other) {
            (NetworkId::ByGenesis(a), NetworkId::ByGenesis(b)) => same_bytes(a, b),
            (
                NetworkId::ByFork { block_number: n, block_hash: a },
                NetworkId::ByFork { block_number: m, block_hash: b },
            ) => *n == *m && same_bytes(a, b),
            (NetworkId::Polkadot, NetworkId::Polkadot) => true,
            (NetworkId::Kusama, NetworkId::Kusama) => true,
            (NetworkId::Westend, NetworkId::Westend) => true,
            (NetworkId::Rococo, NetworkId::Rococo) => true,
            (NetworkId::Wococo, NetworkId::Wococo) => true,
            (NetworkId::Ethereum { chain_id: a }, NetworkId::Ethereum { chain_id: b }) => *a
                == *b,
            (NetworkId::BitcoinCore, NetworkId::BitcoinCore) => true,
            (NetworkId::BitcoinCash, NetworkId::BitcoinCash) => true,
            (NetworkId::PolkadotBulletin, NetworkId::PolkadotBulletin) => true,
            _ => false,
        }
    }
}

/// Whether two optional networks are the same.
pub fn same_network(a: &Option<NetworkId>, b: &Option<NetworkId>) -> (same: bool)
    ensures
        same == (*a == *b),
{
    match (a, b) {
        (Some(x), Some(y)) => x.same(y),
        (None, None) => true,
        _ => false,
    }
}

impl BodyId {
    /// Whether `self` and `other` are the same body.
    pub fn same(&self, other: &BodyId) -> (same: bool)
        ensures
            same == (*self == *other),
    {
        match (self, other) {
            (BodyId::Unit, BodyId::Unit) => true,
            (BodyId::Moniker(a), BodyId::Moniker(b)) => same_bytes(a, b),
            (BodyId::Index(a), BodyId::Index(b)) => *a == *b,
            (BodyId::Executive, BodyId::Executive) => true,
            (BodyId::Technical, BodyId::Technical) => true,
            (BodyId::Legislative, BodyId::Legislative) => true,
            (BodyId::Judicial, BodyId::Judicial) => true,
            (BodyId::Defense, BodyId::Defense) => true,
            (BodyId::Administration, BodyId::Administration) => true,
            (BodyId::Treasury, BodyId::Treasury) => true,
            _ => false,
        }
    }
}

impl Junction {
    /// Whether `self` and `other` are the same junction.
    pub fn same(&self, other: &Junction) -> (same: bool)
        ensures
            same == (*self == *other),
    {
        match (self, other) {
            (Junction::Parachain(a), Junction::Parachain(b)) => *a == *b,
            (
                Junction::AccountId32 { network: n, id: a },
                Junction::AccountId32 { network: m, id: b },
            ) => same_network(n, m) && same_bytes(a, b),
            (
                Junction::AccountIndex64 { network: n, index: a },
                Junction::AccountIndex64 { network: m, index: b },
            ) => same_network(n, m) && *a == *b,
            (
                Junction::AccountKey20 { network: n, key: a },
                Junction::AccountKey20 { network: m, key: b },
            ) => same_network(n, m) && same_bytes(a, b),
            (Junction::PalletInstance(a), Junction::PalletInstance(b)) => *a == *b,
            (Junction::GeneralIndex(a), Junction::GeneralIndex(b)) => *a == *b,
            (
                Junction::GeneralKey { length: n, data: a },
                Junction::GeneralKey { length: m, data: b },
            ) => *n == *m && same_bytes(a, b),
            (Junction::OnlyChild, Junction::OnlyChild) => true,
            (Junction::Plurality { id: a, part: p }, Junction::Plurality { id: b, part: q }) => {
                a.same(b) && *p == *q
            },
            (Junction::GlobalConsensus(a), Junction::GlobalConsensus(b)) => a.same(b),
            _ => false,
        }
    }
}

/// Whether two junction lists hold the same junctions in the same order.
pub fn same_junctions(a: &Vec<Junction>, b: &Vec<Junction>) -> (same: bool)
    ensures
        same == (a@ == b@),
{
    if a.len() != b.len() {
        return false;
    }
    let mut i: usize = 0;
    while i < a.len()
        invariant
            i <= a.len(),
            a.len() == b.len(),
            forall|k: int| 0 <= k < i ==> a@[k] == b@[k],
        decreases a.len() - i,
    {
        if !a[i].same(&b[i]) {
            return false;
        }
        i += 1;
    }
    assert(a@ =~= b@);
    true
}

/// A copy of a junction list.
pub fn copy_junctions(source: &Vec<Junction>) -> (copy: Vec<Junction>)
    ensures
        copy@ == source@,
{
    let mut copy: Vec<Junction> = Vec::new();
    let mut i: usize = 0;
    while i < source.len()
        invariant
            i <= source.len(),
            copy@ == source@.subrange(0, i as int),
        decreases source.len() - i,
    {
        copy.push(source[i]);
        i += 1;
    }
    assert(source@.subrange(0, source.len() as int) == source@);
    copy
}

/// An address relative to where it is read: `parents` steps up the
/// hierarchy, then down through the junctions of `interior`.
#[derive(Debug, PartialEq, Eq)]
pub struct Location {
    pub parents: u8,
    pub interior: Vec<Junction>,
}

/// What a location says, apart from where its junctions are stored.
pub struct LocationView {
    pub parents: u8,
    pub interior: Seq<Junction>,
}

impl View for Location {
    type V = LocationView;

    open spec fn view(&self) -> LocationView {
        LocationView { parents: self.parents, interior: self.interior@ }
    }
}

impl LocationView {
    /// The interior fits the junction limit.
    pub open spec fn wf(self) -> bool {
        self.interior.len() <= MAX_JUNCTIONS
    }

    /// The place where the address is read.
    pub open spec fn here() -> LocationView {
        LocationView { parents: 0, interior: Seq::empty() }
    }

    /// The system directly above the place where the address is read.
    pub open spec fn parent() -> LocationView {
        LocationView { parents: 1, interior: Seq::empty() }
    }
}

/// The return path to the local system as seen from `target`, where
/// `universal` is the path from the top of the hierarchy down to the local
/// system. Every step that `target` goes down is one step to go up again.
/// Every step that `target` goes up is answered by the junction that leads
/// back down: the last junctions of `universal`, and `OnlyChild` in front of
/// them where `target` goes up further than `universal` is long. There is no
/// return path when `target` goes up more steps than an interior can hold.
pub open spec fn inverted(universal: Seq<Junction>, target: LocationView) -> Option<LocationView> {
    if target.parents > MAX_JUNCTIONS {
        None
    } else {
        let known = if target.parents <= universal.len() {
            target.parents as int
        } else {
            universal.len() as int
        };
        Some(
            LocationView {
                parents: target.interior.len() as u8,
                interior: Seq::new((target.parents - known) as nat, |i: int| Junction::OnlyChild)
                    + universal.subrange(universal.len() - known, universal.len() as int),
            },
        )
    }
}

/// There is a return path exactly when the target goes up no more steps
/// than an interior can hold. The path then goes up as many steps as the
/// target goes down, and down as many as the target goes up; where the
/// universal location is long enough, these are its last junctions.
pub proof fn lemma_inverted(universal: Seq<Junction>, target: LocationView)
    requires
        target.wf(),
    ensures
        inverted(universal, target).is_none() <==> target.parents > MAX_JUNCTIONS,
        inverted(universal, target) matches Some(path) ==> path.wf() && path.parents
            == target.interior.len() && path.interior.len() == target.parents,
        inverted(universal, target) matches Some(path) ==> (target.parents <= universal.len()
            ==> path.interior == universal.subrange(
            universal.len() - target.parents,
            universal.len() as int,
        )),
        inverted(universal, target) matches Some(path) ==> forall|i: int|
            0 <= i < target.parents - universal.len() ==> path.interior[i] == Junction::OnlyChild,
{
}

impl Location {
    /// The interior fits the junction limit.
    pub open spec fn wf(&self) -> bool {
        self@.wf()
    }

    /// The location of `parents` steps up and `interior` down, or nothing
    /// where `interior` has more junctions than a location can hold.
    pub fn new(parents: u8, interior: Vec<Junction>) -> (location: Option<Location>)
        ensures
            interior@.len() > MAX_JUNCTIONS ==> location.is_none(),
            interior@.len() <= MAX_JUNCTIONS ==> (location matches Some(made) && made.wf()
                && made@ == (LocationView { parents, interior: interior@ })),
    {
        if interior.len() > MAX_JUNCTIONS {
            None
        } else {
            Some(Location { parents, interior })
        }
    }

    /// The place where the address is read.
    pub fn here() -> (location: Location)
        ensures
            location@ == LocationView::here(),
    {
        Location { parents: 0, interior: Vec::new() }
    }

    /// The system directly above the place where the address is read.
    pub fn parent() -> (location: Location)
        ensures
            location@ == LocationView::parent(),
    {
        Location { parents: 1, interior: Vec::new() }
    }

    /// A copy of the location.
    pub fn duplicate(&self) -> (copy: Location)
        ensures
            copy@ == self@,
    {
        Location { parents: self.parents, interior: copy_junctions(&self.interior) }
    }

    /// Whether `self` and `other` are the same address.
    pub fn same(&self, other: &Location) -> (same: bool)
        ensures
            same == (self@ == other@),
    {
        self.parents == other.parents && same_junctions(&self.interior, &other.interior)
    }
}

/// Computes the return path to the local system as seen from `target`, or
/// `None` where `target` goes up more steps than an interior can hold.
pub fn invert_target(universal: &Vec<Junction>, target: &Location) -> (path: Option<Location>)
    requires
        target.wf(),
    ensures
        path.is_some() == inverted(universal@, target@).is_some(),
        path matches Some(location) ==> Some(location@) == inverted(universal@, target@)
            && location.wf(),
{
    if target.parents as usize > MAX_JUNCTIONS {
        return None;
    }
    let steps: usize = target.parents as usize;
    let known: usize = if steps <= universal.len() {
        steps
    } else {
        universal.len()
    };
    let mut interior: Vec<Junction> = Vec::new();
    let mut i: usize = 0;
    while i < steps - known
        invariant
            known <= steps,
            i <= steps - known,
            interior@ == Seq::new(i as nat, |k: int| Junction::OnlyChild),
        decreases steps - known - i,
    {
        interior.push(Junction::OnlyChild);
        i += 1;
    }
    let ghost padding = interior@;
    let start: usize = universal.len() - known;
    let mut j: usize = 0;
    while j < known
        invariant
            j <= known,
            known <= universal.len(),
            start == universal.len() - known,
            interior@ == padding + universal@.subrange(start as int, start + j),
        decreases known - j,
    {
        interior.push(universal[start + j]);
        j += 1;
    }
    Some(Location { parents: target.interior.len() as u8, interior })
}

} // verus!
