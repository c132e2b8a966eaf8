use staging_xcm::v3::{
    Junction as OutsideJunction, Junctions, MultiLocation, NetworkId as OutsideNetwork,
};
use xcm_helper::location::{
    copy_junctions, invert_target, same_bytes, same_junctions, same_network, BodyId, BodyPart,
    Junction, Location, NetworkId, MAX_JUNCTIONS,
};

fn outside_junction(junction: &Junction) -> OutsideJunction {
    match junction {
        Junction::Parachain(id) => OutsideJunction::Parachain(*id),
        Junction::AccountId32 { network: None, id } => {
            OutsideJunction::AccountId32 { network: None, id: *id }
        }
        Junction::PalletInstance(index) => OutsideJunction::PalletInstance(*index),
        Junction::GeneralIndex(index) => OutsideJunction::GeneralIndex(*index),
        Junction::OnlyChild => OutsideJunction::OnlyChild,
        Junction::GlobalConsensus(NetworkId::Kusama) => {
            OutsideJunction::GlobalConsensus(OutsideNetwork::Kusama)
        }
        Junction::GlobalConsensus(NetworkId::Polkadot) => {
            OutsideJunction::GlobalConsensus(OutsideNetwork::Polkadot)
        }
        other => panic!("no counterpart written for {:?}", other),
    }
}

fn outside_junctions(junctions: &[Junction]) -> Junctions {
    let mut out = Junctions::Here;
    for junction in junctions {
        out = out.pushed_with(outside_junction(junction)).unwrap();
    }
    out
}

fn outside_location(location: &Location) -> MultiLocation {
    MultiLocation::new(location.parents, outside_junctions(&location.interior))
}

fn check_against_outside(universal: &Vec<Junction>, target: &Location) {
    let ours = invert_target(universal, target);
    let theirs = outside_junctions(universal).invert_target(&outside_location(target));
    match (ours, theirs) {
        (Some(path), Ok(expected)) => assert_eq!(outside_location(&path), expected),
        (None, Err(())) => {}
        (ours, theirs) => panic!("disagreement: {:?} against {:?}", ours, theirs),
    }
}

fn kusama_para(id: u32) -> Vec<Junction> {
    vec![Junction::GlobalConsensus(NetworkId::Kusama), Junction::Parachain(id)]
}

#[test]
fn parent_sees_the_chain_as_its_parachain() {
    let path = invert_target(&kusama_para(2087), &Location::parent()).unwrap();
    assert_eq!(path, Location { parents: 0, interior: vec![Junction::Parachain(2087)] });
}

#[test]
fn here_is_reached_by_staying() {
    let path = invert_target(&kusama_para(2087), &Location::here()).unwrap();
    assert_eq!(path, Location { parents: 0, interior: Vec::new() });
}

#[test]
fn a_sibling_is_one_up_and_one_down_away() {
    let sibling = Location { parents: 1, interior: vec![Junction::Parachain(1000)] };
    let path = invert_target(&kusama_para(2087), &sibling).unwrap();
    assert_eq!(path, Location { parents: 1, interior: vec![Junction::Parachain(2087)] });
}

#[test]
fn steps_above_the_universal_location_are_only_children() {
    let target = Location { parents: 4, interior: vec![Junction::PalletInstance(3)] };
    let path = invert_target(&kusama_para(7), &target).unwrap();
    assert_eq!(
        path,
        Location {
            parents: 1,
            interior: vec![
                Junction::OnlyChild,
                Junction::OnlyChild,
                Junction::GlobalConsensus(NetworkId::Kusama),
                Junction::Parachain(7),
            ],
        }
    );
}

#[test]
fn an_empty_universal_location_gives_only_children() {
    let target = Location { parents: 2, interior: Vec::new() };
    let path = invert_target(&Vec::new(), &target).unwrap();
    assert_eq!(
        path,
        Location { parents: 0, interior: vec![Junction::OnlyChild, Junction::OnlyChild] }
    );
}

#[test]
fn eight_steps_up_still_have_a_way_back() {
    let target = Location { parents: 8, interior: Vec::new() };
    let path = invert_target(&kusama_para(1), &target).unwrap();
    assert_eq!(path.parents, 0);
    assert_eq!(path.interior.len(), MAX_JUNCTIONS);
    assert_eq!(path.interior[6], Junction::GlobalConsensus(NetworkId::Kusama));
    assert_eq!(path.interior[7], Junction::Parachain(1));
    assert_eq!(path.interior[..6].to_vec(), vec![Junction::OnlyChild; 6]);
}

#[test]
fn more_than_eight_steps_up_have_no_way_back() {
    for parents in [9u8, 10, 100, 255] {
        let target = Location { parents, interior: Vec::new() };
        assert_eq!(invert_target(&kusama_para(1), &target), None);
        assert_eq!(invert_target(&Vec::new(), &target), None);
    }
}

#[test]
fn the_way_back_matches_the_xcm_crate() {
    let universals: Vec<Vec<Junction>> = vec![
        Vec::new(),
        vec![Junction::Parachain(5)],
        kusama_para(2087),
        vec![
            Junction::GlobalConsensus(NetworkId::Polkadot),
            Junction::Parachain(2019),
            Junction::PalletInstance(50),
            Junction::GeneralIndex(42),
        ],
        vec![Junction::Parachain(1); 8],
    ];
    let interiors: Vec<Vec<Junction>> = vec![
        Vec::new(),
        vec![Junction::AccountId32 { network: None, id: [3; 32] }],
        vec![Junction::Parachain(1000), Junction::PalletInstance(2), Junction::GeneralIndex(9)],
        vec![Junction::OnlyChild; 8],
    ];
    for universal in &universals {
        for interior in &interiors {
            for parents in 0..=10u8 {
                let target = Location { parents, interior: interior.clone() };
                check_against_outside(universal, &target);
            }
        }
    }
}

#[test]
fn locations_compare_by_what_they_say() {
    let a = Location { parents: 1, interior: vec![Junction::Parachain(1000)] };
    assert!(a.same(&a.duplicate()));
    assert_eq!(a.duplicate(), a);
    assert!(!a.same(&Location { parents: 0, interior: vec![Junction::Parachain(1000)] }));
    assert!(!a.same(&Location { parents: 1, interior: vec![Junction::Parachain(1001)] }));
    assert!(!a.same(&Location { parents: 1, interior: Vec::new() }));
    assert!(Location::here().same(&Location { parents: 0, interior: Vec::new() }));
    assert!(!Location::here().same(&Location::parent()));
}

#[test]
fn junctions_compare_field_by_field() {
    let mut other_id = [1u8; 32];
    other_id[31] = 2;
    let samples = vec![
        Junction::Parachain(1),
        Junction::Parachain(2),
        Junction::AccountId32 { network: None, id: [1; 32] },
        Junction::AccountId32 { network: None, id: other_id },
        Junction::AccountId32 { network: Some(NetworkId::Kusama), id: [1; 32] },
        Junction::AccountIndex64 { network: None, index: 1 },
        Junction::AccountIndex64 { network: Some(NetworkId::Ethereum { chain_id: 1 }), index: 1 },
        Junction::AccountIndex64 { network: Some(NetworkId::Ethereum { chain_id: 2 }), index: 1 },
        Junction::AccountKey20 { network: None, key: [4; 20] },
        Junction::AccountKey20 { network: None, key: [5; 20] },
        Junction::PalletInstance(1),
        Junction::GeneralIndex(1),
        Junction::GeneralKey { length: 1, data: [0; 32] },
        Junction::GeneralKey { length: 2, data: [0; 32] },
        Junction::OnlyChild,
        Junction::Plurality { id: BodyId::Unit, part: BodyPart::Voice },
        Junction::Plurality { id: BodyId::Moniker([1, 2, 3, 4]), part: BodyPart::Voice },
        Junction::Plurality { id: BodyId::Moniker([1, 2, 3, 5]), part: BodyPart::Voice },
        Junction::Plurality { id: BodyId::Index(1), part: BodyPart::Members { count: 1 } },
        Junction::Plurality { id: BodyId::Index(1), part: BodyPart::Members { count: 2 } },
        Junction::Plurality { id: BodyId::Index(1), part: BodyPart::Fraction { nom: 1, denom: 2 } },
        Junction::GlobalConsensus(NetworkId::ByGenesis([1; 32])),
        Junction::GlobalConsensus(NetworkId::ByGenesis([2; 32])),
        Junction::GlobalConsensus(NetworkId::ByFork { block_number: 1, block_hash: [1; 32] }),
        Junction::GlobalConsensus(NetworkId::ByFork { block_number: 2, block_hash: [1; 32] }),
        Junction::GlobalConsensus(NetworkId::Polkadot),
        Junction::GlobalConsensus(NetworkId::Kusama),
        Junction::GlobalConsensus(NetworkId::Westend),
        Junction::GlobalConsensus(NetworkId::Rococo),
        Junction::GlobalConsensus(NetworkId::Wococo),
        Junction::GlobalConsensus(NetworkId::BitcoinCore),
        Junction::GlobalConsensus(NetworkId::BitcoinCash),
        Junction::GlobalConsensus(NetworkId::PolkadotBulletin),
    ];
    for (i, a) in samples.iter().enumerate() {
        for (j, b) in samples.iter().enumerate() {
            assert_eq!(a.same(b), i == j, "{:?} against {:?}", a, b);
            assert_eq!(a.same(b), a == b);
        }
    }
}

#[test]
fn helpers_compare_and_copy() {
    assert!(same_bytes(&[1u8, 2, 3], &[1u8, 2, 3]));
    assert!(!same_bytes(&[1u8, 2, 3], &[1u8, 2, 4]));
    assert!(same_bytes::<0>(&[], &[]));
    assert!(same_network(&None, &None));
    assert!(!same_network(&None, &Some(NetworkId::Kusama)));
    assert!(same_network(&Some(NetworkId::Kusama), &Some(NetworkId::Kusama)));
    let list = kusama_para(3);
    assert_eq!(copy_junctions(&list), list);
    assert!(same_junctions(&list, &copy_junctions(&list)));
    assert!(!same_junctions(&list, &kusama_para(4)));
    assert!(!same_junctions(&list, &Vec::new()));
}

#[test]
fn a_location_holds_at_most_eight_junctions() {
    let eight = vec![Junction::OnlyChild; 8];
    assert_eq!(Location::new(3, eight.clone()), Some(Location { parents: 3, interior: eight }));
    assert_eq!(Location::new(0, Vec::new()), Some(Location::here()));
    assert_eq!(Location::new(1, Vec::new()), Some(Location::parent()));
    assert_eq!(Location::new(0, vec![Junction::OnlyChild; 9]), None);
}
