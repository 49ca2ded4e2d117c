use halo2_verifier::halo2::{Config, Halo2};
use halo2_verifier::vk::{CircuitType, Vk, PUBS_SIZE, VK_SIZE};
use halo2_verifier::weight::{Halo2Weight, Weight, WeightInfo};
use halo2_verifier::VerifyError;

struct MockRuntime;

impl Config for MockRuntime {
    fn max_pubs() -> u32 {
        1
    }
}

type Verifier = Halo2<MockRuntime>;

fn hex(bytes: &[u8]) -> String {
    bytes.iter().map(|b| format!("{:02x}", b)).collect()
}

#[test]
fn vk_new_keeps_its_parts() {
    let vk = Vk::new(vec![1, 2, 3], CircuitType::ZkMove, 10);
    assert_eq!(vk.get_vk(), &vec![1u8, 2, 3]);
    assert_eq!(vk.circuit(), &CircuitType::ZkMove);
    assert_eq!(vk.get_k(), 10);
}

#[test]
fn max_encoded_len_is_compact_prefix_plus_vk_size() {
    assert_eq!(Vk::max_encoded_len(), 1029);
    assert_eq!(Vk::max_encoded_len(), 5 + VK_SIZE);
}

#[test]
fn size_limits() {
    assert_eq!(VK_SIZE, 1024);
    assert_eq!(PUBS_SIZE, 1024);
}

#[test]
fn hash_context_data_is_halo2() {
    assert_eq!(Verifier::hash_context_data(), b"halo2");
}

#[test]
fn vk_bytes_are_the_key_bytes() {
    let vk = Vk::new(vec![9, 8, 7], CircuitType::ZkMove, 4);
    assert_eq!(Verifier::vk_bytes(&vk), &[9u8, 8, 7][..]);
}

#[test]
fn pubs_bytes_are_the_inputs() {
    let pubs: Vec<u8> = vec![0, 1, 2, 255];
    assert_eq!(Verifier::pubs_bytes(&pubs), &[0u8, 1, 2, 255][..]);
}

#[test]
fn vk_hash_is_sha2_256_of_key_bytes() {
    let vk = Vk::new(b"abc".to_vec(), CircuitType::ZkMove, 3);
    assert_eq!(
        hex(&Verifier::vk_hash(&vk)),
        "ba7816bf8f01cfea414140de5dae2223b00361a396177a9cb410ff61f20015ad"
    );
    let empty = Vk::new(Vec::new(), CircuitType::ZkMove, 3);
    assert_eq!(
        hex(&Verifier::vk_hash(&empty)),
        "e3b0c44298fc1c149afbf4c8996fb92427ae41e4649b934ca495991b7852b855"
    );
}

#[test]
fn vk_hash_ignores_k() {
    let a = Vk::new(vec![5, 6, 7, 8], CircuitType::ZkMove, 3);
    let b = Vk::new(vec![5, 6, 7, 8], CircuitType::ZkMove, 17);
    let c = Vk::new(vec![5, 6, 7, 9], CircuitType::ZkMove, 3);
    assert_eq!(Verifier::vk_hash(&a), Verifier::vk_hash(&b));
    assert_ne!(Verifier::vk_hash(&a), Verifier::vk_hash(&c));
}

#[test]
fn deserialize_vk_passes_a_decoded_key_through() {
    let vk = Vk::new(vec![1], CircuitType::ZkMove, 2);
    let r: Result<u32, VerifyError> = Verifier::deserialize_vk::<u32, &str>(&vk, Ok(42));
    assert_eq!(r, Ok(42));
}

#[test]
fn deserialize_vk_maps_a_decoding_error() {
    let vk = Vk::new(vec![1], CircuitType::ZkMove, 2);
    let r = Verifier::deserialize_vk::<u32, &str>(&vk, Err("bad bytes"));
    assert_eq!(r, Err(VerifyError::InvalidVerificationKey));
}

#[test]
fn validate_vk_accepts_a_decodable_key() {
    let vk = Vk::new(vec![1, 2], CircuitType::ZkMove, 2);
    assert_eq!(Verifier::validate_vk::<(), ()>(&vk, Ok(())), Ok(()));
}

#[test]
fn validate_vk_refuses_an_undecodable_key() {
    let vk = Vk::new(vec![1, 2], CircuitType::ZkMove, 2);
    assert_eq!(
        Verifier::validate_vk::<(), ()>(&vk, Err(())),
        Err(VerifyError::InvalidVerificationKey)
    );
}

#[test]
fn verify_proof_accepts_with_no_weight() {
    let vk = Vk::new(vec![1, 2], CircuitType::ZkMove, 2);
    assert_eq!(Verifier::verify_proof::<(), ()>(&vk, Ok(()), true), Ok(None));
}

#[test]
fn verify_proof_refuses_an_undecodable_key() {
    let vk = Vk::new(vec![1, 2], CircuitType::ZkMove, 2);
    assert_eq!(
        Verifier::verify_proof::<(), ()>(&vk, Err(()), false),
        Err(VerifyError::InvalidVerificationKey)
    );
    assert_eq!(
        Verifier::verify_proof::<(), ()>(&vk, Err(()), true),
        Err(VerifyError::InvalidVerificationKey)
    );
}

#[test]
fn verify_proof_and_validate_vk_refuse_the_same_keys() {
    let vk = Vk::new(vec![3], CircuitType::ZkMove, 2);
    assert_eq!(
        Verifier::verify_proof::<(), ()>(&vk, Err(()), false).err(),
        Verifier::validate_vk::<(), ()>(&vk, Err(())).err()
    );
    assert!(Verifier::verify_proof::<(), ()>(&vk, Ok(()), true).is_ok());
    assert!(Verifier::validate_vk::<(), ()>(&vk, Ok(())).is_ok());
}

#[test]
fn weight_from_parts_and_getters() {
    let w = Weight::from_parts(7, 9);
    assert_eq!(w.ref_time(), 7);
    assert_eq!(w.proof_size(), 9);
}

#[test]
fn weight_saturating_add() {
    let a = Weight::from_parts(10, 20);
    let b = Weight::from_parts(1, 2);
    assert_eq!(a.saturating_add(b), Weight::from_parts(11, 22));
    let big = Weight::from_parts(u64::MAX - 1, 5);
    assert_eq!(big.saturating_add(Weight::from_parts(3, u64::MAX)), Weight::from_parts(u64::MAX, u64::MAX));
}

#[test]
fn weight_saturating_add_commutes_and_associates() {
    let a = Weight::from_parts(u64::MAX - 3, 1);
    let b = Weight::from_parts(2, 40);
    let c = Weight::from_parts(7, 500);
    assert_eq!(a.saturating_add(b), b.saturating_add(a));
    assert_eq!(a.saturating_add(b).saturating_add(c), a.saturating_add(b.saturating_add(c)));
}

#[test]
fn placeholder_weights() {
    assert_eq!(<() as WeightInfo>::verify_proof(), Weight::from_parts(2_500_000_000, 0));
    assert_eq!(<() as WeightInfo>::get_vk(), Weight::from_parts(30_500_000, 5137));
    assert_eq!(<() as WeightInfo>::validate_vk(), Weight::from_parts(35_000_000, 0));
    assert_eq!(<() as WeightInfo>::compute_statement_hash(), Weight::from_parts(8_500_000, 0));
    assert_eq!(<() as WeightInfo>::register_vk(), Weight::from_parts(490_000_000, 5137));
    assert_eq!(<() as WeightInfo>::unregister_vk(), Weight::from_parts(425_000_000, 5137));
}

#[test]
fn halo2_weights_come_from_weight_info() {
    let vk = Vk::new(vec![1], CircuitType::ZkMove, 1);
    let proof: Vec<u8> = vec![1, 2, 3];
    let pubs: Vec<u8> = vec![4];
    type W = Halo2Weight<()>;
    assert_eq!(W::verify_proof(&proof, &pubs), Weight::from_parts(2_500_000_000, 0));
    assert_eq!(W::register_vk(&vk), Weight::from_parts(490_000_000, 5137));
    assert_eq!(W::unregister_vk(), Weight::from_parts(425_000_000, 5137));
    assert_eq!(W::get_vk(), Weight::from_parts(30_500_000, 5137));
    assert_eq!(W::validate_vk(&vk), Weight::from_parts(35_000_000, 0));
    assert_eq!(W::compute_statement_hash(&proof, &pubs), Weight::from_parts(8_500_000, 0));
}

#[test]
fn mock_runtime_config() {
    assert_eq!(MockRuntime::max_pubs(), 1);
}
