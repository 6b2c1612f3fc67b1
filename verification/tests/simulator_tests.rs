use pcr_sim::simulator::{HashAlgorithm, PcrSimulator};
use sha2::Digest;

fn all_algorithms_list() -> Vec<HashAlgorithm> {
    vec![
        HashAlgorithm::SHA1,
        HashAlgorithm::SHA256,
        HashAlgorithm::SHA384,
        HashAlgorithm::SHA512,
        HashAlgorithm::SHA3_256,
        HashAlgorithm::SHA3_384,
        HashAlgorithm::SHA3_512,
        HashAlgorithm::SM3,
    ]
}

#[test]
fn fresh_bank_initial_values() {
    for alg in all_algorithms_list() {
        let size = alg.output_size_bytes();
        let sim = PcrSimulator::new(alg);
        assert_eq!(sim.pcr_values.len(), 24);
        for i in 0..24 {
            assert_eq!(sim.pcr_values[i].len(), size);
            if (17..=22).contains(&i) {
                assert_eq!(sim.pcr_values[i], vec![0xFFu8; size]);
            } else {
                assert_eq!(sim.pcr_values[i], vec![0x00u8; size]);
            }
        }
        assert!(sim.measurement_log.is_empty());
    }
}

#[test]
fn extend_is_deterministic() {
    let mut a = PcrSimulator::new(HashAlgorithm::SHA256);
    let mut b = PcrSimulator::new(HashAlgorithm::SHA256);
    let m = vec![0x42u8; 32];
    a.extend_pcr(5, &m).unwrap();
    b.extend_pcr(5, &m).unwrap();
    assert_eq!(a.pcr_values[5], b.pcr_values[5]);
    a.extend_pcr(5, &m).unwrap();
    b.extend_pcr(5, &m).unwrap();
    assert_eq!(a.pcr_values[5], b.pcr_values[5]);
}

#[test]
fn extend_order_matters() {
    let measurement_a = vec![0xAAu8; 32];
    let measurement_b = vec![0xBBu8; 32];

    let mut first = PcrSimulator::new(HashAlgorithm::SHA256);
    first.extend_pcr(0, &measurement_a).unwrap();
    first.extend_pcr(0, &measurement_b).unwrap();

    let mut second = PcrSimulator::new(HashAlgorithm::SHA256);
    second.extend_pcr(0, &measurement_b).unwrap();
    second.extend_pcr(0, &measurement_a).unwrap();

    assert_ne!(first.pcr_values[0], second.pcr_values[0]);
}

#[test]
fn replay_equals_sequential_extends() {
    let measurements: Vec<String> =
        vec!["00".to_string(), "deadbeef".to_string(), "0102030405".to_string()];

    let mut by_replay = PcrSimulator::new(HashAlgorithm::SHA256);
    let replayed = by_replay.replay(3, &measurements).unwrap();

    let mut by_extends = PcrSimulator::new(HashAlgorithm::SHA256);
    for m in &measurements {
        let bytes = PcrSimulator::parse_hex(m).unwrap();
        by_extends.extend_pcr(3, &bytes).unwrap();
    }
    assert_eq!(by_replay.pcr_values[3], by_extends.pcr_values[3]);
    assert_eq!(replayed, by_extends.get_pcr_hex_string(3).unwrap());
}

#[test]
fn replay_stops_at_first_bad_entry_without_rollback() {
    let mut sim = PcrSimulator::new(HashAlgorithm::SHA256);
    let list = vec!["00".to_string(), "zzzz".to_string(), "11".to_string()];
    let err = sim.replay(0, &list).unwrap_err();
    assert_eq!(err, "Invalid hex string");

    // The slot is left where the first (valid) entry brought it.
    let mut partial = PcrSimulator::new(HashAlgorithm::SHA256);
    partial.extend_pcr(0, &[0x00u8]).unwrap();
    assert_eq!(sim.pcr_values[0], partial.pcr_values[0]);
}

#[test]
fn replay_resets_only_target_slot() {
    let mut sim = PcrSimulator::new(HashAlgorithm::SHA256);
    sim.extend_pcr(1, &[0x01u8]).unwrap();
    sim.extend_pcr(2, &[0x02u8]).unwrap();
    let slot2_before = sim.pcr_values[2].clone();

    // Replaying slot 1 resets slot 1 to its initial value first, and
    // leaves slot 2 alone.
    let list = vec!["03".to_string()];
    sim.replay(1, &list).unwrap();
    assert_eq!(sim.pcr_values[2], slot2_before);

    let mut fresh = PcrSimulator::new(HashAlgorithm::SHA256);
    fresh.extend_pcr(1, &[0x03u8]).unwrap();
    assert_eq!(sim.pcr_values[1], fresh.pcr_values[1]);
}

#[test]
fn replay_empty_list_returns_reset_value() {
    let mut sim = PcrSimulator::new(HashAlgorithm::SHA256);
    sim.extend_pcr(0, &[0x07u8]).unwrap();
    let list: Vec<String> = Vec::new();
    assert_eq!(sim.replay(0, &list).unwrap(), "00".repeat(32));

    let mut sim = PcrSimulator::new(HashAlgorithm::SHA256);
    assert_eq!(sim.replay(18, &list).unwrap(), "ff".repeat(32));
}

#[test]
fn replay_invalid_index() {
    let mut sim = PcrSimulator::new(HashAlgorithm::SHA256);
    let list = vec!["00".to_string()];
    let err = sim.replay(24, &list).unwrap_err();
    assert_eq!(err, "Invalid PCR index");
}

#[test]
fn extend_invalid_index() {
    let mut sim = PcrSimulator::new(HashAlgorithm::SHA256);
    let err = sim.extend_pcr(24, &[0u8]).unwrap_err();
    assert_eq!(err, "Invalid PCR index");
    let err = sim.get_pcr_hex_string(99).unwrap_err();
    assert_eq!(err, "Invalid PCR index");
}

#[test]
fn add_measurement_chains_against_reference_sha256() {
    let mut sim = PcrSimulator::new(HashAlgorithm::SHA256);
    sim.add_measurement("m1".to_string(), "00", 0).unwrap();
    sim.add_measurement("m2".to_string(), "01", 0).unwrap();

    let mut data = vec![0u8; 32];
    data.push(0x00);
    let step1 = sha2::Sha256::digest(&data).to_vec();
    let mut data2 = step1.clone();
    data2.push(0x01);
    let step2 = sha2::Sha256::digest(&data2).to_vec();

    assert_eq!(sim.get_pcr_hex_string(0).unwrap(), hex::encode(&step2));
    assert_eq!(sim.measurement_log.len(), 2);
    assert_eq!(sim.measurement_log[0], ("m1".to_string(), vec![0x00u8], 0));
    assert_eq!(sim.measurement_log[1], ("m2".to_string(), vec![0x01u8], 0));
}

#[test]
fn add_measurement_failure_leaves_everything_untouched() {
    let mut sim = PcrSimulator::new(HashAlgorithm::SHA256);
    let before = sim.pcr_values.clone();

    let err = sim.add_measurement("bad".to_string(), "0g", 0).unwrap_err();
    assert_eq!(err, "Failed to decode measurement");
    assert_eq!(sim.pcr_values, before);
    assert!(sim.measurement_log.is_empty());

    let err = sim.add_measurement("odd".to_string(), "abc", 0).unwrap_err();
    assert_eq!(err, "Failed to decode measurement");
    assert!(sim.measurement_log.is_empty());

    let err = sim.add_measurement("idx".to_string(), "ab", 24).unwrap_err();
    assert_eq!(err, "Invalid PCR index");
    assert_eq!(sim.pcr_values, before);
    assert!(sim.measurement_log.is_empty());
}

#[test]
fn reset_restores_initial_values_and_clears_log() {
    let mut sim = PcrSimulator::new(HashAlgorithm::SHA384);
    sim.add_measurement("m".to_string(), "ff", 4).unwrap();
    sim.add_measurement("n".to_string(), "ee", 20).unwrap();
    assert_eq!(sim.measurement_log.len(), 2);

    sim.reset();
    let fresh = PcrSimulator::new(HashAlgorithm::SHA384);
    assert_eq!(sim.pcr_values, fresh.pcr_values);
    assert!(sim.measurement_log.is_empty());
}

#[test]
fn change_algorithm_reinitializes() {
    let mut sim = PcrSimulator::new(HashAlgorithm::SHA256);
    sim.add_measurement("m".to_string(), "01", 0).unwrap();

    sim.change_algorithm(HashAlgorithm::SHA512);
    let fresh = PcrSimulator::new(HashAlgorithm::SHA512);
    assert_eq!(sim.pcr_values, fresh.pcr_values);
    assert!(sim.measurement_log.is_empty());
    assert_eq!(sim.pcr_values[0].len(), 64);
}

#[test]
fn get_all_pcr_values_snapshot() {
    let sim = PcrSimulator::new(HashAlgorithm::SHA256);
    let all = sim.get_all_pcr_values();
    assert_eq!(all.len(), 24);
    for (i, entry) in all.iter().enumerate() {
        assert_eq!(entry.0, i);
        if (17..=22).contains(&i) {
            assert_eq!(entry.1, "ff".repeat(32));
        } else {
            assert_eq!(entry.1, "00".repeat(32));
        }
    }
}

#[test]
fn parse_hex_trims_and_removes_spaces() {
    assert_eq!(PcrSimulator::parse_hex(" de ad be ef ").unwrap(), vec![0xde, 0xad, 0xbe, 0xef]);
    assert_eq!(PcrSimulator::parse_hex("").unwrap(), Vec::<u8>::new());
    assert_eq!(PcrSimulator::parse_hex("xyz").unwrap_err(), "Invalid hex string");
    assert_eq!(PcrSimulator::parse_hex("abc").unwrap_err(), "Invalid hex string");
}

#[test]
fn hash_matches_reference_implementations() {
    let sim = PcrSimulator::new(HashAlgorithm::SHA1);
    assert_eq!(hex::encode(sim.hash(b"abc")), "a9993e364706816aba3e25717850c26c9cd0d89d");

    let sim = PcrSimulator::new(HashAlgorithm::SHA256);
    assert_eq!(
        hex::encode(sim.hash(b"abc")),
        "ba7816bf8f01cfea414140de5dae2223b00361a396177a9cb410ff61f20015ad"
    );

    let sim = PcrSimulator::new(HashAlgorithm::SM3);
    assert_eq!(
        hex::encode(sim.hash(b"abc")),
        "66c7f0f462eeedd9d1f2d46bdc10e4e24167c4875cf2f7a2297da02b8f4ba8e0"
    );
}

#[test]
fn from_str_is_case_insensitive() {
    assert!(matches!(HashAlgorithm::from_str("sha1"), Some(HashAlgorithm::SHA1)));
    assert!(matches!(HashAlgorithm::from_str("SHA256"), Some(HashAlgorithm::SHA256)));
    assert!(matches!(HashAlgorithm::from_str("Sha384"), Some(HashAlgorithm::SHA384)));
    assert!(matches!(HashAlgorithm::from_str("sha512"), Some(HashAlgorithm::SHA512)));
    assert!(matches!(HashAlgorithm::from_str("SHA3-256"), Some(HashAlgorithm::SHA3_256)));
    assert!(matches!(HashAlgorithm::from_str("sha3_256"), Some(HashAlgorithm::SHA3_256)));
    assert!(matches!(HashAlgorithm::from_str("sha3-384"), Some(HashAlgorithm::SHA3_384)));
    assert!(matches!(HashAlgorithm::from_str("SHA3_384"), Some(HashAlgorithm::SHA3_384)));
    assert!(matches!(HashAlgorithm::from_str("sha3-512"), Some(HashAlgorithm::SHA3_512)));
    assert!(matches!(HashAlgorithm::from_str("sm3"), Some(HashAlgorithm::SM3)));
    assert!(HashAlgorithm::from_str("md5").is_none());
    assert!(HashAlgorithm::from_str("sha256 ").is_none());
    assert!(HashAlgorithm::from_str("").is_none());
}

#[test]
fn all_algorithms_names() {
    let names = HashAlgorithm::all_algorithms();
    assert_eq!(
        names,
        vec!["SHA1", "SHA256", "SHA384", "SHA512", "SHA3-256", "SHA3-384", "SHA3-512", "SM3"]
    );
}

#[test]
fn output_sizes() {
    assert_eq!(HashAlgorithm::SHA1.output_size_bytes(), 20);
    assert_eq!(HashAlgorithm::SHA256.output_size_bytes(), 32);
    assert_eq!(HashAlgorithm::SHA384.output_size_bytes(), 48);
    assert_eq!(HashAlgorithm::SHA512.output_size_bytes(), 64);
    assert_eq!(HashAlgorithm::SHA3_256.output_size_bytes(), 32);
    assert_eq!(HashAlgorithm::SHA3_384.output_size_bytes(), 48);
    assert_eq!(HashAlgorithm::SHA3_512.output_size_bytes(), 64);
    assert_eq!(HashAlgorithm::SM3.output_size_bytes(), 32);
}
