use toposhield::circom::element_to_hex;
use toposhield::circom::CircomValue;
use toposhield::digest::sha256;
use toposhield::field::FieldElement;
use toposhield::holonomy::compute_holonomy;
use toposhield::manifold::HyperbolicManifold;
use toposhield::matrix::Matrix;
use toposhield::path::ensure_reduced_path;
use toposhield::path::PATH_LENGTH;
use toposhield::witness::bytes_to_frs;
use toposhield::witness::descriptor_preimage;
use toposhield::witness::encode_elements;
use toposhield::witness::generate_path;
use toposhield::witness::index_from_digest;
use toposhield::witness::position_preimage;
use toposhield::witness::seed_preimage;
use toposhield::witness::BuilderStage;
use toposhield::witness::BuilderStep;
use toposhield::witness::Witness;
use toposhield::witness::WitnessBuilder;
use toposhield::witness::WitnessError;

fn fe(x: u64) -> FieldElement {
    FieldElement::from_u64(x)
}

/// Stands in for the field-native hash: four elements cut from SHA-256.
fn stand_in_hash(request: &[FieldElement]) -> [FieldElement; 4] {
    let mut bytes = Vec::new();
    for element in request {
        bytes.extend(element.to_repr());
    }
    let mut out = [FieldElement::zero(); 4];
    for (k, slot) in out.iter_mut().enumerate() {
        let mut input = bytes.clone();
        input.push(k as u8);
        *slot = FieldElement::from_chunk(&sha256(&input), 0, 31);
    }
    out
}

fn build(message: &[u8], private_seed: &[u8], manifold: &HyperbolicManifold) -> Witness {
    let (mut builder, mut requests) = WitnessBuilder::start(message, private_seed, manifold);
    loop {
        let digests: Vec<[FieldElement; 4]> = requests.iter().map(|r| stand_in_hash(r)).collect();
        match builder.step(&digests, manifold).expect("as many digests as requests") {
            BuilderStep::Hash { builder: next, requests: more } => {
                builder = next;
                requests = more;
            }
            BuilderStep::Done { witness } => return witness,
        }
    }
}

fn witness_for(message: &[u8], private_seed: &[u8]) -> Witness {
    build(message, private_seed, &HyperbolicManifold::new())
}

fn determinant(entries: &[FieldElement; 4]) -> FieldElement {
    entries[0].times(&entries[3]).minus(&entries[1].times(&entries[2]))
}

fn is_cancellation(a: i32, b: i32) -> bool {
    (a >= 0 && a <= 4 && b == a + 10)
        || (a >= 5 && a <= 9 && b == a + 10)
        || (a >= 10 && a <= 14 && b == a - 10)
        || (a >= 15 && a <= 19 && b == a - 10)
}

#[test]
fn manifold_test_witness_generation_consistency() {
    let message = b"Topological Cryptography Test";
    let private_seed = b"my_secret_seed_2025";
    let w1 = witness_for(message, private_seed);
    let w2 = witness_for(message, private_seed);
    assert_eq!(w1.gamma, w2.gamma);
    assert_eq!(w1.delta, w2.delta);
    assert_eq!(w1.h_pub, w2.h_pub);
    assert_eq!(w1.h_sig, w2.h_sig);
}

#[test]
fn witness_test_witness_generation_consistency() {
    let message = b"Topological Cryptography Test";
    let private_seed = b"my_secret_seed_2025";
    let manifold = HyperbolicManifold::new();
    let w1 = build(message, private_seed, &manifold);
    let w2 = build(message, private_seed, &manifold);
    assert_eq!(w1.gamma, w2.gamma);
    assert_eq!(w1.delta, w2.delta);
    assert_eq!(w1.h_pub, w2.h_pub);
    assert_eq!(w1.h_sig, w2.h_sig);
}

#[test]
fn manifold_test_path_validity() {
    let w = witness_for(b"Test", b"seed");
    assert!(w.gamma.iter().all(|&x| x < 20));
    assert!(w.delta.iter().all(|&x| x < 20));
    assert_eq!(w.gamma.len(), PATH_LENGTH);
    assert_eq!(w.delta.len(), PATH_LENGTH);
}

#[test]
fn witness_test_path_validity() {
    let w = witness_for(b"Test", b"seed");
    assert!(w.gamma.iter().all(|&x| x < 20));
    assert!(w.delta.iter().all(|&x| x < 20));
    assert_eq!(w.gamma.len(), PATH_LENGTH);
    assert_eq!(w.delta.len(), PATH_LENGTH);
}

#[test]
fn test_reduced_paths() {
    let w = witness_for(b"Reduced Test", b"reduced_seed");
    // Check no adjacent cancellations
    for i in 0..w.gamma.len() - 1 {
        let a = w.gamma[i] as i32;
        let b = w.gamma[i + 1] as i32;
        assert!(!is_cancellation(a, b));
    }
    for i in 0..w.delta.len() - 1 {
        let a = w.delta[i] as i32;
        let b = w.delta[i + 1] as i32;
        assert!(!is_cancellation(a, b));
    }
}

#[test]
fn manifold_test_holonomy_det_one() {
    let w = witness_for(b"Det Test", b"det_seed");
    let det_pub = determinant(&w.h_pub);
    assert_eq!(det_pub, FieldElement::one());
    let det_sig = determinant(&w.h_sig);
    assert_eq!(det_sig, FieldElement::one());
}

#[test]
fn witness_test_holonomy_det_one() {
    let w = witness_for(b"Det Test", b"det_seed");
    let det_pub = w.h_pub[0].times(&w.h_pub[3]).minus(&w.h_pub[1].times(&w.h_pub[2]));
    assert_eq!(det_pub, FieldElement::one());
    let det_sig = w.h_sig[0].times(&w.h_sig[3]).minus(&w.h_sig[1].times(&w.h_sig[2]));
    assert_eq!(det_sig, FieldElement::one());
}

#[test]
fn manifold_test_circom_input_format() {
    let w = witness_for(b"Circom Test", b"circom_seed");
    let input = w.to_circom_input();
    let contains_key = |key: &str| input.entries.iter().any(|(name, _)| name == key);
    assert!(contains_key("gamma"));
    assert!(contains_key("delta"));
    assert!(contains_key("H_pub"));
    assert!(contains_key("H_sig"));
    assert!(contains_key("desc_M"));
    assert!(contains_key("m_hash"));
}

#[test]
fn witness_test_circom_input_format() {
    let w = witness_for(b"Circom Test", b"circom_seed");
    let input = w.to_circom_input();
    let names: Vec<&str> = input.entries.iter().map(|(name, _)| name.as_str()).collect();
    assert!(names.contains(&"gamma"));
    assert!(names.contains(&"delta"));
    assert!(names.contains(&"H_pub"));
    assert!(names.contains(&"H_sig"));
    assert!(names.contains(&"desc_M"));
    assert!(names.contains(&"m_hash"));
}

#[test]
fn test_toposhield_full_lifecycle() {
    // 1. Initialize manifold (sanity check)
    let manifold = HyperbolicManifold::new();
    assert_eq!(manifold.genus(), 5);
    assert_eq!(manifold.chi(), -8);
    assert_eq!(manifold.p_inv(), 12345);

    // 2. Generate witness (signing)
    let message = "Topological Cryptography Integration Test — Enhanced ZKP".as_bytes();
    let private_seed = b"integration_test_seed_2025";
    let witness = build(message, private_seed, &manifold);

    // 3. Validate witness consistency
    assert_eq!(witness.gamma.len(), 20);
    assert_eq!(witness.delta.len(), 20);
    assert!(witness.gamma.iter().all(|&x| x < 20));
    assert!(witness.delta.iter().all(|&x| x < 20));

    // 4. Verify paths are reduced (no adjacent cancellations)
    for i in 0..witness.gamma.len() - 1 {
        let a = witness.gamma[i] as i32;
        let b = witness.gamma[i + 1] as i32;
        assert!(!is_cancellation(a, b), "gamma must be reduced");
    }
    for i in 0..witness.delta.len() - 1 {
        let a = witness.delta[i] as i32;
        let b = witness.delta[i + 1] as i32;
        assert!(!is_cancellation(a, b), "delta must be reduced");
    }

    // 5. Verify determinants
    let det_pub = determinant(&witness.h_pub);
    let det_sig = determinant(&witness.h_sig);
    assert_eq!(det_pub, FieldElement::one());
    assert_eq!(det_sig, FieldElement::one());

    // 6. The sixteen public inputs, in the order of the circuit
    let inputs = witness.public_inputs();
    assert_eq!(inputs.len(), 16);
    assert_eq!(&inputs[0..4], &witness.h_pub);
    assert_eq!(&inputs[4..8], &witness.h_sig);
    assert_eq!(&inputs[8..12], &witness.desc_m);
    assert_eq!(&inputs[12..16], &witness.m_hash);
}

#[test]
fn test_deterministic_witness_generation() {
    let message = b"Same message";
    let seed = b"same_seed";
    let w1 = witness_for(message, seed);
    let w2 = witness_for(message, seed);
    assert_eq!(w1.gamma, w2.gamma);
    assert_eq!(w1.delta, w2.delta);
    assert_eq!(w1.h_pub, w2.h_pub);
    assert_eq!(w1.h_sig, w2.h_sig);
    assert_eq!(w1.desc_m, w2.desc_m);
    assert_eq!(w1.m_hash, w2.m_hash);
}

#[test]
fn different_messages_give_different_witnesses() {
    let seed = b"fixed_seed";
    let w1 = witness_for(b"Message 1", seed);
    let w2 = witness_for(b"Message 2", seed);
    assert_ne!(w1.h_sig, w2.h_sig);
    assert_ne!(w1.delta, w2.delta);
    assert_ne!(w1.m_hash, w2.m_hash);
    assert_eq!(w1.desc_m, w2.desc_m);
    for i in 0..w1.delta.len() - 1 {
        assert!(!is_cancellation(w1.delta[i] as i32, w1.delta[i + 1] as i32));
    }
}

#[test]
fn test_enhanced_desc_m_consistency() {
    let manifold = HyperbolicManifold::new();
    let w = build(b"Desc test", b"desc_seed", &manifold);
    // Recompute expected desc_M manually
    let absorbed = vec![
        fe(5),            // genus
        fe(8).negated(),  // χ
        fe(12345),        // p_inv
        fe(3),            // tr(a1) = 2+1
        fe(4),            // tr(b1) = 3+1
        fe(6),            // tr(a2) = 5+1
        fe(9),            // tr(b2) = 7+2
        fe(14),           // tr(a3) = 11+3
        fe(16),           // tr(b3) = 13+3
        fe(21),           // tr(a4) = 17+4
        fe(24),           // tr(b4) = 19+5
        fe(29),           // tr(a5) = 23+6
        fe(26),           // tr(b5) = 21+5
    ];
    assert_eq!(descriptor_preimage(&manifold), absorbed);
    let expected_desc = stand_in_hash(&absorbed);
    assert_eq!(w.desc_m, expected_desc, "desc_M must include generator traces");
}

#[test]
fn bytes_are_packed_thirty_one_to_an_element() {
    assert_eq!(bytes_to_frs(b""), vec![fe(0)]);
    assert_eq!(bytes_to_frs(b"\x01"), vec![fe(1)]);
    assert_eq!(bytes_to_frs(b"Test"), vec![fe(0x74736554)]);
    let mut bytes = vec![0u8; 31];
    bytes[30] = 1;
    let top = FieldElement::from_chunk(&bytes, 0, 31);
    assert_eq!(bytes_to_frs(&bytes), vec![top]);
    bytes.push(2);
    assert_eq!(bytes_to_frs(&bytes), vec![top, fe(2)]);
    assert_eq!(bytes_to_frs(&[7u8; 62]).len(), 2);
    assert_eq!(bytes_to_frs(&[7u8; 63]).len(), 3);
    assert_eq!(bytes_to_frs(&[7u8; 63])[2], fe(7));
}

#[test]
fn seed_preimage_starts_with_the_label_length() {
    let preimage = seed_preimage(b"gamma", b"Test", b"seed");
    assert_eq!(preimage, vec![fe(5), fe(0x74736554), fe(0x64656573)]);
    let empty = seed_preimage(b"", b"", b"");
    assert_eq!(empty, vec![fe(0), fe(0), fe(0)]);
}

#[test]
fn position_preimage_is_seed_then_position() {
    let seed = [fe(11), fe(12), fe(13), fe(14)];
    assert_eq!(position_preimage(&seed, 7), vec![fe(11), fe(12), fe(13), fe(14), fe(7)]);
}

#[test]
fn index_is_low_word_modulo_four_g() {
    assert_eq!(index_from_digest(&fe(0), 5), 0);
    assert_eq!(index_from_digest(&fe(19), 5), 19);
    assert_eq!(index_from_digest(&fe(20), 5), 0);
    assert_eq!(index_from_digest(&fe(u64::MAX), 5), (u64::MAX % 20) as u8);
    assert_eq!(index_from_digest(&fe(u64::MAX), 2), 7);
    // 2^64 + 3 has the low word 3
    let wide = fe(u64::MAX).plus(&fe(4));
    assert_eq!(index_from_digest(&wide, 5), 3);
    assert_eq!(generate_path(&[fe(21), fe(39), wide], 5), vec![1, 19, 3]);
}

#[test]
fn encoding_is_four_times_thirty_two_bytes() {
    let bytes = encode_elements(&[fe(1), fe(2), fe(0x0304), fe(5)]);
    assert_eq!(bytes.len(), 128);
    assert_eq!(bytes[0], 1);
    assert_eq!(bytes[32], 2);
    assert_eq!(&bytes[64..66], &[4, 3]);
    assert_eq!(bytes[96], 5);
    assert_eq!(bytes.iter().map(|&b| b as u32).sum::<u32>(), 15);
}

#[test]
fn witness_paths_follow_from_the_digests() {
    let manifold = HyperbolicManifold::new();
    let gamma_digests: Vec<FieldElement> = (0..20).map(|i| fe(3 * i + 1)).collect();
    let delta_digests: Vec<FieldElement> = vec![fe(0), fe(10), fe(4)];
    let m_hash = [fe(1), fe(2), fe(3), fe(4)];
    let desc_m = [fe(5), fe(6), fe(7), fe(8)];
    let w = Witness::new(&gamma_digests, &delta_digests, m_hash, desc_m, &manifold);

    let mut gamma = generate_path(&gamma_digests, 5);
    ensure_reduced_path(&mut gamma, 5);
    assert_eq!(w.gamma, gamma);
    let expected_delta: Vec<u8> = (0..20).map(|i| ((4 + i) % 20) as u8).collect();
    assert_eq!(w.delta, expected_delta);
    assert_eq!(w.m_hash, m_hash);
    assert_eq!(w.desc_m, desc_m);
    assert_eq!(Ok(w.h_pub), compute_holonomy(&w.gamma, &manifold));
    let mut combined = w.gamma.clone();
    combined.extend(&w.delta);
    assert_eq!(Ok(w.h_sig), compute_holonomy(&combined, &manifold));
    let h_delta = Matrix::from_entries(compute_holonomy(&w.delta, &manifold).unwrap());
    assert_eq!(Matrix::from_entries(w.h_sig), Matrix::from_entries(w.h_pub).multiply(&h_delta));
}

#[test]
fn builder_asks_for_seeds_then_paths() {
    let manifold = HyperbolicManifold::new();
    let (builder, requests) = WitnessBuilder::start(b"Test", b"seed", &manifold);
    assert_eq!(builder.stage, BuilderStage::Seeds);
    assert_eq!(requests.len(), 3);
    assert_eq!(requests[0], seed_preimage(b"gamma", b"Test", b"seed"));
    assert_eq!(requests[1], bytes_to_frs(b"Test"));
    assert_eq!(requests[2], descriptor_preimage(&manifold));

    let seeds = [[fe(1); 4], [fe(2); 4], [fe(3); 4]];
    let (builder, requests) = match builder.step(&seeds, &manifold).unwrap() {
        BuilderStep::Hash { builder, requests } => (builder, requests),
        BuilderStep::Done { .. } => panic!("the witness cannot be done yet"),
    };
    assert_eq!(builder.stage, BuilderStage::GammaPath);
    assert_eq!(builder.m_hash, [fe(2); 4]);
    assert_eq!(builder.desc_m, [fe(3); 4]);
    assert_eq!(requests.len(), 20);
    for (i, request) in requests.iter().enumerate() {
        assert_eq!(request, &position_preimage(&[fe(1); 4], i as u64));
    }

    let path_digests: Vec<[FieldElement; 4]> = (0..20).map(|i| [fe(i), fe(99), fe(99), fe(99)]).collect();
    let (builder, requests) = match builder.step(&path_digests, &manifold).unwrap() {
        BuilderStep::Hash { builder, requests } => (builder, requests),
        BuilderStep::Done { .. } => panic!("the witness cannot be done yet"),
    };
    assert_eq!(builder.stage, BuilderStage::DeltaSeed);
    let gamma: Vec<u8> = (0..20).collect();
    let h_pub = compute_holonomy(&gamma, &manifold).unwrap();
    assert_eq!(requests, vec![seed_preimage(b"delta", b"Test", &encode_elements(&h_pub))]);

    let (builder, requests) = match builder.step(&[[fe(4); 4]], &manifold).unwrap() {
        BuilderStep::Hash { builder, requests } => (builder, requests),
        BuilderStep::Done { .. } => panic!("the witness cannot be done yet"),
    };
    assert_eq!(builder.stage, BuilderStage::DeltaPath);
    assert_eq!(requests[19], position_preimage(&[fe(4); 4], 19));

    let witness = match builder.step(&path_digests, &manifold).unwrap() {
        BuilderStep::Done { witness } => witness,
        BuilderStep::Hash { .. } => panic!("the witness must be done"),
    };
    assert_eq!(witness.gamma, gamma);
    assert_eq!(witness.delta, gamma);
    assert_eq!(witness.h_pub, h_pub);
    assert_eq!(witness.m_hash, [fe(2); 4]);
    assert_eq!(witness.desc_m, [fe(3); 4]);
}

#[test]
fn builder_refuses_digests_in_the_wrong_number() {
    let manifold = HyperbolicManifold::new();
    let (builder, _) = WitnessBuilder::start(b"Test", b"seed", &manifold);
    let refused = builder.step(&[[fe(1); 4]; 2], &manifold);
    assert_eq!(refused.err(), Some(WitnessError::UnexpectedDigests));

    let (builder, _) = WitnessBuilder::start(b"Test", b"seed", &manifold);
    let next = match builder.step(&[[fe(1); 4]; 3], &manifold).unwrap() {
        BuilderStep::Hash { builder, .. } => builder,
        BuilderStep::Done { .. } => panic!("the witness cannot be done yet"),
    };
    let refused = next.step(&[[fe(1); 4]; 19], &manifold);
    assert_eq!(refused.err(), Some(WitnessError::UnexpectedDigests));
}

#[test]
fn circom_input_is_ordered_by_name() {
    let w = witness_for(b"Circom Test", b"circom_seed");
    let input = w.to_circom_input();
    let names: Vec<&str> = input.entries.iter().map(|(name, _)| name.as_str()).collect();
    assert_eq!(names, vec!["H_pub", "H_sig", "delta", "desc_M", "gamma", "m_hash"]);
    assert_eq!(input.entries[2].1, CircomValue::Indices(w.delta.clone()));
    assert_eq!(input.entries[4].1, CircomValue::Indices(w.gamma.clone()));
    let h_pub: Vec<String> = w.h_pub.iter().map(element_to_hex).collect();
    assert_eq!(input.entries[0].1, CircomValue::Elements(h_pub));
    match &input.entries[5].1 {
        CircomValue::Elements(strings) => {
            assert_eq!(strings.len(), 4);
            assert!(strings.iter().all(|s| s.len() == 66 && s.starts_with("0x")));
        }
        CircomValue::Indices(_) => panic!("m_hash is an array of field elements"),
    }
}

#[test]
fn field_elements_are_written_as_little_endian_hex() {
    assert_eq!(
        element_to_hex(&fe(1)),
        "0x0100000000000000000000000000000000000000000000000000000000000000"
    );
    assert_eq!(
        element_to_hex(&fe(0xabcdef)),
        "0xefcdab0000000000000000000000000000000000000000000000000000000000"
    );
    assert_eq!(
        element_to_hex(&fe(1).negated()),
        "0x000000f093f5e1439170b97948e833285d588181b64550b829a031e1724e6430"
    );
}
