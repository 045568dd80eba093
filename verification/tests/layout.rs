use hash_bridge::{
    generate_proof_base64, generate_verifier_config, Error, ProofShape, QueryRoundShape,
    ShapeFault, TreeOpening, VerifierConfig,
};

fn opening(values: usize, siblings: usize) -> TreeOpening {
    TreeOpening { values, siblings }
}

fn reference_round() -> QueryRoundShape {
    QueryRoundShape {
        initial_trees: vec![opening(42, 20), opening(135, 20), opening(10, 20), opening(16, 20)],
        steps: vec![opening(15, 16), opening(1, 15)],
    }
}

fn reference_shape() -> ProofShape {
    ProofShape {
        wires_cap: 1,
        plonk_zs_partial_products_cap: 1,
        quotient_polys_cap: 1,
        openings_constants: 5,
        openings_plonk_sigmas: 37,
        openings_wires: 135,
        openings_plonk_zs: 2,
        openings_plonk_zs_next: 2,
        openings_partial_products: 8,
        openings_quotient_polys: 16,
        commit_phase_merkle_caps: vec![1, 1],
        query_rounds: vec![reference_round(); 10],
        final_poly_coeffs: 64,
    }
}

fn reference_config() -> VerifierConfig {
    generate_verifier_config(&reference_shape()).unwrap()
}

#[test]
fn reference_counts_are_read_off_the_shape() {
    let conf = reference_config();
    assert_eq!(conf.hash_size, 25);
    assert_eq!(conf.field_size, 8);
    assert_eq!(conf.ext_field_size, 16);
    assert_eq!(conf.merkle_height_size, 1);
    assert_eq!(conf.num_wires_cap, 1);
    assert_eq!(conf.num_plonk_zs_partial_products_cap, 1);
    assert_eq!(conf.num_quotient_polys_cap, 1);
    assert_eq!(conf.num_openings_constants, 5);
    assert_eq!(conf.num_openings_plonk_sigmas, 37);
    assert_eq!(conf.num_openings_wires, 135);
    assert_eq!(conf.num_openings_plonk_zs, 2);
    assert_eq!(conf.num_openings_plonk_zs_next, 2);
    assert_eq!(conf.num_openings_partial_products, 8);
    assert_eq!(conf.num_openings_quotient_polys, 16);
    assert_eq!(conf.num_fri_commit_round, 2);
    assert_eq!(conf.fri_commit_merkle_cap_height, 1);
    assert_eq!(conf.num_fri_query_round, 10);
    assert_eq!(conf.num_fri_query_init_constants_sigmas_v, 42);
    assert_eq!(conf.num_fri_query_init_constants_sigmas_p, 20);
    assert_eq!(conf.num_fri_query_init_wires_v, 135);
    assert_eq!(conf.num_fri_query_init_wires_p, 20);
    assert_eq!(conf.num_fri_query_init_zs_partial_v, 10);
    assert_eq!(conf.num_fri_query_init_zs_partial_p, 20);
    assert_eq!(conf.num_fri_query_init_quotient_v, 16);
    assert_eq!(conf.num_fri_query_init_quotient_p, 20);
    assert_eq!(conf.num_fri_query_step0_v, 15);
    assert_eq!(conf.num_fri_query_step0_p, 16);
    assert_eq!(conf.num_fri_query_step1_v, 1);
    assert_eq!(conf.num_fri_query_step1_p, 15);
    assert_eq!(conf.num_fri_final_poly_ext_v, 64);
}

#[test]
fn reference_checkpoints() {
    let sums = reference_config().checkpoints();
    assert_eq!(
        sums,
        [Some(75), Some(3355), Some(3405), Some(39685), Some(50015), Some(51039), Some(51047)]
    );
    assert_eq!(reference_config().predicted_size(), Some(51047));
}

#[test]
fn proof_of_predicted_length_is_encoded() {
    let conf = reference_config();
    let bytes = vec![0u8; 51047];
    let text = generate_proof_base64(&bytes, &conf).unwrap();
    assert_eq!(text.len(), 68064);
    assert!(text.starts_with("AAAA"));
    assert!(text.ends_with("AAA="));
}

#[test]
fn base64_text_is_not_the_input() {
    let mut conf = reference_config();
    conf.num_fri_query_round = 0;
    conf.num_fri_final_poly_ext_v = 0;
    conf.num_fri_commit_round = 0;
    conf.num_openings_wires = 0;
    conf.num_openings_plonk_sigmas = 0;
    conf.num_openings_constants = 0;
    conf.num_openings_plonk_zs = 0;
    conf.num_openings_plonk_zs_next = 0;
    conf.num_openings_partial_products = 0;
    conf.num_openings_quotient_polys = 0;
    conf.num_wires_cap = 0;
    conf.num_plonk_zs_partial_products_cap = 0;
    conf.num_quotient_polys_cap = 0;
    conf.field_size = 11;
    assert_eq!(conf.predicted_size(), Some(11));
    let text = generate_proof_base64(b"hello world", &conf).unwrap();
    assert_eq!(text, "aGVsbG8gd29ybGQ=");
}

#[test]
fn length_mismatch_is_reported() {
    let conf = reference_config();
    let short = vec![0u8; 51046];
    assert_eq!(
        generate_proof_base64(&short, &conf),
        Err(Error::IntegrityMismatch { predicted: Some(51047), actual: 51046 })
    );
    assert_eq!(
        conf.check_proof_len(51048),
        Err(Error::IntegrityMismatch { predicted: Some(51047), actual: 51048 })
    );
    assert_eq!(conf.check_proof_len(51047), Ok(()));
}

#[test]
fn overflowing_prediction_never_matches() {
    let mut conf = reference_config();
    conf.num_wires_cap = usize::MAX;
    assert_eq!(conf.predicted_size(), None);
    assert_eq!(conf.checkpoints()[0], None);
    assert_eq!(
        conf.check_proof_len(usize::MAX),
        Err(Error::IntegrityMismatch { predicted: None, actual: usize::MAX })
    );
}

#[test]
fn overflow_inside_a_round_counts_for_nothing_without_rounds() {
    let mut conf = reference_config();
    conf.num_fri_query_round = 0;
    conf.num_fri_query_step0_v = usize::MAX;
    conf.num_fri_query_init_wires_p = usize::MAX;
    let sums = conf.checkpoints();
    assert_eq!(sums[2], Some(3405));
    assert_eq!(sums[3], Some(3405));
    assert_eq!(sums[4], Some(3405));
    assert_eq!(sums[6], Some(3405 + 1024 + 8));
}

#[test]
fn shape_without_query_round_is_refused() {
    let mut shape = reference_shape();
    shape.query_rounds.clear();
    assert_eq!(
        generate_verifier_config(&shape),
        Err(Error::UnsupportedShape(ShapeFault::NoQueryRound))
    );
}

#[test]
fn shape_with_other_than_two_folding_steps_is_refused() {
    let mut shape = reference_shape();
    shape.query_rounds[0].steps.push(opening(3, 3));
    assert_eq!(
        generate_verifier_config(&shape),
        Err(Error::UnsupportedShape(ShapeFault::FoldingSteps { round: 0, found: 3 }))
    );
    let mut shape = reference_shape();
    shape.query_rounds[7].steps.pop();
    assert_eq!(
        generate_verifier_config(&shape),
        Err(Error::UnsupportedShape(ShapeFault::FoldingSteps { round: 7, found: 1 }))
    );
    let mut shape = reference_shape();
    shape.query_rounds[9].steps.clear();
    shape.query_rounds[4].steps.clear();
    assert_eq!(
        generate_verifier_config(&shape),
        Err(Error::UnsupportedShape(ShapeFault::FoldingSteps { round: 4, found: 0 }))
    );
}

#[test]
fn shape_with_too_few_initial_trees_is_refused() {
    let mut shape = reference_shape();
    shape.query_rounds[0].initial_trees.truncate(3);
    assert_eq!(
        generate_verifier_config(&shape),
        Err(Error::UnsupportedShape(ShapeFault::InitialTrees { found: 3 }))
    );
}

#[test]
fn shape_without_commit_round_is_refused() {
    let mut shape = reference_shape();
    shape.commit_phase_merkle_caps.clear();
    assert_eq!(
        generate_verifier_config(&shape),
        Err(Error::UnsupportedShape(ShapeFault::NoCommitRound))
    );
}

#[test]
fn only_the_first_round_is_read_for_the_openings() {
    let mut shape = reference_shape();
    shape.query_rounds[3].steps[0] = opening(99, 99);
    shape.query_rounds[3].initial_trees.clear();
    let conf = generate_verifier_config(&shape).unwrap();
    assert_eq!(conf, reference_config());
}
