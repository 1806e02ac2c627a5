use lib::run_config::RunConfig;
use lib::training::{
    cadence_due, gallery_path, parameter_seed, snapshot_path, unit_initialized_parameter,
    zero_initialized_parameter,
};

#[test]
fn nominal_snapshot_cadence_uses_safe_window_boundaries() {
    assert!(!cadence_due(48, 48, 50));
    assert!(cadence_due(48, 52, 50));
    assert!(cadence_due(96, 100, 50));
    assert!(!cadence_due(100, 104, 50));
    assert!(!cadence_due(48, 52, 0));
}

#[test]
fn parameter_seed_folds_name_bytes() {
    // FNV-1a over "ab" from the basis mixed with seed 0.
    let mut hash = 0xcbf2_9ce4_8422_2325u64;
    for byte in b"ab" {
        hash = (hash ^ *byte as u64).wrapping_mul(0x100_0000_01b3);
    }
    assert_eq!(parameter_seed(0, "ab"), hash);
    assert_eq!(parameter_seed(7, ""), 7 ^ 0xcbf2_9ce4_8422_2325);
    assert_ne!(parameter_seed(1, "dynamics.w"), parameter_seed(2, "dynamics.w"));
}

#[test]
fn initialization_rules_follow_parameter_names() {
    assert!(zero_initialized_parameter("renderer.head.bias"));
    assert!(zero_initialized_parameter("dynamics.micro_ca.output.weight"));
    assert!(zero_initialized_parameter("dynamics.morphic_3.contract.weight"));
    assert!(!zero_initialized_parameter("dynamics.morphic_3.expand.weight"));
    assert!(!zero_initialized_parameter("renderer.grounded.weight"));
    assert!(unit_initialized_parameter("dynamics.interface.norm.weight"));
    assert!(!unit_initialized_parameter("dynamics.interface.norm.bias"));
}

#[test]
fn snapshot_and_gallery_names_are_zero_padded() {
    let mut config = RunConfig::default_for(None);
    config.output_dir = "out".to_owned();
    assert_eq!(
        snapshot_path(&config, 1234, 7, 42, 3),
        "out/titan_image_snapshot_v9_000001234_ep00007_age0042_target0003.png"
    );
    config.run_tag = Some("garden".to_owned());
    assert_eq!(gallery_path(&config, 0, true), "out/titan_image_variant_v9_garden_001_mastered.png");
    assert_eq!(gallery_path(&config, 1233, false), "out/titan_image_variant_v9_garden_1234_raw.png");
}
