use lib::corpus::{accepts_source, arrange_sources, count_duplicate_content, descends_into, square_crop, CorpusError, SourceEntry};
use lib::config::TrainingMode;
use lib::benchmark::{suite_metadata, synthetic_targets, validate_resolution, SyntheticTargetKind};
use lib::corpus::{available_pyramid_levels, corpus_fingerprint, generated_name, supported, ContentHasher};
use lib::paths::join_path;
use lib::device::DeviceInfo;
use lib::digits::{decimal_text, hex16};
use lib::dynamics::{DiffusionScope, DynamicsAblation};
use lib::experiment::{default_recovery_cases, NormTraining, PanelConfig, PanelViolation, RecoveryCase};
use lib::gradient::group;
use lib::run_config::RunConfig;
use lib::config::MorphDepthMode;

#[test]
fn suite_order_and_metadata_are_stable() {
    let kinds = synthetic_targets();
    assert_eq!(kinds.len(), 7);
    assert_eq!(kinds[0].id(), "offset-circle");
    assert_eq!(kinds[6].id(), "branching");
    assert_eq!(SyntheticTargetKind::BrokenGrid.description(), "offset checker grid with missing cells");
    let meta = suite_metadata(48).unwrap();
    assert_eq!(meta.len(), 7);
    assert_eq!(meta[3].index, 3);
    assert_eq!(meta[3].id, "broken-grid");
    assert_eq!(meta[3].width, 48);
    assert!(meta.iter().all(|m| m.asymmetric_by_design && m.benchmark_version == 1));
    assert!(validate_resolution(15).is_err());
    assert!(validate_resolution(16).is_ok());
    assert!(validate_resolution(2048).is_ok());
    assert!(suite_metadata(2049).is_err());
}

#[test]
fn recovery_cases_and_panel_guards() {
    let cases = default_recovery_cases();
    assert_eq!(cases.len(), 6);
    assert_eq!(cases[0].as_str(), "micro_noise");
    assert_eq!(RecoveryCase::Combined.as_str(), "combined");
    assert_eq!(NormTraining::default(), NormTraining::Legacy);
    let panel = PanelConfig {
        targets: vec![0],
        seeds: vec![42],
        burn_in: 4,
        diagnostic_ages: vec![0],
        horizons: vec![4],
        stride: 1,
        recovery_horizon: 4,
        recovery_cases: vec![RecoveryCase::MacroPatch],
        history_capacity: 3,
        clock_robustness: false,
    };
    assert!(panel.validate().is_ok());
    let mut twice = panel.clone();
    twice.recovery_cases.push(RecoveryCase::MacroPatch);
    assert_eq!(twice.validate(), Err(PanelViolation::DuplicateRecoveryCase));
    let mut none = panel.clone();
    none.recovery_cases.clear();
    assert!(none.validate().is_ok());
    let mut far = panel.clone();
    far.recovery_horizon = 2049;
    assert_eq!(far.validate(), Err(PanelViolation::RecoveryHorizon));
    let mut late = panel;
    late.diagnostic_ages = vec![5];
    assert_eq!(late.validate(), Err(PanelViolation::DiagnosticAges));
}

#[test]
fn gradient_groups_follow_rule_order() {
    assert_eq!(group("dynamics.interface.norm.weight"), "normalization_scales");
    assert_eq!(group("dynamics.micro_ca.conv.weight"), "micro_nca");
    assert_eq!(group("dynamics.reference_micro_drive.bias"), "reference_drives");
    assert_eq!(group("dynamics.interface.attention.weight"), "interface_attention_feedforward_projections");
    assert_eq!(group("renderer.grounded.weight"), "grounded_head");
    assert_eq!(group("renderer.trunk.weight"), "renderer_shared");
    assert_eq!(group("flow.velocity.weight"), "flow_or_other");
}

#[test]
fn device_description_and_digits() {
    let info = DeviceInfo {
        name: "Adreno".to_owned(),
        vendor: "Qualcomm".to_owned(),
        version: "OpenCL 3.0".to_owned(),
        opencl_c_version: "OpenCL C 3.0".to_owned(),
        compute_units: 12,
        max_work_group_size: 1024,
        global_mem_bytes: 3 * 1_048_576 + 5,
        max_alloc_bytes: 1_048_576,
        local_mem_bytes: 32 * 1024,
        fp16: true,
    };
    assert_eq!(
        info.describe(),
        "Adreno (Qualcomm) | OpenCL 3.0 | OpenCL C 3.0 | CUs=12 WG=1024 global=3MiB alloc=1MiB local=32KiB fp16=true"
    );
    assert_eq!(decimal_text(0), "0");
    assert_eq!(decimal_text(1234567890), "1234567890");
    assert_eq!(hex16(0xab), "00000000000000ab");
    assert_eq!(hex16(u64::MAX), "ffffffffffffffff");
}

#[test]
fn corpus_file_rules() {
    assert!(supported("photos/a.PNG"));
    assert!(supported("b.jpeg"));
    assert!(!supported("c.gif"));
    assert!(!supported("png"));
    assert!(generated_name("out/TITAN_IMAGE_v9.png"));
    assert!(!generated_name("out/titan.png"));
    assert_eq!(available_pyramid_levels(1000, 4096), vec![192, 384, 768, 1000]);
    assert_eq!(available_pyramid_levels(4096, 768), vec![192, 384, 768]);
    assert_eq!(available_pyramid_levels(100, 4096), vec![100]);
    assert_eq!(available_pyramid_levels(0, 0), vec![1]);
}

#[test]
fn fingerprints_are_chunk_independent() {
    let bytes: Vec<u8> = (0u8..=200).collect();
    let mut whole = ContentHasher::new();
    whole.update(&bytes);
    let mut parts = ContentHasher::new();
    parts.update(&bytes[..7]);
    parts.update(&bytes[7..]);
    assert_eq!(whole.value(), parts.value());
    assert_eq!(parts.len(), 201);
    let mut expected = 0xcbf2_9ce4_8422_2325u64;
    for b in &bytes {
        expected = (expected ^ *b as u64).wrapping_mul(0x100_0000_01b3);
    }
    assert_eq!(whole.value(), expected);
    let mut corpus = 0xcbf2_9ce4_8422_2325u64 ^ 2;
    for f in [5u64, 9] {
        corpus = (corpus ^ f).wrapping_mul(0x100_0000_01b3);
    }
    assert_eq!(corpus_fingerprint(&[5, 9]), corpus);
}

#[test]
fn defaults_of_switch_sets() {
    let a = DynamicsAblation::default();
    assert!(!a.disable_interface && !a.freeze_micro && !a.disable_forcing);
    assert_eq!(DiffusionScope::default(), DiffusionScope::Both);
}

#[test]
fn derived_settings() {
    let mut c = RunConfig::default_for(None);
    assert_eq!(c.suffix(), "");
    assert_eq!(c.pyramid_cache_root(), "/sdcard/Download/titan_image_v9/pyramid_cache_v9");
    c.detail.cache_dir = Some("cache".to_owned());
    assert_eq!(c.pyramid_cache_root(), "cache");
    c.morph_growth.mode = MorphDepthMode::Capacity;
    c.morph_growth.max_depth = c.morph_layers + 3;
    assert_eq!(c.initial_morph_depth(), c.morph_layers);
    assert!(!RunConfig::default_for(None).analysis_requested());
    c.analysis.benchmark = true;
    assert!(c.analysis_requested());
    assert_eq!(join_path("a/", "b"), "a/b");
    assert_eq!(join_path("a", "b"), "a/b");
    assert_eq!(join_path("", "b"), "b");
}

fn entry(path: &str, fingerprint: u64) -> SourceEntry {
    SourceEntry { path: path.to_owned(), fingerprint }
}

#[test]
fn sources_order_by_content_then_path() {
    let found = vec![entry("in/c.png", 9), entry("in/b.png", 3), entry("in/a.png", 9), entry("in/d.jpg", 1)];
    let ordered = arrange_sources(TrainingMode::Family, &found).unwrap();
    let names: Vec<&str> = ordered.iter().map(|e| e.path.as_str()).collect();
    assert_eq!(names, vec!["in/d.jpg", "in/b.png", "in/a.png", "in/c.png"]);
    assert_eq!(count_duplicate_content(&ordered), 1);
    assert_eq!(arrange_sources(TrainingMode::Family, &Vec::new()).unwrap_err(), CorpusError::NoSources);
    assert_eq!(
        arrange_sources(TrainingMode::Single, &found).unwrap_err(),
        CorpusError::SingleNeedsOne { found: 4 }
    );
    assert_eq!(arrange_sources(TrainingMode::Single, &vec![entry("in/a.png", 2)]).unwrap().len(), 1);
}

#[test]
fn walk_filters_sources_and_crops_squares() {
    assert!(accepts_source("in/photo.JPG", "out"));
    assert!(!accepts_source("out/photo.png", "out"));
    assert!(!accepts_source("in/titan_image_final.png", "out"));
    assert!(!accepts_source("in/notes.txt", "out"));
    assert!(descends_into("in/sub", "out", true));
    assert!(!descends_into("out/sub", "out", true));
    assert!(!descends_into("in/sub", "out", false));
    assert_eq!(square_crop(640, 480), (80, 0, 480));
    assert_eq!(square_crop(300, 501), (0, 100, 300));
}

#[test]
fn equal_content_sources_order_by_path_and_keep_duplicates() {
    let found = vec![entry("in/z.png", 4), entry("in/m/b.png", 4), entry("in/m.png", 4), entry("in/z.png", 4)];
    let ordered = arrange_sources(TrainingMode::Texture, &found).unwrap();
    let names: Vec<&str> = ordered.iter().map(|e| e.path.as_str()).collect();
    assert_eq!(names, vec!["in/m/b.png", "in/m.png", "in/z.png", "in/z.png"]);
    assert_eq!(count_duplicate_content(&ordered), 3);
}
