use lib::cli::{cli_action, CliAction, ParsedArgs, ScalarTarget};
use lib::config::{ChoiceOption, CliError, TrainingMode};
use lib::run_config::RunConfig;
use lib::validation::Violation;

fn args(line: &str) -> Vec<String> {
    line.split_whitespace().map(str::to_owned).collect()
}

fn read(target: ScalarTarget, text: &str) -> Option<u64> {
    match target {
        ScalarTarget::Wide(_) => text.parse::<f64>().ok().map(f64::to_bits),
        _ => text.parse::<f32>().ok().map(|v| u64::from(v.to_bits())),
    }
}

fn resolve(line: &str) -> Result<RunConfig, CliError> {
    let parsed = ParsedArgs::parse(&args(line), RunConfig::default_for(Some(6)))?;
    let readings: Vec<Vec<Option<u64>>> = parsed
        .pending
        .iter()
        .map(|p| p.texts.iter().map(|t| read(p.target, t)).collect())
        .collect();
    parsed.finish(&readings)
}

#[test]
fn explicit_settings_override_presets() {
    let c = resolve("--profile s25-fast --corpus-dir in --micro-size 40 --dt 0.02 --seed 9 --mode family")
        .unwrap();
    assert_eq!(c.corpus_dir, "in");
    assert_eq!(c.micro_size, 40);
    assert_eq!(c.dt, 0.02f32.to_bits());
    assert_eq!(c.seed, 9);
    assert_eq!(c.mode, TrainingMode::Family);
    assert_eq!(c.threads, 6);
}

#[test]
fn corpus_dir_is_required() {
    assert!(matches!(resolve("--steps 5"), Err(CliError::MissingCorpusDir)));
}

#[test]
fn unknown_missing_and_invalid_values_are_reported() {
    assert!(matches!(
        resolve("--corpus-dir in --frobnicate"),
        Err(CliError::UnknownOption { flag }) if flag == "--frobnicate"
    ));
    assert!(matches!(
        resolve("--corpus-dir in --steps"),
        Err(CliError::MissingValue { flag }) if flag == "--steps"
    ));
    assert!(matches!(
        resolve("--corpus-dir in --steps ten"),
        Err(CliError::InvalidNumber { flag, value }) if flag == "--steps" && value == "ten"
    ));
    assert!(matches!(
        resolve("--corpus-dir in --mode solo"),
        Err(CliError::InvalidChoice { option: ChoiceOption::Mode, value }) if value == "solo"
    ));
    assert!(matches!(resolve("--corpus-dir in --run-tag ../x"), Err(CliError::InvalidRunTag)));
    assert!(matches!(
        resolve("--corpus-dir in --probe-ages 1,x"),
        Err(CliError::InvalidNumber { flag, value }) if flag == "--probe-ages" && value == "x"
    ));
    assert!(matches!(
        resolve("--corpus-dir in --probe-reference-fidelities ,"),
        Err(CliError::InvalidNumber { flag, value }) if flag == "--probe-reference-fidelities" && value.is_empty()
    ));
    assert!(matches!(
        resolve("--corpus-dir in --probe-reference-fidelities  "),
        Err(CliError::MissingValue { .. })
    ));
}

#[test]
fn an_unreadable_scalar_before_a_refusal_is_reported_first() {
    assert!(matches!(
        resolve("--corpus-dir in --dt fast --steps ten"),
        Err(CliError::InvalidNumber { flag, value }) if flag == "--dt" && value == "fast"
    ));
    assert!(matches!(
        resolve("--corpus-dir in --steps ten --dt fast"),
        Err(CliError::InvalidNumber { flag, value }) if flag == "--steps" && value == "ten"
    ));
}

#[test]
fn switches_and_scalars_apply_in_command_line_order() {
    let c = resolve("--corpus-dir in --fractal-gain 0.5 --no-fractal").unwrap();
    assert_eq!(c.fractal_gain, 0);
    let c = resolve("--corpus-dir in --no-fractal --fractal-gain 0.5").unwrap();
    assert_eq!(c.fractal_gain, 0.5f32.to_bits());
}

#[test]
fn resolved_configuration_is_validated() {
    assert!(matches!(
        resolve("--corpus-dir in --gamma 9"),
        Err(CliError::Invalid(Violation::OutOfRange(_)))
    ));
    assert!(matches!(
        resolve("--corpus-dir in --probe-dir p"),
        Err(CliError::Invalid(_))
    ));
    let c = resolve("--corpus-dir in --analysis-only --probe-dir p --probe-ages 2,4 --probe-reference-fidelities 1,0.5")
        .unwrap();
    assert_eq!(c.analysis.probe_dir.as_deref(), Some("p"));
    assert_eq!(c.analysis.probe_ages, vec![2, 4]);
    assert_eq!(c.analysis.probe_reference_fidelities, vec![1.0f32.to_bits(), 0.5f32.to_bits()]);
}

#[test]
fn text_settings_take_the_last_value() {
    let c = resolve("--corpus-dir a --output-dir o1 --corpus-dir b --run-tag t1 --run-tag t2").unwrap();
    assert_eq!(c.corpus_dir, "b");
    assert_eq!(c.output_dir, "o1");
    assert_eq!(c.run_tag.as_deref(), Some("t2"));
    assert_eq!(c.suffix(), "_t2");
}

#[test]
fn help_version_and_preset_list_win_over_a_run() {
    assert_eq!(cli_action(&args("--steps 3 -h")), CliAction::Help);
    assert_eq!(cli_action(&args("--version --help")), CliAction::Help);
    assert_eq!(cli_action(&args("-V --list-presets")), CliAction::Version);
    assert_eq!(cli_action(&args("--list-presets")), CliAction::ListPresets);
    assert_eq!(cli_action(&args("--corpus-dir x")), CliAction::Run);
}

#[test]
fn preset_errors_come_before_the_scan() {
    assert!(matches!(
        ParsedArgs::parse(&args("--bogus --profile"), RunConfig::default_for(None)),
        Err(CliError::MissingValue { flag }) if flag == "--profile"
    ));
    assert!(matches!(
        ParsedArgs::parse(&args("--style neon"), RunConfig::default_for(None)),
        Err(CliError::InvalidChoice { option: ChoiceOption::Style, .. })
    ));
}

#[test]
fn preset_position_does_not_change_the_resolved_run() {
    let lines = [
        "--style fractal-flame --corpus-dir in --micro-size 40 --seed 9 --fractal-gain 0.5",
        "--corpus-dir in --style fractal-flame --micro-size 40 --seed 9 --fractal-gain 0.5",
        "--corpus-dir in --micro-size 40 --seed 9 --fractal-gain 0.5 --style fractal-flame",
    ];
    let first = resolve(lines[0]).unwrap();
    for line in &lines[1..] {
        let other = resolve(line).unwrap();
        assert_eq!(other.resolved_config_signature(&[], &[]), first.resolved_config_signature(&[], &[]));
        assert_eq!(other.fractal_gain, 0.5f32.to_bits());
        assert_eq!(other.micro_size, 40);
        assert_eq!(other.seed, 9);
        assert_eq!(other.state_skip, first.state_skip);
    }
}
