use lib::develop::{band, wants_help, Band, DevelopError, DevelopOptions, DevelopScan};

fn read_f64(text: &str) -> Option<u64> {
    text.parse::<f64>().ok().map(f64::to_bits)
}

fn parse(args: &[String]) -> Result<DevelopOptions, DevelopError> {
    let scan = DevelopScan::parse(&args.to_vec())?;
    let readings: Vec<Vec<Option<u64>>> = scan
        .pending
        .iter()
        .map(|p| p.texts.iter().map(|t| read_f64(t)).collect())
        .collect();
    scan.finish(&readings)
}

fn words(line: &str) -> Vec<String> {
    line.split_whitespace().map(str::to_owned).collect()
}

#[test]
fn invalid_cli_is_rejected() {
    let args = |tail: &str| words(&format!("--config c --output o {tail}"));
    for s in [
        "--steps 0",
        "--recurrence-stride 0",
        "--perturb-epsilon NaN",
        "--steps 99999",
        "--response-ages 17",
        "--low-cutoff .3",
    ] {
        assert!(parse(&args(s)).is_err(), "{s}");
    }
}

#[test]
fn development_defaults_resolve() {
    let o = parse(&words("--config c --output o")).unwrap();
    assert_eq!(o.config, "c");
    assert_eq!(o.output, "o");
    assert_eq!(o.steps, 16);
    assert_eq!(o.seed, 42);
    assert_eq!(f64::from_bits(o.low_cutoff), 0.125);
    assert_eq!(f64::from_bits(o.mid_cutoff), 0.25);
    assert_eq!(o.recurrence_stride, 1);
    assert_eq!(o.recurrence_max, 256);
    assert_eq!(o.perturb_epsilon, None);
    assert_eq!(o.perturb_band, Band::High);
    assert!(o.response_ages.is_empty());
    let eps: Vec<f64> = o.response_epsilons.iter().map(|b| f64::from_bits(*b)).collect();
    assert_eq!(eps, vec![0.01, 0.02]);
    assert_eq!(o.response_bands, vec![Band::Low, Band::Mid, Band::High]);
    assert_eq!(f64::from_bits(o.fixed_rms), 1e-6);
    assert_eq!(o.fixed_window, 8);
}

#[test]
fn last_occurrence_wins_and_lists_parse() {
    let o = parse(&words(
        "--config a --output b --steps 40 --steps 32 --response-ages 0,8,16 \
         --response-epsilons .05 --response-bands high,low --perturb-epsilon .5 \
         --low-cutoff .1 --low-cutoff .2 --perturb-band mid",
    ))
    .unwrap();
    assert_eq!(o.steps, 32);
    assert_eq!(o.response_ages, vec![0, 8, 16]);
    assert_eq!(o.response_epsilons, vec![0.05f64.to_bits()]);
    assert_eq!(o.response_bands, vec![Band::High, Band::Low]);
    assert_eq!(o.perturb_epsilon, Some(0.5f64.to_bits()));
    assert_eq!(f64::from_bits(o.low_cutoff), 0.2);
    assert_eq!(o.perturb_band, Band::Mid);
}

#[test]
fn development_errors_name_their_cause() {
    assert!(matches!(parse(&words("--config c --output")), Err(DevelopError::UnpairedArguments)));
    assert!(matches!(
        parse(&words("--config c --bogus 1")),
        Err(DevelopError::UnknownOption { flag }) if flag == "--bogus"
    ));
    assert!(matches!(
        parse(&words("--config c --output o --response-bands low,up")),
        Err(DevelopError::InvalidBand { value }) if value == "up"
    ));
    // An unreadable value earlier on the line wins over a later refusal.
    assert!(matches!(
        parse(&words("--low-cutoff x --steps y")),
        Err(DevelopError::InvalidNumber { flag, value }) if flag == "--low-cutoff" && value == "x"
    ));
    assert!(matches!(
        parse(&words("--steps y --low-cutoff x")),
        Err(DevelopError::InvalidNumber { flag, value }) if flag == "--steps" && value == "y"
    ));
    assert!(matches!(parse(&words("--output o")), Err(DevelopError::MissingPaths)));
    assert!(matches!(
        parse(&words("--config c --output o --steps 600")),
        Err(DevelopError::RecurrenceCapacity)
    ));
    assert!(matches!(
        parse(&words("--config c --output o --fixed-rms -1")),
        Err(DevelopError::FixedPoint)
    ));
    assert!(matches!(
        parse(&words("--config c --output o --response-epsilons 0")),
        Err(DevelopError::Epsilons)
    ));
}

#[test]
fn band_names_parse() {
    assert_eq!(band("low").unwrap(), Band::Low);
    assert_eq!(band("mid").unwrap(), Band::Mid);
    assert_eq!(band("high").unwrap(), Band::High);
    assert!(matches!(band("HIGH"), Err(DevelopError::InvalidBand { value }) if value == "HIGH"));
}

#[test]
fn usage_is_asked_by_help_or_silence() {
    assert!(wants_help(&Vec::new()));
    assert!(wants_help(&words("--steps 4 --help")));
    assert!(!wants_help(&words("--config c -h")));
}
