use lib::artifacts::{
    label_output, publication_references, ProbeReferences,
    evaluation_dirs, sibling_png, ArtifactError, ArtifactIdentity, EvaluationArtifacts, PublishError,
};
use lib::run_config::RunConfig;

fn identity(path: &str, bytes: u64, hash: &str) -> ArtifactIdentity {
    ArtifactIdentity {
        path: path.to_owned(),
        bytes,
        fnv1a64: hash.to_owned(),
        sha256: String::new(),
    }
}

fn writer() -> EvaluationArtifacts {
    EvaluationArtifacts::open("e1".to_owned(), "out/history/step_1_e1".to_owned())
}

#[test]
fn destinations_live_in_the_evaluation_directory() {
    let w = writer();
    assert_eq!(w.archive(), "out/history/step_1_e1/evaluation.json");
    assert_eq!(w.output_path("elsewhere/occupied.png"), "out/history/step_1_e1/occupied.png");
    assert_eq!(w.evaluation_id(), "e1");
    let mut config = RunConfig::default_for(None);
    config.output_dir = "out".to_owned();
    config.run_tag = Some("t".to_owned());
    let (history, root) = evaluation_dirs(&config, 12, "9-3-0");
    assert_eq!(history, "out/analysis_history_v9_t");
    assert_eq!(root, "out/analysis_history_v9_t/step_12_9-3-0");
}

#[test]
fn writes_are_recorded_in_sorted_order() {
    let mut w = writer();
    let b = w.begin_write("b.json").unwrap();
    assert_eq!(w.complete_write(identity(&b, 3, "x")).unwrap(), b);
    let a = w.begin_write("dir/a.png").unwrap();
    w.complete_write(identity(&a, 4, "y")).unwrap();
    assert_eq!(w.emitted_paths(), vec![a.clone(), b.clone()]);
    assert!(w.owns(&a));
    assert!(!w.owns("out/history/step_1_e1/c.png"));
}

#[test]
fn failures_are_sticky_and_archive_is_reserved() {
    let mut w = writer();
    assert!(matches!(w.begin_write("evaluation.json"), Err(ArtifactError::ReservedArchive)));
    assert!(matches!(w.begin_write("fresh.json"), Err(ArtifactError::FailedWrite)));
    let mut w = writer();
    let p = w.begin_write("empty.png").unwrap();
    assert!(matches!(w.complete_write(identity(&p, 0, "z")), Err(ArtifactError::EmptyArtifact { .. })));
    assert!(w.emitted_paths().is_empty());
    assert!(matches!(w.begin_write("next.png"), Err(ArtifactError::FailedWrite)));
    let mut w = writer();
    assert!(matches!(w.complete_write(identity("x", 1, "z")), Err(ArtifactError::NoWriteInProgress)));
    assert!(matches!(w.begin_write(""), Err(ArtifactError::NoFileName)));
}

#[test]
fn montage_inputs_must_be_owned_and_unchanged() {
    let mut w = writer();
    let foreign = "out/old.png".to_owned();
    assert!(matches!(
        w.montage(&vec![foreign.clone()], &vec![identity(&foreign, 5, "s")], "sheet.png"),
        Err(ArtifactError::NotEmitted { path }) if path == foreign
    ));
    assert!(w.emitted_paths().is_empty());
    assert!(matches!(w.montage(&vec![], &vec![], "sheet.png"), Err(ArtifactError::EmptyMontage)));
    let p = w.begin_write("frame.png").unwrap();
    w.complete_write(identity(&p, 9, "h")).unwrap();
    assert!(matches!(
        w.montage(&vec![p.clone()], &vec![identity(&p, 9, "changed")], "sheet.png"),
        Err(ArtifactError::Changed { .. })
    ));
    let sheet = w.montage(&vec![p.clone()], &vec![identity(&p, 9, "h")], "sheet.png").unwrap();
    assert_eq!(sheet, "out/history/step_1_e1/sheet.png");
}

#[test]
fn sibling_images_share_the_stem() {
    assert_eq!(sibling_png("out/ladder.json", "0128"), "out/ladder_0128.png");
    assert_eq!(sibling_png("out/", "x"), "out_x.png");
}

#[test]
fn publication_needs_ownership_of_every_referenced_output() {
    let mut w = writer();
    let p = w.begin_write("frame.png").unwrap();
    w.complete_write(identity(&p, 9, "h")).unwrap();
    let archive = w.archive();
    let now = vec![identity(&p, 9, "h")];
    assert!(w.check_publication("e1", &archive, &now, &vec![Some(p.clone())]).is_ok());
    assert!(matches!(
        w.check_publication("e2", &archive, &now, &vec![]),
        Err(PublishError::OwnershipMismatch)
    ));
    assert!(matches!(
        w.check_publication("e1", "out/evaluation.json", &now, &vec![]),
        Err(PublishError::ArchiveMismatch)
    ));
    assert!(matches!(
        w.check_publication("e1", &archive, &vec![identity(&p, 10, "h")], &vec![]),
        Err(PublishError::Changed { path }) if path == p
    ));
    assert!(matches!(
        w.check_publication("e1", &archive, &now, &vec![Some("out/elsewhere.png".to_owned())]),
        Err(PublishError::Unowned { path }) if path == "out/elsewhere.png"
    ));
    let records = w.records();
    assert_eq!(records.len(), 1);
    assert_eq!(records[0].0, p);
    // The archive compares as a path: a doubled separator is the same path.
    assert!(w.check_publication("e1", "out/history//step_1_e1/evaluation.json", &now, &vec![]).is_ok());
}

#[test]
fn emitted_paths_stay_in_the_directory_and_exclude_the_archive() {
    let mut w = writer();
    for name in ["z.png", "sub/a.json", "m.csv"] {
        let p = w.begin_write(name).unwrap();
        w.complete_write(identity(&p, 2, "h")).unwrap();
    }
    let root = "out/history/step_1_e1/";
    let emitted = w.emitted_paths();
    assert_eq!(emitted.len(), 3);
    assert!(emitted.iter().all(|p| p.starts_with(root) && !p[root.len()..].contains('/')));
    assert!(!emitted.contains(&w.archive()));
    let current: Vec<ArtifactIdentity> = emitted.iter().map(|p| identity(p, 2, "h")).collect();
    let archive = w.archive();
    let referenced: Vec<Option<String>> = emitted.iter().cloned().map(Some).collect();
    assert!(w.check_publication("e1", &archive, &current, &referenced).is_ok());
}

#[test]
fn summary_references_are_collected_in_checking_order() {
    assert_eq!(label_output("micro:out/a.png"), Some("out/a.png".to_owned()));
    assert_eq!(label_output("a:b:c"), Some("b:c".to_owned()));
    assert_eq!(label_output("no-colon"), None);
    let refs = publication_references(
        &Some("m.png".to_owned()),
        &None,
        &vec!["micro:a.png".to_owned(), "broken".to_owned()],
        &Some(ProbeReferences {
            report: "r.json".to_owned(),
            montage: "p.png".to_owned(),
            points: vec!["x.png".to_owned()],
        }),
        &vec![Some("f.png".to_owned()), None],
    );
    assert_eq!(
        refs,
        vec![
            Some("m.png".to_owned()),
            Some("a.png".to_owned()),
            None,
            Some("r.json".to_owned()),
            Some("p.png".to_owned()),
            Some("x.png".to_owned()),
            Some("f.png".to_owned()),
            None,
        ]
    );
}

#[test]
fn malformed_references_block_publication_in_order() {
    let mut w = writer();
    let p = w.begin_write("a.png").unwrap();
    w.complete_write(identity(&p, 3, "h")).unwrap();
    let archive = w.archive();
    let now = vec![identity(&p, 3, "h")];
    assert!(matches!(
        w.check_publication("e1", &archive, &now, &vec![Some(p.clone()), None]),
        Err(PublishError::MalformedReference)
    ));
    assert!(matches!(
        w.check_publication("e1", &archive, &now, &vec![Some("other.png".to_owned()), None]),
        Err(PublishError::Unowned { .. })
    ));
}
