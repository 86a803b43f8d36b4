use qualirs::domain::{has_critical, Severity, Smell, SmellCategory, SourceLocation};

fn smell(severity: Severity, category: SmellCategory) -> Smell {
    Smell::new(
        category,
        "Probe",
        severity,
        SourceLocation::new("src/lib.rs".to_string(), 3, 4, None),
        "message".to_string(),
        "suggestion",
    )
}

#[test]
fn severities_are_read_by_name() {
    assert_eq!(Severity::from_name("info"), Some(Severity::Info));
    assert_eq!(Severity::from_name("warning"), Some(Severity::Warning));
    assert_eq!(Severity::from_name("critical"), Some(Severity::Critical));
    assert_eq!(Severity::from_name("Critical"), None);
    assert_eq!(Severity::from_name("warn"), None);
}

#[test]
fn severities_are_ordered() {
    assert!(Severity::Critical.at_least(Severity::Warning));
    assert!(Severity::Warning.at_least(Severity::Warning));
    assert!(Severity::Info.at_least(Severity::Info));
    assert!(!Severity::Info.at_least(Severity::Warning));
    assert!(!Severity::Warning.at_least(Severity::Critical));
}

#[test]
fn categories_are_read_by_name() {
    assert_eq!(SmellCategory::from_name("architecture"), Some(SmellCategory::Architecture));
    assert_eq!(SmellCategory::from_name("design"), Some(SmellCategory::Design));
    assert_eq!(SmellCategory::from_name("implementation"), Some(SmellCategory::Implementation));
    assert_eq!(SmellCategory::from_name("concurrency"), Some(SmellCategory::Concurrency));
    assert_eq!(SmellCategory::from_name("unsafe"), Some(SmellCategory::Unsafe));
    assert_eq!(SmellCategory::from_name("performance"), Some(SmellCategory::Performance));
    assert_eq!(SmellCategory::from_name("idiomaticity"), Some(SmellCategory::Idiomaticity));
    assert_eq!(SmellCategory::from_name("style"), None);
}

#[test]
fn reported_smells_pass_the_severity_floor_and_category() {
    let s = smell(Severity::Warning, SmellCategory::Design);
    assert!(s.is_reported(Severity::Info, None));
    assert!(s.is_reported(Severity::Warning, Some(SmellCategory::Design)));
    assert!(!s.is_reported(Severity::Critical, None));
    assert!(!s.is_reported(Severity::Info, Some(SmellCategory::Architecture)));
}

#[test]
fn a_critical_smell_fails_the_run() {
    let mut smells = vec![smell(Severity::Info, SmellCategory::Design), smell(Severity::Warning, SmellCategory::Design)];
    assert!(!has_critical(&smells));
    smells.push(smell(Severity::Critical, SmellCategory::Unsafe));
    assert!(has_critical(&smells));
    assert!(!has_critical(&Vec::new()));
}

#[test]
fn smells_keep_what_they_were_built_with() {
    let s = smell(Severity::Info, SmellCategory::Performance);
    assert_eq!(s.name, "Probe");
    assert_eq!(s.location.file, "src/lib.rs");
    assert_eq!((s.location.line_start, s.location.line_end, s.location.column), (3, 4, None));
    assert_eq!(s.message, "message");
    assert_eq!(s.suggestion, "suggestion");
}
