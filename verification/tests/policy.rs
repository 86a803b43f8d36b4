use qualirs::detectors::policy::{
    configure, has_test_cfg, is_data_carrier_name, is_dto_template_or_config_struct,
    is_test_path, ActivePolicy, PolicyConfig,
};
use qualirs::syntax::{Attribute, Meta, MetaBody, Segment, SynPath};

fn strings(v: &[&str]) -> Vec<String> {
    v.iter().map(|s| s.to_string()).collect()
}

fn policy(skip_tests: bool) -> PolicyConfig {
    PolicyConfig {
        skip_tests,
        test_path_markers: strings(&["tests", "_test.rs", "benches"]),
        skip_template_structs: true,
        skip_data_carrier_structs: true,
        data_carrier_struct_suffixes: strings(&["Dto", "Config"]),
    }
}

fn ident(name: &str) -> SynPath {
    SynPath {
        leading_colon: false,
        segments: vec![Segment { ident: name.to_string(), has_arguments: false, line: 1 }],
    }
}

fn meta_path(name: &str) -> Meta {
    Meta { path: ident(name), body: MetaBody::Path }
}

fn meta_list(name: &str, args: Vec<Meta>) -> Meta {
    Meta { path: ident(name), body: MetaBody::List(Some(args)) }
}

fn attr(meta: Meta) -> Attribute {
    Attribute { meta }
}

#[test]
fn test_paths_follow_the_markers() {
    let active = ActivePolicy::new(policy(true));
    assert!(is_test_path(&active, "src/tests/helpers.rs"));
    assert!(is_test_path(&active, "src/parser_test.rs"));
    assert!(is_test_path(&active, "/home/me/project/benches/b.rs"));
    assert!(!is_test_path(&active, "src/parser.rs"));
    assert!(!is_test_path(&active, "src/testsuite.rs"));
    // a component that ends with a marker counts
    assert!(is_test_path(&active, "crate/integration_tests/a.rs"));
}

#[test]
fn test_paths_use_path_components() {
    let mut p = policy(true);
    p.test_path_markers = strings(&["."]);
    let active = ActivePolicy::new(p);
    // `.` only stands as a component at the start of a relative path
    assert!(is_test_path(&active, "./src/a"));
    assert!(!is_test_path(&active, "src/./a"));
    let mut p = policy(true);
    p.test_path_markers = strings(&["/"]);
    let active = ActivePolicy::new(p);
    assert!(is_test_path(&active, "/abs/path"));
    assert!(!is_test_path(&active, "rel/path"));
}

#[test]
fn nothing_is_test_code_when_tests_are_kept() {
    let active = ActivePolicy::new(policy(false));
    assert!(!is_test_path(&active, "src/tests/helpers.rs"));
    let attrs = vec![attr(meta_list("cfg", vec![meta_path("test")]))];
    assert!(!has_test_cfg(&active, &attrs));
}

#[test]
fn test_cfg_attributes_are_recognised() {
    let active = ActivePolicy::new(policy(true));
    let cfg_test = vec![attr(meta_list("cfg", vec![meta_path("test")]))];
    assert!(has_test_cfg(&active, &cfg_test));
    let nested = vec![attr(meta_list(
        "cfg",
        vec![meta_list("all", vec![meta_path("unix"), meta_path("test")])],
    ))];
    assert!(has_test_cfg(&active, &nested));
    let other = vec![attr(meta_list("cfg", vec![meta_path("unix")]))];
    assert!(!has_test_cfg(&active, &other));
    let not_cfg = vec![attr(meta_list("allow", vec![meta_path("test")]))];
    assert!(!has_test_cfg(&active, &not_cfg));
    let unreadable = vec![attr(Meta { path: ident("cfg"), body: MetaBody::List(None) })];
    assert!(!has_test_cfg(&active, &unreadable));
    let bare = vec![attr(Meta { path: ident("cfg"), body: MetaBody::Path })];
    assert!(!has_test_cfg(&active, &bare));
}

#[test]
fn test_cfg_counts_only_bare_test_inside_cfg() {
    let active = ActivePolicy::new(policy(true));
    let negated = vec![attr(meta_list("cfg", vec![meta_list("not", vec![meta_path("test")])]))];
    assert!(has_test_cfg(&active, &negated));
    let feature = vec![attr(meta_list(
        "cfg",
        vec![Meta { path: ident("feature"), body: MetaBody::NameValue }],
    ))];
    assert!(!has_test_cfg(&active, &feature));
    let cfg_attr = vec![attr(meta_list("cfg_attr", vec![meta_path("test"), meta_path("x")]))];
    assert!(!has_test_cfg(&active, &cfg_attr));
    let second = vec![attr(meta_path("inline")), attr(meta_list("cfg", vec![meta_path("test")]))];
    assert!(has_test_cfg(&active, &second));
}

#[test]
fn configure_puts_the_new_policy_in_force() {
    let mut active = ActivePolicy::new(policy(false));
    assert!(!is_test_path(&active, "tests/a.rs"));
    configure(&mut active, &policy(true));
    assert!(is_test_path(&active, "tests/a.rs"));
    assert!(active.current().skip_tests);
    assert_eq!(active.current().test_path_markers, strings(&["tests", "_test.rs", "benches"]));
}

#[test]
fn more_markers_keep_test_paths() {
    let active = ActivePolicy::new(policy(true));
    assert!(is_test_path(&active, "tests/a.rs"));
    let mut more = policy(true);
    more.test_path_markers.push(String::from("fixtures"));
    let active = ActivePolicy::new(more);
    assert!(is_test_path(&active, "tests/a.rs"));
    assert!(is_test_path(&active, "fixtures/a.rs"));
}

#[test]
fn data_carrier_names_follow_the_suffixes() {
    let p = policy(true);
    assert!(is_data_carrier_name("UserDto", &p));
    assert!(is_data_carrier_name("AppConfig", &p));
    assert!(!is_data_carrier_name("Dtos", &p));
}

#[test]
fn template_and_data_carrier_structs_are_left_alone() {
    let active = ActivePolicy::new(policy(true));
    let derive_template = vec![attr(meta_list("derive", vec![meta_path("Debug"), meta_path("Template")]))];
    assert!(is_dto_template_or_config_struct(&active, &derive_template, &String::from("Page")));
    let template = vec![attr(meta_path("template"))];
    assert!(is_dto_template_or_config_struct(&active, &template, &String::from("Page")));
    assert!(is_dto_template_or_config_struct(&active, &vec![], &String::from("UserDto")));
    assert!(!is_dto_template_or_config_struct(&active, &vec![], &String::from("User")));

    let mut p = policy(true);
    p.skip_template_structs = false;
    p.skip_data_carrier_structs = false;
    let active = ActivePolicy::new(p);
    assert!(!is_dto_template_or_config_struct(&active, &derive_template, &String::from("UserDto")));
}
