use qualirs::detectors::architecture::cyclic_crate_dependency::{
    collect_crate_deps, extract_first_crate_segment, extract_root_ident, file_to_module,
    is_crate_internal_use, CyclicDependencyDetector,
};
use qualirs::detectors::architecture::unstable_dependency::{
    use_tree_to_string, UnstableDependencyDetector,
};
use qualirs::detectors::concurrency::async_trait_overhead::AsyncTraitOverheadDetector;
use qualirs::detectors::concurrency::missing_send_bound::{
    contains_spawn_call, MissingSendBoundDetector,
};
use qualirs::detectors::design::feature_envy::FeatureEnvyDetector;
use qualirs::detectors::design::rebellious_impl::{detect_rebellion, RebelliousImplDetector};
use qualirs::detectors::design::trait_impl_leakage::{
    classify_trait, trait_path_to_string, TraitImplLeakageDetector, TraitKind,
};
use qualirs::detectors::implementation::inline_candidate::{
    body_line_count, CallCounter, CallKind, InlineCandidate, InlineCandidateDetector,
};
use qualirs::detectors::implementation::manual_default_constructor::{
    is_default_call, ManualDefaultConstructorDetector,
};
use qualirs::detectors::implementation::unnecessary_allocation_in_loop::{
    is_error_constructor, UnnecessaryAllocationInLoopDetector,
};
use qualirs::detectors::implementation::unused_result::{describe_expr, UnusedResultDetector};
use qualirs::detectors::policy::{ActivePolicy, PolicyConfig};
use qualirs::domain::{Severity, Smell, SmellCategory};
use qualirs::syntax::{
    Attribute, Block, Bound, ExprShape, FnDecl, GenericParam, ImplHeader, Meta, MetaBody, Node,
    NodeKind, Param, PatShape, Segment, Signature, SourceFile, SynPath, TypeShape, UseTree,
};
use qualirs::text::{decimal_string, split_lines};

// ---------------------------------------------------------------------------
// Building syntax models

fn path_at(names: &[&str], line: usize) -> SynPath {
    SynPath {
        leading_colon: false,
        segments: names
            .iter()
            .map(|n| Segment { ident: n.to_string(), has_arguments: false, line })
            .collect(),
    }
}

fn path(names: &[&str]) -> SynPath {
    path_at(names, 1)
}

fn leaf(kind: NodeKind) -> Node {
    Node { kind, children: Vec::new() }
}

fn with(kind: NodeKind, children: Vec<Node>) -> Node {
    Node { kind, children }
}

fn attr_path(name: &str, line: usize) -> Attribute {
    Attribute { meta: Meta { path: path_at(&[name], line), body: MetaBody::Path } }
}

fn cfg_test() -> Attribute {
    Attribute {
        meta: Meta {
            path: path(&["cfg"]),
            body: MetaBody::List(Some(vec![Meta { path: path(&["test"]), body: MetaBody::Path }])),
        },
    }
}

fn block(stmt_count: usize, open_line: usize, close_line: usize) -> Block {
    Block { stmt_count, open_line, close_line, tail: None }
}

fn sig(name: &str, line: usize, inputs: Vec<Param>) -> Signature {
    Signature {
        ident: name.to_string(),
        ident_line: line,
        fn_line: line,
        is_async: false,
        is_unsafe: false,
        generics: Vec::new(),
        inputs,
        output: None,
    }
}

fn func(name: &str, line: usize, inputs: Vec<Param>, body: Vec<Node>) -> FnDecl {
    FnDecl {
        attrs: Vec::new(),
        vis_inherited: false,
        sig: sig(name, line, inputs),
        block: block(body.len().max(1), line, line + 2),
        body,
    }
}

fn typed(name: &str, ty: TypeShape) -> Param {
    Param::Typed(PatShape::Ident(name.to_string()), ty)
}

fn method_call(method: &str, line: usize, receiver: ExprShape) -> Node {
    leaf(NodeKind::ExprMethodCall(method.to_string(), line, receiver))
}

fn call(names: &[&str], line: usize) -> Node {
    leaf(NodeKind::ExprCall(ExprShape::Path(path_at(names, line))))
}

fn recv(name: &str) -> ExprShape {
    ExprShape::Path(path(&[name]))
}

fn impl_block(self_ty: &str, trait_name: Option<&str>, line: usize, items: Vec<Node>) -> Node {
    with(
        NodeKind::ItemImpl(ImplHeader {
            attrs: Vec::new(),
            trait_path: trait_name.map(|t| path(&[t])),
            self_ty: TypeShape::Path(path(&[self_ty])),
            self_ty_line: line,
        }),
        items,
    )
}

fn file(path: &str, line_count: usize, items: Vec<Node>) -> SourceFile {
    SourceFile { path: path.to_string(), line_count, items }
}

fn policy(skip_tests: bool) -> ActivePolicy {
    ActivePolicy::new(PolicyConfig {
        skip_tests,
        test_path_markers: vec![String::from("tests")],
        skip_template_structs: false,
        skip_data_carrier_structs: false,
        data_carrier_struct_suffixes: Vec::new(),
    })
}

fn use_item(tree: UseTree, line: usize) -> Node {
    leaf(NodeKind::ItemUse(tree, line))
}

fn use_path(parts: &[&str]) -> UseTree {
    let (last, init) = parts.split_last().unwrap();
    let mut tree = UseTree::Name(last.to_string());
    for p in init.iter().rev() {
        tree = UseTree::Path(p.to_string(), Box::new(tree));
    }
    tree
}

fn check(s: &Smell, category: SmellCategory, name: &str, severity: Severity, lines: (usize, usize), message: &str) {
    assert_eq!(s.category, category);
    assert_eq!(s.name, name);
    assert_eq!(s.severity, severity);
    assert_eq!((s.location.line_start, s.location.line_end), lines);
    assert_eq!(s.location.column, None);
    assert_eq!(s.message, message);
}

// ---------------------------------------------------------------------------
// Text helpers

#[test]
fn decimal_and_lines() {
    assert_eq!(decimal_string(0), "0");
    assert_eq!(decimal_string(1907), "1907");
    assert_eq!(split_lines("a\r\nb\n"), vec!["a", "b"]);
    assert_eq!(split_lines("a\n\nb"), vec!["a", "", "b"]);
    assert_eq!(split_lines("x\r"), vec!["x\r"]);
    assert!(split_lines("").is_empty());
}

// ---------------------------------------------------------------------------
// Feature envy

fn envious_fn(a_calls: usize, self_calls: usize, public: bool) -> Node {
    let mut body = Vec::new();
    for i in 0..a_calls {
        body.push(method_call("frob", 10 + i, recv("a")));
    }
    for i in 0..self_calls {
        body.push(method_call("own", 30 + i, recv("self")));
    }
    body.push(method_call("len", 40, recv("b")));
    let mut f = func("f", 5, vec![typed("a", TypeShape::Other), typed("b", TypeShape::Other)], body);
    f.vis_inherited = !public;
    f.block.open_line = 5;
    f.block.close_line = 50;
    leaf(NodeKind::ItemFn(f))
}

#[test]
fn feature_envy_reports_the_envied_parameter() {
    let d = FeatureEnvyDetector;
    assert_eq!(d.name(), "Feature Envy");
    let smells = d.detect(&file("a.rs", 60, vec![envious_fn(6, 0, true)]));
    assert_eq!(smells.len(), 1);
    check(
        &smells[0],
        SmellCategory::Design,
        "Feature Envy",
        Severity::Info,
        (5, 50),
        "Function `f` calls methods on `a` 6 times — consider moving this method",
    );
    assert_eq!(smells[0].location.file, "a.rs");
}

#[test]
fn feature_envy_needs_more_than_five_and_twice_self() {
    let d = FeatureEnvyDetector;
    assert!(d.detect(&file("a.rs", 60, vec![envious_fn(5, 0, true)])).is_empty());
    assert!(d.detect(&file("a.rs", 60, vec![envious_fn(6, 3, true)])).is_empty());
    assert_eq!(d.detect(&file("a.rs", 60, vec![envious_fn(7, 3, true)])).len(), 1);
    assert!(d.detect(&file("a.rs", 60, vec![envious_fn(9, 0, false)])).is_empty());
}

#[test]
fn feature_envy_counts_nested_calls() {
    // calls on `a` nested inside another call's arguments count too
    let inner: Vec<Node> = (0..6).map(|i| method_call("x", i, recv("a"))).collect();
    let outer = with(NodeKind::ExprCall(ExprShape::Path(path(&["g"]))), inner);
    let f = func("h", 1, vec![typed("a", TypeShape::Other)], vec![outer]);
    let smells = FeatureEnvyDetector.detect(&file("a.rs", 9, vec![leaf(NodeKind::ItemFn(f))]));
    assert_eq!(smells.len(), 1);
    assert!(smells[0].message.contains("`a` 6 times"));
}

// ---------------------------------------------------------------------------
// Trait impl leakage

#[test]
fn trait_classification() {
    assert_eq!(classify_trait("Debug"), TraitKind::Std);
    assert_eq!(classify_trait("FnOnce"), TraitKind::Std);
    assert_eq!(classify_trait("Service"), TraitKind::Domain);
    assert_eq!(classify_trait("debug"), TraitKind::Domain);
    assert_eq!(trait_path_to_string(&path(&["std", "fmt", "Display"])), "Display");
    assert_eq!(trait_path_to_string(&SynPath { leading_colon: false, segments: vec![] }), "");
}

fn std_impls(ty: &str, traits: &[&str]) -> Vec<Node> {
    traits.iter().map(|t| impl_block(ty, Some(t), 1, Vec::new())).collect()
}

#[test]
fn trait_impl_leakage_reports_std_only_types() {
    let mut items = std_impls("Foo", &["Debug", "Clone", "Copy", "Hash", "Eq"]);
    items.extend(std_impls("Bar", &["Debug", "Clone", "Copy", "Hash", "Eq", "Ord"]));
    items.push(impl_block("Bar", Some("Service"), 1, Vec::new()));
    items.extend(std_impls("Baz", &["Debug", "Clone", "Copy", "Hash"]));
    let d = TraitImplLeakageDetector;
    assert_eq!(d.name(), "Trait Impl Leakage");
    let smells = d.detect(&file("t.rs", 77, items));
    assert_eq!(smells.len(), 1);
    check(
        &smells[0],
        SmellCategory::Design,
        "Trait Impl Leakage",
        Severity::Info,
        (1, 77),
        "Type `Foo` implements 5 std traits but no domain traits — may be an anemic type",
    );
}

#[test]
fn trait_impl_leakage_orders_types_by_first_impl() {
    let mut items = std_impls("B", &["Debug", "Clone"]);
    items.extend(std_impls("A", &["Debug", "Clone", "Copy", "Hash", "Eq"]));
    items.extend(std_impls("B", &["Copy", "Hash", "Eq", "Ord"]));
    items.push(impl_block("C", None, 1, Vec::new()));
    let smells = TraitImplLeakageDetector.detect(&file("t.rs", 3, items));
    assert_eq!(smells.len(), 2);
    assert!(smells[0].message.starts_with("Type `B` implements 6"));
    assert!(smells[1].message.starts_with("Type `A` implements 5"));
}

// ---------------------------------------------------------------------------
// Rebellious impl

fn methods(names: &[&str]) -> Vec<String> {
    names.iter().map(|s| s.to_string()).collect()
}

#[test]
fn rebellion_rules() {
    assert!(detect_rebellion("userrepository", &methods(&["find", "print_all"])));
    assert!(detect_rebellion("datastore", &methods(&["RenderHtml"])));
    assert!(!detect_rebellion("userrepository", &methods(&["find", "save"])));
    assert!(detect_rebellion("inputvalidator", &methods(&["check", "SaveResult"])));
    assert!(!detect_rebellion("inputchecker", &methods(&["check"])));
    let eleven: Vec<String> = (0..11).map(|i| format!("m{i}")).collect();
    assert!(detect_rebellion("requesthandler", &eleven));
    assert!(!detect_rebellion("requesthandler", &eleven[..10]));
    assert!(!detect_rebellion("widget", &methods(&["print"])));
}

#[test]
fn rebellious_impl_reports_inherent_impls() {
    let items = vec![
        impl_block(
            "UserRepository",
            None,
            12,
            vec![
                leaf(NodeKind::ImplFn(func("find", 13, vec![], vec![]))),
                leaf(NodeKind::ImplFn(func("PrintAll", 14, vec![], vec![]))),
            ],
        ),
        impl_block(
            "UserRepository",
            Some("Display"),
            20,
            vec![leaf(NodeKind::ImplFn(func("print", 21, vec![], vec![])))],
        ),
    ];
    let d = RebelliousImplDetector;
    assert_eq!(d.name(), "Rebellious Impl");
    let smells = d.detect(&file("r.rs", 30, items));
    assert_eq!(smells.len(), 1);
    check(
        &smells[0],
        SmellCategory::Design,
        "Rebellious Impl",
        Severity::Info,
        (12, 12),
        "Impl for `UserRepository` contains methods that seem outside its responsibility: find, PrintAll",
    );
}

// ---------------------------------------------------------------------------
// Missing Send bound

fn spawning_fn(body: Vec<Node>, bounds: Vec<Bound>) -> FnDecl {
    let mut f = func("run", 7, vec![], body);
    f.sig.is_async = true;
    f.sig.generics = vec![GenericParam::Type(bounds)];
    f
}

fn spawn_in_closure(names: &[&str]) -> Vec<Node> {
    vec![with(NodeKind::ExprCall(ExprShape::Path(path(names))), vec![leaf(NodeKind::ExprClosure)])]
}

#[test]
fn missing_send_bound_reports_unbounded_spawners() {
    let d = MissingSendBoundDetector;
    assert_eq!(d.name(), "Missing Send Bound");
    let f = spawning_fn(spawn_in_closure(&["tokio", "spawn"]), vec![]);
    assert!(contains_spawn_call(&f));
    let smells = d.detect(&file("s.rs", 9, vec![leaf(NodeKind::ItemFn(f))]));
    assert_eq!(smells.len(), 1);
    check(
        &smells[0],
        SmellCategory::Concurrency,
        "Missing Send Bound",
        Severity::Warning,
        (7, 7),
        "Generic async function `run` uses spawn but has no `Send` bound on generic params",
    );
}

#[test]
fn missing_send_bound_finds_nested_and_method_spawns() {
    let nested = vec![with(
        NodeKind::ExprClosure,
        vec![method_call("spawn_local", 8, recv("set"))],
    )];
    assert!(contains_spawn_call(&spawning_fn(nested, vec![])));
    let blocking = spawn_in_closure(&["task", "spawn_blocking"]);
    assert!(contains_spawn_call(&spawning_fn(blocking, vec![])));
    let other = vec![call(&["spawned"], 8), method_call("respawn", 9, recv("x"))];
    assert!(!contains_spawn_call(&spawning_fn(other, vec![])));
}

#[test]
fn missing_send_bound_accepts_send_and_non_spawning() {
    let d = MissingSendBoundDetector;
    let bounded = spawning_fn(
        spawn_in_closure(&["spawn_blocking"]),
        vec![Bound::Trait(path(&["std", "marker", "Send"]))],
    );
    assert!(d.detect(&file("s.rs", 9, vec![leaf(NodeKind::ItemFn(bounded))])).is_empty());
    let quiet = spawning_fn(vec![call(&["spawned"], 8)], vec![]);
    assert!(!contains_spawn_call(&quiet));
    assert!(d.detect(&file("s.rs", 9, vec![leaf(NodeKind::ItemFn(quiet))])).is_empty());
    let mut plain = spawning_fn(spawn_in_closure(&["spawn"]), vec![]);
    plain.sig.generics = Vec::new();
    assert!(d.detect(&file("s.rs", 9, vec![leaf(NodeKind::ItemFn(plain))])).is_empty());
    let mut not_async = spawning_fn(spawn_in_closure(&["spawn"]), vec![]);
    not_async.sig.is_async = false;
    assert!(d.detect(&file("s.rs", 9, vec![leaf(NodeKind::ItemFn(not_async))])).is_empty());
}

// ---------------------------------------------------------------------------
// Cyclic dependencies

#[test]
fn module_names_from_paths() {
    assert_eq!(file_to_module("src/foo.rs"), "foo");
    assert_eq!(file_to_module("a/b.tar.gz"), "b.tar");
    assert_eq!(file_to_module(".bashrc"), ".bashrc");
    assert_eq!(file_to_module("dir/"), "dir");
    assert_eq!(file_to_module("/"), "unknown");
    assert_eq!(file_to_module(""), "unknown");
    assert_eq!(file_to_module("a/.."), "unknown");
    assert_eq!(file_to_module("noext"), "noext");
}

#[test]
fn use_tree_roots() {
    let t = use_path(&["crate", "model", "User"]);
    assert!(is_crate_internal_use(&t));
    assert_eq!(extract_first_crate_segment(&t).as_deref(), Some("model"));
    assert_eq!(extract_root_ident(&t).as_deref(), Some("crate"));
    let s = use_path(&["super", "x"]);
    assert!(is_crate_internal_use(&s));
    assert_eq!(extract_first_crate_segment(&s), None);
    let g = UseTree::Group(vec![UseTree::Glob, UseTree::Name("a".into())]);
    assert_eq!(extract_root_ident(&g), None);
    assert_eq!(extract_root_ident(&UseTree::Rename("a".into(), "b".into())).as_deref(), Some("a"));
    let items = vec![
        use_item(use_path(&["std", "fmt"]), 1),
        use_item(use_path(&["std", "io"]), 2),
        use_item(use_path(&["super", "x"]), 3),
        use_item(use_path(&["crate", "model", "User"]), 4),
    ];
    assert_eq!(collect_crate_deps(&items), vec!["model"]);
}

#[test]
fn cyclic_dependency_reports_self_imports() {
    let items = vec![
        use_item(use_path(&["crate", "parser", "Token"]), 1),
        use_item(use_path(&["serde_json", "Value"]), 2),
        use_item(use_path(&["crate", "lexer", "Span"]), 3),
    ];
    let d = CyclicDependencyDetector;
    assert_eq!(d.name(), "Cyclic Crate Dependency");
    let smells = d.detect(&file("src/parser.rs", 40, items));
    assert_eq!(smells.len(), 1);
    check(
        &smells[0],
        SmellCategory::Architecture,
        "Cyclic Dependency",
        Severity::Critical,
        (1, 40),
        "Module `parser` imports from itself (self-referential dependency)",
    );
}

#[test]
fn cyclic_dependency_needs_two_dependencies() {
    let items = vec![
        use_item(use_path(&["crate", "parser", "Token"]), 1),
        use_item(use_path(&["crate", "parser", "Span"]), 2),
        use_item(use_path(&["parser"]), 3),
    ];
    assert!(CyclicDependencyDetector.detect(&file("src/parser.rs", 4, items)).is_empty());
}

#[test]
fn cyclic_dependency_risk_counts_names_without_underscores() {
    let names = ["unused_result", "feature_envy", "trait_impl", "inline_x", "policy_a", "walk_b"];
    let items: Vec<Node> =
        names.iter().enumerate().map(|(i, n)| use_item(use_path(&["crate", n, "X"]), i + 1)).collect();
    assert!(CyclicDependencyDetector.detect(&file("src/lib.rs", 10, items)).is_empty());
}

#[test]
fn cyclic_dependency_ignores_external_imports() {
    let roots = ["std", "syn", "serde", "rayon", "clap", "anyhow"];
    let items: Vec<Node> =
        roots.iter().enumerate().map(|(i, n)| use_item(use_path(&[n, "X"]), i + 1)).collect();
    assert!(CyclicDependencyDetector.detect(&file("src/engine.rs", 10, items)).is_empty());
    let own = vec![use_item(use_path(&["syn"]), 1), use_item(use_path(&["quote", "quote"]), 2)];
    assert!(CyclicDependencyDetector.detect(&file("src/syn.rs", 10, own)).is_empty());
}

#[test]
fn cyclic_dependency_warns_on_many_internal_deps() {
    let names = ["a", "b", "c", "d", "e_f", "crate_x", "g"];
    let items: Vec<Node> =
        names.iter().enumerate().map(|(i, n)| use_item(use_path(&["crate", n, "X"]), i + 1)).collect();
    let smells = CyclicDependencyDetector.detect(&file("src/lib.rs", 10, items));
    assert_eq!(smells.len(), 1);
    check(
        &smells[0],
        SmellCategory::Architecture,
        "Cyclic Dependency Risk",
        Severity::Warning,
        (1, 10),
        "Module `lib` has 6 internal dependencies — high cycle risk",
    );
}

// ---------------------------------------------------------------------------
// Unstable dependencies

#[test]
fn use_tree_text() {
    let t = UseTree::Path(
        "std".into(),
        Box::new(UseTree::Group(vec![
            UseTree::Name("a".into()),
            UseTree::Rename("b".into(), "c".into()),
            UseTree::Glob,
        ])),
    );
    assert_eq!(use_tree_to_string(&t), "std::{a, b as c, *}");
}

#[test]
fn unstable_dependency_reports_heavy_use() {
    let items = vec![
        use_item(use_path(&["core", "Intrinsics_Internal", "X"]), 3),
        use_item(use_path(&["libc_sys", "Y"]), 4),
        leaf(NodeKind::ItemFn(func("main", 6, vec![], vec![]))),
    ];
    let d = UnstableDependencyDetector;
    assert_eq!(d.name(), "Unstable Dependency");
    let smells = d.detect(&file("u.rs", 9, items));
    assert_eq!(smells.len(), 1);
    check(
        &smells[0],
        SmellCategory::Architecture,
        "Unstable Dependency",
        Severity::Warning,
        (3, 3),
        "File has 2 unstable imports (67% of items): core::Intrinsics_Internal::X, libc_sys::Y",
    );
}

#[test]
fn unstable_dependency_needs_more_than_forty_percent() {
    let mut items = vec![
        use_item(use_path(&["a", "experimental", "X"]), 1),
        use_item(use_path(&["b", "unstable", "Y"]), 2),
    ];
    for i in 0..3 {
        items.push(leaf(NodeKind::ItemFn(func(&format!("f{i}"), 10 + i, vec![], vec![]))));
    }
    assert!(UnstableDependencyDetector.detect(&file("u.rs", 20, items)).is_empty());
    let nested = with(
        NodeKind::ItemMod(Vec::new()),
        vec![use_item(use_path(&["x", "nightly", "Z"]), 5)],
    );
    let smells = UnstableDependencyDetector.detect(&file("u.rs", 20, vec![nested]));
    assert_eq!(smells.len(), 1);
    assert_eq!(smells[0].message, "File has 1 unstable imports (100% of items): x::nightly::Z");
}

#[test]
fn unstable_dependency_share_is_computed_in_f64() {
    let build = |unstable: usize, others: usize| -> Vec<Node> {
        let mut items: Vec<Node> =
            (0..unstable).map(|i| use_item(use_path(&["x", "nightly", "A"]), i + 1)).collect();
        for i in 0..others {
            items.push(leaf(NodeKind::ItemFn(func(&format!("f{i}"), 100 + i, vec![], vec![]))));
        }
        items
    };
    for total in 1..=45usize {
        for unstable in 1..=total {
            let smells = UnstableDependencyDetector.detect(&file("u.rs", 200, build(unstable, total - unstable)));
            let ratio = unstable as f64 / total as f64;
            assert_eq!(smells.len() == 1, ratio > 0.4, "{unstable} of {total}");
            if let Some(s) = smells.first() {
                let expected = format!("File has {} unstable imports ({:.0}% of items)", unstable, ratio * 100.0);
                assert!(s.message.starts_with(&expected), "{} vs {}", s.message, expected);
            }
        }
    }
    let smells = UnstableDependencyDetector.detect(&file("u.rs", 200, build(23, 17)));
    assert!(smells[0].message.starts_with("File has 23 unstable imports (57% of items)"));
}

#[test]
fn unstable_dependency_markers_are_the_documented_ones() {
    for marker in ["raw", "private", "stable", "sys"] {
        let items = vec![use_item(use_path(&[marker]), 1)];
        assert!(UnstableDependencyDetector.detect(&file("u.rs", 2, items)).is_empty());
    }
    for marker in ["internal", "Unstable", "experimental", "NIGHTLY", "openssl_sys"] {
        let items = vec![use_item(use_path(&[marker]), 1)];
        assert_eq!(UnstableDependencyDetector.detect(&file("u.rs", 2, items)).len(), 1);
    }
}

// ---------------------------------------------------------------------------
// Inline candidates

fn helper_fn(name: &str, line: usize) -> FnDecl {
    let mut f = func(name, line, vec![], vec![]);
    f.block = block(1, line, line);
    f
}

fn caller(calls: Vec<Node>) -> Node {
    let mut f = func("main", 50, vec![], calls);
    f.block = block(20, 50, 90);
    leaf(NodeKind::ItemFn(f))
}

#[test]
fn inline_candidate_reports_hot_tiny_helpers() {
    let calls: Vec<Node> = (0..3).map(|i| call(&["helper"], 60 + i)).collect();
    let items = vec![leaf(NodeKind::ItemFn(helper_fn("helper", 3))), caller(calls)];
    let d = InlineCandidateDetector;
    assert_eq!(d.name(), "Inline Candidate");
    let smells = d.detect(&file("i.rs", 99, items), &policy(true));
    assert_eq!(smells.len(), 1);
    check(
        &smells[0],
        SmellCategory::Performance,
        "Inline Candidate",
        Severity::Info,
        (3, 3),
        "Function `helper` is tiny and called 3 times in this file",
    );
}

#[test]
fn inline_candidate_warns_from_six_calls_and_counts_paths_by_last_segment() {
    let calls: Vec<Node> = (0..6).map(|i| call(&["crate", "util", "helper"], 60 + i)).collect();
    let items = vec![leaf(NodeKind::ItemFn(helper_fn("helper", 3))), caller(calls)];
    let smells = InlineCandidateDetector.detect(&file("i.rs", 99, items), &policy(true));
    assert_eq!(smells.len(), 1);
    assert_eq!(smells[0].severity, Severity::Warning);
    assert!(smells[0].message.ends_with("called 6 times in this file"));
}

#[test]
fn inline_candidate_skips_marked_cold_and_complex_helpers() {
    let calls = || -> Vec<Node> { (0..4).map(|i| call(&["helper"], 60 + i)).collect() };
    let mut marked = helper_fn("helper", 3);
    marked.attrs = vec![attr_path("inline", 2)];
    let items = vec![leaf(NodeKind::ItemFn(marked)), caller(calls())];
    assert!(InlineCandidateDetector.detect(&file("i.rs", 99, items), &policy(true)).is_empty());

    let mut complex = helper_fn("helper", 3);
    complex.body = vec![leaf(NodeKind::ExprIf)];
    let items = vec![leaf(NodeKind::ItemFn(complex)), caller(calls())];
    assert!(InlineCandidateDetector.detect(&file("i.rs", 99, items), &policy(true)).is_empty());

    let mut long = helper_fn("helper", 3);
    long.block = block(2, 3, 11);
    assert_eq!(body_line_count(&long.block), 9);
    let items = vec![leaf(NodeKind::ItemFn(long)), caller(calls())];
    assert!(InlineCandidateDetector.detect(&file("i.rs", 99, items), &policy(true)).is_empty());
}

#[test]
fn inline_candidate_ignores_calls_in_test_code() {
    let items = || -> Vec<Node> {
        let calls: Vec<Node> = (0..3).map(|i| call(&["helper"], 60 + i)).collect();
        let test_mod = with(NodeKind::ItemMod(vec![cfg_test()]), vec![caller(calls)]);
        vec![leaf(NodeKind::ItemFn(helper_fn("helper", 3))), test_mod]
    };
    assert!(InlineCandidateDetector.detect(&file("i.rs", 99, items()), &policy(true)).is_empty());
    assert_eq!(InlineCandidateDetector.detect(&file("i.rs", 99, items()), &policy(false)).len(), 1);
}

#[test]
fn inline_candidate_methods_are_counted_as_method_calls() {
    let mut get = helper_fn("get", 4);
    get.sig.inputs = vec![Param::Receiver];
    let calls: Vec<Node> = (0..3).map(|i| method_call("get", 60 + i, recv("s"))).collect();
    let items = vec![impl_block("S", None, 2, vec![leaf(NodeKind::ImplFn(get))]), caller(calls)];
    let smells = InlineCandidateDetector.detect(&file("i.rs", 99, items), &policy(true));
    assert_eq!(smells.len(), 1);
    assert_eq!(smells[0].location.line_start, 4);
}

#[test]
fn call_counter_reports_zero_for_unseen_names() {
    let counter = CallCounter::new();
    let c = InlineCandidate {
        name: "x".into(),
        display_name: "x".into(),
        line: 1,
        call_kind: CallKind::Function,
    };
    assert_eq!(counter.call_sites(&c), 0);
}

// ---------------------------------------------------------------------------
// Manual default constructors

fn new_fn(tail: ExprShape) -> Node {
    let mut f = func("new", 8, vec![], vec![]);
    f.sig.output = Some(TypeShape::Path(path(&["Self"])));
    f.block.stmt_count = 1;
    f.block.tail = Some(tail);
    leaf(NodeKind::ImplFn(f))
}

#[test]
fn default_calls() {
    assert!(is_default_call(&ExprShape::Path(path(&["Default", "default"]))));
    assert!(is_default_call(&ExprShape::Path(path(&["Vec", "new"]))));
    assert!(!is_default_call(&ExprShape::Path(path(&["HashMap", "new"]))));
    assert!(!is_default_call(&ExprShape::Path(path(&["std", "vec", "Vec", "new"]))));
}

#[test]
fn manual_default_constructor_reports_default_only_new() {
    let tail = ExprShape::Struct(
        path(&["Self"]),
        vec![
            ExprShape::Call(Box::new(ExprShape::Path(path(&["Default", "default"])))),
            ExprShape::Call(Box::new(ExprShape::Path(path(&["String", "new"])))),
        ],
    );
    let d = ManualDefaultConstructorDetector;
    assert_eq!(d.name(), "Manual Default Constructor");
    let smells = d.detect(&file("m.rs", 20, vec![impl_block("S", None, 7, vec![new_fn(tail)])]));
    assert_eq!(smells.len(), 1);
    check(
        &smells[0],
        SmellCategory::Idiomaticity,
        "Manual Default Constructor",
        Severity::Info,
        (8, 8),
        "Constructor `new` appears to return only default field values",
    );
}

#[test]
fn manual_default_constructor_needs_only_defaults() {
    let tail = ExprShape::Struct(
        path(&["Self"]),
        vec![ExprShape::Call(Box::new(ExprShape::Path(path(&["Vec", "new"])))), ExprShape::Other],
    );
    let items = vec![impl_block("S", None, 7, vec![new_fn(tail)])];
    assert!(ManualDefaultConstructorDetector.detect(&file("m.rs", 20, items)).is_empty());
    let empty = ExprShape::Struct(path(&["Self"]), vec![]);
    let items = vec![impl_block("S", None, 7, vec![new_fn(empty)])];
    assert!(ManualDefaultConstructorDetector.detect(&file("m.rs", 20, items)).is_empty());
}

// ---------------------------------------------------------------------------
// Async trait overhead

fn async_trait(line: usize, supertraits: Vec<Bound>) -> Node {
    leaf(NodeKind::ItemTrait(vec![attr_path("async_trait", line)], supertraits))
}

#[test]
fn async_trait_overhead_reports_macro_traits() {
    let d = AsyncTraitOverheadDetector;
    assert_eq!(d.name(), "Async Trait Overhead");
    let smells = d.detect(&file("t.rs", 9, vec![async_trait(3, vec![])]), &policy(true));
    assert_eq!(smells.len(), 1);
    check(
        &smells[0],
        SmellCategory::Performance,
        "Async Trait Overhead",
        Severity::Info,
        (3, 3),
        "Usage of `#[async_trait]` macro incurs unnecessary Future boxing overhead",
    );
}

#[test]
fn async_trait_overhead_spares_ports_and_tests() {
    let d = AsyncTraitOverheadDetector;
    let port = async_trait(3, vec![Bound::Trait(path(&["Send"])), Bound::Other]);
    assert!(d.detect(&file("t.rs", 9, vec![port]), &policy(true)).is_empty());
    let in_tests = with(NodeKind::ItemMod(vec![cfg_test()]), vec![async_trait(5, vec![])]);
    assert!(d.detect(&file("t.rs", 9, vec![in_tests]), &policy(true)).is_empty());
    let in_tests = with(NodeKind::ItemMod(vec![cfg_test()]), vec![async_trait(5, vec![])]);
    assert_eq!(d.detect(&file("t.rs", 9, vec![in_tests]), &policy(false)).len(), 1);
}

// ---------------------------------------------------------------------------
// Allocation in loops

fn in_loop(children: Vec<Node>) -> Node {
    with(NodeKind::ExprForLoop, children)
}

#[test]
fn allocation_in_loop_reports_allocations() {
    let body = vec![
        method_call("to_owned", 4, recv("s")),
        in_loop(vec![
            method_call("to_owned", 6, recv("s")),
            call(&["String", "from"], 7),
            with(NodeKind::ExprMacro, vec![leaf(NodeKind::Macro(path_at(&["format"], 8)))]),
        ]),
    ];
    let f = func("work", 2, vec![], body);
    let d = UnnecessaryAllocationInLoopDetector;
    assert_eq!(d.name(), "Unnecessary Allocation in Loop");
    let smells = d.detect(&file("l.rs", 20, vec![leaf(NodeKind::ItemFn(f))]), &policy(true));
    assert_eq!(smells.len(), 3);
    check(
        &smells[0],
        SmellCategory::Performance,
        "Unnecessary Allocation in Loop",
        Severity::Info,
        (6, 6),
        "Allocation-like call `to_owned` appears inside a loop",
    );
    assert_eq!(smells[1].message, "Allocation-like call `String::from` appears inside a loop");
    assert_eq!(smells[1].location.line_start, 7);
    assert_eq!(smells[2].message, "Allocation-like call `format!` appears inside a loop");
    assert_eq!(smells[2].location.line_start, 8);
}

#[test]
fn allocation_in_loop_spares_diagnostics_and_errors() {
    let body = vec![in_loop(vec![
        with(
            NodeKind::ExprMethodCall("push".into(), 3, recv("smells")),
            vec![method_call("to_owned", 3, recv("x"))],
        ),
        with(
            NodeKind::ExprCall(ExprShape::Path(path(&["ParseError", "Invalid"]))),
            vec![call(&["String", "from"], 4)],
        ),
        with(
            NodeKind::ExprReference(ExprShape::Macro(path(&["format"]), None)),
            vec![leaf(NodeKind::Macro(path(&["format"])))],
        ),
        with(NodeKind::ExprStruct(path(&["NameVisitor"])), vec![call(&["String", "from"], 5)]),
    ])];
    let f = func("work", 2, vec![], body);
    let smells = UnnecessaryAllocationInLoopDetector
        .detect(&file("l.rs", 20, vec![leaf(NodeKind::ItemFn(f))]), &policy(true));
    assert!(smells.is_empty());
    assert!(is_error_constructor(&ExprShape::Path(path(&["Err"]))));
    assert!(is_error_constructor(&ExprShape::Path(path(&["IoError", "Other"]))));
    assert!(is_error_constructor(&ExprShape::Path(path(&["AppError", "new"]))));
    assert!(!is_error_constructor(&ExprShape::Path(path(&["AppError", "other"]))));
    assert!(!is_error_constructor(&ExprShape::Path(path(&["Config", "Other"]))));
}

#[test]
fn allocation_outside_loops_is_not_reported() {
    let body = vec![
        method_call("to_owned", 4, recv("s")),
        call(&["String", "from"], 5),
        leaf(NodeKind::Macro(path(&["format"]))),
    ];
    let f = func("work", 2, vec![], body);
    let smells = UnnecessaryAllocationInLoopDetector
        .detect(&file("l.rs", 20, vec![leaf(NodeKind::ItemFn(f))]), &policy(true));
    assert!(smells.is_empty());
}

#[test]
fn allocation_in_test_modules_is_not_reported() {
    let build = || {
        let body = vec![in_loop(vec![method_call("to_owned", 6, recv("s"))])];
        let f = func("work", 2, vec![], body);
        vec![with(NodeKind::ItemMod(vec![cfg_test()]), vec![leaf(NodeKind::ItemFn(f))])]
    };
    let d = UnnecessaryAllocationInLoopDetector;
    assert!(d.detect(&file("l.rs", 20, build()), &policy(true)).is_empty());
    assert_eq!(d.detect(&file("l.rs", 20, build()), &policy(false)).len(), 1);
}

// ---------------------------------------------------------------------------
// Ignored results

fn discard(line: usize, expr: ExprShape) -> Node {
    leaf(NodeKind::Local(PatShape::Wild(line), Some(expr)))
}

#[test]
fn describing_expressions() {
    assert_eq!(
        describe_expr(&ExprShape::Call(Box::new(ExprShape::Path(path(&["fs", "remove_file"]))))),
        "call to `fs::remove_file`"
    );
    assert_eq!(describe_expr(&ExprShape::Call(Box::new(ExprShape::Other))), "call to `...`");
    assert_eq!(describe_expr(&ExprShape::MethodCall("flush".into(), Box::new(ExprShape::Other))), "`.flush()` call");
    assert_eq!(describe_expr(&ExprShape::Path(path(&["x"]))), "`x`");
    assert_eq!(describe_expr(&ExprShape::Other), "expression");
}

#[test]
fn unused_result_reports_discards() {
    let body = vec![discard(4, ExprShape::Call(Box::new(ExprShape::Path(path(&["fs", "remove_file"])))))];
    let f = func("cleanup", 2, vec![], body);
    let d = UnusedResultDetector;
    assert_eq!(d.name(), "Unused Result Ignored");
    let smells = d.detect(&file("src/io.rs", 9, vec![leaf(NodeKind::ItemFn(f))]), &policy(true));
    assert_eq!(smells.len(), 1);
    check(
        &smells[0],
        SmellCategory::Idiomaticity,
        "Unused Result Ignored",
        Severity::Warning,
        (4, 4),
        "Function `cleanup` discards a Result/Option with `let _ = ...` (call to `fs::remove_file`)",
    );
}

#[test]
fn unused_result_spares_values_known_not_to_be_results() {
    let len = ExprShape::MethodCall("len".into(), Box::new(recv("v")));
    let f = func("f", 2, vec![typed("v", TypeShape::Path(path(&["Vec"])))], vec![discard(3, len)]);
    let smells = UnusedResultDetector.detect(&file("src/v.rs", 5, vec![leaf(NodeKind::ItemFn(f))]), &policy(true));
    assert!(smells.is_empty());

    let plain = vec![
        ExprShape::Lit,
        ExprShape::Reference(Box::new(recv("x"))),
        ExprShape::Struct(path(&["Point"]), vec![]),
        ExprShape::Macro(path(&["format"]), None),
        ExprShape::Paren(Box::new(ExprShape::MethodCall("is_empty".into(), Box::new(recv("s"))))),
        ExprShape::Call(Box::new(ExprShape::Path(path(&["helper"])))),
        ExprShape::Call(Box::new(ExprShape::Path(path(&["size"])))),
    ];
    let body: Vec<Node> = plain.into_iter().enumerate().map(|(i, e)| discard(10 + i, e)).collect();
    let mut helper = func("helper", 30, vec![], vec![]);
    helper.sig.output = None;
    let mut size = func("size", 31, vec![], vec![]);
    size.sig.output = Some(TypeShape::Path(path(&["usize"])));
    let items = vec![
        leaf(NodeKind::ItemFn(func("g", 2, vec![], body))),
        leaf(NodeKind::ItemFn(helper)),
        leaf(NodeKind::ItemFn(size)),
    ];
    assert!(UnusedResultDetector.detect(&file("src/v.rs", 40, items), &policy(true)).is_empty());
}

#[test]
fn unused_result_reports_calls_that_may_fail() {
    let calls = vec![
        ExprShape::Call(Box::new(ExprShape::Path(path(&["load"])))),
        ExprShape::Call(Box::new(ExprShape::Path(path(&["twice"])))),
        ExprShape::Call(Box::new(ExprShape::Path(path(&["unknown"])))),
        ExprShape::MethodCall("flush".into(), Box::new(recv("out"))),
        ExprShape::MethodCall("clone".into(), Box::new(recv("res"))),
    ];
    let body: Vec<Node> = calls.into_iter().enumerate().map(|(i, e)| discard(10 + i, e)).collect();
    let mut load = func("load", 30, vec![], vec![]);
    load.sig.output = Some(TypeShape::Path(path(&["io", "Result"])));
    let mut twice_a = func("twice", 31, vec![], vec![]);
    twice_a.sig.output = None;
    let mut twice_b = func("twice", 32, vec![], vec![]);
    twice_b.sig.output = Some(TypeShape::Path(path(&["Option"])));
    let items = vec![
        leaf(NodeKind::ItemFn(func("g", 2, vec![], body))),
        leaf(NodeKind::ItemFn(load)),
        leaf(NodeKind::ItemFn(twice_a)),
        leaf(NodeKind::ItemFn(twice_b)),
    ];
    let smells = UnusedResultDetector.detect(&file("src/v.rs", 40, items), &policy(true));
    let lines: Vec<usize> = smells.iter().map(|s| s.location.line_start).collect();
    assert_eq!(lines, vec![10, 11, 12, 13, 14]);
}

#[test]
fn unused_result_spares_string_writes_and_sends() {
    let write_param = ExprShape::Macro(path(&["write"]), Some(Box::new(ExprShape::Reference(Box::new(recv("out"))))));
    let write_local = ExprShape::Macro(path(&["writeln"]), Some(Box::new(recv("buf"))));
    let send = ExprShape::MethodCall("send".into(), Box::new(ExprShape::Field(Some("event_tx".into()))));
    let write_other = ExprShape::Macro(path(&["write"]), Some(Box::new(recv("file"))));
    let body = vec![
        discard(3, write_param),
        leaf(NodeKind::Local(
            PatShape::Ident("buf".into()),
            Some(ExprShape::Call(Box::new(ExprShape::Path(path(&["String", "new"]))))),
        )),
        discard(5, write_local),
        discard(6, send),
        discard(7, write_other),
    ];
    let out_ty = TypeShape::Reference(Box::new(TypeShape::Path(path(&["String"]))));
    let f = func("render", 2, vec![typed("out", out_ty)], body);
    let smells = UnusedResultDetector.detect(&file("src/r.rs", 9, vec![leaf(NodeKind::ItemFn(f))]), &policy(true));
    assert_eq!(smells.len(), 1);
    assert_eq!(smells[0].location.line_start, 7);
}

#[test]
fn unused_result_skips_test_paths() {
    let body = vec![discard(4, ExprShape::Path(path(&["x"])))];
    let f = func("t", 2, vec![], body);
    let items = vec![leaf(NodeKind::ItemFn(f))];
    assert!(UnusedResultDetector.detect(&file("tests/io.rs", 9, items), &policy(true)).is_empty());
    let f = func("t", 2, vec![], vec![discard(4, ExprShape::Path(path(&["x"])))]);
    let smells = UnusedResultDetector.detect(&file("tests/io.rs", 9, vec![leaf(NodeKind::ItemFn(f))]), &policy(false));
    assert_eq!(smells.len(), 1);
    assert_eq!(
        smells[0].message,
        "Function `t` discards a Result/Option with `let _ = ...` (`x`)"
    );
}
