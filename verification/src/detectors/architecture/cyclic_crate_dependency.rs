//! Cyclic crate dependencies: a module that imports from itself, or that has
//! so many crate-internal imports that cycles become likely.
use vstd::prelude::*;
use crate::detectors::policy::{component_list, path_components};
use crate::domain::{finding, smell_views, Severity, Smell, SmellCategory, SmellView};
use crate::syntax::{Node, NodeKind, SourceFile, UseTree};
use crate::text::{
    append_str, dedup, decimal, decimal_string, has_char, push_unique, starts_with_seq,
    starts_with_str, str_eq, string_from_chars, string_views,
};

verus! {

/// Detects self-referential imports and crate-internal import overload.
pub struct CyclicDependencyDetector;

// ---------------------------------------------------------------------------
// Module names from paths
/// The position of the last `c` in `s`, if any.
pub open spec fn last_char_index(s: Seq<char>, c: char) -> Option<int>
    decreases s.len(),
{
    if s.len() == 0 {
        None
    } else if s.last() == c {
        Some(s.len() - 1)
    } else {
        last_char_index(s.drop_last(), c)
    }
}

/// The file name of a path: its last component, unless that is the root,
/// `.` or `..`.
pub open spec fn file_name(path: Seq<char>) -> Option<Seq<char>> {
    let comps = path_components(path);
    if comps.len() == 0 {
        None
    } else {
        let last = comps.last();
        if last == "/"@ || last == "."@ || last == ".."@ {
            None
        } else {
            Some(last)
        }
    }
}

/// The stem of a file name: the part before its last `.`, or the whole name
/// when it has no `.` past its first character.
pub open spec fn stem_of(name: Seq<char>) -> Seq<char> {
    match last_char_index(name, '.') {
        Some(k) => if k > 0 {
            name.take(k)
        } else {
            name
        },
        None => name,
    }
}

/// The module a file stands for: the stem of its file name, or `unknown`.
pub open spec fn spec_file_to_module(path: Seq<char>) -> Seq<char> {
    match file_name(path) {
        Some(name) => stem_of(name),
        None => "unknown"@,
    }
}

proof fn lemma_last_char_index(s: Seq<char>, c: char)
    ensures
        match last_char_index(s, c) {
            Some(k) => 0 <= k < s.len() && s[k] == c && forall|j: int|
                k < j < s.len() ==> s[j] != c,
            None => forall|j: int| 0 <= j < s.len() ==> s[j] != c,
        },
    decreases s.len(),
{
    if s.len() > 0 && s.last() != c {
        lemma_last_char_index(s.drop_last(), c);
        match last_char_index(s.drop_last(), c) {
            Some(k) => {
                assert forall|j: int| k < j < s.len() implies s[j] != c by {
                    if j < s.len() - 1 {
                        assert(s[j] == s.drop_last()[j]);
                    }
                }
            },
            None => {
                assert forall|j: int| 0 <= j < s.len() implies s[j] != c by {
                    if j < s.len() - 1 {
                        assert(s[j] == s.drop_last()[j]);
                    }
                }
            },
        }
    }
}

fn stem(name: &Vec<char>) -> (r: Vec<char>)
    ensures
        r@ == stem_of(name@),
{
    proof {
        lemma_last_char_index(name@, '.');
    }
    let mut k: usize = name.len();
    while k > 0
        invariant
            k <= name.len(),
            forall|j: int| k <= j < name.len() ==> name@[j] != '.',
        decreases k,
    {
        if name[k - 1] == '.' {
            break;
        }
        k -= 1;
    }
    if k <= 1 {
        proof {
            if k == 1 {
                assert(last_char_index(name@, '.') == Some(0int)) by {
                    lemma_unique_last(name@, '.', 0);
                }
            } else {
                match last_char_index(name@, '.') {
                    Some(m) => {
                        assert(name@[m] != '.');
                    },
                    None => {},
                }
            }
        }
        return name.clone();
    }
    proof {
        lemma_unique_last(name@, '.', k - 1);
    }
    let mut r: Vec<char> = Vec::new();
    let mut i: usize = 0;
    while i < k - 1
        invariant
            i <= k - 1,
            k <= name.len(),
            r@ == name@.take(i as int),
        decreases k - 1 - i,
    {
        r.push(name[i]);
        i += 1;
        assert(r@ =~= name@.take(i as int));
    }
    r
}

proof fn lemma_unique_last(s: Seq<char>, c: char, k: int)
    requires
        0 <= k < s.len(),
        s[k] == c,
        forall|j: int| k < j < s.len() ==> s[j] != c,
    ensures
        last_char_index(s, c) == Some(k),
{
    lemma_last_char_index(s, c);
    match last_char_index(s, c) {
        Some(m) => {
            if m < k {
                assert(s[k] != c);
            }
            if m > k {
                assert(s[m] != c);
            }
        },
        None => {
            assert(s[k] != c);
        },
    }
}

/// The module name of the file at `path`: the stem of its file name, or
/// `unknown` when it has none.
pub fn file_to_module(path: &str) -> (r: String)
    ensures
        r@ == spec_file_to_module(path@),
{
    let comps = component_list(path);
    let ghost cv = comps@.map_values(|p: Vec<char>| p@);
    if comps.len() == 0 {
        return String::from_str("unknown");
    }
    let last = &comps[comps.len() - 1];
    assert(last@ == cv.last());
    let is_special = (last.len() == 1 && (last[0] == '/' || last[0] == '.')) || (last.len() == 2
        && last[0] == '.' && last[1] == '.');
    proof {
        reveal_strlit("/");
        reveal_strlit(".");
        reveal_strlit("..");
        if last@ == "/"@ || last@ == "."@ {
            assert(last@.len() == 1);
        }
        if last@ == ".."@ {
            assert(last@.len() == 2);
        }
        if last@.len() == 1 && last@[0] == '/' {
            assert(last@ =~= "/"@);
        }
        if last@.len() == 1 && last@[0] == '.' {
            assert(last@ =~= "."@);
        }
        if last@.len() == 2 && last@[0] == '.' && last@[1] == '.' {
            assert(last@ =~= ".."@);
        }
    }
    if is_special {
        return String::from_str("unknown");
    }
    string_from_chars(&stem(last))
}

// ---------------------------------------------------------------------------
// Dependencies from `use` items
/// The first identifier of a `use` tree; for a group, that of its first
/// member.
pub open spec fn spec_root_ident(t: UseTree) -> Option<Seq<char>>
    decreases t,
{
    match t {
        UseTree::Path(i, _) => Some(i@),
        UseTree::Name(i) => Some(i@),
        UseTree::Rename(i, _) => Some(i@),
        UseTree::Group(items) => if items@.len() > 0 {
            spec_root_ident(items@[0])
        } else {
            None
        },
        UseTree::Glob => None,
    }
}

/// The tree starts with `crate`, `self` or `super`.
pub open spec fn spec_is_crate_internal_use(t: UseTree) -> bool {
    match t {
        UseTree::Path(i, _) => i@ == "crate"@ || i@ == "self"@ || i@ == "super"@,
        _ => false,
    }
}

/// For `crate::module::...`, the module; else nothing.
pub open spec fn spec_first_crate_segment(t: UseTree) -> Option<Seq<char>> {
    match t {
        UseTree::Path(i, sub) => if i@ == "crate"@ {
            spec_root_ident(*sub)
        } else {
            None
        },
        _ => None,
    }
}

/// What a `use` tree depends on: the module of a `crate::module::...`
/// import; nothing for any other import, since only the modules of this crate
/// make up its dependency graph.
pub open spec fn use_dep(t: UseTree) -> Option<Seq<char>> {
    if spec_is_crate_internal_use(t) {
        spec_first_crate_segment(t)
    } else {
        None
    }
}

/// The dependencies of the top-level `use` items, in order, with repeats.
pub open spec fn dep_list(items: Seq<Node>) -> Seq<Seq<char>>
    decreases items.len(),
{
    if items.len() == 0 {
        Seq::empty()
    } else {
        let rest = dep_list(items.drop_last());
        match items.last().kind {
            NodeKind::ItemUse(t, _) => match use_dep(t) {
                Some(d) => rest.push(d),
                None => rest,
            },
            _ => rest,
        }
    }
}

/// The first identifier of a `use` tree.
pub fn extract_root_ident(tree: &UseTree) -> (r: Option<String>)
    ensures
        match r {
            Some(s) => spec_root_ident(*tree) == Some(s@),
            None => spec_root_ident(*tree) is None,
        },
    decreases tree,
{
    match tree {
        UseTree::Path(i, _) => Some(i.clone()),
        UseTree::Name(i) => Some(i.clone()),
        UseTree::Rename(i, _) => Some(i.clone()),
        UseTree::Group(items) => {
            if items.len() > 0 {
                proof {
                    assert(decreases_to!(*tree => items@[0]));
                }
                extract_root_ident(&items[0])
            } else {
                None
            }
        },
        UseTree::Glob => None,
    }
}

/// Whether the tree starts with `crate`, `self` or `super`.
pub fn is_crate_internal_use(tree: &UseTree) -> (r: bool)
    ensures
        r == spec_is_crate_internal_use(*tree),
{
    match tree {
        UseTree::Path(i, _) => str_eq(i.as_str(), "crate") || str_eq(i.as_str(), "self")
            || str_eq(i.as_str(), "super"),
        _ => false,
    }
}

/// For `crate::module::...`, the module.
pub fn extract_first_crate_segment(tree: &UseTree) -> (r: Option<String>)
    ensures
        match r {
            Some(s) => spec_first_crate_segment(*tree) == Some(s@),
            None => spec_first_crate_segment(*tree) is None,
        },
{
    match tree {
        UseTree::Path(i, sub) => {
            if str_eq(i.as_str(), "crate") {
                extract_root_ident(sub)
            } else {
                None
            }
        },
        _ => None,
    }
}

/// The distinct crate modules that the top-level `use` items import from, in
/// the order they first occur.
pub fn collect_crate_deps(items: &Vec<Node>) -> (r: Vec<String>)
    ensures
        string_views(r@) == dedup(dep_list(items@)),
{
    let mut deps: Vec<String> = Vec::new();
    let mut i: usize = 0;
    while i < items.len()
        invariant
            i <= items.len(),
            string_views(deps@) == dedup(dep_list(items@.take(i as int))),
        decreases items.len() - i,
    {
        assert(items@.take(i + 1).drop_last() =~= items@.take(i as int));
        let ghost all = dep_list(items@.take(i as int));
        match &items[i].kind {
            NodeKind::ItemUse(tree, _) => {
                let dep = if is_crate_internal_use(tree) {
                    extract_first_crate_segment(tree)
                } else {
                    None
                };
                match dep {
                    Some(d) => {
                        push_unique(&mut deps, d, Ghost(all));
                    },
                    None => {},
                }
            },
            _ => {},
        }
        i += 1;
    }
    assert(items@.take(i as int) =~= items@);
    deps
}

// ---------------------------------------------------------------------------
// Findings
/// A dependency counts towards the cycle risk when its name has no `_` or
/// starts with `crate`.
pub open spec fn is_internal_dep(d: Seq<char>) -> bool {
    !d.contains('_') || starts_with_seq(d, "crate"@)
}

/// The number of dependencies among `deps` that count towards the cycle risk.
pub open spec fn internal_count(deps: Seq<Seq<char>>) -> nat
    decreases deps.len(),
{
    if deps.len() == 0 {
        0
    } else {
        internal_count(deps.drop_last()) + if is_internal_dep(deps.last()) {
            1nat
        } else {
            0nat
        }
    }
}

proof fn lemma_internal_count_bound(deps: Seq<Seq<char>>)
    ensures
        internal_count(deps) <= deps.len(),
    decreases deps.len(),
{
    if deps.len() > 0 {
        lemma_internal_count_bound(deps.drop_last());
    }
}

pub open spec fn self_import_message(module: Seq<char>) -> Seq<char> {
    "Module `"@ + module + "` imports from itself (self-referential dependency)"@
}

pub open spec fn risk_message(module: Seq<char>, n: nat) -> Seq<char> {
    "Module `"@ + module + "` has "@ + decimal(n) + " internal dependencies — high cycle risk"@
}

/// The findings of a file, from the distinct crate modules it imports: none
/// when there are fewer than 2; else a critical finding when its own module
/// is among them, then a warning when more than 5 of them count towards the
/// cycle risk (`is_internal_dep`), reporting how many; both over the whole
/// file.
pub open spec fn spec_cyclic_dependency(file: SourceFile) -> Seq<SmellView> {
    let module = spec_file_to_module(file.path@);
    let deps = dedup(dep_list(file.items@));
    let n = internal_count(deps);
    if deps.len() < 2 {
        Seq::empty()
    } else {
        (if deps.contains(module) {
            seq![
                finding(
                    SmellCategory::Architecture,
                    "Cyclic Dependency"@,
                    Severity::Critical,
                    file.path@,
                    1,
                    file.line_count,
                    self_import_message(module),
                    "Remove the self-referential import and restructure the module."@,
                ),
            ]
        } else {
            Seq::empty()
        }) + (if n > 5 {
            seq![
                finding(
                    SmellCategory::Architecture,
                    "Cyclic Dependency Risk"@,
                    Severity::Warning,
                    file.path@,
                    1,
                    file.line_count,
                    risk_message(module, n),
                    "Reduce internal coupling. Consider extracting shared logic into a separate module."@,
                ),
            ]
        } else {
            Seq::empty()
        })
    }
}

impl CyclicDependencyDetector {
    pub fn name(&self) -> (r: &'static str)
        ensures
            r@ == "Cyclic Crate Dependency"@,
    {
        "Cyclic Crate Dependency"
    }

    /// The cyclic-dependency findings of `file`.
    pub fn detect(&self, file: &SourceFile) -> (r: Vec<Smell>)
        ensures
            smell_views(r@) == spec_cyclic_dependency(*file),
    {
        let mut smells: Vec<Smell> = Vec::new();
        let module_name = file_to_module(file.path.as_str());
        let deps = collect_crate_deps(&file.items);
        let ghost dv = string_views(deps@);
        if deps.len() < 2 {
            return smells;
        }
        if crate::text::contains_string(&deps, module_name.as_str()) {
            let mut msg = String::from_str("Module `");
            append_str(&mut msg, module_name.as_str());
            append_str(&mut msg, "` imports from itself (self-referential dependency)");
            smells.push(
                Smell::at_lines(
                    SmellCategory::Architecture,
                    "Cyclic Dependency",
                    Severity::Critical,
                    &file.path,
                    1,
                    file.line_count,
                    msg,
                    "Remove the self-referential import and restructure the module.",
                ),
            );
        }
        let mut internal: usize = 0;
        let mut i: usize = 0;
        while i < deps.len()
            invariant
                i <= deps.len(),
                dv == string_views(deps@),
                internal == internal_count(dv.take(i as int)),
            decreases deps.len() - i,
        {
            assert(dv.take(i + 1).drop_last() =~= dv.take(i as int));
            assert(dv[i as int] == deps@[i as int]@);
            proof {
                lemma_internal_count_bound(dv.take(i as int));
            }
            if !has_char(deps[i].as_str(), '_') || starts_with_str(deps[i].as_str(), "crate") {
                internal = internal + 1;
            }
            i += 1;
        }
        assert(dv.take(i as int) =~= dv);
        if internal > 5 {
            let mut msg = String::from_str("Module `");
            append_str(&mut msg, module_name.as_str());
            append_str(&mut msg, "` has ");
            append_str(&mut msg, decimal_string(internal).as_str());
            append_str(&mut msg, " internal dependencies — high cycle risk");
            smells.push(
                Smell::at_lines(
                    SmellCategory::Architecture,
                    "Cyclic Dependency Risk",
                    Severity::Warning,
                    &file.path,
                    1,
                    file.line_count,
                    msg,
                    "Reduce internal coupling. Consider extracting shared logic into a separate module.",
                ),
            );
        }
        assert(smell_views(smells@) =~= spec_cyclic_dependency(*file));
        smells
    }
}

} // verus!
