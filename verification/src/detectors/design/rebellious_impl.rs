//! Rebellious impls: inherent impls whose methods fall outside the
//! responsibility the type's name announces.
use vstd::prelude::*;
use crate::domain::{finding, smell_views, Severity, Smell, SmellCategory, SmellView};
use crate::syntax::{path_last_ident, Node, NodeKind, SourceFile, TypeShape};
use crate::text::{
    append_str, contains_seq, contains_str, join, join_strings, string_views, to_lowercase,
    lowercase,
};

verus! {

/// Detects inherent impls with methods outside the type's responsibility.
pub struct RebelliousImplDetector;

/// The lowercased method name mentions output: print, render, display or format.
pub open spec fn is_output_method(m: Seq<char>) -> bool {
    let l = lowercase(m);
    contains_seq(l, "print"@) || contains_seq(l, "render"@) || contains_seq(l, "display"@)
        || contains_seq(l, "format"@)
}

/// The lowercased method name mentions persistence: save, delete, insert or update.
pub open spec fn is_persistence_method(m: Seq<char>) -> bool {
    let l = lowercase(m);
    contains_seq(l, "save"@) || contains_seq(l, "delete"@) || contains_seq(l, "insert"@)
        || contains_seq(l, "update"@)
}

/// Whether a type named `ty` (already lowercased) with methods `methods`
/// rebels against its name: a repository, database or store with an output
/// method; else a validator or checker with a persistence method; else a
/// handler or controller with more than 10 methods.
pub open spec fn spec_detect_rebellion(ty: Seq<char>, methods: Seq<Seq<char>>) -> bool {
    if contains_seq(ty, "repo"@) || contains_seq(ty, "database"@) || contains_seq(ty, "store"@) {
        exists|i: int| 0 <= i < methods.len() && is_output_method(#[trigger] methods[i])
    } else if contains_seq(ty, "validator"@) || contains_seq(ty, "checker"@) {
        exists|i: int| 0 <= i < methods.len() && is_persistence_method(#[trigger] methods[i])
    } else if contains_seq(ty, "handler"@) || contains_seq(ty, "controller"@) {
        methods.len() > 10
    } else {
        false
    }
}

fn is_output_method_exec(m: &String) -> (r: bool)
    ensures
        r == is_output_method(m@),
{
    let l = to_lowercase(m.as_str());
    let l = l.as_str();
    contains_str(l, "print") || contains_str(l, "render") || contains_str(l, "display")
        || contains_str(l, "format")
}

fn is_persistence_method_exec(m: &String) -> (r: bool)
    ensures
        r == is_persistence_method(m@),
{
    let l = to_lowercase(m.as_str());
    let l = l.as_str();
    contains_str(l, "save") || contains_str(l, "delete") || contains_str(l, "insert")
        || contains_str(l, "update")
}

/// Whether the type named `ty_name` (lowercased) rebels with these methods.
pub fn detect_rebellion(ty_name: &str, methods: &[String]) -> (r: bool)
    ensures
        r == spec_detect_rebellion(ty_name@, string_views(methods@)),
{
    let ghost mv = string_views(methods@);
    if contains_str(ty_name, "repo") || contains_str(ty_name, "database") || contains_str(
        ty_name,
        "store",
    ) {
        let mut i: usize = 0;
        while i < methods.len()
            invariant
                i <= methods.len(),
                mv == string_views(methods@),
                forall|k: int| 0 <= k < i ==> !is_output_method(mv[k]),
            decreases methods.len() - i,
        {
            assert(mv[i as int] == methods@[i as int]@);
            if is_output_method_exec(&methods[i]) {
                assert(is_output_method(mv[i as int]));
                return true;
            }
            i += 1;
        }
        return false;
    }
    if contains_str(ty_name, "validator") || contains_str(ty_name, "checker") {
        let mut i: usize = 0;
        while i < methods.len()
            invariant
                i <= methods.len(),
                mv == string_views(methods@),
                forall|k: int| 0 <= k < i ==> !is_persistence_method(mv[k]),
            decreases methods.len() - i,
        {
            assert(mv[i as int] == methods@[i as int]@);
            if is_persistence_method_exec(&methods[i]) {
                assert(is_persistence_method(mv[i as int]));
                return true;
            }
            i += 1;
        }
        return false;
    }
    if contains_str(ty_name, "handler") || contains_str(ty_name, "controller") {
        return methods.len() > 10;
    }
    false
}

/// The names of the methods among the nodes, in order.
pub open spec fn method_names(nodes: Seq<Node>) -> Seq<Seq<char>>
    decreases nodes.len(),
{
    if nodes.len() == 0 {
        Seq::empty()
    } else {
        let rest = method_names(nodes.drop_last());
        match nodes.last().kind {
            NodeKind::ImplFn(f) => rest.push(f.sig.ident@),
            _ => rest,
        }
    }
}

pub open spec fn rebellion_message(ty: Seq<char>, methods: Seq<Seq<char>>) -> Seq<char> {
    "Impl for `"@ + ty + "` contains methods that seem outside its responsibility: "@ + join(
        methods,
        ", "@,
    )
}

/// The finding for one top-level item: an inherent impl for a path type whose
/// lowercased last identifier rebels with the impl's methods.
pub open spec fn rebellion_findings(path: Seq<char>, n: Node) -> Seq<SmellView> {
    match n.kind {
        NodeKind::ItemImpl(h) => match h.self_ty {
            TypeShape::Path(p) => if h.trait_path is None && path_last_ident(p) is Some {
                let ty = path_last_ident(p).unwrap();
                let methods = method_names(n.children@);
                if spec_detect_rebellion(lowercase(ty), methods) {
                    seq![
                        finding(
                            SmellCategory::Design,
                            "Rebellious Impl"@,
                            Severity::Info,
                            path,
                            h.self_ty_line,
                            h.self_ty_line,
                            rebellion_message(ty, methods),
                            "Consider extracting unrelated methods into separate types or modules."@,
                        ),
                    ]
                } else {
                    Seq::empty()
                }
            } else {
                Seq::empty()
            },
            _ => Seq::empty(),
        },
        _ => Seq::empty(),
    }
}

/// The findings for the top-level items, in order.
pub open spec fn spec_rebellious_impl(path: Seq<char>, items: Seq<Node>) -> Seq<SmellView>
    decreases items.len(),
{
    if items.len() == 0 {
        Seq::empty()
    } else {
        spec_rebellious_impl(path, items.drop_last()) + rebellion_findings(path, items.last())
    }
}

fn method_name_list(nodes: &Vec<Node>) -> (r: Vec<String>)
    ensures
        string_views(r@) == method_names(nodes@),
{
    let mut r: Vec<String> = Vec::new();
    let mut i: usize = 0;
    while i < nodes.len()
        invariant
            i <= nodes.len(),
            string_views(r@) == method_names(nodes@.take(i as int)),
        decreases nodes.len() - i,
    {
        assert(nodes@.take(i + 1).drop_last() =~= nodes@.take(i as int));
        let ghost before = r@;
        match &nodes[i].kind {
            NodeKind::ImplFn(f) => {
                r.push(f.sig.ident.clone());
                assert(string_views(r@) =~= string_views(before).push(f.sig.ident@));
            },
            _ => {},
        }
        i += 1;
    }
    assert(nodes@.take(i as int) =~= nodes@);
    r
}

fn rebellion_of_item(path: &String, n: &Node) -> (r: Option<Smell>)
    ensures
        match r {
            Some(s) => rebellion_findings(path@, *n) == seq![s@],
            None => rebellion_findings(path@, *n) == Seq::<SmellView>::empty(),
        },
{
    match &n.kind {
        NodeKind::ItemImpl(h) => match &h.self_ty {
            TypeShape::Path(p) => {
                if h.trait_path.is_some() {
                    return None;
                }
                let seg = match p.last_segment() {
                    Some(seg) => seg,
                    None => {
                        return None;
                    },
                };
                let ty = to_lowercase(seg.ident.as_str());
                let methods = method_name_list(&n.children);
                if !detect_rebellion(ty.as_str(), methods.as_slice()) {
                    return None;
                }
                let mut msg = String::from_str("Impl for `");
                append_str(&mut msg, seg.ident.as_str());
                append_str(&mut msg, "` contains methods that seem outside its responsibility: ");
                append_str(&mut msg, join_strings(&methods, ", ").as_str());
                assert(msg@ =~= rebellion_message(seg.ident@, string_views(methods@)));
                Some(
                    Smell::at_lines(
                        SmellCategory::Design,
                        "Rebellious Impl",
                        Severity::Info,
                        path,
                        h.self_ty_line,
                        h.self_ty_line,
                        msg,
                        "Consider extracting unrelated methods into separate types or modules.",
                    ),
                )
            },
            _ => None,
        },
        _ => None,
    }
}

impl RebelliousImplDetector {
    pub fn name(&self) -> (r: &'static str)
        ensures
            r@ == "Rebellious Impl"@,
    {
        "Rebellious Impl"
    }

    /// The rebellious-impl findings of `file`, one per rebellious top-level
    /// inherent impl, in the order of the items.
    pub fn detect(&self, file: &SourceFile) -> (r: Vec<Smell>)
        ensures
            smell_views(r@) == spec_rebellious_impl(file.path@, file.items@),
    {
        let mut smells: Vec<Smell> = Vec::new();
        let mut i: usize = 0;
        while i < file.items.len()
            invariant
                i <= file.items.len(),
                smell_views(smells@) == spec_rebellious_impl(file.path@, file.items@.take(i as int)),
            decreases file.items.len() - i,
        {
            assert(file.items@.take(i + 1).drop_last() =~= file.items@.take(i as int));
            let ghost before = smells@;
            match rebellion_of_item(&file.path, &file.items[i]) {
                Some(s) => {
                    smells.push(s);
                },
                None => {},
            }
            assert(smell_views(smells@) =~= smell_views(before) + rebellion_findings(
                file.path@,
                file.items@[i as int],
            ));
            i += 1;
        }
        assert(file.items@.take(i as int) =~= file.items@);
        smells
    }
}

/// The lowercased method name mentions print, render, display or format.
pub open spec fn mentions_output(m: Seq<char>) -> bool {
    contains_seq(lowercase(m), "print"@) || contains_seq(lowercase(m), "render"@)
        || contains_seq(lowercase(m), "display"@) || contains_seq(lowercase(m), "format"@)
}

/// The lowercased method name mentions save, delete, insert or update.
pub open spec fn mentions_persistence(m: Seq<char>) -> bool {
    contains_seq(lowercase(m), "save"@) || contains_seq(lowercase(m), "delete"@)
        || contains_seq(lowercase(m), "insert"@) || contains_seq(lowercase(m), "update"@)
}

/// A data-access type (its lowercased name mentions repo, database or store)
/// rebels exactly when one of its methods mentions output.
pub proof fn law_data_access_types_rebel_on_output(ty: Seq<char>, methods: Seq<Seq<char>>)
    requires
        contains_seq(ty, "repo"@) || contains_seq(ty, "database"@) || contains_seq(ty, "store"@),
    ensures
        spec_detect_rebellion(ty, methods) <==> exists|i: int|
            0 <= i < methods.len() && mentions_output(#[trigger] methods[i]),
{
    assert forall|i: int| 0 <= i < methods.len() implies (mentions_output(#[trigger] methods[i])
        <==> is_output_method(methods[i])) by {}
}

/// A checking type (validator or checker) that is not a data-access type
/// rebels exactly when one of its methods mentions persistence.
pub proof fn law_checking_types_rebel_on_persistence(ty: Seq<char>, methods: Seq<Seq<char>>)
    requires
        !(contains_seq(ty, "repo"@) || contains_seq(ty, "database"@) || contains_seq(
            ty,
            "store"@,
        )),
        contains_seq(ty, "validator"@) || contains_seq(ty, "checker"@),
    ensures
        spec_detect_rebellion(ty, methods) <==> exists|i: int|
            0 <= i < methods.len() && mentions_persistence(#[trigger] methods[i]),
{
    assert forall|i: int| 0 <= i < methods.len() implies (mentions_persistence(
        #[trigger] methods[i],
    ) <==> is_persistence_method(methods[i])) by {}
}

/// A handler or controller (neither data-access nor checking) rebels exactly
/// when it has more than 10 methods; a type of none of these kinds never does.
pub proof fn law_other_types_rebel_on_size(ty: Seq<char>, methods: Seq<Seq<char>>)
    requires
        !(contains_seq(ty, "repo"@) || contains_seq(ty, "database"@) || contains_seq(
            ty,
            "store"@,
        )),
        !(contains_seq(ty, "validator"@) || contains_seq(ty, "checker"@)),
    ensures
        spec_detect_rebellion(ty, methods) <==> (contains_seq(ty, "handler"@) || contains_seq(
            ty,
            "controller"@,
        )) && methods.len() > 10,
{
}

} // verus!
