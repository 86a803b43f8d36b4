//! Missing `Send` bounds: generic async functions that spawn tasks without
//! any `Send` bound on their type parameters.
use vstd::prelude::*;
use crate::domain::{finding, smell_views, Severity, Smell, SmellCategory, SmellView};
use crate::detectors::implementation::inline_candidate::lemma_count_prefix;
use crate::detectors::walk::{count_node, count_nodes, is_spawn_name, Query};
use crate::syntax::{
    path_last_ident, Bound, ExprShape, FnDecl, GenericParam, Node, NodeKind, SourceFile,
};
use crate::text::{append_str, str_eq};

verus! {

/// Detects generic async functions that spawn without a `Send` bound.
pub struct MissingSendBoundDetector;

/// The body calls `spawn`, `spawn_local` or `spawn_blocking`, anywhere in
/// it, closures and nested items included.
pub open spec fn spec_contains_spawn_call(f: FnDecl) -> bool {
    count_nodes(f.body@, Query::SpawnCalls) > 0
}

fn is_spawn_name_exec(name: &String) -> (r: bool)
    ensures
        r == is_spawn_name(name@),
{
    str_eq(name.as_str(), "spawn") || str_eq(name.as_str(), "spawn_local") || str_eq(
        name.as_str(),
        "spawn_blocking",
    )
}

fn has_spawn_node(n: &Node) -> (r: bool)
    ensures
        r == (count_node(*n, Query::SpawnCalls) > 0),
    decreases n,
{
    let hit = match &n.kind {
        NodeKind::ExprCall(ExprShape::Path(p)) => match p.last_segment() {
            Some(seg) => is_spawn_name_exec(&seg.ident),
            None => false,
        },
        NodeKind::ExprMethodCall(m, _, _) => is_spawn_name_exec(m),
        _ => false,
    };
    if hit {
        return true;
    }
    if has_spawn_list(&n.children) {
        return true;
    }
    match &n.kind {
        NodeKind::ItemFn(f) => has_spawn_list(&f.body),
        NodeKind::ImplFn(f) => has_spawn_list(&f.body),
        _ => false,
    }
}

fn has_spawn_list(nodes: &Vec<Node>) -> (r: bool)
    ensures
        r == (count_nodes(nodes@, Query::SpawnCalls) > 0),
    decreases nodes,
{
    let mut i: usize = 0;
    while i < nodes.len()
        invariant
            i <= nodes.len(),
            count_nodes(nodes@.take(i as int), Query::SpawnCalls) == 0,
        decreases nodes.len() - i,
    {
        assert(nodes@.take(i + 1).drop_last() =~= nodes@.take(i as int));
        proof {
            assert(decreases_to!(nodes => nodes@[i as int]));
        }
        if has_spawn_node(&nodes[i]) {
            proof {
                lemma_count_prefix(nodes@, i + 1, Query::SpawnCalls);
            }
            return true;
        }
        i += 1;
    }
    assert(nodes@.take(i as int) =~= nodes@);
    false
}

/// Whether the function's body calls a spawning function.
pub fn contains_spawn_call(func: &FnDecl) -> (r: bool)
    ensures
        r == spec_contains_spawn_call(*func),
{
    has_spawn_list(&func.body)
}

/// The bound is a trait bound whose last identifier is `Send`.
pub open spec fn is_send_bound(b: Bound) -> bool {
    match b {
        Bound::Trait(p) => path_last_ident(p) == Some("Send"@),
        Bound::Other => false,
    }
}

/// The parameter is a type parameter with a `Send` bound.
pub open spec fn has_send(g: GenericParam) -> bool {
    match g {
        GenericParam::Type(bounds) => exists|j: int|
            0 <= j < bounds@.len() && is_send_bound(#[trigger] bounds@[j]),
        _ => false,
    }
}

/// One of the generic parameters has a `Send` bound.
pub open spec fn spec_has_send_bound(generics: Seq<GenericParam>) -> bool {
    exists|i: int| 0 <= i < generics.len() && has_send(#[trigger] generics[i])
}

pub open spec fn send_message(name: Seq<char>) -> Seq<char> {
    "Generic async function `"@ + name
        + "` uses spawn but has no `Send` bound on generic params"@
}

/// The finding for one top-level item: a generic async function whose body
/// spawns and none of whose generic parameters has a `Send` bound.
pub open spec fn send_findings(path: Seq<char>, n: Node) -> Seq<SmellView> {
    match n.kind {
        NodeKind::ItemFn(f) => if f.sig.is_async && f.sig.generics@.len() > 0
            && spec_contains_spawn_call(f)
            && !spec_has_send_bound(f.sig.generics@) {
            seq![
                finding(
                    SmellCategory::Concurrency,
                    "Missing Send Bound"@,
                    Severity::Warning,
                    path,
                    f.sig.fn_line,
                    f.sig.fn_line,
                    send_message(f.sig.ident@),
                    "Add `T: Send` bounds to generic parameters used in spawned tasks."@,
                ),
            ]
        } else {
            Seq::empty()
        },
        _ => Seq::empty(),
    }
}

/// The findings for the top-level items, in order.
pub open spec fn spec_missing_send_bound(path: Seq<char>, items: Seq<Node>) -> Seq<SmellView>
    decreases items.len(),
{
    if items.len() == 0 {
        Seq::empty()
    } else {
        spec_missing_send_bound(path, items.drop_last()) + send_findings(path, items.last())
    }
}

fn has_send_exec(g: &GenericParam) -> (r: bool)
    ensures
        r == has_send(*g),
{
    match g {
        GenericParam::Type(bounds) => {
            let mut j: usize = 0;
            while j < bounds.len()
                invariant
                    j <= bounds.len(),
                    forall|k: int| 0 <= k < j ==> !is_send_bound(#[trigger] bounds@[k]),
                decreases bounds.len() - j,
            {
                let hit = match &bounds[j] {
                    Bound::Trait(p) => p.last_ident_is("Send"),
                    Bound::Other => false,
                };
                if hit {
                    assert(is_send_bound(bounds@[j as int]));
                    return true;
                }
                j += 1;
            }
            false
        },
        _ => false,
    }
}

fn has_send_bound(generics: &Vec<GenericParam>) -> (r: bool)
    ensures
        r == spec_has_send_bound(generics@),
{
    let mut i: usize = 0;
    while i < generics.len()
        invariant
            i <= generics.len(),
            forall|k: int| 0 <= k < i ==> !has_send(#[trigger] generics@[k]),
        decreases generics.len() - i,
    {
        if has_send_exec(&generics[i]) {
            assert(has_send(generics@[i as int]));
            return true;
        }
        i += 1;
    }
    false
}

fn send_of_item(path: &String, n: &Node) -> (r: Option<Smell>)
    ensures
        match r {
            Some(s) => send_findings(path@, *n) == seq![s@],
            None => send_findings(path@, *n) == Seq::<SmellView>::empty(),
        },
{
    match &n.kind {
        NodeKind::ItemFn(f) => {
            if !f.sig.is_async || f.sig.generics.len() == 0 {
                return None;
            }
            if !contains_spawn_call(f) || has_send_bound(&f.sig.generics) {
                return None;
            }
            let mut msg = String::from_str("Generic async function `");
            append_str(&mut msg, f.sig.ident.as_str());
            append_str(&mut msg, "` uses spawn but has no `Send` bound on generic params");
            assert(msg@ =~= send_message(f.sig.ident@));
            Some(
                Smell::at_lines(
                    SmellCategory::Concurrency,
                    "Missing Send Bound",
                    Severity::Warning,
                    path,
                    f.sig.fn_line,
                    f.sig.fn_line,
                    msg,
                    "Add `T: Send` bounds to generic parameters used in spawned tasks.",
                ),
            )
        },
        _ => None,
    }
}

impl MissingSendBoundDetector {
    pub fn name(&self) -> (r: &'static str)
        ensures
            r@ == "Missing Send Bound"@,
    {
        "Missing Send Bound"
    }

    /// The missing-`Send` findings of `file`, one per offending top-level
    /// function, in the order of the items.
    pub fn detect(&self, file: &SourceFile) -> (r: Vec<Smell>)
        ensures
            smell_views(r@) == spec_missing_send_bound(file.path@, file.items@),
    {
        let mut smells: Vec<Smell> = Vec::new();
        let mut i: usize = 0;
        while i < file.items.len()
            invariant
                i <= file.items.len(),
                smell_views(smells@) == spec_missing_send_bound(
                    file.path@,
                    file.items@.take(i as int),
                ),
            decreases file.items.len() - i,
        {
            assert(file.items@.take(i + 1).drop_last() =~= file.items@.take(i as int));
            let ghost before = smells@;
            match send_of_item(&file.path, &file.items[i]) {
                Some(s) => {
                    smells.push(s);
                },
                None => {},
            }
            assert(smell_views(smells@) =~= smell_views(before) + send_findings(
                file.path@,
                file.items@[i as int],
            ));
            i += 1;
        }
        assert(file.items@.take(i as int) =~= file.items@);
        smells
    }
}

} // verus!
