//! Counting syntax nodes: which nodes a count takes in, and where it stops
//! descending.
use vstd::prelude::*;
use crate::detectors::policy::{spec_has_test_cfg, PolicyView};
use crate::syntax::{node_size, nodes_size, path_get_ident, path_last_ident, ExprShape, Node, NodeKind};

verus! {

/// What a count counts.
pub enum Query {
    /// Method calls whose receiver is the plain identifier given.
    MethodCallsOn(Seq<char>),
    /// Calls of a path whose last segment is the name given, outside test
    /// code that the policy skips.
    FunctionCalls(Seq<char>, PolicyView),
    /// Method calls of the name given, outside test code that the policy skips.
    MethodCalls(Seq<char>, PolicyView),
    /// Control flow, closures, async, unsafe, macros, and nested items.
    Complex,
    /// Calls of `spawn`, `spawn_local` or `spawn_blocking`: a path call whose
    /// last segment, or a method call whose method, has one of these names.
    SpawnCalls,
}

/// The name of a function that spawns a task.
pub open spec fn is_spawn_name(name: Seq<char>) -> bool {
    name == "spawn"@ || name == "spawn_local"@ || name == "spawn_blocking"@
}

/// The node is taken in by the count.
pub open spec fn hits(q: Query, k: NodeKind) -> bool {
    match q {
        Query::MethodCallsOn(name) => match k {
            NodeKind::ExprMethodCall(_, _, ExprShape::Path(p)) => path_get_ident(p) == Some(name),
            _ => false,
        },
        Query::FunctionCalls(name, _) => match k {
            NodeKind::ExprCall(ExprShape::Path(p)) => path_last_ident(p) == Some(name),
            _ => false,
        },
        Query::MethodCalls(name, _) => match k {
            NodeKind::ExprMethodCall(m, _, _) => m@ == name,
            _ => false,
        },
        Query::Complex => match k {
            NodeKind::ItemUse(..) | NodeKind::ItemMod(..) | NodeKind::ItemFn(..)
            | NodeKind::ItemImpl(..) | NodeKind::ItemTrait(..) | NodeKind::ItemStruct(..)
            | NodeKind::ItemOther | NodeKind::ExprIf | NodeKind::ExprMatch
            | NodeKind::ExprForLoop | NodeKind::ExprWhile | NodeKind::ExprLoop
            | NodeKind::ExprClosure | NodeKind::ExprAsync | NodeKind::ExprUnsafe
            | NodeKind::ExprAwait | NodeKind::ExprMacro | NodeKind::ExprBreak
            | NodeKind::ExprContinue => true,
            _ => false,
        },
        Query::SpawnCalls => match k {
            NodeKind::ExprCall(ExprShape::Path(p)) => match path_last_ident(p) {
                Some(name) => is_spawn_name(name),
                None => false,
            },
            NodeKind::ExprMethodCall(m, _, _) => is_spawn_name(m@),
            _ => false,
        },
    }
}

/// A module, function or method that the policy marks as test code.
pub open spec fn is_skipped_test_code(policy: PolicyView, k: NodeKind) -> bool {
    match k {
        NodeKind::ItemMod(attrs) => spec_has_test_cfg(policy, attrs@),
        NodeKind::ItemFn(f) => spec_has_test_cfg(policy, f.attrs@),
        NodeKind::ImplFn(f) => spec_has_test_cfg(policy, f.attrs@),
        _ => false,
    }
}

/// The count goes on into what the node contains.
pub open spec fn descends(q: Query, k: NodeKind) -> bool {
    match q {
        Query::MethodCallsOn(_) => true,
        Query::SpawnCalls => true,
        Query::FunctionCalls(_, policy) => !is_skipped_test_code(policy, k),
        Query::MethodCalls(_, policy) => !is_skipped_test_code(policy, k),
        Query::Complex => !(match k {
            NodeKind::ItemUse(..) | NodeKind::ItemMod(..) | NodeKind::ItemFn(..)
            | NodeKind::ItemImpl(..) | NodeKind::ItemTrait(..) | NodeKind::ItemStruct(..)
            | NodeKind::ItemOther => true,
            _ => false,
        }),
    }
}

/// The number of nodes of the tree `n` taken in by `q`.
pub open spec fn count_node(n: Node, q: Query) -> nat
    decreases n,
{
    (if hits(q, n.kind) {
        1nat
    } else {
        0nat
    }) + if descends(q, n.kind) {
        count_nodes(n.children@, q) + match n.kind {
            NodeKind::ItemFn(f) => count_nodes(f.body@, q),
            NodeKind::ImplFn(f) => count_nodes(f.body@, q),
            _ => 0,
        }
    } else {
        0
    }
}

/// The number of nodes of the trees `s` taken in by `q`.
pub open spec fn count_nodes(s: Seq<Node>, q: Query) -> nat
    decreases s,
{
    if s.len() == 0 {
        0
    } else {
        count_nodes(s.drop_last(), q) + count_node(s.last(), q)
    }
}

/// A count never exceeds the number of nodes.
pub proof fn lemma_count_node_bound(n: Node, q: Query)
    ensures
        count_node(n, q) <= node_size(n),
    decreases n,
{
    lemma_count_nodes_bound(n.children@, q);
    match n.kind {
        NodeKind::ItemFn(f) => lemma_count_nodes_bound(f.body@, q),
        NodeKind::ImplFn(f) => lemma_count_nodes_bound(f.body@, q),
        _ => {},
    }
}

/// A count over trees never exceeds their number of nodes.
pub proof fn lemma_count_nodes_bound(s: Seq<Node>, q: Query)
    ensures
        count_nodes(s, q) <= nodes_size(s),
    decreases s,
{
    if s.len() > 0 {
        lemma_count_nodes_bound(s.drop_last(), q);
        lemma_count_node_bound(s.last(), q);
    }
}

} // verus!
