//! Async trait overhead: traits declared through the `#[async_trait]` macro,
//! which boxes every returned future.
use vstd::prelude::*;
use crate::detectors::policy::{has_test_cfg, spec_has_test_cfg, ActivePolicy, PolicyView};
use crate::domain::{finding, smell_views, Severity, Smell, SmellCategory, SmellView};
use crate::syntax::{path_last_ident, Attribute, Bound, Node, NodeKind, SourceFile};

verus! {

/// Detects traits declared with `#[async_trait]` that are not dyn ports.
pub struct AsyncTraitOverheadDetector;

/// The line of the first attribute whose path ends in `async_trait`.
pub open spec fn spec_async_trait_attr_line(attrs: Seq<Attribute>) -> Option<usize>
    decreases attrs.len(),
{
    if attrs.len() == 0 {
        None
    } else if path_last_ident(attrs[0].meta.path) == Some("async_trait"@) {
        Some(attrs[0].meta.path.segments@.last().line)
    } else {
        spec_async_trait_attr_line(attrs.drop_first())
    }
}

/// The line of the first `async_trait` attribute, if any.
pub fn async_trait_attr_line(attrs: &Vec<Attribute>) -> (r: Option<usize>)
    ensures
        r == spec_async_trait_attr_line(attrs@),
{
    let mut i: usize = 0;
    assert(attrs@.skip(0) =~= attrs@);
    while i < attrs.len()
        invariant
            i <= attrs.len(),
            spec_async_trait_attr_line(attrs@) == spec_async_trait_attr_line(attrs@.skip(i as int)),
        decreases attrs.len() - i,
    {
        assert(attrs@.skip(i as int)[0] == attrs@[i as int]);
        assert(attrs@.skip(i as int).drop_first() =~= attrs@.skip(i + 1));
        if attrs[i].meta.path.last_ident_is("async_trait") {
            let p = &attrs[i].meta.path;
            return Some(p.segments[p.segments.len() - 1].line);
        }
        i += 1;
    }
    assert(attrs@.skip(i as int).len() == 0);
    None
}

/// A supertrait bound ends in `Send` or `Sync`: the trait is likely meant as a
/// dyn port.
pub open spec fn spec_trait_is_likely_dyn_port(supertraits: Seq<Bound>) -> bool {
    exists|i: int|
        0 <= i < supertraits.len() && match #[trigger] supertraits[i] {
            Bound::Trait(p) => path_last_ident(p) == Some("Send"@) || path_last_ident(p) == Some(
                "Sync"@,
            ),
            Bound::Other => false,
        }
}

/// Whether a supertrait bound marks the trait as a likely dyn port.
pub fn trait_is_likely_dyn_port(supertraits: &Vec<Bound>) -> (r: bool)
    ensures
        r == spec_trait_is_likely_dyn_port(supertraits@),
{
    let mut i: usize = 0;
    while i < supertraits.len()
        invariant
            i <= supertraits.len(),
            forall|k: int|
                0 <= k < i ==> !match #[trigger] supertraits@[k] {
                    Bound::Trait(p) => path_last_ident(p) == Some("Send"@) || path_last_ident(p)
                        == Some("Sync"@),
                    Bound::Other => false,
                },
        decreases supertraits.len() - i,
    {
        let hit = match &supertraits[i] {
            Bound::Trait(p) => p.last_ident_is("Send") || p.last_ident_is("Sync"),
            Bound::Other => false,
        };
        if hit {
            return true;
        }
        i += 1;
    }
    false
}

/// The lines of the `async_trait` uses in the tree `n`, in visiting order:
/// test modules, test traits and test impls are skipped whole.
pub open spec fn async_in_node(policy: PolicyView, n: Node) -> Seq<usize>
    decreases n,
{
    match n.kind {
        NodeKind::ItemMod(attrs) => if spec_has_test_cfg(policy, attrs@) {
            Seq::empty()
        } else {
            async_in_nodes(policy, n.children@)
        },
        NodeKind::ItemTrait(attrs, sups) => if spec_has_test_cfg(policy, attrs@) {
            Seq::empty()
        } else {
            (match spec_async_trait_attr_line(attrs@) {
                Some(line) => if !spec_trait_is_likely_dyn_port(sups@) {
                    seq![line]
                } else {
                    Seq::empty()
                },
                None => Seq::empty(),
            }) + async_in_nodes(policy, n.children@)
        },
        NodeKind::ItemImpl(h) => if spec_has_test_cfg(policy, h.attrs@) {
            Seq::empty()
        } else {
            async_in_nodes(policy, n.children@)
        },
        NodeKind::ItemFn(f) => async_in_nodes(policy, n.children@) + async_in_nodes(policy, f.body@),
        NodeKind::ImplFn(f) => async_in_nodes(policy, n.children@) + async_in_nodes(policy, f.body@),
        _ => async_in_nodes(policy, n.children@),
    }
}

/// The `async_trait` lines in the trees `s`, in order.
pub open spec fn async_in_nodes(policy: PolicyView, s: Seq<Node>) -> Seq<usize>
    decreases s,
{
    if s.len() == 0 {
        Seq::empty()
    } else {
        async_in_nodes(policy, s.drop_last()) + async_in_node(policy, s.last())
    }
}

/// Collects the lines of `async_trait` uses.
pub struct MacroAttributeVisitor {
    pub violations: Vec<usize>,
}

impl MacroAttributeVisitor {
    /// Visits the tree `n`.
    pub fn visit_node(&mut self, policy: &ActivePolicy, n: &Node)
        ensures
            final(self).violations@ == old(self).violations@ + async_in_node(policy@, *n),
        decreases n,
    {
        let ghost start = self.violations@;
        match &n.kind {
            NodeKind::ItemMod(attrs) => {
                if has_test_cfg(policy, attrs) {
                    assert(self.violations@ =~= start + async_in_node(policy@, *n));
                    return ;
                }
                self.visit_nodes(policy, &n.children);
            },
            NodeKind::ItemTrait(attrs, sups) => {
                if has_test_cfg(policy, attrs) {
                    assert(self.violations@ =~= start + async_in_node(policy@, *n));
                    return ;
                }
                match async_trait_attr_line(attrs) {
                    Some(line) => {
                        if !trait_is_likely_dyn_port(sups) {
                            self.violations.push(line);
                        }
                    },
                    None => {},
                }
                self.visit_nodes(policy, &n.children);
            },
            NodeKind::ItemImpl(h) => {
                if has_test_cfg(policy, &h.attrs) {
                    assert(self.violations@ =~= start + async_in_node(policy@, *n));
                    return ;
                }
                self.visit_nodes(policy, &n.children);
            },
            NodeKind::ItemFn(f) => {
                self.visit_nodes(policy, &n.children);
                self.visit_nodes(policy, &f.body);
            },
            NodeKind::ImplFn(f) => {
                self.visit_nodes(policy, &n.children);
                self.visit_nodes(policy, &f.body);
            },
            _ => {
                self.visit_nodes(policy, &n.children);
            },
        }
        assert(self.violations@ =~= start + async_in_node(policy@, *n));
    }

    /// Visits the trees `nodes`, in order.
    pub fn visit_nodes(&mut self, policy: &ActivePolicy, nodes: &Vec<Node>)
        ensures
            final(self).violations@ == old(self).violations@ + async_in_nodes(policy@, nodes@),
        decreases nodes,
    {
        let ghost start = self.violations@;
        let mut i: usize = 0;
        while i < nodes.len()
            invariant
                i <= nodes.len(),
                self.violations@ == start + async_in_nodes(policy@, nodes@.take(i as int)),
            decreases nodes.len() - i,
        {
            assert(nodes@.take(i + 1).drop_last() =~= nodes@.take(i as int));
            proof {
                assert(decreases_to!(nodes => nodes@[i as int]));
            }
            self.visit_node(policy, &nodes[i]);
            assert(start + async_in_nodes(policy@, nodes@.take(i + 1)) =~= start + async_in_nodes(
                policy@,
                nodes@.take(i as int),
            ) + async_in_node(policy@, nodes@[i as int]));
            i += 1;
        }
        assert(nodes@.take(i as int) =~= nodes@);
    }
}

/// The findings of a file: one per `async_trait` use, in visiting order.
pub open spec fn spec_async_trait_overhead(policy: PolicyView, file: SourceFile) -> Seq<SmellView> {
    async_in_nodes(policy, file.items@).map_values(
        |line: usize|
            finding(
                SmellCategory::Performance,
                "Async Trait Overhead"@,
                Severity::Info,
                file.path@,
                line,
                line,
                "Usage of `#[async_trait]` macro incurs unnecessary Future boxing overhead"@,
                "Migrate to native async fn in traits (stabilized in Rust 1.75) if possible."@,
            ),
    )
}

impl AsyncTraitOverheadDetector {
    pub fn name(&self) -> (r: &'static str)
        ensures
            r@ == "Async Trait Overhead"@,
    {
        "Async Trait Overhead"
    }

    /// The async-trait findings of `file` under the policy in force.
    pub fn detect(&self, file: &SourceFile, policy: &ActivePolicy) -> (r: Vec<Smell>)
        ensures
            smell_views(r@) == spec_async_trait_overhead(policy@, *file),
    {
        let mut visitor = MacroAttributeVisitor { violations: Vec::new() };
        assert(visitor.violations@ =~= Seq::<usize>::empty());
        visitor.visit_nodes(policy, &file.items);
        let ghost lines = visitor.violations@;
        let mut smells: Vec<Smell> = Vec::new();
        let mut k: usize = 0;
        while k < visitor.violations.len()
            invariant
                k <= visitor.violations.len(),
                lines == visitor.violations@,
                smell_views(smells@) == spec_async_trait_overhead(policy@, *file).take(k as int),
            decreases visitor.violations.len() - k,
        {
            let line = visitor.violations[k];
            let ghost before = smells@;
            smells.push(
                Smell::at_lines(
                    SmellCategory::Performance,
                    "Async Trait Overhead",
                    Severity::Info,
                    &file.path,
                    line,
                    line,
                    String::from_str(
                        "Usage of `#[async_trait]` macro incurs unnecessary Future boxing overhead",
                    ),
                    "Migrate to native async fn in traits (stabilized in Rust 1.75) if possible.",
                ),
            );
            assert(smell_views(smells@) =~= spec_async_trait_overhead(policy@, *file).take(k + 1));
            k += 1;
        }
        assert(spec_async_trait_overhead(policy@, *file).take(k as int) =~= spec_async_trait_overhead(
            policy@,
            *file,
        ));
        smells
    }
}

} // verus!
