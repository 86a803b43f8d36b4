//! Unstable dependencies: files whose imports lean on internal, unstable or
//! experimental paths.
use vstd::prelude::*;
use crate::binary64::{
    greater, greater_exec, point_four, round_whole, round_whole_exec, share, share_exec,
    times_hundred, times_hundred_exec, Double,
};
use crate::domain::{finding, smell_views, Severity, Smell, SmellCategory, SmellView};
use crate::syntax::{is_item, Node, NodeKind, SourceFile, UseTree};
use crate::text::{
    append_str, contains_seq, contains_str, decimal, decimal_string, decimal_string_wide, join,
    join_strings,
    string_views, to_lowercase, lowercase,
};

verus! {

/// Detects files where more than 40% of the items are imports of unstable paths.
pub struct UnstableDependencyDetector;

/// The text of a `use` tree: `a::b`, `a as b`, `*`, `{a, b}`.
pub open spec fn use_tree_text(t: UseTree) -> Seq<char>
    decreases t,
{
    match t {
        UseTree::Path(i, sub) => i@ + "::"@ + use_tree_text(*sub),
        UseTree::Name(i) => i@,
        UseTree::Rename(i, r) => i@ + " as "@ + r@,
        UseTree::Glob => "*"@,
        UseTree::Group(items) => "{"@ + join(use_trees_texts(items@), ", "@) + "}"@,
    }
}

/// The texts of the members of a group.
pub open spec fn use_trees_texts(items: Seq<UseTree>) -> Seq<Seq<char>>
    decreases items,
{
    if items.len() == 0 {
        Seq::empty()
    } else {
        use_trees_texts(items.drop_last()).push(use_tree_text(items.last()))
    }
}

/// The text of a `use` tree.
pub fn use_tree_to_string(tree: &UseTree) -> (r: String)
    ensures
        r@ == use_tree_text(*tree),
    decreases tree,
{
    match tree {
        UseTree::Path(i, sub) => {
            let mut s = i.clone();
            append_str(&mut s, "::");
            append_str(&mut s, use_tree_to_string(sub).as_str());
            s
        },
        UseTree::Name(i) => i.clone(),
        UseTree::Rename(i, r) => {
            let mut s = i.clone();
            append_str(&mut s, " as ");
            append_str(&mut s, r.as_str());
            s
        },
        UseTree::Glob => String::from_str("*"),
        UseTree::Group(items) => {
            let mut texts: Vec<String> = Vec::new();
            let mut k: usize = 0;
            while k < items.len()
                invariant
                    k <= items.len(),
                    string_views(texts@) == use_trees_texts(items@.take(k as int)),
                decreases items.len() - k,
            {
                assert(items@.take(k + 1).drop_last() =~= items@.take(k as int));
                proof {
                    assert(decreases_to!(*tree => items@[k as int]));
                }
                let ghost before = texts@;
                texts.push(use_tree_to_string(&items[k]));
                assert(string_views(texts@) =~= string_views(before).push(texts@.last()@));
                k += 1;
            }
            assert(items@.take(k as int) =~= items@);
            let mut s = String::from_str("{");
            append_str(&mut s, join_strings(&texts, ", ").as_str());
            append_str(&mut s, "}");
            s
        },
    }
}

/// An import path is unstable when, lowercased, it mentions internal,
/// unstable, experimental, nightly or `_sys`.
pub open spec fn is_unstable_path(text: Seq<char>) -> bool {
    let l = lowercase(text);
    contains_seq(l, "internal"@) || contains_seq(l, "unstable"@) || contains_seq(
        l,
        "experimental"@,
    ) || contains_seq(l, "nightly"@) || contains_seq(l, "_sys"@)
}

/// The unstable imports in the tree `n` (at any depth), in source order, with
/// the line of each `use`.
pub open spec fn unstable_in_node(n: Node) -> Seq<(Seq<char>, usize)>
    decreases n,
{
    (match n.kind {
        NodeKind::ItemUse(t, line) => if is_unstable_path(use_tree_text(t)) {
            seq![(use_tree_text(t), line)]
        } else {
            Seq::empty()
        },
        _ => Seq::empty(),
    }) + unstable_in_nodes(n.children@) + match n.kind {
        NodeKind::ItemFn(f) => unstable_in_nodes(f.body@),
        NodeKind::ImplFn(f) => unstable_in_nodes(f.body@),
        _ => Seq::empty(),
    }
}

/// The unstable imports in the trees `s`, in order.
pub open spec fn unstable_in_nodes(s: Seq<Node>) -> Seq<(Seq<char>, usize)>
    decreases s,
{
    if s.len() == 0 {
        Seq::empty()
    } else {
        unstable_in_nodes(s.drop_last()) + unstable_in_node(s.last())
    }
}

/// The number of items among the top-level nodes.
pub open spec fn item_count(s: Seq<Node>) -> nat
    decreases s.len(),
{
    if s.len() == 0 {
        0
    } else {
        item_count(s.drop_last()) + if is_item(s.last().kind) {
            1nat
        } else {
            0nat
        }
    }
}

/// The share of unstable imports, `count as f64 / max(items, 1) as f64`.
pub open spec fn unstable_share(count: nat, items: nat) -> Double {
    share(
        count,
        if items < 1 {
            1
        } else {
            items
        },
    )
}

/// The share as a whole percentage, as `{:.0}` prints `share * 100.0`.
pub open spec fn share_percent(count: nat, items: nat) -> nat {
    round_whole(times_hundred(unstable_share(count, items)))
}

pub open spec fn unstable_message(count: nat, items: nat, names: Seq<Seq<char>>) -> Seq<char> {
    "File has "@ + decimal(count) + " unstable imports ("@ + decimal(share_percent(count, items))
        + "% of items): "@ + join(names, ", "@)
}

/// The finding of a file: when its unstable imports (at any depth) make up
/// more than 0.4 of its top-level items, in `f64` arithmetic, one warning on
/// the line of the first of them, naming them all.
pub open spec fn spec_unstable_dependency(file: SourceFile) -> Seq<SmellView> {
    let found = unstable_in_nodes(file.items@);
    let items = item_count(file.items@);
    if found.len() > 0 && greater(unstable_share(found.len(), items), point_four()) {
        seq![
            finding(
                SmellCategory::Architecture,
                "Unstable Dependency"@,
                Severity::Warning,
                file.path@,
                found[0].1,
                found[0].1,
                unstable_message(found.len(), items, found.map_values(|e: (Seq<char>, usize)| e.0)),
                "Stabilize your dependencies. Wrap unstable APIs behind your own abstractions."@,
            ),
        ]
    } else {
        Seq::empty()
    }
}

/// Collects the unstable imports of a syntax tree.
pub struct UnstableUseVisitor {
    pub unstable_imports: Vec<(String, usize)>,
}

/// The views of collected imports.
pub open spec fn import_views(v: Seq<(String, usize)>) -> Seq<(Seq<char>, usize)> {
    v.map_values(|e: (String, usize)| (e.0@, e.1))
}

impl UnstableUseVisitor {
    /// Records the `use` item with this tree, on this line, if it is unstable.
    pub fn visit_item_use(&mut self, tree: &UseTree, line: usize)
        ensures
            import_views(final(self).unstable_imports@) == import_views(
                old(self).unstable_imports@,
            ) + if is_unstable_path(use_tree_text(*tree)) {
                seq![(use_tree_text(*tree), line)]
            } else {
                Seq::<(Seq<char>, usize)>::empty()
            },
    {
        let text = use_tree_to_string(tree);
        let path = to_lowercase(text.as_str());
        let p = path.as_str();
        let is_unstable = contains_str(p, "internal") || contains_str(p, "unstable")
            || contains_str(p, "experimental") || contains_str(p, "nightly") || contains_str(
            p,
            "_sys",
        );
        let ghost before = self.unstable_imports@;
        if is_unstable {
            self.unstable_imports.push((text, line));
            assert(import_views(self.unstable_imports@) =~= import_views(before).push(
                (use_tree_text(*tree), line),
            ));
        } else {
            assert(import_views(self.unstable_imports@) =~= import_views(before));
        }
    }

    /// Visits the tree `n`, recording its unstable imports in order.
    pub fn visit_node(&mut self, n: &Node)
        ensures
            import_views(final(self).unstable_imports@) == import_views(
                old(self).unstable_imports@,
            ) + unstable_in_node(*n),
        decreases n,
    {
        let ghost start = import_views(self.unstable_imports@);
        match &n.kind {
            NodeKind::ItemUse(tree, line) => self.visit_item_use(tree, *line),
            _ => {},
        }
        let ghost own = import_views(self.unstable_imports@);
        self.visit_nodes(&n.children);
        let ghost mid = import_views(self.unstable_imports@);
        match &n.kind {
            NodeKind::ItemFn(f) => self.visit_nodes(&f.body),
            NodeKind::ImplFn(f) => self.visit_nodes(&f.body),
            _ => {},
        }
        assert(import_views(self.unstable_imports@) =~= start + unstable_in_node(*n));
    }

    /// Visits the trees `nodes` in order.
    pub fn visit_nodes(&mut self, nodes: &Vec<Node>)
        ensures
            import_views(final(self).unstable_imports@) == import_views(
                old(self).unstable_imports@,
            ) + unstable_in_nodes(nodes@),
        decreases nodes,
    {
        let ghost start = import_views(self.unstable_imports@);
        let mut i: usize = 0;
        while i < nodes.len()
            invariant
                i <= nodes.len(),
                import_views(self.unstable_imports@) == start + unstable_in_nodes(
                    nodes@.take(i as int),
                ),
            decreases nodes.len() - i,
        {
            assert(nodes@.take(i + 1).drop_last() =~= nodes@.take(i as int));
            proof {
                assert(decreases_to!(nodes => nodes@[i as int]));
            }
            self.visit_node(&nodes[i]);
            assert(start + unstable_in_nodes(nodes@.take(i + 1)) =~= start + unstable_in_nodes(
                nodes@.take(i as int),
            ) + unstable_in_node(nodes@[i as int]));
            i += 1;
        }
        assert(nodes@.take(i as int) =~= nodes@);
    }
}

fn top_item_count(items: &Vec<Node>) -> (r: usize)
    ensures
        r == item_count(items@),
{
    let mut n: usize = 0;
    let mut i: usize = 0;
    while i < items.len()
        invariant
            i <= items.len(),
            n == item_count(items@.take(i as int)),
            n <= i,
        decreases items.len() - i,
    {
        assert(items@.take(i + 1).drop_last() =~= items@.take(i as int));
        let hit = match &items[i].kind {
            NodeKind::ItemUse(..) | NodeKind::ItemMod(..) | NodeKind::ItemFn(..)
            | NodeKind::ItemImpl(..) | NodeKind::ItemTrait(..) | NodeKind::ItemStruct(..)
            | NodeKind::ItemOther => true,
            _ => false,
        };
        if hit {
            n = n + 1;
        }
        i += 1;
    }
    assert(items@.take(i as int) =~= items@);
    n
}

impl UnstableDependencyDetector {
    pub fn name(&self) -> (r: &'static str)
        ensures
            r@ == "Unstable Dependency"@,
    {
        "Unstable Dependency"
    }

    /// The unstable-dependency finding of `file`, if any.
    pub fn detect(&self, file: &SourceFile) -> (r: Vec<Smell>)
        ensures
            smell_views(r@) == spec_unstable_dependency(*file),
    {
        let mut smells: Vec<Smell> = Vec::new();
        let mut visitor = UnstableUseVisitor { unstable_imports: Vec::new() };
        assert(import_views(visitor.unstable_imports@) =~= Seq::<(Seq<char>, usize)>::empty());
        visitor.visit_nodes(&file.items);
        let ghost found = unstable_in_nodes(file.items@);
        assert(import_views(visitor.unstable_imports@) =~= found);
        let count = visitor.unstable_imports.len();
        if count == 0 {
            return smells;
        }
        let items = top_item_count(&file.items);
        let denom: usize = if items < 1 {
            1
        } else {
            items
        };
        let share = share_exec(count as u64, denom as u64);
        if !greater_exec(share, share_exec(2, 5)) {
            return smells;
        }
        let line = visitor.unstable_imports[0].1;
        let mut names: Vec<String> = Vec::new();
        let mut i: usize = 0;
        while i < count
            invariant
                i <= count,
                count == visitor.unstable_imports@.len(),
                string_views(names@) == found.map_values(|e: (Seq<char>, usize)| e.0).take(
                    i as int,
                ),
            decreases count - i,
        {
            names.push(visitor.unstable_imports[i].0.clone());
            assert(string_views(names@) =~= found.map_values(|e: (Seq<char>, usize)| e.0).take(
                i + 1,
            ));
            i += 1;
        }
        assert(found.map_values(|e: (Seq<char>, usize)| e.0).take(count as int) =~= found.map_values(
            |e: (Seq<char>, usize)| e.0,
        ));
        let mut msg = String::from_str("File has ");
        append_str(&mut msg, decimal_string(count).as_str());
        append_str(&mut msg, " unstable imports (");
        append_str(&mut msg, decimal_string_wide(round_whole_exec(times_hundred_exec(share))).as_str());
        append_str(&mut msg, "% of items): ");
        append_str(&mut msg, join_strings(&names, ", ").as_str());
        assert(msg@ =~= unstable_message(
            count as nat,
            items as nat,
            found.map_values(|e: (Seq<char>, usize)| e.0),
        ));
        smells.push(
            Smell::at_lines(
                SmellCategory::Architecture,
                "Unstable Dependency",
                Severity::Warning,
                &file.path,
                line,
                line,
                msg,
                "Stabilize your dependencies. Wrap unstable APIs behind your own abstractions.",
            ),
        );
        assert(smell_views(smells@) =~= spec_unstable_dependency(*file));
        smells
    }
}

} // verus!
