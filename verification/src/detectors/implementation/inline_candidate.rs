//! Inline candidates: tiny, simple helpers called often enough in their file
//! that an `#[inline]` hint may pay off.
use vstd::prelude::*;
use crate::detectors::policy::{has_test_cfg, spec_has_test_cfg, ActivePolicy, PolicyView};
use crate::detectors::walk::{count_node, count_nodes, hits, descends, is_skipped_test_code, lemma_count_node_bound, lemma_count_nodes_bound, Query};
use crate::domain::{finding, smell_views, Severity, Smell, SmellCategory, SmellView};
use crate::syntax::{
    node_size, nodes_size, path_get_ident, path_last_ident, Attribute, Block, ExprShape,
    FnDecl, Meta, MetaBody, Node, NodeKind, Param, Signature, SourceFile,
};
use crate::text::{append_str, decimal, decimal_string, str_eq, string_views};

verus! {

/// A body longer than this many lines is not tiny.
pub const MAX_INLINE_BODY_LINES: usize = 8;

/// A body with more statements than this is not tiny.
pub const MAX_INLINE_STATEMENTS: usize = 3;

/// A helper called fewer times than this is not hot.
pub const MIN_CALL_SITES: usize = 3;

/// Detects tiny hot helpers that may benefit from an explicit inline hint.
pub struct InlineCandidateDetector;

/// How a candidate is called: as a function by path, or as a method.
#[derive(Clone, Copy, Debug, PartialEq, Eq, Structural)]
pub enum CallKind {
    Function,
    Method,
}

/// A function that is tiny and simple enough to inline.
pub struct InlineCandidate {
    pub name: String,
    pub display_name: String,
    pub line: usize,
    pub call_kind: CallKind,
}

/// The abstract content of an `InlineCandidate`.
pub struct CandidateView {
    pub name: Seq<char>,
    pub display_name: Seq<char>,
    pub line: usize,
    pub call_kind: CallKind,
}

impl View for InlineCandidate {
    type V = CandidateView;

    open spec fn view(&self) -> CandidateView {
        CandidateView {
            name: self.name@,
            display_name: self.display_name@,
            line: self.line,
            call_kind: self.call_kind,
        }
    }
}

pub open spec fn candidate_views(v: Seq<InlineCandidate>) -> Seq<CandidateView> {
    v.map_values(|c: InlineCandidate| c@)
}

// ---------------------------------------------------------------------------
// Exclusion attributes
/// The attributes that keep a function from being a candidate.
pub open spec fn excluded_attrs() -> Seq<Seq<char>> {
    seq![
        "inline"@, "cold"@, "no_mangle"@, "export_name"@, "test"@, "bench"@, "proc_macro"@,
        "proc_macro_derive"@, "proc_macro_attribute"@,
    ]
}

/// The path is a plain identifier among `names`.
pub open spec fn ident_among(p: crate::syntax::SynPath, names: Seq<Seq<char>>) -> bool {
    match path_get_ident(p) {
        Some(id) => names.contains(id),
        None => false,
    }
}

/// The meta's path is a plain identifier among `names`, whatever follows it.
pub open spec fn spec_meta_matches(meta: Meta, names: Seq<Seq<char>>) -> bool {
    ident_among(meta.path, names)
}

/// The attribute's list, read as metas, has one whose path is among `names`.
pub open spec fn spec_attr_list_contains(attr: Attribute, names: Seq<Seq<char>>) -> bool {
    match attr.meta.body {
        MetaBody::List(Some(metas)) => exists|j: int|
            0 <= j < metas@.len() && spec_meta_matches(#[trigger] metas@[j], names),
        _ => false,
    }
}

/// The attribute is named by one of `names`, or lists one of them.
pub open spec fn excludes(attr: Attribute, names: Seq<Seq<char>>) -> bool {
    ident_among(attr.meta.path, names) || spec_attr_list_contains(attr, names)
}

/// One of the attributes excludes the function.
pub open spec fn spec_has_exclusion_attr(attrs: Seq<Attribute>) -> bool {
    exists|i: int| 0 <= i < attrs.len() && excludes(#[trigger] attrs[i], excluded_attrs())
}

fn excluded_attr_names() -> (r: Vec<String>)
    ensures
        string_views(r@) == excluded_attrs(),
{
    let mut r: Vec<String> = Vec::new();
    r.push(String::from_str("inline"));
    r.push(String::from_str("cold"));
    r.push(String::from_str("no_mangle"));
    r.push(String::from_str("export_name"));
    r.push(String::from_str("test"));
    r.push(String::from_str("bench"));
    r.push(String::from_str("proc_macro"));
    r.push(String::from_str("proc_macro_derive"));
    r.push(String::from_str("proc_macro_attribute"));
    assert(string_views(r@) =~= excluded_attrs());
    r
}

fn ident_among_exec(p: &crate::syntax::SynPath, names: &Vec<String>) -> (r: bool)
    ensures
        r == ident_among(*p, string_views(names@)),
{
    match p.get_ident() {
        Some(id) => crate::text::contains_string(names, id.as_str()),
        None => false,
    }
}

/// Whether the meta's path is a plain identifier among `names`.
pub fn meta_matches(meta: &Meta, names: &Vec<String>) -> (r: bool)
    ensures
        r == spec_meta_matches(*meta, string_views(names@)),
{
    ident_among_exec(&meta.path, names)
}

/// Whether the attribute's path is a plain identifier among `names`.
pub fn attr_is_named(attr: &Attribute, names: &Vec<String>) -> (r: bool)
    ensures
        r == ident_among(attr.meta.path, string_views(names@)),
{
    ident_among_exec(&attr.meta.path, names)
}

/// Whether the attribute's list holds a meta whose path is among `names`.
pub fn attr_list_contains(attr: &Attribute, names: &Vec<String>) -> (r: bool)
    ensures
        r == spec_attr_list_contains(*attr, string_views(names@)),
{
    match &attr.meta.body {
        MetaBody::List(Some(metas)) => {
            let mut j: usize = 0;
            while j < metas.len()
                invariant
                    j <= metas.len(),
                    forall|k: int|
                        0 <= k < j ==> !spec_meta_matches(
                            #[trigger] metas@[k],
                            string_views(names@),
                        ),
                decreases metas.len() - j,
            {
                if meta_matches(&metas[j], names) {
                    assert(spec_meta_matches(metas@[j as int], string_views(names@)));
                    return true;
                }
                j += 1;
            }
            false
        },
        _ => false,
    }
}

/// Whether one of the attributes keeps the function from being a candidate.
pub fn has_exclusion_attr(attrs: &Vec<Attribute>) -> (r: bool)
    ensures
        r == spec_has_exclusion_attr(attrs@),
{
    let names = excluded_attr_names();
    let mut i: usize = 0;
    while i < attrs.len()
        invariant
            i <= attrs.len(),
            string_views(names@) == excluded_attrs(),
            forall|k: int| 0 <= k < i ==> !excludes(#[trigger] attrs@[k], excluded_attrs()),
        decreases attrs.len() - i,
    {
        if attr_is_named(&attrs[i], &names) || attr_list_contains(&attrs[i], &names) {
            assert(excludes(attrs@[i as int], excluded_attrs()));
            return true;
        }
        i += 1;
    }
    false
}

// ---------------------------------------------------------------------------
// Tiny and simple bodies
/// The number of lines from the opening to the closing brace, inclusive
/// (saturating).
pub open spec fn spec_body_line_count(b: Block) -> nat {
    let d: int = if b.close_line < b.open_line {
        0
    } else {
        b.close_line - b.open_line
    };
    if d + 1 > usize::MAX {
        usize::MAX as nat
    } else {
        (d + 1) as nat
    }
}

/// The number of lines the body spans.
pub fn body_line_count(block: &Block) -> (r: usize)
    ensures
        r == spec_body_line_count(*block),
{
    block.close_line.saturating_sub(block.open_line).saturating_add(1)
}

/// The body holds no control flow, closure, async, unsafe, macro call or
/// nested item.
pub open spec fn spec_block_is_simple(body: Seq<Node>) -> bool {
    count_nodes(body, Query::Complex) == 0
}

fn has_complex_node(n: &Node) -> (r: bool)
    ensures
        r == (count_node(*n, Query::Complex) > 0),
    decreases n,
{
    let hit = match &n.kind {
        NodeKind::ItemUse(..) | NodeKind::ItemMod(..) | NodeKind::ItemFn(..)
        | NodeKind::ItemImpl(..) | NodeKind::ItemTrait(..) | NodeKind::ItemStruct(..)
        | NodeKind::ItemOther | NodeKind::ExprIf | NodeKind::ExprMatch | NodeKind::ExprForLoop
        | NodeKind::ExprWhile | NodeKind::ExprLoop | NodeKind::ExprClosure | NodeKind::ExprAsync
        | NodeKind::ExprUnsafe | NodeKind::ExprAwait | NodeKind::ExprMacro | NodeKind::ExprBreak
        | NodeKind::ExprContinue => true,
        _ => false,
    };
    if hit {
        return true;
    }
    assert(descends(Query::Complex, n.kind));
    if has_complex_list(&n.children) {
        return true;
    }
    match &n.kind {
        NodeKind::ImplFn(f) => has_complex_list(&f.body),
        _ => false,
    }
}

fn has_complex_list(nodes: &Vec<Node>) -> (r: bool)
    ensures
        r == (count_nodes(nodes@, Query::Complex) > 0),
    decreases nodes,
{
    let mut i: usize = 0;
    while i < nodes.len()
        invariant
            i <= nodes.len(),
            count_nodes(nodes@.take(i as int), Query::Complex) == 0,
        decreases nodes.len() - i,
    {
        assert(nodes@.take(i + 1).drop_last() =~= nodes@.take(i as int));
        proof {
            assert(decreases_to!(nodes => nodes@[i as int]));
        }
        if has_complex_node(&nodes[i]) {
            proof {
                lemma_count_prefix(nodes@, i + 1, Query::Complex);
            }
            return true;
        }
        i += 1;
    }
    assert(nodes@.take(i as int) =~= nodes@);
    false
}

/// A count over a prefix of trees is at most the count over all of them.
pub proof fn lemma_count_prefix(s: Seq<Node>, k: int, q: Query)
    requires
        0 <= k <= s.len(),
    ensures
        count_nodes(s.take(k), q) <= count_nodes(s, q),
    decreases s.len(),
{
    if k < s.len() {
        lemma_count_prefix(s.drop_last(), k, q);
        assert(s.drop_last().take(k) =~= s.take(k));
    } else {
        assert(s.take(k) =~= s);
    }
}

/// Whether the body is simple.
pub fn block_is_simple(body: &Vec<Node>) -> (r: bool)
    ensures
        r == spec_block_is_simple(body@),
{
    !has_complex_list(body)
}

/// The first parameter is a receiver.
pub open spec fn spec_has_receiver(sig: Signature) -> bool {
    sig.inputs@.len() > 0 && sig.inputs@[0] is Receiver
}

/// Whether the first parameter is a receiver.
pub fn has_receiver(sig: &Signature) -> (r: bool)
    ensures
        r == spec_has_receiver(*sig),
{
    sig.inputs.len() > 0 && match &sig.inputs[0] {
        Param::Receiver => true,
        _ => false,
    }
}

/// The function is a candidate: not excluded by an attribute, neither async
/// nor unsafe, with 1 to 3 statements over at most 8 lines, and simple.
pub open spec fn spec_is_inline_candidate(f: FnDecl) -> bool {
    !spec_has_exclusion_attr(f.attrs@) && !f.sig.is_async && !f.sig.is_unsafe
        && f.block.stmt_count >= 1 && f.block.stmt_count <= MAX_INLINE_STATEMENTS
        && spec_body_line_count(f.block) <= MAX_INLINE_BODY_LINES && spec_block_is_simple(
        f.body@,
    )
}

/// Whether the function is a candidate.
pub fn is_inline_candidate(func: &FnDecl) -> (r: bool)
    ensures
        r == spec_is_inline_candidate(*func),
{
    if has_exclusion_attr(&func.attrs) || func.sig.is_async || func.sig.is_unsafe {
        return false;
    }
    if func.block.stmt_count == 0 || func.block.stmt_count > MAX_INLINE_STATEMENTS {
        return false;
    }
    let body_lines = body_line_count(&func.block);
    body_lines <= MAX_INLINE_BODY_LINES && block_is_simple(&func.body)
}

/// The candidate a function makes, called as `kind`.
pub open spec fn candidate_of(f: FnDecl, kind: CallKind) -> CandidateView {
    CandidateView {
        name: f.sig.ident@,
        display_name: f.sig.ident@,
        line: f.sig.ident_line,
        call_kind: kind,
    }
}

/// The candidate a free function makes, if it is one.
pub fn candidate_from_item_fn(func: &FnDecl) -> (r: Option<InlineCandidate>)
    ensures
        match r {
            Some(c) => spec_is_inline_candidate(*func) && c@ == candidate_of(
                *func,
                CallKind::Function,
            ),
            None => !spec_is_inline_candidate(*func),
        },
{
    if is_inline_candidate(func) {
        Some(
            InlineCandidate {
                name: func.sig.ident.clone(),
                display_name: func.sig.ident.clone(),
                line: func.sig.ident_line,
                call_kind: CallKind::Function,
            },
        )
    } else {
        None
    }
}

/// How a method of an impl is called: as a method when it has a receiver.
pub open spec fn method_kind(f: FnDecl) -> CallKind {
    if spec_has_receiver(f.sig) {
        CallKind::Method
    } else {
        CallKind::Function
    }
}

/// The candidate a function of an impl makes, if it is one.
pub fn candidate_from_impl_fn(func: &FnDecl) -> (r: Option<InlineCandidate>)
    ensures
        match r {
            Some(c) => spec_is_inline_candidate(*func) && c@ == candidate_of(
                *func,
                method_kind(*func),
            ),
            None => !spec_is_inline_candidate(*func),
        },
{
    if is_inline_candidate(func) {
        Some(
            InlineCandidate {
                name: func.sig.ident.clone(),
                display_name: func.sig.ident.clone(),
                line: func.sig.ident_line,
                call_kind: if has_receiver(&func.sig) {
                    CallKind::Method
                } else {
                    CallKind::Function
                },
            },
        )
    } else {
        None
    }
}

// ---------------------------------------------------------------------------
// Collecting candidates
/// The candidates among the functions of an impl (its direct `fn` items that
/// are not test code), in order.
pub open spec fn impl_method_candidates(policy: PolicyView, s: Seq<Node>) -> Seq<CandidateView>
    decreases s.len(),
{
    if s.len() == 0 {
        Seq::empty()
    } else {
        let rest = impl_method_candidates(policy, s.drop_last());
        match s.last().kind {
            NodeKind::ImplFn(f) => if !spec_has_test_cfg(policy, f.attrs@)
                && spec_is_inline_candidate(f) {
                rest.push(candidate_of(f, method_kind(f)))
            } else {
                rest
            },
            _ => rest,
        }
    }
}

/// The candidates in the tree `n`, in visiting order: test modules and test
/// functions are skipped whole; a free function contributes itself before
/// what it contains; an inherent impl contributes its methods, then what it
/// contains; a trait impl is skipped whole.
pub open spec fn candidates_in_node(policy: PolicyView, n: Node) -> Seq<CandidateView>
    decreases n,
{
    match n.kind {
        NodeKind::ItemMod(attrs) => if spec_has_test_cfg(policy, attrs@) {
            Seq::empty()
        } else {
            candidates_in_nodes(policy, n.children@)
        },
        NodeKind::ItemFn(f) => if spec_has_test_cfg(policy, f.attrs@) {
            Seq::empty()
        } else {
            (if spec_is_inline_candidate(f) {
                seq![candidate_of(f, CallKind::Function)]
            } else {
                Seq::empty()
            }) + candidates_in_nodes(policy, n.children@) + candidates_in_nodes(policy, f.body@)
        },
        NodeKind::ItemImpl(h) => if spec_has_test_cfg(policy, h.attrs@) || h.trait_path is Some {
            Seq::empty()
        } else {
            impl_method_candidates(policy, n.children@) + candidates_in_nodes(policy, n.children@)
        },
        NodeKind::ImplFn(f) => candidates_in_nodes(policy, n.children@) + candidates_in_nodes(
            policy,
            f.body@,
        ),
        _ => candidates_in_nodes(policy, n.children@),
    }
}

/// The candidates in the trees `s`, in order.
pub open spec fn candidates_in_nodes(policy: PolicyView, s: Seq<Node>) -> Seq<CandidateView>
    decreases s,
{
    if s.len() == 0 {
        Seq::empty()
    } else {
        candidates_in_nodes(policy, s.drop_last()) + candidates_in_node(policy, s.last())
    }
}

/// Collects the candidates of a syntax tree.
pub struct CandidateCollector {
    pub candidates: Vec<InlineCandidate>,
}

impl CandidateCollector {
    /// Collects from the functions of an impl.
    fn visit_impl_methods(&mut self, policy: &ActivePolicy, nodes: &Vec<Node>)
        ensures
            candidate_views(final(self).candidates@) == candidate_views(old(self).candidates@)
                + impl_method_candidates(policy@, nodes@),
    {
        let ghost start = candidate_views(self.candidates@);
        let mut i: usize = 0;
        while i < nodes.len()
            invariant
                i <= nodes.len(),
                candidate_views(self.candidates@) == start + impl_method_candidates(
                    policy@,
                    nodes@.take(i as int),
                ),
            decreases nodes.len() - i,
        {
            assert(nodes@.take(i + 1).drop_last() =~= nodes@.take(i as int));
            let ghost before = self.candidates@;
            match &nodes[i].kind {
                NodeKind::ImplFn(f) => {
                    if !has_test_cfg(policy, &f.attrs) {
                        match candidate_from_impl_fn(f) {
                            Some(c) => {
                                self.candidates.push(c);
                                assert(candidate_views(self.candidates@) =~= candidate_views(
                                    before,
                                ).push(candidate_of(*f, method_kind(*f))));
                            },
                            None => {},
                        }
                    }
                },
                _ => {},
            }
            i += 1;
        }
        assert(nodes@.take(i as int) =~= nodes@);
    }

    /// Collects from the tree `n`.
    pub fn visit_node(&mut self, policy: &ActivePolicy, n: &Node)
        ensures
            candidate_views(final(self).candidates@) == candidate_views(old(self).candidates@)
                + candidates_in_node(policy@, *n),
        decreases n,
    {
        let ghost start = candidate_views(self.candidates@);
        match &n.kind {
            NodeKind::ItemMod(attrs) => {
                if has_test_cfg(policy, attrs) {
                    assert(candidate_views(self.candidates@) =~= start + candidates_in_node(
                        policy@,
                        *n,
                    ));
                    return ;
                }
                self.visit_nodes(policy, &n.children);
            },
            NodeKind::ItemFn(f) => {
                if has_test_cfg(policy, &f.attrs) {
                    assert(candidate_views(self.candidates@) =~= start + candidates_in_node(
                        policy@,
                        *n,
                    ));
                    return ;
                }
                match candidate_from_item_fn(f) {
                    Some(c) => {
                        self.candidates.push(c);
                    },
                    None => {},
                }
                let ghost own = candidate_views(self.candidates@);
                assert(own =~= start + if spec_is_inline_candidate(*f) {
                    seq![candidate_of(*f, CallKind::Function)]
                } else {
                    Seq::empty()
                });
                self.visit_nodes(policy, &n.children);
                self.visit_nodes(policy, &f.body);
            },
            NodeKind::ItemImpl(h) => {
                if has_test_cfg(policy, &h.attrs) || h.trait_path.is_some() {
                    assert(candidate_views(self.candidates@) =~= start + candidates_in_node(
                        policy@,
                        *n,
                    ));
                    return ;
                }
                self.visit_impl_methods(policy, &n.children);
                self.visit_nodes(policy, &n.children);
            },
            NodeKind::ImplFn(f) => {
                self.visit_nodes(policy, &n.children);
                self.visit_nodes(policy, &f.body);
            },
            _ => {
                self.visit_nodes(policy, &n.children);
            },
        }
        assert(candidate_views(self.candidates@) =~= start + candidates_in_node(policy@, *n));
    }

    /// Collects from the trees `nodes`, in order.
    pub fn visit_nodes(&mut self, policy: &ActivePolicy, nodes: &Vec<Node>)
        ensures
            candidate_views(final(self).candidates@) == candidate_views(old(self).candidates@)
                + candidates_in_nodes(policy@, nodes@),
        decreases nodes,
    {
        let ghost start = candidate_views(self.candidates@);
        let mut i: usize = 0;
        while i < nodes.len()
            invariant
                i <= nodes.len(),
                candidate_views(self.candidates@) == start + candidates_in_nodes(
                    policy@,
                    nodes@.take(i as int),
                ),
            decreases nodes.len() - i,
        {
            assert(nodes@.take(i + 1).drop_last() =~= nodes@.take(i as int));
            proof {
                assert(decreases_to!(nodes => nodes@[i as int]));
            }
            self.visit_node(policy, &nodes[i]);
            assert(start + candidates_in_nodes(policy@, nodes@.take(i + 1)) =~= start
                + candidates_in_nodes(policy@, nodes@.take(i as int)) + candidates_in_node(
                policy@,
                nodes@[i as int],
            ));
            i += 1;
        }
        assert(nodes@.take(i as int) =~= nodes@);
    }
}

// ---------------------------------------------------------------------------
// Counting call sites
/// The first position of `name` among `keys`, or `keys.len()`.
pub open spec fn key_index(keys: Seq<Seq<char>>, name: Seq<char>) -> int
    decreases keys.len(),
{
    if keys.len() == 0 {
        0
    } else if keys[0] == name {
        0
    } else {
        1 + key_index(keys.drop_first(), name)
    }
}

/// The tally for `name`: the count at its first position, or 0.
pub open spec fn tally(keys: Seq<Seq<char>>, counts: Seq<usize>, name: Seq<char>) -> nat {
    let i = key_index(keys, name);
    if i < keys.len() && i < counts.len() {
        counts[i] as nat
    } else {
        0
    }
}

proof fn lemma_key_index(keys: Seq<Seq<char>>, name: Seq<char>)
    ensures
        0 <= key_index(keys, name) <= keys.len(),
        key_index(keys, name) < keys.len() ==> keys[key_index(keys, name)] == name,
        forall|j: int| 0 <= j < key_index(keys, name) ==> keys[j] != name,
    decreases keys.len(),
{
    if keys.len() > 0 && keys[0] != name {
        lemma_key_index(keys.drop_first(), name);
        assert forall|j: int| 0 <= j < key_index(keys, name) implies keys[j] != name by {
            if j > 0 {
                assert(keys[j] == keys.drop_first()[j - 1]);
            }
        }
    }
}

proof fn lemma_key_index_unique(keys: Seq<Seq<char>>, name: Seq<char>, k: int)
    requires
        0 <= k <= keys.len(),
        k < keys.len() ==> keys[k] == name,
        forall|j: int| 0 <= j < k ==> keys[j] != name,
    ensures
        key_index(keys, name) == k,
{
    lemma_key_index(keys, name);
    let m = key_index(keys, name);
    if m < k {
        assert(keys[m] != name);
    }
    if m > k {
        assert(keys[k] != name);
    }
}

/// Call tallies by name: a list of names with a count at the same position.
pub struct Tally {
    pub names: Vec<String>,
    pub counts: Vec<usize>,
}

impl Tally {
    pub open spec fn wf(&self) -> bool {
        self.names@.len() == self.counts@.len()
    }

    /// The tally of `name`.
    pub open spec fn of(&self, name: Seq<char>) -> nat {
        tally(string_views(self.names@), self.counts@, name)
    }

    pub fn new() -> (r: Tally)
        ensures
            r.wf(),
            forall|name: Seq<char>| r.of(name) == 0,
    {
        Tally { names: Vec::new(), counts: Vec::new() }
    }

    /// Adds one to the tally of `name`.
    pub fn add_one(&mut self, name: String)
        requires
            old(self).wf(),
            old(self).of(name@) < usize::MAX,
        ensures
            final(self).wf(),
            final(self).of(name@) == old(self).of(name@) + 1,
            forall|other: Seq<char>| other != name@ ==> final(self).of(other) == old(self).of(other),
    {
        let ghost keys = string_views(self.names@);
        let mut i: usize = 0;
        while i < self.names.len()
            invariant
                i <= self.names.len(),
                self.wf(),
                self.names@ == old(self).names@,
                self.counts@ == old(self).counts@,
                keys == string_views(self.names@),
                forall|j: int| 0 <= j < i ==> keys[j] != name@,
            decreases self.names.len() - i,
        {
            if str_eq(self.names[i].as_str(), name.as_str()) {
                proof {
                    lemma_key_index_unique(keys, name@, i as int);
                }
                let c = self.counts[i];
                assert(c as nat == old(self).of(name@));
                self.counts.set(i, c + 1);
                assert forall|other: Seq<char>| other != name@ implies self.of(other) == old(
                    self,
                ).of(other) by {
                    lemma_key_index(keys, other);
                }
                return ;
            }
            i += 1;
        }
        proof {
            lemma_key_index_unique(keys, name@, keys.len() as int);
        }
        let ghost old_counts = self.counts@;
        self.names.push(name);
        self.counts.push(1);
        let ghost new_keys = string_views(self.names@);
        assert(new_keys =~= keys.push(name@));
        proof {
            lemma_key_index_unique(new_keys, name@, keys.len() as int);
            assert forall|other: Seq<char>| other != name@ implies self.of(other) == old(self).of(
                other,
            ) by {
                lemma_key_index(keys, other);
                let k = key_index(keys, other);
                if k < keys.len() {
                    assert forall|j: int| 0 <= j < k implies new_keys[j] != other by {}
                    lemma_key_index_unique(new_keys, other, k);
                } else {
                    assert forall|j: int| 0 <= j < new_keys.len() implies new_keys[j] != other by {
                        if j < keys.len() {
                        }
                    }
                    lemma_key_index_unique(new_keys, other, new_keys.len() as int);
                }
            }
        }
    }

    /// The tally of `name`.
    pub fn get(&self, name: &String) -> (r: usize)
        requires
            self.wf(),
        ensures
            r == self.of(name@),
    {
        let ghost keys = string_views(self.names@);
        let mut i: usize = 0;
        while i < self.names.len()
            invariant
                i <= self.names.len(),
                keys == string_views(self.names@),
                forall|j: int| 0 <= j < i ==> keys[j] != name@,
            decreases self.names.len() - i,
        {
            if str_eq(self.names[i].as_str(), name.as_str()) {
                proof {
                    lemma_key_index_unique(keys, name@, i as int);
                }
                return self.counts[i];
            }
            i += 1;
        }
        proof {
            lemma_key_index_unique(keys, name@, keys.len() as int);
        }
        0
    }
}

/// Counts calls by the name they call, outside test code the policy skips.
pub struct CallCounter {
    pub function_calls: Tally,
    pub method_calls: Tally,
}

/// The calls of functions whose path ends in `name` in the trees `s`.
pub open spec fn function_calls_in(policy: PolicyView, s: Seq<Node>, name: Seq<char>) -> nat {
    count_nodes(s, Query::FunctionCalls(name, policy))
}

/// The calls of methods named `name` in the trees `s`.
pub open spec fn method_calls_in(policy: PolicyView, s: Seq<Node>, name: Seq<char>) -> nat {
    count_nodes(s, Query::MethodCalls(name, policy))
}

/// The number of call sites of a candidate in the trees `s`: calls by path
/// for a function, method calls for a method.
pub open spec fn spec_call_sites(policy: PolicyView, s: Seq<Node>, c: CandidateView) -> nat {
    match c.call_kind {
        CallKind::Function => function_calls_in(policy, s, c.name),
        CallKind::Method => method_calls_in(policy, s, c.name),
    }
}

impl CallCounter {
    pub open spec fn wf(&self) -> bool {
        self.function_calls.wf() && self.method_calls.wf()
    }

    pub fn new() -> (r: CallCounter)
        ensures
            r.wf(),
            forall|name: Seq<char>| r.function_calls.of(name) == 0 && r.method_calls.of(name) == 0,
    {
        CallCounter { function_calls: Tally::new(), method_calls: Tally::new() }
    }

    /// The number of times the candidate is called, as counted.
    pub fn call_sites(&self, candidate: &InlineCandidate) -> (r: usize)
        requires
            self.wf(),
        ensures
            r == match candidate.call_kind {
                CallKind::Function => self.function_calls.of(candidate.name@),
                CallKind::Method => self.method_calls.of(candidate.name@),
            },
    {
        match candidate.call_kind {
            CallKind::Function => self.function_calls.get(&candidate.name),
            CallKind::Method => self.method_calls.get(&candidate.name),
        }
    }

    /// Counts the calls in the tree `n`.
    pub fn visit_node(&mut self, policy: &ActivePolicy, n: &Node)
        requires
            old(self).wf(),
            forall|name: Seq<char>|
                old(self).function_calls.of(name) + count_node(
                    *n,
                    Query::FunctionCalls(name, policy@),
                ) <= usize::MAX,
            forall|name: Seq<char>|
                old(self).method_calls.of(name) + count_node(*n, Query::MethodCalls(name, policy@))
                    <= usize::MAX,
        ensures
            final(self).wf(),
            forall|name: Seq<char>|
                final(self).function_calls.of(name) == old(self).function_calls.of(name)
                    + count_node(*n, Query::FunctionCalls(name, policy@)),
            forall|name: Seq<char>|
                final(self).method_calls.of(name) == old(self).method_calls.of(name) + count_node(
                    *n,
                    Query::MethodCalls(name, policy@),
                ),
        decreases n,
    {
        let skipped = match &n.kind {
            NodeKind::ItemMod(attrs) => has_test_cfg(policy, attrs),
            NodeKind::ItemFn(f) => has_test_cfg(policy, &f.attrs),
            NodeKind::ImplFn(f) => has_test_cfg(policy, &f.attrs),
            _ => false,
        };
        assert(skipped == is_skipped_test_code(policy@, n.kind));
        if skipped {
            return ;
        }
        let ghost f0 = self.function_calls;
        let ghost m0 = self.method_calls;
        match &n.kind {
            NodeKind::ExprCall(ExprShape::Path(p)) => match p.last_segment() {
                Some(seg) => {
                    assert(hits(Query::FunctionCalls(seg.ident@, policy@), n.kind));
                    self.function_calls.add_one(seg.ident.clone());
                },
                None => {},
            },
            NodeKind::ExprMethodCall(m, _, _) => {
                assert(hits(Query::MethodCalls(m@, policy@), n.kind));
                self.method_calls.add_one(m.clone());
            },
            _ => {},
        }
        let ghost f1 = self.function_calls;
        let ghost m1 = self.method_calls;
        assert forall|name: Seq<char>|
            f1.of(name) == f0.of(name) + (if hits(Query::FunctionCalls(name, policy@), n.kind) {
                1nat
            } else {
                0nat
            }) && m1.of(name) == m0.of(name) + (if hits(Query::MethodCalls(name, policy@), n.kind) {
                1nat
            } else {
                0nat
            }) by {}
        self.visit_nodes(policy, &n.children);
        match &n.kind {
            NodeKind::ItemFn(f) => self.visit_nodes(policy, &f.body),
            NodeKind::ImplFn(f) => self.visit_nodes(policy, &f.body),
            _ => {},
        }
    }

    /// Counts the calls in the trees `nodes`.
    pub fn visit_nodes(&mut self, policy: &ActivePolicy, nodes: &Vec<Node>)
        requires
            old(self).wf(),
            forall|name: Seq<char>|
                old(self).function_calls.of(name) + count_nodes(
                    nodes@,
                    Query::FunctionCalls(name, policy@),
                ) <= usize::MAX,
            forall|name: Seq<char>|
                old(self).method_calls.of(name) + count_nodes(
                    nodes@,
                    Query::MethodCalls(name, policy@),
                ) <= usize::MAX,
        ensures
            final(self).wf(),
            forall|name: Seq<char>|
                final(self).function_calls.of(name) == old(self).function_calls.of(name)
                    + count_nodes(nodes@, Query::FunctionCalls(name, policy@)),
            forall|name: Seq<char>|
                final(self).method_calls.of(name) == old(self).method_calls.of(name)
                    + count_nodes(nodes@, Query::MethodCalls(name, policy@)),
        decreases nodes,
    {
        let ghost f0 = self.function_calls;
        let ghost m0 = self.method_calls;
        let mut i: usize = 0;
        while i < nodes.len()
            invariant
                i <= nodes.len(),
                self.wf(),
                forall|name: Seq<char>|
                    self.function_calls.of(name) == f0.of(name) + count_nodes(
                        nodes@.take(i as int),
                        Query::FunctionCalls(name, policy@),
                    ),
                forall|name: Seq<char>|
                    self.method_calls.of(name) == m0.of(name) + count_nodes(
                        nodes@.take(i as int),
                        Query::MethodCalls(name, policy@),
                    ),
            decreases nodes.len() - i,
        {
            assert(nodes@.take(i + 1).drop_last() =~= nodes@.take(i as int));
            proof {
                assert(decreases_to!(nodes => nodes@[i as int]));
                assert forall|name: Seq<char>|
                    self.function_calls.of(name) + count_node(
                        nodes@[i as int],
                        Query::FunctionCalls(name, policy@),
                    ) <= usize::MAX by {
                    lemma_count_prefix(nodes@, i + 1, Query::FunctionCalls(name, policy@));
                }
                assert forall|name: Seq<char>|
                    self.method_calls.of(name) + count_node(
                        nodes@[i as int],
                        Query::MethodCalls(name, policy@),
                    ) <= usize::MAX by {
                    lemma_count_prefix(nodes@, i + 1, Query::MethodCalls(name, policy@));
                }
            }
            self.visit_node(policy, &nodes[i]);
            i += 1;
        }
        assert(nodes@.take(i as int) =~= nodes@);
    }
}

// ---------------------------------------------------------------------------
// Findings
pub open spec fn inline_message(name: Seq<char>, calls: nat) -> Seq<char> {
    "Function `"@ + name + "` is tiny and called "@ + decimal(calls) + " times in this file"@
}

/// The findings for the candidates `cs`: one per candidate called at least
/// `MIN_CALL_SITES` times in the file, a warning from twice that many.
pub open spec fn inline_findings(
    policy: PolicyView,
    file: SourceFile,
    cs: Seq<CandidateView>,
) -> Seq<SmellView>
    decreases cs.len(),
{
    if cs.len() == 0 {
        Seq::empty()
    } else {
        let rest = inline_findings(policy, file, cs.drop_last());
        let c = cs.last();
        let calls = spec_call_sites(policy, file.items@, c);
        if calls >= MIN_CALL_SITES {
            rest.push(
                finding(
                    SmellCategory::Performance,
                    "Inline Candidate"@,
                    if calls >= MIN_CALL_SITES * 2 {
                        Severity::Warning
                    } else {
                        Severity::Info
                    },
                    file.path@,
                    c.line,
                    c.line,
                    inline_message(c.display_name, calls),
                    "Consider #[inline] for small hot helpers after profiling confirms call overhead."@,
                ),
            )
        } else {
            rest
        }
    }
}

/// The findings of a file: its candidates in visiting order, each called
/// often enough.
pub open spec fn spec_inline_candidate(policy: PolicyView, file: SourceFile) -> Seq<SmellView> {
    inline_findings(policy, file, candidates_in_nodes(policy, file.items@))
}

impl InlineCandidateDetector {
    pub fn name(&self) -> (r: &'static str)
        ensures
            r@ == "Inline Candidate"@,
    {
        "Inline Candidate"
    }

    /// The inline-candidate findings of `file` under the policy in force.
    pub fn detect(&self, file: &SourceFile, policy: &ActivePolicy) -> (r: Vec<Smell>)
        requires
            nodes_size(file.items@) <= usize::MAX,
        ensures
            smell_views(r@) == spec_inline_candidate(policy@, *file),
    {
        let mut collector = CandidateCollector { candidates: Vec::new() };
        assert(candidate_views(collector.candidates@) =~= Seq::<CandidateView>::empty());
        collector.visit_nodes(policy, &file.items);
        let mut counter = CallCounter::new();
        proof {
            assert forall|name: Seq<char>|
                counter.function_calls.of(name) + count_nodes(
                    file.items@,
                    Query::FunctionCalls(name, policy@),
                ) <= usize::MAX by {
                lemma_count_nodes_bound(file.items@, Query::FunctionCalls(name, policy@));
            }
            assert forall|name: Seq<char>|
                counter.method_calls.of(name) + count_nodes(
                    file.items@,
                    Query::MethodCalls(name, policy@),
                ) <= usize::MAX by {
                lemma_count_nodes_bound(file.items@, Query::MethodCalls(name, policy@));
            }
        }
        counter.visit_nodes(policy, &file.items);
        let ghost cs = candidate_views(collector.candidates@);
        let mut smells: Vec<Smell> = Vec::new();
        let mut k: usize = 0;
        while k < collector.candidates.len()
            invariant
                k <= collector.candidates.len(),
                counter.wf(),
                cs == candidate_views(collector.candidates@),
                forall|name: Seq<char>|
                    counter.function_calls.of(name) == function_calls_in(
                        policy@,
                        file.items@,
                        name,
                    ),
                forall|name: Seq<char>|
                    counter.method_calls.of(name) == method_calls_in(policy@, file.items@, name),
                smell_views(smells@) == inline_findings(policy@, *file, cs.take(k as int)),
            decreases collector.candidates.len() - k,
        {
            assert(cs.take(k + 1).drop_last() =~= cs.take(k as int));
            let candidate = &collector.candidates[k];
            assert(cs[k as int] == candidate@);
            let call_sites = counter.call_sites(candidate);
            if call_sites >= MIN_CALL_SITES {
                let mut msg = String::from_str("Function `");
                append_str(&mut msg, candidate.display_name.as_str());
                append_str(&mut msg, "` is tiny and called ");
                append_str(&mut msg, decimal_string(call_sites).as_str());
                append_str(&mut msg, " times in this file");
                assert(msg@ =~= inline_message(candidate.display_name@, call_sites as nat));
                let severity = if call_sites >= MIN_CALL_SITES * 2 {
                    Severity::Warning
                } else {
                    Severity::Info
                };
                let ghost before = smells@;
                smells.push(
                    Smell::at_lines(
                        SmellCategory::Performance,
                        "Inline Candidate",
                        severity,
                        &file.path,
                        candidate.line,
                        candidate.line,
                        msg,
                        "Consider #[inline] for small hot helpers after profiling confirms call overhead.",
                    ),
                );
                assert(smell_views(smells@) =~= smell_views(before).push(smells@.last()@));
            }
            k += 1;
        }
        assert(cs.take(k as int) =~= cs);
        smells
    }
}

// ---------------------------------------------------------------------------
// Laws
/// A function marked `#[inline]` is never a candidate.
pub proof fn law_inline_marked_is_never_candidate(f: FnDecl, i: int)
    requires
        0 <= i < f.attrs@.len(),
        path_get_ident(f.attrs@[i].meta.path) == Some("inline"@),
    ensures
        !spec_is_inline_candidate(f),
{
    assert(excluded_attrs()[0] == "inline"@);
    assert(excludes(f.attrs@[i], excluded_attrs()));
}

/// Every inline finding is for a candidate called at least
/// `MIN_CALL_SITES` times, and it is a warning exactly when the candidate
/// is called at least twice that often.
pub proof fn law_inline_findings_are_hot(policy: PolicyView, file: SourceFile, cs: Seq<CandidateView>)
    ensures
        forall|k: int|
            #![trigger inline_findings(policy, file, cs)[k]]
            0 <= k < inline_findings(policy, file, cs).len() ==> exists|j: int|
                0 <= j < cs.len() && spec_call_sites(policy, file.items@, #[trigger] cs[j])
                    >= MIN_CALL_SITES && inline_findings(policy, file, cs)[k].line_start == cs[j].line
                    && (inline_findings(policy, file, cs)[k].severity == Severity::Warning <==> spec_call_sites(
                    policy,
                    file.items@,
                    cs[j],
                ) >= MIN_CALL_SITES * 2),
    decreases cs.len(),
{
    if cs.len() > 0 {
        law_inline_findings_are_hot(policy, file, cs.drop_last());
        let rest = inline_findings(policy, file, cs.drop_last());
        let all = inline_findings(policy, file, cs);
        assert forall|k: int| #![trigger all[k]] 0 <= k < all.len() implies exists|j: int|
            0 <= j < cs.len() && spec_call_sites(policy, file.items@, #[trigger] cs[j])
                >= MIN_CALL_SITES && all[k].line_start == cs[j].line && (all[k].severity
                == Severity::Warning <==> spec_call_sites(policy, file.items@, cs[j])
                >= MIN_CALL_SITES * 2) by {
            if k < rest.len() {
                let j = choose|j: int|
                    0 <= j < cs.drop_last().len() && spec_call_sites(
                        policy,
                        file.items@,
                        #[trigger] cs.drop_last()[j],
                    ) >= MIN_CALL_SITES && rest[k].line_start == cs.drop_last()[j].line && (
                    rest[k].severity == Severity::Warning <==> spec_call_sites(
                        policy,
                        file.items@,
                        cs.drop_last()[j],
                    ) >= MIN_CALL_SITES * 2);
                assert(cs[j] == cs.drop_last()[j]);
                assert(all[k] == rest[k]);
            } else {
                assert(cs[cs.len() - 1] == cs.last());
            }
        }
    }
}

/// A function declared in an `impl Trait for Type` block is never an inline
/// candidate: a trait impl contributes no candidate at all, whatever methods,
/// attributes or nested items it holds and whatever the policy; neither does
/// an impl block, or a free function, that the policy marks as test code.
pub proof fn law_trait_impl_methods_are_never_candidates(policy: PolicyView, n: Node)
    requires
        (n.kind matches NodeKind::ItemImpl(h) && (h.trait_path is Some || spec_has_test_cfg(
            policy,
            h.attrs@,
        ))) || (n.kind matches NodeKind::ItemFn(f) && spec_has_test_cfg(policy, f.attrs@)),
    ensures
        candidates_in_node(policy, n).len() == 0,
{
}

/// The candidates of a sequence of items are those of each item in turn: an
/// item that is a trait impl adds none to what the items before it give.
pub proof fn law_trait_impls_add_no_candidates(policy: PolicyView, items: Seq<Node>, n: Node)
    requires
        n.kind matches NodeKind::ItemImpl(h) && h.trait_path is Some,
    ensures
        candidates_in_nodes(policy, items.push(n)) == candidates_in_nodes(policy, items),
{
    assert(items.push(n).drop_last() =~= items);
    assert(items.push(n).last() == n);
    assert(candidates_in_node(policy, n) =~= Seq::<CandidateView>::empty());
    assert(candidates_in_nodes(policy, items) + Seq::<CandidateView>::empty() =~= candidates_in_nodes(
        policy,
        items,
    ));
}

} // verus!
