//! Allocations inside loops: `to_owned()`, `String::from(..)` and `format!`
//! met while inside a `for`, `while` or `loop`.
use vstd::prelude::*;
use crate::detectors::implementation::unused_result::path_text;
use crate::detectors::policy::{has_test_cfg, spec_has_test_cfg, ActivePolicy, PolicyView};
use crate::domain::{finding, smell_views, Severity, Smell, SmellCategory, SmellView};
use crate::syntax::{
    path_idents, path_is_ident, path_last_ident, ExprShape, Node, NodeKind, PatShape,
    SourceFile, SynPath,
};
use crate::text::{append_str, chars_of, ends_with_seq, ends_with_str, join, str_eq, string_views};

verus! {

/// Detects allocation-like calls inside loops.
pub struct UnnecessaryAllocationInLoopDetector;

/// The result of `char::is_uppercase`: the character has the Unicode
/// `Uppercase` property.
pub uninterp spec fn unicode_uppercase(c: char) -> bool;

/// Calls `char::is_uppercase`. Its result is named `unicode_uppercase`; for an
/// ASCII character the documented answer is whether it is one of `A`..`Z`.
#[verifier::external_body]
fn is_uppercase(c: char) -> (r: bool)
    ensures
        r == unicode_uppercase(c),
        (c as u32) < 128 ==> (r <==> ('A' <= c && c <= 'Z')),
{
    c.is_uppercase()
}

// ---------------------------------------------------------------------------
// What does not count as a needless allocation
/// The names of collections that gather diagnostics.
pub open spec fn is_diagnostic_collection_name_spec(name: Seq<char>) -> bool {
    name == "smells"@ || name == "findings"@ || name == "evidence"@ || name == "usages"@ || name
        == "blocking_calls"@ || name == "lock_calls"@ || name == "spawns"@ || name == "parts"@
}

/// Whether `name` is the name of a diagnostic collection.
pub fn is_diagnostic_collection_name(name: &str) -> (r: bool)
    ensures
        r == is_diagnostic_collection_name_spec(name@),
{
    str_eq(name, "smells") || str_eq(name, "findings") || str_eq(name, "evidence") || str_eq(
        name,
        "usages",
    ) || str_eq(name, "blocking_calls") || str_eq(name, "lock_calls") || str_eq(name, "spawns")
        || str_eq(name, "parts")
}

/// The last name of a receiver: a path's last identifier or a named field.
pub open spec fn receiver_tail(e: ExprShape) -> Option<Seq<char>> {
    match e {
        ExprShape::Path(p) => path_last_ident(p),
        ExprShape::Field(member) => match member {
            Some(name) => Some(name@),
            None => None,
        },
        _ => None,
    }
}

/// The last name of a receiver.
pub fn receiver_path_tail(expr: &ExprShape) -> (r: Option<&String>)
    ensures
        match r {
            Some(s) => receiver_tail(*expr) == Some(s@),
            None => receiver_tail(*expr) is None,
        },
{
    match expr {
        ExprShape::Path(p) => match p.last_segment() {
            Some(seg) => Some(&seg.ident),
            None => None,
        },
        ExprShape::Field(member) => match member {
            Some(name) => Some(name),
            None => None,
        },
        _ => None,
    }
}

/// `push`, `extend` or `insert` on a diagnostic collection.
pub open spec fn spec_is_diagnostic_collection_mutation(method: Seq<char>, recv: ExprShape) -> bool {
    (method == "push"@ || method == "extend"@ || method == "insert"@) && match receiver_tail(
        recv,
    ) {
        Some(name) => is_diagnostic_collection_name_spec(name),
        None => false,
    }
}

/// Whether the method call adds to a diagnostic collection.
pub fn is_diagnostic_collection_mutation(method: &String, recv: &ExprShape) -> (r: bool)
    ensures
        r == spec_is_diagnostic_collection_mutation(method@, *recv),
{
    let m = method.as_str();
    if !(str_eq(m, "push") || str_eq(m, "extend") || str_eq(m, "insert")) {
        return false;
    }
    match receiver_path_tail(recv) {
        Some(name) => is_diagnostic_collection_name(name.as_str()),
        None => false,
    }
}

/// `map_err` or `ok_or_else`.
pub open spec fn spec_is_error_mapping_method(method: Seq<char>) -> bool {
    method == "map_err"@ || method == "ok_or_else"@
}

/// Whether the method maps errors.
pub fn is_error_mapping_method(method: &String) -> (r: bool)
    ensures
        r == spec_is_error_mapping_method(method@),
{
    str_eq(method.as_str(), "map_err") || str_eq(method.as_str(), "ok_or_else")
}

/// Whether the method attaches owned metadata: `with_origin`.
pub fn is_owned_metadata_method(method: &String) -> (r: bool)
    ensures
        r == (method@ == "with_origin"@),
{
    str_eq(method.as_str(), "with_origin")
}

/// `Smell::new` or `SourceLocation::new`: a path whose last two identifiers
/// are one of those types and `new`.
pub open spec fn spec_is_diagnostic_constructor(func: ExprShape) -> bool {
    match func {
        ExprShape::Path(p) => {
            let ids = path_idents(p);
            ids.len() >= 2 && ids.last() == "new"@ && (ids[ids.len() - 2] == "Smell"@ || ids[ids.len()
                - 2] == "SourceLocation"@)
        },
        _ => false,
    }
}

/// Whether the call builds a diagnostic.
pub fn is_diagnostic_constructor(func: &ExprShape) -> (r: bool)
    ensures
        r == spec_is_diagnostic_constructor(*func),
{
    match func {
        ExprShape::Path(p) => {
            let n = p.segments.len();
            if n < 2 {
                return false;
            }
            assert(path_idents(*p).last() == p.segments@[n - 1].ident@);
            assert(path_idents(*p)[n - 2] == p.segments@[n - 2].ident@);
            let method = p.segments[n - 1].ident.as_str();
            let receiver = p.segments[n - 2].ident.as_str();
            str_eq(method, "new") && (str_eq(receiver, "Smell") || str_eq(
                receiver,
                "SourceLocation",
            ))
        },
        _ => false,
    }
}

/// `char::is_uppercase`: for an ASCII character, one of `A`..`Z`; for any
/// other, the Unicode `Uppercase` property.
pub open spec fn is_upper(c: char) -> bool {
    if (c as u32) < 128 {
        'A' <= c && c <= 'Z'
    } else {
        unicode_uppercase(c)
    }
}

/// `Err(..)`, or a constructor of an error type: a path whose last but one
/// identifier is `ApplicationError` or ends in `Error`, and whose last is
/// `new`, `fatal`, `external`, `conflict` or starts with an uppercase letter.
pub open spec fn spec_is_error_constructor(func: ExprShape) -> bool {
    match func {
        ExprShape::Path(p) => {
            let ids = path_idents(p);
            ids.len() >= 1 && (ids.last() == "Err"@ || (ids.len() >= 2 && {
                let receiver = ids[ids.len() - 2];
                let method = ids.last();
                (receiver == "ApplicationError"@ || ends_with_seq(receiver, "Error"@)) && (method
                    == "new"@ || method == "fatal"@ || method == "external"@ || method
                    == "conflict"@ || (method.len() > 0 && is_upper(method[0])))
            }))
        },
        _ => false,
    }
}

/// Whether the call builds an error.
pub fn is_error_constructor(func: &ExprShape) -> (r: bool)
    ensures
        r == spec_is_error_constructor(*func),
{
    match func {
        ExprShape::Path(p) => {
            let n = p.segments.len();
            if n < 1 {
                return false;
            }
            assert(path_idents(*p).last() == p.segments@[n - 1].ident@);
            let method = p.segments[n - 1].ident.as_str();
            if str_eq(method, "Err") {
                return true;
            }
            if n < 2 {
                return false;
            }
            assert(path_idents(*p)[n - 2] == p.segments@[n - 2].ident@);
            let receiver = p.segments[n - 2].ident.as_str();
            if !(str_eq(receiver, "ApplicationError") || ends_with_str(receiver, "Error")) {
                return false;
            }
            if str_eq(method, "new") || str_eq(method, "fatal") || str_eq(method, "external")
                || str_eq(method, "conflict") {
                return true;
            }
            let cs = chars_of(method);
            cs.len() > 0 && is_uppercase(cs[0])
        },
        _ => false,
    }
}

/// The struct's last identifier ends in `Visitor`.
pub open spec fn spec_is_visitor_struct(p: SynPath) -> bool {
    match path_last_ident(p) {
        Some(id) => ends_with_seq(id, "Visitor"@),
        None => false,
    }
}

/// Whether the struct literal builds a visitor.
pub fn is_visitor_struct(path: &SynPath) -> (r: bool)
    ensures
        r == spec_is_visitor_struct(*path),
{
    match path.last_segment() {
        Some(seg) => ends_with_str(seg.ident.as_str(), "Visitor"),
        None => false,
    }
}

/// The name a pattern binds.
pub fn pat_ident(pat: &PatShape) -> (r: Option<&String>)
    ensures
        match r {
            Some(s) => *pat == PatShape::Ident(*s),
            None => !(pat is Ident),
        },
{
    match pat {
        PatShape::Ident(name) => Some(name),
        _ => None,
    }
}

/// `let <diagnostic collection> = vec![..];`
pub open spec fn spec_is_diagnostic_collection_init(pat: PatShape, init: Option<ExprShape>) -> bool {
    match pat {
        PatShape::Ident(name) => is_diagnostic_collection_name_spec(name@) && match init {
            Some(ExprShape::Macro(p, _)) => path_is_ident(p, "vec"@),
            _ => false,
        },
        _ => false,
    }
}

/// Whether the `let` starts a diagnostic collection.
pub fn is_diagnostic_collection_init(pat: &PatShape, init: &Option<ExprShape>) -> (r: bool)
    ensures
        r == spec_is_diagnostic_collection_init(*pat, *init),
{
    match pat_ident(pat) {
        Some(name) => is_diagnostic_collection_name(name.as_str()) && match init {
            Some(ExprShape::Macro(p, _)) => p.is_ident("vec"),
            _ => false,
        },
        None => false,
    }
}

// ---------------------------------------------------------------------------
// The walk
/// The allocation findings (line, call) in the tree `n`, in visiting order;
/// `in_loop` tells whether `n` lies inside a loop. Test modules and test
/// functions are skipped whole; inside a loop, calls that build diagnostics
/// or errors, diagnostic collections, `&format!(..)` and visitor literals are
/// skipped whole too.
pub open spec fn alloc_in_node(policy: PolicyView, n: Node, in_loop: bool) -> Seq<
    (usize, Seq<char>),
>
    decreases n,
{
    match n.kind {
        NodeKind::ItemMod(attrs) => if spec_has_test_cfg(policy, attrs@) {
            Seq::empty()
        } else {
            alloc_in_nodes(policy, n.children@, in_loop)
        },
        NodeKind::ItemFn(f) => if spec_has_test_cfg(policy, f.attrs@) {
            Seq::empty()
        } else {
            alloc_in_nodes(policy, n.children@, in_loop) + alloc_in_nodes(policy, f.body@, in_loop)
        },
        NodeKind::ImplFn(f) => alloc_in_nodes(policy, n.children@, in_loop) + alloc_in_nodes(
            policy,
            f.body@,
            in_loop,
        ),
        NodeKind::ExprForLoop | NodeKind::ExprWhile | NodeKind::ExprLoop => alloc_in_nodes(
            policy,
            n.children@,
            true,
        ),
        NodeKind::ExprMethodCall(m, line, recv) => if in_loop && (
        spec_is_diagnostic_collection_mutation(m@, recv) || spec_is_error_mapping_method(m@)
            || m@ == "with_origin"@) {
            Seq::empty()
        } else {
            (if in_loop && m@ == "to_owned"@ {
                seq![(line, "to_owned"@)]
            } else {
                Seq::empty()
            }) + alloc_in_nodes(policy, n.children@, in_loop)
        },
        NodeKind::ExprCall(func) => if in_loop && (spec_is_diagnostic_constructor(func)
            || spec_is_error_constructor(func)) {
            Seq::empty()
        } else {
            (match func {
                ExprShape::Path(p) => if in_loop && path_text(p) == "String::from"@ {
                    seq![(p.segments@.last().line, "String::from"@)]
                } else {
                    Seq::empty()
                },
                _ => Seq::empty(),
            }) + alloc_in_nodes(policy, n.children@, in_loop)
        },
        NodeKind::Local(pat, init) => if in_loop && spec_is_diagnostic_collection_init(pat, init) {
            Seq::empty()
        } else {
            alloc_in_nodes(policy, n.children@, in_loop)
        },
        NodeKind::ExprReference(inner) => if in_loop && match inner {
            ExprShape::Macro(p, _) => path_is_ident(p, "format"@),
            _ => false,
        } {
            Seq::empty()
        } else {
            alloc_in_nodes(policy, n.children@, in_loop)
        },
        NodeKind::ExprStruct(p) => if in_loop && spec_is_visitor_struct(p) {
            Seq::empty()
        } else {
            alloc_in_nodes(policy, n.children@, in_loop)
        },
        NodeKind::Macro(p) => (if in_loop && path_is_ident(p, "format"@) {
            seq![(p.segments@[0].line, "format!"@)]
        } else {
            Seq::empty()
        }) + alloc_in_nodes(policy, n.children@, in_loop),
        _ => alloc_in_nodes(policy, n.children@, in_loop),
    }
}

/// The allocation findings in the trees `s`, in order.
pub open spec fn alloc_in_nodes(policy: PolicyView, s: Seq<Node>, in_loop: bool) -> Seq<
    (usize, Seq<char>),
>
    decreases s,
{
    if s.len() == 0 {
        Seq::empty()
    } else {
        alloc_in_nodes(policy, s.drop_last(), in_loop) + alloc_in_node(policy, s.last(), in_loop)
    }
}

/// Walks a syntax tree, tracking how deep in loops it is.
pub struct AllocationLoopVisitor {
    pub loop_depth: usize,
    pub findings: Vec<(usize, String)>,
}

/// The views of collected findings.
pub open spec fn finding_views(v: Seq<(usize, String)>) -> Seq<(usize, Seq<char>)> {
    v.map_values(|f: (usize, String)| (f.0, f.1@))
}

impl AllocationLoopVisitor {
    fn record(&mut self, line: usize, call: &str)
        ensures
            final(self).loop_depth == old(self).loop_depth,
            finding_views(final(self).findings@) == finding_views(old(self).findings@).push(
                (line, call@),
            ),
    {
        let ghost before = self.findings@;
        self.findings.push((line, String::from_str(call)));
        assert(finding_views(self.findings@) =~= finding_views(before).push((line, call@)));
    }

    /// Walks the tree `n`.
    pub fn visit_node(&mut self, policy: &ActivePolicy, n: &Node)
        ensures
            final(self).loop_depth == old(self).loop_depth,
            finding_views(final(self).findings@) == finding_views(old(self).findings@)
                + alloc_in_node(policy@, *n, old(self).loop_depth > 0),
        decreases n,
    {
        let ghost start = finding_views(self.findings@);
        let ghost in_loop = self.loop_depth > 0;
        let in_loop_now = self.loop_depth > 0;
        match &n.kind {
            NodeKind::ItemMod(attrs) => {
                if !has_test_cfg(policy, attrs) {
                    self.visit_nodes(policy, &n.children);
                }
            },
            NodeKind::ItemFn(f) => {
                if !has_test_cfg(policy, &f.attrs) {
                    self.visit_nodes(policy, &n.children);
                    self.visit_nodes(policy, &f.body);
                }
            },
            NodeKind::ImplFn(f) => {
                self.visit_nodes(policy, &n.children);
                self.visit_nodes(policy, &f.body);
            },
            NodeKind::ExprForLoop | NodeKind::ExprWhile | NodeKind::ExprLoop => {
                let saved = self.loop_depth;
                self.loop_depth = saved.saturating_add(1);
                self.visit_nodes(policy, &n.children);
                self.loop_depth = saved;
            },
            NodeKind::ExprMethodCall(m, line, recv) => {
                let skip = in_loop_now && (is_diagnostic_collection_mutation(m, recv)
                    || is_error_mapping_method(m) || is_owned_metadata_method(m));
                if !skip {
                    if in_loop_now && str_eq(m.as_str(), "to_owned") {
                        self.record(*line, "to_owned");
                    }
                    self.visit_nodes(policy, &n.children);
                }
            },
            NodeKind::ExprCall(func) => {
                let skip = in_loop_now && (is_diagnostic_constructor(func) || is_error_constructor(
                    func,
                ));
                if !skip {
                    match func {
                        ExprShape::Path(p) => {
                            if in_loop_now {
                                let call = crate::detectors::implementation::unused_result::path_to_string(
                                    p,
                                );
                                if str_eq(call.as_str(), "String::from") {
                                    proof {
                                        reveal_strlit("String::from");
                                    }
                                    assert(p.segments@.len() > 0) by {
                                        if p.segments@.len() == 0 {
                                            assert(path_idents(*p).len() == 0);
                                            assert(crate::text::join(path_idents(*p), "::"@).len() == 0);
                                        }
                                    }
                                    let line = p.segments[p.segments.len() - 1].line;
                                    self.record(line, "String::from");
                                }
                            }
                        },
                        _ => {},
                    }
                    self.visit_nodes(policy, &n.children);
                }
            },
            NodeKind::Local(pat, init) => {
                if !(in_loop_now && is_diagnostic_collection_init(pat, init)) {
                    self.visit_nodes(policy, &n.children);
                }
            },
            NodeKind::ExprReference(inner) => {
                let skip = in_loop_now && match inner {
                    ExprShape::Macro(p, _) => p.is_ident("format"),
                    _ => false,
                };
                if !skip {
                    self.visit_nodes(policy, &n.children);
                }
            },
            NodeKind::ExprStruct(p) => {
                if !(in_loop_now && is_visitor_struct(p)) {
                    self.visit_nodes(policy, &n.children);
                }
            },
            NodeKind::Macro(p) => {
                if in_loop_now && p.is_ident("format") {
                    let line = p.segments[0].line;
                    self.record(line, "format!");
                }
                self.visit_nodes(policy, &n.children);
            },
            _ => {
                self.visit_nodes(policy, &n.children);
            },
        }
        assert(finding_views(self.findings@) =~= start + alloc_in_node(policy@, *n, in_loop));
    }

    /// Walks the trees `nodes`, in order.
    pub fn visit_nodes(&mut self, policy: &ActivePolicy, nodes: &Vec<Node>)
        ensures
            final(self).loop_depth == old(self).loop_depth,
            finding_views(final(self).findings@) == finding_views(old(self).findings@)
                + alloc_in_nodes(policy@, nodes@, old(self).loop_depth > 0),
        decreases nodes,
    {
        let ghost start = finding_views(self.findings@);
        let ghost in_loop = self.loop_depth > 0;
        let mut i: usize = 0;
        while i < nodes.len()
            invariant
                i <= nodes.len(),
                self.loop_depth == old(self).loop_depth,
                in_loop == (self.loop_depth > 0),
                finding_views(self.findings@) == start + alloc_in_nodes(
                    policy@,
                    nodes@.take(i as int),
                    in_loop,
                ),
            decreases nodes.len() - i,
        {
            assert(nodes@.take(i + 1).drop_last() =~= nodes@.take(i as int));
            proof {
                assert(decreases_to!(nodes => nodes@[i as int]));
            }
            self.visit_node(policy, &nodes[i]);
            assert(start + alloc_in_nodes(policy@, nodes@.take(i + 1), in_loop) =~= start
                + alloc_in_nodes(policy@, nodes@.take(i as int), in_loop) + alloc_in_node(
                policy@,
                nodes@[i as int],
                in_loop,
            ));
            i += 1;
        }
        assert(nodes@.take(i as int) =~= nodes@);
    }
}

/// The findings of a file: one per allocation met inside a loop, in visiting
/// order.
pub open spec fn spec_allocation_in_loop(policy: PolicyView, file: SourceFile) -> Seq<SmellView> {
    alloc_in_nodes(policy, file.items@, false).map_values(
        |f: (usize, Seq<char>)|
            finding(
                SmellCategory::Performance,
                "Unnecessary Allocation in Loop"@,
                Severity::Info,
                file.path@,
                f.0,
                f.0,
                "Allocation-like call `"@ + f.1 + "` appears inside a loop"@,
                "Move reusable allocation outside the loop or borrow data where possible."@,
            ),
    )
}

impl UnnecessaryAllocationInLoopDetector {
    pub fn name(&self) -> (r: &'static str)
        ensures
            r@ == "Unnecessary Allocation in Loop"@,
    {
        "Unnecessary Allocation in Loop"
    }

    /// The allocation-in-loop findings of `file` under the policy in force.
    pub fn detect(&self, file: &SourceFile, policy: &ActivePolicy) -> (r: Vec<Smell>)
        ensures
            smell_views(r@) == spec_allocation_in_loop(policy@, *file),
    {
        let mut visitor = AllocationLoopVisitor { loop_depth: 0, findings: Vec::new() };
        assert(finding_views(visitor.findings@) =~= Seq::<(usize, Seq<char>)>::empty());
        visitor.visit_nodes(policy, &file.items);
        let ghost all = spec_allocation_in_loop(policy@, *file);
        let mut smells: Vec<Smell> = Vec::new();
        let mut k: usize = 0;
        while k < visitor.findings.len()
            invariant
                k <= visitor.findings.len(),
                finding_views(visitor.findings@) == alloc_in_nodes(policy@, file.items@, false),
                smell_views(smells@) == all.take(k as int),
            decreases visitor.findings.len() - k,
        {
            let line = visitor.findings[k].0;
            let mut msg = String::from_str("Allocation-like call `");
            append_str(&mut msg, visitor.findings[k].1.as_str());
            append_str(&mut msg, "` appears inside a loop");
            let ghost before = smells@;
            smells.push(
                Smell::at_lines(
                    SmellCategory::Performance,
                    "Unnecessary Allocation in Loop",
                    Severity::Info,
                    &file.path,
                    line,
                    line,
                    msg,
                    "Move reusable allocation outside the loop or borrow data where possible.",
                ),
            );
            assert(finding_views(visitor.findings@)[k as int] == (
            line,
            visitor.findings@[k as int].1@,
            ));
            assert(smell_views(smells@) =~= all.take(k + 1));
            k += 1;
        }
        assert(all.take(k as int) =~= all);
        smells
    }
}

// ---------------------------------------------------------------------------
// Laws
/// The tree holds no `for`, `while` or `loop`.
pub open spec fn loop_free_node(n: Node) -> bool
    decreases n,
{
    !(n.kind is ExprForLoop || n.kind is ExprWhile || n.kind is ExprLoop) && loop_free_nodes(
        n.children@,
    ) && match n.kind {
        NodeKind::ItemFn(f) => loop_free_nodes(f.body@),
        NodeKind::ImplFn(f) => loop_free_nodes(f.body@),
        _ => true,
    }
}

/// None of the trees holds a loop.
pub open spec fn loop_free_nodes(s: Seq<Node>) -> bool
    decreases s,
{
    if s.len() == 0 {
        true
    } else {
        loop_free_nodes(s.drop_last()) && loop_free_node(s.last())
    }
}

/// Code outside every loop yields no allocation finding.
pub proof fn law_no_finding_outside_loops(policy: PolicyView, n: Node)
    requires
        loop_free_node(n),
    ensures
        alloc_in_node(policy, n, false) == Seq::<(usize, Seq<char>)>::empty(),
    decreases n,
{
    law_no_finding_outside_loops_list(policy, n.children@);
    match n.kind {
        NodeKind::ItemFn(f) => law_no_finding_outside_loops_list(policy, f.body@),
        NodeKind::ImplFn(f) => law_no_finding_outside_loops_list(policy, f.body@),
        _ => {},
    }
    assert(alloc_in_node(policy, n, false) =~= Seq::<(usize, Seq<char>)>::empty());
}

/// Trees outside every loop yield no allocation finding.
pub proof fn law_no_finding_outside_loops_list(policy: PolicyView, s: Seq<Node>)
    requires
        loop_free_nodes(s),
    ensures
        alloc_in_nodes(policy, s, false) == Seq::<(usize, Seq<char>)>::empty(),
    decreases s,
{
    if s.len() > 0 {
        law_no_finding_outside_loops_list(policy, s.drop_last());
        law_no_finding_outside_loops(policy, s.last());
        assert(alloc_in_nodes(policy, s, false) =~= Seq::<(usize, Seq<char>)>::empty());
    }
}

/// The body of a `while` loop, like that of a `for` loop or a `loop`, lies
/// inside a loop: its findings are those of its contents taken as in a loop,
/// whether or not the loop itself is nested in another.
pub proof fn law_loop_bodies_are_in_a_loop(policy: PolicyView, n: Node, in_loop: bool)
    requires
        n.kind is ExprWhile || n.kind is ExprForLoop || n.kind is ExprLoop,
    ensures
        alloc_in_node(policy, n, in_loop) == alloc_in_nodes(policy, n.children@, true),
{
}

/// A `to_owned()` call standing directly in the body of a `while`, `for` or
/// `loop` is exactly one finding, at the line of the method name, named
/// `to_owned`.
pub proof fn law_to_owned_in_a_loop_is_reported(
    policy: PolicyView,
    looped: Node,
    call: Node,
    method: String,
    line: usize,
    recv: ExprShape,
    in_loop: bool,
)
    requires
        looped.kind is ExprWhile || looped.kind is ExprForLoop || looped.kind is ExprLoop,
        looped.children@ == seq![call],
        call.kind == NodeKind::ExprMethodCall(method, line, recv),
        call.children@.len() == 0,
        method@ == "to_owned"@,
    ensures
        alloc_in_node(policy, looped, in_loop) == seq![(line, "to_owned"@)],
{
    reveal_strlit("to_owned");
    reveal_strlit("push");
    reveal_strlit("extend");
    reveal_strlit("insert");
    reveal_strlit("map_err");
    reveal_strlit("ok_or_else");
    reveal_strlit("with_origin");
    assert("to_owned"@.len() == 8 && "push"@.len() == 4 && "extend"@.len() == 6 && "insert"@.len()
        == 6 && "map_err"@.len() == 7 && "ok_or_else"@.len() == 10 && "with_origin"@.len() == 11);
    assert(!spec_is_diagnostic_collection_mutation(method@, recv));
    assert(!spec_is_error_mapping_method(method@));
    assert(method@ != "with_origin"@);
    law_loop_bodies_are_in_a_loop(policy, looped, in_loop);
    assert(looped.children@.drop_last() =~= Seq::<Node>::empty());
    assert(looped.children@.last() == call);
    let ch = looped.children@;
    assert(alloc_in_nodes(policy, ch.drop_last(), true) =~= Seq::<(usize, Seq<char>)>::empty());
    assert(alloc_in_nodes(policy, ch, true) == alloc_in_nodes(policy, ch.drop_last(), true)
        + alloc_in_node(policy, ch.last(), true));
    assert(alloc_in_nodes(policy, call.children@, true) =~= Seq::<(usize, Seq<char>)>::empty());
    assert(alloc_in_node(policy, call, true) =~= seq![(line, "to_owned"@)]);
    assert(Seq::<(usize, Seq<char>)>::empty() + seq![(line, "to_owned"@)] =~= seq![
        (line, "to_owned"@),
    ]);
}

/// A `format!` invocation met inside a loop is one finding, at the line of
/// its `format` identifier, named `format!`; outside a loop it is none.
pub proof fn law_format_in_a_loop_is_reported(policy: PolicyView, n: Node, in_loop: bool)
    requires
        n.kind matches NodeKind::Macro(p) && path_is_ident(p, "format"@),
        n.children@.len() == 0,
    ensures
        alloc_in_node(policy, n, in_loop) == (if in_loop {
            seq![(n.kind->Macro_0.segments@[0].line, "format!"@)]
        } else {
            Seq::<(usize, Seq<char>)>::empty()
        }),
{
    assert(alloc_in_nodes(policy, n.children@, in_loop) =~= Seq::<(usize, Seq<char>)>::empty());
    assert(seq![(n.kind->Macro_0.segments@[0].line, "format!"@)] + Seq::<(usize, Seq<char>)>::empty()
        =~= seq![(n.kind->Macro_0.segments@[0].line, "format!"@)]);
    assert(Seq::<(usize, Seq<char>)>::empty() + Seq::<(usize, Seq<char>)>::empty() =~= Seq::<
        (usize, Seq<char>),
    >::empty());
}

/// A call of `String::from` met inside a loop is one finding, at the line of
/// its `from` identifier, named `String::from`; outside a loop it is none.
pub proof fn law_string_from_in_a_loop_is_reported(policy: PolicyView, n: Node, p: SynPath, in_loop: bool)
    requires
        n.kind == NodeKind::ExprCall(ExprShape::Path(p)),
        path_idents(p) == seq!["String"@, "from"@],
        n.children@.len() == 0,
    ensures
        alloc_in_node(policy, n, in_loop) == (if in_loop {
            seq![(p.segments@[1].line, "String::from"@)]
        } else {
            Seq::<(usize, Seq<char>)>::empty()
        }),
{
    reveal_strlit("String");
    reveal_strlit("from");
    reveal_strlit("String::from");
    reveal_strlit("::");
    reveal_strlit("new");
    reveal_strlit("Err");
    reveal_strlit("Error");
    reveal_strlit("Smell");
    reveal_strlit("SourceLocation");
    reveal_strlit("ApplicationError");
    let ids = path_idents(p);
    assert(ids.len() == 2 && ids[0] == "String"@ && ids[1] == "from"@);
    assert(p.segments@.len() == 2);
    assert("from"@.len() == 4 && "new"@.len() == 3 && "Err"@.len() == 3);
    assert(!spec_is_diagnostic_constructor(ExprShape::Path(p)));
    assert("String"@.subrange(1, 6)[0] == 't' && "Error"@[0] == 'E');
    assert("String"@.subrange(1, 6) != "Error"@);
    assert(!ends_with_seq("String"@, "Error"@));
    assert(!spec_is_error_constructor(ExprShape::Path(p)));
    assert(ids.drop_last() =~= seq!["String"@]);
    assert(join(ids.drop_last(), "::"@) == "String"@);
    assert(path_text(p) == join(ids, "::"@));
    assert("String"@ + "::"@ + "from"@ =~= "String::from"@);
    assert(alloc_in_nodes(policy, n.children@, in_loop) =~= Seq::<(usize, Seq<char>)>::empty());
    assert(seq![(p.segments@[1].line, "String::from"@)] + Seq::<(usize, Seq<char>)>::empty()
        =~= seq![(p.segments@[1].line, "String::from"@)]);
    assert(Seq::<(usize, Seq<char>)>::empty() + Seq::<(usize, Seq<char>)>::empty() =~= Seq::<
        (usize, Seq<char>),
    >::empty());
}

} // verus!
