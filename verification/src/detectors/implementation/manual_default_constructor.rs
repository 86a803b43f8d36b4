//! Manual default constructors: `new()` functions that only build default
//! values.
use vstd::prelude::*;
use crate::domain::{finding, smell_views, Severity, Smell, SmellCategory, SmellView};
use crate::syntax::{
    path_idents, path_is_ident, Block, ExprShape, FnDecl, Node, NodeKind, Param, SourceFile,
    TypeShape,
};
use crate::text::str_eq;

verus! {

/// Detects `new()` constructors that only return default values.
pub struct ManualDefaultConstructorDetector;

/// The declared return type is `Self`.
pub open spec fn spec_returns_self(output: Option<TypeShape>) -> bool {
    match output {
        Some(TypeShape::Path(p)) => path_is_ident(p, "Self"@),
        _ => false,
    }
}

/// Whether the declared return type is `Self`.
pub fn returns_self(output: &Option<TypeShape>) -> (r: bool)
    ensures
        r == spec_returns_self(*output),
{
    match output {
        Some(TypeShape::Path(p)) => p.is_ident("Self"),
        _ => false,
    }
}

/// Whether the function takes no parameters.
pub fn has_no_inputs(inputs: &Vec<Param>) -> (r: bool)
    ensures
        r == (inputs@.len() == 0),
{
    inputs.len() == 0
}

/// The call is of a two-segment path `Default`, `Self`, `String` or `Vec`
/// followed by `default` or `new`.
pub open spec fn spec_is_default_call(func: ExprShape) -> bool {
    match func {
        ExprShape::Path(p) => {
            let ids = path_idents(p);
            ids.len() == 2 && (ids[0] == "Default"@ || ids[0] == "Self"@ || ids[0] == "String"@
                || ids[0] == "Vec"@) && (ids[1] == "default"@ || ids[1] == "new"@)
        },
        _ => false,
    }
}

/// Whether the called expression is a default constructor.
pub fn is_default_call(func: &ExprShape) -> (r: bool)
    ensures
        r == spec_is_default_call(*func),
{
    match func {
        ExprShape::Path(p) => {
            if p.segments.len() != 2 {
                return false;
            }
            assert(path_idents(*p)[0] == p.segments@[0].ident@);
            assert(path_idents(*p)[1] == p.segments@[1].ident@);
            let a = p.segments[0].ident.as_str();
            let b = p.segments[1].ident.as_str();
            (str_eq(a, "Default") || str_eq(a, "Self") || str_eq(a, "String") || str_eq(a, "Vec"))
                && (str_eq(b, "default") || str_eq(b, "new"))
        },
        _ => false,
    }
}

/// The expression builds only default values: a default constructor call, or
/// a `Self { .. }` literal with at least one field, every field value built
/// only from default values.
pub open spec fn spec_is_defaultish_expr(e: ExprShape) -> bool
    decreases e,
{
    match e {
        ExprShape::Call(func) => spec_is_default_call(*func),
        ExprShape::Struct(p, fields) => path_is_ident(p, "Self"@) && fields@.len() > 0
            && all_defaultish(fields@),
        _ => false,
    }
}

/// Every expression builds only default values.
pub open spec fn all_defaultish(fields: Seq<ExprShape>) -> bool
    decreases fields,
{
    if fields.len() == 0 {
        true
    } else {
        all_defaultish(fields.drop_last()) && spec_is_defaultish_expr(fields.last())
    }
}

/// Whether the expression builds only default values.
pub fn is_defaultish_expr(expr: &ExprShape) -> (r: bool)
    ensures
        r == spec_is_defaultish_expr(*expr),
    decreases expr,
{
    match expr {
        ExprShape::Call(func) => is_default_call(func),
        ExprShape::Struct(p, fields) => {
            if !p.is_ident("Self") || fields.len() == 0 {
                return false;
            }
            let mut i: usize = 0;
            while i < fields.len()
                invariant
                    i <= fields.len(),
                    all_defaultish(fields@.take(i as int)),
                decreases fields.len() - i,
            {
                assert(fields@.take(i + 1).drop_last() =~= fields@.take(i as int));
                proof {
                    assert(decreases_to!(*expr => fields@[i as int]));
                }
                if !is_defaultish_expr(&fields[i]) {
                    proof {
                        if all_defaultish(fields@) {
                            lemma_all_defaultish_prefix(fields@, i + 1);
                        }
                    }
                    return false;
                }
                i += 1;
            }
            assert(fields@.take(i as int) =~= fields@);
            true
        },
        _ => false,
    }
}

proof fn lemma_all_defaultish_prefix(s: Seq<ExprShape>, k: int)
    requires
        0 <= k <= s.len(),
        all_defaultish(s),
    ensures
        all_defaultish(s.take(k)),
    decreases s.len(),
{
    if k < s.len() {
        lemma_all_defaultish_prefix(s.drop_last(), k);
        assert(s.drop_last().take(k) =~= s.take(k));
    } else {
        assert(s.take(k) =~= s);
    }
}

/// The body's only expression, when it is a single expression without a
/// trailing semicolon.
pub fn single_tail_expr(block: &Block) -> (r: Option<&ExprShape>)
    ensures
        match r {
            Some(e) => block.tail == Some(*e),
            None => block.tail is None,
        },
{
    match &block.tail {
        Some(e) => Some(e),
        None => None,
    }
}

/// The body is a single expression that builds only default values.
pub open spec fn spec_body_is_defaultish(b: Block) -> bool {
    match b.tail {
        Some(e) => spec_is_defaultish_expr(e),
        None => false,
    }
}

/// Whether the body only builds default values.
pub fn body_is_defaultish(block: &Block) -> (r: bool)
    ensures
        r == spec_body_is_defaultish(*block),
{
    match single_tail_expr(block) {
        Some(e) => is_defaultish_expr(e),
        None => false,
    }
}

/// The function is `fn new() -> Self` whose body only builds default values.
pub open spec fn is_manual_default(f: FnDecl) -> bool {
    f.sig.ident@ == "new"@ && spec_returns_self(f.sig.output) && f.sig.inputs@.len() == 0
        && spec_body_is_defaultish(f.block)
}

/// The findings for the functions among the nodes of an impl, in order.
pub open spec fn default_findings(path: Seq<char>, s: Seq<Node>) -> Seq<SmellView>
    decreases s.len(),
{
    if s.len() == 0 {
        Seq::empty()
    } else {
        let rest = default_findings(path, s.drop_last());
        match s.last().kind {
            NodeKind::ImplFn(f) => if is_manual_default(f) {
                rest.push(
                    finding(
                        SmellCategory::Idiomaticity,
                        "Manual Default Constructor"@,
                        Severity::Info,
                        path,
                        f.sig.fn_line,
                        f.sig.fn_line,
                        "Constructor `new` appears to return only default field values"@,
                        "Implement or derive Default and delegate `new()` to `Self::default()`."@,
                    ),
                )
            } else {
                rest
            },
            _ => rest,
        }
    }
}

/// The findings for the top-level items: in each impl, each manual default
/// constructor, in order.
pub open spec fn spec_manual_default(path: Seq<char>, items: Seq<Node>) -> Seq<SmellView>
    decreases items.len(),
{
    if items.len() == 0 {
        Seq::empty()
    } else {
        spec_manual_default(path, items.drop_last()) + match items.last().kind {
            NodeKind::ItemImpl(_) => default_findings(path, items.last().children@),
            _ => Seq::empty(),
        }
    }
}

fn check_impl(path: &String, nodes: &Vec<Node>, smells: &mut Vec<Smell>)
    ensures
        smell_views(final(smells)@) == smell_views(old(smells)@) + default_findings(path@, nodes@),
{
    let ghost start = smell_views(smells@);
    let mut i: usize = 0;
    while i < nodes.len()
        invariant
            i <= nodes.len(),
            smell_views(smells@) == start + default_findings(path@, nodes@.take(i as int)),
        decreases nodes.len() - i,
    {
        assert(nodes@.take(i + 1).drop_last() =~= nodes@.take(i as int));
        let ghost before = smells@;
        match &nodes[i].kind {
            NodeKind::ImplFn(func) => {
                if str_eq(func.sig.ident.as_str(), "new") && returns_self(&func.sig.output)
                    && has_no_inputs(&func.sig.inputs) && body_is_defaultish(&func.block) {
                    let line = func.sig.fn_line;
                    smells.push(
                        Smell::at_lines(
                            SmellCategory::Idiomaticity,
                            "Manual Default Constructor",
                            Severity::Info,
                            path,
                            line,
                            line,
                            String::from_str(
                                "Constructor `new` appears to return only default field values",
                            ),
                            "Implement or derive Default and delegate `new()` to `Self::default()`.",
                        ),
                    );
                    assert(smell_views(smells@) =~= smell_views(before).push(smells@.last()@));
                }
            },
            _ => {},
        }
        i += 1;
    }
    assert(nodes@.take(i as int) =~= nodes@);
}

impl ManualDefaultConstructorDetector {
    pub fn name(&self) -> (r: &'static str)
        ensures
            r@ == "Manual Default Constructor"@,
    {
        "Manual Default Constructor"
    }

    /// The manual-default-constructor findings of `file`.
    pub fn detect(&self, file: &SourceFile) -> (r: Vec<Smell>)
        ensures
            smell_views(r@) == spec_manual_default(file.path@, file.items@),
    {
        let mut smells: Vec<Smell> = Vec::new();
        let mut i: usize = 0;
        while i < file.items.len()
            invariant
                i <= file.items.len(),
                smell_views(smells@) == spec_manual_default(file.path@, file.items@.take(i as int)),
            decreases file.items.len() - i,
        {
            assert(file.items@.take(i + 1).drop_last() =~= file.items@.take(i as int));
            let ghost before = smell_views(smells@);
            match &file.items[i].kind {
                NodeKind::ItemImpl(_) => check_impl(&file.path, &file.items[i].children, &mut smells),
                _ => {},
            }
            assert(smell_views(smells@) =~= spec_manual_default(
                file.path@,
                file.items@.take(i + 1),
            ));
            i += 1;
        }
        assert(file.items@.take(i as int) =~= file.items@);
        smells
    }
}

} // verus!
