//! Ignored results: `let _ = expr;` that throws away a `Result` or an
//! `Option`.
//!
//! The syntax model carries no types. A discard is left alone when its
//! syntax shows that the value is not a `Result` or an `Option` (a literal, a
//! reference, a struct literal, `format!`/`vec!`, a std method such as `len`
//! whose result never is one, or a call of a function of the file declared to
//! return a plain type), and when it is known to be harmless (a write into a
//! local `String`, a send on a channel). Every other discard is reported.
use vstd::prelude::*;
use crate::detectors::policy::{is_test_path, spec_is_test_path, ActivePolicy, PolicyView};
use crate::domain::{finding, smell_views, Severity, Smell, SmellCategory, SmellView};
use crate::syntax::{
    path_get_ident, path_idents, path_is_ident, path_last_ident, ExprShape, Node, NodeKind,
    Param, PatShape, Signature, SourceFile, SynPath, TypeShape,
};
use crate::text::{
    append_str, contains_string, ends_with_seq, ends_with_str, join, join_strings, str_eq,
    string_views,
};

verus! {

/// Detects `let _ = expr;` where `expr` may be a `Result` or an `Option`: its
/// syntax does not show a value of another type, and the discard is not
/// known to be harmless.
pub struct UnusedResultDetector;

// ---------------------------------------------------------------------------
// Reading expressions
/// The path's segments joined with `::`.
pub open spec fn path_text(p: SynPath) -> Seq<char> {
    join(path_idents(p), "::"@)
}

/// The text of a path: its identifiers joined with `::`.
pub fn path_to_string(path: &SynPath) -> (r: String)
    ensures
        r@ == path_text(*path),
{
    let mut idents: Vec<String> = Vec::new();
    let mut i: usize = 0;
    while i < path.segments.len()
        invariant
            i <= path.segments.len(),
            string_views(idents@) == path_idents(*path).take(i as int),
        decreases path.segments.len() - i,
    {
        idents.push(path.segments[i].ident.clone());
        assert(string_views(idents@) =~= path_idents(*path).take(i + 1));
        i += 1;
    }
    assert(path_idents(*path).take(i as int) =~= path_idents(*path));
    join_strings(&idents, "::")
}

/// The called function's path text, or `...` for a call of anything else.
pub open spec fn spec_extract_path_string(e: ExprShape) -> Seq<char> {
    match e {
        ExprShape::Path(p) => path_text(p),
        _ => "..."@,
    }
}

/// The called function's path text, or `...`.
pub fn extract_path_string(expr: &ExprShape) -> (r: String)
    ensures
        r@ == spec_extract_path_string(*expr),
{
    match expr {
        ExprShape::Path(p) => path_to_string(p),
        _ => String::from_str("..."),
    }
}

/// How an ignored expression is named in a message.
pub open spec fn spec_describe_expr(e: ExprShape) -> Seq<char> {
    match e {
        ExprShape::Call(func) => "call to `"@ + spec_extract_path_string(*func) + "`"@,
        ExprShape::MethodCall(m, _) => "`."@ + m@ + "()` call"@,
        ExprShape::Path(p) => "`"@ + path_text(p) + "`"@,
        _ => "expression"@,
    }
}

/// Names an ignored expression for a message.
pub fn describe_expr(expr: &ExprShape) -> (r: String)
    ensures
        r@ == spec_describe_expr(*expr),
{
    match expr {
        ExprShape::Call(func) => {
            let mut s = String::from_str("call to `");
            append_str(&mut s, extract_path_string(func).as_str());
            append_str(&mut s, "`");
            s
        },
        ExprShape::MethodCall(m, _) => {
            let mut s = String::from_str("`.");
            append_str(&mut s, m.as_str());
            append_str(&mut s, "()` call");
            s
        },
        ExprShape::Path(p) => {
            let mut s = String::from_str("`");
            append_str(&mut s, path_to_string(p).as_str());
            append_str(&mut s, "`");
            s
        },
        _ => String::from_str("expression"),
    }
}

/// The identifier an expression names, through references and parentheses.
pub open spec fn spec_expr_ident(e: ExprShape) -> Option<Seq<char>>
    decreases e,
{
    match e {
        ExprShape::Path(p) => path_get_ident(p),
        ExprShape::Reference(inner) => spec_expr_ident(*inner),
        ExprShape::Paren(inner) => spec_expr_ident(*inner),
        _ => None,
    }
}

/// The identifier an expression names.
pub fn expr_ident(expr: &ExprShape) -> (r: Option<String>)
    ensures
        match r {
            Some(s) => spec_expr_ident(*expr) == Some(s@),
            None => spec_expr_ident(*expr) is None,
        },
    decreases expr,
{
    match expr {
        ExprShape::Path(p) => match p.get_ident() {
            Some(s) => Some(s.clone()),
            None => None,
        },
        ExprShape::Reference(inner) => expr_ident(inner),
        ExprShape::Paren(inner) => expr_ident(inner),
        _ => None,
    }
}

/// The identifier the first argument of a macro call names.
pub open spec fn spec_macro_first_expr_ident(first: Option<Box<ExprShape>>) -> Option<Seq<char>> {
    match first {
        Some(e) => spec_expr_ident(*e),
        None => None,
    }
}

/// The identifier the first argument of a macro call names, if any.
pub fn macro_first_expr_ident(first: &Option<Box<ExprShape>>) -> (r: Option<String>)
    ensures
        match r {
            Some(s) => spec_macro_first_expr_ident(*first) == Some(s@),
            None => spec_macro_first_expr_ident(*first) is None,
        },
{
    match first {
        Some(e) => expr_ident(e),
        None => None,
    }
}

/// The last name of a receiver: a path's last identifier or a named field,
/// through references.
pub open spec fn spec_receiver_path_tail(e: ExprShape) -> Option<Seq<char>>
    decreases e,
{
    match e {
        ExprShape::Path(p) => path_last_ident(p),
        ExprShape::Field(member) => match member {
            Some(name) => Some(name@),
            None => None,
        },
        ExprShape::Reference(inner) => spec_receiver_path_tail(*inner),
        _ => None,
    }
}

/// The last name of a receiver.
pub fn receiver_path_tail(expr: &ExprShape) -> (r: Option<String>)
    ensures
        match r {
            Some(s) => spec_receiver_path_tail(*expr) == Some(s@),
            None => spec_receiver_path_tail(*expr) is None,
        },
    decreases expr,
{
    match expr {
        ExprShape::Path(p) => match p.last_segment() {
            Some(seg) => Some(seg.ident.clone()),
            None => None,
        },
        ExprShape::Field(member) => match member {
            Some(name) => Some(name.clone()),
            None => None,
        },
        ExprShape::Reference(inner) => receiver_path_tail(inner),
        _ => None,
    }
}

/// The expression is `write!` or `writeln!` into one of the string writers.
pub open spec fn spec_is_infallible_string_write(e: ExprShape, writers: Seq<Seq<char>>) -> bool {
    match e {
        ExprShape::Macro(p, first) => (path_is_ident(p, "write"@) || path_is_ident(p, "writeln"@))
            && match spec_macro_first_expr_ident(first) {
            Some(t) => writers.contains(t),
            None => false,
        },
        _ => false,
    }
}

/// The receiver name is a channel sender: `sender`, `tx`, or ending in
/// `_sender` or `_tx`.
pub open spec fn is_sender_name(name: Seq<char>) -> bool {
    name == "sender"@ || name == "tx"@ || ends_with_seq(name, "_sender"@) || ends_with_seq(
        name,
        "_tx"@,
    )
}

/// The expression sends on a channel sender.
pub open spec fn spec_is_channel_send_discard(e: ExprShape) -> bool {
    match e {
        ExprShape::MethodCall(m, recv) => m@ == "send"@ && match spec_receiver_path_tail(*recv) {
            Some(name) => is_sender_name(name),
            None => false,
        },
        _ => false,
    }
}

/// Discarding the expression is known to lose nothing.
pub open spec fn spec_is_intentional_discard(e: ExprShape, writers: Seq<Seq<char>>) -> bool {
    spec_is_infallible_string_write(e, writers) || spec_is_channel_send_discard(e)
}

/// Whether the expression writes into one of the string writers.
pub fn is_infallible_string_write(expr: &ExprShape, string_writers: &Vec<String>) -> (r: bool)
    ensures
        r == spec_is_infallible_string_write(*expr, string_views(string_writers@)),
{
    match expr {
        ExprShape::Macro(p, first) => {
            if !p.is_ident("write") && !p.is_ident("writeln") {
                return false;
            }
            match macro_first_expr_ident(first) {
                Some(t) => contains_string(string_writers, t.as_str()),
                None => false,
            }
        },
        _ => false,
    }
}

/// Whether the expression sends on a channel sender.
pub fn is_channel_send_discard(expr: &ExprShape) -> (r: bool)
    ensures
        r == spec_is_channel_send_discard(*expr),
{
    match expr {
        ExprShape::MethodCall(m, recv) => {
            if !str_eq(m.as_str(), "send") {
                return false;
            }
            match receiver_path_tail(recv) {
                Some(name) => {
                    let n = name.as_str();
                    str_eq(n, "sender") || str_eq(n, "tx") || ends_with_str(n, "_sender")
                        || ends_with_str(n, "_tx")
                },
                None => false,
            }
        },
        _ => false,
    }
}

/// Whether discarding the expression is known to lose nothing.
pub fn is_intentional_discard(expr: &ExprShape, string_writers: &Vec<String>) -> (r: bool)
    ensures
        r == spec_is_intentional_discard(*expr, string_views(string_writers@)),
{
    is_infallible_string_write(expr, string_writers) || is_channel_send_discard(expr)
}

// ---------------------------------------------------------------------------
// Values known not to be a Result or an Option
/// Methods of std whose result is never a `Result` or an `Option`.
pub open spec fn is_plain_method(m: Seq<char>) -> bool {
    m == "len"@ || m == "is_empty"@ || m == "capacity"@ || m == "count"@ || m == "is_some"@
        || m == "is_none"@ || m == "is_ok"@ || m == "is_err"@ || m == "contains"@ || m
        == "contains_key"@ || m == "starts_with"@ || m == "ends_with"@ || m == "to_string"@
        || m == "to_lowercase"@ || m == "to_uppercase"@ || m == "trim"@ || m == "as_str"@ || m
        == "as_bytes"@
}

/// Names of types whose values are not a `Result` or an `Option`: the
/// primitive scalars, `str`, and the std collections.
pub open spec fn is_plain_type_name(n: Seq<char>) -> bool {
    n == "bool"@ || n == "char"@ || n == "str"@ || n == "String"@ || n == "usize"@ || n
        == "isize"@ || n == "u8"@ || n == "u16"@ || n == "u32"@ || n == "u64"@ || n == "u128"@
        || n == "i8"@ || n == "i16"@ || n == "i32"@ || n == "i64"@ || n == "i128"@ || n
        == "f32"@ || n == "f64"@ || n == "Vec"@ || n == "HashMap"@ || n == "HashSet"@ || n
        == "BTreeMap"@ || n == "BTreeSet"@
}

/// A declared return type whose values are not a `Result` or an `Option`:
/// none (`()`), a reference, or a path naming a plain type.
pub open spec fn spec_is_plain_return(t: Option<TypeShape>) -> bool {
    match t {
        None => true,
        Some(TypeShape::Reference(_)) => true,
        Some(TypeShape::Path(p)) => match path_last_ident(p) {
            Some(n) => is_plain_type_name(n),
            None => false,
        },
        Some(TypeShape::Other) => false,
    }
}

/// The names of the top-level functions whose declared return type is plain
/// (`plain == true`) or not (`plain == false`), in order.
pub open spec fn fn_names_returning(items: Seq<Node>, plain: bool) -> Seq<Seq<char>>
    decreases items.len(),
{
    if items.len() == 0 {
        Seq::empty()
    } else {
        let rest = fn_names_returning(items.drop_last(), plain);
        match items.last().kind {
            NodeKind::ItemFn(f) => if spec_is_plain_return(f.sig.output) == plain {
                rest.push(f.sig.ident@)
            } else {
                rest
            },
            _ => rest,
        }
    }
}

/// What the file says of the functions it declares at top level.
pub struct CalleesView {
    /// Names declared with a plain return type.
    pub plain: Seq<Seq<char>>,
    /// Names declared with any other return type.
    pub other: Seq<Seq<char>>,
}

/// The callees of a file's top-level items.
pub open spec fn callees_of(items: Seq<Node>) -> CalleesView {
    CalleesView { plain: fn_names_returning(items, true), other: fn_names_returning(items, false) }
}

/// The expression's syntax shows a value that is not a `Result` or an
/// `Option`: a literal, a reference, a struct literal, `format!` or `vec!`,
/// a call of a plain std method, or a call of a function of the file that is
/// declared only with a plain return type; parentheses are looked through.
pub open spec fn spec_is_known_plain(e: ExprShape, callees: CalleesView) -> bool
    decreases e,
{
    match e {
        ExprShape::Lit => true,
        ExprShape::Reference(_) => true,
        ExprShape::Struct(..) => true,
        ExprShape::Macro(p, _) => path_is_ident(p, "format"@) || path_is_ident(p, "vec"@),
        ExprShape::MethodCall(m, _) => is_plain_method(m@),
        ExprShape::Call(func) => match *func {
            ExprShape::Path(p) => match path_get_ident(p) {
                Some(n) => callees.plain.contains(n) && !callees.other.contains(n),
                None => false,
            },
            _ => false,
        },
        ExprShape::Paren(inner) => spec_is_known_plain(*inner, callees),
        _ => false,
    }
}

/// The declared functions of a file, in executable form.
pub struct Callees {
    pub plain: Vec<String>,
    pub other: Vec<String>,
}

impl View for Callees {
    type V = CalleesView;

    open spec fn view(&self) -> CalleesView {
        CalleesView { plain: string_views(self.plain@), other: string_views(self.other@) }
    }
}

fn is_plain_method_exec(m: &str) -> (r: bool)
    ensures
        r == is_plain_method(m@),
{
    str_eq(m, "len") || str_eq(m, "is_empty") || str_eq(m, "capacity") || str_eq(m, "count")
        || str_eq(m, "is_some") || str_eq(m, "is_none") || str_eq(m, "is_ok") || str_eq(
        m,
        "is_err",
    ) || str_eq(m, "contains") || str_eq(m, "contains_key") || str_eq(m, "starts_with")
        || str_eq(m, "ends_with") || str_eq(m, "to_string") || str_eq(m, "to_lowercase")
        || str_eq(m, "to_uppercase") || str_eq(m, "trim") || str_eq(m, "as_str") || str_eq(
        m,
        "as_bytes",
    )
}

fn is_plain_type_name_exec(n: &str) -> (r: bool)
    ensures
        r == is_plain_type_name(n@),
{
    str_eq(n, "bool") || str_eq(n, "char") || str_eq(n, "str") || str_eq(n, "String") || str_eq(
        n,
        "usize",
    ) || str_eq(n, "isize") || str_eq(n, "u8") || str_eq(n, "u16") || str_eq(n, "u32")
        || str_eq(n, "u64") || str_eq(n, "u128") || str_eq(n, "i8") || str_eq(n, "i16")
        || str_eq(n, "i32") || str_eq(n, "i64") || str_eq(n, "i128") || str_eq(n, "f32")
        || str_eq(n, "f64") || str_eq(n, "Vec") || str_eq(n, "HashMap") || str_eq(n, "HashSet")
        || str_eq(n, "BTreeMap") || str_eq(n, "BTreeSet")
}

/// Whether the declared return type is plain.
pub fn is_plain_return(t: &Option<TypeShape>) -> (r: bool)
    ensures
        r == spec_is_plain_return(*t),
{
    match t {
        None => true,
        Some(TypeShape::Reference(_)) => true,
        Some(TypeShape::Path(p)) => match p.last_segment() {
            Some(seg) => is_plain_type_name_exec(seg.ident.as_str()),
            None => false,
        },
        Some(TypeShape::Other) => false,
    }
}

fn names_returning(items: &Vec<Node>, plain: bool) -> (r: Vec<String>)
    ensures
        string_views(r@) == fn_names_returning(items@, plain),
{
    let mut r: Vec<String> = Vec::new();
    let mut i: usize = 0;
    while i < items.len()
        invariant
            i <= items.len(),
            string_views(r@) == fn_names_returning(items@.take(i as int), plain),
        decreases items.len() - i,
    {
        assert(items@.take(i + 1).drop_last() =~= items@.take(i as int));
        let ghost before = r@;
        match &items[i].kind {
            NodeKind::ItemFn(f) => {
                if is_plain_return(&f.sig.output) == plain {
                    r.push(f.sig.ident.clone());
                    assert(string_views(r@) =~= string_views(before).push(f.sig.ident@));
                }
            },
            _ => {},
        }
        i += 1;
    }
    assert(items@.take(i as int) =~= items@);
    r
}

/// The callees of a file's top-level items.
pub fn collect_callees(items: &Vec<Node>) -> (r: Callees)
    ensures
        r@ == callees_of(items@),
{
    Callees { plain: names_returning(items, true), other: names_returning(items, false) }
}

/// Whether the expression's syntax shows a value that is not a `Result` or
/// an `Option`.
pub fn is_known_plain(expr: &ExprShape, callees: &Callees) -> (r: bool)
    ensures
        r == spec_is_known_plain(*expr, callees@),
    decreases expr,
{
    match expr {
        ExprShape::Lit => true,
        ExprShape::Reference(_) => true,
        ExprShape::Struct(..) => true,
        ExprShape::Macro(p, _) => p.is_ident("format") || p.is_ident("vec"),
        ExprShape::MethodCall(m, _) => is_plain_method_exec(m.as_str()),
        ExprShape::Call(func) => match &**func {
            ExprShape::Path(p) => match p.get_ident() {
                Some(n) => contains_string(&callees.plain, n.as_str()) && !contains_string(
                    &callees.other,
                    n.as_str(),
                ),
                None => false,
            },
            _ => false,
        },
        ExprShape::Paren(inner) => is_known_plain(inner, callees),
        _ => false,
    }
}

// ---------------------------------------------------------------------------
// String writers
/// The type is `String` or a reference to one.
pub open spec fn spec_type_is_string_writer(t: TypeShape) -> bool
    decreases t,
{
    match t {
        TypeShape::Path(p) => path_is_ident(p, "String"@),
        TypeShape::Reference(inner) => spec_type_is_string_writer(*inner),
        TypeShape::Other => false,
    }
}

/// Whether the type is `String` or a reference to one.
pub fn type_is_string_writer(ty: &TypeShape) -> (r: bool)
    ensures
        r == spec_type_is_string_writer(*ty),
    decreases ty,
{
    match ty {
        TypeShape::Path(p) => p.is_ident("String"),
        TypeShape::Reference(inner) => type_is_string_writer(inner),
        TypeShape::Other => false,
    }
}

/// The expression is `String::new()` or `String::with_capacity(..)`: a call of
/// a path whose last two identifiers are `String` and `new` or `with_capacity`.
pub open spec fn spec_is_string_constructor(e: ExprShape) -> bool {
    match e {
        ExprShape::Call(func) => match *func {
            ExprShape::Path(p) => {
                let ids = path_idents(p);
                ids.len() >= 2 && ids[ids.len() - 2] == "String"@ && (ids.last() == "new"@
                    || ids.last() == "with_capacity"@)
            },
            _ => false,
        },
        _ => false,
    }
}

/// Whether the expression constructs an empty `String`.
pub fn is_string_constructor(expr: &ExprShape) -> (r: bool)
    ensures
        r == spec_is_string_constructor(*expr),
{
    match expr {
        ExprShape::Call(func) => match &**func {
            ExprShape::Path(p) => {
                let n = p.segments.len();
                if n < 2 {
                    return false;
                }
                assert(path_idents(*p)[n - 2] == p.segments@[n - 2].ident@);
                assert(path_idents(*p).last() == p.segments@[n - 1].ident@);
                let method = p.segments[n - 1].ident.as_str();
                str_eq(p.segments[n - 2].ident.as_str(), "String") && (str_eq(method, "new")
                    || str_eq(method, "with_capacity"))
            },
            _ => false,
        },
        _ => false,
    }
}

/// The name a pattern binds.
pub open spec fn spec_pat_ident(p: PatShape) -> Option<Seq<char>> {
    match p {
        PatShape::Ident(name) => Some(name@),
        _ => None,
    }
}

/// The names of the parameters of type `String` or `&String`/`&mut String`
/// bound by a plain identifier, in order.
pub open spec fn string_writer_params(inputs: Seq<Param>) -> Seq<Seq<char>>
    decreases inputs.len(),
{
    if inputs.len() == 0 {
        Seq::empty()
    } else {
        let rest = string_writer_params(inputs.drop_last());
        match inputs.last() {
            Param::Typed(pat, ty) => if spec_type_is_string_writer(ty) && spec_pat_ident(
                pat,
            ) is Some {
                rest.push(spec_pat_ident(pat).unwrap())
            } else {
                rest
            },
            Param::Receiver => rest,
        }
    }
}

/// The string-writer parameters of a signature.
pub fn collect_string_writer_params(sig: &Signature) -> (r: Vec<String>)
    ensures
        string_views(r@) == string_writer_params(sig.inputs@),
{
    let mut r: Vec<String> = Vec::new();
    let mut i: usize = 0;
    while i < sig.inputs.len()
        invariant
            i <= sig.inputs.len(),
            string_views(r@) == string_writer_params(sig.inputs@.take(i as int)),
        decreases sig.inputs.len() - i,
    {
        assert(sig.inputs@.take(i + 1).drop_last() =~= sig.inputs@.take(i as int));
        let ghost before = r@;
        match &sig.inputs[i] {
            Param::Typed(PatShape::Ident(name), ty) => {
                if type_is_string_writer(ty) {
                    r.push(name.clone());
                    assert(string_views(r@) =~= string_views(before).push(name@));
                }
            },
            _ => {},
        }
        i += 1;
    }
    assert(sig.inputs@.take(i as int) =~= sig.inputs@);
    r
}

/// The name a `let` binds to a new empty `String`, if it does.
pub open spec fn spec_local_string_writer_binding(pat: PatShape, init: Option<ExprShape>) -> Option<
    Seq<char>,
> {
    match init {
        Some(e) => if spec_is_string_constructor(e) {
            spec_pat_ident(pat)
        } else {
            None
        },
        None => None,
    }
}

// ---------------------------------------------------------------------------
// The walk over a function body
/// What the walk knows: the string writers so far, and the findings so far
/// (line and description).
pub struct UnusedState {
    pub writers: Seq<Seq<char>>,
    pub findings: Seq<(usize, Seq<char>)>,
}

/// The effect of one `let`: a new string writer is remembered first; then a
/// `let _ = expr;` is a finding unless `expr` is known not to be a `Result`
/// or an `Option`, or its discard is known to be harmless.
pub open spec fn local_step(
    callees: CalleesView,
    pat: PatShape,
    init: Option<ExprShape>,
    st: UnusedState,
) -> UnusedState {
    let writers = match spec_local_string_writer_binding(pat, init) {
        Some(name) => st.writers.push(name),
        None => st.writers,
    };
    let findings = match (pat, init) {
        (PatShape::Wild(line), Some(e)) => if !spec_is_known_plain(e, callees)
            && !spec_is_intentional_discard(e, writers) {
            st.findings.push((line, spec_describe_expr(e)))
        } else {
            st.findings
        },
        _ => st.findings,
    };
    UnusedState { writers, findings }
}

/// The walk over the tree `n`: the node itself, then its children, then the
/// body of a function.
pub open spec fn walk_node(callees: CalleesView, n: Node, st: UnusedState) -> UnusedState
    decreases n,
{
    let st1 = match n.kind {
        NodeKind::Local(pat, init) => local_step(callees, pat, init, st),
        _ => st,
    };
    let st2 = walk_nodes(callees, n.children@, st1);
    match n.kind {
        NodeKind::ItemFn(f) => walk_nodes(callees, f.body@, st2),
        NodeKind::ImplFn(f) => walk_nodes(callees, f.body@, st2),
        _ => st2,
    }
}

/// The walk over the trees `s`, in order.
pub open spec fn walk_nodes(callees: CalleesView, s: Seq<Node>, st: UnusedState) -> UnusedState
    decreases s,
{
    if s.len() == 0 {
        st
    } else {
        walk_node(callees, s.last(), walk_nodes(callees, s.drop_last(), st))
    }
}

/// Finds `let _ = expr;` in a function body.
pub struct UnusedResultVisitor {
    pub findings: Vec<(usize, String)>,
    pub string_writers: Vec<String>,
}

impl UnusedResultVisitor {
    /// What the visitor knows, abstractly.
    pub open spec fn state(&self) -> UnusedState {
        UnusedState {
            writers: string_views(self.string_writers@),
            findings: self.findings@.map_values(|f: (usize, String)| (f.0, f.1@)),
        }
    }

    /// Takes in one `let`.
    pub fn visit_local(&mut self, callees: &Callees, pat: &PatShape, init: &Option<ExprShape>)
        ensures
            final(self).state() == local_step(callees@, *pat, *init, old(self).state()),
    {
        let ghost st = self.state();
        match init {
            Some(e) => {
                if is_string_constructor(e) {
                    match pat {
                        PatShape::Ident(name) => {
                            let ghost before = self.string_writers@;
                            self.string_writers.push(name.clone());
                            assert(string_views(self.string_writers@) =~= string_views(
                                before,
                            ).push(name@));
                        },
                        _ => {},
                    }
                }
            },
            None => {},
        }
        assert(string_views(self.string_writers@) == local_step(callees@, *pat, *init, st).writers);
        match (pat, init) {
            (PatShape::Wild(line), Some(e)) => {
                if !is_known_plain(e, callees) && !is_intentional_discard(e, &self.string_writers) {
                    let ghost before = self.findings@;
                    self.findings.push((*line, describe_expr(e)));
                    assert(self.findings@.map_values(|f: (usize, String)| (f.0, f.1@))
                        =~= before.map_values(|f: (usize, String)| (f.0, f.1@)).push(
                        (*line, spec_describe_expr(*e)),
                    ));
                }
            },
            _ => {},
        }
        assert(self.state() =~= local_step(callees@, *pat, *init, st));
    }

    /// Walks the tree `n`.
    pub fn visit_node(&mut self, callees: &Callees, n: &Node)
        ensures
            final(self).state() == walk_node(callees@, *n, old(self).state()),
        decreases n,
    {
        match &n.kind {
            NodeKind::Local(pat, init) => self.visit_local(callees, pat, init),
            _ => {},
        }
        self.visit_nodes(callees, &n.children);
        match &n.kind {
            NodeKind::ItemFn(f) => self.visit_nodes(callees, &f.body),
            NodeKind::ImplFn(f) => self.visit_nodes(callees, &f.body),
            _ => {},
        }
    }

    /// Walks the trees `nodes` in order.
    pub fn visit_nodes(&mut self, callees: &Callees, nodes: &Vec<Node>)
        ensures
            final(self).state() == walk_nodes(callees@, nodes@, old(self).state()),
        decreases nodes,
    {
        let ghost start = self.state();
        let mut i: usize = 0;
        while i < nodes.len()
            invariant
                i <= nodes.len(),
                self.state() == walk_nodes(callees@, nodes@.take(i as int), start),
            decreases nodes.len() - i,
        {
            assert(nodes@.take(i + 1).drop_last() =~= nodes@.take(i as int));
            proof {
                assert(decreases_to!(nodes => nodes@[i as int]));
            }
            self.visit_node(callees, &nodes[i]);
            i += 1;
        }
        assert(nodes@.take(i as int) =~= nodes@);
    }
}

// ---------------------------------------------------------------------------
// Findings
pub open spec fn unused_message(fn_name: Seq<char>, desc: Seq<char>) -> Seq<char> {
    "Function `"@ + fn_name + "` discards a Result/Option with `let _ = ...` ("@ + desc + ")"@
}

/// The smells for the findings of the function `fn_name`, in order.
pub open spec fn unused_smells(
    path: Seq<char>,
    fn_name: Seq<char>,
    fs: Seq<(usize, Seq<char>)>,
) -> Seq<SmellView> {
    fs.map_values(
        |f: (usize, Seq<char>)|
            finding(
                SmellCategory::Idiomaticity,
                "Unused Result Ignored"@,
                Severity::Warning,
                path,
                f.0,
                f.0,
                unused_message(fn_name, f.1),
                "Handle the error explicitly with match, if let, or propagate with ?."@,
            ),
    )
}

/// The findings for one top-level item: for a free function, the walk over
/// its body starting from its string-writer parameters.
pub open spec fn unused_findings(path: Seq<char>, callees: CalleesView, n: Node) -> Seq<
    SmellView,
> {
    match n.kind {
        NodeKind::ItemFn(f) => unused_smells(
            path,
            f.sig.ident@,
            walk_nodes(
                callees,
                f.body@,
                UnusedState {
                    writers: string_writer_params(f.sig.inputs@),
                    findings: Seq::empty(),
                },
            ).findings,
        ),
        _ => Seq::empty(),
    }
}

/// The findings for the top-level items, in order.
pub open spec fn unused_in_items(path: Seq<char>, callees: CalleesView, items: Seq<Node>) -> Seq<
    SmellView,
>
    decreases items.len(),
{
    if items.len() == 0 {
        Seq::empty()
    } else {
        unused_in_items(path, callees, items.drop_last()) + unused_findings(
            path,
            callees,
            items.last(),
        )
    }
}

/// The findings of a file: none for a test path, else those of its top-level
/// functions, judged with what the file declares of its functions.
pub open spec fn spec_unused_result(policy: PolicyView, file: SourceFile) -> Seq<SmellView> {
    if spec_is_test_path(policy, file.path@) {
        Seq::empty()
    } else {
        unused_in_items(file.path@, callees_of(file.items@), file.items@)
    }
}

fn unused_of_item(path: &String, callees: &Callees, n: &Node, smells: &mut Vec<Smell>)
    ensures
        smell_views(final(smells)@) == smell_views(old(smells)@) + unused_findings(
            path@,
            callees@,
            *n,
        ),
{
    match &n.kind {
        NodeKind::ItemFn(f) => {
            let mut visitor = UnusedResultVisitor {
                findings: Vec::new(),
                string_writers: collect_string_writer_params(&f.sig),
            };
            assert(visitor.state().findings =~= Seq::<(usize, Seq<char>)>::empty());
            assert(visitor.state() == UnusedState {
                writers: string_writer_params(f.sig.inputs@),
                findings: Seq::empty(),
            });
            visitor.visit_nodes(callees, &f.body);
            let ghost fs = visitor.state().findings;
            let ghost start = smell_views(smells@);
            let mut k: usize = 0;
            while k < visitor.findings.len()
                invariant
                    k <= visitor.findings.len(),
                    fs == visitor.findings@.map_values(|f: (usize, String)| (f.0, f.1@)),
                    smell_views(smells@) == start + unused_smells(path@, f.sig.ident@, fs.take(
                        k as int,
                    )),
                decreases visitor.findings.len() - k,
            {
                let line = visitor.findings[k].0;
                let mut msg = String::from_str("Function `");
                append_str(&mut msg, f.sig.ident.as_str());
                append_str(&mut msg, "` discards a Result/Option with `let _ = ...` (");
                append_str(&mut msg, visitor.findings[k].1.as_str());
                append_str(&mut msg, ")");
                assert(msg@ =~= unused_message(f.sig.ident@, fs[k as int].1));
                let ghost before = smells@;
                smells.push(
                    Smell::at_lines(
                        SmellCategory::Idiomaticity,
                        "Unused Result Ignored",
                        Severity::Warning,
                        path,
                        line,
                        line,
                        msg,
                        "Handle the error explicitly with match, if let, or propagate with ?.",
                    ),
                );
                assert(smell_views(smells@) =~= smell_views(before).push(smells@.last()@));
                assert(unused_smells(path@, f.sig.ident@, fs.take(k + 1)) =~= unused_smells(
                    path@,
                    f.sig.ident@,
                    fs.take(k as int),
                ).push(smells@.last()@));
                k += 1;
            }
            assert(fs.take(k as int) =~= fs);
        },
        _ => {
            assert(smell_views(smells@) =~= smell_views(smells@) + unused_findings(
                path@,
                callees@,
                *n,
            ));
        },
    }
}

impl UnusedResultDetector {
    pub fn name(&self) -> (r: &'static str)
        ensures
            r@ == "Unused Result Ignored"@,
    {
        "Unused Result Ignored"
    }

    /// The ignored-result findings of `file` under the policy in force: none
    /// for a test path; else, for each top-level function in order, each
    /// `let _ = expr;` in its body where `expr` is not known, from its syntax
    /// and the file's function declarations, to be other than a `Result` or an
    /// `Option`, and whose discard is not known to be harmless.
    pub fn detect(&self, file: &SourceFile, policy: &ActivePolicy) -> (r: Vec<Smell>)
        ensures
            smell_views(r@) == spec_unused_result(policy@, *file),
    {
        let mut smells: Vec<Smell> = Vec::new();
        if is_test_path(policy, file.path.as_str()) {
            return smells;
        }
        let callees = collect_callees(&file.items);
        let mut i: usize = 0;
        while i < file.items.len()
            invariant
                i <= file.items.len(),
                callees@ == callees_of(file.items@),
                smell_views(smells@) == unused_in_items(
                    file.path@,
                    callees@,
                    file.items@.take(i as int),
                ),
            decreases file.items.len() - i,
        {
            assert(file.items@.take(i + 1).drop_last() =~= file.items@.take(i as int));
            unused_of_item(&file.path, &callees, &file.items[i], &mut smells);
            i += 1;
        }
        assert(file.items@.take(i as int) =~= file.items@);
        smells
    }
}

/// A send on a channel sender is never reported: for a `let _ = r.send(..)`
/// whose receiver's last name is `sender` or `tx`, or ends in `_sender` or
/// `_tx`, the findings stay as they were, whatever the file declares and
/// whatever string writers are known.
pub proof fn law_channel_sends_are_not_reported(
    callees: CalleesView,
    line: usize,
    method: String,
    recv: ExprShape,
    name: Seq<char>,
    st: UnusedState,
)
    requires
        method@ == "send"@,
        spec_receiver_path_tail(recv) == Some(name),
        name == "sender"@ || name == "tx"@ || ends_with_seq(name, "_sender"@) || ends_with_seq(
            name,
            "_tx"@,
        ),
    ensures
        local_step(
            callees,
            PatShape::Wild(line),
            Some(ExprShape::MethodCall(method, Box::new(recv))),
            st,
        ).findings == st.findings,
{
}

/// A send on any other receiver is reported like any call that may fail: a
/// `let _ = r.send(..)` whose receiver has no sender name adds one finding,
/// at the line of the `_`, describing the `.send()` call.
pub proof fn law_other_sends_are_reported(
    callees: CalleesView,
    line: usize,
    method: String,
    recv: ExprShape,
    st: UnusedState,
)
    requires
        method@ == "send"@,
        match spec_receiver_path_tail(recv) {
            Some(name) => !(name == "sender"@ || name == "tx"@ || ends_with_seq(name, "_sender"@)
                || ends_with_seq(name, "_tx"@)),
            None => true,
        },
    ensures
        local_step(
            callees,
            PatShape::Wild(line),
            Some(ExprShape::MethodCall(method, Box::new(recv))),
            st,
        ).findings == st.findings.push((line, "`.send()` call"@)),
{
    assert("send"@ != "len"@) by {
        reveal_strlit("send");
        reveal_strlit("len");
        assert("send"@.len() != "len"@.len() || "send"@[0] != "len"@[0]);
    }
    assert("send"@ != "is_empty"@) by {
        reveal_strlit("send");
        reveal_strlit("is_empty");
        assert("send"@.len() != "is_empty"@.len() || "send"@[0] != "is_empty"@[0]);
    }
    assert("send"@ != "capacity"@) by {
        reveal_strlit("send");
        reveal_strlit("capacity");
        assert("send"@.len() != "capacity"@.len() || "send"@[0] != "capacity"@[0]);
    }
    assert("send"@ != "count"@) by {
        reveal_strlit("send");
        reveal_strlit("count");
        assert("send"@.len() != "count"@.len() || "send"@[0] != "count"@[0]);
    }
    assert("send"@ != "is_some"@) by {
        reveal_strlit("send");
        reveal_strlit("is_some");
        assert("send"@.len() != "is_some"@.len() || "send"@[0] != "is_some"@[0]);
    }
    assert("send"@ != "is_none"@) by {
        reveal_strlit("send");
        reveal_strlit("is_none");
        assert("send"@.len() != "is_none"@.len() || "send"@[0] != "is_none"@[0]);
    }
    assert("send"@ != "is_ok"@) by {
        reveal_strlit("send");
        reveal_strlit("is_ok");
        assert("send"@.len() != "is_ok"@.len() || "send"@[0] != "is_ok"@[0]);
    }
    assert("send"@ != "is_err"@) by {
        reveal_strlit("send");
        reveal_strlit("is_err");
        assert("send"@.len() != "is_err"@.len() || "send"@[0] != "is_err"@[0]);
    }
    assert("send"@ != "contains"@) by {
        reveal_strlit("send");
        reveal_strlit("contains");
        assert("send"@.len() != "contains"@.len() || "send"@[0] != "contains"@[0]);
    }
    assert("send"@ != "contains_key"@) by {
        reveal_strlit("send");
        reveal_strlit("contains_key");
        assert("send"@.len() != "contains_key"@.len() || "send"@[0] != "contains_key"@[0]);
    }
    assert("send"@ != "starts_with"@) by {
        reveal_strlit("send");
        reveal_strlit("starts_with");
        assert("send"@.len() != "starts_with"@.len() || "send"@[0] != "starts_with"@[0]);
    }
    assert("send"@ != "ends_with"@) by {
        reveal_strlit("send");
        reveal_strlit("ends_with");
        assert("send"@.len() != "ends_with"@.len() || "send"@[0] != "ends_with"@[0]);
    }
    assert("send"@ != "to_string"@) by {
        reveal_strlit("send");
        reveal_strlit("to_string");
        assert("send"@.len() != "to_string"@.len() || "send"@[0] != "to_string"@[0]);
    }
    assert("send"@ != "to_lowercase"@) by {
        reveal_strlit("send");
        reveal_strlit("to_lowercase");
        assert("send"@.len() != "to_lowercase"@.len() || "send"@[0] != "to_lowercase"@[0]);
    }
    assert("send"@ != "to_uppercase"@) by {
        reveal_strlit("send");
        reveal_strlit("to_uppercase");
        assert("send"@.len() != "to_uppercase"@.len() || "send"@[0] != "to_uppercase"@[0]);
    }
    assert("send"@ != "trim"@) by {
        reveal_strlit("send");
        reveal_strlit("trim");
        assert("send"@.len() != "trim"@.len() || "send"@[0] != "trim"@[0]);
    }
    assert("send"@ != "as_str"@) by {
        reveal_strlit("send");
        reveal_strlit("as_str");
        assert("send"@.len() != "as_str"@.len() || "send"@[0] != "as_str"@[0]);
    }
    assert("send"@ != "as_bytes"@) by {
        reveal_strlit("send");
        reveal_strlit("as_bytes");
        assert("send"@.len() != "as_bytes"@.len() || "send"@[0] != "as_bytes"@[0]);
    }
    assert(!is_plain_method("send"@));
    assert("`."@ + method@ + "()` call"@ =~= "`.send()` call"@) by {
        reveal_strlit("send");
        reveal_strlit("`.");
        reveal_strlit("()` call");
        reveal_strlit("`.send()` call");
    }
}

/// Discarding the result of a call of a path of two or more segments (such
/// as `fs::remove_file(..)`), which the file cannot declare, is reported: one
/// finding at the line of the `_`, describing the call by its path.
pub proof fn law_qualified_calls_are_reported(
    callees: CalleesView,
    line: usize,
    p: SynPath,
    st: UnusedState,
)
    requires
        p.segments@.len() >= 2,
    ensures
        local_step(
            callees,
            PatShape::Wild(line),
            Some(ExprShape::Call(Box::new(ExprShape::Path(p)))),
            st,
        ).findings == st.findings.push((line, "call to `"@ + path_text(p) + "`"@)),
{
}

} // verus!
