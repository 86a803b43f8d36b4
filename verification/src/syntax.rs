//! The syntax model of a Rust source file that the detectors read.
//!
//! A file is a tree of `Node`s. Each node is one syntax element that some
//! detector looks at (an item, a call, a loop, a `let`, a macro, ...), and its
//! children are the elements of that kind nested in it, in source order. The
//! elements of other kinds are not nodes: what is nested in them hangs from
//! the nearest enclosing node. Every item of the file is a node, so the
//! children of an item are exactly what it contains.
use vstd::prelude::*;
use crate::text::str_eq;

verus! {

/// One segment of a path: its identifier, whether it carries generic
/// arguments (`Vec<T>`, `Fn(A) -> B`), and the line its identifier starts on.
pub struct Segment {
    pub ident: String,
    pub has_arguments: bool,
    pub line: usize,
}

/// A path such as `std::fmt::Write` or `::core::mem`.
pub struct SynPath {
    pub leading_colon: bool,
    pub segments: Vec<Segment>,
}

/// The identifiers of the segments of `p`.
pub open spec fn path_idents(p: SynPath) -> Seq<Seq<char>> {
    p.segments@.map_values(|s: Segment| s.ident@)
}

/// The path as a single identifier: defined when it has no leading `::`, one
/// segment, and no generic arguments.
pub open spec fn path_get_ident(p: SynPath) -> Option<Seq<char>> {
    if !p.leading_colon && p.segments@.len() == 1 && !p.segments@[0].has_arguments {
        Some(p.segments@[0].ident@)
    } else {
        None
    }
}

/// The path is the single identifier `name`.
pub open spec fn path_is_ident(p: SynPath, name: Seq<char>) -> bool {
    path_get_ident(p) == Some(name)
}

/// The identifier of the last segment, if the path has one.
pub open spec fn path_last_ident(p: SynPath) -> Option<Seq<char>> {
    if p.segments@.len() > 0 {
        Some(p.segments@.last().ident@)
    } else {
        None
    }
}

impl SynPath {
    /// The identifier this path consists of, if it is a single plain identifier.
    pub fn get_ident(&self) -> (r: Option<&String>)
        ensures
            match r {
                Some(s) => path_get_ident(*self) == Some(s@),
                None => path_get_ident(*self) is None,
            },
    {
        if !self.leading_colon && self.segments.len() == 1 && !self.segments[0].has_arguments {
            Some(&self.segments[0].ident)
        } else {
            None
        }
    }

    /// Whether this path is the single identifier `name`.
    pub fn is_ident(&self, name: &str) -> (r: bool)
        ensures
            r == path_is_ident(*self, name@),
    {
        match self.get_ident() {
            Some(s) => str_eq(s.as_str(), name),
            None => false,
        }
    }

    /// The last segment, if any.
    pub fn last_segment(&self) -> (r: Option<&Segment>)
        ensures
            match r {
                Some(s) => self.segments@.len() > 0 && *s == self.segments@.last(),
                None => self.segments@.len() == 0,
            },
    {
        if self.segments.len() > 0 {
            Some(&self.segments[self.segments.len() - 1])
        } else {
            None
        }
    }

    /// Whether the last segment's identifier is `name`.
    pub fn last_ident_is(&self, name: &str) -> (r: bool)
        ensures
            r == (path_last_ident(*self) == Some(name@)),
    {
        match self.last_segment() {
            Some(s) => str_eq(s.ident.as_str(), name),
            None => false,
        }
    }
}

/// The shape of an attribute's meta: `#[path]`, `#[path(...)]` or
/// `#[path = value]`. For the list form, `args` is the list read as
/// comma-separated metas, or `None` when it does not read as such.
pub enum MetaBody {
    Path,
    List(Option<Vec<Meta>>),
    NameValue,
}

/// A meta item: a path and what follows it.
pub struct Meta {
    pub path: SynPath,
    pub body: MetaBody,
}

/// An attribute `#[...]` or `#![...]`.
pub struct Attribute {
    pub meta: Meta,
}

/// The tree of a `use` item.
pub enum UseTree {
    /// `ident::tree`
    Path(String, Box<UseTree>),
    /// `ident`
    Name(String),
    /// `ident as rename`
    Rename(String, String),
    /// `*`
    Glob,
    /// `{a, b, ...}`
    Group(Vec<UseTree>),
}

/// The shape of a type, as far as the detectors read it.
pub enum TypeShape {
    Path(SynPath),
    Reference(Box<TypeShape>),
    Other,
}

/// The shape of a pattern.
pub enum PatShape {
    /// A binding `name` (possibly `ref`/`mut`, possibly `name @ subpattern`).
    Ident(String),
    /// `_`, with the line of the underscore.
    Wild(usize),
    Other,
}

/// One parameter of a function signature.
pub enum Param {
    /// `self`, `&self`, `&mut self`, `self: Box<Self>`, ...
    Receiver,
    Typed(PatShape, TypeShape),
}

/// One bound `T: Bound` on a type parameter or a trait.
pub enum Bound {
    Trait(SynPath),
    Other,
}

/// One generic parameter.
pub enum GenericParam {
    Type(Vec<Bound>),
    Lifetime,
    Const,
}

/// The shape of an expression, as far as the detectors read it.
pub enum ExprShape {
    Path(SynPath),
    /// A call, with the shape of the called expression.
    Call(Box<ExprShape>),
    /// A method call: the method's name and the receiver's shape.
    MethodCall(String, Box<ExprShape>),
    /// A field access, with the field's name when it is named.
    Field(Option<String>),
    /// `&expr` or `&mut expr`
    Reference(Box<ExprShape>),
    /// `(expr)`
    Paren(Box<ExprShape>),
    /// A macro call: its path, and the shape of the first argument when the
    /// body reads as comma-separated expressions with at least one.
    Macro(SynPath, Option<Box<ExprShape>>),
    /// A struct literal: its path and the shapes of the field values.
    Struct(SynPath, Vec<ExprShape>),
    /// A literal: a number, string, character, byte or `true`/`false`.
    Lit,
    Other,
}

/// A function signature.
pub struct Signature {
    pub ident: String,
    pub ident_line: usize,
    /// The line of the `fn` keyword.
    pub fn_line: usize,
    pub is_async: bool,
    pub is_unsafe: bool,
    pub generics: Vec<GenericParam>,
    pub inputs: Vec<Param>,
    /// The declared return type; `None` for `-> ()` left out.
    pub output: Option<TypeShape>,
}

/// The facts read about a function body.
pub struct Block {
    pub stmt_count: usize,
    /// The lines of the opening and the closing brace.
    pub open_line: usize,
    pub close_line: usize,
    /// The body's expression when the body is exactly one expression without
    /// a trailing semicolon.
    pub tail: Option<ExprShape>,
}

/// A function: a free function or a method.
pub struct FnDecl {
    pub attrs: Vec<Attribute>,
    /// Declared without a visibility modifier.
    pub vis_inherited: bool,
    pub sig: Signature,
    pub block: Block,
    /// The nodes of the body, in source order.
    pub body: Vec<Node>,
}

/// The header of an `impl` block.
pub struct ImplHeader {
    pub attrs: Vec<Attribute>,
    /// The implemented trait's path, for a trait impl.
    pub trait_path: Option<SynPath>,
    pub self_ty: TypeShape,
    /// The line where the implementing type starts.
    pub self_ty_line: usize,
}

/// What a node is.
pub enum NodeKind {
    /// A `use` item: its tree and the line of the `use` keyword.
    ItemUse(UseTree, usize),
    /// A `mod` item.
    ItemMod(Vec<Attribute>),
    /// A free function item; its body is in the `FnDecl`, what its attributes
    /// and signature hold is in the node's children.
    ItemFn(FnDecl),
    /// An `impl` block.
    ItemImpl(ImplHeader),
    /// A trait: its attributes and its supertraits.
    ItemTrait(Vec<Attribute>, Vec<Bound>),
    /// A struct: its attributes and its name.
    ItemStruct(Vec<Attribute>, String),
    /// Any other item.
    ItemOther,
    /// A function inside an `impl` block; as for `ItemFn`.
    ImplFn(FnDecl),
    /// A call, with the shape of the called expression.
    ExprCall(ExprShape),
    /// A method call: the method, the line of the method name, the receiver.
    ExprMethodCall(String, usize, ExprShape),
    ExprIf,
    ExprMatch,
    ExprForLoop,
    ExprWhile,
    ExprLoop,
    ExprClosure,
    ExprAsync,
    ExprUnsafe,
    ExprAwait,
    /// A macro in expression position; its `Macro` node is its child.
    ExprMacro,
    ExprBreak,
    ExprContinue,
    /// `&expr`, with the shape of the referenced expression.
    ExprReference(ExprShape),
    /// A struct literal, with the struct's path.
    ExprStruct(SynPath),
    /// Any macro invocation, with its path.
    Macro(SynPath),
    /// A `let`: its pattern and the shape of its initializer.
    Local(PatShape, Option<ExprShape>),
}

/// One syntax element and the elements nested in it.
pub struct Node {
    pub kind: NodeKind,
    pub children: Vec<Node>,
}

/// A parsed source file: its path, its number of lines and its items.
pub struct SourceFile {
    pub path: String,
    pub line_count: usize,
    pub items: Vec<Node>,
}

/// The node is an item (a `use`, `mod`, `fn`, `impl`, `trait`, `struct`, ...).
pub open spec fn is_item(k: NodeKind) -> bool {
    match k {
        NodeKind::ItemUse(..) | NodeKind::ItemMod(..) | NodeKind::ItemFn(..)
        | NodeKind::ItemImpl(..) | NodeKind::ItemTrait(..) | NodeKind::ItemStruct(..)
        | NodeKind::ItemOther => true,
        _ => false,
    }
}

/// The number of nodes of a tree.
pub open spec fn node_size(n: Node) -> nat
    decreases n,
{
    1 + nodes_size(n.children@) + match n.kind {
        NodeKind::ItemFn(f) => nodes_size(f.body@),
        NodeKind::ImplFn(f) => nodes_size(f.body@),
        _ => 0,
    }
}

/// The number of nodes of a sequence of trees.
pub open spec fn nodes_size(s: Seq<Node>) -> nat
    decreases s,
{
    if s.len() == 0 {
        0
    } else {
        nodes_size(s.drop_last()) + node_size(s.last())
    }
}

/// A prefix of a sequence of trees has at most as many nodes as the whole.
pub proof fn lemma_nodes_size_prefix(s: Seq<Node>, i: int)
    requires
        0 <= i < s.len(),
    ensures
        nodes_size(s.take(i)) + node_size(s[i]) <= nodes_size(s),
    decreases s.len(),
{
    assert(s.take(i + 1).drop_last() =~= s.take(i));
    if i + 1 < s.len() {
        lemma_nodes_size_prefix(s.drop_last(), i);
        assert(s.drop_last().take(i) =~= s.take(i));
        assert(s.drop_last()[i] == s[i]);
    } else {
        assert(s.take(i + 1) =~= s);
    }
}

/// The number of nodes of the tree `n`, if it fits in a `usize`.
fn checked_node_size(n: &Node) -> (r: Option<usize>)
    ensures
        match r {
            Some(k) => k == node_size(*n),
            None => node_size(*n) > usize::MAX,
        },
    decreases n,
{
    let inner = match checked_nodes_size(&n.children) {
        Some(k) => k,
        None => {
            return None;
        },
    };
    let body = match &n.kind {
        NodeKind::ItemFn(f) => checked_nodes_size(&f.body),
        NodeKind::ImplFn(f) => checked_nodes_size(&f.body),
        _ => Some(0),
    };
    match body {
        Some(b) => match inner.checked_add(b) {
            Some(t) => t.checked_add(1),
            None => None,
        },
        None => None,
    }
}

/// The number of nodes of the trees `nodes`, if it fits in a `usize`.
fn checked_nodes_size(nodes: &Vec<Node>) -> (r: Option<usize>)
    ensures
        match r {
            Some(k) => k == nodes_size(nodes@),
            None => nodes_size(nodes@) > usize::MAX,
        },
    decreases nodes,
{
    let mut total: usize = 0;
    let mut i: usize = 0;
    while i < nodes.len()
        invariant
            i <= nodes.len(),
            total == nodes_size(nodes@.take(i as int)),
        decreases nodes.len() - i,
    {
        assert(nodes@.take(i + 1).drop_last() =~= nodes@.take(i as int));
        proof {
            assert(decreases_to!(nodes => nodes@[i as int]));
            lemma_nodes_size_prefix(nodes@, i as int);
        }
        match checked_node_size(&nodes[i]) {
            Some(k) => match total.checked_add(k) {
                Some(t) => {
                    total = t;
                },
                None => {
                    return None;
                },
            },
            None => {
                return None;
            },
        }
        i += 1;
    }
    assert(nodes@.take(i as int) =~= nodes@);
    Some(total)
}

impl SourceFile {
    /// The number of syntax nodes of the file, if it fits in a `usize`: the
    /// detectors that count calls need it to.
    pub fn size(&self) -> (r: Option<usize>)
        ensures
            match r {
                Some(k) => k == nodes_size(self.items@),
                None => nodes_size(self.items@) > usize::MAX,
            },
    {
        checked_nodes_size(&self.items)
    }
}

} // verus!
