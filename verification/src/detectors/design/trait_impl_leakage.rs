//! Trait impl leakage: a type that implements many standard-library traits
//! and no domain trait.
use vstd::prelude::*;
use crate::domain::{finding, smell_views, Severity, Smell, SmellCategory, SmellView};
use crate::syntax::{path_last_ident, Node, NodeKind, SourceFile, SynPath, TypeShape};
use crate::text::{append_str, decimal, decimal_string, str_eq};

verus! {

/// Detects types that implement 5 or more standard traits and no domain trait.
pub struct TraitImplLeakageDetector;

/// Whether a trait comes from the standard library or from the domain.
#[derive(Clone, Copy, Debug, PartialEq, Eq, Structural)]
pub enum TraitKind {
    Std,
    Domain,
}

/// The names of the standard traits that carry no domain meaning.
pub open spec fn std_trait_names() -> Seq<Seq<char>> {
    seq![
        "Debug"@, "Clone"@, "Copy"@, "Hash"@, "Eq"@, "PartialEq"@, "Ord"@, "PartialOrd"@,
        "Display"@, "FromStr"@, "Default"@, "From"@, "Into"@, "AsRef"@, "AsMut"@, "Borrow"@,
        "ToOwned"@, "ToString"@, "Iterator"@, "ExactSizeIterator"@, "Read"@, "Write"@,
        "Seek"@, "BufRead"@, "Error"@, "Send"@, "Sync"@, "Unpin"@, "Sized"@, "Fn"@, "FnMut"@,
        "FnOnce"@,
    ]
}

/// A trait is standard exactly when its name is one of `std_trait_names`.
pub open spec fn spec_classify_trait(name: Seq<char>) -> TraitKind {
    if std_trait_names().contains(name) {
        TraitKind::Std
    } else {
        TraitKind::Domain
    }
}

/// Classifies a trait by its name.
pub fn classify_trait(name: &str) -> (r: TraitKind)
    ensures
        r == spec_classify_trait(name@),
{
    let std_traits: [&str; 32] = [
        "Debug",
        "Clone",
        "Copy",
        "Hash",
        "Eq",
        "PartialEq",
        "Ord",
        "PartialOrd",
        "Display",
        "FromStr",
        "Default",
        "From",
        "Into",
        "AsRef",
        "AsMut",
        "Borrow",
        "ToOwned",
        "ToString",
        "Iterator",
        "ExactSizeIterator",
        "Read",
        "Write",
        "Seek",
        "BufRead",
        "Error",
        "Send",
        "Sync",
        "Unpin",
        "Sized",
        "Fn",
        "FnMut",
        "FnOnce",
    ];
    let ghost names = std_trait_names();
    assert(std_traits@.map_values(|s: &str| s@) =~= names);
    let mut i: usize = 0;
    while i < 32
        invariant
            i <= 32,
            std_traits@.map_values(|s: &str| s@) == names,
            forall|k: int| 0 <= k < i ==> names[k] != name@,
        decreases 32 - i,
    {
        assert(names[i as int] == std_traits@[i as int]@);
        if str_eq(name, std_traits[i]) {
            assert(names.contains(name@));
            return TraitKind::Std;
        }
        i += 1;
    }
    TraitKind::Domain
}

/// The last identifier of a path, or the empty text.
pub open spec fn last_ident_or_empty(p: SynPath) -> Seq<char> {
    match path_last_ident(p) {
        Some(s) => s,
        None => Seq::empty(),
    }
}

/// The name of a trait by its path: its last identifier, or the empty text.
pub fn trait_path_to_string(path: &SynPath) -> (r: String)
    ensures
        r@ == last_ident_or_empty(*path),
{
    match path.last_segment() {
        Some(seg) => seg.ident.clone(),
        None => String::new(),
    }
}

/// The type and trait kind an item contributes: a trait impl for a type
/// written as a path with a nonempty last identifier.
pub open spec fn impl_entry(n: Node) -> Option<(Seq<char>, TraitKind)> {
    match n.kind {
        NodeKind::ItemImpl(h) => match h.trait_path {
            Some(tp) => match h.self_ty {
                TypeShape::Path(p) => if last_ident_or_empty(p).len() > 0 {
                    Some((last_ident_or_empty(p), spec_classify_trait(last_ident_or_empty(tp))))
                } else {
                    None
                },
                _ => None,
            },
            None => None,
        },
        _ => None,
    }
}

/// The entries of the items, in order.
pub open spec fn impl_entries(items: Seq<Node>) -> Seq<(Seq<char>, TraitKind)>
    decreases items.len(),
{
    if items.len() == 0 {
        Seq::empty()
    } else {
        let rest = impl_entries(items.drop_last());
        match impl_entry(items.last()) {
            Some(e) => rest.push(e),
            None => rest,
        }
    }
}

/// The type names of the entries, each once, in the order they first occur.
pub open spec fn first_names(es: Seq<(Seq<char>, TraitKind)>) -> Seq<Seq<char>>
    decreases es.len(),
{
    if es.len() == 0 {
        Seq::empty()
    } else {
        let rest = first_names(es.drop_last());
        if rest.contains(es.last().0) {
            rest
        } else {
            rest.push(es.last().0)
        }
    }
}

/// The number of entries of `name` with trait kind `kind`.
pub open spec fn kind_count(es: Seq<(Seq<char>, TraitKind)>, name: Seq<char>, kind: TraitKind) -> nat
    decreases es.len(),
{
    if es.len() == 0 {
        0
    } else {
        kind_count(es.drop_last(), name, kind) + if es.last().0 == name && es.last().1 == kind {
            1nat
        } else {
            0nat
        }
    }
}

pub open spec fn leakage_message(name: Seq<char>, std_count: nat) -> Seq<char> {
    "Type `"@ + name + "` implements "@ + decimal(std_count)
        + " std traits but no domain traits — may be an anemic type"@
}

/// The findings for the type names `names`: one per type with 5 or more
/// standard trait impls and no domain trait impl, over the whole file.
pub open spec fn leakage_findings(
    path: Seq<char>,
    line_count: usize,
    es: Seq<(Seq<char>, TraitKind)>,
    names: Seq<Seq<char>>,
) -> Seq<SmellView>
    decreases names.len(),
{
    if names.len() == 0 {
        Seq::empty()
    } else {
        let rest = leakage_findings(path, line_count, es, names.drop_last());
        let name = names.last();
        let std_count = kind_count(es, name, TraitKind::Std);
        if std_count >= 5 && kind_count(es, name, TraitKind::Domain) == 0 {
            rest.push(
                finding(
                    SmellCategory::Design,
                    "Trait Impl Leakage"@,
                    Severity::Info,
                    path,
                    1,
                    line_count,
                    leakage_message(name, std_count),
                    "Add domain behavior to this type or implement domain-specific traits."@,
                ),
            )
        } else {
            rest
        }
    }
}

/// The findings of a file: its implementing types in the order they first
/// occur among the top-level trait impls.
pub open spec fn spec_trait_impl_leakage(file: SourceFile) -> Seq<SmellView> {
    let es = impl_entries(file.items@);
    leakage_findings(file.path@, file.line_count, es, first_names(es))
}

proof fn lemma_kind_count_bound(es: Seq<(Seq<char>, TraitKind)>, name: Seq<char>, kind: TraitKind)
    ensures
        kind_count(es, name, kind) <= es.len(),
    decreases es.len(),
{
    if es.len() > 0 {
        lemma_kind_count_bound(es.drop_last(), name, kind);
    }
}

/// One entry: the implementing type's name and the trait's kind.
struct ImplEntry {
    ty_name: String,
    kind: TraitKind,
}

spec fn entry_views(v: Seq<ImplEntry>) -> Seq<(Seq<char>, TraitKind)> {
    v.map_values(|e: ImplEntry| (e.ty_name@, e.kind))
}

fn entry_of(n: &Node) -> (r: Option<ImplEntry>)
    ensures
        match r {
            Some(e) => impl_entry(*n) == Some((e.ty_name@, e.kind)),
            None => impl_entry(*n) is None,
        },
{
    match &n.kind {
        NodeKind::ItemImpl(h) => match &h.trait_path {
            Some(tp) => match &h.self_ty {
                TypeShape::Path(p) => {
                    let ty_name = trait_path_to_string(p);
                    if ty_name.as_str().is_empty() {
                        None
                    } else {
                        let trait_name = trait_path_to_string(tp);
                        Some(ImplEntry { ty_name, kind: classify_trait(trait_name.as_str()) })
                    }
                },
                _ => None,
            },
            None => None,
        },
        _ => None,
    }
}

fn count_kind(es: &Vec<ImplEntry>, name: &String, kind: TraitKind) -> (r: usize)
    ensures
        r == kind_count(entry_views(es@), name@, kind),
{
    let ghost ev = entry_views(es@);
    let mut n: usize = 0;
    let mut i: usize = 0;
    while i < es.len()
        invariant
            i <= es.len(),
            ev == entry_views(es@),
            n == kind_count(ev.take(i as int), name@, kind),
        decreases es.len() - i,
    {
        assert(ev.take(i + 1).drop_last() =~= ev.take(i as int));
        proof {
            lemma_kind_count_bound(ev.take(i as int), name@, kind);
        }
        if str_eq(es[i].ty_name.as_str(), name.as_str()) && es[i].kind == kind {
            n = n + 1;
        }
        i += 1;
    }
    assert(ev.take(i as int) =~= ev);
    n
}

fn contains_name(names: &Vec<String>, name: &String) -> (r: bool)
    ensures
        r == names@.map_values(|s: String| s@).contains(name@),
{
    let ghost nv = names@.map_values(|s: String| s@);
    let mut i: usize = 0;
    while i < names.len()
        invariant
            i <= names.len(),
            nv == names@.map_values(|s: String| s@),
            forall|k: int| 0 <= k < i ==> nv[k] != name@,
        decreases names.len() - i,
    {
        if str_eq(names[i].as_str(), name.as_str()) {
            assert(nv[i as int] == name@);
            return true;
        }
        i += 1;
    }
    false
}

impl TraitImplLeakageDetector {
    pub fn name(&self) -> (r: &'static str)
        ensures
            r@ == "Trait Impl Leakage"@,
    {
        "Trait Impl Leakage"
    }

    /// The trait-impl-leakage findings of `file`: one per type with 5 or more
    /// standard trait impls and no domain trait impl among the top-level
    /// impls, in the order the types first occur.
    pub fn detect(&self, file: &SourceFile) -> (r: Vec<Smell>)
        ensures
            smell_views(r@) == spec_trait_impl_leakage(*file),
    {
        let mut entries: Vec<ImplEntry> = Vec::new();
        let mut i: usize = 0;
        while i < file.items.len()
            invariant
                i <= file.items.len(),
                entry_views(entries@) == impl_entries(file.items@.take(i as int)),
            decreases file.items.len() - i,
        {
            assert(file.items@.take(i + 1).drop_last() =~= file.items@.take(i as int));
            let ghost before = entries@;
            match entry_of(&file.items[i]) {
                Some(e) => {
                    entries.push(e);
                    assert(entry_views(entries@) =~= entry_views(before).push(
                        (entries@.last().ty_name@, entries@.last().kind),
                    ));
                },
                None => {},
            }
            i += 1;
        }
        assert(file.items@.take(i as int) =~= file.items@);
        let ghost es = entry_views(entries@);
        let mut names: Vec<String> = Vec::new();
        let mut j: usize = 0;
        while j < entries.len()
            invariant
                j <= entries.len(),
                es == entry_views(entries@),
                names@.map_values(|s: String| s@) == first_names(es.take(j as int)),
            decreases entries.len() - j,
        {
            assert(es.take(j + 1).drop_last() =~= es.take(j as int));
            assert(es[j as int].0 == entries@[j as int].ty_name@);
            if !contains_name(&names, &entries[j].ty_name) {
                let ghost before = names@;
                names.push(entries[j].ty_name.clone());
                assert(names@.map_values(|s: String| s@) =~= before.map_values(|s: String| s@).push(
                    es[j as int].0,
                ));
            }
            j += 1;
        }
        assert(es.take(j as int) =~= es);
        let ghost nv = names@.map_values(|s: String| s@);
        let mut smells: Vec<Smell> = Vec::new();
        let mut k: usize = 0;
        while k < names.len()
            invariant
                k <= names.len(),
                es == entry_views(entries@),
                nv == names@.map_values(|s: String| s@),
                nv == first_names(es),
                smell_views(smells@) == leakage_findings(
                    file.path@,
                    file.line_count,
                    es,
                    nv.take(k as int),
                ),
            decreases names.len() - k,
        {
            assert(nv.take(k + 1).drop_last() =~= nv.take(k as int));
            assert(nv[k as int] == names@[k as int]@);
            let std_count = count_kind(&entries, &names[k], TraitKind::Std);
            let domain_count = count_kind(&entries, &names[k], TraitKind::Domain);
            if std_count >= 5 && domain_count == 0 {
                let mut msg = String::from_str("Type `");
                append_str(&mut msg, names[k].as_str());
                append_str(&mut msg, "` implements ");
                append_str(&mut msg, decimal_string(std_count).as_str());
                append_str(&mut msg, " std traits but no domain traits — may be an anemic type");
                assert(msg@ =~= leakage_message(nv[k as int], std_count as nat));
                let ghost before = smells@;
                smells.push(
                    Smell::at_lines(
                        SmellCategory::Design,
                        "Trait Impl Leakage",
                        Severity::Info,
                        &file.path,
                        1,
                        file.line_count,
                        msg,
                        "Add domain behavior to this type or implement domain-specific traits.",
                    ),
                );
                assert(smell_views(smells@) =~= smell_views(before).push(smells@.last()@));
            }
            k += 1;
        }
        assert(nv.take(k as int) =~= nv);
        smells
    }
}

// ---------------------------------------------------------------------------
// Laws
/// Every leakage finding is for a type with at least 5 standard trait impls
/// and no domain trait impl, and its message counts the standard ones.
pub proof fn law_leakage_only_without_domain_traits(
    path: Seq<char>,
    line_count: usize,
    es: Seq<(Seq<char>, TraitKind)>,
    names: Seq<Seq<char>>,
)
    ensures
        forall|k: int|
            0 <= k < leakage_findings(path, line_count, es, names).len() ==> exists|name: Seq<char>|
                kind_count(es, name, TraitKind::Domain) == 0 && kind_count(
                    es,
                    name,
                    TraitKind::Std,
                ) >= 5 && #[trigger] leakage_findings(path, line_count, es, names)[k].message
                    == leakage_message(name, kind_count(es, name, TraitKind::Std)),
    decreases names.len(),
{
    if names.len() > 0 {
        law_leakage_only_without_domain_traits(path, line_count, es, names.drop_last());
        let rest = leakage_findings(path, line_count, es, names.drop_last());
        let all = leakage_findings(path, line_count, es, names);
        assert forall|k: int| 0 <= k < all.len() implies exists|name: Seq<char>|
            kind_count(es, name, TraitKind::Domain) == 0 && kind_count(es, name, TraitKind::Std)
                >= 5 && #[trigger] all[k].message == leakage_message(
                name,
                kind_count(es, name, TraitKind::Std),
            ) by {
            if k < rest.len() {
                assert(all[k] == rest[k]);
            } else {
                let name = names.last();
                assert(all[k].message == leakage_message(
                    name,
                    kind_count(es, name, TraitKind::Std),
                ));
            }
        }
    }
}

/// The standard traits the detector knows, each classified as standard, and
/// every other name as a domain trait.
pub proof fn law_std_traits_are_classified_std(name: Seq<char>)
    ensures
        seq![
            "Debug"@, "Clone"@, "Copy"@, "Hash"@, "Eq"@, "PartialEq"@, "Ord"@, "PartialOrd"@,
            "Display"@, "FromStr"@, "Default"@, "From"@, "Into"@, "AsRef"@, "AsMut"@,
            "Borrow"@, "ToOwned"@, "ToString"@, "Iterator"@, "ExactSizeIterator"@, "Read"@,
            "Write"@, "Seek"@, "BufRead"@, "Error"@, "Send"@, "Sync"@, "Unpin"@, "Sized"@,
            "Fn"@, "FnMut"@, "FnOnce"@,
        ].contains(name) <==> spec_classify_trait(name) == TraitKind::Std,
{
    let known: Seq<Seq<char>> = seq![
        "Debug"@, "Clone"@, "Copy"@, "Hash"@, "Eq"@, "PartialEq"@, "Ord"@, "PartialOrd"@,
        "Display"@, "FromStr"@, "Default"@, "From"@, "Into"@, "AsRef"@, "AsMut"@, "Borrow"@,
        "ToOwned"@, "ToString"@, "Iterator"@, "ExactSizeIterator"@, "Read"@, "Write"@,
        "Seek"@, "BufRead"@, "Error"@, "Send"@, "Sync"@, "Unpin"@, "Sized"@, "Fn"@, "FnMut"@,
        "FnOnce"@,
    ];
    assert(known =~= std_trait_names());
}

} // verus!
