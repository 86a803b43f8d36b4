//! Feature envy: a function that calls methods on one of its parameters much
//! more than on `self`.
use vstd::prelude::*;
use crate::detectors::walk::{count_node, count_nodes, lemma_count_node_bound, lemma_count_nodes_bound, Query};
use crate::domain::{finding, smell_views, Severity, Smell, SmellCategory, SmellView};
use crate::syntax::{
    lemma_nodes_size_prefix, node_size, nodes_size, ExprShape, Node, NodeKind, Param, PatShape,
    SourceFile,
};
use crate::text::{append_str, decimal, decimal_string, str_eq};

verus! {

/// Detects functions that call methods on a parameter more than on `self`.
pub struct FeatureEnvyDetector;

/// The names of the parameters bound by a plain identifier pattern, in order.
pub open spec fn param_names(inputs: Seq<Param>) -> Seq<Seq<char>>
    decreases inputs.len(),
{
    if inputs.len() == 0 {
        Seq::empty()
    } else {
        let rest = param_names(inputs.drop_last());
        match inputs.last() {
            Param::Typed(PatShape::Ident(name), _) => rest.push(name@),
            _ => rest,
        }
    }
}

/// The number of method calls in the tree `n` whose receiver is the plain
/// identifier `name`.
pub open spec fn calls_on(n: Node, name: Seq<char>) -> nat {
    count_node(n, Query::MethodCallsOn(name))
}

/// The call counts for each of the names.
pub open spec fn call_counts(n: Node, names: Seq<Seq<char>>) -> Seq<nat> {
    names.map_values(|name: Seq<char>| calls_on(n, name))
}

/// The largest number in `s`, or 0 for an empty sequence.
pub open spec fn seq_max(s: Seq<nat>) -> nat
    decreases s.len(),
{
    if s.len() == 0 {
        0
    } else if seq_max(s.drop_last()) < s.last() {
        s.last()
    } else {
        seq_max(s.drop_last())
    }
}

/// The first position of `m` in `s`, or `s.len()` when it does not occur.
pub open spec fn first_index_of(s: Seq<nat>, m: nat) -> int
    decreases s.len(),
{
    if s.len() == 0 {
        0
    } else if s[0] == m {
        0
    } else {
        1 + first_index_of(s.drop_first(), m)
    }
}

/// The names whose calls are weighed: the parameters, then `self`.
pub open spec fn candidates(inputs: Seq<Param>) -> Seq<Seq<char>> {
    param_names(inputs).push("self"@)
}

/// The message for a function `name` that calls methods on `envied` `count` times.
pub open spec fn envy_message(name: Seq<char>, envied: Seq<char>, count: nat) -> Seq<char> {
    "Function `"@ + name + "` calls methods on `"@ + envied + "` "@ + decimal(count)
        + " times — consider moving this method"@
}

pub open spec fn envy_suggestion() -> Seq<char> {
    "Move this function to the type it is most interested in (Use Move refactoring)."@
}

/// The finding for the top-level item `n` of the file at `path`: a public
/// free function with named parameters, one of which (or `self`) receives more
/// than 5 method calls and more than twice as many as `self`. The envied name
/// is the first of the parameters, then `self`, with the most calls.
pub open spec fn envy_findings(path: Seq<char>, n: Node) -> Seq<SmellView> {
    match n.kind {
        NodeKind::ItemFn(f) => {
            let params = param_names(f.sig.inputs@);
            let counts = call_counts(n, candidates(f.sig.inputs@));
            let max_calls = seq_max(counts);
            let self_calls = calls_on(n, "self"@);
            if !f.vis_inherited && params.len() > 0 && max_calls > 5 && max_calls > self_calls
                * 2 {
                let envied = candidates(f.sig.inputs@)[first_index_of(counts, max_calls)];
                seq![
                    finding(
                        SmellCategory::Design,
                        "Feature Envy"@,
                        Severity::Info,
                        path,
                        f.block.open_line,
                        f.block.close_line,
                        envy_message(f.sig.ident@, envied, max_calls),
                        envy_suggestion(),
                    ),
                ]
            } else {
                Seq::empty()
            }
        },
        _ => Seq::empty(),
    }
}

/// The findings for the top-level items `items`, in order.
pub open spec fn spec_feature_envy(path: Seq<char>, items: Seq<Node>) -> Seq<SmellView>
    decreases items.len(),
{
    if items.len() == 0 {
        Seq::empty()
    } else {
        spec_feature_envy(path, items.drop_last()) + envy_findings(path, items.last())
    }
}

/// The maximum of a nonempty sequence occurs in it and bounds it.
proof fn lemma_seq_max_attained(s: Seq<nat>)
    requires
        s.len() > 0,
    ensures
        0 <= first_index_of(s, seq_max(s)) < s.len(),
        forall|i: int| 0 <= i < s.len() ==> s[i] <= seq_max(s),
    decreases s.len(),
{
    let d = s.drop_last();
    if s.len() == 1 {
        assert(s[0] == seq_max(s));
    } else {
        lemma_seq_max_attained(d);
        lemma_first_index(d, seq_max(d));
        let i = first_index_of(d, seq_max(d));
        if seq_max(d) < s.last() {
            assert(s[s.len() - 1] == seq_max(s));
        } else {
            assert(s[i] == d[i]);
            assert(s[i] == seq_max(s));
        }
        assert forall|k: int| 0 <= k < s.len() implies s[k] <= seq_max(s) by {
            if k < s.len() - 1 {
                assert(s[k] == d[k]);
            }
        }
    }
    lemma_first_index(s, seq_max(s));
}

proof fn lemma_first_index(s: Seq<nat>, m: nat)
    ensures
        0 <= first_index_of(s, m) <= s.len(),
        first_index_of(s, m) < s.len() ==> s[first_index_of(s, m)] == m,
        forall|i: int| 0 <= i < first_index_of(s, m) ==> s[i] != m,
        (exists|i: int| 0 <= i < s.len() && s[i] == m) ==> first_index_of(s, m) < s.len(),
    decreases s.len(),
{
    if s.len() > 0 && s[0] != m {
        lemma_first_index(s.drop_first(), m);
        assert forall|i: int| 0 <= i < first_index_of(s, m) implies s[i] != m by {
            if i > 0 {
                assert(s[i] == s.drop_first()[i - 1]);
            }
        }
        if exists|i: int| 0 <= i < s.len() && s[i] == m {
            let i = choose|i: int| 0 <= i < s.len() && s[i] == m;
            assert(s.drop_first()[i - 1] == m);
        }
    }
}

/// The number of method calls in the tree `n` on the receiver `name`.
fn count_calls_on(n: &Node, name: &str) -> (r: usize)
    requires
        node_size(*n) <= usize::MAX,
    ensures
        r == count_node(*n, Query::MethodCallsOn(name@)),
    decreases n,
{
    proof {
        lemma_count_node_bound(*n, Query::MethodCallsOn(name@));
    }
    let hit: usize = match &n.kind {
        NodeKind::ExprMethodCall(_, _, ExprShape::Path(p)) => match p.get_ident() {
            Some(id) => if str_eq(id.as_str(), name) {
                1
            } else {
                0
            },
            None => 0,
        },
        _ => 0,
    };
    let inner = count_calls_on_list(&n.children, name);
    let body = match &n.kind {
        NodeKind::ItemFn(f) => count_calls_on_list(&f.body, name),
        NodeKind::ImplFn(f) => count_calls_on_list(&f.body, name),
        _ => 0,
    };
    hit + inner + body
}

fn count_calls_on_list(nodes: &Vec<Node>, name: &str) -> (r: usize)
    requires
        nodes_size(nodes@) <= usize::MAX,
    ensures
        r == count_nodes(nodes@, Query::MethodCallsOn(name@)),
    decreases nodes,
{
    let ghost q = Query::MethodCallsOn(name@);
    let mut acc: usize = 0;
    let mut i: usize = 0;
    while i < nodes.len()
        invariant
            i <= nodes.len(),
            acc == count_nodes(nodes@.take(i as int), q),
        decreases nodes.len() - i,
    {
        proof {
            assert(nodes@.take(i + 1).drop_last() =~= nodes@.take(i as int));
            lemma_nodes_size_prefix(nodes@, i as int);
            lemma_count_nodes_bound(nodes@.take(i as int), q);
            lemma_count_node_bound(nodes@[i as int], q);
            assert(decreases_to!(nodes => nodes@[i as int]));
        }
        let c = count_calls_on(&nodes[i], name);
        acc = acc + c;
        i += 1;
    }
    assert(nodes@.take(i as int) =~= nodes@);
    acc
}

fn param_name_list(inputs: &Vec<Param>) -> (r: Vec<String>)
    ensures
        r@.map_values(|s: String| s@) == param_names(inputs@),
{
    let mut r: Vec<String> = Vec::new();
    let mut i: usize = 0;
    while i < inputs.len()
        invariant
            i <= inputs.len(),
            r@.map_values(|s: String| s@) == param_names(inputs@.take(i as int)),
        decreases inputs.len() - i,
    {
        assert(inputs@.take(i + 1).drop_last() =~= inputs@.take(i as int));
        let ghost before = r@;
        match &inputs[i] {
            Param::Typed(PatShape::Ident(name), _) => {
                r.push(name.clone());
                assert(r@.map_values(|s: String| s@) =~= before.map_values(|s: String| s@).push(
                    name@,
                ));
            },
            _ => {},
        }
        i += 1;
    }
    assert(inputs@.take(i as int) =~= inputs@);
    r
}

fn envy_of_item(path: &String, n: &Node) -> (r: Option<Smell>)
    requires
        node_size(*n) <= usize::MAX,
    ensures
        match r {
            Some(s) => envy_findings(path@, *n) == seq![s@],
            None => envy_findings(path@, *n) == Seq::<SmellView>::empty(),
        },
{
    match &n.kind {
        NodeKind::ItemFn(f) => {
            if f.vis_inherited {
                return None;
            }
            let mut names = param_name_list(&f.sig.inputs);
            if names.len() == 0 {
                return None;
            }
            names.push(String::from_str("self"));
            let ghost cands = candidates(f.sig.inputs@);
            assert(names@.map_values(|s: String| s@) =~= cands);
            let ghost counts = call_counts(*n, cands);
            let mut c: Vec<usize> = Vec::new();
            let mut i: usize = 0;
            while i < names.len()
                invariant
                    i <= names.len(),
                    names@.map_values(|s: String| s@) == cands,
                    c@.len() == i,
                    forall|k: int| 0 <= k < i ==> c@[k] == counts[k],
                decreases names.len() - i,
            {
                assert(names@[i as int]@ == cands[i as int]);
                c.push(count_calls_on(n, names[i].as_str()));
                i += 1;
            }
            let ghost cv = c@.map_values(|x: usize| x as nat);
            assert(cv =~= counts);
            let mut max_calls: usize = 0;
            let mut j: usize = 0;
            while j < c.len()
                invariant
                    j <= c.len(),
                    cv == c@.map_values(|x: usize| x as nat),
                    max_calls == seq_max(cv.take(j as int)),
                decreases c.len() - j,
            {
                assert(cv.take(j + 1).drop_last() =~= cv.take(j as int));
                if max_calls < c[j] {
                    max_calls = c[j];
                }
                j += 1;
            }
            assert(cv.take(j as int) =~= cv);
            let self_calls = c[c.len() - 1];
            proof {
                assert(names@.last()@ == "self"@);
                assert(counts[cands.len() - 1] == calls_on(*n, "self"@));
            }
            if !(max_calls > 5 && self_calls <= usize::MAX / 2 && max_calls > self_calls * 2) {
                return None;
            }
            proof {
                lemma_seq_max_attained(cv);
                lemma_first_index(cv, max_calls as nat);
            }
            let mut e: usize = 0;
            while c[e] != max_calls
                invariant
                    e <= first_index_of(cv, max_calls as nat),
                    first_index_of(cv, max_calls as nat) < c.len(),
                    cv == c@.map_values(|x: usize| x as nat),
                    forall|k: int| 0 <= k < first_index_of(cv, max_calls as nat) ==> cv[k]
                        != max_calls,
                    cv[first_index_of(cv, max_calls as nat)] == max_calls,
                decreases c.len() - e,
            {
                e += 1;
            }
            assert(cv[e as int] == c@[e as int] as nat);
            assert(e == first_index_of(cv, max_calls as nat));
            assert(names@[e as int]@ == cands[e as int]);
            let mut msg = String::from_str("Function `");
            append_str(&mut msg, f.sig.ident.as_str());
            append_str(&mut msg, "` calls methods on `");
            append_str(&mut msg, names[e].as_str());
            append_str(&mut msg, "` ");
            append_str(&mut msg, decimal_string(max_calls).as_str());
            append_str(&mut msg, " times — consider moving this method");
            assert(msg@ =~= envy_message(f.sig.ident@, cands[e as int], max_calls as nat));
            Some(
                Smell::at_lines(
                    SmellCategory::Design,
                    "Feature Envy",
                    Severity::Info,
                    path,
                    f.block.open_line,
                    f.block.close_line,
                    msg,
                    "Move this function to the type it is most interested in (Use Move refactoring).",
                ),
            )
        },
        _ => None,
    }
}

impl FeatureEnvyDetector {
    pub fn name(&self) -> (r: &'static str)
        ensures
            r@ == "Feature Envy"@,
    {
        "Feature Envy"
    }

    /// The feature-envy findings of `file`, one per envious top-level function,
    /// in the order of the items.
    pub fn detect(&self, file: &SourceFile) -> (r: Vec<Smell>)
        requires
            nodes_size(file.items@) <= usize::MAX,
        ensures
            smell_views(r@) == spec_feature_envy(file.path@, file.items@),
    {
        let mut smells: Vec<Smell> = Vec::new();
        let mut i: usize = 0;
        while i < file.items.len()
            invariant
                i <= file.items.len(),
                nodes_size(file.items@) <= usize::MAX,
                smell_views(smells@) == spec_feature_envy(file.path@, file.items@.take(i as int)),
            decreases file.items.len() - i,
        {
            proof {
                assert(file.items@.take(i + 1).drop_last() =~= file.items@.take(i as int));
                lemma_nodes_size_prefix(file.items@, i as int);
            }
            let ghost before = smells@;
            match envy_of_item(&file.path, &file.items[i]) {
                Some(s) => {
                    smells.push(s);
                    assert(smell_views(smells@) =~= smell_views(before) + envy_findings(
                        file.path@,
                        file.items@[i as int],
                    ));
                },
                None => {
                    assert(smell_views(smells@) =~= smell_views(before) + envy_findings(
                        file.path@,
                        file.items@[i as int],
                    ));
                },
            }
            i += 1;
        }
        assert(file.items@.take(i as int) =~= file.items@);
        smells
    }
}

} // verus!
