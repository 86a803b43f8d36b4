//! The policy that decides which code the detectors leave alone: test code,
//! template structs and data-carrier structs.
use vstd::prelude::*;
use crate::syntax::{
    path_is_ident, Attribute, Meta, MetaBody, SynPath,
};
use crate::text::{
    chars_of, ends_with_seq, ends_with_str, split_char, split_chars, str_eq,
};

verus! {

/// The settings of the policy.
pub struct PolicyConfig {
    /// Whether test code is skipped at all.
    pub skip_tests: bool,
    /// A path component equal to, or ending with, one of these marks a test path.
    pub test_path_markers: Vec<String>,
    pub skip_template_structs: bool,
    pub skip_data_carrier_structs: bool,
    /// A struct whose name ends with one of these carries data only.
    pub data_carrier_struct_suffixes: Vec<String>,
}

/// The abstract content of a `PolicyConfig`.
pub struct PolicyView {
    pub skip_tests: bool,
    pub test_path_markers: Seq<Seq<char>>,
    pub skip_template_structs: bool,
    pub skip_data_carrier_structs: bool,
    pub data_carrier_struct_suffixes: Seq<Seq<char>>,
}

/// The views of a sequence of strings.
pub open spec fn texts(v: Seq<String>) -> Seq<Seq<char>> {
    v.map_values(|s: String| s@)
}

impl View for PolicyConfig {
    type V = PolicyView;

    open spec fn view(&self) -> PolicyView {
        PolicyView {
            skip_tests: self.skip_tests,
            test_path_markers: texts(self.test_path_markers@),
            skip_template_structs: self.skip_template_structs,
            skip_data_carrier_structs: self.skip_data_carrier_structs,
            data_carrier_struct_suffixes: texts(self.data_carrier_struct_suffixes@),
        }
    }
}

fn copy_strings(v: &Vec<String>) -> (r: Vec<String>)
    ensures
        texts(r@) == texts(v@),
{
    let mut r: Vec<String> = Vec::new();
    let mut i: usize = 0;
    while i < v.len()
        invariant
            i <= v.len(),
            r@.len() == i,
            forall|k: int| 0 <= k < i ==> r@[k]@ == v@[k]@,
        decreases v.len() - i,
    {
        let c = v[i].clone();
        r.push(c);
        i += 1;
    }
    assert(texts(r@) =~= texts(v@));
    r
}

impl PolicyConfig {
    /// A copy of this policy.
    pub fn duplicate(&self) -> (r: PolicyConfig)
        ensures
            r@ == self@,
    {
        PolicyConfig {
            skip_tests: self.skip_tests,
            test_path_markers: copy_strings(&self.test_path_markers),
            skip_template_structs: self.skip_template_structs,
            skip_data_carrier_structs: self.skip_data_carrier_structs,
            data_carrier_struct_suffixes: copy_strings(&self.data_carrier_struct_suffixes),
        }
    }
}

/// The policy in force for the detectors.
pub struct ActivePolicy {
    current: PolicyConfig,
}

impl View for ActivePolicy {
    type V = PolicyView;

    closed spec fn view(&self) -> PolicyView {
        self.current@
    }
}

impl ActivePolicy {
    /// A policy store holding `policy`.
    pub fn new(policy: PolicyConfig) -> (r: ActivePolicy)
        ensures
            r@ == policy@,
    {
        ActivePolicy { current: policy }
    }

    /// The policy in force.
    pub fn current(&self) -> (r: &PolicyConfig)
        ensures
            r@ == self@,
    {
        &self.current
    }
}

/// Puts `policy` in force: every later decision of `active` follows it.
pub fn configure(active: &mut ActivePolicy, policy: &PolicyConfig)
    ensures
        final(active)@ == policy@,
{
    active.current = policy.duplicate();
}

// ---------------------------------------------------------------------------
// Test paths
/// `s` is the one-character text `c`.
pub open spec fn is_single(s: Seq<char>, c: char) -> bool {
    s.len() == 1 && s[0] == c
}

/// The normal components of a path among the pieces between its `/`: no
/// empty piece and no `.`.
pub open spec fn normal_components(pieces: Seq<Seq<char>>) -> Seq<Seq<char>>
    decreases pieces.len(),
{
    if pieces.len() == 0 {
        Seq::empty()
    } else {
        let rest = normal_components(pieces.drop_last());
        let p = pieces.last();
        if p.len() == 0 || is_single(p, '.') {
            rest
        } else {
            rest.push(p)
        }
    }
}

/// The path is rooted: it starts with `/`.
pub open spec fn is_rooted(path: Seq<char>) -> bool {
    path.len() > 0 && path[0] == '/'
}

/// A relative path that starts with the component `.`.
pub open spec fn starts_with_cur_dir(path: Seq<char>) -> bool {
    !is_rooted(path) && path.len() > 0 && path[0] == '.' && (path.len() == 1 || path[1] == '/')
}

/// The components of a path as `std::path::Path::components` gives them on
/// Unix, each as its text: `/` for the root, `.` when the path starts with
/// it, then the pieces between separators, without empty pieces and `.`.
pub open spec fn path_components(path: Seq<char>) -> Seq<Seq<char>> {
    (if is_rooted(path) {
        seq![seq!['/']]
    } else {
        Seq::empty()
    }) + (if starts_with_cur_dir(path) {
        seq![seq!['.']]
    } else {
        Seq::empty()
    }) + normal_components(split_char(path, '/'))
}

/// The component is equal to, or ends with, one of the markers.
pub open spec fn marks_test(component: Seq<char>, markers: Seq<Seq<char>>) -> bool {
    exists|j: int|
        0 <= j < markers.len() && (component == markers[j] || ends_with_seq(
            component,
            markers[j],
        ))
}

/// The file at `path` is test code that the policy skips.
pub open spec fn spec_is_test_path(policy: PolicyView, path: Seq<char>) -> bool {
    policy.skip_tests && exists|i: int|
        0 <= i < path_components(path).len() && marks_test(
            #[trigger] path_components(path)[i],
            policy.test_path_markers,
        )
}

pub fn component_list(path: &str) -> (r: Vec<Vec<char>>)
    ensures
        r@.map_values(|p: Vec<char>| p@) == path_components(path@),
{
    let cs = chars_of(path);
    let mut r: Vec<Vec<char>> = Vec::new();
    let rooted = cs.len() > 0 && cs[0] == '/';
    if rooted {
        let mut root: Vec<char> = Vec::new();
        root.push('/');
        r.push(root);
    }
    if !rooted && cs.len() > 0 && cs[0] == '.' && (cs.len() == 1 || cs[1] == '/') {
        let mut cur: Vec<char> = Vec::new();
        cur.push('.');
        r.push(cur);
    }
    let ghost head = r@.map_values(|p: Vec<char>| p@);
    assert(head =~= (if is_rooted(path@) {
        seq![seq!['/']]
    } else {
        Seq::empty()
    }) + (if starts_with_cur_dir(path@) {
        seq![seq!['.']]
    } else {
        Seq::empty()
    }));
    let pieces = split_chars(&cs, '/');
    let ghost pv = pieces@.map_values(|p: Vec<char>| p@);
    let mut i: usize = 0;
    while i < pieces.len()
        invariant
            i <= pieces.len(),
            pv == pieces@.map_values(|p: Vec<char>| p@),
            r@.map_values(|p: Vec<char>| p@) == head + normal_components(pv.take(i as int)),
        decreases pieces.len() - i,
    {
        assert(pv.take(i + 1).drop_last() =~= pv.take(i as int));
        assert(pv[i as int] == pieces@[i as int]@);
        assert(pv.take(i + 1).last() == pv[i as int]);
        let p = &pieces[i];
        let skip = p.len() == 0 || (p.len() == 1 && p[0] == '.');
        let ghost before = r@;
        if !skip {
            r.push(p.clone());
            assert(r@.map_values(|p: Vec<char>| p@) =~= before.map_values(|p: Vec<char>| p@).push(
                pv[i as int],
            ));
            assert(head + normal_components(pv.take(i + 1)) =~= (head + normal_components(
                pv.take(i as int),
            )).push(pv[i as int]));
        }
        i += 1;
    }
    assert(pv.take(i as int) =~= pv);
    r
}

fn marks_test_exec(component: &Vec<char>, markers: &Vec<String>) -> (r: bool)
    ensures
        r == marks_test(component@, texts(markers@)),
{
    let comp = string_of(component);
    let mut j: usize = 0;
    while j < markers.len()
        invariant
            j <= markers.len(),
            comp@ == component@,
            forall|k: int|
                0 <= k < j ==> !(component@ == texts(markers@)[k] || ends_with_seq(
                    component@,
                    texts(markers@)[k],
                )),
        decreases markers.len() - j,
    {
        if str_eq(comp.as_str(), markers[j].as_str()) || ends_with_str(
            comp.as_str(),
            markers[j].as_str(),
        ) {
            assert(texts(markers@)[j as int] == markers@[j as int]@);
            return true;
        }
        j += 1;
    }
    false
}

fn string_of(cs: &Vec<char>) -> (r: String)
    ensures
        r@ == cs@,
{
    crate::text::string_from_chars(cs)
}

/// Whether the file at `path` is test code that the policy in force skips:
/// tests are skipped and a component of the path is, or ends with, a test
/// marker.
pub fn is_test_path(active: &ActivePolicy, path: &str) -> (r: bool)
    ensures
        r == spec_is_test_path(active@, path@),
{
    let policy = active.current();
    if !policy.skip_tests {
        return false;
    }
    let comps = component_list(path);
    let ghost cv = comps@.map_values(|p: Vec<char>| p@);
    let mut i: usize = 0;
    while i < comps.len()
        invariant
            i <= comps.len(),
            cv == comps@.map_values(|p: Vec<char>| p@),
            cv == path_components(path@),
            policy@ == active@,
            forall|k: int| 0 <= k < i ==> !marks_test(cv[k], policy@.test_path_markers),
        decreases comps.len() - i,
    {
        if marks_test_exec(&comps[i], &policy.test_path_markers) {
            assert(cv[i as int] == comps@[i as int]@);
            assert(marks_test(path_components(path@)[i as int], active@.test_path_markers));
            return true;
        }
        i += 1;
    }
    false
}

// ---------------------------------------------------------------------------
// Test configuration attributes
/// A meta names the `test` configuration, directly or inside a nested list
/// such as `all(test, unix)`.
pub open spec fn meta_contains_test_cfg(meta: Meta) -> bool
    decreases meta,
{
    match meta.body {
        MetaBody::Path => path_is_ident(meta.path, "test"@),
        MetaBody::List(args) => match args {
            Some(metas) => metas_contain_test_cfg(metas@),
            None => false,
        },
        MetaBody::NameValue => false,
    }
}

/// One of the metas names the `test` configuration.
pub open spec fn metas_contain_test_cfg(metas: Seq<Meta>) -> bool
    decreases metas,
{
    if metas.len() == 0 {
        false
    } else {
        metas_contain_test_cfg(metas.drop_last()) || meta_contains_test_cfg(metas.last())
    }
}

/// The attribute is `#[cfg(...)]` with a list that names the `test` configuration.
pub open spec fn attr_is_test_cfg(attr: Attribute) -> bool {
    path_is_ident(attr.meta.path, "cfg"@) && match attr.meta.body {
        MetaBody::List(Some(metas)) => metas_contain_test_cfg(metas@),
        _ => false,
    }
}

/// One of the attributes is a test configuration.
pub open spec fn any_test_cfg(attrs: Seq<Attribute>) -> bool {
    exists|i: int| 0 <= i < attrs.len() && attr_is_test_cfg(#[trigger] attrs[i])
}

/// The policy skips tests and one of the attributes is a test configuration.
pub open spec fn spec_has_test_cfg(policy: PolicyView, attrs: Seq<Attribute>) -> bool {
    policy.skip_tests && any_test_cfg(attrs)
}

fn meta_contains_test_cfg_exec(meta: &Meta) -> (r: bool)
    ensures
        r == meta_contains_test_cfg(*meta),
    decreases meta,
{
    match &meta.body {
        MetaBody::Path => meta.path.is_ident("test"),
        MetaBody::List(args) => match args {
            Some(metas) => {
                let mut i: usize = 0;
                let mut found = false;
                while i < metas.len()
                    invariant
                        i <= metas.len(),
                        found == metas_contain_test_cfg(metas@.take(i as int)),
                        meta.body == MetaBody::List(Some(*metas)),
                    decreases metas.len() - i,
                {
                    assert(metas@.take(i + 1).drop_last() =~= metas@.take(i as int));
                    proof {
                        assert(decreases_to!(*meta => metas@[i as int]));
                    }
                    if meta_contains_test_cfg_exec(&metas[i]) {
                        found = true;
                    }
                    i += 1;
                }
                assert(metas@.take(i as int) =~= metas@);
                found
            },
            None => false,
        },
        MetaBody::NameValue => false,
    }
}

fn attr_is_test_cfg_exec(attr: &Attribute) -> (r: bool)
    ensures
        r == attr_is_test_cfg(*attr),
{
    if !attr.meta.path.is_ident("cfg") {
        return false;
    }
    match &attr.meta.body {
        MetaBody::List(Some(_)) => meta_contains_test_cfg_exec(&attr.meta),
        _ => false,
    }
}

/// Whether the policy in force skips tests and one of the attributes is a
/// test configuration such as `#[cfg(test)]` or `#[cfg(all(test, unix))]`.
pub fn has_test_cfg(active: &ActivePolicy, attrs: &Vec<Attribute>) -> (r: bool)
    ensures
        r == spec_has_test_cfg(active@, attrs@),
{
    if !active.current().skip_tests {
        return false;
    }
    let mut i: usize = 0;
    while i < attrs.len()
        invariant
            i <= attrs.len(),
            forall|k: int| 0 <= k < i ==> !attr_is_test_cfg(attrs@[k]),
        decreases attrs.len() - i,
    {
        if attr_is_test_cfg_exec(&attrs[i]) {
            assert(attr_is_test_cfg(attrs@[i as int]));
            return true;
        }
        i += 1;
    }
    false
}

// ---------------------------------------------------------------------------
// Template and data-carrier structs
/// The attribute marks a template: `#[template]`, `#[Template]`, or a derive
/// list with `Template` in it.
pub open spec fn is_template_attr(attr: Attribute) -> bool {
    let p = attr.meta.path;
    path_is_ident(p, "template"@) || path_is_ident(
        p,
        "Template"@,
    ) || (path_is_ident(p, "derive"@) && match attr.meta.body {
        MetaBody::List(Some(metas)) => exists|j: int|
            0 <= j < metas@.len() && path_is_ident(
                #[trigger] metas@[j].path,
                "Template"@,
            ),
        _ => false,
    })
}

/// One of the attributes marks a template.
pub open spec fn spec_has_template_attr(attrs: Seq<Attribute>) -> bool {
    exists|i: int| 0 <= i < attrs.len() && is_template_attr(#[trigger] attrs[i])
}

/// The name ends with one of the data-carrier suffixes.
pub open spec fn spec_is_data_carrier_name(name: Seq<char>, policy: PolicyView) -> bool {
    exists|i: int|
        0 <= i < policy.data_carrier_struct_suffixes.len() && ends_with_seq(
            name,
            #[trigger] policy.data_carrier_struct_suffixes[i],
        )
}

fn is_template_attr_exec(attr: &Attribute) -> (r: bool)
    ensures
        r == is_template_attr(*attr),
{
    let p = &attr.meta.path;
    if p.is_ident("template") || p.is_ident("Template") {
        return true;
    }
    if !p.is_ident("derive") {
        return false;
    }
    assert(path_is_ident(attr.meta.path, "derive"@));
    match &attr.meta.body {
        MetaBody::List(Some(metas)) => {
            let mut j: usize = 0;
            while j < metas.len()
                invariant
                    j <= metas.len(),
                    forall|k: int|
                        0 <= k < j ==> !path_is_ident(
                            #[trigger] metas@[k].path,
                            "Template"@,
                        ),
                decreases metas.len() - j,
            {
                if metas[j].path.is_ident("Template") {
                    assert(path_is_ident(metas@[j as int].path, "Template"@));
                    assert(attr.meta.body == MetaBody::List(Some(*metas)));
                    return true;
                }
                j += 1;
            }
            false
        },
        _ => false,
    }
}

fn has_template_attr(attrs: &Vec<Attribute>) -> (r: bool)
    ensures
        r == spec_has_template_attr(attrs@),
{
    let mut i: usize = 0;
    while i < attrs.len()
        invariant
            i <= attrs.len(),
            forall|k: int| 0 <= k < i ==> !is_template_attr(attrs@[k]),
        decreases attrs.len() - i,
    {
        if is_template_attr_exec(&attrs[i]) {
            return true;
        }
        i += 1;
    }
    false
}

/// Whether `name` ends with one of the policy's data-carrier suffixes.
pub fn is_data_carrier_name(name: &str, policy: &PolicyConfig) -> (r: bool)
    ensures
        r == spec_is_data_carrier_name(name@, policy@),
{
    let mut i: usize = 0;
    while i < policy.data_carrier_struct_suffixes.len()
        invariant
            i <= policy.data_carrier_struct_suffixes.len(),
            forall|k: int|
                0 <= k < i ==> !ends_with_seq(name@, policy@.data_carrier_struct_suffixes[k]),
        decreases policy.data_carrier_struct_suffixes.len() - i,
    {
        if ends_with_str(name, policy.data_carrier_struct_suffixes[i].as_str()) {
            assert(ends_with_seq(name@, policy@.data_carrier_struct_suffixes[i as int]));
            return true;
        }
        i += 1;
    }
    false
}

/// The struct is one the policy in force leaves alone: a template struct or a
/// data carrier.
pub open spec fn spec_is_dto_template_or_config_struct(
    policy: PolicyView,
    attrs: Seq<Attribute>,
    name: Seq<char>,
) -> bool {
    (policy.skip_template_structs && spec_has_template_attr(attrs)) || (
    policy.skip_data_carrier_structs && spec_is_data_carrier_name(name, policy))
}

/// Whether the struct with these attributes and this name is one the policy
/// in force leaves alone.
pub fn is_dto_template_or_config_struct(
    active: &ActivePolicy,
    attrs: &Vec<Attribute>,
    name: &String,
) -> (r: bool)
    ensures
        r == spec_is_dto_template_or_config_struct(active@, attrs@, name@),
{
    let policy = active.current();
    (policy.skip_template_structs && has_template_attr(attrs)) || (policy.skip_data_carrier_structs
        && is_data_carrier_name(name.as_str(), policy))
}

// ---------------------------------------------------------------------------
// Laws
/// After `configure` puts a policy in force, the decisions on test paths and
/// test configurations are those of that policy.
pub proof fn law_configured_policy_decides(
    policy: PolicyConfig,
    active: ActivePolicy,
    path: Seq<char>,
    attrs: Seq<Attribute>,
)
    requires
        active@ == policy@,
    ensures
        spec_is_test_path(active@, path) == spec_is_test_path(policy@, path),
        spec_has_test_cfg(active@, attrs) == spec_has_test_cfg(policy@, attrs),
{
}

/// When the policy does not skip tests, no path is a test path and no
/// attribute marks test code.
pub proof fn law_tests_kept_when_not_skipping(
    policy: PolicyView,
    path: Seq<char>,
    attrs: Seq<Attribute>,
)
    requires
        !policy.skip_tests,
    ensures
        !spec_is_test_path(policy, path),
        !spec_has_test_cfg(policy, attrs),
{
}

/// The metas name the `test` configuration exactly when one of them does.
pub proof fn lemma_metas_contain_test_cfg(metas: Seq<Meta>)
    ensures
        metas_contain_test_cfg(metas) <==> exists|j: int|
            0 <= j < metas.len() && meta_contains_test_cfg(#[trigger] metas[j]),
    decreases metas.len(),
{
    if metas.len() > 0 {
        let init = metas.drop_last();
        lemma_metas_contain_test_cfg(init);
        if metas_contain_test_cfg(init) {
            let j = choose|j: int| 0 <= j < init.len() && meta_contains_test_cfg(#[trigger] init[j]);
            assert(metas[j] == init[j]);
        }
        assert forall|j: int| 0 <= j < metas.len() && meta_contains_test_cfg(
            #[trigger] metas[j],
        ) implies metas_contain_test_cfg(metas) by {
            if j < metas.len() - 1 {
                assert(init[j] == metas[j]);
            }
        }
    }
}

/// Test code is marked by a `#[cfg(...)]` attribute (path exactly `cfg`, with
/// a list) in whose arguments `test` occurs as a bare path at any depth, as in
/// `cfg(test)`, `cfg(all(test, unix))` or `cfg(not(test))`; it is skipped only
/// while the policy skips tests. `cfg(feature = "test")` and
/// `cfg_attr(test, ..)` do not mark it.
pub proof fn law_test_cfg_marks_test_code(policy: PolicyView, attrs: Seq<Attribute>)
    ensures
        spec_has_test_cfg(policy, attrs) <==> policy.skip_tests && exists|i: int|
            0 <= i < attrs.len() && path_is_ident(#[trigger] attrs[i].meta.path, "cfg"@) && (
            match attrs[i].meta.body {
                MetaBody::List(Some(metas)) => exists|j: int|
                    0 <= j < metas@.len() && meta_contains_test_cfg(#[trigger] metas@[j]),
                _ => false,
            }),
{
    assert forall|i: int| 0 <= i < attrs.len() implies (attr_is_test_cfg(#[trigger] attrs[i])
        <==> path_is_ident(attrs[i].meta.path, "cfg"@) && match attrs[i].meta.body {
        MetaBody::List(Some(metas)) => exists|j: int|
            0 <= j < metas@.len() && meta_contains_test_cfg(#[trigger] metas@[j]),
        _ => false,
    }) by {
        match attrs[i].meta.body {
            MetaBody::List(Some(metas)) => lemma_metas_contain_test_cfg(metas@),
            _ => {},
        }
    }
}

/// More test markers never turn a test path into a non-test path.
pub proof fn law_more_markers_keep_test_paths(
    policy: PolicyView,
    extra: Seq<Seq<char>>,
    path: Seq<char>,
)
    requires
        spec_is_test_path(policy, path),
    ensures
        spec_is_test_path(
            PolicyView { test_path_markers: policy.test_path_markers + extra, ..policy },
            path,
        ),
{
    let i = choose|i: int|
        0 <= i < path_components(path).len() && marks_test(
            #[trigger] path_components(path)[i],
            policy.test_path_markers,
        );
    let c = path_components(path)[i];
    let j = choose|j: int|
        0 <= j < policy.test_path_markers.len() && (c == policy.test_path_markers[j]
            || ends_with_seq(c, policy.test_path_markers[j]));
    let more = policy.test_path_markers + extra;
    assert(more[j] == policy.test_path_markers[j]);
    assert(marks_test(c, more));
}

} // verus!
