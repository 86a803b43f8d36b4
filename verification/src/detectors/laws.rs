//! What the policy's notion of test code means for the detectors that
//! consult it.
use vstd::prelude::*;
use crate::detectors::concurrency::async_trait_overhead::async_in_node;
use crate::detectors::implementation::inline_candidate::candidates_in_node;
use crate::detectors::implementation::unnecessary_allocation_in_loop::alloc_in_node;
use crate::detectors::implementation::unused_result::spec_unused_result;
use crate::detectors::policy::{spec_has_test_cfg, spec_is_test_path, PolicyView};
use crate::detectors::walk::{count_node, Query};
use crate::syntax::{Node, NodeKind, SourceFile};

verus! {

/// A module that the policy marks as test code contributes nothing: no
/// `async_trait` finding, no inline candidate, no allocation finding (inside
/// a loop or not), and none of the calls in it are counted as call sites.
pub proof fn law_test_modules_are_skipped(policy: PolicyView, n: Node, name: Seq<char>, in_loop: bool)
    requires
        n.kind matches NodeKind::ItemMod(attrs) && spec_has_test_cfg(policy, attrs@),
    ensures
        async_in_node(policy, n) == Seq::<usize>::empty(),
        candidates_in_node(policy, n).len() == 0,
        alloc_in_node(policy, n, in_loop).len() == 0,
        count_node(n, Query::FunctionCalls(name, policy)) == 0,
        count_node(n, Query::MethodCalls(name, policy)) == 0,
{
}

/// A file on a path that the policy marks as a test path yields no
/// unused-result finding.
pub proof fn law_test_paths_yield_no_unused_results(policy: PolicyView, file: SourceFile)
    requires
        spec_is_test_path(policy, file.path@),
    ensures
        spec_unused_result(policy, file).len() == 0,
{
}

} // verus!
