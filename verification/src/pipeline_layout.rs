use crate::init_scope::{DescriptorSetLayout, InitScope, ShareSlot};
use crate::interop_read_only_span::InteropReadOnlySpan;
use crate::interop_result::{classify_spec, InteropError, InteropErrorKind, InteropResult};
use vstd::prelude::*;

verus! {

/// Number of references to slot `j` among the handles in `s`.
pub open spec fn occ(s: Seq<DescriptorSetLayout>, j: int) -> nat
    decreases s.len(),
{
    if s.len() == 0 {
        0
    } else {
        occ(s.drop_last(), j) + (if s.last().index == j {
            1nat
        } else {
            0nat
        })
    }
}

pub(crate) proof fn lemma_occ_take_step(s: Seq<DescriptorSetLayout>, k: int, j: int)
    requires
        0 <= k < s.len(),
    ensures
        occ(s.take(k + 1), j) == occ(s.take(k), j) + (if s[k].index == j {
            1nat
        } else {
            0nat
        }),
{
    assert(s.take(k + 1).drop_last() =~= s.take(k));
    assert(s.take(k + 1).last() == s[k]);
}

pub(crate) proof fn lemma_occ_le_len(s: Seq<DescriptorSetLayout>, j: int)
    ensures
        occ(s, j) <= s.len(),
    decreases s.len(),
{
    if s.len() > 0 {
        lemma_occ_le_len(s.drop_last(), j);
    }
}

pub(crate) proof fn lemma_occ_take_le(s: Seq<DescriptorSetLayout>, k: int, j: int)
    requires
        0 <= k <= s.len(),
    ensures
        occ(s.take(k), j) <= occ(s, j),
    decreases s.len() - k,
{
    if k == s.len() {
        assert(s.take(k) =~= s);
    } else {
        lemma_occ_take_step(s, k, j);
        lemma_occ_take_le(s, k + 1, j);
    }
}

pub(crate) proof fn lemma_occ_pos_exists(s: Seq<DescriptorSetLayout>, j: int)
    requires
        occ(s, j) > 0,
    ensures
        exists|k: int| 0 <= k < s.len() && s[k].index == j,
    decreases s.len(),
{
    if s.last().index == j {
        assert(s[s.len() - 1].index == j);
    } else {
        lemma_occ_pos_exists(s.drop_last(), j);
        let k = choose|k: int| 0 <= k < s.drop_last().len() && s.drop_last()[k].index == j;
        assert(s[k].index == j);
    }
}

/// Shared pipeline layout: the backend handle, the identity of the owning
/// initialization scope, and one recorded reference per descriptor-set
/// layout it was built over. Those references keep each referenced layout's
/// share count raised for this layout's whole lifetime.
pub struct PipelineLayout {
    pub inner: u64,
    pub scope_id: u64,
    pub sets: Vec<DescriptorSetLayout>,
}

impl PipelineLayout {
    /// The descriptor-set layout handles this pipeline layout holds.
    pub open spec fn sets(&self) -> Seq<DescriptorSetLayout> {
        self.sets@
    }

    pub fn set_layouts(&self) -> (r: &Vec<DescriptorSetLayout>)
        ensures
            r@ == self.sets(),
    {
        &self.sets
    }
}

/// Backend handles to tear down after a pipeline layout handle is destroyed:
/// the layout's own handle, plus every descriptor-set layout whose last share
/// went away with it, in slot order.
pub struct PipelineLayoutTeardown {
    pub layout_inner: u64,
    pub released_set_layouts: Vec<u64>,
}

/// The descriptor-set layouts of `slots` (up to slot `n`) whose last share is
/// removed when `sets` is dereferenced: exactly those whose whole share count
/// is the number of references `sets` holds on them.
pub open spec fn newly_freed(
    slots: Seq<ShareSlot>,
    sets: Seq<DescriptorSetLayout>,
    n: int,
) -> Seq<u64>
    decreases n,
{
    if n <= 0 {
        Seq::empty()
    } else {
        let p = newly_freed(slots, sets, n - 1);
        if slots[n - 1].shares > 0 && occ(sets, n - 1) == slots[n - 1].shares {
            p.push(slots[n - 1].inner)
        } else {
            p
        }
    }
}

/// Flat entry point: create a pipeline layout from a span of descriptor-set
/// layout handles and the backend's creation outcome, lifted into the result
/// envelope.
pub fn rendering_vulkan_pipeline_layout_create(
    scope: &mut InitScope,
    layouts: InteropReadOnlySpan<'_, DescriptorSetLayout>,
    backend: Result<u64, i32>,
) -> (r: InteropResult<Box<PipelineLayout>>)
    requires
        old(scope).wf(),
        forall|j: int|
            0 <= j < old(scope).slots().len() ==> old(scope).slots()[j].shares + layouts@.len()
                <= u64::MAX,
    ensures
        final(scope).wf(),
        final(scope).scope_id() == old(scope).scope_id(),
        layouts@.len() == 0 ==> (r matches InteropResult::Failure(e) && e.kind
            == InteropErrorKind::Validation) && final(scope).slots() == old(scope).slots(),
        layouts@.len() > 0 && !(forall|k: int|
            0 <= k < layouts@.len() ==> old(scope).valid_layout(layouts@[k])) ==> (
        r matches InteropResult::Failure(e) && e.kind == InteropErrorKind::Validation)
            && final(scope).slots() == old(scope).slots(),
        layouts@.len() > 0 && (forall|k: int|
            0 <= k < layouts@.len() ==> old(scope).valid_layout(layouts@[k])) ==> match backend {
            Err(code) => (r matches InteropResult::Failure(e) && e.kind == classify_spec(code)
                && e.backend_code == code) && final(scope).slots() == old(scope).slots(),
            Ok(inner) => {
                &&& r matches InteropResult::Success(p)
                &&& p.inner == inner
                &&& p.scope_id == old(scope).scope_id()
                &&& p.sets() == layouts@
                &&& final(scope).slots().len() == old(scope).slots().len()
                &&& forall|j: int|
                    0 <= j < old(scope).slots().len() ==> {
                        &&& final(scope).slots()[j].inner == old(scope).slots()[j].inner
                        &&& final(scope).slots()[j].released == old(scope).slots()[j].released
                        &&& final(scope).slots()[j].shares == old(scope).slots()[j].shares + occ(
                            layouts@,
                            j,
                        )
                    }
            },
        },
{
    match scope.create_pipeline_layout(layouts, backend) {
        Ok(p) => InteropResult::with_ok(Box::new(p)),
        Err(e) => InteropResult::with_err(e),
    }
}

/// Flat entry point: take back ownership of a pipeline layout handle, drop
/// the shares it holds, and report which backend objects to tear down.
pub fn rendering_vulkan_pipeline_layout_destroy(
    scope: &mut InitScope,
    handle: Box<PipelineLayout>,
) -> (r: PipelineLayoutTeardown)
    requires
        old(scope).wf(),
        handle.scope_id == old(scope).scope_id(),
        forall|k: int|
            0 <= k < handle.sets().len() ==> (handle.sets()[k].index as int)
                < old(scope).slots().len(),
        forall|j: int|
            0 <= j < old(scope).slots().len() ==> occ(handle.sets(), j)
                <= old(scope).slots()[j].shares,
    ensures
        final(scope).wf(),
        final(scope).scope_id() == old(scope).scope_id(),
        final(scope).slots().len() == old(scope).slots().len(),
        forall|j: int|
            0 <= j < old(scope).slots().len() ==> {
                &&& final(scope).slots()[j].inner == old(scope).slots()[j].inner
                &&& final(scope).slots()[j].shares == old(scope).slots()[j].shares - occ(
                    handle.sets(),
                    j,
                )
            },
        r.layout_inner == handle.inner,
        r.released_set_layouts@ == newly_freed(
            old(scope).slots(),
            handle.sets(),
            old(scope).slots().len() as int,
        ),
{
    let layout_inner = handle.inner;
    let released_set_layouts = scope.destroy_pipeline_layout(handle);
    PipelineLayoutTeardown { layout_inner, released_set_layouts }
}

/// Law: the shares added when a pipeline layout is created over `sets` are
/// exactly the shares removed when it is destroyed, so a create followed by a
/// destroy restores every slot of the scope, share counts and lifecycle
/// states alike.
pub proof fn lemma_pipeline_layout_shares_round_trip(
    before: Seq<ShareSlot>,
    after_create: Seq<ShareSlot>,
    after_destroy: Seq<ShareSlot>,
    sets: Seq<DescriptorSetLayout>,
)
    requires
        after_create.len() == before.len(),
        after_destroy.len() == before.len(),
        forall|j: int|
            0 <= j < before.len() ==> {
                &&& after_create[j].inner == before[j].inner
                &&& after_create[j].released == before[j].released
                &&& after_create[j].shares == before[j].shares + occ(sets, j)
            },
        forall|j: int|
            0 <= j < before.len() ==> {
                &&& after_destroy[j].inner == after_create[j].inner
                &&& after_destroy[j].shares == after_create[j].shares - occ(sets, j)
            },
        forall|j: int| 0 <= j < before.len() ==> (before[j].released <==> before[j].shares == 0),
        forall|j: int|
            0 <= j < before.len() ==> (after_destroy[j].released <==> after_destroy[j].shares
                == 0),
    ensures
        after_destroy =~= before,
{
    assert forall|j: int| 0 <= j < before.len() implies after_destroy[j] == before[j] by {
        assert(after_destroy[j].shares == before[j].shares);
    }
}

} // verus!
