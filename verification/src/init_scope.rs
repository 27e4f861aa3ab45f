use crate::interop_read_only_span::InteropReadOnlySpan;
use crate::interop_result::{classify_spec, InteropError, InteropErrorKind, InteropResult};
use crate::pipeline_layout::{lemma_occ_le_len, lemma_occ_pos_exists, lemma_occ_take_le, lemma_occ_take_step, newly_freed, occ, PipelineLayout};
use vstd::slice::slice_to_vec;
use vstd::prelude::*;

verus! {

/// One shared resource owned by an initialization scope: the backend handle,
/// the number of strong references currently reachable from the host or from
/// dependent resources, and whether the resource has been released. The
/// lifecycle is `Live (shares >= 1)` then `Released`, and a released slot
/// never becomes live again.
#[derive(Clone, Copy, PartialEq, Eq, Structural)]
pub struct ShareSlot {
    pub inner: u64,
    pub shares: u64,
    pub released: bool,
}

/// Handle to a shared descriptor-set layout, tagged with the identity of the
/// initialization scope that owns it so dependent-resource construction can
/// assert matching scopes at the boundary.
#[derive(Clone, Copy, PartialEq, Eq, Structural)]
pub struct DescriptorSetLayout {
    pub scope_id: u64,
    pub index: usize,
}

/// The device/instance-level context that bounds the validity of the shared
/// resources created from it. Resources live in an arena owned by the scope;
/// handles crossing the boundary carry the scope's identity and an index.
pub struct InitScope {
    pub(crate) id: u64,
    pub(crate) slots: Vec<ShareSlot>,
}

impl InitScope {
    pub closed spec fn scope_id(&self) -> u64 {
        self.id
    }

    pub closed spec fn slots(&self) -> Seq<ShareSlot> {
        self.slots@
    }

    /// State-machine invariant of every slot: released exactly when no strong
    /// reference is left; a slot with a nonzero share count is live.
    pub open spec fn wf(&self) -> bool {
        forall|j: int|
            0 <= j < self.slots().len() ==> (self.slots()[j].released <==> self.slots()[j].shares
                == 0)
    }

    /// A handle refers to a live layout of this scope: matching scope
    /// identity, an index the arena knows, and a slot not yet released.
    pub open spec fn valid_layout(&self, h: DescriptorSetLayout) -> bool {
        &&& h.scope_id == self.scope_id()
        &&& (h.index as int) < self.slots().len()
        &&& !self.slots()[h.index as int].released
    }

    pub fn new(id: u64) -> (r: Self)
        ensures
            r.scope_id() == id,
            r.slots() == Seq::<ShareSlot>::empty(),
            r.wf(),
    {
        InitScope { id, slots: Vec::new() }
    }

    pub fn id(&self) -> (r: u64)
        ensures
            r == self.scope_id(),
    {
        self.id
    }

    /// Runtime check of `valid_layout`, total over every handle value.
    pub fn layout_is_live(&self, h: DescriptorSetLayout) -> (r: bool)
        ensures
            r == self.valid_layout(h),
    {
        h.scope_id == self.id && h.index < self.slots.len() && !self.slots[h.index].released
    }

    /// Backend handle of a layout the arena knows, for the raw driver call.
    pub fn layout_inner(&self, h: DescriptorSetLayout) -> (r: u64)
        requires
            h.scope_id == self.scope_id(),
            (h.index as int) < self.slots().len(),
        ensures
            r == self.slots()[h.index as int].inner,
    {
        self.slots[h.index].inner
    }

    /// Current share count of a layout the arena knows.
    pub fn layout_shares(&self, h: DescriptorSetLayout) -> (r: u64)
        requires
            h.scope_id == self.scope_id(),
            (h.index as int) < self.slots().len(),
        ensures
            r == self.slots()[h.index as int].shares,
    {
        self.slots[h.index].shares
    }

    /// Register a new descriptor-set layout from the backend's creation
    /// outcome. On success the new slot starts live with one share (the
    /// handle returned to the host); on a backend failure nothing changes and
    /// the code is classified into the envelope's error record.
    pub fn create_descriptor_set_layout(&mut self, backend: Result<u64, i32>) -> (r: InteropResult<
        DescriptorSetLayout,
    >)
        requires
            old(self).wf(),
        ensures
            final(self).wf(),
            final(self).scope_id() == old(self).scope_id(),
            match backend {
                Ok(inner) => {
                    &&& r matches InteropResult::Success(h)
                    &&& h.scope_id == old(self).scope_id()
                    &&& h.index as int == old(self).slots().len()
                    &&& final(self).slots() == old(self).slots().push(
                        (ShareSlot { inner, shares: 1, released: false }),
                    )
                    &&& final(self).valid_layout(h)
                },
                Err(code) => {
                    &&& r matches InteropResult::Failure(e)
                    &&& e.kind == classify_spec(code)
                    &&& e.backend_code == code
                    &&& final(self).slots() == old(self).slots()
                },
            },
    {
        match backend {
            Ok(inner) => {
                let index = self.slots.len();
                self.slots.push(ShareSlot { inner, shares: 1, released: false });
                proof {
                    assert forall|j: int|
                        0 <= j < self.slots().len() implies (self.slots()[j].released
                        <==> self.slots()[j].shares == 0) by {
                        if j < old(self).slots().len() {
                            assert(self.slots()[j] == old(self).slots()[j]);
                        } else {
                            assert(self.slots()[j] == (ShareSlot {
                                inner,
                                shares: 1,
                                released: false,
                            }));
                        }
                    }
                }
                InteropResult::with_ok(DescriptorSetLayout { scope_id: self.id, index })
            },
            Err(code) => InteropResult::with_err(InteropError::from_backend(code)),
        }
    }

    /// Release the host's own strong reference to a layout. The slot's share
    /// count drops by one; exactly when it reaches zero the slot transitions
    /// to released and the backend handle to tear down is returned. A layout
    /// whose share count stays nonzero is not released.
    pub fn destroy_descriptor_set_layout(&mut self, h: DescriptorSetLayout) -> (r: Option<u64>)
        requires
            old(self).wf(),
            old(self).valid_layout(h),
        ensures
            final(self).wf(),
            final(self).scope_id() == old(self).scope_id(),
            final(self).slots().len() == old(self).slots().len(),
            forall|j: int|
                0 <= j < old(self).slots().len() && j != h.index as int ==> final(self).slots()[j]
                    == old(self).slots()[j],
            final(self).slots()[h.index as int].inner == old(self).slots()[h.index as int].inner,
            final(self).slots()[h.index as int].shares == old(self).slots()[h.index as int].shares
                - 1,
            final(self).slots()[h.index as int].released <==> old(self).slots()[h.index
                as int].shares == 1,
            r is Some <==> old(self).slots()[h.index as int].shares == 1,
            r is Some ==> r == Some(old(self).slots()[h.index as int].inner),
    {
        let slot = self.slots[h.index];
        let shares = slot.shares - 1;
        let released = shares == 0;
        self.slots.set(h.index, ShareSlot { inner: slot.inner, shares, released });
        if released {
            Some(slot.inner)
        } else {
            None
        }
    }
}

/// True when every handle refers to a live layout of `scope`.
fn all_layouts_valid(scope: &InitScope, s: &[DescriptorSetLayout]) -> (r: bool)
    ensures
        r == (forall|k: int| 0 <= k < s@.len() ==> scope.valid_layout(s@[k])),
{
    let mut k: usize = 0;
    while k < s.len()
        invariant
            k <= s@.len(),
            forall|m: int| 0 <= m < k ==> scope.valid_layout(s@[m]),
        decreases s@.len() - k,
    {
        if !scope.layout_is_live(s[k]) {
            return false;
        }
        k = k + 1;
    }
    true
}

impl InitScope {
    /// Create a pipeline layout over a read-only span of descriptor-set
    /// layout handles. An empty span, or any handle that is not a live
    /// layout of this scope, is rejected as a validation error before the
    /// backend outcome is looked at; a backend failure is classified into the
    /// error record; on success every referenced layout gains one share per
    /// occurrence and the new layout records exactly the given handles.
    pub fn create_pipeline_layout(
        &mut self,
        layouts: InteropReadOnlySpan<'_, DescriptorSetLayout>,
        backend: Result<u64, i32>,
    ) -> (r: Result<PipelineLayout, InteropError>)
        requires
            old(self).wf(),
            forall|j: int|
                0 <= j < old(self).slots().len() ==> old(self).slots()[j].shares + layouts@.len()
                    <= u64::MAX,
        ensures
            final(self).wf(),
            final(self).scope_id() == old(self).scope_id(),
            layouts@.len() == 0 ==> (r matches Err(e) && e.kind == InteropErrorKind::Validation)
                && final(self).slots() == old(self).slots(),
            layouts@.len() > 0 && !(forall|k: int|
                0 <= k < layouts@.len() ==> old(self).valid_layout(layouts@[k])) ==> (
            r matches Err(e) && e.kind == InteropErrorKind::Validation) && final(self).slots()
                == old(self).slots(),
            layouts@.len() > 0 && (forall|k: int|
                0 <= k < layouts@.len() ==> old(self).valid_layout(layouts@[k])) ==> match backend {
                Err(code) => (r matches Err(e) && e.kind == classify_spec(code) && e.backend_code
                    == code) && final(self).slots() == old(self).slots(),
                Ok(inner) => {
                    &&& r matches Ok(p)
                    &&& p.inner == inner
                    &&& p.scope_id == old(self).scope_id()
                    &&& p.sets() == layouts@
                    &&& final(self).slots().len() == old(self).slots().len()
                    &&& forall|j: int|
                        #![trigger final(self).slots()[j]]
                        0 <= j < old(self).slots().len() ==> {
                            &&& final(self).slots()[j].inner == old(self).slots()[j].inner
                            &&& final(self).slots()[j].released == old(self).slots()[j].released
                            &&& final(self).slots()[j].shares == old(self).slots()[j].shares + occ(
                                layouts@,
                                j,
                            )
                        }
                },
            },
    {
        let s: &[DescriptorSetLayout] = layouts.as_slice();
        if s.len() == 0 {
            return Err(
                InteropError::validation("a pipeline layout needs at least one descriptor-set layout"),
            );
        }
        if !all_layouts_valid(self, s) {
            return Err(
                InteropError::validation("descriptor-set layouts must be live layouts of this scope"),
            );
        }
        match backend {
            Err(code) => Err(InteropError::from_backend(code)),
            Ok(inner) => {
                let ghost orig = self.slots();
                let mut k: usize = 0;
                while k < s.len()
                    invariant
                        k <= s@.len(),
                        s@ == layouts@,
                        orig == old(self).slots(),
                        self.scope_id() == old(self).scope_id(),
                        self.slots().len() == orig.len(),
                        forall|m: int|
                            0 <= m < s@.len() ==> (s@[m].index as int) < orig.len()
                                && !orig[s@[m].index as int].released,
                        forall|j: int|
                            0 <= j < orig.len() ==> orig[j].shares + s@.len() <= u64::MAX,
                        forall|j: int|
                            0 <= j < orig.len() ==> {
                                &&& self.slots()[j].inner == orig[j].inner
                                &&& self.slots()[j].released == orig[j].released
                                &&& self.slots()[j].shares == orig[j].shares + occ(
                                    s@.take(k as int),
                                    j,
                                )
                            },
                    decreases s@.len() - k,
                {
                    let h = s[k];
                    let slot = self.slots[h.index];
                    proof {
                        lemma_occ_le_len(s@.take(k as int), h.index as int);
                    }
                    self.slots.set(
                        h.index,
                        ShareSlot { inner: slot.inner, shares: slot.shares + 1, released: slot.released },
                    );
                    proof {
                        assert forall|j: int| 0 <= j < orig.len() implies {
                            &&& self.slots()[j].inner == orig[j].inner
                            &&& self.slots()[j].released == orig[j].released
                            &&& self.slots()[j].shares == orig[j].shares + occ(
                                s@.take(k as int + 1),
                                j,
                            )
                        } by {
                            lemma_occ_take_step(s@, k as int, j);
                        }
                    }
                    k = k + 1;
                }
                proof {
                    assert(s@.take(s@.len() as int) =~= s@);
                    assert forall|j: int|
                        0 <= j < self.slots().len() implies (self.slots()[j].released
                        <==> self.slots()[j].shares == 0) by {
                        if occ(s@, j) > 0 {
                            lemma_occ_pos_exists(s@, j);
                            let kk = choose|kk: int| 0 <= kk < s@.len() && s@[kk].index == j;
                            assert(!orig[j].released);
                        }
                    }
                }
                let sets = slice_to_vec(s);
                let scope_id = self.id();
                Ok(PipelineLayout { inner, scope_id, sets })
            },
        }
    }

    /// Remove the shares a pipeline layout holds on its descriptor-set
    /// layouts: each referenced slot loses one share per occurrence, a slot
    /// whose count reaches zero transitions to released, and the backend
    /// handles of exactly those slots are returned in slot order.
    pub fn destroy_pipeline_layout(&mut self, layout: Box<PipelineLayout>) -> (freed: Vec<u64>)
        requires
            old(self).wf(),
            layout.scope_id == old(self).scope_id(),
            forall|k: int|
                0 <= k < layout.sets().len() ==> (layout.sets()[k].index as int)
                    < old(self).slots().len(),
            forall|j: int|
                0 <= j < old(self).slots().len() ==> occ(layout.sets(), j)
                    <= old(self).slots()[j].shares,
        ensures
            final(self).wf(),
            final(self).scope_id() == old(self).scope_id(),
            final(self).slots().len() == old(self).slots().len(),
            forall|j: int|
                #![trigger final(self).slots()[j]]
                0 <= j < old(self).slots().len() ==> {
                    &&& final(self).slots()[j].inner == old(self).slots()[j].inner
                    &&& final(self).slots()[j].shares == old(self).slots()[j].shares - occ(
                        layout.sets(),
                        j,
                    )
                },
            freed@ == newly_freed(
                old(self).slots(),
                layout.sets(),
                old(self).slots().len() as int,
            ),
    {
        let ghost orig = self.slots();
        let mut k: usize = 0;
        while k < layout.sets.len()
            invariant
                k <= layout.sets().len(),
                orig == old(self).slots(),
                self.scope_id() == old(self).scope_id(),
                self.slots().len() == orig.len(),
                forall|m: int| 0 <= m < layout.sets().len() ==> (layout.sets()[m].index as int) < orig.len(),
                forall|j: int| 0 <= j < orig.len() ==> occ(layout.sets(), j) <= orig[j].shares,
                forall|j: int|
                    0 <= j < orig.len() ==> {
                        &&& self.slots()[j].inner == orig[j].inner
                        &&& self.slots()[j].released == orig[j].released
                        &&& self.slots()[j].shares == orig[j].shares - occ(layout.sets().take(k as int), j)
                    },
            decreases layout.sets().len() - k,
        {
            let h = layout.sets[k];
            let slot = self.slots[h.index];
            proof {
                lemma_occ_take_step(layout.sets(), k as int, h.index as int);
                lemma_occ_take_le(layout.sets(), k as int + 1, h.index as int);
            }
            self.slots.set(
                h.index,
                ShareSlot { inner: slot.inner, shares: slot.shares - 1, released: slot.released },
            );
            proof {
                assert forall|j: int| 0 <= j < orig.len() implies {
                    &&& self.slots()[j].inner == orig[j].inner
                    &&& self.slots()[j].released == orig[j].released
                    &&& self.slots()[j].shares == orig[j].shares - occ(layout.sets().take(k as int + 1), j)
                } by {
                    lemma_occ_take_step(layout.sets(), k as int, j);
                }
            }
            k = k + 1;
        }
        proof {
            assert(layout.sets().take(layout.sets().len() as int) =~= layout.sets());
        }
        let ghost mid = self.slots();
        let mut freed: Vec<u64> = Vec::new();
        let mut j: usize = 0;
        while j < self.slots.len()
            invariant
                j <= self.slots().len(),
                orig == old(self).slots(),
                self.scope_id() == old(self).scope_id(),
                self.slots().len() == orig.len(),
                mid.len() == orig.len(),
                forall|i: int| 0 <= i < orig.len() ==> (orig[i].released <==> orig[i].shares == 0),
                forall|i: int|
                    0 <= i < orig.len() ==> {
                        &&& mid[i].inner == orig[i].inner
                        &&& mid[i].released == orig[i].released
                        &&& mid[i].shares == orig[i].shares - occ(layout.sets(), i)
                    },
                forall|i: int| j <= i < orig.len() ==> self.slots()[i] == mid[i],
                forall|i: int|
                    0 <= i < j ==> {
                        &&& self.slots()[i].inner == mid[i].inner
                        &&& self.slots()[i].shares == mid[i].shares
                        &&& (self.slots()[i].released <==> self.slots()[i].shares == 0)
                    },
                freed@ == newly_freed(orig, layout.sets(), j as int),
            decreases self.slots@.len() - j,
        {
            let slot = self.slots[j];
            if slot.shares == 0 && !slot.released {
                self.slots.set(j, ShareSlot { inner: slot.inner, shares: 0, released: true });
                freed.push(slot.inner);
            }
            j = j + 1;
        }
        proof {
            assert forall|i: int|
                0 <= i < self.slots().len() implies (self.slots()[i].released
                <==> self.slots()[i].shares == 0) by {
                assert(self.slots()[i].shares == mid[i].shares);
            }
        }
        freed
    }
}

/// Law: the shared-resource state machine never leaves `Released`. A released
/// slot has no share left, so no operation that requires a live slot accepts
/// it, and under the scope invariant a slot is released exactly when its
/// share count is zero.
pub proof fn lemma_released_is_terminal(scope: InitScope, h: DescriptorSetLayout)
    requires
        scope.wf(),
        h.scope_id == scope.scope_id(),
        (h.index as int) < scope.slots().len(),
        scope.slots()[h.index as int].released,
    ensures
        !scope.valid_layout(h),
        scope.slots()[h.index as int].shares == 0,
{
}

} // verus!
