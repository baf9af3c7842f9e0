//! Enumeration of the outputs attached to one adapter.
//!
//! The foreign primitive is index based: asking an adapter for the output at
//! index 0, 1, 2, ... either fills in an output and succeeds, or fails — the
//! documented "not found" failure is the end-of-sequence signal, and any
//! other failure is treated the same way, as termination. An [`Adapter`]
//! models that primitive as the sequence of answers per index:
//! [`get_adater_outputs`] probes it in order, stops at the first failing
//! index, keeps exactly the outputs attached to the desktop, and takes
//! ownership of one fresh foreign reference per kept output.

use vstd::prelude::*;

use crate::com::ComObject;
use crate::com::ComRuntime;
use crate::com::UniqueCOMPtr;
use crate::com::IID_IDXGI_OUTPUT;
use crate::com::IID_IDXGI_OUTPUT1;
use crate::desc::blank_texture_desc;
use crate::desc::OutputDesc;
use crate::desc::TextureDesc;
use crate::hresult::hr_failed;
use crate::hresult::spec_hr_failed;

verus! {

/// One index of the enumeration primitive: the status the adapter answers
/// at this index and, when the status is a success, the description of the
/// output found there.
#[derive(Clone, Copy, PartialEq, Eq, Structural, Debug)]
pub struct OutputSlot {
    /// Status the "get output at index" primitive returns here.
    pub hr: i32,
    /// Description of the output at this index, meaningful on success.
    pub desc: OutputDesc,
}

/// A graphics adapter, modelled as its answers to the index-based output
/// enumeration primitive; every index past the end of `slots` answers the
/// "not found" status.
pub struct Adapter {
    /// The answers per index.
    pub slots: Vec<OutputSlot>,
}

/// The index at which enumeration stops: the first index whose status is a
/// failure, or the length when every listed index succeeds (past the end
/// the primitive answers "not found").
pub open spec fn enum_end(slots: Seq<OutputSlot>) -> int
    decreases slots.len(),
{
    if slots.len() == 0 {
        0
    } else if spec_hr_failed(slots[0].hr) {
        0
    } else {
        1 + enum_end(slots.drop_first())
    }
}

/// What characterises the stopping index: every index before it succeeds,
/// and it either fails or is the end of the listed answers.
pub open spec fn enum_stops_at(slots: Seq<OutputSlot>, e: int) -> bool {
    &&& 0 <= e <= slots.len()
    &&& forall|j: int| 0 <= j < e ==> !spec_hr_failed(slots[j].hr)
    &&& e < slots.len() ==> spec_hr_failed(slots[e].hr)
}

/// The stopping index stops the enumeration.
pub proof fn lemma_enum_end_stops(slots: Seq<OutputSlot>)
    ensures
        enum_stops_at(slots, enum_end(slots)),
    decreases slots.len(),
{
    if slots.len() == 0 {
    } else if spec_hr_failed(slots[0].hr) {
    } else {
        lemma_enum_end_stops(slots.drop_first());
        let rest = slots.drop_first();
        let e = 1 + enum_end(rest);
        assert forall|j: int| 0 <= j < e implies !spec_hr_failed(slots[j].hr) by {
            if j >= 1 {
                assert(slots[j] == rest[j - 1]);
            }
        }
        if e < slots.len() {
            assert(slots[e] == rest[e - 1]);
        }
    }
}

/// Only one index can stop the enumeration.
pub proof fn lemma_stops_at_unique(slots: Seq<OutputSlot>, e1: int, e2: int)
    requires
        enum_stops_at(slots, e1),
        enum_stops_at(slots, e2),
    ensures
        e1 == e2,
{
    if e1 < e2 {
        assert(spec_hr_failed(slots[e1].hr));
        assert(!spec_hr_failed(slots[e1].hr));
    }
    if e2 < e1 {
        assert(spec_hr_failed(slots[e2].hr));
        assert(!spec_hr_failed(slots[e2].hr));
    }
}

/// The descriptions the enumeration keeps out of a run of slots: those
/// marked attached to the desktop, in index order.
pub open spec fn kept_outputs(slots: Seq<OutputSlot>) -> Seq<OutputDesc>
    decreases slots.len(),
{
    if slots.len() == 0 {
        Seq::empty()
    } else {
        let pre = kept_outputs(slots.drop_last());
        if slots.last().desc.attached_to_desktop {
            pre.push(slots.last().desc)
        } else {
            pre
        }
    }
}

/// How many of a run of slots are attached to the desktop.
pub open spec fn attached_count(slots: Seq<OutputSlot>) -> nat
    decreases slots.len(),
{
    if slots.len() == 0 {
        0
    } else {
        attached_count(slots.drop_last()) + if slots.last().desc.attached_to_desktop {
            1nat
        } else {
            0nat
        }
    }
}

/// Every description the enumeration keeps is attached to the desktop:
/// detached outputs are skipped, never returned.
pub proof fn lemma_kept_outputs_attached(slots: Seq<OutputSlot>)
    ensures
        forall|k: int|
            0 <= k < kept_outputs(slots).len() ==> kept_outputs(slots)[k].attached_to_desktop,
    decreases slots.len(),
{
    if slots.len() > 0 {
        lemma_kept_outputs_attached(slots.drop_last());
        let pre = kept_outputs(slots.drop_last());
        assert forall|k: int|
            0 <= k < kept_outputs(slots).len() implies kept_outputs(
            slots,
        )[k].attached_to_desktop by {
            if k < pre.len() {
                assert(kept_outputs(slots)[k] == pre[k]);
            }
        }
    }
}

/// The enumeration keeps exactly as many outputs as are attached: its
/// length is the number of attached outputs in the run it covers.
pub proof fn lemma_kept_outputs_len(slots: Seq<OutputSlot>)
    ensures
        kept_outputs(slots).len() == attached_count(slots),
    decreases slots.len(),
{
    if slots.len() > 0 {
        lemma_kept_outputs_len(slots.drop_last());
    }
}

/// The whole of what one enumeration returns: the attached outputs among
/// the indices before the first failure, in index order.
pub open spec fn enumerated(slots: Seq<OutputSlot>) -> Seq<OutputDesc> {
    kept_outputs(slots.subrange(0, enum_end(slots)))
}

/// Every output an enumeration yields is attached to the desktop, and it
/// yields exactly as many outputs as are attached among the indices before
/// the first failing one.
pub proof fn lemma_enumerated(slots: Seq<OutputSlot>)
    ensures
        forall|k: int|
            0 <= k < enumerated(slots).len() ==> enumerated(slots)[k].attached_to_desktop,
        enumerated(slots).len() == attached_count(slots.subrange(0, enum_end(slots))),
{
    lemma_kept_outputs_attached(slots.subrange(0, enum_end(slots)));
    lemma_kept_outputs_len(slots.subrange(0, enum_end(slots)));
}

/// The foreign object standing for one enumerated output: one reference —
/// the one handed to the enumerator — and the output interfaces.
pub open spec fn spec_output_object(d: OutputDesc) -> ComObject {
    ComObject {
        refs: 1,
        ifaces: IID_IDXGI_OUTPUT | IID_IDXGI_OUTPUT1,
        out_desc: d,
        tex_desc: blank_texture_desc(),
        data: 0,
        eviction_priority: 0,
    }
}

/// The index at which this adapter's enumeration stops.
fn enum_boundary(adapter: &Adapter) -> (e: usize)
    ensures
        e as int == enum_end(adapter.slots@),
{
    let mut i: usize = 0;
    while i < adapter.slots.len()
        invariant
            0 <= i <= adapter.slots.len(),
            forall|j: int| 0 <= j < i ==> !spec_hr_failed(adapter.slots@[j].hr),
        decreases adapter.slots.len() - i,
    {
        if hr_failed(adapter.slots[i].hr) {
            proof {
                lemma_enum_end_stops(adapter.slots@);
                lemma_stops_at_unique(adapter.slots@, i as int, enum_end(adapter.slots@));
            }
            return i;
        }
        i = i + 1;
    }
    proof {
        lemma_enum_end_stops(adapter.slots@);
        lemma_stops_at_unique(adapter.slots@, i as int, enum_end(adapter.slots@));
    }
    i
}

/// Enumerates the outputs of one adapter: probes indices in order, stops at
/// the first failing status, and returns a handle for every output attached
/// to the desktop, in index order. Each returned handle owns one fresh
/// foreign reference, registered at the end of the object table; detached
/// outputs and everything at or past the first failure leave no trace.
pub fn get_adater_outputs(adapter: &Adapter, rt: &mut ComRuntime) -> (outs: Vec<UniqueCOMPtr>)
    requires
        old(rt)@.len() + adapter.slots@.len() < usize::MAX,
    ensures
        final(rt)@ == old(rt)@ + enumerated(adapter.slots@).map_values(
            |d: OutputDesc| spec_output_object(d),
        ),
        outs@.len() == enumerated(adapter.slots@).len(),
        outs@.len() == attached_count(adapter.slots@.subrange(0, enum_end(adapter.slots@))),
        forall|k: int|
            0 <= k < outs@.len() ==> {
                &&& (#[trigger] outs@[k]).spec_obj() == old(rt)@.len() + k
                &&& outs@[k].spec_iface() == IID_IDXGI_OUTPUT
                &&& outs@[k].valid(*final(rt))
                &&& final(rt)@[outs@[k].spec_obj()].out_desc == enumerated(adapter.slots@)[k]
                &&& final(rt)@[outs@[k].spec_obj()].out_desc.attached_to_desktop
            },
{
    let e = enum_boundary(adapter);
    let ghost base = rt@.len();
    let ghost slots = adapter.slots@;
    proof {
        lemma_enum_end_stops(slots);
    }
    let mut outs: Vec<UniqueCOMPtr> = Vec::new();
    let mut i: usize = 0;
    while i < e
        invariant
            0 <= i <= e,
            e as int == enum_end(slots),
            e <= slots.len(),
            adapter.slots@ == slots,
            base + slots.len() < usize::MAX,
            rt@ == old(rt)@ + kept_outputs(slots.subrange(0, i as int)).map_values(
                |d: OutputDesc| spec_output_object(d),
            ),
            base == old(rt)@.len(),
            outs@.len() == kept_outputs(slots.subrange(0, i as int)).len(),
            forall|k: int|
                0 <= k < outs@.len() ==> {
                    &&& (#[trigger] outs@[k]).spec_obj() == base + k
                    &&& outs@[k].spec_iface() == IID_IDXGI_OUTPUT
                    &&& outs@[k].valid(*rt)
                    &&& rt@[outs@[k].spec_obj()].out_desc == kept_outputs(
                        slots.subrange(0, i as int),
                    )[k]
                    &&& rt@[outs@[k].spec_obj()].out_desc.attached_to_desktop
                },
        decreases e - i,
    {
        let ghost prefix = slots.subrange(0, i as int);
        let ghost prefix1 = slots.subrange(0, i + 1 as int);
        let ghost outs0 = outs@;
        let ghost rt0 = rt@;
        proof {
            assert(prefix1.drop_last() =~= prefix);
            assert(prefix1.last() == slots[i as int]);
        }
        let slot = adapter.slots[i];
        if slot.desc.attached_to_desktop {
            let obj = ComObject {
                refs: 1,
                ifaces: IID_IDXGI_OUTPUT | IID_IDXGI_OUTPUT1,
                out_desc: slot.desc,
                tex_desc: TextureDesc {
                    width: 0,
                    height: 0,
                    format: 0,
                    usage: 0,
                    bind_flags: 0,
                    cpu_access_flags: 0,
                    misc_flags: 0,
                },
                data: 0,
                eviction_priority: 0,
            };
            proof {
                assert(obj == spec_output_object(slot.desc));
            }
            let id = rt.register(obj);
            let handle = UniqueCOMPtr::from_ptr(rt, id, IID_IDXGI_OUTPUT);
            outs.push(handle);
            proof {
                let ghost kept = kept_outputs(prefix);
                let ghost kept1 = kept_outputs(prefix1);
                assert(kept1 == kept.push(slot.desc));
                assert(kept1.map_values(|d: OutputDesc| spec_output_object(d)) =~= kept.map_values(
                    |d: OutputDesc| spec_output_object(d),
                ).push(spec_output_object(slot.desc)));
                assert(rt@ =~= old(rt)@ + kept1.map_values(
                    |d: OutputDesc| spec_output_object(d),
                ));
                assert(outs@.len() == kept1.len());
                assert forall|k: int|
                    0 <= k < outs@.len() implies {
                    &&& (#[trigger] outs@[k]).spec_obj() == base + k
                    &&& outs@[k].spec_iface() == IID_IDXGI_OUTPUT
                    &&& outs@[k].valid(*rt)
                    &&& rt@[outs@[k].spec_obj()].out_desc == kept1[k]
                    &&& rt@[outs@[k].spec_obj()].out_desc.attached_to_desktop
                } by {
                    if k < outs0.len() {
                        assert(outs@[k] == outs0[k]);
                        assert(outs0[k].spec_obj() == base + k);
                        assert(rt0.len() == base + kept.len());
                        assert(outs0[k].spec_obj() < rt0.len());
                        assert(rt@ == rt0.push(obj));
                        assert(rt@[outs@[k].spec_obj()] == rt0[outs@[k].spec_obj()]);
                        assert(kept1[k] == kept[k]);
                    } else {
                        assert(outs@[k] == handle);
                        assert(kept1[k] == slot.desc);
                        assert(rt@[id as int] == obj);
                    }
                }
            }
        } else {
            proof {
                assert(kept_outputs(prefix1) == kept_outputs(prefix));
            }
        }
        i = i + 1;
    }
    proof {
        assert(slots.subrange(0, e as int) =~= slots.subrange(0, enum_end(slots)));
        lemma_enumerated(slots);
    }
    outs
}

} // verus!
