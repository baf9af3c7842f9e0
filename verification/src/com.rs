//! A model of the foreign object runtime, and the owning handle over one
//! foreign reference.
//!
//! The foreign subsystem hands out reference-counted objects. [`ComRuntime`]
//! models its object table: one [`ComObject`] per object, holding its
//! reference count, the set of interfaces it supports (one bit per
//! interface identifier), and the payload the capture logic reads back
//! (descriptions, pixel data, eviction priority). [`UniqueCOMPtr`] is the
//! exclusive-ownership handle over exactly one such reference: it is created
//! by taking ownership of a reference the subsystem handed out, releases
//! that reference exactly once, and can be traded for a handle of another
//! interface by a capability query.

use vstd::prelude::*;

use crate::desc::OutputDesc;
use crate::desc::TextureDesc;
use crate::hresult::E_NOINTERFACE;

verus! {

/// Interface identifier of a display output.
pub const IID_IDXGI_OUTPUT: u32 = 0x1;

/// Interface identifier of a display output with duplication support.
pub const IID_IDXGI_OUTPUT1: u32 = 0x2;

/// Interface identifier of a desktop-duplication session.
pub const IID_IDXGI_OUTPUT_DUPLICATION: u32 = 0x4;

/// Interface identifier of a two-dimensional texture.
pub const IID_ID3D11_TEXTURE2D: u32 = 0x8;

/// Interface identifier of a generic device resource.
pub const IID_ID3D11_RESOURCE: u32 = 0x10;

/// Interface identifier of a CPU-mappable surface.
pub const IID_IDXGI_SURFACE1: u32 = 0x20;

/// Interface identifier of a device.
pub const IID_ID3D11_DEVICE: u32 = 0x40;

/// Interface identifier of a device's command context.
pub const IID_ID3D11_DEVICE_CONTEXT: u32 = 0x80;

/// Interface identifier of the resource handed out by frame acquisition.
pub const IID_IDXGI_RESOURCE: u32 = 0x100;

/// One foreign object: its reference count, its supported interfaces (one
/// bit per interface identifier), and the data the capture logic can read
/// from or write to it. An object with count zero is dead.
#[derive(Clone, Copy, PartialEq, Eq, Structural, Debug)]
pub struct ComObject {
    /// Outstanding foreign references.
    pub refs: u64,
    /// Supported interfaces, as a bit set of interface identifiers.
    pub ifaces: u32,
    /// Output description, for objects that are display outputs.
    pub out_desc: OutputDesc,
    /// Texture description, for objects that are textures.
    pub tex_desc: TextureDesc,
    /// The pixel payload, abstracted to one word: a resource copy copies it.
    pub data: u64,
    /// The driver hint set by the capture logic on staging textures.
    pub eviction_priority: u32,
}

/// The foreign subsystem's object table.
pub struct ComRuntime {
    objects: Vec<ComObject>,
}

impl View for ComRuntime {
    type V = Seq<ComObject>;

    closed spec fn view(&self) -> Seq<ComObject> {
        self.objects@
    }
}

/// The table after one reference to object `obj` was released: that
/// object's count drops by one and nothing else changes.
pub open spec fn spec_release(objs: Seq<ComObject>, obj: int) -> Seq<ComObject> {
    objs.update(
        obj,
        ComObject {
            refs: (objs[obj].refs - 1) as u64,
            ifaces: objs[obj].ifaces,
            out_desc: objs[obj].out_desc,
            tex_desc: objs[obj].tex_desc,
            data: objs[obj].data,
            eviction_priority: objs[obj].eviction_priority,
        },
    )
}

/// Releasing one reference decrements exactly the released object's count,
/// by exactly one, and leaves every other object and every other field of
/// the released object unchanged. This is the single-release accounting
/// that each handle operation is specified against.
pub proof fn lemma_release_net_one(objs: Seq<ComObject>, obj: int)
    requires
        0 <= obj < objs.len(),
        objs[obj].refs >= 1,
    ensures
        spec_release(objs, obj).len() == objs.len(),
        spec_release(objs, obj)[obj].refs + 1 == objs[obj].refs,
        spec_release(objs, obj)[obj].ifaces == objs[obj].ifaces,
        spec_release(objs, obj)[obj].out_desc == objs[obj].out_desc,
        spec_release(objs, obj)[obj].tex_desc == objs[obj].tex_desc,
        spec_release(objs, obj)[obj].data == objs[obj].data,
        spec_release(objs, obj)[obj].eviction_priority == objs[obj].eviction_priority,
        forall|j: int| 0 <= j < objs.len() && j != obj ==> spec_release(objs, obj)[j] == objs[j],
{
}

impl ComRuntime {
    /// An object is live while at least one reference to it is outstanding.
    pub open spec fn live(self, obj: int) -> bool {
        &&& 0 <= obj < self@.len()
        &&& self@[obj].refs >= 1
    }

    /// Whether object `obj` supports the interface `iid`.
    pub open spec fn obj_supports(self, obj: int, iid: u32) -> bool {
        self@[obj].ifaces & iid != 0
    }

    /// An empty object table.
    pub fn new() -> (rt: ComRuntime)
        ensures
            rt@.len() == 0,
    {
        ComRuntime { objects: Vec::new() }
    }

    /// Registers a new foreign object and returns its identifier. This
    /// stands for the foreign side bringing an object into existence with
    /// the given references already counted.
    pub fn register(&mut self, obj: ComObject) -> (id: usize)
        ensures
            final(self)@ == old(self)@.push(obj),
            id == old(self)@.len(),
    {
        let id = self.objects.len();
        self.objects.push(obj);
        id
    }

    /// The reference count of object `obj`, or zero for an identifier the
    /// table does not know. This is the probe the handle laws are checked
    /// against.
    pub fn refcount(&self, obj: usize) -> (n: u64)
        ensures
            n == if (obj as int) < self@.len() {
                self@[obj as int].refs
            } else {
                0u64
            },
    {
        if obj < self.objects.len() {
            self.objects[obj].refs
        } else {
            0
        }
    }

    /// The number of objects the table has ever known.
    pub fn object_count(&self) -> (n: usize)
        ensures
            n == self@.len(),
    {
        self.objects.len()
    }

    /// Whether object `obj` supports interface `iid`.
    pub fn supports(&self, obj: usize, iid: u32) -> (r: bool)
        requires
            (obj as int) < self@.len(),
        ensures
            r == self.obj_supports(obj as int, iid),
    {
        self.objects[obj].ifaces & iid != 0
    }

    /// Reads one object's record.
    pub fn get(&self, obj: usize) -> (o: ComObject)
        requires
            (obj as int) < self@.len(),
        ensures
            o == self@[obj as int],
    {
        self.objects[obj]
    }

    /// Overwrites one object's record: the foreign side changing the state
    /// of an object in place.
    pub(crate) fn put(&mut self, obj: usize, o: ComObject)
        requires
            (obj as int) < old(self)@.len(),
        ensures
            final(self)@ == old(self)@.update(obj as int, o),
    {
        self.objects.set(obj, o);
    }

    /// Adds one reference to a live object.
    fn add_ref(&mut self, obj: usize)
        requires
            old(self).live(obj as int),
            old(self)@[obj as int].refs < u64::MAX,
        ensures
            final(self)@ == old(self)@.update(
                obj as int,
                ComObject {
                    refs: (old(self)@[obj as int].refs + 1) as u64,
                    ifaces: old(self)@[obj as int].ifaces,
                    out_desc: old(self)@[obj as int].out_desc,
                    tex_desc: old(self)@[obj as int].tex_desc,
                    data: old(self)@[obj as int].data,
                    eviction_priority: old(self)@[obj as int].eviction_priority,
                },
            ),
    {
        let o = self.objects[obj];
        self.objects.set(
            obj,
            ComObject {
                refs: o.refs + 1,
                ifaces: o.ifaces,
                out_desc: o.out_desc,
                tex_desc: o.tex_desc,
                data: o.data,
                eviction_priority: o.eviction_priority,
            },
        );
    }

    /// Drops one reference from a live object.
    fn dec_ref(&mut self, obj: usize)
        requires
            old(self).live(obj as int),
        ensures
            final(self)@ == spec_release(old(self)@, obj as int),
    {
        let o = self.objects[obj];
        self.objects.set(
            obj,
            ComObject {
                refs: o.refs - 1,
                ifaces: o.ifaces,
                out_desc: o.out_desc,
                tex_desc: o.tex_desc,
                data: o.data,
                eviction_priority: o.eviction_priority,
            },
        );
    }
}

/// An exclusive-ownership handle over exactly one foreign reference to one
/// object. At most one handle stands for any given reference; the reference
/// is given back exactly once, by [`UniqueCOMPtr::release`] or by the
/// capability trade in [`UniqueCOMPtr::query_interface`].
#[derive(PartialEq, Eq, Structural, Debug)]
pub struct UniqueCOMPtr {
    obj: usize,
    iface: u32,
}

impl UniqueCOMPtr {
    /// The identifier of the object this handle refers to.
    pub closed spec fn spec_obj(self) -> int {
        self.obj as int
    }

    /// The interface this handle was taken under.
    pub closed spec fn spec_iface(self) -> u32 {
        self.iface
    }

    /// A handle is valid while its object is live and its count has room
    /// for the transient extra reference a capability query takes.
    pub open spec fn valid(self, rt: ComRuntime) -> bool {
        &&& rt.live(self.spec_obj())
        &&& rt@[self.spec_obj()].refs < u64::MAX
    }

    /// Takes ownership of one foreign reference to object `obj`, viewed
    /// under interface `iface`. As with a raw interface pointer, the caller
    /// asserts that the reference is live and that no other handle stands
    /// for this same reference.
    pub fn from_ptr(rt: &ComRuntime, obj: usize, iface: u32) -> (p: UniqueCOMPtr)
        requires
            rt.live(obj as int),
            rt@[obj as int].refs < u64::MAX,
        ensures
            p.spec_obj() == obj as int,
            p.spec_iface() == iface,
            p.valid(*rt),
    {
        UniqueCOMPtr { obj, iface }
    }

    /// The identifier of the object this handle refers to.
    pub fn obj(&self) -> (o: usize)
        ensures
            o as int == self.spec_obj(),
    {
        self.obj
    }

    /// The interface this handle was taken under.
    pub fn iface(&self) -> (i: u32)
        ensures
            i == self.spec_iface(),
    {
        self.iface
    }

    /// Gives the held reference back: the object's count drops by exactly
    /// one, and nothing else in the table changes. Consuming the handle is
    /// what makes a second release of the same reference impossible. The
    /// object's new count is returned.
    pub fn release(self, rt: &mut ComRuntime) -> (n: u64)
        requires
            old(rt).live(self.spec_obj()),
        ensures
            final(rt)@ == spec_release(old(rt)@, self.spec_obj()),
            n == final(rt)@[self.spec_obj()].refs,
    {
        let obj = self.obj;
        rt.dec_ref(obj);
        rt.refcount(obj)
    }

    /// Asks the object whether it also supports interface `iid`, consuming
    /// this handle. On success the result is a handle to the same object
    /// under the new interface and the table is unchanged: the query takes
    /// one new reference and this handle's reference is given back, so the
    /// net count does not move. On failure the object does not support
    /// `iid`; this handle's reference is still given back — exactly one
    /// decrement, no increment — and the query's status is returned.
    pub fn query_interface(self, rt: &mut ComRuntime, iid: u32) -> (r: Result<
        UniqueCOMPtr,
        i32,
    >)
        requires
            self.valid(*old(rt)),
        ensures
            match r {
                Ok(p) => {
                    &&& old(rt).obj_supports(self.spec_obj(), iid)
                    &&& p.spec_obj() == self.spec_obj()
                    &&& p.spec_iface() == iid
                    &&& final(rt)@ == old(rt)@
                    &&& p.valid(*final(rt))
                },
                Err(hr) => {
                    &&& !old(rt).obj_supports(self.spec_obj(), iid)
                    &&& hr == E_NOINTERFACE
                    &&& final(rt)@ == spec_release(old(rt)@, self.spec_obj())
                },
            },
    {
        let obj = self.obj;
        if rt.supports(obj, iid) {
            rt.add_ref(obj);
            self.release(rt);
            proof {
                assert(rt@ =~= old(rt)@);
            }
            Ok(UniqueCOMPtr { obj, iface: iid })
        } else {
            self.release(rt);
            Err(E_NOINTERFACE)
        }
    }
}

} // verus!
