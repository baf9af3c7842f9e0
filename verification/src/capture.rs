//! The per-output duplication session and the capture state machine.
//!
//! A [`DuplSession`] models one desktop-duplication stream: the foreign
//! side's queue of frames not yet handed out, and whether a frame is
//! currently held by the caller ("in flight"). Acquire and release must
//! strictly alternate; a mismatched call is answered with the subsystem's
//! invalid-call status and changes nothing, so correct pairing afterwards
//! proceeds as if it had not happened.
//!
//! A [`DuplicatedOutput`] ties one output to one such session, together
//! with the device and command context it shares with every other output of
//! the same adapter, which live in a [`GpuWorld`]. Its
//! [`DuplicatedOutput::get_frame`] pulls the next frame, copies it into a
//! freshly created CPU-readable staging texture, and hands that back as a
//! mappable surface; [`DuplicatedOutput::release_frame`] returns the frame
//! to the subsystem.

use vstd::prelude::*;

use crate::com::ComObject;
use crate::com::ComRuntime;
use crate::com::UniqueCOMPtr;
use crate::com::spec_release;
use crate::com::IID_ID3D11_RESOURCE;
use crate::com::IID_ID3D11_TEXTURE2D;
use crate::com::IID_IDXGI_RESOURCE;
use crate::com::IID_IDXGI_SURFACE1;
use crate::desc::blank_output_desc;
use crate::desc::spec_staging_desc;
use crate::desc::derive_staging_desc;
use crate::desc::OutputDesc;
use crate::desc::TextureDesc;
use crate::desc::DXGI_RESOURCE_PRIORITY_MAXIMUM;
use crate::hresult::spec_hr_failed;
use crate::hresult::hr_failed;
use crate::hresult::DXGI_ERROR_INVALID_CALL;
use crate::hresult::DXGI_ERROR_WAIT_TIMEOUT;

verus! {

/// The state of one duplication session, as specifications see it.
pub ghost struct SessionView {
    /// Whether a frame is acquired and not yet released.
    pub in_flight: bool,
    /// Objects of the frames the foreign side has ready, oldest first.
    pub frames: Seq<usize>,
    /// The timeout, in milliseconds, handed to the most recent acquisition
    /// call — the caller's timeout goes through to the subsystem unchanged.
    pub last_timeout_ms: u32,
}

/// One desktop-duplication stream for one output.
///
/// The model does not advance time: a frame object queued in `frames` is
/// one that arrives before any timeout elapses, and an empty queue stands
/// for no frame arriving within the caller's timeout.
pub struct DuplSession {
    in_flight: bool,
    frames: Vec<usize>,
    last_timeout_ms: u32,
}

impl View for DuplSession {
    type V = SessionView;

    closed spec fn view(&self) -> SessionView {
        SessionView {
            in_flight: self.in_flight,
            frames: self.frames@,
            last_timeout_ms: self.last_timeout_ms,
        }
    }
}

/// The same session with the acquisition timeout recorded.
pub open spec fn spec_stamp(s: SessionView, timeout_ms: u32) -> SessionView {
    SessionView { in_flight: s.in_flight, frames: s.frames, last_timeout_ms: timeout_ms }
}

/// What one acquisition call does: with a frame still in flight it is
/// refused as an invalid call; with nothing queued it times out; otherwise
/// the oldest queued frame is handed out and becomes the frame in flight.
/// Nothing but the recorded timeout changes on either failure.
pub open spec fn spec_acquire(s: SessionView, timeout_ms: u32) -> (SessionView, Result<
    usize,
    i32,
>) {
    if s.in_flight {
        (spec_stamp(s, timeout_ms), Err(DXGI_ERROR_INVALID_CALL))
    } else if s.frames.len() == 0 {
        (spec_stamp(s, timeout_ms), Err(DXGI_ERROR_WAIT_TIMEOUT))
    } else {
        (
            SessionView {
                in_flight: true,
                frames: s.frames.drop_first(),
                last_timeout_ms: timeout_ms,
            },
            Ok(s.frames[0]),
        )
    }
}

/// What one release call does: with no frame in flight it is refused as an
/// invalid call and changes nothing; otherwise the frame in flight is given
/// back and the session is idle again, its queue untouched.
pub open spec fn spec_release_frame(s: SessionView) -> (SessionView, Result<(), i32>) {
    if s.in_flight {
        (
            SessionView {
                in_flight: false,
                frames: s.frames,
                last_timeout_ms: s.last_timeout_ms,
            },
            Ok(()),
        )
    } else {
        (s, Err(DXGI_ERROR_INVALID_CALL))
    }
}

/// Acquire and release pair strictly. A release without a frame in flight,
/// or an acquire with one, is answered with the invalid-call status and
/// leaves the session as it was — in particular, after such a mismatched
/// release, an acquisition proceeds exactly as it would have without it.
/// And a release of the frame in flight makes the session idle with its
/// queue intact, so the next acquisition hands out the next frame.
pub proof fn lemma_acquire_release_pairing(s: SessionView, t1: u32, t2: u32)
    ensures
        s.in_flight ==> spec_acquire(s, t1) == (
            spec_stamp(s, t1),
            Err::<usize, i32>(DXGI_ERROR_INVALID_CALL),
        ),
        !s.in_flight ==> spec_release_frame(s) == (s, Err::<(), i32>(DXGI_ERROR_INVALID_CALL)),
        !s.in_flight ==> spec_acquire(spec_release_frame(s).0, t2) == spec_acquire(s, t2),
        s.in_flight ==> {
            let idle = spec_release_frame(s).0;
            &&& !idle.in_flight
            &&& idle.frames == s.frames
            &&& spec_release_frame(s).1 == Ok::<(), i32>(())
        },
{
}

impl DuplSession {
    /// A fresh session with the given frames pending and none in flight.
    pub fn new(frames: Vec<usize>) -> (s: DuplSession)
        ensures
            s@.in_flight == false,
            s@.frames == frames@,
            s@.last_timeout_ms == 0,
    {
        DuplSession { in_flight: false, frames, last_timeout_ms: 0 }
    }

    /// The foreign "acquire next frame" primitive; behaves as
    /// [`spec_acquire`] says.
    fn acquire_next_frame(&mut self, timeout_ms: u32) -> (r: Result<usize, i32>)
        ensures
            (final(self)@, r) == spec_acquire(old(self)@, timeout_ms),
    {
        self.last_timeout_ms = timeout_ms;
        if self.in_flight {
            Err(DXGI_ERROR_INVALID_CALL)
        } else if self.frames.len() == 0 {
            Err(DXGI_ERROR_WAIT_TIMEOUT)
        } else {
            let f = self.frames.remove(0);
            self.in_flight = true;
            proof {
                assert(self.frames@ =~= old(self)@.frames.drop_first());
            }
            Ok(f)
        }
    }

    /// The foreign "release frame" primitive; behaves as
    /// [`spec_release_frame`] says.
    fn release_frame(&mut self) -> (r: Result<(), i32>)
        ensures
            (final(self)@, r) == spec_release_frame(old(self)@),
    {
        if self.in_flight {
            self.in_flight = false;
            Ok(())
        } else {
            Err(DXGI_ERROR_INVALID_CALL)
        }
    }
}

/// The object a successful texture creation brings into existence: one
/// reference owned by the creator, the texture interfaces, the requested
/// description, and uninitialised contents.
pub open spec fn spec_created_texture(d: TextureDesc) -> ComObject {
    ComObject {
        refs: 1,
        ifaces: IID_ID3D11_TEXTURE2D | IID_ID3D11_RESOURCE | IID_IDXGI_SURFACE1,
        out_desc: blank_output_desc(),
        tex_desc: d,
        data: 0,
        eviction_priority: 0,
    }
}

/// The rest of the foreign subsystem one adapter's outputs share: the
/// object table, the windowing subsystem's monitor table, and the status
/// the device answers to texture creation. Exclusive access to a value of
/// this type stands for holding the mutual-exclusion lock that serialises
/// all calls into the shared device and context; it is taken for one call
/// at a time, never across an acquire/release pair.
pub struct GpuWorld {
    /// The foreign object table.
    pub com: ComRuntime,
    /// Per monitor handle, the windowing subsystem's flag word; bit 0 marks
    /// the primary monitor.
    pub monitors: Vec<u32>,
    /// Status the device answers to the next texture creation; a failure
    /// here models the device refusing the staging allocation.
    pub create_texture_hr: i32,
}

impl GpuWorld {
    /// The windowing subsystem's flag word for a monitor handle; a handle
    /// it does not know yields an empty record, so no flags.
    pub open spec fn spec_monitor_flags(self, monitor: usize) -> u32 {
        if (monitor as int) < self.monitors@.len() {
            self.monitors@[monitor as int]
        } else {
            0
        }
    }

    /// Looks a monitor handle up in the windowing subsystem's table.
    pub fn monitor_flags(&self, monitor: usize) -> (f: u32)
        ensures
            f == self.spec_monitor_flags(monitor),
    {
        if monitor < self.monitors.len() {
            self.monitors[monitor]
        } else {
            0
        }
    }

    /// Reads the description of an output object.
    pub fn output_desc(&self, output: &UniqueCOMPtr) -> (d: OutputDesc)
        requires
            self.com.live(output.spec_obj()),
        ensures
            d == self.com@[output.spec_obj()].out_desc,
    {
        let obj = output.obj();
        let o = self.com.get(obj);
        o.out_desc
    }

    /// Reads the description of a texture object.
    pub fn texture_desc(&self, tex: &UniqueCOMPtr) -> (d: TextureDesc)
        requires
            self.com.live(tex.spec_obj()),
        ensures
            d == self.com@[tex.spec_obj()].tex_desc,
    {
        let obj = tex.obj();
        let o = self.com.get(obj);
        o.tex_desc
    }

    /// Asks the device to create a texture with the given description. On
    /// success a fresh object with one reference — owned by the caller —
    /// appears at the end of the table; on failure the device's status is
    /// returned and nothing changes.
    pub fn create_texture_2d(&mut self, device: usize, desc: &TextureDesc) -> (r: Result<
        usize,
        i32,
    >)
        requires
            old(self).com.live(device as int),
            old(self).com@.len() < usize::MAX,
        ensures
            final(self).monitors@ == old(self).monitors@,
            final(self).create_texture_hr == old(self).create_texture_hr,
            match r {
                Ok(id) => {
                    &&& !spec_hr_failed(old(self).create_texture_hr)
                    &&& id == old(self).com@.len()
                    &&& final(self).com@ == old(self).com@.push(spec_created_texture(*desc))
                },
                Err(hr) => {
                    &&& hr == old(self).create_texture_hr
                    &&& spec_hr_failed(hr)
                    &&& final(self).com@ == old(self).com@
                },
            },
    {
        if hr_failed(self.create_texture_hr) {
            return Err(self.create_texture_hr);
        }
        let obj = ComObject {
            refs: 1,
            ifaces: IID_ID3D11_TEXTURE2D | IID_ID3D11_RESOURCE | IID_IDXGI_SURFACE1,
            out_desc: OutputDesc { attached_to_desktop: false, monitor: 0 },
            tex_desc: *desc,
            data: 0,
            eviction_priority: 0,
        };
        let id = self.com.register(obj);
        Ok(id)
    }

    /// Sets the driver's eviction-priority hint on a texture object.
    pub fn set_eviction_priority(&mut self, tex: &UniqueCOMPtr, priority: u32)
        requires
            old(self).com.live(tex.spec_obj()),
        ensures
            final(self).monitors@ == old(self).monitors@,
            final(self).create_texture_hr == old(self).create_texture_hr,
            final(self).com@ == old(self).com@.update(
                tex.spec_obj(),
                ComObject {
                    refs: old(self).com@[tex.spec_obj()].refs,
                    ifaces: old(self).com@[tex.spec_obj()].ifaces,
                    out_desc: old(self).com@[tex.spec_obj()].out_desc,
                    tex_desc: old(self).com@[tex.spec_obj()].tex_desc,
                    data: old(self).com@[tex.spec_obj()].data,
                    eviction_priority: priority,
                },
            ),
    {
        let obj = tex.obj();
        let o = self.com.get(obj);
        self.com.put(
            obj,
            ComObject {
                refs: o.refs,
                ifaces: o.ifaces,
                out_desc: o.out_desc,
                tex_desc: o.tex_desc,
                data: o.data,
                eviction_priority: priority,
            },
        );
    }

    /// Issues the command context's GPU-side resource copy: the source
    /// object's contents land in the destination object, and nothing else
    /// moves. The context must be live; access to it is serialised by the
    /// exclusive borrow of this world.
    pub fn copy_resource(&mut self, context: usize, dst: &UniqueCOMPtr, src: &UniqueCOMPtr)
        requires
            old(self).com.live(context as int),
            old(self).com.live(dst.spec_obj()),
            old(self).com.live(src.spec_obj()),
        ensures
            final(self).monitors@ == old(self).monitors@,
            final(self).create_texture_hr == old(self).create_texture_hr,
            final(self).com@ == old(self).com@.update(
                dst.spec_obj(),
                ComObject {
                    refs: old(self).com@[dst.spec_obj()].refs,
                    ifaces: old(self).com@[dst.spec_obj()].ifaces,
                    out_desc: old(self).com@[dst.spec_obj()].out_desc,
                    tex_desc: old(self).com@[dst.spec_obj()].tex_desc,
                    data: old(self).com@[src.spec_obj()].data,
                    eviction_priority: old(self).com@[dst.spec_obj()].eviction_priority,
                },
            ),
    {
        let src_obj = src.obj();
        let data = self.com.get(src_obj).data;
        let dst_obj = dst.obj();
        let o = self.com.get(dst_obj);
        self.com.put(
            dst_obj,
            ComObject {
                refs: o.refs,
                ifaces: o.ifaces,
                out_desc: o.out_desc,
                tex_desc: o.tex_desc,
                data,
                eviction_priority: o.eviction_priority,
            },
        );
    }
}

/// The interface set of a created texture contains each of the three
/// interfaces the capture path queries for.
proof fn lemma_texture_ifaces()
    ensures
        (IID_ID3D11_TEXTURE2D | IID_ID3D11_RESOURCE | IID_IDXGI_SURFACE1) & IID_ID3D11_TEXTURE2D
            != 0,
        (IID_ID3D11_TEXTURE2D | IID_ID3D11_RESOURCE | IID_IDXGI_SURFACE1) & IID_ID3D11_RESOURCE
            != 0,
        (IID_ID3D11_TEXTURE2D | IID_ID3D11_RESOURCE | IID_IDXGI_SURFACE1) & IID_IDXGI_SURFACE1
            != 0,
{
    assert((0x8u32 | 0x10u32 | 0x20u32) & 0x8u32 != 0) by (bit_vector);
    assert((0x8u32 | 0x10u32 | 0x20u32) & 0x10u32 != 0) by (bit_vector);
    assert((0x8u32 | 0x10u32 | 0x20u32) & 0x20u32 != 0) by (bit_vector);
}

/// The staging object a successful capture leaves behind: one reference —
/// owned by the caller that received the surface — the staging description
/// derived from the frame's, the frame's contents, and the maximum
/// eviction priority.
pub open spec fn spec_captured_surface(frame: ComObject) -> ComObject {
    ComObject {
        refs: 1,
        ifaces: IID_ID3D11_TEXTURE2D | IID_ID3D11_RESOURCE | IID_IDXGI_SURFACE1,
        out_desc: blank_output_desc(),
        tex_desc: spec_staging_desc(frame.tex_desc),
        data: frame.data,
        eviction_priority: DXGI_RESOURCE_PRIORITY_MAXIMUM,
    }
}

/// One output under duplication: its output and session handles, its
/// session's state, and the identifiers of the device and command context
/// it shares with the other outputs of its adapter.
pub struct DuplicatedOutput {
    /// The shared device, owned by whoever owns the adapter's outputs as a
    /// whole; this output only uses it, one call at a time.
    pub device: usize,
    /// The shared command context, owned and used likewise.
    pub device_context: usize,
    /// Handle to this output.
    pub output: UniqueCOMPtr,
    /// Handle to this output's duplication-session object.
    pub dxgi_output_dup: UniqueCOMPtr,
    /// The duplication stream behind `dxgi_output_dup`.
    pub session: DuplSession,
}

impl DuplicatedOutput {
    /// One queued frame is usable: live, with room for the transient query
    /// reference, supporting the frame interfaces, and distinct from the
    /// objects this output holds on to.
    pub open spec fn frame_wf(self, com: ComRuntime, f: usize) -> bool {
        &&& com.live(f as int)
        &&& com@[f as int].refs < u64::MAX
        &&& com.obj_supports(f as int, IID_ID3D11_TEXTURE2D)
        &&& com.obj_supports(f as int, IID_ID3D11_RESOURCE)
        &&& f != self.device
        &&& f != self.device_context
        &&& f as int != self.output.spec_obj()
        &&& f as int != self.dxgi_output_dup.spec_obj()
    }

    /// A duplicated output is well formed against the world it captures
    /// from: device, context and handles are live, and every pending frame
    /// is usable, no object queued twice.
    pub open spec fn wf(self, world: GpuWorld) -> bool {
        &&& world.com.live(self.device as int)
        &&& world.com.live(self.device_context as int)
        &&& self.output.valid(world.com)
        &&& self.dxgi_output_dup.valid(world.com)
        &&& forall|k: int|
            0 <= k < self.session@.frames.len() ==> self.frame_wf(
                world.com,
                #[trigger] self.session@.frames[k],
            )
        &&& forall|k1: int, k2: int|
            0 <= k1 < k2 < self.session@.frames.len() ==> #[trigger] self.session@.frames[k1]
                != #[trigger] self.session@.frames[k2]
    }

    /// Reads this output's description.
    pub fn get_desc(&self, world: &GpuWorld) -> (d: OutputDesc)
        requires
            world.com.live(self.output.spec_obj()),
        ensures
            d == world.com@[self.output.spec_obj()].out_desc,
    {
        world.output_desc(&self.output)
    }

    /// Whether this output's monitor is the desktop's primary monitor: bit
    /// 0 of the monitor's flag word in the windowing subsystem.
    pub open spec fn spec_is_primary(self, world: GpuWorld) -> bool {
        world.spec_monitor_flags(world.com@[self.output.spec_obj()].out_desc.monitor) & 1 != 0
    }

    /// Asks the windowing subsystem whether this output's monitor is the
    /// primary one. A pure query: nothing changes.
    pub fn is_primary(&self, world: &GpuWorld) -> (r: bool)
        requires
            world.com.live(self.output.spec_obj()),
        ensures
            r == self.spec_is_primary(*world),
    {
        let desc = world.output_desc(&self.output);
        let flags = world.monitor_flags(desc.monitor);
        (flags & 1) != 0
    }

    /// Returns the frame in flight to the subsystem. Exactly one release is
    /// owed per successful acquisition: a release with no frame in flight
    /// is answered with the invalid-call status and changes nothing.
    pub fn release_frame(&mut self) -> (r: Result<(), i32>)
        ensures
            final(self).device == old(self).device,
            final(self).device_context == old(self).device_context,
            final(self).output == old(self).output,
            final(self).dxgi_output_dup == old(self).dxgi_output_dup,
            (final(self).session@, r) == spec_release_frame(old(self).session@),
    {
        self.session.release_frame()
    }

    /// Takes this duplicated output apart, giving back the two references
    /// it owns: its output handle and its duplication-session handle, one
    /// release each. The shared device and context are not touched — they
    /// are owned by whoever owns the adapter's outputs as a whole.
    pub fn dispose(self, world: &mut GpuWorld)
        requires
            old(world).com.live(self.output.spec_obj()),
            old(world).com.live(self.dxgi_output_dup.spec_obj()),
            self.output.spec_obj() != self.dxgi_output_dup.spec_obj(),
        ensures
            final(world).monitors@ == old(world).monitors@,
            final(world).create_texture_hr == old(world).create_texture_hr,
            final(world).com@ == spec_release(
                spec_release(old(world).com@, self.output.spec_obj()),
                self.dxgi_output_dup.spec_obj(),
            ),
    {
        let DuplicatedOutput { device: _, device_context: _, output, dxgi_output_dup, session: _ } =
            self;
        output.release(&mut world.com);
        dxgi_output_dup.release(&mut world.com);
    }

    /// Pulls the next frame of this output into a freshly created,
    /// CPU-readable staging texture and returns it as a mappable surface.
    ///
    /// On success the caller owns the returned surface — the new object at
    /// the end of the table, carrying the frame's contents under the
    /// derived staging description, pinned at maximum eviction priority —
    /// and owes one `release_frame`; the acquired frame's own reference has
    /// already been given back. On failure the status of the failing
    /// foreign call is returned unchanged: an acquisition refusal or
    /// timeout leaves everything as it was, while a texture-creation
    /// failure after a successful acquisition leaves the frame in flight —
    /// pending the release the subsystem still expects — with its reference
    /// given back and no staging object.
    pub fn get_frame(&mut self, world: &mut GpuWorld, timeout_ms: u32) -> (r: Result<
        UniqueCOMPtr,
        i32,
    >)
        requires
            old(self).wf(*old(world)),
            old(world).com@.len() < usize::MAX,
        ensures
            final(self).device == old(self).device,
            final(self).device_context == old(self).device_context,
            final(self).output == old(self).output,
            final(self).dxgi_output_dup == old(self).dxgi_output_dup,
            final(self).session@.last_timeout_ms == timeout_ms,
            final(self).wf(*final(world)),
            final(world).monitors@ == old(world).monitors@,
            final(world).create_texture_hr == old(world).create_texture_hr,
            match r {
                Ok(p) => {
                    let f0 = old(self).session@.frames[0] as int;
                    &&& !old(self).session@.in_flight
                    &&& old(self).session@.frames.len() > 0
                    &&& !spec_hr_failed(old(world).create_texture_hr)
                    &&& final(self).session@.in_flight
                    &&& final(self).session@.frames == old(self).session@.frames.drop_first()
                    &&& p.spec_obj() == old(world).com@.len()
                    &&& p.spec_iface() == IID_IDXGI_SURFACE1
                    &&& p.valid(final(world).com)
                    &&& final(world).com@ == spec_release(old(world).com@, f0).push(
                        spec_captured_surface(old(world).com@[f0]),
                    )
                },
                Err(hr) => {
                    if old(self).session@.in_flight {
                        &&& hr == DXGI_ERROR_INVALID_CALL
                        &&& final(self).session@ == spec_stamp(old(self).session@, timeout_ms)
                        &&& final(world).com@ == old(world).com@
                    } else if old(self).session@.frames.len() == 0 {
                        &&& hr == DXGI_ERROR_WAIT_TIMEOUT
                        &&& final(self).session@ == spec_stamp(old(self).session@, timeout_ms)
                        &&& final(world).com@ == old(world).com@
                    } else {
                        let f0 = old(self).session@.frames[0] as int;
                        &&& hr == old(world).create_texture_hr
                        &&& spec_hr_failed(hr)
                        &&& final(self).session@.in_flight
                        &&& final(self).session@.frames == old(self).session@.frames.drop_first()
                        &&& final(world).com@ == spec_release(old(world).com@, f0)
                    }
                },
            },
    {
        let ghost com0 = world.com@;
        let frame_obj = match self.session.acquire_next_frame(timeout_ms) {
            Ok(f) => f,
            Err(hr) => {
                return Err(hr);
            },
        };
        proof {
            assert(frame_obj == old(self).session@.frames[0]);
            assert(old(self).frame_wf(old(world).com, frame_obj));
        }
        // The acquired frame resource: its reference is now ours.
        let frame_resource = UniqueCOMPtr::from_ptr(&world.com, frame_obj, IID_IDXGI_RESOURCE);
        // Reinterpret it as a two-dimensional texture; frame resources of
        // this subsystem always support that.
        let frame_texture = match frame_resource.query_interface(
            &mut world.com,
            IID_ID3D11_TEXTURE2D,
        ) {
            Ok(t) => t,
            Err(hr) => {
                return Err(hr);
            },
        };
        let texture_desc = world.texture_desc(&frame_texture);
        let staging_desc = derive_staging_desc(&texture_desc);
        let readable_texture = match world.create_texture_2d(self.device, &staging_desc) {
            Ok(id) => UniqueCOMPtr::from_ptr(&world.com, id, IID_ID3D11_TEXTURE2D),
            Err(hr) => {
                frame_texture.release(&mut world.com);
                proof {
                    lemma_wf_after_frame_released(*old(self), *self, *old(world), *world);
                }
                return Err(hr);
            },
        };
        // Pin the staging texture in fast memory: lower priorities let the
        // driver's memory manager shuttle it between frames.
        world.set_eviction_priority(&readable_texture, DXGI_RESOURCE_PRIORITY_MAXIMUM);
        proof {
            lemma_texture_ifaces();
            assert(world.com@[frame_obj as int] == com0[frame_obj as int]);
            assert(world.com.obj_supports(readable_texture.spec_obj(), IID_ID3D11_RESOURCE));
            assert(world.com.obj_supports(readable_texture.spec_obj(), IID_IDXGI_SURFACE1));
            assert(world.com.obj_supports(frame_obj as int, IID_ID3D11_RESOURCE));
        }
        let readable_surface = match readable_texture.query_interface(
            &mut world.com,
            IID_ID3D11_RESOURCE,
        ) {
            Ok(s) => s,
            Err(hr) => {
                return Err(hr);
            },
        };
        let frame_src = match frame_texture.query_interface(&mut world.com, IID_ID3D11_RESOURCE) {
            Ok(s) => s,
            Err(hr) => {
                return Err(hr);
            },
        };
        world.copy_resource(self.device_context, &readable_surface, &frame_src);
        frame_src.release(&mut world.com);
        let out = match readable_surface.query_interface(&mut world.com, IID_IDXGI_SURFACE1) {
            Ok(s) => s,
            Err(hr) => {
                return Err(hr);
            },
        };
        proof {
            let f0 = old(self).session@.frames[0] as int;
            assert(world.com@ =~= spec_release(com0, f0).push(
                spec_captured_surface(com0[f0]),
            ));
            lemma_wf_after_capture(*old(self), *self, *old(world), *world);
        }
        Ok(out)
    }
}

/// The primary monitor is unique, and so is the primary output: when one
/// monitor alone carries the primary flag, two outputs driving different
/// monitors cannot both report primary — and an output driving the flagged
/// monitor does.
pub proof fn lemma_one_primary(
    w: GpuWorld,
    a: DuplicatedOutput,
    b: DuplicatedOutput,
    p: usize,
)
    requires
        forall|m: usize| (#[trigger] w.spec_monitor_flags(m) & 1 != 0) <==> m == p,
        0 <= a.output.spec_obj() < w.com@.len(),
        0 <= b.output.spec_obj() < w.com@.len(),
        w.com@[a.output.spec_obj()].out_desc.monitor != w.com@[b.output.spec_obj()].out_desc.monitor,
    ensures
        !(a.spec_is_primary(w) && b.spec_is_primary(w)),
        w.com@[a.output.spec_obj()].out_desc.monitor == p ==> a.spec_is_primary(w),
{
    let ma = w.com@[a.output.spec_obj()].out_desc.monitor;
    let mb = w.com@[b.output.spec_obj()].out_desc.monitor;
    assert((w.spec_monitor_flags(ma) & 1 != 0) <==> ma == p);
    assert((w.spec_monitor_flags(mb) & 1 != 0) <==> mb == p);
}

/// After a mid-capture failure — the frame acquired and its reference
/// given back, nothing else changed — the output is still well formed.
proof fn lemma_wf_after_frame_released(
    pre: DuplicatedOutput,
    post: DuplicatedOutput,
    w0: GpuWorld,
    w1: GpuWorld,
)
    requires
        pre.wf(w0),
        !pre.session@.in_flight,
        pre.session@.frames.len() > 0,
        post.device == pre.device,
        post.device_context == pre.device_context,
        post.output == pre.output,
        post.dxgi_output_dup == pre.dxgi_output_dup,
        post.session@.frames == pre.session@.frames.drop_first(),
        w1.com@ == spec_release(w0.com@, pre.session@.frames[0] as int),
    ensures
        post.wf(w1),
{
    let f0 = pre.session@.frames[0];
    assert(pre.frame_wf(w0.com, f0));
    assert forall|k: int|
        0 <= k < post.session@.frames.len() implies post.frame_wf(
        w1.com,
        #[trigger] post.session@.frames[k],
    ) by {
        let f = post.session@.frames[k];
        assert(f == pre.session@.frames[k + 1]);
        assert(pre.frame_wf(w0.com, f));
        assert(f != f0);
        assert(w1.com@[f as int] == w0.com@[f as int]);
    }
    assert forall|k1: int, k2: int|
        0 <= k1 < k2 < post.session@.frames.len() implies #[trigger] post.session@.frames[k1]
        != #[trigger] post.session@.frames[k2] by {
        assert(post.session@.frames[k1] == pre.session@.frames[k1 + 1]);
        assert(post.session@.frames[k2] == pre.session@.frames[k2 + 1]);
    }
    assert(w1.com@[pre.device as int] == w0.com@[pre.device as int]);
    assert(w1.com@[pre.device_context as int] == w0.com@[pre.device_context as int]);
    assert(w1.com@[pre.output.spec_obj()] == w0.com@[pre.output.spec_obj()]);
    assert(w1.com@[pre.dxgi_output_dup.spec_obj()] == w0.com@[pre.dxgi_output_dup.spec_obj()]);
}

/// After a successful capture — the frame's reference given back and the
/// staging object appended — the output is still well formed.
proof fn lemma_wf_after_capture(
    pre: DuplicatedOutput,
    post: DuplicatedOutput,
    w0: GpuWorld,
    w1: GpuWorld,
)
    requires
        pre.wf(w0),
        !pre.session@.in_flight,
        pre.session@.frames.len() > 0,
        post.device == pre.device,
        post.device_context == pre.device_context,
        post.output == pre.output,
        post.dxgi_output_dup == pre.dxgi_output_dup,
        post.session@.frames == pre.session@.frames.drop_first(),
        w1.com@ == spec_release(w0.com@, pre.session@.frames[0] as int).push(
            spec_captured_surface(w0.com@[pre.session@.frames[0] as int]),
        ),
    ensures
        post.wf(w1),
{
    let f0 = pre.session@.frames[0];
    assert(pre.frame_wf(w0.com, f0));
    assert forall|k: int|
        0 <= k < post.session@.frames.len() implies post.frame_wf(
        w1.com,
        #[trigger] post.session@.frames[k],
    ) by {
        let f = post.session@.frames[k];
        assert(f == pre.session@.frames[k + 1]);
        assert(pre.frame_wf(w0.com, f));
        assert(f != f0);
        assert(w1.com@[f as int] == w0.com@[f as int]);
    }
    assert forall|k1: int, k2: int|
        0 <= k1 < k2 < post.session@.frames.len() implies #[trigger] post.session@.frames[k1]
        != #[trigger] post.session@.frames[k2] by {
        assert(post.session@.frames[k1] == pre.session@.frames[k1 + 1]);
        assert(post.session@.frames[k2] == pre.session@.frames[k2 + 1]);
    }
    assert(w1.com@[pre.device as int] == w0.com@[pre.device as int]);
    assert(w1.com@[pre.device_context as int] == w0.com@[pre.device_context as int]);
    assert(w1.com@[pre.output.spec_obj()] == w0.com@[pre.output.spec_obj()]);
    assert(w1.com@[pre.dxgi_output_dup.spec_obj()] == w0.com@[pre.dxgi_output_dup.spec_obj()]);
}

} // verus!
