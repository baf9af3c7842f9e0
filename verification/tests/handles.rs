//! Reference-count accounting of the foreign-object handle: exactly one
//! release per successfully constructed handle, on every branch.

use dxgcap::com::ComObject;
use dxgcap::com::ComRuntime;
use dxgcap::com::UniqueCOMPtr;
use dxgcap::com::IID_IDXGI_OUTPUT;
use dxgcap::com::IID_IDXGI_OUTPUT1;
use dxgcap::com::IID_ID3D11_TEXTURE2D;
use dxgcap::desc::OutputDesc;
use dxgcap::desc::TextureDesc;
use dxgcap::hresult::E_NOINTERFACE;

fn object(refs: u64, ifaces: u32) -> ComObject {
    ComObject {
        refs,
        ifaces,
        out_desc: OutputDesc { attached_to_desktop: false, monitor: 0 },
        tex_desc: TextureDesc {
            width: 0,
            height: 0,
            format: 0,
            usage: 0,
            bind_flags: 0,
            cpu_access_flags: 0,
            misc_flags: 0,
        },
        data: 0,
        eviction_priority: 0,
    }
}

#[test]
fn construct_then_release_nets_exactly_one() {
    let mut rt = ComRuntime::new();
    let id = rt.register(object(1, IID_IDXGI_OUTPUT));
    assert_eq!(rt.refcount(id), 1);
    let handle = UniqueCOMPtr::from_ptr(&rt, id, IID_IDXGI_OUTPUT);
    // Taking ownership adds nothing: the handle owns the existing reference.
    assert_eq!(rt.refcount(id), 1);
    let remaining = handle.release(&mut rt);
    assert_eq!(remaining, 0);
    assert_eq!(rt.refcount(id), 0);
    assert_eq!(rt.object_count(), 1);
}

#[test]
fn query_interface_success_keeps_net_count() {
    let mut rt = ComRuntime::new();
    let id = rt.register(object(1, IID_IDXGI_OUTPUT | IID_IDXGI_OUTPUT1));
    let handle = UniqueCOMPtr::from_ptr(&rt, id, IID_IDXGI_OUTPUT);
    let upgraded = handle
        .query_interface(&mut rt, IID_IDXGI_OUTPUT1)
        .expect("the object supports the queried interface");
    // Same object, new interface, no net reference-count change.
    assert_eq!(upgraded.obj(), id);
    assert_eq!(upgraded.iface(), IID_IDXGI_OUTPUT1);
    assert_eq!(rt.refcount(id), 1);
    assert_eq!(upgraded.release(&mut rt), 0);
}

#[test]
fn query_interface_failure_releases_exactly_once() {
    let mut rt = ComRuntime::new();
    // Two references outstanding: one for the handle under test, one held
    // elsewhere, so the probe can see the single decrement.
    let id = rt.register(object(2, IID_IDXGI_OUTPUT));
    let handle = UniqueCOMPtr::from_ptr(&rt, id, IID_IDXGI_OUTPUT);
    let err = handle
        .query_interface(&mut rt, IID_ID3D11_TEXTURE2D)
        .expect_err("the object does not support the queried interface");
    assert_eq!(err, E_NOINTERFACE);
    // Exactly one decrement, zero increments, no other object touched.
    assert_eq!(rt.refcount(id), 1);
    assert_eq!(rt.object_count(), 1);
}
