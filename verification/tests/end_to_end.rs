//! End-to-end scenario against the modelled subsystem: enumerate an
//! adapter's outputs, set up one duplication per attached output sharing
//! one device and context, and capture a frame from each.

use dxgcap::capture::DuplSession;
use dxgcap::capture::DuplicatedOutput;
use dxgcap::capture::GpuWorld;
use dxgcap::com::ComObject;
use dxgcap::com::ComRuntime;
use dxgcap::com::UniqueCOMPtr;
use dxgcap::com::IID_ID3D11_DEVICE;
use dxgcap::com::IID_ID3D11_DEVICE_CONTEXT;
use dxgcap::com::IID_ID3D11_RESOURCE;
use dxgcap::com::IID_ID3D11_TEXTURE2D;
use dxgcap::com::IID_IDXGI_OUTPUT1;
use dxgcap::com::IID_IDXGI_OUTPUT_DUPLICATION;
use dxgcap::desc::OutputDesc;
use dxgcap::desc::TextureDesc;
use dxgcap::hresult::S_OK;
use dxgcap::output::get_adater_outputs;
use dxgcap::output::Adapter;
use dxgcap::output::OutputSlot;

fn blank_tex() -> TextureDesc {
    TextureDesc {
        width: 0,
        height: 0,
        format: 0,
        usage: 0,
        bind_flags: 0,
        cpu_access_flags: 0,
        misc_flags: 0,
    }
}

fn plain(refs: u64, ifaces: u32) -> ComObject {
    ComObject {
        refs,
        ifaces,
        out_desc: OutputDesc { attached_to_desktop: false, monitor: 0 },
        tex_desc: blank_tex(),
        data: 0,
        eviction_priority: 0,
    }
}

#[test]
fn test() {
    // The adapter reports two attached outputs and one detached.
    let adapter = Adapter {
        slots: vec![
            OutputSlot { hr: S_OK, desc: OutputDesc { attached_to_desktop: true, monitor: 0 } },
            OutputSlot { hr: S_OK, desc: OutputDesc { attached_to_desktop: true, monitor: 1 } },
            OutputSlot { hr: S_OK, desc: OutputDesc { attached_to_desktop: false, monitor: 2 } },
        ],
    };
    let mut rt = ComRuntime::new();
    let outputs = get_adater_outputs(&adapter, &mut rt);
    assert_eq!(outputs.len(), 2);

    // One device and one context for the whole adapter.
    let device = rt.register(plain(1, IID_ID3D11_DEVICE));
    let context = rt.register(plain(1, IID_ID3D11_DEVICE_CONTEXT));

    // Each output is upgraded to the duplication-capable interface and
    // paired with a duplication session; all of them share the device.
    let mut duplicated: Vec<DuplicatedOutput> = Vec::new();
    let mut world = GpuWorld { com: rt, monitors: vec![1, 0, 0], create_texture_hr: 0 };
    let mut expected_monitor = 0usize;
    for out in outputs {
        let out1 = out
            .query_interface(&mut world.com, IID_IDXGI_OUTPUT1)
            .expect("enumerated outputs support duplication");
        let dup_id = world.com.register(plain(1, IID_IDXGI_OUTPUT_DUPLICATION));
        let dup_handle = UniqueCOMPtr::from_ptr(&world.com, dup_id, IID_IDXGI_OUTPUT_DUPLICATION);
        let frame_desc = TextureDesc {
            width: 1024,
            height: 768,
            format: 87,
            usage: 0,
            bind_flags: 0x28,
            cpu_access_flags: 0,
            misc_flags: 2,
        };
        let frame = world.com.register(ComObject {
            refs: 1,
            ifaces: IID_ID3D11_TEXTURE2D | IID_ID3D11_RESOURCE,
            out_desc: OutputDesc { attached_to_desktop: false, monitor: 0 },
            tex_desc: frame_desc,
            data: 1000 + expected_monitor as u64,
            eviction_priority: 0,
        });
        let d = DuplicatedOutput {
            device,
            device_context: context,
            output: out1,
            dxgi_output_dup: dup_handle,
            session: DuplSession::new(vec![frame]),
        };
        assert_eq!(d.get_desc(&world).monitor, expected_monitor);
        assert!(d.get_desc(&world).attached_to_desktop);
        expected_monitor += 1;
        duplicated.push(d);
    }

    // The first output drives the primary monitor, the second does not.
    assert!(duplicated[0].is_primary(&world));
    assert!(!duplicated[1].is_primary(&world));

    // Capture one frame from each duplicated output in turn; the shared
    // device serves both.
    let mut n: u64 = 1000;
    for d in duplicated.iter_mut() {
        let surface = d.get_frame(&mut world, 16).expect("one frame is queued");
        assert_eq!(world.com.get(surface.obj()).data, n);
        n += 1;
        assert_eq!(d.release_frame(), Ok(()));
        surface.release(&mut world.com);
    }

    // Taking the duplicated outputs apart gives their handles' references
    // back, one release each.
    for d in duplicated {
        let out_id = d.output.obj();
        let dup_id = d.dxgi_output_dup.obj();
        assert_eq!(world.com.refcount(out_id), 1);
        assert_eq!(world.com.refcount(dup_id), 1);
        d.dispose(&mut world);
        assert_eq!(world.com.refcount(out_id), 0);
        assert_eq!(world.com.refcount(dup_id), 0);
    }
}
