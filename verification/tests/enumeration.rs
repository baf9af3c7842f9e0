//! Output enumeration: attached outputs before the first failing index, in
//! index order, and nothing else.

use dxgcap::com::ComRuntime;
use dxgcap::hresult::hr_failed;
use dxgcap::hresult::DXGI_ERROR_NOT_FOUND;
use dxgcap::hresult::S_OK;
use dxgcap::output::get_adater_outputs;
use dxgcap::output::Adapter;
use dxgcap::output::OutputSlot;
use dxgcap::desc::OutputDesc;

fn slot(hr: i32, attached: bool, monitor: usize) -> OutputSlot {
    OutputSlot { hr, desc: OutputDesc { attached_to_desktop: attached, monitor } }
}

#[test]
fn two_attached_one_detached_yields_two_in_order() {
    // The adapter answers: attached at 0, attached at 1, detached at 2,
    // not-found at 3. The enumeration yields exactly the two attached
    // outputs, index order kept.
    let adapter = Adapter {
        slots: vec![
            slot(S_OK, true, 10),
            slot(S_OK, true, 11),
            slot(S_OK, false, 12),
        ],
    };
    let mut rt = ComRuntime::new();
    let outs = get_adater_outputs(&adapter, &mut rt);
    assert_eq!(outs.len(), 2);
    assert_eq!(rt.get(outs[0].obj()).out_desc.monitor, 10);
    assert_eq!(rt.get(outs[1].obj()).out_desc.monitor, 11);
    for o in &outs {
        assert!(rt.get(o.obj()).out_desc.attached_to_desktop);
        assert_eq!(rt.refcount(o.obj()), 1);
    }
}

#[test]
fn enumeration_stops_at_first_failure() {
    // A failing status in the middle ends the sequence; the attached
    // output behind it is never reached.
    let adapter = Adapter {
        slots: vec![
            slot(S_OK, true, 0),
            slot(DXGI_ERROR_NOT_FOUND, true, 1),
            slot(S_OK, true, 2),
        ],
    };
    let mut rt = ComRuntime::new();
    let outs = get_adater_outputs(&adapter, &mut rt);
    assert_eq!(outs.len(), 1);
    assert_eq!(rt.get(outs[0].obj()).out_desc.monitor, 0);
}

#[test]
fn any_failure_terminates_like_not_found() {
    // A failure other than not-found is treated the same way: the
    // sequence simply ends, no error surfaces.
    let adapter = Adapter {
        slots: vec![slot(-1, true, 0), slot(S_OK, true, 1)],
    };
    let mut rt = ComRuntime::new();
    let outs = get_adater_outputs(&adapter, &mut rt);
    assert_eq!(outs.len(), 0);
}

#[test]
fn detached_outputs_are_skipped_not_counted() {
    let adapter = Adapter {
        slots: vec![
            slot(S_OK, false, 0),
            slot(S_OK, true, 1),
            slot(S_OK, false, 2),
            slot(S_OK, true, 3),
        ],
    };
    let mut rt = ComRuntime::new();
    let outs = get_adater_outputs(&adapter, &mut rt);
    assert_eq!(outs.len(), 2);
    assert_eq!(rt.get(outs[0].obj()).out_desc.monitor, 1);
    assert_eq!(rt.get(outs[1].obj()).out_desc.monitor, 3);
}

#[test]
fn failure_is_exactly_negativity() {
    assert!(hr_failed(-1));
    assert!(hr_failed(i32::MIN));
    assert!(hr_failed(DXGI_ERROR_NOT_FOUND));
    assert!(!hr_failed(S_OK));
    assert!(!hr_failed(1));
    assert!(!hr_failed(i32::MAX));
}

#[test]
fn empty_adapter_yields_nothing() {
    let adapter = Adapter { slots: vec![] };
    let mut rt = ComRuntime::new();
    let outs = get_adater_outputs(&adapter, &mut rt);
    assert_eq!(outs.len(), 0);
    assert_eq!(rt.object_count(), 0);
}
