//! Laws the view obeys, stated over the abstract state and proved once for
//! all inputs.

use vstd::prelude::*;

use crate::model::{
    FirmwareInfo, Key, Row, RowHandle, ViewState, spec_activate_row, spec_add_device,
    spec_add_system, spec_fresh_row, spec_key_press, spec_new, spec_press_control, view_wf,
};

verus! {

/// One append call, aimed at one of the two sections.
pub ghost enum AddCall {
    ToSystem(FirmwareInfo),
    ToDevice(FirmwareInfo),
}

/// The state after playing a sequence of append calls, in order.
pub open spec fn apply_adds(v: ViewState, calls: Seq<AddCall>) -> ViewState
    decreases calls.len(),
{
    if calls.len() == 0 {
        v
    } else {
        let prev = apply_adds(v, calls.drop_last());
        match calls.last() {
            AddCall::ToSystem(info) => spec_add_system(prev, info),
            AddCall::ToDevice(info) => spec_add_device(prev, info),
        }
    }
}

/// The firmware of the system-aimed calls, in call order.
pub open spec fn system_infos(calls: Seq<AddCall>) -> Seq<FirmwareInfo>
    decreases calls.len(),
{
    if calls.len() == 0 {
        Seq::empty()
    } else {
        let rest = system_infos(calls.drop_last());
        match calls.last() {
            AddCall::ToSystem(info) => rest.push(info),
            AddCall::ToDevice(_) => rest,
        }
    }
}

/// The firmware of the device-aimed calls, in call order.
pub open spec fn device_infos(calls: Seq<AddCall>) -> Seq<FirmwareInfo>
    decreases calls.len(),
{
    if calls.len() == 0 {
        Seq::empty()
    } else {
        let rest = device_infos(calls.drop_last());
        match calls.last() {
            AddCall::ToSystem(_) => rest,
            AddCall::ToDevice(info) => rest.push(info),
        }
    }
}

/// The firmware each row of `rows` displays, in display order.
pub open spec fn infos_of(rows: Seq<Row>) -> Seq<FirmwareInfo> {
    rows.map_values(|r: Row| r.info)
}

/// Law: however a sequence of append calls is interleaved between the two
/// sections, each section ends up with one row per call aimed at it,
/// displaying the calls' firmware in call order after whatever rows were
/// already there. In particular, starting from a fresh view, each section's
/// row count equals the number of calls aimed at it.
pub proof fn lemma_adds_in_call_order(v: ViewState, calls: Seq<AddCall>)
    ensures
        infos_of(apply_adds(v, calls).system) == infos_of(v.system) + system_infos(calls),
        infos_of(apply_adds(v, calls).device) == infos_of(v.device) + device_infos(calls),
        apply_adds(v, calls).system.len() == v.system.len() + system_infos(calls).len(),
        apply_adds(v, calls).device.len() == v.device.len() + device_infos(calls).len(),
    decreases calls.len(),
{
    if calls.len() == 0 {
        assert(infos_of(apply_adds(v, calls).system) =~= infos_of(v.system) + system_infos(calls));
        assert(infos_of(apply_adds(v, calls).device) =~= infos_of(v.device) + device_infos(calls));
    } else {
        lemma_adds_in_call_order(v, calls.drop_last());
        let prev = apply_adds(v, calls.drop_last());
        match calls.last() {
            AddCall::ToSystem(info) => {
                let r = spec_fresh_row(info, prev.system.len() > 0);
                assert(apply_adds(v, calls).system == prev.system.push(r));
                assert(infos_of(prev.system.push(r)) =~= infos_of(prev.system).push(info));
                assert(infos_of(v.system) + system_infos(calls) =~= (infos_of(v.system)
                    + system_infos(calls.drop_last())).push(info));
                assert(apply_adds(v, calls).device == prev.device);
                assert(device_infos(calls) == device_infos(calls.drop_last()));
            },
            AddCall::ToDevice(info) => {
                let r = spec_fresh_row(info, prev.device.len() > 0);
                assert(apply_adds(v, calls).device == prev.device.push(r));
                assert(infos_of(prev.device.push(r)) =~= infos_of(prev.device).push(info));
                assert(infos_of(v.device) + device_infos(calls) =~= (infos_of(v.device)
                    + device_infos(calls.drop_last())).push(info));
                assert(apply_adds(v, calls).system == prev.system);
                assert(system_infos(calls) == system_infos(calls.drop_last()));
            },
        }
    }
}

/// Law: starting from a fresh view, after any sequence of append calls each
/// section holds exactly one row per call aimed at it, displaying the calls'
/// firmware in call order.
pub proof fn lemma_adds_from_fresh_view(calls: Seq<AddCall>)
    ensures
        infos_of(apply_adds(spec_new(), calls).system) == system_infos(calls),
        infos_of(apply_adds(spec_new(), calls).device) == device_infos(calls),
        apply_adds(spec_new(), calls).system.len() == system_infos(calls).len(),
        apply_adds(spec_new(), calls).device.len() == device_infos(calls).len(),
{
    lemma_adds_in_call_order(spec_new(), calls);
    assert(infos_of(apply_adds(spec_new(), calls).system) =~= system_infos(calls));
    assert(infos_of(apply_adds(spec_new(), calls).device) =~= device_infos(calls));
}

/// Law: appending never breaks well-formedness, however many calls are
/// played: the new row of each call carries a separator exactly when it is
/// not the first of its section, and focus stays on a row that exists.
pub proof fn lemma_adds_preserve_wf(v: ViewState, calls: Seq<AddCall>)
    requires
        view_wf(v),
    ensures
        view_wf(apply_adds(v, calls)),
    decreases calls.len(),
{
    if calls.len() > 0 {
        lemma_adds_preserve_wf(v, calls.drop_last());
    }
}

/// Law: when the device section has no rows, a "down" press is never
/// consumed and leaves the whole state exactly as it was, wherever focus
/// rests.
pub proof fn lemma_down_with_empty_device_is_noop(v: ViewState)
    requires
        v.device.len() == 0,
    ensures
        spec_key_press(v, Key::Down).0 == v,
        !spec_key_press(v, Key::Down).1,
{
}

/// Law: activating anywhere in a row's body produces exactly the state that
/// simulating a primary press directly on that row's embedded control does:
/// activation is pure forwarding.
pub proof fn lemma_activation_matches_direct_press(v: ViewState, h: RowHandle)
    ensures
        spec_activate_row(v, h) == spec_press_control(v, h),
{
}

} // verus!
