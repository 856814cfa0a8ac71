//! The list view itself: two stacked row sections and the operations the
//! host application drives them with.

use vstd::prelude::*;

use crate::model::{
    Focus, FirmwareInfo, Key, Row, RowHandle, Section, ViewState, handle_in_view,
    spec_activate_row, spec_add_device, spec_add_system, spec_clear, spec_focus_device,
    spec_focus_system, spec_fresh_row, spec_key_press, spec_new, spec_press_control, view_wf,
};

verus! {

/// The two-section firmware list view. `system_firmware` is displayed above
/// `device_firmware`; `focus` records which row, if any, holds keyboard
/// focus.
pub struct DevicesView {
    pub system_firmware: Vec<Row>,
    pub device_firmware: Vec<Row>,
    pub focus: Focus,
}

impl View for DevicesView {
    type V = ViewState;

    open spec fn view(&self) -> ViewState {
        ViewState { system: self.system_firmware@, device: self.device_firmware@, focus: self.focus }
    }
}

impl DevicesView {
    /// Constructs the view with both sections empty and focus on no row.
    /// Construction is infallible.
    pub fn new() -> (v: Self)
        ensures
            v@ == spec_new(),
            view_wf(v@),
    {
        let v = DevicesView {
            system_firmware: Vec::new(),
            device_firmware: Vec::new(),
            focus: Focus::Nowhere,
        };
        proof {
            assert(v@ =~= spec_new());
        }
        v
    }

    /// Destroys all rows in both sections and drops focus. Idempotent: the
    /// resulting state does not depend on the prior one.
    pub fn clear(&mut self)
        ensures
            final(self)@ == spec_clear(old(self)@),
            view_wf(final(self)@),
    {
        self.system_firmware.clear();
        self.device_firmware.clear();
        self.focus = Focus::Nowhere;
        proof {
            assert(self@ =~= spec_clear(old(self)@));
        }
    }

    /// Appends one row for `info` to the system section and hands back a
    /// handle to it. Always succeeds; `info` is not validated.
    pub fn system(&mut self, info: FirmwareInfo) -> (handle: RowHandle)
        ensures
            final(self)@ == spec_add_system(old(self)@, info),
            handle.section is System,
            handle.index == old(self)@.system.len(),
            view_wf(old(self)@) ==> view_wf(final(self)@),
    {
        let index = Self::append(&mut self.system_firmware, info);
        RowHandle { section: Section::System, index }
    }

    /// Appends one row for `info` to the device section and hands back a
    /// handle to it. Always succeeds; `info` is not validated.
    pub fn device(&mut self, info: FirmwareInfo) -> (handle: RowHandle)
        ensures
            final(self)@ == spec_add_device(old(self)@, info),
            handle.section is Device,
            handle.index == old(self)@.device.len(),
            view_wf(old(self)@) ==> view_wf(final(self)@),
    {
        let index = Self::append(&mut self.device_firmware, info);
        RowHandle { section: Section::Device, index }
    }

    /// Appends a row for `info` at the end of `rows`, headed by a separator
    /// exactly when it is not the first row, and returns its index.
    fn append(rows: &mut Vec<Row>, info: FirmwareInfo) -> (index: usize)
        ensures
            final(rows)@ == old(rows)@.push(spec_fresh_row(info, old(rows)@.len() > 0)),
            index == old(rows)@.len(),
    {
        let mut row = Row { info, has_separator: false, presses: 0 };
        let index = rows.len();
        if index > 0 {
            separator_header(&mut row, Some(&rows[index - 1]));
        } else {
            separator_header(&mut row, None);
        }
        rows.push(row);
        index
    }

    /// Routes one directional key press. Returns whether the view consumed
    /// the event: true exactly for a boundary-crossing press (see
    /// `spec_key_press`); any other press, including one whose target
    /// section is empty, changes nothing and is left to default navigation.
    pub fn key_press(&mut self, key: Key) -> (handled: bool)
        ensures
            final(self)@ == spec_key_press(old(self)@, key).0,
            handled == spec_key_press(old(self)@, key).1,
            view_wf(old(self)@) ==> view_wf(final(self)@),
    {
        match (key, self.focus) {
            (Key::Down, Focus::OnSystem(i)) => {
                let sys_len = self.system_firmware.len();
                if sys_len > 0 && i == sys_len - 1 && self.device_firmware.len() > 0 {
                    self.focus = Focus::OnDevice(0);
                    true
                } else {
                    false
                }
            },
            (Key::Up, Focus::OnDevice(i)) => {
                let sys_len = self.system_firmware.len();
                if i == 0 && sys_len > 0 {
                    self.focus = Focus::OnSystem(sys_len - 1);
                    true
                } else {
                    false
                }
            },
            _ => false,
        }
    }

    /// The toolkit's default navigation or a pointer placing focus on the
    /// system row at `index`.
    pub fn focus_system_row(&mut self, index: usize)
        requires
            index < old(self)@.system.len(),
        ensures
            final(self)@ == spec_focus_system(old(self)@, index),
            view_wf(old(self)@) ==> view_wf(final(self)@),
    {
        self.focus = Focus::OnSystem(index);
    }

    /// The toolkit's default navigation or a pointer placing focus on the
    /// device row at `index`.
    pub fn focus_device_row(&mut self, index: usize)
        requires
            index < old(self)@.device.len(),
        ensures
            final(self)@ == spec_focus_device(old(self)@, index),
            view_wf(old(self)@) ==> view_wf(final(self)@),
    {
        self.focus = Focus::OnDevice(index);
    }

    /// Simulates a primary press directly on the embedded control of the row
    /// `handle` addresses. The handle must still address a row: a handle
    /// held across a `clear` is stale and may not be used.
    pub fn press_control(&mut self, handle: RowHandle)
        requires
            handle_in_view(old(self)@, handle),
        ensures
            final(self)@ == spec_press_control(old(self)@, handle),
            view_wf(old(self)@) ==> view_wf(final(self)@),
    {
        match handle.section {
            Section::System => {
                let n = self.system_firmware[handle.index].presses;
                let bumped = if n < u64::MAX { n + 1 } else { n };
                self.system_firmware[handle.index].presses = bumped;
                proof {
                    assert(self@.system =~= spec_press_control(old(self)@, handle).system);
                }
            },
            Section::Device => {
                let n = self.device_firmware[handle.index].presses;
                let bumped = if n < u64::MAX { n + 1 } else { n };
                self.device_firmware[handle.index].presses = bumped;
                proof {
                    assert(self@.device =~= spec_press_control(old(self)@, handle).device);
                }
            },
        }
    }

    /// Simulates an activation anywhere in the body of the row `handle`
    /// addresses. The row is non-selectable: activation is purely forwarded
    /// as one primary press on the row's embedded control. The handle must
    /// still address a row.
    pub fn activate_row(&mut self, handle: RowHandle)
        requires
            handle_in_view(old(self)@, handle),
        ensures
            final(self)@ == spec_activate_row(old(self)@, handle),
            view_wf(old(self)@) ==> view_wf(final(self)@),
    {
        self.press_control(handle);
    }
}

/// The header policy shared by both sections: a row is given a separator
/// header exactly when some row stands before it.
pub fn separator_header(current: &mut Row, before: Option<&Row>)
    ensures
        final(current).has_separator == before is Some,
        final(current).info == old(current).info,
        final(current).presses == old(current).presses,
{
    current.has_separator = before.is_some();
}

} // verus!
