//! The data carried by the list view, and the mathematical state it is
//! abstracted to: two ordered row sequences and the position of keyboard
//! focus.

use vstd::prelude::*;

verus! {

/// What one firmware entry shows in its row: the values the enumeration
/// subsystem supplies for display. The view never inspects them.
pub struct FirmwareInfo {
    pub name: String,
    pub version: String,
}

/// One list entry: the firmware it renders, whether a separator header is
/// drawn above it, and how many primary presses its embedded interactive
/// control has received.
pub struct Row {
    pub info: FirmwareInfo,
    pub has_separator: bool,
    pub presses: u64,
}

/// Where keyboard focus rests: on a row of one of the two sections, or on
/// neither (for instance right after construction, or after a clear).
#[derive(Clone, Copy)]
pub enum Focus {
    Nowhere,
    OnSystem(usize),
    OnDevice(usize),
}

/// A directional key press as the view distinguishes it: only the two
/// directions that can cross the section boundary matter; every other key
/// is left to default list navigation.
#[derive(Clone, Copy)]
pub enum Key {
    Up,
    Down,
    Other,
}

/// Which of the two stacked sections a row belongs to.
#[derive(Clone, Copy)]
pub enum Section {
    System,
    Device,
}

/// A non-owning handle to a row, returned when the row is appended so the
/// caller can later address it. It is stale once the view is cleared.
#[derive(Clone, Copy)]
pub struct RowHandle {
    pub section: Section,
    pub index: usize,
}

/// The abstract state of the whole view: the rows of each section in
/// display order, and the focus position.
#[verifier::ext_equal]
pub ghost struct ViewState {
    pub system: Seq<Row>,
    pub device: Seq<Row>,
    pub focus: Focus,
}

/// Every row carries a separator header except the first of its section.
pub open spec fn rows_wf(rows: Seq<Row>) -> bool {
    forall|i: int| 0 <= i < rows.len() ==> rows[i].has_separator == (i > 0)
}

/// Focus, when it rests on a row, rests on one that exists.
pub open spec fn focus_wf(v: ViewState) -> bool {
    match v.focus {
        Focus::Nowhere => true,
        Focus::OnSystem(i) => i < v.system.len(),
        Focus::OnDevice(i) => i < v.device.len(),
    }
}

/// Well-formedness of the abstract state.
pub open spec fn view_wf(v: ViewState) -> bool {
    &&& rows_wf(v.system)
    &&& rows_wf(v.device)
    &&& focus_wf(v)
}

/// The state of a freshly constructed view: both sections empty, focus on
/// no row.
pub open spec fn spec_new() -> ViewState {
    ViewState { system: Seq::empty(), device: Seq::empty(), focus: Focus::Nowhere }
}

/// The row appended for `info`: it carries a separator exactly when the
/// section already had a row before it, and its control is untouched.
pub open spec fn spec_fresh_row(info: FirmwareInfo, has_separator: bool) -> Row {
    Row { info, has_separator, presses: 0 }
}

/// Appending to the system section: one row for `info` at the end, the
/// device section and the focus untouched.
pub open spec fn spec_add_system(v: ViewState, info: FirmwareInfo) -> ViewState {
    ViewState { system: v.system.push(spec_fresh_row(info, v.system.len() > 0)), ..v }
}

/// Appending to the device section: one row for `info` at the end, the
/// system section and the focus untouched.
pub open spec fn spec_add_device(v: ViewState, info: FirmwareInfo) -> ViewState {
    ViewState { device: v.device.push(spec_fresh_row(info, v.device.len() > 0)), ..v }
}

/// Clearing destroys every row of both sections, whatever the prior state,
/// and leaves focus on no row.
pub open spec fn spec_clear(v: ViewState) -> ViewState {
    ViewState { system: Seq::empty(), device: Seq::empty(), focus: Focus::Nowhere }
}

/// A "down" press crosses the boundary exactly when focus is on the last
/// system row and the device section has a row to receive it.
pub open spec fn boundary_down(v: ViewState) -> bool {
    v.focus matches Focus::OnSystem(i) && i + 1 == v.system.len() && v.device.len() > 0
}

/// An "up" press crosses the boundary exactly when focus is on the first
/// device row and the system section has a row to receive it.
pub open spec fn boundary_up(v: ViewState) -> bool {
    v.focus matches Focus::OnDevice(i) && i == 0 && v.system.len() > 0
}

/// What a directional key press does, and whether the view consumes the
/// event. Only a boundary-crossing press is consumed: it moves focus to the
/// first device row (going down) or the last system row (going up). Every
/// other press leaves the state untouched and the event unhandled, so
/// default in-list navigation still applies.
pub open spec fn spec_key_press(v: ViewState, key: Key) -> (ViewState, bool) {
    if key is Down && boundary_down(v) {
        (ViewState { focus: Focus::OnDevice(0), ..v }, true)
    } else if key is Up && boundary_up(v) {
        (ViewState { focus: Focus::OnSystem((v.system.len() - 1) as usize), ..v }, true)
    } else {
        (v, false)
    }
}

/// The row after its embedded control receives one primary press. The press
/// count saturates rather than wrap.
pub open spec fn spec_pressed(r: Row) -> Row {
    Row { presses: if r.presses < u64::MAX { (r.presses + 1) as u64 } else { r.presses }, ..r }
}

/// Whether `h` addresses a row the view currently holds.
pub open spec fn handle_in_view(v: ViewState, h: RowHandle) -> bool {
    match h.section {
        Section::System => h.index < v.system.len(),
        Section::Device => h.index < v.device.len(),
    }
}

/// Simulating a primary press directly on a row's embedded control: that
/// one control's press count advances; no other row, and no focus, changes.
pub open spec fn spec_press_control(v: ViewState, h: RowHandle) -> ViewState {
    match h.section {
        Section::System => (
            ViewState { system: v.system.update(h.index as int, spec_pressed(v.system[h.index as int])), ..v }
        ),
        Section::Device => (
            ViewState { device: v.device.update(h.index as int, spec_pressed(v.device[h.index as int])), ..v }
        ),
    }
}

/// Activating a row anywhere in its body: the row itself is non-selectable,
/// so activation only forwards one primary press to the row's embedded
/// control; no other row, and no focus, changes.
pub open spec fn spec_activate_row(v: ViewState, h: RowHandle) -> ViewState {
    match h.section {
        Section::System => (
            ViewState { system: v.system.update(h.index as int, spec_pressed(v.system[h.index as int])), ..v }
        ),
        Section::Device => (
            ViewState { device: v.device.update(h.index as int, spec_pressed(v.device[h.index as int])), ..v }
        ),
    }
}

/// The toolkit granting focus to a system row, as default navigation or a
/// pointer would.
pub open spec fn spec_focus_system(v: ViewState, index: usize) -> ViewState {
    ViewState { focus: Focus::OnSystem(index), ..v }
}

/// The toolkit granting focus to a device row, as default navigation or a
/// pointer would.
pub open spec fn spec_focus_device(v: ViewState, index: usize) -> ViewState {
    ViewState { focus: Focus::OnDevice(index), ..v }
}

} // verus!
