//! The window lifecycle manager: orchestrates create, close and reset
//! operations over the instance registry and the position store.
//!
//! Creating a window proceeds in three steps, each a decision on plain
//! values; the caller performs the windowing-subsystem work in between:
//!
//! 1. [`DisplayState::begin_create_window`] answers the idempotent fast
//!    path (the slot already has a live window) and purges a stale
//!    registry entry; the caller then closes stray windows under the
//!    identifiers of [`legacy_window_ids`].
//! 2. [`DisplayState::plan_window_open`] validates the slot against the
//!    freshly enumerated monitors and fixes identifier, position, size
//!    and attributes of the window to open.
//! 3. After the window opened, [`DisplayState::register_created_window`]
//!    records the instance and remembers its position.

use vstd::prelude::*;

use crate::display::centered_position;
use crate::display::generate_window_id;
use crate::display::is_overlay_label;
use crate::display::monitor_in_range;
use crate::display::position_is_within;
use crate::display::spec_position_choice;
use crate::display::spec_window_id;
use crate::display::InstanceRegistry;
use crate::display::MonitorInfo;
use crate::display::PositionStore;
use crate::display::WindowInstance;
use crate::display::WindowPosition;
use crate::display::MAX_WINDOW_SIZE;
use crate::display::MIN_WINDOW_SIZE;
use crate::text::decimal_chars;
use crate::text::push_decimal;

verus! {

use crate::DEFAULT_WINDOW_SIZE;

/// Why a lifecycle operation could not perform its state change.
/// Failures of secondary cleanup steps are never reported this way;
/// they are swallowed by the caller so one stuck window cannot block
/// the rest.
#[derive(Debug, PartialEq, Eq)]
pub enum DisplayError {
    /// The windowing subsystem could not be queried.
    PlatformQuery { detail: String },
    /// A request named a monitor slot at or beyond the number of
    /// monitors currently enumerated.
    MonitorIndexOutOfRange { requested: usize, available: usize },
    /// The canonical identifier is still taken in the windowing
    /// subsystem even after cleanup; a bookkeeping bug, fatal for the
    /// one call.
    IdentifierCollision { monitor_index: usize, is_primary: bool },
    /// The windowing subsystem refused to open the window.
    WindowCreationFailed { detail: String },
}

/// The human-readable rendering of each error.
pub open spec fn spec_error_message(e: DisplayError) -> Seq<char> {
    match e {
        DisplayError::PlatformQuery { detail } => "failed to query monitors: "@ + detail@,
        DisplayError::MonitorIndexOutOfRange { requested, available } => "monitor index out of range: requested index "@
            + decimal_chars(requested as nat) + " but only "@ + decimal_chars(available as nat)
            + " monitors are available"@,
        DisplayError::IdentifierCollision { monitor_index, is_primary } => "window id "@
            + spec_window_id(monitor_index as nat, is_primary) + " already exists"@,
        DisplayError::WindowCreationFailed { detail } => "failed to create window: "@ + detail@,
    }
}

impl DisplayError {
    /// Renders the error as the message handed to the front end.
    pub fn message(&self) -> (r: String)
        ensures
            r@ == spec_error_message(*self),
    {
        match self {
            DisplayError::PlatformQuery { detail } => {
                let mut m = String::from_str("failed to query monitors: ");
                m.append(detail.as_str());
                m
            },
            DisplayError::MonitorIndexOutOfRange { requested, available } => {
                let mut m = String::from_str("monitor index out of range: requested index ");
                push_decimal(&mut m, *requested as u64);
                m.append(" but only ");
                push_decimal(&mut m, *available as u64);
                m.append(" monitors are available");
                m
            },
            DisplayError::IdentifierCollision { monitor_index, is_primary } => {
                let mut m = String::from_str("window id ");
                let id = generate_window_id(*monitor_index, *is_primary);
                m.append(id.as_str());
                m.append(" already exists");
                m
            },
            DisplayError::WindowCreationFailed { detail } => {
                let mut m = String::from_str("failed to create window: ");
                m.append(detail.as_str());
                m
            },
        }
    }
}

/// Everything fixed about a window the manager has decided to open:
/// its identifier, placement, size limits and display attributes.
pub struct OpenPlan {
    pub id: String,
    pub monitor_index: usize,
    pub is_primary: bool,
    pub x: i32,
    pub y: i32,
    pub width: u32,
    pub height: u32,
    pub min_size: u32,
    pub max_size: u32,
    pub resizable: bool,
    pub always_on_top: bool,
    pub transparent: bool,
    pub decorations: bool,
    pub shadow: bool,
    pub skip_taskbar: bool,
    pub accept_first_mouse: bool,
}

/// The process-wide window-management state: the instance registry and
/// the position store, owned by the process entry point and handed to
/// every command handler.
pub struct DisplayState {
    pub instances: InstanceRegistry,
    pub positions: PositionStore,
}

impl DisplayState {
    /// The registry invariant holds.
    pub open spec fn wf(self) -> bool {
        self.instances.wf()
    }

    /// The state a process starts in: nothing registered, nothing
    /// remembered.
    pub fn new() -> (r: Self)
        ensures
            r.wf(),
            forall|k: int| r.instances.slot_entry(k) is None,
            forall|k: int| r.positions.slot_pos(k) is None,
    {
        DisplayState { instances: InstanceRegistry::new(), positions: PositionStore::new() }
    }

    /// The window-instance registry.
    pub fn get_window_instances(&self) -> (r: &InstanceRegistry)
        ensures
            r == &self.instances,
    {
        &self.instances
    }

    /// The remembered-position store.
    pub fn get_saved_positions(&self) -> (r: &PositionStore)
        ensures
            r == &self.positions,
    {
        &self.positions
    }

    /// Remembers where the window of a slot sits, overwriting any
    /// earlier memory; the registry is untouched.
    pub fn save_window_position(&mut self, monitor_index: usize, x: i32, y: i32, width: u32, height: u32)
        ensures
            final(self).instances == old(self).instances,
            final(self).positions.slot_pos(monitor_index as int) == Some(
                (WindowPosition { x, y, width, height }),
            ),
            forall|k: int|
                k != monitor_index ==> final(self).positions.slot_pos(k) == old(
                    self,
                ).positions.slot_pos(k),
    {
        self.positions.save(monitor_index, WindowPosition { x, y, width, height });
    }

    /// Where a new window on `monitor` goes: the remembered position of
    /// the slot when it is still within the monitor's current bounds,
    /// the centered default otherwise.
    pub fn get_window_position(&self, monitor_index: usize, monitor: &MonitorInfo) -> (r: (
        i32,
        i32,
    ))
        requires
            monitor_in_range(*monitor),
        ensures
            (r.0 as int, r.1 as int) == spec_position_choice(
                self.positions.slot_pos(monitor_index as int),
                *monitor,
            ),
    {
        match self.positions.get(monitor_index) {
            Some(saved) => {
                if position_is_within(&saved, monitor) {
                    (saved.x, saved.y)
                } else {
                    centered_position(monitor)
                }
            },
            None => centered_position(monitor),
        }
    }

    /// First step of creating a window on a slot.  `existing_window_alive`
    /// is the caller's observation whether the window named by the
    /// registry entry of this slot still exists in the subsystem.
    /// Returns the existing identifier when the slot already has a live
    /// window (the idempotent fast path, no state change); otherwise
    /// purges a stale entry and answers nothing, and the caller
    /// proceeds to planning.
    pub fn begin_create_window(&mut self, monitor_index: usize, existing_window_alive: bool) -> (r:
        Option<String>)
        requires
            old(self).wf(),
        ensures
            final(self).wf(),
            final(self).positions == old(self).positions,
            match old(self).instances.slot_entry(monitor_index as int) {
                Some(w) => {
                    if existing_window_alive {
                        &&& r == Some(w.id)
                        &&& final(self).instances == old(self).instances
                    } else {
                        &&& r is None
                        &&& final(self).instances.slot_entry(monitor_index as int) is None
                        &&& forall|k: int|
                            k != monitor_index ==> final(self).instances.slot_entry(k) == old(
                                self,
                            ).instances.slot_entry(k)
                    }
                },
                None => r is None && final(self).instances == old(self).instances,
            },
    {
        match self.instances.get(monitor_index) {
            Some(existing) => {
                if existing_window_alive {
                    Some(existing.id)
                } else {
                    self.instances.remove(monitor_index);
                    None
                }
            },
            None => None,
        }
    }

    /// Second step of creating a window: validates the slot against the
    /// monitors just enumerated and fixes everything about the window
    /// to open.  `window_id_in_use` is the caller's observation whether
    /// the canonical identifier still names a window in the subsystem
    /// after cleanup.  Fails exactly when the slot is out of range or
    /// the identifier is taken; no state changes either way.
    pub fn plan_window_open(
        &self,
        monitor_index: usize,
        is_primary: bool,
        monitors: &Vec<MonitorInfo>,
        window_id_in_use: bool,
    ) -> (r: Result<OpenPlan, DisplayError>)
        requires
            forall|i: int| 0 <= i < monitors@.len() ==> monitor_in_range(#[trigger] monitors@[i]),
        ensures
            monitor_index >= monitors@.len() ==> r == Err::<OpenPlan, DisplayError>(
                (DisplayError::MonitorIndexOutOfRange {
                    requested: monitor_index,
                    available: monitors@.len() as usize,
                }),
            ),
            monitor_index < monitors@.len() && window_id_in_use ==> r == Err::<
                OpenPlan,
                DisplayError,
            >((DisplayError::IdentifierCollision { monitor_index, is_primary })),
            monitor_index < monitors@.len() && !window_id_in_use ==> r is Ok && {
                let p = r->Ok_0;
                &&& p.id@ == spec_window_id(monitor_index as nat, is_primary)
                &&& p.monitor_index == monitor_index
                &&& p.is_primary == is_primary
                &&& (p.x as int, p.y as int) == spec_position_choice(
                    self.positions.slot_pos(monitor_index as int),
                    monitors@[monitor_index as int],
                )
                &&& p.width == DEFAULT_WINDOW_SIZE
                &&& p.height == DEFAULT_WINDOW_SIZE
                &&& p.min_size == MIN_WINDOW_SIZE
                &&& p.max_size == MAX_WINDOW_SIZE
                &&& p.resizable
                &&& p.always_on_top
                &&& p.transparent
                &&& !p.decorations
                &&& !p.shadow
                &&& p.skip_taskbar
                &&& p.accept_first_mouse
            },
    {
        if monitor_index >= monitors.len() {
            return Err(
                DisplayError::MonitorIndexOutOfRange {
                    requested: monitor_index,
                    available: monitors.len(),
                },
            );
        }
        if window_id_in_use {
            return Err(DisplayError::IdentifierCollision { monitor_index, is_primary });
        }
        let monitor = &monitors[monitor_index];
        let (x, y) = self.get_window_position(monitor_index, monitor);
        Ok(
            OpenPlan {
                id: generate_window_id(monitor_index, is_primary),
                monitor_index,
                is_primary,
                x,
                y,
                width: DEFAULT_WINDOW_SIZE,
                height: DEFAULT_WINDOW_SIZE,
                min_size: MIN_WINDOW_SIZE,
                max_size: MAX_WINDOW_SIZE,
                resizable: true,
                always_on_top: true,
                transparent: true,
                decorations: false,
                shadow: false,
                skip_taskbar: true,
                accept_first_mouse: true,
            },
        )
    }

    /// Last step of creating a window, called once the subsystem opened
    /// it: registers the instance under its slot and remembers its
    /// position, then hands the identifier back.  When opening failed
    /// instead, nothing is registered and the caller surfaces
    /// [`DisplayError::WindowCreationFailed`].
    pub fn register_created_window(&mut self, plan: &OpenPlan) -> (r: String)
        requires
            old(self).wf(),
            plan.id@ == spec_window_id(plan.monitor_index as nat, plan.is_primary),
        ensures
            final(self).wf(),
            r@ == spec_window_id(plan.monitor_index as nat, plan.is_primary),
            final(self).instances.slot_entry(plan.monitor_index as int) == Some(
                (WindowInstance {
                    id: plan.id,
                    monitor_index: plan.monitor_index,
                    x: plan.x,
                    y: plan.y,
                    is_primary: plan.is_primary,
                }),
            ),
            forall|k: int|
                k != plan.monitor_index ==> final(self).instances.slot_entry(k) == old(
                    self,
                ).instances.slot_entry(k),
            final(self).positions.slot_pos(plan.monitor_index as int) == Some(
                (WindowPosition { x: plan.x, y: plan.y, width: plan.width, height: plan.height }),
            ),
            forall|k: int|
                k != plan.monitor_index ==> final(self).positions.slot_pos(k) == old(
                    self,
                ).positions.slot_pos(k),
    {
        let instance = WindowInstance {
            id: plan.id.clone(),
            monitor_index: plan.monitor_index,
            x: plan.x,
            y: plan.y,
            is_primary: plan.is_primary,
        };
        self.instances.put(plan.monitor_index, instance);
        self.positions.save(
            plan.monitor_index,
            WindowPosition { x: plan.x, y: plan.y, width: plan.width, height: plan.height },
        );
        plan.id.clone()
    }

    /// Removes the instance bearing `window_id` from the registry and
    /// returns its slot, so the caller can close the underlying window
    /// best-effort afterwards.  The registry entry goes first: a close
    /// failure never leaves a dangling entry behind.  An unknown
    /// identifier is a no-op.
    pub fn close_window_instance(&mut self, window_id: &String) -> (r: Option<usize>)
        requires
            old(self).wf(),
        ensures
            final(self).wf(),
            final(self).positions == old(self).positions,
            match r {
                Some(slot) => {
                    &&& old(self).instances.slot_entry(slot as int) is Some
                    &&& old(self).instances.slot_entry(slot as int)->Some_0.id@ == window_id@
                    &&& final(self).instances.slot_entry(slot as int) is None
                    &&& forall|k: int|
                        k != slot ==> final(self).instances.slot_entry(k) == old(
                            self,
                        ).instances.slot_entry(k)
                },
                None => {
                    &&& final(self).instances == old(self).instances
                    &&& InstanceRegistry::find_by_id_from(
                        old(self).instances.entries@,
                        window_id@,
                        0,
                    ) is None
                },
            },
    {
        self.instances.remove_by_identifier(window_id)
    }

    /// Removes the instance registered for a slot and returns it, so
    /// the caller can close the underlying window best-effort
    /// afterwards.  An empty slot is a no-op.
    pub fn close_window_on_monitor(&mut self, monitor_index: usize) -> (r: Option<WindowInstance>)
        requires
            old(self).wf(),
        ensures
            final(self).wf(),
            final(self).positions == old(self).positions,
            r == old(self).instances.slot_entry(monitor_index as int),
            final(self).instances.slot_entry(monitor_index as int) is None,
            forall|k: int|
                k != monitor_index ==> final(self).instances.slot_entry(k) == old(
                    self,
                ).instances.slot_entry(k),
    {
        self.instances.remove(monitor_index)
    }

    /// Full reset: forgets every instance and every remembered
    /// position.  The caller then closes every subsystem window whose
    /// label [`is_overlay_label`] selects; the main window is left
    /// untouched.
    pub fn reset_window_positions(&mut self)
        ensures
            final(self).wf(),
            forall|k: int| final(self).instances.slot_entry(k) is None,
            forall|k: int| final(self).positions.slot_pos(k) is None,
            final(self).instances.live_seq() == Seq::<WindowInstance>::empty(),
    {
        self.instances.clear_all();
        self.positions.clear_all();
    }

    /// A snapshot of all live window instances, in slot order.
    pub fn list_window_instances(&self) -> (r: Vec<WindowInstance>)
        ensures
            r@ == self.instances.live_seq(),
    {
        self.instances.list_all()
    }
}

/// The labels among `ls` that name overlay windows of this
/// application, in the order they were handed in.
pub open spec fn spec_select_overlay(ls: Seq<String>) -> Seq<String>
    decreases ls.len(),
{
    if ls.len() == 0 {
        Seq::empty()
    } else {
        let rest = spec_select_overlay(ls.drop_last());
        if is_overlay_label(ls.last()@) {
            rest.push(ls.last())
        } else {
            rest
        }
    }
}

/// Selects, from the labels of all windows the subsystem currently
/// holds, those that name overlay windows under the current or a
/// legacy naming scheme.  A full reset closes exactly these.
pub fn select_overlay_windows(labels: &Vec<String>) -> (r: Vec<String>)
    ensures
        r@ == spec_select_overlay(labels@),
{
    let mut r: Vec<String> = Vec::new();
    let mut i: usize = 0;
    proof {
        assert(r@ =~= spec_select_overlay(labels@.take(0)));
    }
    while i < labels.len()
        invariant
            i <= labels@.len(),
            r@ == spec_select_overlay(labels@.take(i as int)),
        decreases labels@.len() - i,
    {
        proof {
            assert(labels@.take(i as int + 1).drop_last() =~= labels@.take(i as int));
            assert(labels@.take(i as int + 1).last() == labels@[i as int]);
        }
        let l = &labels[i];
        if crate::text::str_has_prefix(l.as_str(), "monitor_") || crate::text::str_has_prefix(
            l.as_str(),
            "main_monitor_",
        ) || crate::text::str_has_prefix(l.as_str(), "secondary_monitor_") {
            r.push(l.clone());
        }
        i = i + 1;
    }
    proof {
        assert(labels@.take(labels@.len() as int) =~= labels@);
    }
    r
}

/// A monitor as the platform reports it, before the library numbers
/// it: an optional display name, the size, and the top-left position.
pub struct RawMonitor {
    pub name: Option<String>,
    pub width: u32,
    pub height: u32,
    pub x: i32,
    pub y: i32,
}

/// The display name of the monitor at position `index`: the reported
/// name, or `monitor N` (numbered from one) when the platform reports
/// none.
pub open spec fn spec_monitor_name(name: Option<String>, index: nat) -> Seq<char> {
    match name {
        Some(n) => n@,
        None => "monitor "@ + decimal_chars(index + 1),
    }
}

/// Turns one platform enumeration into the monitor snapshot handed to
/// the front end: each monitor keeps its reported geometry verbatim
/// and is numbered by its ordinal position in the enumeration.
pub fn get_available_monitors(raw: &Vec<RawMonitor>) -> (r: Vec<MonitorInfo>)
    ensures
        r@.len() == raw@.len(),
        forall|i: int|
            0 <= i < raw@.len() ==> {
                let m = #[trigger] r@[i];
                &&& m.index == i
                &&& m.name@ == spec_monitor_name(raw@[i].name, i as nat)
                &&& m.width == raw@[i].width
                &&& m.height == raw@[i].height
                &&& m.x == raw@[i].x
                &&& m.y == raw@[i].y
            },
{
    let mut r: Vec<MonitorInfo> = Vec::new();
    let mut i: usize = 0;
    while i < raw.len()
        invariant
            i <= raw@.len(),
            r@.len() == i,
            forall|j: int|
                0 <= j < i ==> {
                    let m = #[trigger] r@[j];
                    &&& m.index == j
                    &&& m.name@ == spec_monitor_name(raw@[j].name, j as nat)
                    &&& m.width == raw@[j].width
                    &&& m.height == raw@[j].height
                    &&& m.x == raw@[j].x
                    &&& m.y == raw@[j].y
                },
        decreases raw@.len() - i,
    {
        let entry = &raw[i];
        let name = match &entry.name {
            Some(n) => n.clone(),
            None => {
                let mut d = String::from_str("monitor ");
                push_decimal(&mut d, i as u64 + 1);
                d
            },
        };
        r.push(
            MonitorInfo {
                index: i,
                name,
                width: entry.width,
                height: entry.height,
                x: entry.x,
                y: entry.y,
            },
        );
        i = i + 1;
    }
    r
}

/// Where the main window goes at startup: centered on the first
/// enumerated monitor, or nowhere when no monitor is reported.
pub fn main_window_startup_position(monitors: &Vec<MonitorInfo>) -> (r: Option<(i32, i32)>)
    requires
        monitors@.len() > 0 ==> monitor_in_range(monitors@[0]),
    ensures
        monitors@.len() == 0 ==> r is None,
        monitors@.len() > 0 ==> r is Some && (r->Some_0.0 as int, r->Some_0.1 as int)
            == crate::display::spec_centered(monitors@[0]),
{
    if monitors.len() == 0 {
        None
    } else {
        Some(centered_position(&monitors[0]))
    }
}

/// Validates the slot for a request to move the main window: fails
/// exactly when the slot is out of range.  By design the main window
/// is not repositioned; the caller only brings it to the front, so
/// this function changes no state.
pub fn move_main_window_to_monitor(monitor_index: usize, monitors: &Vec<MonitorInfo>) -> (r:
    Result<(), DisplayError>)
    ensures
        monitor_index < monitors@.len() ==> r is Ok,
        monitor_index >= monitors@.len() ==> r == Err::<(), DisplayError>(
            (DisplayError::MonitorIndexOutOfRange {
                requested: monitor_index,
                available: monitors@.len() as usize,
            }),
        ),
{
    if monitor_index >= monitors.len() {
        Err(
            DisplayError::MonitorIndexOutOfRange {
                requested: monitor_index,
                available: monitors.len(),
            },
        )
    } else {
        Ok(())
    }
}

} // verus!
