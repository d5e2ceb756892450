//! Multi-monitor window-instance management: the data model, the
//! per-slot instance registry, the remembered-position store, and the
//! lifecycle decisions for creating, closing and resetting overlay
//! windows.
//!
//! A *slot* is the ordinal index of a monitor within the most recent
//! enumeration; the manager keeps at most one overlay window per slot.
//! The windowing subsystem itself is driven by the caller: functions
//! here take the facts the caller observed (whether a window is still
//! alive, the enumerated monitors, whether an identifier is taken) as
//! plain arguments and return the decisions as plain values.

use vstd::pervasive::VecAdditionalExecFns;
use vstd::prelude::*;

use crate::text::decimal_chars;
use crate::text::has_prefix;
use crate::text::push_decimal;

verus! {

use crate::DEFAULT_WINDOW_SIZE;

/// Smallest width and height a created overlay window may be resized to.
pub const MIN_WINDOW_SIZE: u32 = 200;

/// Largest width and height a created overlay window may be resized to.
pub const MAX_WINDOW_SIZE: u32 = 800;

/// A monitor as reported by one enumeration of the display subsystem.
/// The index is the ordinal position in that enumeration, not a stable
/// hardware identifier.
#[derive(Debug)]
pub struct MonitorInfo {
    pub index: usize,
    pub name: String,
    pub width: u32,
    pub height: u32,
    pub x: i32,
    pub y: i32,
}

/// A live overlay window and its bookkeeping: its identifier, the slot
/// it was opened on, its position, and whether it plays the primary
/// role (which only varies the generated identifier).
#[derive(Debug)]
pub struct WindowInstance {
    pub id: String,
    pub monitor_index: usize,
    pub x: i32,
    pub y: i32,
    pub is_primary: bool,
}

/// A remembered window position and size for one monitor slot.
#[derive(Clone, Copy, Debug, PartialEq, Eq, Structural)]
pub struct WindowPosition {
    pub x: i32,
    pub y: i32,
    pub width: u32,
    pub height: u32,
}

impl Clone for WindowInstance {
    fn clone(&self) -> (r: Self)
        ensures
            r == *self,
    {
        let r = WindowInstance {
            id: self.id.clone(),
            monitor_index: self.monitor_index,
            x: self.x,
            y: self.y,
            is_primary: self.is_primary,
        };
        proof {
            assert(r == *self);
        }
        r
    }
}

/// The canonical identifier for the overlay window of a slot: the role
/// prefix followed by the slot number in decimal.  Repeated creation
/// requests for one slot and role always name the same window.
pub open spec fn spec_window_id(slot: nat, is_primary: bool) -> Seq<char> {
    if is_primary {
        "main_monitor_"@ + decimal_chars(slot)
    } else {
        "secondary_monitor_"@ + decimal_chars(slot)
    }
}

/// Builds the canonical window identifier for a slot and role.
pub fn generate_window_id(monitor_index: usize, is_primary: bool) -> (r: String)
    ensures
        r@ == spec_window_id(monitor_index as nat, is_primary),
{
    let mut id = if is_primary {
        String::from_str("main_monitor_")
    } else {
        String::from_str("secondary_monitor_")
    };
    push_decimal(&mut id, monitor_index as u64);
    id
}

/// The identifier the oldest naming scheme used for a slot, kept only
/// so stray windows of earlier sessions can be found and closed.
pub open spec fn spec_legacy_window_id(slot: nat) -> Seq<char> {
    "monitor_"@ + decimal_chars(slot)
}

/// Every identifier, current or legacy, under which an overlay window
/// for this slot may exist in the windowing subsystem.
pub fn legacy_window_ids(monitor_index: usize) -> (r: Vec<String>)
    ensures
        r@.len() == 3,
        r@[0]@ == spec_legacy_window_id(monitor_index as nat),
        r@[1]@ == spec_window_id(monitor_index as nat, true),
        r@[2]@ == spec_window_id(monitor_index as nat, false),
{
    let mut old_style = String::from_str("monitor_");
    push_decimal(&mut old_style, monitor_index as u64);
    let mut r: Vec<String> = Vec::new();
    r.push(old_style);
    r.push(generate_window_id(monitor_index, true));
    r.push(generate_window_id(monitor_index, false));
    r
}

/// A label names an overlay window of this application, under the
/// current or any legacy naming scheme.
pub open spec fn is_overlay_label(l: Seq<char>) -> bool {
    has_prefix(l, "monitor_"@) || has_prefix(l, "main_monitor_"@) || has_prefix(
        l,
        "secondary_monitor_"@,
    )
}

/// The monitor's rectangle stays within the signed 32-bit coordinate
/// space with room for half a default window on each side; every
/// position the library computes for it then fits an `i32`.
pub open spec fn monitor_in_range(m: MonitorInfo) -> bool {
    &&& m.x + m.width <= i32::MAX
    &&& m.y + m.height <= i32::MAX
    &&& i32::MIN + MIN_WINDOW_SIZE <= m.x
    &&& i32::MIN + MIN_WINDOW_SIZE <= m.y
}

/// Signed halving that rounds toward zero, as the host language's
/// division does.
pub open spec fn half_toward_zero(a: int) -> int {
    if a >= 0 {
        a / 2
    } else {
        0 - ((0 - a) / 2)
    }
}

/// The default, centered position of a fresh overlay window on `m`:
/// the monitor's origin plus half the space the window leaves free.
pub open spec fn spec_centered(m: MonitorInfo) -> (int, int) {
    (
        m.x + half_toward_zero(m.width - DEFAULT_WINDOW_SIZE),
        m.y + half_toward_zero(m.height - DEFAULT_WINDOW_SIZE),
    )
}

/// Computes the centered default position of an overlay window on `m`.
pub fn centered_position(m: &MonitorInfo) -> (r: (i32, i32))
    requires
        monitor_in_range(*m),
    ensures
        (r.0 as int, r.1 as int) == spec_centered(*m),
{
    let x = centered_coord(m.x, m.width);
    let y = centered_coord(m.y, m.height);
    (x, y)
}

/// One axis of the centered default position.
fn centered_coord(origin: i32, extent: u32) -> (r: i32)
    requires
        origin + extent <= i32::MAX,
        i32::MIN + MIN_WINDOW_SIZE <= origin,
    ensures
        r as int == origin + half_toward_zero(extent - DEFAULT_WINDOW_SIZE),
{
    if extent >= DEFAULT_WINDOW_SIZE {
        let slack: u32 = (extent - DEFAULT_WINDOW_SIZE) / 2;
        proof {
            assert(origin + slack <= origin + extent);
        }
        let r: i64 = origin as i64 + slack as i64;
        r as i32
    } else {
        let slack: u32 = (DEFAULT_WINDOW_SIZE - extent) / 2;
        proof {
            assert(slack <= MIN_WINDOW_SIZE);
        }
        let r: i64 = origin as i64 - slack as i64;
        r as i32
    }
}

/// A remembered position is trusted only while its whole rectangle
/// still lies within the monitor it was recorded for.
pub open spec fn position_within(p: WindowPosition, m: MonitorInfo) -> bool {
    &&& m.x <= p.x
    &&& m.y <= p.y
    &&& p.x + p.width <= m.x + m.width
    &&& p.y + p.height <= m.y + m.height
}

/// Whether the remembered rectangle still lies within the monitor.
pub fn position_is_within(p: &WindowPosition, m: &MonitorInfo) -> (r: bool)
    ensures
        r == position_within(*p, *m),
{
    let px = p.x as i64;
    let py = p.y as i64;
    m.x as i64 <= px && m.y as i64 <= py && px + p.width as i64 <= m.x as i64 + m.width as i64
        && py + p.height as i64 <= m.y as i64 + m.height as i64
}

/// Where a new overlay window on `m` goes: the remembered position when
/// one is stored and still within the monitor's bounds, the centered
/// default otherwise.
pub open spec fn spec_position_choice(saved: Option<WindowPosition>, m: MonitorInfo) -> (int, int) {
    match saved {
        Some(p) => if position_within(p, m) {
            (p.x as int, p.y as int)
        } else {
            spec_centered(m)
        },
        None => spec_centered(m),
    }
}

/// The window-instance registry: the single source of truth for which
/// overlay windows currently exist.  Slot `i` of the vector holds the
/// instance living on monitor `i`, if any.
pub struct InstanceRegistry {
    pub entries: Vec<Option<WindowInstance>>,
}

/// The instances of `entries` that exist, in slot order.
pub open spec fn live_seq_of(entries: Seq<Option<WindowInstance>>) -> Seq<WindowInstance>
    decreases entries.len(),
{
    if entries.len() == 0 {
        Seq::empty()
    } else {
        let rest = live_seq_of(entries.drop_last());
        match entries.last() {
            Some(w) => rest.push(w),
            None => rest,
        }
    }
}

impl InstanceRegistry {
    /// The instance registered for `slot`, if any.
    pub open spec fn slot_entry(self, slot: int) -> Option<WindowInstance> {
        if 0 <= slot < self.entries@.len() {
            self.entries@[slot]
        } else {
            None
        }
    }

    /// Every registered instance belongs to the slot it is filed
    /// under and bears that slot's canonical identifier.
    pub open spec fn wf(self) -> bool {
        forall|i: int|
            0 <= i < self.entries@.len() && self.entries@[i] is Some
                ==> (#[trigger] self.entries@[i])->Some_0.monitor_index == i
                && self.entries@[i]->Some_0.id@ == spec_window_id(
                i as nat,
                self.entries@[i]->Some_0.is_primary,
            )
    }

    /// All registered instances, in slot order.
    pub open spec fn live_seq(self) -> Seq<WindowInstance> {
        live_seq_of(self.entries@)
    }

    /// An empty registry.
    pub fn new() -> (r: Self)
        ensures
            r.wf(),
            forall|k: int| r.slot_entry(k) is None,
            r.live_seq() == Seq::<WindowInstance>::empty(),
    {
        let r = InstanceRegistry { entries: Vec::new() };
        proof {
            assert(r.live_seq() == Seq::<WindowInstance>::empty());
        }
        r
    }

    /// Looks up the instance registered for a slot.
    pub fn get(&self, slot: usize) -> (r: Option<WindowInstance>)
        ensures
            r == self.slot_entry(slot as int),
    {
        if slot < self.entries.len() {
            match &self.entries[slot] {
                Some(w) => Some(w.clone()),
                None => None,
            }
        } else {
            None
        }
    }

    /// Registers `inst` for `slot`, replacing whatever was there.
    pub fn put(&mut self, slot: usize, inst: WindowInstance)
        requires
            old(self).wf(),
            inst.monitor_index == slot,
            inst.id@ == spec_window_id(slot as nat, inst.is_primary),
        ensures
            final(self).wf(),
            final(self).slot_entry(slot as int) == Some(inst),
            forall|k: int| k != slot ==> final(self).slot_entry(k) == old(self).slot_entry(k),
    {
        while self.entries.len() <= slot
            invariant
                self.wf(),
                forall|k: int| self.slot_entry(k) == old(self).slot_entry(k),
            decreases slot + 1 - self.entries.len(),
        {
            self.entries.push(None);
        }
        self.entries.set(slot, Some(inst));
    }

    /// Removes and returns the instance registered for a slot, if any.
    pub fn remove(&mut self, slot: usize) -> (r: Option<WindowInstance>)
        requires
            old(self).wf(),
        ensures
            final(self).wf(),
            r == old(self).slot_entry(slot as int),
            final(self).slot_entry(slot as int) is None,
            forall|k: int| k != slot ==> final(self).slot_entry(k) == old(self).slot_entry(k),
    {
        if slot < self.entries.len() {
            let r = match &self.entries[slot] {
                Some(w) => Some(w.clone()),
                None => None,
            };
            self.entries.set(slot, None);
            r
        } else {
            None
        }
    }

    /// The lowest slot at or after `from` whose instance bears the
    /// identifier `id`, if any.
    pub open spec fn find_by_id_from(entries: Seq<Option<WindowInstance>>, id: Seq<char>, from: nat) -> Option<int>
        decreases entries.len() - from when from <= entries.len()
    {
        if from >= entries.len() {
            None
        } else if entries[from as int] is Some && entries[from as int]->Some_0.id@ == id {
            Some(from as int)
        } else {
            Self::find_by_id_from(entries, id, from + 1)
        }
    }

    /// Removes the instance bearing identifier `id`, returning the slot
    /// it occupied; leaves the registry unchanged when no instance
    /// bears that identifier.
    pub fn remove_by_identifier(&mut self, id: &String) -> (r: Option<usize>)
        requires
            old(self).wf(),
        ensures
            final(self).wf(),
            match r {
                Some(slot) => {
                    &&& Self::find_by_id_from(old(self).entries@, id@, 0) == Some(slot as int)
                    &&& old(self).slot_entry(slot as int) is Some
                    &&& old(self).slot_entry(slot as int)->Some_0.id@ == id@
                    &&& final(self).slot_entry(slot as int) is None
                    &&& forall|k: int|
                        k != slot ==> final(self).slot_entry(k) == old(self).slot_entry(k)
                },
                None => {
                    &&& Self::find_by_id_from(old(self).entries@, id@, 0) is None
                    &&& *final(self) == *old(self)
                },
            },
    {
        let mut i: usize = 0;
        while i < self.entries.len()
            invariant
                self == old(self),
                old(self).wf(),
                i <= self.entries@.len(),
                Self::find_by_id_from(self.entries@, id@, 0) == Self::find_by_id_from(
                    self.entries@,
                    id@,
                    i as nat,
                ),
            decreases self.entries@.len() - i,
        {
            let hit = match &self.entries[i] {
                Some(w) => w.id.eq(id),
                None => false,
            };
            if hit {
                proof {
                    assert(Self::find_by_id_from(self.entries@, id@, i as nat) == Some(i as int));
                }
                self.entries.set(i, None);
                proof {
                    assert forall|j: int|
                        0 <= j < self.entries@.len() && self.entries@[j] is Some implies (
                        #[trigger] self.entries@[j])->Some_0.monitor_index == j
                        && self.entries@[j]->Some_0.id@ == spec_window_id(
                        j as nat,
                        self.entries@[j]->Some_0.is_primary,
                    ) by {
                        if j != i {
                            assert(self.entries@[j] == old(self).entries@[j]);
                        }
                    }
                }
                return Some(i);
            }
            i = i + 1;
        }
        None
    }

    /// A snapshot of all registered instances, in slot order.
    pub fn list_all(&self) -> (r: Vec<WindowInstance>)
        ensures
            r@ == self.live_seq(),
    {
        let mut r: Vec<WindowInstance> = Vec::new();
        let mut i: usize = 0;
        proof {
            assert(r@ =~= live_seq_of(self.entries@.take(0)));
        }
        while i < self.entries.len()
            invariant
                i <= self.entries@.len(),
                r@ == live_seq_of(self.entries@.take(i as int)),
            decreases self.entries@.len() - i,
        {
            proof {
                assert(self.entries@.take(i as int + 1).drop_last() =~= self.entries@.take(
                    i as int,
                ));
                assert(self.entries@.take(i as int + 1).last() == self.entries@[i as int]);
            }
            match &self.entries[i] {
                Some(w) => r.push(w.clone()),
                None => (),
            }
            i = i + 1;
        }
        proof {
            assert(self.entries@.take(self.entries@.len() as int) =~= self.entries@);
        }
        r
    }

    /// Empties the registry.
    pub fn clear_all(&mut self)
        ensures
            final(self).wf(),
            forall|k: int| final(self).slot_entry(k) is None,
            final(self).live_seq() == Seq::<WindowInstance>::empty(),
    {
        self.entries.clear();
        proof {
            assert(final(self).live_seq() == Seq::<WindowInstance>::empty());
        }
    }
}

/// The remembered last-known window position per monitor slot.
pub struct PositionStore {
    pub entries: Vec<Option<WindowPosition>>,
}

impl PositionStore {
    /// The position remembered for `slot`, if any.
    pub open spec fn slot_pos(self, slot: int) -> Option<WindowPosition> {
        if 0 <= slot < self.entries@.len() {
            self.entries@[slot]
        } else {
            None
        }
    }

    /// An empty store.
    pub fn new() -> (r: Self)
        ensures
            forall|k: int| r.slot_pos(k) is None,
    {
        PositionStore { entries: Vec::new() }
    }

    /// Remembers `pos` for `slot`, overwriting any earlier entry.
    pub fn save(&mut self, slot: usize, pos: WindowPosition)
        ensures
            final(self).slot_pos(slot as int) == Some(pos),
            forall|k: int| k != slot ==> final(self).slot_pos(k) == old(self).slot_pos(k),
    {
        while self.entries.len() <= slot
            invariant
                forall|k: int| self.slot_pos(k) == old(self).slot_pos(k),
            decreases slot + 1 - self.entries.len(),
        {
            self.entries.push(None);
        }
        self.entries.set(slot, Some(pos));
    }

    /// The position remembered for `slot`, if any.
    pub fn get(&self, slot: usize) -> (r: Option<WindowPosition>)
        ensures
            r == self.slot_pos(slot as int),
    {
        if slot < self.entries.len() {
            self.entries[slot]
        } else {
            None
        }
    }

    /// Forgets every remembered position.
    pub fn clear_all(&mut self)
        ensures
            forall|k: int| final(self).slot_pos(k) is None,
    {
        self.entries.clear();
    }
}

} // verus!
