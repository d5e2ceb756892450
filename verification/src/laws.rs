//! The library's laws: guarantees that tie several operations
//! together, proved once and for all over the spec functions the
//! operations' contracts use.

use vstd::prelude::*;

use crate::display::live_seq_of;
use crate::display::position_within;
use crate::display::spec_centered;
use crate::display::spec_position_choice;
use crate::display::spec_window_id;
use crate::display::InstanceRegistry;
use crate::display::MonitorInfo;
use crate::display::WindowInstance;
use crate::display::WindowPosition;
use crate::manager::DisplayState;

verus! {

/// How many instances of `ws` live on monitor `slot`.
pub open spec fn count_for_slot(ws: Seq<WindowInstance>, slot: int) -> nat
    decreases ws.len(),
{
    if ws.len() == 0 {
        0
    } else {
        count_for_slot(ws.drop_last(), slot) + if ws.last().monitor_index == slot {
            1nat
        } else {
            0nat
        }
    }
}

/// In a well-formed registry, the listing holds as many instances for
/// a slot as the slot's entry: one when it is filled, none when it is
/// empty.
proof fn lemma_count_matches_entry(entries: Seq<Option<WindowInstance>>, slot: int)
    requires
        forall|i: int|
            0 <= i < entries.len() && entries[i] is Some ==> (
            #[trigger] entries[i])->Some_0.monitor_index == i,
    ensures
        count_for_slot(live_seq_of(entries), slot) == if 0 <= slot < entries.len()
            && entries[slot] is Some {
            1nat
        } else {
            0nat
        },
    decreases entries.len(),
{
    if entries.len() > 0 {
        let prefix = entries.drop_last();
        assert(forall|i: int| 0 <= i < prefix.len() ==> prefix[i] == entries[i]);
        lemma_count_matches_entry(prefix, slot);
        match entries.last() {
            Some(w) => {
                assert(entries[entries.len() - 1] is Some);
                assert(w.monitor_index == entries.len() - 1);
                assert(live_seq_of(entries) == live_seq_of(prefix).push(w));
                assert(live_seq_of(entries).drop_last() =~= live_seq_of(prefix));
            },
            None => {
                assert(live_seq_of(entries) == live_seq_of(prefix));
            },
        }
    }
}

/// After a window was created on a slot (so the slot's registry entry
/// is filled), the instance listing contains exactly one instance for
/// that slot.
pub proof fn lemma_listing_has_exactly_one(reg: InstanceRegistry, slot: int)
    requires
        reg.wf(),
        reg.slot_entry(slot) is Some,
    ensures
        count_for_slot(reg.live_seq(), slot) == 1,
{
    lemma_count_matches_entry(reg.entries@, slot);
}

/// After the window of a slot was closed (so the slot's registry entry
/// is empty), the instance listing contains no instance for that slot,
/// whether or not the underlying window could actually be closed.
pub proof fn lemma_listing_has_none(reg: InstanceRegistry, slot: int)
    requires
        reg.wf(),
        reg.slot_entry(slot) is None,
    ensures
        count_for_slot(reg.live_seq(), slot) == 0,
{
    lemma_count_matches_entry(reg.entries@, slot);
}

/// Creating a window on a slot is idempotent: while the slot's entry
/// is registered, its identifier is the canonical identifier of the
/// slot and its role — the very identifier a repeated creation request
/// computes and answers over the fast path — and the listing never
/// holds a second instance for the slot.
pub proof fn lemma_create_idempotent(st: DisplayState, slot: int)
    requires
        st.wf(),
        st.instances.slot_entry(slot) is Some,
    ensures
        st.instances.slot_entry(slot)->Some_0.id@ == spec_window_id(
            slot as nat,
            st.instances.slot_entry(slot)->Some_0.is_primary,
        ),
        count_for_slot(st.instances.live_seq(), slot) == 1,
{
    lemma_listing_has_exactly_one(st.instances, slot);
}

/// Identifiers are never shared: the canonical identifiers of two
/// different slots differ, whatever the roles; so while an instance is
/// registered, its identifier cannot also name a window of another
/// slot.
pub proof fn lemma_window_ids_unique(a: nat, pa: bool, b: nat, pb: bool)
    requires
        a != b || pa != pb,
    ensures
        spec_window_id(a, pa) != spec_window_id(b, pb),
{
    crate::text::lemma_decimal_chars_value(a);
    crate::text::lemma_decimal_chars_value(b);
    reveal_strlit("main_monitor_");
    reveal_strlit("secondary_monitor_");
    let ia = spec_window_id(a, pa);
    let ib = spec_window_id(b, pb);
    if ia == ib {
        if pa != pb {
            // The roles' prefixes already disagree on the first
            // character.
            assert(ia[0] != ib[0]);
        } else {
            let plen: int = if pa {
                "main_monitor_"@.len() as int
            } else {
                "secondary_monitor_"@.len() as int
            };
            assert(ia.skip(plen) =~= crate::text::decimal_chars(a));
            assert(ib.skip(plen) =~= crate::text::decimal_chars(b));
            crate::text::lemma_decimal_chars_injective(a, b);
        }
    }
}

/// In a well-formed registry no two live instances share an
/// identifier.
pub proof fn lemma_registered_ids_unique(reg: InstanceRegistry, i: int, j: int)
    requires
        reg.wf(),
        i != j,
        reg.slot_entry(i) is Some,
        reg.slot_entry(j) is Some,
    ensures
        reg.slot_entry(i)->Some_0.id@ != reg.slot_entry(j)->Some_0.id@,
{
    let wi = reg.slot_entry(i)->Some_0;
    let wj = reg.slot_entry(j)->Some_0;
    lemma_window_ids_unique(i as nat, wi.is_primary, j as nat, wj.is_primary);
}

/// After a full reset no position is remembered, so window creation on
/// any slot of any monitor falls back to the centered default, never a
/// pre-reset position.
pub proof fn lemma_reset_positions_use_default(st: DisplayState, slot: int, m: MonitorInfo)
    requires
        forall|k: int| st.positions.slot_pos(k) is None,
    ensures
        spec_position_choice(st.positions.slot_pos(slot), m) == spec_centered(m),
{
}

/// A remembered position that no longer lies within the current bounds
/// of its monitor is never reused: the centered default is computed
/// instead.
pub proof fn lemma_stale_position_never_reused(saved: WindowPosition, m: MonitorInfo)
    requires
        !position_within(saved, m),
    ensures
        spec_position_choice(Some(saved), m) == spec_centered(m),
{
}

} // verus!
