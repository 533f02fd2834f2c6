//! The compositor's state as contracts speak of it: what a control event
//! and a tick do to it, and what holds of it throughout.

use vstd::prelude::*;
use crate::animation::NUM_ANIMATIONS;
use crate::config::default_config;
use crate::config::edited;
use crate::config::EntityConfig;
use crate::entity::color_of;
use crate::entity::dead_at;
use crate::entity::released;
use crate::entity::shade_at;
use crate::entity::spawned;
use crate::entity::Entity;
use crate::entity::Hsv;
use crate::entity::Shade;
use crate::entity::RELEASE_TICKS;
use crate::events::ControlEvent;
use crate::events::KNOB_ANIMATION;
use crate::fixed::SCALE;
use crate::status::Markers;
use crate::status::TOUCH_ANIMATION;
use crate::status::TOUCH_DURATION;
use crate::status::TOUCH_RATE;
use crate::status::TOUCH_THICKNESS;
use crate::table::entry_or_default;
use crate::table::with_config;
use crate::table::with_entry;
use crate::table::PADS;

verus! {

/// How many cells a row or a column of the grid has.
pub const SIDE: u8 = 8;

/// The state of the compositor, as contracts speak of it.
pub struct Scene {
    /// The current tick.
    pub tick: u64,
    /// The pad whose configuration the knobs edit.
    pub active: u8,
    /// Whether pad presses paint the active configuration onto pads.
    pub assigning: bool,
    /// The parameter table.
    pub table: Map<u8, EntityConfig>,
    /// The entities that are keyed by the pad that spawned them.
    pub held: Map<u8, Entity>,
    /// The entities that are keyed by a fresh identity, oldest first.
    pub momentary: Seq<(u64, Entity)>,
    /// The identity that was given out last.
    pub fresh: u64,
    /// The knobs that are being touched.
    pub focused: Set<u8>,
}

/// One entity's contribution to a cell.
#[derive(Clone, Copy, Debug, PartialEq, Eq, Structural)]
pub struct Layer {
    pub entity: Entity,
    pub shade: Shade,
}

/// The scene that a compositor starts from.
pub open spec fn initial(table: Map<u8, EntityConfig>) -> Scene {
    Scene {
        tick: 0,
        active: 0,
        assigning: false,
        table,
        held: Map::empty(),
        momentary: Seq::empty(),
        fresh: 0,
        focused: Set::empty(),
    }
}

/// What always holds of a scene.
pub open spec fn coherent(s: Scene) -> bool {
    &&& s.active < PADS
    &&& forall|pad: u8| s.table.contains_key(pad) ==> pad < PADS
    &&& forall|pad: u8| s.held.contains_key(pad) ==> pad < PADS
    &&& forall|i: int|
        0 <= i < s.momentary.len() ==> !(#[trigger] s.momentary[i]).1.gated && s.momentary[i].0
            <= s.fresh
    &&& forall|i: int, j: int|
        0 <= i < j < s.momentary.len() ==> (#[trigger] s.momentary[i]).0 < (
        #[trigger] s.momentary[j]).0
}

/// The scene after one step of a parameter knob: the active pad's entry,
/// created from the default where there was none, is edited in one field.
pub open spec fn knob_turned(s: Scene, knob: u8, clockwise: bool) -> Scene {
    Scene {
        table: with_config(
            s.table,
            s.active,
            edited(entry_or_default(s.table, s.active), knob, clockwise),
        ),
        ..s
    }
}

/// The scene after a knob was touched or let go.
pub open spec fn knob_touched(s: Scene, knob: u8, pressed: bool) -> Scene {
    Scene {
        focused: if pressed {
            s.focused.insert(knob)
        } else {
            s.focused.remove(knob)
        },
        ..s
    }
}

/// The table after `pad` was pressed: the active pad has an entry, and
/// where `pad` had none, or in assigning mode, its entry is the active
/// pad's.
pub open spec fn pressed_table(s: Scene, pad: u8) -> Map<u8, EntityConfig> {
    let seen = with_entry(s.table, s.active);
    if !seen.contains_key(pad) || s.assigning {
        with_config(seen, pad, entry_or_default(s.table, s.active))
    } else {
        seen
    }
}

/// The entity that a press of `pad` spawns.
pub open spec fn pad_entity(s: Scene, pad: u8) -> Entity {
    spawned(pressed_table(s, pad)[pad], s.tick, pad % SIDE, pad / SIDE)
}

/// The scene after `pad` was pressed: the pad is the active one, and its
/// entity is live, keyed by the pad if gated and by a fresh identity if
/// not.
pub open spec fn pad_pressed(s: Scene, pad: u8) -> Scene {
    let e = pad_entity(s, pad);
    if e.gated {
        Scene { table: pressed_table(s, pad), active: pad, held: s.held.insert(pad, e), ..s }
    } else {
        Scene {
            table: pressed_table(s, pad),
            active: pad,
            momentary: s.momentary.push(((s.fresh + 1) as u64, e)),
            fresh: (s.fresh + 1) as u64,
            ..s
        }
    }
}

/// The scene after `pad` was let go: the entity keyed by it, if any, is
/// released.
pub open spec fn pad_released(s: Scene, pad: u8) -> Scene {
    if s.held.contains_key(pad) {
        Scene { held: s.held.insert(pad, released(s.held[pad], s.tick)), ..s }
    } else {
        s
    }
}

/// The scene after `event`. Pad events off the grid change nothing.
pub open spec fn applied(s: Scene, event: ControlEvent) -> Scene {
    match event {
        ControlEvent::KnobTurn { knob, clockwise } => knob_turned(s, knob, clockwise),
        ControlEvent::KnobTouch { knob, pressed } => knob_touched(s, knob, pressed),
        ControlEvent::PadPress { pad } => if pad < PADS {
            pad_pressed(s, pad)
        } else {
            s
        },
        ControlEvent::PadRelease { pad } => pad_released(s, pad),
        ControlEvent::AssignMode { pressed } => Scene { assigning: pressed, ..s },
        ControlEvent::Ignored => s,
    }
}

/// The tick after `tick`; the last tick of all is its own successor.
pub open spec fn next_tick(tick: u64) -> u64 {
    if tick < u64::MAX {
        (tick + 1) as u64
    } else {
        tick
    }
}

/// The scene after one tick: every entity that is dead at the current
/// tick is gone, the others stay as they are, and the tick advances.
pub open spec fn stepped(s: Scene) -> Scene {
    Scene {
        held: Map::new(
            |pad: u8| s.held.contains_key(pad) && !dead_at(s.held[pad], s.tick),
            |pad: u8| s.held[pad],
        ),
        momentary: s.momentary.filter(|m: (u64, Entity)| !dead_at(m.1, s.tick)),
        tick: next_tick(s.tick),
        ..s
    }
}

/// The entities keyed by the pads below `n`, in the order of their pads.
pub open spec fn held_below(held: Map<u8, Entity>, n: nat) -> Seq<Entity>
    decreases n,
{
    if n == 0 {
        Seq::empty()
    } else {
        let pad = (n - 1) as u8;
        if held.contains_key(pad) {
            held_below(held, (n - 1) as nat).push(held[pad])
        } else {
            held_below(held, (n - 1) as nat)
        }
    }
}

/// The live entities: those keyed by a pad, in the order of their pads,
/// then those keyed by a fresh identity, oldest first.
pub open spec fn live(s: Scene) -> Seq<Entity> {
    held_below(s.held, PADS as nat) + s.momentary.map_values(|m: (u64, Entity)| m.1)
}

/// What entity `e` contributes to cell `(x, y)` at tick `t`.
pub open spec fn layer_of(e: Entity, t: u64, x: u8, y: u8) -> Layer {
    Layer { entity: e, shade: shade_at(e, t, x, y) }
}

/// What the live entities contribute to cell `(x, y)` at the current
/// tick, one layer for each.
pub open spec fn layers_at(s: Scene, x: u8, y: u8) -> Seq<Layer> {
    live(s).map_values(|e: Entity| layer_of(e, s.tick, x, y))
}

/// The preview color of `pad`: in assigning mode, a pad with an entry
/// shows that entry's hue instead of the live entities.
pub open spec fn preview_at(s: Scene, pad: u8) -> Option<Hsv> {
    if s.assigning && s.table.contains_key(pad) {
        Some(color_of(s.table[pad].hue))
    } else {
        None
    }
}

/// What a cell shows, as contracts speak of it.
pub enum CellSpec {
    Preview { color: Hsv },
    Sum { layers: Seq<Layer> },
}

/// What cell `(x, y)` shows: in assigning mode the preview of its pad,
/// or black where the pad has no entry; otherwise the sum of what the
/// live entities contribute.
pub open spec fn plan_at(s: Scene, x: u8, y: u8) -> CellSpec {
    if s.assigning {
        match preview_at(s, (x + y * SIDE) as u8) {
            Some(color) => CellSpec::Preview { color },
            None => CellSpec::Sum { layers: Seq::empty() },
        }
    } else {
        CellSpec::Sum { layers: layers_at(s, x, y) }
    }
}

/// The palette entry that holds the color of cell `(x, y)`: one more than
/// the cell's pad.
pub open spec fn palette_index(x: u8, y: u8) -> int {
    1 + x + y * SIDE
}

/// The cell that comes at place `k` when the grid is walked column by
/// column.
pub open spec fn cell_at(k: int) -> (u8, u8) {
    ((k / (SIDE as int)) as u8, (k % (SIDE as int)) as u8)
}

/// The mark beside `knob` in the status text.
pub open spec fn marker_of(s: Scene, knob: u8) -> char {
    if s.focused.contains(knob) {
        '*'
    } else {
        ' '
    }
}

/// The marks of the status text's four lines.
pub open spec fn markers_of(s: Scene) -> Markers {
    Markers {
        animation: marker_of(s, TOUCH_ANIMATION),
        thickness: marker_of(s, TOUCH_THICKNESS),
        rate: marker_of(s, TOUCH_RATE),
        duration: marker_of(s, TOUCH_DURATION),
    }
}

/// Filtering a sequence with one more item keeps that item exactly where
/// it passes the filter.
pub proof fn lemma_filter_push<A>(s: Seq<A>, x: A, pred: spec_fn(A) -> bool)
    ensures
        s.push(x).filter(pred) == (if pred(x) {
            s.filter(pred).push(x)
        } else {
            s.filter(pred)
        }),
{
    reveal(Seq::filter);
    assert(s.push(x).drop_last() =~= s);
}

/// Whether the identities of `spawns` strictly increase.
pub open spec fn ascending(spawns: Seq<(u64, Entity)>) -> bool {
    forall|i: int, j: int|
        0 <= i < j < spawns.len() ==> (#[trigger] spawns[i]).0 < (#[trigger] spawns[j]).0
}

/// Filtering keeps members and their order: what passes the filter was
/// there before, and identities that increased still do.
proof fn lemma_filter_ascending(spawns: Seq<(u64, Entity)>, pred: spec_fn((u64, Entity)) -> bool)
    requires
        ascending(spawns),
    ensures
        ascending(spawns.filter(pred)),
        forall|i: int|
            0 <= i < spawns.filter(pred).len() ==> spawns.contains(
                #[trigger] spawns.filter(pred)[i],
            ) && pred(spawns.filter(pred)[i]),
    decreases spawns.len(),
{
    reveal(Seq::filter);
    if spawns.len() > 0 {
        let rest = spawns.drop_last();
        let last = spawns.last();
        lemma_filter_ascending(rest, pred);
        let kept = rest.filter(pred);
        assert forall|i: int| 0 <= i < kept.len() implies spawns.contains(#[trigger] kept[i])
            && kept[i].0 < last.0 by {
            let k = choose|k: int| 0 <= k < rest.len() && rest[k] == kept[i];
            assert(spawns[k] == kept[i]);
            assert(spawns[spawns.len() - 1] == last);
        }
        if pred(last) {
            assert(spawns[spawns.len() - 1] == last);
            assert(spawns.filter(pred) == kept.push(last));
        } else {
            assert(spawns.filter(pred) == kept);
        }
    }
}

/// In a coherent scene no two live entities share a slot: the entities
/// keyed by a fresh identity have identities of their own.
pub proof fn lemma_identities_distinct(s: Scene, i: int, j: int)
    requires
        coherent(s),
        0 <= i < s.momentary.len(),
        0 <= j < s.momentary.len(),
        i != j,
    ensures
        s.momentary[i].0 != s.momentary[j].0,
{
    if i < j {
        assert(s.momentary[i].0 < s.momentary[j].0);
    } else {
        assert(s.momentary[j].0 < s.momentary[i].0);
    }
}

/// Every control event keeps a scene coherent, as long as an identity is
/// left to give out.
pub proof fn lemma_applied_coherent(s: Scene, event: ControlEvent)
    requires
        coherent(s),
        s.fresh < u64::MAX,
    ensures
        coherent(applied(s, event)),
{
}

/// A tick keeps a scene coherent.
pub proof fn lemma_stepped_coherent(s: Scene)
    requires
        coherent(s),
    ensures
        coherent(stepped(s)),
{
    let alive = |m: (u64, Entity)| !dead_at(m.1, s.tick);
    lemma_filter_ascending(s.momentary, alive);
    let kept = s.momentary.filter(alive);
    assert forall|i: int| 0 <= i < kept.len() implies !(#[trigger] kept[i]).1.gated && kept[i].0
        <= s.fresh by {
        let k = choose|k: int| 0 <= k < s.momentary.len() && s.momentary[k] == kept[i];
        assert(!s.momentary[k].1.gated);
    }
}

/// After a tick, no entity that was dead at it is left, and every entity
/// that was not is still there, as it was.
pub proof fn lemma_step_retires_the_dead(s: Scene)
    ensures
        forall|pad: u8| #[trigger]
            stepped(s).held.contains_key(pad) <==> s.held.contains_key(pad) && !dead_at(
                s.held[pad],
                s.tick,
            ),
        forall|pad: u8| #[trigger]
            stepped(s).held.contains_key(pad) ==> stepped(s).held[pad] == s.held[pad],
        forall|i: int|
            0 <= i < stepped(s).momentary.len() ==> s.momentary.contains(
                #[trigger] stepped(s).momentary[i],
            ) && !dead_at(stepped(s).momentary[i].1, s.tick),
        forall|i: int|
            0 <= i < s.momentary.len() && !dead_at(s.momentary[i].1, s.tick) ==> stepped(
                s,
            ).momentary.contains(#[trigger] s.momentary[i]),
{
    let alive = |m: (u64, Entity)| !dead_at(m.1, s.tick);
    let kept = s.momentary.filter(alive);
    assert(stepped(s).momentary == kept);
    assert forall|i: int| 0 <= i < kept.len() implies s.momentary.contains(#[trigger] kept[i])
        && !dead_at(kept[i].1, s.tick) by {
        s.momentary.lemma_filter_pred(alive, i);
        s.momentary.lemma_filter_contains_rev(alive, kept[i]);
    }
    assert forall|i: int| 0 <= i < s.momentary.len() && !dead_at(s.momentary[i].1, s.tick)
        implies kept.contains(#[trigger] s.momentary[i]) by {
        s.momentary.lemma_filter_contains(alive, i);
    }
}

/// A gated entity outlives every tick: only a release lets it go.
pub proof fn lemma_step_keeps_gated(s: Scene, pad: u8)
    requires
        s.held.contains_key(pad),
        s.held[pad].gated,
    ensures
        stepped(s).held.contains_key(pad),
        stepped(s).held[pad] == s.held[pad],
{
}

/// A released pad's entity is gone after the tick that is
/// `RELEASE_TICKS` past the release, and not before.
pub proof fn lemma_released_pad_expires(s: Scene, pad: u8, later: Scene)
    requires
        s.held.contains_key(pad),
        s.held[pad].gated,
        later.held.contains_key(pad),
        later.held[pad] == pad_released(s, pad).held[pad],
    ensures
        stepped(later).held.contains_key(pad) <==> later.tick < s.tick + RELEASE_TICKS,
{
    assert(later.tick * SCALE >= (s.tick + RELEASE_TICKS) * SCALE <==> later.tick >= s.tick
        + RELEASE_TICKS) by (nonlinear_arith)
        requires
            SCALE == 1_000_000,
    ;
}

/// A press of a pad without an entry, while the active configuration is
/// the default, gives the pad the default configuration and spawns the
/// default entity on the pad's cell, under a fresh identity.
pub proof fn lemma_press_unassigned_pad(s: Scene, pad: u8)
    requires
        coherent(s),
        pad < PADS,
        !s.table.contains_key(pad),
        entry_or_default(s.table, s.active) == default_config(),
    ensures
        pad_pressed(s, pad).table.contains_key(pad),
        pad_pressed(s, pad).table[pad] == default_config(),
        pad_pressed(s, pad).active == pad,
        pad_pressed(s, pad).held == s.held,
        pad_pressed(s, pad).momentary == s.momentary.push(
            ((s.fresh + 1) as u64, spawned(default_config(), s.tick, pad % SIDE, pad / SIDE)),
        ),
        live(pad_pressed(s, pad)) == live(s).push(
            spawned(default_config(), s.tick, pad % SIDE, pad / SIDE),
        ),
{
    let e = spawned(default_config(), s.tick, pad % SIDE, pad / SIDE);
    let after = pad_pressed(s, pad);
    let entity_of = |m: (u64, Entity)| m.1;
    assert(after.momentary.map_values(entity_of) =~= s.momentary.map_values(entity_of).push(e));
    assert(live(after) =~= live(s).push(e));
}

/// A press of a pad spawns exactly one entity: a gated one takes the
/// pad's slot, replacing what was keyed there, and a momentary one joins
/// the others under an identity that none of them has.
pub proof fn lemma_press_spawns_one(s: Scene, pad: u8)
    requires
        coherent(s),
        pad < PADS,
        s.fresh < u64::MAX,
    ensures
        pad_entity(s, pad).gated ==> pad_pressed(s, pad).held == s.held.insert(
            pad,
            pad_entity(s, pad),
        ) && pad_pressed(s, pad).momentary == s.momentary,
        !pad_entity(s, pad).gated ==> pad_pressed(s, pad).held == s.held && pad_pressed(
            s,
            pad,
        ).momentary.len() == s.momentary.len() + 1 && pad_pressed(s, pad).momentary.last().1
            == pad_entity(s, pad) && forall|i: int|
            0 <= i < s.momentary.len() ==> (#[trigger] s.momentary[i]).0 < pad_pressed(
                s,
                pad,
            ).momentary.last().0,
{
}

/// Turned back from selector zero, the animation knob leaves the active
/// pad with the catalog's last selector, never with a selector below
/// zero.
pub proof fn lemma_animation_knob_turned_back(s: Scene)
    requires
        coherent(s),
        entry_or_default(s.table, s.active).kind == 0,
    ensures
        knob_turned(s, KNOB_ANIMATION, false).table.contains_key(s.active),
        knob_turned(s, KNOB_ANIMATION, false).table[s.active].kind == NUM_ANIMATIONS - 1,
{
}

/// Edits to the table leave the live entities as they are: an entity
/// keeps the configuration it was spawned with.
pub proof fn lemma_edits_spare_the_live(s: Scene, knob: u8, clockwise: bool)
    ensures
        live(knob_turned(s, knob, clockwise)) == live(s),
        knob_turned(s, knob, clockwise).held == s.held,
        knob_turned(s, knob, clockwise).momentary == s.momentary,
{
}

} // verus!
