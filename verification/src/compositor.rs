//! The compositor: the live entities, the parameter table, and how
//! control events and ticks change them.

use vstd::prelude::*;
use crate::config::EntityConfig;
use crate::entity::dead_at;
use crate::entity::released;
use crate::entity::Entity;
use crate::entity::Hsv;
use crate::events::classify;
use crate::events::event_of;
use crate::events::ControlEvent;
use crate::events::Message;
use crate::fixed::Fixed;
use crate::scene::applied;
use crate::scene::cell_at;
use crate::scene::coherent;
use crate::scene::held_below;
use crate::scene::initial;
use crate::scene::knob_touched;
use crate::scene::knob_turned;
use crate::scene::layer_of;
use crate::scene::layers_at;
use crate::scene::lemma_filter_push;
use crate::scene::live;
use crate::scene::marker_of;
use crate::scene::markers_of;
use crate::scene::pad_pressed;
use crate::scene::pad_released;
use crate::scene::palette_index;
use crate::scene::plan_at;
use crate::scene::pressed_table;
use crate::scene::preview_at;
use crate::scene::stepped;
use crate::scene::CellSpec;
use crate::scene::Layer;
use crate::scene::Scene;
use crate::scene::SIDE;
use crate::status::status_of;
use crate::status::status_text;
use crate::status::Markers;
use crate::status::TOUCH_ANIMATION;
use crate::status::TOUCH_DURATION;
use crate::status::TOUCH_RATE;
use crate::status::TOUCH_THICKNESS;
use crate::table::entry_or_default;
use crate::table::with_entry;
use crate::table::ParameterTable;
use crate::table::PADS;
use crate::wire::decode;
use crate::wire::event_in;

verus! {

/// What a cell shows: a preview color, or the sum of the layers.
#[derive(Debug, PartialEq, Eq)]
pub enum CellPlan {
    /// The flat color of the pad's entry.
    Preview { color: Hsv },
    /// The sum of these contributions; black where there are none.
    Sum { layers: Vec<Layer> },
}

impl View for CellPlan {
    type V = CellSpec;

    open spec fn view(&self) -> CellSpec {
        match *self {
            CellPlan::Preview { color } => CellSpec::Preview { color },
            CellPlan::Sum { layers } => CellSpec::Sum { layers: layers@ },
        }
    }
}

/// The compositor: it owns the live entities and the parameter table.
pub struct Compositor {
    held: Vec<Option<Entity>>,
    momentary: Vec<(u64, Entity)>,
    fresh: u64,
    tick: u64,
    table: ParameterTable,
    active: u8,
    assigning: bool,
    focused: Vec<bool>,
}

impl Compositor {
    #[verifier::type_invariant]
    spec fn well_formed(&self) -> bool {
        &&& self.held@.len() == PADS
        &&& self.focused@.len() == 256
        &&& self.active < PADS
        &&& forall|i: int|
            0 <= i < self.momentary@.len() ==> !(#[trigger] self.momentary@[i]).1.gated
                && self.momentary@[i].0 <= self.fresh
        &&& forall|i: int, j: int|
            0 <= i < j < self.momentary@.len() ==> (#[trigger] self.momentary@[i]).0 < (
            #[trigger] self.momentary@[j]).0
    }

    /// The invariant, over the state that contracts speak of.
    proof fn lemma_coherent(&self)
        requires
            self.well_formed(),
        ensures
            coherent(self@),
    {
        self.table.lemma_keys_on_grid();
    }

    /// The compositor's state.
    pub closed spec fn view(&self) -> Scene {
        Scene {
            tick: self.tick,
            active: self.active,
            assigning: self.assigning,
            table: self.table@,
            held: Map::new(
                |pad: u8| pad < self.held@.len() && self.held@[pad as int] is Some,
                |pad: u8| self.held@[pad as int]->Some_0,
            ),
            momentary: self.momentary@,
            fresh: self.fresh,
            focused: Set::new(|knob: u8| knob < self.focused@.len() && self.focused@[knob as int]),
        }
    }

    /// A compositor at tick zero that owns `table`: nothing is live, no
    /// knob is touched, and the first pad is the active one.
    pub fn new(table: ParameterTable) -> (r: Compositor)
        ensures
            r@ == initial(table@),
            coherent(r@),
    {
        let mut held: Vec<Option<Entity>> = Vec::new();
        let mut i: u8 = 0;
        while i < PADS
            invariant
                i <= PADS,
                held@.len() == i,
                forall|k: int| 0 <= k < i ==> held@[k] is None,
            decreases PADS - i,
        {
            held.push(None);
            i = i + 1;
        }
        let mut focused: Vec<bool> = Vec::new();
        let mut k: u16 = 0;
        while k < 256
            invariant
                k <= 256,
                focused@.len() == k,
                forall|j: int| 0 <= j < k ==> !focused@[j],
            decreases 256 - k,
        {
            focused.push(false);
            k = k + 1;
        }
        let ghost scene = initial(table@);
        let r = Compositor {
            held,
            momentary: Vec::new(),
            fresh: 0,
            tick: 0,
            table,
            active: 0,
            assigning: false,
            focused,
        };
        proof {
            assert(r@.held =~= scene.held);
            assert(r@.focused =~= scene.focused);
            assert(r@.momentary =~= scene.momentary);
            r.lemma_coherent();
        }
        r
    }

    /// The current tick.
    pub fn tick(&self) -> (r: u64)
        ensures
            r == self@.tick,
    {
        self.tick
    }

    /// The pad whose configuration the knobs edit.
    pub fn active(&self) -> (r: u8)
        ensures
            r == self@.active,
            r < PADS,
    {
        proof {
            use_type_invariant(self);
        }
        self.active
    }

    /// Whether the compositor is in assigning mode.
    pub fn assigning(&self) -> (r: bool)
        ensures
            r == self@.assigning,
    {
        self.assigning
    }

    /// The parameter table.
    pub fn table(&self) -> (r: &ParameterTable)
        ensures
            r@ == self@.table,
    {
        &self.table
    }

    /// The identity that was given out last.
    pub fn last_identity(&self) -> (r: u64)
        ensures
            r == self@.fresh,
    {
        self.fresh
    }

    /// Whether `knob` is being touched.
    pub fn is_focused(&self, knob: u8) -> (r: bool)
        ensures
            r == self@.focused.contains(knob),
    {
        proof {
            use_type_invariant(self);
        }
        self.focused[knob as usize]
    }

    /// The active pad's configuration, created from the default where
    /// the pad had none.
    pub fn get_active_config(&mut self) -> (r: EntityConfig)
        ensures
            r == entry_or_default(old(self)@.table, old(self)@.active),
            final(self)@ == (Scene {
                table: with_entry(old(self)@.table, old(self)@.active),
                ..old(self)@
            }),
            coherent(final(self)@),
    {
        proof {
            use_type_invariant(&*self);
        }
        let config: EntityConfig = self.table.get_or_default(self.active);
        proof {
            use_type_invariant(&*self);
            self.lemma_coherent();
        }
        config
    }

    /// Applies one step of a parameter knob to the active pad's
    /// configuration.
    pub fn dispatch_knob(&mut self, knob: u8, cw: bool)
        ensures
            final(self)@ == knob_turned(old(self)@, knob, cw),
            coherent(final(self)@),
    {
        proof {
            use_type_invariant(&*self);
        }
        let config: EntityConfig = self.table.get_or_default(self.active);
        let changed: EntityConfig = config.turned(knob, cw);
        self.table.insert(self.active, changed);
        proof {
            use_type_invariant(&*self);
            self.lemma_coherent();
            assert(self@.table =~= knob_turned(old(self)@, knob, cw).table);
        }
    }

    /// Sets whether `knob` is being touched.
    fn touch(&mut self, knob: u8, pressed: bool)
        ensures
            final(self)@ == knob_touched(old(self)@, knob, pressed),
            coherent(final(self)@),
    {
        proof {
            use_type_invariant(&*self);
        }
        self.focused[knob as usize] = pressed;
        proof {
            use_type_invariant(&*self);
            self.lemma_coherent();
            assert(self@.focused =~= knob_touched(old(self)@, knob, pressed).focused);
            assert(self@.held =~= old(self)@.held);
        }
    }

    /// Presses `pad`: writes its entry where it has none or in assigning
    /// mode, makes it the active pad and spawns its entity.
    fn press(&mut self, pad: u8)
        requires
            pad < PADS,
            old(self)@.fresh < u64::MAX,
        ensures
            final(self)@ == pad_pressed(old(self)@, pad),
            coherent(final(self)@),
    {
        proof {
            use_type_invariant(&*self);
        }
        let prev: EntityConfig = self.table.get_or_default(self.active);
        if !self.table.contains_key(pad) || self.assigning {
            self.table.insert(pad, prev);
        }
        self.active = pad;
        let cfg: EntityConfig = self.table.get_or_default(pad);
        assert(self@.table =~= pressed_table(old(self)@, pad));
        let e: Entity = Entity::new(&cfg, self.tick, pad % SIDE, pad / SIDE);
        if e.gated {
            self.held[pad as usize] = Some(e);
            proof {
                assert(self@.held =~= old(self)@.held.insert(pad, e));
            }
        } else {
            let mut spawns: Vec<(u64, Entity)> = Vec::new();
            core::mem::swap(&mut self.momentary, &mut spawns);
            self.fresh = self.fresh + 1;
            spawns.push((self.fresh, e));
            core::mem::swap(&mut self.momentary, &mut spawns);
            proof {
                assert(self@.held =~= old(self)@.held);
            }
        }
        proof {
            use_type_invariant(&*self);
            self.lemma_coherent();
            assert(self@.focused =~= old(self)@.focused);
        }
    }

    /// Lets go of `pad`: releases the entity that is keyed by it, if any.
    fn let_go(&mut self, pad: u8)
        ensures
            final(self)@ == pad_released(old(self)@, pad),
            coherent(final(self)@),
    {
        proof {
            use_type_invariant(&*self);
        }
        if pad < PADS {
            match self.held[pad as usize] {
                Some(e) => {
                    let mut freed: Entity = e;
                    freed.release(self.tick);
                    self.held[pad as usize] = Some(freed);
                    proof {
                        assert(self@.held =~= old(self)@.held.insert(
                            pad,
                            released(old(self)@.held[pad], old(self)@.tick),
                        ));
                    }
                },
                None => {},
            }
        }
        proof {
            use_type_invariant(&*self);
            self.lemma_coherent();
            assert(self@.focused =~= old(self)@.focused);
        }
    }

    /// Applies one control event. An identity must be left to give out:
    /// `last_identity` is not yet the largest number.
    pub fn apply(&mut self, event: ControlEvent)
        requires
            old(self)@.fresh < u64::MAX,
        ensures
            final(self)@ == applied(old(self)@, event),
            coherent(final(self)@),
    {
        proof {
            use_type_invariant(&*self);
            self.lemma_coherent();
        }
        match event {
            ControlEvent::KnobTurn { knob, clockwise } => self.dispatch_knob(knob, clockwise),
            ControlEvent::KnobTouch { knob, pressed } => self.touch(knob, pressed),
            ControlEvent::PadPress { pad } => {
                if pad < PADS {
                    self.press(pad);
                }
            },
            ControlEvent::PadRelease { pad } => self.let_go(pad),
            ControlEvent::AssignMode { pressed } => {
                self.assigning = pressed;
                proof {
                    assert(self@.focused =~= old(self)@.focused);
                    assert(self@.held =~= old(self)@.held);
                    self.lemma_coherent();
                }
            },
            ControlEvent::Ignored => {},
        }
    }

    /// Reads a controller message as a control event and applies it. An
    /// identity must be left to give out.
    pub fn handle(&mut self, message: Message)
        requires
            old(self)@.fresh < u64::MAX,
        ensures
            final(self)@ == applied(old(self)@, event_of(message)),
            coherent(final(self)@),
    {
        self.apply(classify(message))
    }

    /// Reads the raw bytes of one message from the controller and
    /// applies the control event they stand for. An identity must be
    /// left to give out.
    pub fn receive(&mut self, raw: &[u8])
        requires
            old(self)@.fresh < u64::MAX,
        ensures
            final(self)@ == applied(old(self)@, event_in(raw@)),
            coherent(final(self)@),
    {
        self.apply(decode(raw))
    }

    /// The status text of the active pad's configuration, which is
    /// created from the default where the pad had none. Each line is
    /// marked where its knob is being touched.
    pub fn status_text(&mut self) -> (r: Vec<char>)
        ensures
            r@ == status_of(
                entry_or_default(old(self)@.table, old(self)@.active),
                markers_of(old(self)@),
            ),
            final(self)@ == (Scene {
                table: with_entry(old(self)@.table, old(self)@.active),
                ..old(self)@
            }),
            coherent(final(self)@),
    {
        let markers: Markers = Markers {
            animation: self.focus_marker(TOUCH_ANIMATION),
            thickness: self.focus_marker(TOUCH_THICKNESS),
            rate: self.focus_marker(TOUCH_RATE),
            duration: self.focus_marker(TOUCH_DURATION),
        };
        let config: EntityConfig = self.get_active_config();
        status_text(&config, markers)
    }

    /// Ends the current tick: removes every entity that is dead at it,
    /// then advances the tick by one.
    pub fn step(&mut self)
        ensures
            final(self)@ == stepped(old(self)@),
            coherent(final(self)@),
    {
        proof {
            use_type_invariant(&*self);
        }
        let now: u64 = self.tick;
        let mut kept: Vec<Option<Entity>> = Vec::new();
        let mut pad: u8 = 0;
        while pad < PADS
            invariant
                pad <= PADS,
                self.held@.len() == PADS,
                kept@.len() == pad,
                forall|k: int|
                    0 <= k < pad ==> #[trigger] kept@[k] == (if self.held@[k] is Some && !dead_at(
                        self.held@[k]->Some_0,
                        now,
                    ) {
                        self.held@[k]
                    } else {
                        None
                    }),
            decreases PADS - pad,
        {
            let slot: Option<Entity> = match self.held[pad as usize] {
                Some(e) => if e.is_dead(now) {
                    None
                } else {
                    Some(e)
                },
                None => None,
            };
            kept.push(slot);
            pad = pad + 1;
        }
        let ghost alive = |m: (u64, Entity)| !dead_at(m.1, now);
        let mut survivors: Vec<(u64, Entity)> = Vec::new();
        let mut i: usize = 0;
        while i < self.momentary.len()
            invariant
                i <= self.momentary@.len(),
                alive == |m: (u64, Entity)| !dead_at(m.1, now),
                survivors@ == self.momentary@.take(i as int).filter(alive),
                forall|k: int|
                    0 <= k < survivors@.len() ==> !(#[trigger] survivors@[k]).1.gated
                        && survivors@[k].0 <= self.fresh,
                forall|k: int, j: int|
                    0 <= k < j < survivors@.len() ==> (#[trigger] survivors@[k]).0 < (
                    #[trigger] survivors@[j]).0,
                forall|k: int, j: int|
                    0 <= k < survivors@.len() && i <= j < self.momentary@.len() ==> (
                    #[trigger] survivors@[k]).0 < (#[trigger] self.momentary@[j]).0,
                forall|k: int|
                    0 <= k < self.momentary@.len() ==> !(#[trigger] self.momentary@[k]).1.gated
                        && self.momentary@[k].0 <= self.fresh,
                forall|k: int, j: int|
                    0 <= k < j < self.momentary@.len() ==> (#[trigger] self.momentary@[k]).0 < (
                    #[trigger] self.momentary@[j]).0,
            decreases self.momentary@.len() - i,
        {
            let m: (u64, Entity) = self.momentary[i];
            proof {
                lemma_filter_push(self.momentary@.take(i as int), m, alive);
                assert(self.momentary@.take(i + 1) =~= self.momentary@.take(i as int).push(m));
            }
            if !m.1.is_dead(now) {
                survivors.push(m);
            }
            i = i + 1;
        }
        proof {
            assert(self.momentary@.take(i as int) =~= self.momentary@);
        }
        self.held = kept;
        self.momentary = survivors;
        if self.tick < u64::MAX {
            self.tick = self.tick + 1;
        }
        proof {
            use_type_invariant(&*self);
            self.lemma_coherent();
            assert(self@.held =~= stepped(old(self)@).held);
            assert(self@.focused =~= old(self)@.focused);
        }
    }

    /// The live entities: those keyed by a pad, in the order of their
    /// pads, then those keyed by a fresh identity, oldest first.
    pub fn entities(&self) -> (r: Vec<Entity>)
        ensures
            r@ == live(self@),
    {
        proof {
            use_type_invariant(self);
        }
        let mut out: Vec<Entity> = Vec::new();
        let mut pad: u8 = 0;
        while pad < PADS
            invariant
                pad <= PADS,
                self.held@.len() == PADS,
                out@ == held_below(self@.held, pad as nat),
            decreases PADS - pad,
        {
            match self.held[pad as usize] {
                Some(e) => {
                    out.push(e);
                },
                None => {},
            }
            pad = pad + 1;
        }
        let ghost first = out@;
        let ghost entity_of = |m: (u64, Entity)| m.1;
        let mut i: usize = 0;
        while i < self.momentary.len()
            invariant
                i <= self.momentary@.len(),
                entity_of == |m: (u64, Entity)| m.1,
                out@ == first + self.momentary@.take(i as int).map_values(entity_of),
            decreases self.momentary@.len() - i,
        {
            let m: (u64, Entity) = self.momentary[i];
            out.push(m.1);
            proof {
                assert(self.momentary@.take(i + 1) =~= self.momentary@.take(i as int).push(m));
                assert(out@ =~= first + self.momentary@.take(i + 1).map_values(entity_of));
            }
            i = i + 1;
        }
        proof {
            assert(self.momentary@.take(i as int) =~= self.momentary@);
        }
        out
    }

    /// What every live entity contributes to cell `(x, y)` at the
    /// current tick.
    pub fn layers(&self, x: u8, y: u8) -> (r: Vec<Layer>)
        ensures
            r@ == layers_at(self@, x, y),
    {
        let all: Vec<Entity> = self.entities();
        let now: u64 = self.tick;
        let ghost layering = |e: Entity| layer_of(e, now, x, y);
        let mut out: Vec<Layer> = Vec::new();
        let mut i: usize = 0;
        while i < all.len()
            invariant
                i <= all@.len(),
                layering == |e: Entity| layer_of(e, now, x, y),
                out@ == all@.take(i as int).map_values(layering),
            decreases all@.len() - i,
        {
            let e: Entity = all[i];
            out.push(Layer { entity: e, shade: e.render(now, x, y) });
            proof {
                assert(all@.take(i + 1) =~= all@.take(i as int).push(e));
                assert(out@ =~= all@.take(i + 1).map_values(layering));
            }
            i = i + 1;
        }
        proof {
            assert(all@.take(i as int) =~= all@);
        }
        out
    }

    /// The preview color of `pad`, shown in assigning mode for a pad that
    /// has an entry.
    pub fn preview(&self, pad: u8) -> (r: Option<Hsv>)
        ensures
            r == preview_at(self@, pad),
    {
        if self.assigning {
            match self.table.get(pad) {
                Some(config) => Some(
                    Hsv {
                        hue: config.hue,
                        saturation: Fixed { raw: 1_000_000 },
                        value: Fixed { raw: 500_000 },
                    },
                ),
                None => None,
            }
        } else {
            None
        }
    }

    /// What cell `(x, y)` shows at the current tick.
    pub fn cell(&self, x: u8, y: u8) -> (r: CellPlan)
        requires
            x < SIDE,
            y < SIDE,
        ensures
            r@ == plan_at(self@, x, y),
    {
        if self.assigning {
            match self.preview(x + y * SIDE) {
                Some(color) => CellPlan::Preview { color },
                None => CellPlan::Sum { layers: Vec::new() },
            }
        } else {
            CellPlan::Sum { layers: self.layers(x, y) }
        }
    }

    /// What every cell shows at the current tick, each with the palette
    /// entry that holds its color. The grid is walked column by column.
    pub fn frame(&self) -> (r: Vec<(u8, CellPlan)>)
        ensures
            r@.len() == SIDE * SIDE,
            forall|k: int|
                0 <= k < r@.len() ==> (#[trigger] r@[k]).0 == palette_index(
                    cell_at(k).0,
                    cell_at(k).1,
                ) && r@[k].1@ == plan_at(self@, cell_at(k).0, cell_at(k).1),
    {
        let mut out: Vec<(u8, CellPlan)> = Vec::new();
        let mut x: u8 = 0;
        while x < SIDE
            invariant
                x <= SIDE,
                out@.len() == x * SIDE,
                forall|k: int|
                    0 <= k < out@.len() ==> (#[trigger] out@[k]).0 == palette_index(
                        cell_at(k).0,
                        cell_at(k).1,
                    ) && out@[k].1@ == plan_at(self@, cell_at(k).0, cell_at(k).1),
            decreases SIDE - x,
        {
            let mut y: u8 = 0;
            while y < SIDE
                invariant
                    x < SIDE,
                    y <= SIDE,
                    out@.len() == x * SIDE + y,
                    forall|k: int|
                        0 <= k < out@.len() ==> (#[trigger] out@[k]).0 == palette_index(
                            cell_at(k).0,
                            cell_at(k).1,
                        ) && out@[k].1@ == plan_at(self@, cell_at(k).0, cell_at(k).1),
                decreases SIDE - y,
            {
                let plan: CellPlan = self.cell(x, y);
                assert(cell_at(x * SIDE + y) == (x, y));
                out.push((1 + x + y * SIDE, plan));
                y = y + 1;
            }
            x = x + 1;
        }
        out
    }

    /// The mark that the status text shows beside a knob: a star while
    /// the knob is touched, a blank otherwise.
    pub fn focus_marker(&self, knob: u8) -> (r: char)
        ensures
            r == marker_of(self@, knob),
    {
        if self.is_focused(knob) {
            '*'
        } else {
            ' '
        }
    }
}

} // verus!
