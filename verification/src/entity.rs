//! A spawned animation instance: its lifecycle and what it contributes to
//! each cell.

use vstd::prelude::*;
use crate::animation::animation_of;
use crate::animation::sustains;
use crate::animation::Animation;
use crate::config::EntityConfig;
use crate::distance::gap;
use crate::distance::metric_of;
use crate::distance::span_between;
use crate::distance::squared_distance;
use crate::distance::Distance;
use crate::distance::Span;
use crate::distance::SENTINEL;
use crate::fixed::Fixed;
use crate::fixed::SCALE;

verus! {

/// How many ticks a released entity lives on.
pub const RELEASE_TICKS: u64 = 5;

/// How far a ring has travelled when its phase reaches one.
pub const RING_REACH: u8 = 12;

/// How far a beam has travelled when its phase reaches one.
pub const BEAM_REACH: u8 = 8;

/// The radius beyond which a stream contributes nothing.
pub const STREAM_RADIUS: u16 = 12;

/// A color given by hue, saturation and value.
#[derive(Clone, Copy, Debug, PartialEq, Eq, Structural)]
pub struct Hsv {
    /// Hue in degrees; wraps around the circle.
    pub hue: Fixed,
    pub saturation: Fixed,
    pub value: Fixed,
}

/// The color of an entity of the given hue: full saturation, half value.
pub open spec fn color_of(hue: Fixed) -> Hsv {
    Hsv { hue, saturation: Fixed { raw: 1_000_000 }, value: Fixed { raw: 500_000 } }
}

/// Linear progress through an entity's scheduled life.
#[derive(Clone, Copy, Debug, PartialEq, Eq, Structural)]
pub enum Phase {
    /// The entity is held: its phase is zero.
    Frozen,
    /// The phase is `elapsed / duration`, `elapsed` in ticks. It is not
    /// clamped, and nothing is said of a duration of zero.
    Running { elapsed: i128, duration: Fixed },
}

/// The four colors of the glyph.
#[derive(Clone, Copy, Debug, PartialEq, Eq, Structural)]
pub enum Tint {
    Magenta,
    Red,
    Blue,
    Cyan,
}

/// What an entity contributes to one cell at one tick, before the
/// envelope is evaluated.
///
/// `window(v)` is the bell curve `exp(-(2.5 * v / thickness)^2)` over the
/// entity's thickness, `decay` is one minus the phase, and `color` is the
/// entity's color.
#[derive(Clone, Copy, Debug, PartialEq, Eq, Structural)]
pub enum Shade {
    /// Nothing.
    Dark,
    /// `window(distance - phase * RING_REACH) * color`.
    Ring { distance: Span, phase: Phase },
    /// `window(offset - phase * BEAM_REACH) * color`.
    Beam { offset: u8, phase: Phase },
    /// `window(sin(pi * t * rate + pi * dx / 4) * 4 - dy) * color * decay`.
    Wave { dx: i16, dy: i16, phase: Phase },
    /// `window(sin(t / duration - distance * rate)) * color * decay`.
    Stream { distance: Span, phase: Phase },
    /// `tint * decay`.
    Glyph { tint: Tint, phase: Phase },
}

/// One live instance of an animation, anchored at a cell.
#[derive(Clone, Copy, Debug, PartialEq, Eq, Structural)]
pub struct Entity {
    /// The effect, resolved from the configuration's selector.
    pub kind: Animation,
    /// The tick of creation.
    pub t0: u64,
    /// The scheduled expiry, in millionths of a tick. Meaningful only
    /// while the entity is not gated.
    pub t1: i128,
    /// Whether the entity is held until released.
    pub gated: bool,
    /// The configuration as it was at creation.
    pub params: EntityConfig,
    /// Column of the origin.
    pub x: u8,
    /// Row of the origin.
    pub y: u8,
    /// The color, resolved from the configuration's hue.
    pub color: Hsv,
    /// The metric, resolved from the configuration's selector.
    pub distance: Distance,
}

/// The entity that `config` spawns at tick `t` on cell `(x, y)`.
pub open spec fn spawned(config: EntityConfig, t: u64, x: u8, y: u8) -> Entity {
    Entity {
        kind: animation_of(config.kind),
        t0: t,
        t1: (t * SCALE + config.duration.raw) as i128,
        gated: sustains(animation_of(config.kind)),
        params: config,
        x,
        y,
        color: color_of(config.hue),
        distance: metric_of(config.distance),
    }
}

/// Whether an entity may be removed at tick `t`.
pub open spec fn dead_at(e: Entity, t: u64) -> bool {
    !e.gated && t * SCALE >= e.t1
}

/// The entity after a release at tick `t`.
pub open spec fn released(e: Entity, t: u64) -> Entity {
    if e.gated {
        Entity { t1: ((t + RELEASE_TICKS) * SCALE) as i128, gated: false, ..e }
    } else {
        e
    }
}

/// The phase of an entity at tick `t`.
pub open spec fn phase_at(e: Entity, t: u64) -> Phase {
    if e.gated {
        Phase::Frozen
    } else {
        Phase::Running { elapsed: (t - e.t0) as i128, duration: e.params.duration }
    }
}

/// The cells of the glyph's first letter.
pub open spec fn magenta_cells() -> Seq<(u8, u8)> {
    seq![(0u8, 1u8), (0u8, 2u8), (1u8, 0u8), (2u8, 0u8), (3u8, 1u8), (3u8, 2u8), (1u8, 3u8), (2u8, 3u8)]
}

/// The cells of the glyph's second letter.
pub open spec fn red_cells() -> Seq<(u8, u8)> {
    seq![
        (4u8, 0u8),
        (4u8, 1u8),
        (4u8, 2u8),
        (4u8, 3u8),
        (5u8, 1u8),
        (5u8, 3u8),
        (6u8, 1u8),
        (6u8, 3u8),
        (7u8, 2u8),
    ]
}

/// The cells of the glyph's third letter.
pub open spec fn blue_cells() -> Seq<(u8, u8)> {
    seq![
        (0u8, 4u8),
        (0u8, 5u8),
        (0u8, 6u8),
        (0u8, 7u8),
        (1u8, 4u8),
        (1u8, 7u8),
        (2u8, 4u8),
        (2u8, 7u8),
        (3u8, 5u8),
        (3u8, 6u8),
    ]
}

/// The cells of the glyph's fourth letter.
pub open spec fn cyan_cells() -> Seq<(u8, u8)> {
    seq![
        (4u8, 4u8),
        (4u8, 5u8),
        (4u8, 6u8),
        (4u8, 7u8),
        (5u8, 5u8),
        (5u8, 7u8),
        (6u8, 5u8),
        (6u8, 7u8),
        (7u8, 4u8),
        (7u8, 6u8),
    ]
}

/// The tint of the glyph at `(x, y)`, if the glyph covers that cell.
pub open spec fn tint_at(x: u8, y: u8) -> Option<Tint> {
    if magenta_cells().contains((x, y)) {
        Some(Tint::Magenta)
    } else if red_cells().contains((x, y)) {
        Some(Tint::Red)
    } else if blue_cells().contains((x, y)) {
        Some(Tint::Blue)
    } else if cyan_cells().contains((x, y)) {
        Some(Tint::Cyan)
    } else {
        None
    }
}

/// What entity `e` contributes to cell `(x, y)` at tick `t`.
pub open spec fn shade_at(e: Entity, t: u64, x: u8, y: u8) -> Shade {
    let phase = phase_at(e, t);
    let squared = squared_distance(e.distance, e.x, e.y, x, y);
    let distance = Span { squared: squared as u32 };
    match e.kind {
        Animation::Linear => Shade::Ring { distance, phase },
        Animation::Cross => if y == e.y {
            Shade::Beam { offset: gap(e.x, x) as u8, phase }
        } else if x == e.x {
            Shade::Beam { offset: gap(e.y, y) as u8, phase }
        } else {
            Shade::Dark
        },
        Animation::VWave => Shade::Wave { dx: (x - e.x) as i16, dy: (y - e.y) as i16, phase },
        Animation::Stream => if squared < STREAM_RADIUS * STREAM_RADIUS {
            Shade::Stream { distance, phase }
        } else {
            Shade::Dark
        },
        Animation::DropTheBass => match tint_at(x, y) {
            Some(tint) => Shade::Glyph { tint, phase },
            None => Shade::Dark,
        },
    }
}

/// Whether `cells` lists `(x, y)`.
fn lists(cells: &[(u8, u8)], x: u8, y: u8) -> (r: bool)
    ensures
        r == cells@.contains((x, y)),
{
    let mut i: usize = 0;
    while i < cells.len()
        invariant
            i <= cells@.len(),
            forall|k: int| 0 <= k < i ==> cells@[k] != (x, y),
        decreases cells@.len() - i,
    {
        let cell: (u8, u8) = cells[i];
        if cell.0 == x && cell.1 == y {
            return true;
        }
        i = i + 1;
    }
    false
}

/// The tint of the glyph at `(x, y)`, if the glyph covers that cell.
pub fn glyph_tint(x: u8, y: u8) -> (r: Option<Tint>)
    ensures
        r == tint_at(x, y),
{
    let magenta: [(u8, u8); 8] = [(0, 1), (0, 2), (1, 0), (2, 0), (3, 1), (3, 2), (1, 3), (2, 3)];
    let red: [(u8, u8); 9] = [
        (4, 0),
        (4, 1),
        (4, 2),
        (4, 3),
        (5, 1),
        (5, 3),
        (6, 1),
        (6, 3),
        (7, 2),
    ];
    let blue: [(u8, u8); 10] = [
        (0, 4),
        (0, 5),
        (0, 6),
        (0, 7),
        (1, 4),
        (1, 7),
        (2, 4),
        (2, 7),
        (3, 5),
        (3, 6),
    ];
    let cyan: [(u8, u8); 10] = [
        (4, 4),
        (4, 5),
        (4, 6),
        (4, 7),
        (5, 5),
        (5, 7),
        (6, 5),
        (6, 7),
        (7, 4),
        (7, 6),
    ];
    assert(magenta@ =~= magenta_cells());
    assert(red@ =~= red_cells());
    assert(blue@ =~= blue_cells());
    assert(cyan@ =~= cyan_cells());
    if lists(&magenta, x, y) {
        Some(Tint::Magenta)
    } else if lists(&red, x, y) {
        Some(Tint::Red)
    } else if lists(&blue, x, y) {
        Some(Tint::Blue)
    } else if lists(&cyan, x, y) {
        Some(Tint::Cyan)
    } else {
        None
    }
}

impl Entity {
    /// Spawns an entity from `config` at tick `t` on cell `(x, y)`.
    pub fn new(config: &EntityConfig, t: u64, x: u8, y: u8) -> (r: Entity)
        ensures
            r == spawned(*config, t, x, y),
    {
        let anim: Animation = Animation::from_int(config.kind);
        Entity {
            kind: anim,
            t0: t,
            t1: instant(t) + config.duration.raw as i128,
            gated: anim.should_gate(),
            params: *config,
            x,
            y,
            color: Hsv {
                hue: config.hue,
                saturation: Fixed::from_whole(1),
                value: Fixed::from_hundredths(50),
            },
            distance: Distance::from_int(config.distance),
        }
    }

    /// The phase at tick `t`: zero while gated, else the share of the
    /// duration that has passed since creation.
    pub fn phase(&self, t: u64) -> (r: Phase)
        ensures
            r == phase_at(*self, t),
    {
        if self.gated {
            Phase::Frozen
        } else {
            Phase::Running { elapsed: t as i128 - self.t0 as i128, duration: self.params.duration }
        }
    }

    /// Whether the entity may be removed at tick `t`: it is not gated and
    /// its expiry has come.
    pub fn is_dead(&self, t: u64) -> (r: bool)
        ensures
            r == dead_at(*self, t),
    {
        !self.gated && instant(t) >= self.t1
    }

    /// Releases a gated entity at tick `t`: it is no longer gated and
    /// expires `RELEASE_TICKS` later. An entity that is not gated is left
    /// as it is.
    pub fn release(&mut self, t: u64)
        ensures
            *final(self) == released(*old(self), t),
    {
        if self.gated {
            self.t1 = instant(t) + instant(RELEASE_TICKS);
            self.gated = false;
        }
    }

    /// What the entity contributes to cell `(x, y)` at tick `t`.
    pub fn render(&self, t: u64, x: u8, y: u8) -> (r: Shade)
        ensures
            r == shade_at(*self, t, x, y),
    {
        let distance: Span = self.distance.eval(self.x, self.y, x, y);
        let phase: Phase = self.phase(t);
        match self.kind {
            Animation::Linear => Shade::Ring { distance, phase },
            Animation::Cross => {
                if y == self.y {
                    Shade::Beam { offset: span_between(self.x, x), phase }
                } else if x == self.x {
                    Shade::Beam { offset: span_between(self.y, y), phase }
                } else {
                    Shade::Dark
                }
            },
            Animation::VWave => {
                let dx: i16 = x as i16 - self.x as i16;
                let dy: i16 = y as i16 - self.y as i16;
                Shade::Wave { dx, dy, phase }
            },
            Animation::Stream => {
                if distance.within(STREAM_RADIUS) {
                    Shade::Stream { distance, phase }
                } else {
                    Shade::Dark
                }
            },
            Animation::DropTheBass => {
                match glyph_tint(x, y) {
                    Some(tint) => Shade::Glyph { tint, phase },
                    None => Shade::Dark,
                }
            },
        }
    }
}

/// An entity with a duration that is not negative expires no earlier
/// than it is created.
pub proof fn lemma_expiry_after_creation(config: EntityConfig, t0: u64, x: u8, y: u8)
    requires
        config.duration.raw >= 0,
    ensures
        spawned(config, t0, x, y).t1 >= spawned(config, t0, x, y).t0 * SCALE,
{
}

/// The glyph ignores where the entity is and how it is configured: two
/// glyph entities in the same phase contribute the same to every cell.
pub proof fn lemma_glyph_ignores_origin(a: Entity, b: Entity, t: u64, x: u8, y: u8)
    requires
        a.kind == Animation::DropTheBass,
        b.kind == Animation::DropTheBass,
        phase_at(a, t) == phase_at(b, t),
    ensures
        shade_at(a, t, x, y) == shade_at(b, t, x, y),
{
}

/// A stream contributes nothing to a cell that its metric cannot reach.
pub proof fn lemma_stream_spares_the_unreachable(e: Entity, t: u64, x: u8, y: u8)
    requires
        e.kind == Animation::Stream,
        squared_distance(e.distance, e.x, e.y, x, y) == SENTINEL * SENTINEL,
    ensures
        shade_at(e, t, x, y) == Shade::Dark,
{
}

/// A momentary entity is dead from its scheduled expiry on and at no tick
/// before it; where its duration is not negative, it is not dead at any
/// tick before its creation.
pub proof fn lemma_momentary_lifetime(config: EntityConfig, t0: u64, x: u8, y: u8, t: u64)
    requires
        !sustains(animation_of(config.kind)),
    ensures
        dead_at(spawned(config, t0, x, y), t) <==> t * SCALE >= t0 * SCALE + config.duration.raw,
        config.duration.raw >= 0 && t < t0 ==> !dead_at(spawned(config, t0, x, y), t),
{
    assert(t < t0 ==> t * SCALE < t0 * SCALE) by (nonlinear_arith)
        requires
            SCALE == 1_000_000,
    ;
}

/// An entity that lasts a whole number of ticks is dead exactly from that
/// many ticks after its creation on.
pub proof fn lemma_whole_duration(config: EntityConfig, t0: u64, x: u8, y: u8, t: u64, ticks: nat)
    requires
        !sustains(animation_of(config.kind)),
        config.duration.raw == ticks * SCALE,
    ensures
        dead_at(spawned(config, t0, x, y), t) <==> t >= t0 + ticks,
{
    assert(t * SCALE >= t0 * SCALE + ticks * SCALE <==> t >= t0 + ticks) by (nonlinear_arith)
        requires
            SCALE == 1_000_000,
    ;
}

/// A sustained entity is dead at no tick until it is released; released
/// at tick `at`, it is dead exactly from `at + RELEASE_TICKS` on.
pub proof fn lemma_sustained_lifetime(
    config: EntityConfig,
    t0: u64,
    x: u8,
    y: u8,
    at: u64,
    t: u64,
)
    requires
        sustains(animation_of(config.kind)),
    ensures
        !dead_at(spawned(config, t0, x, y), t),
        dead_at(released(spawned(config, t0, x, y), at), t) <==> t >= at + RELEASE_TICKS,
{
    assert(t * SCALE >= (at + RELEASE_TICKS) * SCALE <==> t >= at + RELEASE_TICKS)
        by (nonlinear_arith)
        requires
            SCALE == 1_000_000,
    ;
    assert(0 <= (at + RELEASE_TICKS) * SCALE <= 0x1_0000_0000_0000_0005 * 1_000_000)
        by (nonlinear_arith)
        requires
            0 <= at <= 0xffff_ffff_ffff_ffff,
            RELEASE_TICKS == 5,
            SCALE == 1_000_000,
    ;
}

/// Releasing twice is releasing once: the second release changes
/// nothing, whatever its tick.
pub proof fn lemma_release_idempotent(e: Entity, first: u64, second: u64)
    ensures
        released(released(e, first), second) == released(e, first),
{
}

/// The tick `t` in millionths of a tick.
fn instant(t: u64) -> (r: i128)
    ensures
        r == t * SCALE,
{
    assert(0 <= t * SCALE <= 0xffff_ffff_ffff_ffff * 1_000_000) by (nonlinear_arith)
        requires
            0 <= t <= 0xffff_ffff_ffff_ffff,
            SCALE == 1_000_000,
    ;
    t as i128 * SCALE as i128
}

} // verus!
