use pad_visuals::animation::Animation;
use pad_visuals::animation::NUM_ANIMATIONS;
use pad_visuals::config::EntityConfig;
use pad_visuals::distance::Distance;
use pad_visuals::distance::Span;
use pad_visuals::entity::glyph_tint;
use pad_visuals::entity::Entity;
use pad_visuals::entity::Hsv;
use pad_visuals::entity::Phase;
use pad_visuals::entity::Shade;
use pad_visuals::entity::Tint;
use pad_visuals::entity::RELEASE_TICKS;
use pad_visuals::fixed::Fixed;

fn config_of(kind: u8) -> EntityConfig {
    EntityConfig { kind, ..EntityConfig::default() }
}

#[test]
fn animation_selector_wraps_at_catalog_size() {
    assert_eq!(NUM_ANIMATIONS, 5);
    assert_eq!(Animation::from_int(0), Animation::Linear);
    assert_eq!(Animation::from_int(1), Animation::VWave);
    assert_eq!(Animation::from_int(2), Animation::Stream);
    assert_eq!(Animation::from_int(3), Animation::DropTheBass);
    assert_eq!(Animation::from_int(4), Animation::Cross);
    assert_eq!(Animation::from_int(5), Animation::Linear);
    assert_eq!(Animation::from_int(13), Animation::DropTheBass);
}

#[test]
fn sustain_animations_gate() {
    assert!(!Animation::Linear.should_gate());
    assert!(!Animation::Cross.should_gate());
    assert!(Animation::VWave.should_gate());
    assert!(Animation::Stream.should_gate());
    assert!(Animation::DropTheBass.should_gate());
}

#[test]
fn default_configuration_values() {
    let c = EntityConfig::default();
    assert_eq!(c.kind, 0);
    assert_eq!(c.hue, Fixed::from_whole(0));
    assert_eq!(c.duration, Fixed::from_whole(15));
    assert_eq!(c.alpha, Fixed::from_whole(1));
    assert_eq!(c.beta, Fixed::zero());
    assert_eq!(c.distance, 0);
    assert_eq!(EntityConfig::initial(), c);
}

#[test]
fn spawn_resolves_the_configuration() {
    let mut c = config_of(2);
    c.hue = Fixed::from_whole(120);
    c.distance = 3;
    let e = Entity::new(&c, 7, 4, 5);
    assert_eq!(e.kind, Animation::Stream);
    assert_eq!(e.t0, 7);
    assert_eq!(e.t1, 22_000_000);
    assert!(e.gated);
    assert_eq!(e.params, c);
    assert_eq!((e.x, e.y), (4, 5));
    assert_eq!(
        e.color,
        Hsv {
            hue: Fixed::from_whole(120),
            saturation: Fixed::from_whole(1),
            value: Fixed::from_hundredths(50),
        }
    );
    assert_eq!(e.distance, Distance::Rook);
}

#[test]
fn momentary_entity_dies_at_its_expiry() {
    let e = Entity::new(&config_of(0), 10, 0, 0);
    assert!(!e.gated);
    assert!(e.t1 >= 10_000_000);
    for t in 0..25 {
        assert!(!e.is_dead(t), "dead at {}", t);
    }
    for t in 25..60 {
        assert!(e.is_dead(t), "alive at {}", t);
    }
}

#[test]
fn fractional_duration_is_rounded_up_to_the_next_tick() {
    let mut c = config_of(0);
    c.duration = Fixed { raw: 2_500_000 };
    let e = Entity::new(&c, 4, 0, 0);
    assert!(!e.is_dead(6));
    assert!(e.is_dead(7));
}

#[test]
fn sustained_entity_lives_until_released() {
    let mut e = Entity::new(&config_of(1), 3, 1, 1);
    assert!(e.gated);
    for t in [0, 3, 18, 19, 1_000_000, u64::MAX] {
        assert!(!e.is_dead(t));
    }
    e.release(40);
    assert!(!e.gated);
    assert_eq!(RELEASE_TICKS, 5);
    assert_eq!(e.t1, 45_000_000);
    for t in 40..45 {
        assert!(!e.is_dead(t));
    }
    assert!(e.is_dead(45));
    assert!(e.is_dead(46));
}

#[test]
fn release_is_idempotent() {
    let mut once = Entity::new(&config_of(3), 0, 2, 2);
    once.release(9);
    let mut twice = once;
    twice.release(30);
    assert_eq!(once, twice);
    assert_eq!(twice.t1, 14_000_000);
}

#[test]
fn release_leaves_a_momentary_entity_alone() {
    let e = Entity::new(&config_of(0), 5, 2, 2);
    let mut released = e;
    released.release(6);
    assert_eq!(released, e);
}

#[test]
fn release_at_the_last_tick_does_not_overflow() {
    let mut e = Entity::new(&config_of(1), u64::MAX, 0, 0);
    e.release(u64::MAX);
    assert_eq!(e.t1, (u64::MAX as i128 + 5) * 1_000_000);
    assert!(!e.is_dead(u64::MAX));
}

#[test]
fn phase_is_frozen_while_gated() {
    let mut e = Entity::new(&config_of(1), 3, 1, 1);
    assert_eq!(e.phase(100), Phase::Frozen);
    e.release(100);
    assert_eq!(
        e.phase(102),
        Phase::Running { elapsed: 99, duration: Fixed::from_whole(15) }
    );
}

#[test]
fn phase_is_not_clamped() {
    let e = Entity::new(&config_of(0), 10, 0, 0);
    assert_eq!(e.phase(10), Phase::Running { elapsed: 0, duration: Fixed::from_whole(15) });
    assert_eq!(e.phase(40), Phase::Running { elapsed: 30, duration: Fixed::from_whole(15) });
    assert_eq!(e.phase(4), Phase::Running { elapsed: -6, duration: Fixed::from_whole(15) });
}

#[test]
fn linear_renders_a_ring_everywhere() {
    let e = Entity::new(&config_of(0), 0, 1, 1);
    let phase = e.phase(3);
    assert_eq!(e.render(3, 4, 5), Shade::Ring { distance: Span { squared: 25 }, phase });
    assert_eq!(e.render(3, 1, 1), Shade::Ring { distance: Span::whole(0), phase });
}

#[test]
fn linear_uses_the_selected_metric() {
    let mut c = config_of(0);
    c.distance = 3;
    let e = Entity::new(&c, 0, 2, 3);
    let phase = e.phase(1);
    assert_eq!(e.render(1, 2, 7), Shade::Ring { distance: Span::whole(4), phase });
    assert_eq!(e.render(1, 5, 1), Shade::Ring { distance: Span::unreachable(), phase });
}

#[test]
fn cross_renders_along_row_and_column_only() {
    let e = Entity::new(&config_of(4), 0, 2, 5);
    let phase = e.phase(2);
    assert_eq!(e.render(2, 6, 5), Shade::Beam { offset: 4, phase });
    assert_eq!(e.render(2, 0, 5), Shade::Beam { offset: 2, phase });
    assert_eq!(e.render(2, 2, 1), Shade::Beam { offset: 4, phase });
    assert_eq!(e.render(2, 2, 5), Shade::Beam { offset: 0, phase });
    assert_eq!(e.render(2, 3, 4), Shade::Dark);
}

#[test]
fn vwave_renders_signed_offsets() {
    let e = Entity::new(&config_of(1), 0, 3, 4);
    assert_eq!(e.render(9, 1, 7), Shade::Wave { dx: -2, dy: 3, phase: Phase::Frozen });
    assert_eq!(e.render(9, 7, 0), Shade::Wave { dx: 4, dy: -4, phase: Phase::Frozen });
}

#[test]
fn stream_is_dark_beyond_its_radius() {
    let mut c = config_of(2);
    c.distance = 3;
    let e = Entity::new(&c, 0, 0, 0);
    assert_eq!(
        e.render(1, 0, 7),
        Shade::Stream { distance: Span::whole(7), phase: Phase::Frozen }
    );
    assert_eq!(e.render(1, 3, 7), Shade::Dark);
}

#[test]
fn stream_radius_is_strict() {
    let mut c = config_of(2);
    c.distance = 2;
    let e = Entity::new(&c, 0, 0, 0);
    assert_eq!(
        e.render(0, 11, 0),
        Shade::Stream { distance: Span::whole(11), phase: Phase::Frozen }
    );
    assert_eq!(e.render(0, 12, 0), Shade::Dark);
    assert_eq!(e.render(0, 6, 6), Shade::Dark);
}

#[test]
fn glyph_ignores_the_origin() {
    let a = Entity::new(&config_of(3), 0, 0, 0);
    let b = Entity::new(&config_of(3), 0, 7, 3);
    for x in 0..8 {
        for y in 0..8 {
            assert_eq!(a.render(5, x, y), b.render(5, x, y));
        }
    }
    assert_eq!(a.render(5, 0, 1), Shade::Glyph { tint: Tint::Magenta, phase: Phase::Frozen });
    assert_eq!(a.render(5, 0, 0), Shade::Dark);
}

#[test]
fn glyph_covers_its_four_letters() {
    let rows = [
        ".MM.R...",
        "M..MRRR.",
        "M..MR..R",
        ".MM.RRR.",
        "BBB.C..C",
        "B..BCCC.",
        "B..BC..C",
        "BBB.CCC.",
    ];
    for (y, row) in rows.iter().enumerate() {
        for (x, c) in row.chars().enumerate() {
            let expected = match c {
                'M' => Some(Tint::Magenta),
                'R' => Some(Tint::Red),
                'B' => Some(Tint::Blue),
                'C' => Some(Tint::Cyan),
                _ => None,
            };
            assert_eq!(glyph_tint(x as u8, y as u8), expected, "cell ({}, {})", x, y);
        }
    }
    assert_eq!(glyph_tint(8, 0), None);
    assert_eq!(glyph_tint(0, 200), None);
}
