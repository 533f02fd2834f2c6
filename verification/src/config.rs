//! The editable configuration of an entity.

use vstd::prelude::*;
use crate::animation::NUM_ANIMATIONS;
use crate::events::KNOB_ANIMATION;
use crate::events::KNOB_DISTANCE_DOWN;
use crate::events::KNOB_DISTANCE_UP;
use crate::events::KNOB_DURATION;
use crate::events::KNOB_HUE;
use crate::events::KNOB_RATE;
use crate::events::KNOB_THICKNESS;
use crate::fixed::difference;
use crate::fixed::grown;
use crate::fixed::shrunk;
use crate::fixed::sum;
use crate::fixed::Fixed;

verus! {

/// What a pad is set up to spawn.
#[derive(Clone, Copy, Debug, PartialEq, Eq, Structural)]
pub struct EntityConfig {
    /// Selector of the animation, read modulo the catalog's size.
    pub kind: u8,
    /// Base hue, in degrees.
    pub hue: Fixed,
    /// Time constant of the envelope, in ticks.
    pub duration: Fixed,
    /// Width of the rendered shape: higher is thicker.
    pub alpha: Fixed,
    /// Per-animation rate: wave speed or stream frequency.
    pub beta: Fixed,
    /// Selector of the distance metric, read modulo six.
    pub distance: u8,
}

/// The configuration that a pad has before anything was assigned to it.
pub open spec fn default_config() -> EntityConfig {
    EntityConfig {
        kind: 0,
        hue: Fixed { raw: 0 },
        duration: Fixed { raw: 15_000_000 },
        alpha: Fixed { raw: 1_000_000 },
        beta: Fixed { raw: 0 },
        distance: 0,
    }
}

impl Default for EntityConfig {
    fn default() -> (r: EntityConfig)
        ensures
            r == default_config(),
    {
        EntityConfig::initial()
    }
}

/// The animation selector one step on: the next selector modulo the
/// catalog's size when turned clockwise; one less when turned the other
/// way, where zero wraps to the catalog's last selector.
pub open spec fn stepped_kind(kind: u8, clockwise: bool) -> u8 {
    if clockwise {
        ((kind + 1) % (NUM_ANIMATIONS as int)) as u8
    } else if kind > 0 {
        (kind - 1) as u8
    } else {
        (NUM_ANIMATIONS - 1) as u8
    }
}

/// The distance selector one step up or down, wrapping at the ends of
/// its range.
pub open spec fn stepped_distance(distance: u8, up: bool) -> u8 {
    if up {
        if distance == u8::MAX {
            0
        } else {
            (distance + 1) as u8
        }
    } else {
        if distance == 0 {
            u8::MAX
        } else {
            (distance - 1) as u8
        }
    }
}

/// The configuration after one step of `knob`. Exactly one field
/// changes; a knob that edits nothing leaves the configuration as it is.
pub open spec fn edited(config: EntityConfig, knob: u8, clockwise: bool) -> EntityConfig {
    if knob == KNOB_DISTANCE_DOWN {
        if clockwise {
            EntityConfig { distance: stepped_distance(config.distance, false), ..config }
        } else {
            config
        }
    } else if knob == KNOB_DISTANCE_UP {
        if clockwise {
            EntityConfig { distance: stepped_distance(config.distance, true), ..config }
        } else {
            config
        }
    } else if knob == KNOB_ANIMATION {
        EntityConfig { kind: stepped_kind(config.kind, clockwise), ..config }
    } else if knob == KNOB_THICKNESS {
        EntityConfig {
            alpha: if clockwise {
                grown(config.alpha)
            } else {
                shrunk(config.alpha)
            },
            ..config
        }
    } else if knob == KNOB_RATE {
        EntityConfig {
            beta: if clockwise {
                sum(config.beta, Fixed { raw: 10_000 })
            } else {
                difference(config.beta, Fixed { raw: 10_000 })
            },
            ..config
        }
    } else if knob == KNOB_DURATION {
        EntityConfig {
            duration: if clockwise {
                grown(config.duration)
            } else {
                shrunk(config.duration)
            },
            ..config
        }
    } else if knob == KNOB_HUE {
        EntityConfig {
            hue: if clockwise {
                sum(config.hue, Fixed { raw: 1_000_000 })
            } else {
                difference(config.hue, Fixed { raw: 1_000_000 })
            },
            ..config
        }
    } else {
        config
    }
}

impl EntityConfig {
    /// The configuration that a pad has before anything was assigned to
    /// it.
    pub fn initial() -> (r: EntityConfig)
        ensures
            r == default_config(),
        no_unwind
    {
        EntityConfig {
            kind: 0,
            hue: Fixed { raw: 0 },
            duration: Fixed { raw: 15_000_000 },
            alpha: Fixed { raw: 1_000_000 },
            beta: Fixed { raw: 0 },
            distance: 0,
        }
    }

    /// The configuration after one step of `knob`, clockwise or not.
    pub fn turned(&self, knob: u8, clockwise: bool) -> (r: EntityConfig)
        ensures
            r == edited(*self, knob, clockwise),
    {
        let mut cfg: EntityConfig = *self;
        if knob == KNOB_DISTANCE_DOWN {
            if clockwise {
                cfg.distance = cfg.distance.wrapping_sub(1);
            }
        } else if knob == KNOB_DISTANCE_UP {
            if clockwise {
                cfg.distance = cfg.distance.wrapping_add(1);
            }
        } else if knob == KNOB_ANIMATION {
            if clockwise {
                let next: u16 = (cfg.kind as u16 + 1) % (NUM_ANIMATIONS as u16);
                cfg.kind = next as u8;
            } else if cfg.kind > 0 {
                cfg.kind = cfg.kind - 1;
            } else {
                cfg.kind = NUM_ANIMATIONS - 1;
            }
        } else if knob == KNOB_THICKNESS {
            cfg.alpha = if clockwise {
                cfg.alpha.grow()
            } else {
                cfg.alpha.shrink()
            };
        } else if knob == KNOB_RATE {
            let step: Fixed = Fixed::from_hundredths(1);
            cfg.beta = if clockwise {
                cfg.beta.plus(step)
            } else {
                cfg.beta.minus(step)
            };
        } else if knob == KNOB_DURATION {
            cfg.duration = if clockwise {
                cfg.duration.grow()
            } else {
                cfg.duration.shrink()
            };
        } else if knob == KNOB_HUE {
            let step: Fixed = Fixed::from_whole(1);
            cfg.hue = if clockwise {
                cfg.hue.plus(step)
            } else {
                cfg.hue.minus(step)
            };
        }
        cfg
    }
}

/// Turned back from selector zero, the animation knob gives the
/// catalog's last selector; turned on from the last, it gives zero.
pub proof fn lemma_animation_knob_wraps(config: EntityConfig)
    ensures
        config.kind == 0 ==> edited(config, KNOB_ANIMATION, false).kind == NUM_ANIMATIONS - 1,
        config.kind == NUM_ANIMATIONS - 1 ==> edited(config, KNOB_ANIMATION, true).kind == 0,
        edited(config, KNOB_ANIMATION, true).kind < NUM_ANIMATIONS,
{
}

} // verus!
