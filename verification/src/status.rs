//! The status text: one short summary of the active configuration.

use vstd::prelude::*;
use vstd::string::StrSliceExecFns;
use crate::animation::animation_of;
use crate::animation::Animation;
use crate::config::EntityConfig;
use crate::distance::metric_of;
use crate::distance::Distance;
use crate::fixed::Fixed;

verus! {

/// The key that reports a touch of the animation knob.
pub const TOUCH_ANIMATION: u8 = 10;

/// The key that reports a touch of the thickness knob.
pub const TOUCH_THICKNESS: u8 = 5;

/// The key that reports a touch of the rate knob.
pub const TOUCH_RATE: u8 = 6;

/// The key that reports a touch of the duration knob.
pub const TOUCH_DURATION: u8 = 7;

/// The marks beside the four lines of the status text.
#[derive(Clone, Copy, Debug, PartialEq, Eq, Structural)]
pub struct Markers {
    pub animation: char,
    pub thickness: char,
    pub rate: char,
    pub duration: char,
}

/// The decimal digit `d`.
pub open spec fn digit(d: int) -> char
    recommends
        0 <= d < 10,
{
    if d == 0 {
        '0'
    } else if d == 1 {
        '1'
    } else if d == 2 {
        '2'
    } else if d == 3 {
        '3'
    } else if d == 4 {
        '4'
    } else if d == 5 {
        '5'
    } else if d == 6 {
        '6'
    } else if d == 7 {
        '7'
    } else if d == 8 {
        '8'
    } else {
        '9'
    }
}

/// The number `n` in decimal, without leading zeros.
pub open spec fn decimal(n: nat) -> Seq<char>
    decreases n,
{
    if n < 10 {
        seq![digit(n as int)]
    } else {
        decimal(n / 10).push(digit((n % 10) as int))
    }
}

/// The last `width` decimal digits of `n`, with leading zeros.
pub open spec fn padded(n: nat, width: nat) -> Seq<char>
    decreases width,
{
    if width == 0 {
        Seq::empty()
    } else {
        padded(n / 10, (width - 1) as nat).push(digit((n % 10) as int))
    }
}

/// Ten to the power of `places`.
pub open spec fn power_of_ten(places: nat) -> nat
    decreases places,
{
    if places == 0 {
        1
    } else {
        10 * power_of_ten((places - 1) as nat)
    }
}

/// The absolute value of `v` in units of `10^-places`, rounded to the
/// nearest unit, halves away from zero.
pub open spec fn rounded(v: Fixed, places: nat) -> nat
    recommends
        places <= 6,
{
    let unit = power_of_ten((6 - places) as nat);
    let magnitude = if v.raw < 0 {
        -v.raw
    } else {
        v.raw as int
    };
    ((2 * magnitude + unit) / (2 * unit as int)) as nat
}

/// The value `v` with `places` digits after the point: a minus sign
/// where the value is negative, the whole part, the point, and the
/// rounded fraction.
pub open spec fn fixed_text(v: Fixed, places: nat) -> Seq<char>
    recommends
        places <= 6,
{
    let sign = if v.raw < 0 {
        seq!['-']
    } else {
        Seq::empty()
    };
    let r = rounded(v, places);
    sign + decimal(r / power_of_ten(places)) + seq!['.'] + padded(r % power_of_ten(places), places)
}

/// The name of an animation.
pub open spec fn animation_name(animation: Animation) -> Seq<char> {
    match animation {
        Animation::Linear => "Linear"@,
        Animation::VWave => "VWave"@,
        Animation::Stream => "Stream"@,
        Animation::DropTheBass => "DropTheBass"@,
        Animation::Cross => "Cross"@,
    }
}

/// The name of a distance metric.
pub open spec fn metric_name(metric: Distance) -> Seq<char> {
    match metric {
        Distance::Euclidean => "Euclidean"@,
        Distance::Chebyshev => "Chebyshev"@,
        Distance::Manhattan => "Manhattan"@,
        Distance::Rook => "Rook"@,
        Distance::Bishop => "Bishop"@,
    }
}

/// The status text of a configuration: four lines, each led by the mark
/// of its knob. The first gives the animation selector, the animation
/// and the metric; the others the thickness and the rate with two
/// digits after the point, and the duration with one.
pub open spec fn status_of(config: EntityConfig, markers: Markers) -> Seq<char> {
    seq![markers.animation, ' '] + decimal(config.kind as nat) + seq![' '] + animation_name(
        animation_of(config.kind),
    ) + seq!['/'] + metric_name(metric_of(config.distance)) + seq!['\n'] + seq![
        markers.thickness,
        ' ',
        'a',
        '=',
    ] + fixed_text(config.alpha, 2) + seq!['\n'] + seq![markers.rate, ' ', 'b', '='] + fixed_text(
        config.beta,
        2,
    ) + seq!['\n'] + seq![markers.duration, ' ', 'd', '='] + fixed_text(config.duration, 1)
        + seq!['f', '\n']
}

/// The decimal digit `d`.
fn digit_char(d: u8) -> (r: char)
    requires
        d < 10,
    ensures
        r == digit(d as int),
{
    if d == 0 {
        '0'
    } else if d == 1 {
        '1'
    } else if d == 2 {
        '2'
    } else if d == 3 {
        '3'
    } else if d == 4 {
        '4'
    } else if d == 5 {
        '5'
    } else if d == 6 {
        '6'
    } else if d == 7 {
        '7'
    } else if d == 8 {
        '8'
    } else {
        '9'
    }
}

/// Appends `n` in decimal.
fn push_decimal(out: &mut Vec<char>, n: u64)
    ensures
        final(out)@ == old(out)@ + decimal(n as nat),
    decreases n,
{
    if n >= 10 {
        push_decimal(out, n / 10);
    }
    out.push(digit_char((n % 10) as u8));
    proof {
        assert(out@ =~= old(out)@ + decimal(n as nat));
    }
}

/// Appends the last `width` decimal digits of `n`.
fn push_padded(out: &mut Vec<char>, n: u64, width: u8)
    ensures
        final(out)@ == old(out)@ + padded(n as nat, width as nat),
    decreases width,
{
    if width > 0 {
        push_padded(out, n / 10, width - 1);
        out.push(digit_char((n % 10) as u8));
        proof {
            assert(out@ =~= old(out)@ + padded(n as nat, width as nat));
        }
    } else {
        proof {
            assert(out@ =~= old(out)@ + padded(n as nat, width as nat));
        }
    }
}

/// Appends the characters of `text`.
fn push_str(out: &mut Vec<char>, text: &str)
    ensures
        final(out)@ == old(out)@ + text@,
{
    let n: usize = text.unicode_len();
    let mut i: usize = 0;
    while i < n
        invariant
            i <= n,
            n == text@.len(),
            out@ == old(out)@ + text@.take(i as int),
        decreases n - i,
    {
        out.push(text.get_char(i));
        proof {
            assert(text@.take(i + 1) =~= text@.take(i as int).push(text@[i as int]));
            assert(out@ =~= old(out)@ + text@.take(i + 1));
        }
        i = i + 1;
    }
    proof {
        assert(text@.take(i as int) =~= text@);
    }
}

/// Appends `v` with one digit after the point where `fine` is false, and
/// with two where it is true.
fn push_fixed(out: &mut Vec<char>, v: Fixed, fine: bool)
    ensures
        final(out)@ == old(out)@ + fixed_text(
            v,
            if fine {
                2
            } else {
                1
            },
        ),
{
    let ghost unit: nat = if fine {
        10_000
    } else {
        100_000
    };
    let scale: u64 = if fine {
        100
    } else {
        10
    };
    let places: u8 = if fine {
        2
    } else {
        1
    };
    proof {
        reveal_with_fuel(power_of_ten, 7);
        assert(power_of_ten(places as nat) == scale);
        assert(power_of_ten((6 - places) as nat) == unit);
    }
    let magnitude: u128 = if v.raw < 0 {
        (-(v.raw as i128)) as u128
    } else {
        v.raw as u128
    };
    let r: u64 = if fine {
        ((2 * magnitude + 10_000) / 20_000) as u64
    } else {
        ((2 * magnitude + 100_000) / 200_000) as u64
    };
    assert(r == rounded(v, places as nat));
    let ghost start = out@;
    if v.raw < 0 {
        out.push('-');
    }
    push_decimal(out, r / scale);
    out.push('.');
    push_padded(out, r % scale, places);
    proof {
        assert(out@ =~= start + fixed_text(v, places as nat));
    }
}

impl Animation {
    /// The animation's name.
    pub fn name(&self) -> (r: &'static str)
        ensures
            r@ == animation_name(*self),
    {
        match self {
            Animation::Linear => "Linear",
            Animation::VWave => "VWave",
            Animation::Stream => "Stream",
            Animation::DropTheBass => "DropTheBass",
            Animation::Cross => "Cross",
        }
    }
}

impl Distance {
    /// The metric's name.
    pub fn name(&self) -> (r: &'static str)
        ensures
            r@ == metric_name(*self),
    {
        match self {
            Distance::Euclidean => "Euclidean",
            Distance::Chebyshev => "Chebyshev",
            Distance::Manhattan => "Manhattan",
            Distance::Rook => "Rook",
            Distance::Bishop => "Bishop",
        }
    }
}

/// Formats the status text of `config`.
pub fn status_text(config: &EntityConfig, markers: Markers) -> (r: Vec<char>)
    ensures
        r@ == status_of(*config, markers),
{
    let mut out: Vec<char> = Vec::new();
    out.push(markers.animation);
    out.push(' ');
    push_decimal(&mut out, config.kind as u64);
    out.push(' ');
    push_str(&mut out, Animation::from_int(config.kind).name());
    out.push('/');
    push_str(&mut out, Distance::from_int(config.distance).name());
    out.push('\n');
    out.push(markers.thickness);
    out.push(' ');
    out.push('a');
    out.push('=');
    push_fixed(&mut out, config.alpha, true);
    out.push('\n');
    out.push(markers.rate);
    out.push(' ');
    out.push('b');
    out.push('=');
    push_fixed(&mut out, config.beta, true);
    out.push('\n');
    out.push(markers.duration);
    out.push(' ');
    out.push('d');
    out.push('=');
    push_fixed(&mut out, config.duration, false);
    out.push('f');
    out.push('\n');
    proof {
        assert(out@ =~= status_of(*config, markers));
    }
    out
}

} // verus!
