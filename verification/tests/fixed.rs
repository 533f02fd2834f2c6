use pad_visuals::fixed::Fixed;
use pad_visuals::fixed::SCALE;

#[test]
fn whole_numbers_and_hundredths() {
    assert_eq!(SCALE, 1_000_000);
    assert_eq!(Fixed::zero().raw, 0);
    assert_eq!(Fixed::from_whole(15).raw, 15_000_000);
    assert_eq!(Fixed::from_whole(-3).raw, -3_000_000);
    assert_eq!(Fixed::from_whole(i32::MAX).raw, i32::MAX as i64 * 1_000_000);
    assert_eq!(Fixed::from_whole(i32::MIN).raw, i32::MIN as i64 * 1_000_000);
    assert_eq!(Fixed::from_hundredths(1).raw, 10_000);
    assert_eq!(Fixed::from_hundredths(-250).raw, -2_500_000);
}

#[test]
fn sums_and_differences() {
    let a = Fixed { raw: 1_500_000 };
    let b = Fixed { raw: 2_250_000 };
    assert_eq!(a.plus(b).raw, 3_750_000);
    assert_eq!(a.minus(b).raw, -750_000);
    assert_eq!(b.minus(a).raw, 750_000);
}

#[test]
fn sums_saturate() {
    let top = Fixed { raw: i64::MAX };
    let bottom = Fixed { raw: i64::MIN };
    let one = Fixed::from_whole(1);
    assert_eq!(top.plus(one), top);
    assert_eq!(bottom.minus(one), bottom);
    assert_eq!(bottom.plus(bottom), bottom);
    assert_eq!(top.minus(bottom), top);
    assert_eq!(bottom.minus(top), bottom);
    assert_eq!(top.plus(bottom).raw, -1);
}

#[test]
fn growing_multiplies_by_one_and_a_hundredth() {
    assert_eq!(Fixed::from_whole(1).grow().raw, 1_010_000);
    assert_eq!(Fixed::from_whole(15).grow().raw, 15_150_000);
    assert_eq!(Fixed::from_whole(-2).grow().raw, -2_020_000);
    assert_eq!(Fixed { raw: 199 }.grow().raw, 200);
    assert_eq!(Fixed { raw: -199 }.grow().raw, -200);
    assert_eq!(Fixed { raw: 99 }.grow().raw, 99);
    assert_eq!(Fixed::zero().grow().raw, 0);
}

#[test]
fn growing_saturates() {
    assert_eq!(Fixed { raw: i64::MAX }.grow().raw, i64::MAX);
    assert_eq!(Fixed { raw: i64::MIN }.grow().raw, i64::MIN);
    assert_eq!(Fixed { raw: i64::MAX / 101 * 100 }.grow().raw, i64::MAX / 101 * 101);
}

#[test]
fn shrinking_divides_by_one_and_a_hundredth() {
    assert_eq!(Fixed { raw: 1_010_000 }.shrink().raw, 1_000_000);
    assert_eq!(Fixed::from_whole(1).shrink().raw, 990_099);
    assert_eq!(Fixed::from_whole(-1).shrink().raw, -990_099);
    assert_eq!(Fixed { raw: 1 }.shrink().raw, 0);
    assert_eq!(Fixed { raw: -1 }.shrink().raw, 0);
    assert_eq!(Fixed { raw: i64::MAX }.shrink().raw, 9_132_051_521_638_391_888);
    assert_eq!(Fixed { raw: i64::MIN }.shrink().raw, -9_132_051_521_638_391_889);
}
