use pad_visuals::distance::Distance;
use pad_visuals::distance::Span;
use pad_visuals::distance::SENTINEL;

#[test]
fn rook_along_shared_column() {
    assert_eq!(Distance::Rook.eval(2, 3, 2, 7), Span::whole(4));
}

#[test]
fn rook_without_shared_axis_is_unreachable() {
    assert_eq!(Distance::Rook.eval(2, 3, 5, 1), Span::unreachable());
    assert_eq!(Span::unreachable().squared, SENTINEL * SENTINEL);
    assert_eq!(SENTINEL, 1024);
}

#[test]
fn rook_along_shared_row() {
    assert_eq!(Distance::Rook.eval(1, 5, 6, 5), Span::whole(5));
}

#[test]
fn bishop_along_diagonal() {
    assert_eq!(Distance::Bishop.eval(1, 1, 4, 4), Span::whole(3));
}

#[test]
fn bishop_off_diagonal_is_unreachable() {
    assert_eq!(Distance::Bishop.eval(1, 1, 4, 5), Span::unreachable());
}

#[test]
fn euclidean_is_held_as_its_square() {
    assert_eq!(Distance::Euclidean.eval(0, 0, 3, 4), Span::whole(5));
    assert_eq!(Distance::Euclidean.eval(1, 1, 2, 2).squared, 2);
}

#[test]
fn chebyshev_takes_the_larger_gap() {
    assert_eq!(Distance::Chebyshev.eval(0, 0, 3, 7), Span::whole(7));
    assert_eq!(Distance::Chebyshev.eval(7, 0, 3, 1), Span::whole(4));
}

#[test]
fn manhattan_adds_the_gaps() {
    assert_eq!(Distance::Manhattan.eval(0, 0, 3, 7), Span::whole(10));
}

#[test]
fn distance_selector_wraps_at_six() {
    assert_eq!(Distance::from_int(0), Distance::Euclidean);
    assert_eq!(Distance::from_int(1), Distance::Chebyshev);
    assert_eq!(Distance::from_int(2), Distance::Manhattan);
    assert_eq!(Distance::from_int(3), Distance::Rook);
    assert_eq!(Distance::from_int(4), Distance::Bishop);
    assert_eq!(Distance::from_int(5), Distance::Euclidean);
    assert_eq!(Distance::from_int(6), Distance::Euclidean);
    assert_eq!(Distance::from_int(9), Distance::Rook);
}

#[test]
fn distance_is_symmetric_on_a_sample() {
    let metrics = [
        Distance::Euclidean,
        Distance::Chebyshev,
        Distance::Manhattan,
        Distance::Rook,
        Distance::Bishop,
    ];
    for m in metrics.iter() {
        assert_eq!(m.eval(1, 6, 4, 2), m.eval(4, 2, 1, 6));
        assert_eq!(m.eval(3, 3, 3, 3), Span::whole(0));
    }
}

#[test]
fn within_compares_against_the_limit() {
    assert!(Span::whole(11).within(12));
    assert!(!Span::whole(12).within(12));
    assert!(Distance::Euclidean.eval(0, 0, 7, 7).within(12));
    assert!(!Span::unreachable().within(12));
}
