use meshview::frame::{frame_moves, Axis, Move, MoveKeys};

#[test]
fn no_keys_no_moves() {
    assert!(frame_moves(MoveKeys::default()).is_empty());
}

#[test]
fn forward_key_steps_along_look() {
    let keys = MoveKeys { forward: true, ..MoveKeys::default() };
    assert_eq!(frame_moves(keys), vec![Move { axis: Axis::Look, positive: true }]);
}

#[test]
fn every_key_in_order() {
    let keys = MoveKeys { forward: true, back: true, left: true, right: true, down: true, up: true };
    assert_eq!(
        frame_moves(keys),
        vec![
            Move { axis: Axis::Look, positive: true },
            Move { axis: Axis::Look, positive: false },
            Move { axis: Axis::Right, positive: false },
            Move { axis: Axis::Right, positive: true },
            Move { axis: Axis::Up, positive: false },
            Move { axis: Axis::Up, positive: true },
        ]
    );
}

#[test]
fn diagonal_keys_combine() {
    let keys = MoveKeys { forward: true, right: true, up: true, ..MoveKeys::default() };
    assert_eq!(
        frame_moves(keys),
        vec![
            Move { axis: Axis::Look, positive: true },
            Move { axis: Axis::Right, positive: true },
            Move { axis: Axis::Up, positive: true },
        ]
    );
}
