//! The movement decisions of one frame: which camera translations the held
//! keys ask for, and in which order. The caller applies each as a step of
//! fixed length along the named camera direction.
use vstd::prelude::*;

verus! {

/// The movement keys held during a frame.
#[derive(Clone, Copy, Debug, PartialEq, Eq, Structural, Default)]
pub struct MoveKeys {
    pub forward: bool,
    pub back: bool,
    pub left: bool,
    pub right: bool,
    pub down: bool,
    pub up: bool,
}

/// A camera direction.
#[derive(Clone, Copy, Debug, PartialEq, Eq, Structural)]
pub enum Axis {
    /// The look direction.
    Look,
    /// The right direction.
    Right,
    /// The up direction, derived from look and right.
    Up,
}

/// One step along `axis`, with it (`positive`) or against it.
#[derive(Clone, Copy, Debug, PartialEq, Eq, Structural)]
pub struct Move {
    pub axis: Axis,
    pub positive: bool,
}

pub open spec fn move_if(held: bool, axis: Axis, positive: bool) -> Seq<Move> {
    if held {
        seq![Move { axis, positive }]
    } else {
        Seq::empty()
    }
}

/// One move per held key, in the order forward, back, left, right, down, up.
pub open spec fn moves_of(keys: MoveKeys) -> Seq<Move> {
    move_if(keys.forward, Axis::Look, true) + move_if(keys.back, Axis::Look, false) + move_if(
        keys.left,
        Axis::Right,
        false,
    ) + move_if(keys.right, Axis::Right, true) + move_if(keys.down, Axis::Up, false) + move_if(
        keys.up,
        Axis::Up,
        true,
    )
}

fn push_if(moves: &mut Vec<Move>, held: bool, axis: Axis, positive: bool)
    ensures
        final(moves)@ == old(moves)@ + move_if(held, axis, positive),
{
    if held {
        moves.push(Move { axis, positive });
    }
    assert(moves@ =~= old(moves)@ + move_if(held, axis, positive));
}

/// The moves of a frame: one step per held key, added up with no
/// normalisation, so that opposite keys cancel and diagonal keys combine.
pub fn frame_moves(keys: MoveKeys) -> (r: Vec<Move>)
    ensures
        r@ == moves_of(keys),
{
    let mut moves: Vec<Move> = Vec::new();
    push_if(&mut moves, keys.forward, Axis::Look, true);
    push_if(&mut moves, keys.back, Axis::Look, false);
    push_if(&mut moves, keys.left, Axis::Right, false);
    push_if(&mut moves, keys.right, Axis::Right, true);
    push_if(&mut moves, keys.down, Axis::Up, false);
    push_if(&mut moves, keys.up, Axis::Up, true);
    assert(moves@ =~= moves_of(keys));
    moves
}

} // verus!
