use vstd::prelude::*;

verus! {

/// Side length of a room, in tiles.
pub const ROOM_SIZE: u32 = 50;

/// The room part of a packed position: its upper sixteen bits.
pub open spec fn room_of(packed: u32) -> u32 {
    packed >> 16
}

/// The column inside the room: the third byte of a packed position.
pub open spec fn x_of(packed: u32) -> u32 {
    (packed >> 8) & 0xff
}

/// The row inside the room: the lowest byte of a packed position.
pub open spec fn y_of(packed: u32) -> u32 {
    packed & 0xff
}

/// A packed value names a tile only if both coordinates lie inside a room.
pub open spec fn in_bounds(packed: u32) -> bool {
    x_of(packed) < ROOM_SIZE && y_of(packed) < ROOM_SIZE
}

/// Two tiles touch when they share a room and differ by at most one step
/// along each axis. A tile touches itself.
pub open spec fn adjacent(a: u32, b: u32) -> bool {
    &&& room_of(a) == room_of(b)
    &&& x_of(a) - x_of(b) <= 1
    &&& x_of(b) - x_of(a) <= 1
    &&& y_of(a) - y_of(b) <= 1
    &&& y_of(b) - y_of(a) <= 1
}

/// Calls `screeps::Position::is_near_to` on the two positions rebuilt with
/// `screeps::Position::from_packed`. Trusted: the result is `true` exactly
/// when both lie in the same room and their coordinates differ by at most one.
/// Coordinates outside a room are excluded because `from_packed` rejects them.
#[verifier::external_body]
fn packed_near(a: u32, b: u32) -> (near: bool)
    requires
        in_bounds(a),
        in_bounds(b),
    ensures
        near == adjacent(a, b),
{
    screeps::Position::from_packed(a).is_near_to(screeps::Position::from_packed(b))
}

/// A tile of the world in packed form: room in the upper half, then column
/// and row, one byte each.
#[derive(Clone, Copy, Debug, PartialEq, Eq)]
pub struct Position {
    packed: u32,
}

impl Position {
    /// Every position names a tile inside its room.
    #[verifier::type_invariant]
    pub closed spec fn inside(self) -> bool {
        in_bounds(self.packed)
    }

    /// The packed form of this position.
    pub closed spec fn view(self) -> u32 {
        self.packed
    }

    /// Builds a position from its packed form; `None` exactly when a
    /// coordinate falls outside the room.
    pub fn from_packed(packed: u32) -> (pos: Option<Position>)
        ensures
            pos is Some <==> in_bounds(packed),
            pos matches Some(p) ==> p@ == packed,
    {
        if (packed >> 8) & 0xff < ROOM_SIZE && packed & 0xff < ROOM_SIZE {
            Some(Position { packed })
        } else {
            None
        }
    }

    pub fn packed(&self) -> (packed: u32)
        ensures
            packed == self@,
            in_bounds(packed),
    {
        proof {
            use_type_invariant(self);
        }
        self.packed
    }

    /// Whether `other` lies on this tile or on one of the eight around it.
    pub fn is_near_to(&self, other: &Position) -> (near: bool)
        ensures
            near == adjacent(self@, other@),
    {
        proof {
            use_type_invariant(self);
            use_type_invariant(other);
        }
        packed_near(self.packed, other.packed)
    }
}

} // verus!
