use vstd::prelude::*;

verus! {

/// The gradient anchored at a lattice corner: one of the four diagonals.
///
/// `x_sign` and `y_sign` are each `1` or `-1`. A short gradient has
/// components of `1/sqrt(2)` (unit length); a long one has components of `1`
/// (length `sqrt(2)`).
#[derive(Debug, Clone, Copy, PartialEq, Eq, Structural)]
pub struct Gradient {
    pub x_sign: i8,
    pub y_sign: i8,
    pub long: bool,
}

impl Gradient {
    pub open spec fn wf(self) -> bool {
        (self.x_sign == 1 || self.x_sign == -1) && (self.y_sign == 1 || self.y_sign == -1)
    }

    /// Dot product of this gradient's sign pattern with a displacement.
    /// The true dot product is this, times `1/sqrt(2)` for a short gradient.
    pub open spec fn signed_sum(self, dx: int, dy: int) -> int {
        self.x_sign as int * dx + self.y_sign as int * dy
    }
}

/// The gradient of bucket `b` (in `0..8`): bit 0 flips x, bit 1 flips y,
/// bit 2 makes it long.
pub open spec fn bucket_gradient(b: int) -> Gradient {
    Gradient {
        x_sign: if b % 2 == 0 { 1i8 } else { -1i8 },
        y_sign: if (b / 2) % 2 == 0 { 1i8 } else { -1i8 },
        long: b >= 4,
    }
}

/// The gradient for a permutation-table value, chosen by its low three bits.
pub fn corner_gradient(value: usize) -> (r: Gradient)
    ensures
        r == bucket_gradient(value as int % 8),
        r.wf(),
{
    let bucket = value & 7;
    assert(value & 7 == value % 8) by (bit_vector);
    match bucket {
        0 => Gradient { x_sign: 1, y_sign: 1, long: false },
        1 => Gradient { x_sign: -1, y_sign: 1, long: false },
        2 => Gradient { x_sign: 1, y_sign: -1, long: false },
        3 => Gradient { x_sign: -1, y_sign: -1, long: false },
        4 => Gradient { x_sign: 1, y_sign: 1, long: true },
        5 => Gradient { x_sign: -1, y_sign: 1, long: true },
        6 => Gradient { x_sign: 1, y_sign: -1, long: true },
        _ => Gradient { x_sign: -1, y_sign: -1, long: true },
    }
}

} // verus!
