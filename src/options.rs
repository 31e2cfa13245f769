use vstd::prelude::*;

verus! {

/// Which camera point of the render parameters a coordinate belongs to.
#[derive(Clone, Copy, Debug, PartialEq, Eq, Structural)]
pub enum Vector {
    From,
    To,
}

/// One coordinate axis of a camera point.
#[derive(Clone, Copy, Debug, PartialEq, Eq, Structural)]
pub enum Axis {
    X,
    Y,
    Z,
}

/// A point in model space; `C` is the scalar type the renderer works with.
#[derive(Clone, Copy, Debug)]
pub struct Point<C> {
    pub x: C,
    pub y: C,
    pub z: C,
}

impl<C: Copy> Point<C> {
    /// The coordinate on `axis`.
    pub open spec fn coord(self, axis: Axis) -> C {
        match axis {
            Axis::X => self.x,
            Axis::Y => self.y,
            Axis::Z => self.z,
        }
    }

    /// This point with the coordinate on `axis` replaced by `value`.
    pub open spec fn with_coord(self, axis: Axis, value: C) -> Point<C> {
        match axis {
            Axis::X => Point { x: value, ..self },
            Axis::Y => Point { y: value, ..self },
            Axis::Z => Point { z: value, ..self },
        }
    }

    /// Replaces the coordinate on `axis` with `value`.
    pub fn set_coord(&mut self, axis: Axis, value: C)
        ensures
            *final(self) == old(self).with_coord(axis, value),
    {
        match axis {
            Axis::X => self.x = value,
            Axis::Y => self.y = value,
            Axis::Z => self.z = value,
        }
    }
}

/// The parameters of one render: the camera's position (`from`), the point it
/// looks at (`to`), and the size of the output image in pixels.
#[derive(Clone, Copy, Debug)]
pub struct RenderOptions<C> {
    pub from: Point<C>,
    pub to: Point<C>,
    pub width_pixels: usize,
    pub height_pixels: usize,
}

impl<C: Copy> RenderOptions<C> {
    /// The camera point selected by `vector`.
    pub open spec fn point(self, vector: Vector) -> Point<C> {
        match vector {
            Vector::From => self.from,
            Vector::To => self.to,
        }
    }

    /// These options with one coordinate of one camera point replaced.
    pub open spec fn with_coord(self, vector: Vector, axis: Axis, value: C) -> RenderOptions<C> {
        match vector {
            Vector::From => RenderOptions { from: self.from.with_coord(axis, value), ..self },
            Vector::To => RenderOptions { to: self.to.with_coord(axis, value), ..self },
        }
    }

    /// Replaces one coordinate of one camera point, and nothing else.
    pub fn set_coord(&mut self, vector: Vector, axis: Axis, value: C)
        ensures
            *final(self) == old(self).with_coord(vector, axis, value),
    {
        match vector {
            Vector::From => self.from.set_coord(axis, value),
            Vector::To => self.to.set_coord(axis, value),
        }
    }
}

pub open spec fn is_digit(c: char) -> bool {
    '0' <= c && c <= '9'
}

/// The value of a string of decimal digits, most significant first.
pub open spec fn digits_value(s: Seq<char>) -> nat
    decreases s.len(),
{
    if s.len() == 0 {
        0
    } else {
        digits_value(s.drop_last()) * 10 + (s.last() as nat - '0' as nat) as nat
    }
}

/// The value of an image dimension written as text: an optional `+` and then one
/// or more decimal digits, with nothing before or after. `None` for any other text.
pub open spec fn dimension_of(s: Seq<char>) -> Option<nat> {
    let digits = if s.len() > 0 && s[0] == '+' { s.drop_first() } else { s };
    if digits.len() > 0 && forall|i: int| 0 <= i < digits.len() ==> is_digit(#[trigger] digits[i]) {
        Some(digits_value(digits))
    } else {
        None
    }
}

/// Relies on `str::parse::<usize>`: std documents that unsigned integers are read
/// from an optional `+` sign followed by digits only, and that a value too large
/// for the type is an error.
#[verifier::external_body]
pub(crate) fn parse_dimension(text: &str) -> (r: Option<usize>)
    ensures
        r == (match dimension_of(text@) {
            Some(n) => if n <= usize::MAX { Some(n as usize) } else { None },
            None => None,
        }),
{
    text.parse::<usize>().ok()
}

} // verus!
