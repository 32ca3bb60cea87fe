//! Small shared types of the renderer.

use vstd::prelude::*;

verus! {

/// A dimension in 3D space, a type-safe index into a vector's components.
#[derive(Clone, Copy, PartialEq, Eq, Structural, Debug)]
pub enum Dimension {
    X,
    Y,
    Z,
}

impl Dimension {
    /// The component index this dimension selects.
    pub fn index(&self) -> (r: usize)
        ensures
            r == match *self {
                Dimension::X => 0int,
                Dimension::Y => 1int,
                Dimension::Z => 2int,
            },
    {
        match *self {
            Dimension::X => 0,
            Dimension::Y => 1,
            Dimension::Z => 2,
        }
    }

    /// The three dimensions, in component order.
    pub fn iterator() -> (r: Vec<Dimension>)
        ensures
            r@ == seq![Dimension::X, Dimension::Y, Dimension::Z],
    {
        let mut v: Vec<Dimension> = Vec::new();
        v.push(Dimension::X);
        v.push(Dimension::Y);
        v.push(Dimension::Z);
        proof {
            assert(v@ =~= seq![Dimension::X, Dimension::Y, Dimension::Z]);
        }
        v
    }

    /// The dimension after this one, in component order.
    pub fn next(&self) -> (r: Option<Dimension>)
        ensures
            r == match *self {
                Dimension::X => Some(Dimension::Y),
                Dimension::Y => Some(Dimension::Z),
                Dimension::Z => Option::<Dimension>::None,
            },
    {
        match *self {
            Dimension::X => Some(Dimension::Y),
            Dimension::Y => Some(Dimension::Z),
            Dimension::Z => None,
        }
    }

    /// The name of this dimension.
    pub fn label(&self) -> (r: &'static str)
        ensures
            *self == Dimension::X ==> r@ == "X"@,
            *self == Dimension::Y ==> r@ == "Y"@,
            *self == Dimension::Z ==> r@ == "Z"@,
    {
        match *self {
            Dimension::X => "X",
            Dimension::Y => "Y",
            Dimension::Z => "Z",
        }
    }
}

} // verus!
