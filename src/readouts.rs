use vstd::prelude::*;

verus! {

/// Vertical distance, in pixels, between two readout lines; also their font size.
pub const LINE_HEIGHT: u32 = 30;

/// Decimal places shown in every readout.
pub const DECIMALS: usize = 2;

/// One of the numeric readouts drawn in the corner of the window.
#[derive(Clone, Copy, Debug, PartialEq, Eq, Structural)]
pub enum Readout {
    Gravity,
    Angle,
    Acceleration,
    Velocity,
    Mass,
}

/// The readouts, top to bottom.
pub open spec fn readout_order() -> Seq<Readout> {
    seq![
        Readout::Gravity,
        Readout::Angle,
        Readout::Acceleration,
        Readout::Velocity,
        Readout::Mass,
    ]
}

impl Readout {
    /// Position of the readout in the column, counted from the top.
    pub open spec fn row(self) -> nat {
        match self {
            Readout::Gravity => 0,
            Readout::Angle => 1,
            Readout::Acceleration => 2,
            Readout::Velocity => 3,
            Readout::Mass => 4,
        }
    }

    pub open spec fn spec_label(self) -> Seq<char> {
        match self {
            Readout::Gravity => "Gravity:"@,
            Readout::Angle => "Angle:"@,
            Readout::Acceleration => "Acceleration:"@,
            Readout::Velocity => "Velocity:"@,
            Readout::Mass => "Mass:"@,
        }
    }

    /// The fixed text printed before the value.
    pub fn label(&self) -> (r: &'static str)
        ensures
            r@ == self.spec_label(),
    {
        match self {
            Readout::Gravity => "Gravity:",
            Readout::Angle => "Angle:",
            Readout::Acceleration => "Acceleration:",
            Readout::Velocity => "Velocity:",
            Readout::Mass => "Mass:",
        }
    }

    /// Distance of the line from the top of the window, in pixels.
    pub fn line_offset(&self) -> (r: u32)
        ensures
            r == LINE_HEIGHT * self.row(),
    {
        match self {
            Readout::Gravity => 0,
            Readout::Angle => LINE_HEIGHT,
            Readout::Acceleration => 2 * LINE_HEIGHT,
            Readout::Velocity => 3 * LINE_HEIGHT,
            Readout::Mass => 4 * LINE_HEIGHT,
        }
    }

    /// Factor applied to the quantity before it is shown: the angular
    /// acceleration is shown ten times magnified, the rest as they are.
    pub fn scale(&self) -> (r: u32)
        ensures
            r == (if *self == Readout::Acceleration { 10u32 } else { 1u32 }),
    {
        match self {
            Readout::Acceleration => 10,
            _ => 1,
        }
    }
}

/// All readouts, in the order they are drawn from the top.
pub fn readouts() -> (r: Vec<Readout>)
    ensures
        r@ == readout_order(),
        forall|i: int| 0 <= i < r@.len() ==> (#[trigger] r@[i]).row() == i,
{
    let r = vec![
        Readout::Gravity,
        Readout::Angle,
        Readout::Acceleration,
        Readout::Velocity,
        Readout::Mass,
    ];
    assert(r@ =~= readout_order());
    r
}

} // verus!
