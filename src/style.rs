use vstd::prelude::*;

verus! {

/// A channel of a color.
#[derive(Debug, Clone, Copy, PartialEq, Eq, Structural)]
pub enum ColorChannel {
    Red,
    Green,
    Blue,
    Alpha,
}

impl ColorChannel {
    /// The channel's one-letter name, such as "R" for red.
    pub fn letter(&self) -> (r: &'static str)
        ensures
            r@ == match self {
                ColorChannel::Red => "R"@,
                ColorChannel::Green => "G"@,
                ColorChannel::Blue => "B"@,
                ColorChannel::Alpha => "A"@,
            },
    {
        match self {
            ColorChannel::Red => "R",
            ColorChannel::Green => "G",
            ColorChannel::Blue => "B",
            ColorChannel::Alpha => "A",
        }
    }
}

} // verus!
