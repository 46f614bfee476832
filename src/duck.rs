//! The four duck pictures a user can pick from.

use vstd::prelude::*;

verus! {

/// One of the four duck pictures; `One` is shown until the user picks another.
#[derive(Clone, Copy, Debug, Hash, PartialEq, Eq, Structural)]
pub enum Duck {
    One,
    Two,
    Three,
    Four,
}

impl Duck {
    /// Every duck, in picker order.
    pub open spec fn all() -> Seq<Duck> {
        seq![Duck::One, Duck::Two, Duck::Three, Duck::Four]
    }

    /// The `srcset` attribute naming the picture of this duck at 1x, 2x and 4x.
    pub open spec fn srcset_spec(self) -> &'static str {
        match self {
            Duck::One => "image/duck1.webp, image/duck1@2x.webp 2x, image/duck1@4x.webp 4x",
            Duck::Two => "image/duck2.webp, image/duck2@2x.webp 2x, image/duck2@4x.webp 4x",
            Duck::Three => "image/duck3.webp, image/duck3@2x.webp 2x, image/duck3@4x.webp 4x",
            Duck::Four => "image/duck4.webp, image/duck4@2x.webp 2x, image/duck4@4x.webp 4x",
        }
    }

    /// The ducks the picker offers, each once, in order.
    pub fn iter() -> (r: Vec<Duck>)
        ensures
            r@ == Duck::all(),
    {
        let r = vec![Duck::One, Duck::Two, Duck::Three, Duck::Four];
        assert(r@ =~= Duck::all());
        r
    }

    /// The picture of this duck, as an `srcset` attribute value.
    pub fn srcset(self) -> (r: &'static str)
        ensures
            r == self.srcset_spec(),
    {
        match self {
            Duck::One => "image/duck1.webp, image/duck1@2x.webp 2x, image/duck1@4x.webp 4x",
            Duck::Two => "image/duck2.webp, image/duck2@2x.webp 2x, image/duck2@4x.webp 4x",
            Duck::Three => "image/duck3.webp, image/duck3@2x.webp 2x, image/duck3@4x.webp 4x",
            Duck::Four => "image/duck4.webp, image/duck4@2x.webp 2x, image/duck4@4x.webp 4x",
        }
    }
}

} // verus!
