use vstd::prelude::*;

verus! {

pub struct BlobCommitmentView {
    pub x: Seq<char>,
    pub y: Seq<char>,
}

/// KZG commitment to a blob's data: the two coordinates of a curve point, as encoded text.
#[derive(Debug, PartialEq, Eq, Hash, Default)]
pub struct BlobCommitment {
    x: String,
    y: String,
}

impl View for BlobCommitment {
    type V = BlobCommitmentView;

    closed spec fn view(&self) -> BlobCommitmentView {
        BlobCommitmentView { x: self.x@, y: self.y@ }
    }
}

impl Clone for BlobCommitment {
    fn clone(&self) -> (r: Self)
        ensures
            r == *self,
    {
        BlobCommitment { x: self.x.clone(), y: self.y.clone() }
    }
}

impl BlobCommitment {
    pub fn new(x: String, y: String) -> (r: Self)
        ensures
            r@ == (BlobCommitmentView { x: x@, y: y@ }),
    {
        BlobCommitment { x, y }
    }

    pub fn x(&self) -> (r: &String)
        ensures
            r@ == self@.x,
    {
        &self.x
    }

    pub fn y(&self) -> (r: &String)
        ensures
            r@ == self@.y,
    {
        &self.y
    }
}

} // verus!
