use vstd::prelude::*;

verus! {

/// Fee paid for a confirmed batch, as the opaque encoded text the network reports.
#[derive(Debug, PartialEq, Eq, Hash, Default)]
pub struct BlobFee(String);

impl View for BlobFee {
    type V = Seq<char>;

    closed spec fn view(&self) -> Seq<char> {
        self.0@
    }
}

impl BlobFee {
    pub fn new(value: String) -> (r: Self)
        ensures
            r@ == value@,
    {
        BlobFee(value)
    }

    /// The canonical text of the value.
    pub fn to_string(&self) -> (r: String)
        ensures
            r@ == self@,
    {
        self.0.clone()
    }
}

impl Clone for BlobFee {
    fn clone(&self) -> (r: Self)
        ensures
            r == *self,
    {
        BlobFee(self.0.clone())
    }
}

} // verus!
