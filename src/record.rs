use vstd::prelude::*;

verus! {

/// Hash of the record of the operators that signed a batch, as opaque encoded text.
#[derive(Debug, PartialEq, Eq, Hash, Default)]
pub struct BlobSignatoryRecordHash(String);

impl View for BlobSignatoryRecordHash {
    type V = Seq<char>;

    closed spec fn view(&self) -> Seq<char> {
        self.0@
    }
}

impl BlobSignatoryRecordHash {
    pub fn new(value: String) -> (r: Self)
        ensures
            r@ == value@,
    {
        BlobSignatoryRecordHash(value)
    }

    /// The canonical text of the value.
    pub fn to_string(&self) -> (r: String)
        ensures
            r@ == self@,
    {
        self.0.clone()
    }
}

impl Clone for BlobSignatoryRecordHash {
    fn clone(&self) -> (r: Self)
        ensures
            r == *self,
    {
        BlobSignatoryRecordHash(self.0.clone())
    }
}

} // verus!
