use vstd::prelude::*;
use crate::error::ValidationError;
use crate::wire::{base64_decoded, decode_base64};

verus! {

/// Security thresholds are ordered: `0 <= adversary < quorum <= 100`.
pub open spec fn thresholds_ordered(adversary: nat, quorum: nat) -> bool {
    adversary < quorum && quorum <= 100
}

pub struct BlobQuorumParamsView {
    pub adversary_threshold_percentage: nat,
    pub quorum_threshold_percentage: nat,
    pub quantization_param: nat,
    pub encoded_length: Seq<char>,
}

/// Security parameters of one quorum for a blob.
#[derive(Debug, PartialEq, Eq, Hash)]
pub struct BlobQuorumParams {
    adversary_threshold_percentage: usize,
    quorum_threshold_percentage: usize,
    quantization_param: usize,
    encoded_length: String,
}

impl View for BlobQuorumParams {
    type V = BlobQuorumParamsView;

    closed spec fn view(&self) -> BlobQuorumParamsView {
        BlobQuorumParamsView {
            adversary_threshold_percentage: self.adversary_threshold_percentage as nat,
            quorum_threshold_percentage: self.quorum_threshold_percentage as nat,
            quantization_param: self.quantization_param as nat,
            encoded_length: self.encoded_length@,
        }
    }
}

impl Clone for BlobQuorumParams {
    fn clone(&self) -> (r: Self)
        ensures
            r == *self,
    {
        proof {
            use_type_invariant(self);
        }
        BlobQuorumParams {
            adversary_threshold_percentage: self.adversary_threshold_percentage,
            quorum_threshold_percentage: self.quorum_threshold_percentage,
            quantization_param: self.quantization_param,
            encoded_length: self.encoded_length.clone(),
        }
    }
}

impl BlobQuorumParams {
    #[verifier::type_invariant]
    spec fn ordered(self) -> bool {
        thresholds_ordered(
            self.adversary_threshold_percentage as nat,
            self.quorum_threshold_percentage as nat,
        )
    }

    /// Builds the parameters; refuses thresholds that are not ordered.
    pub fn new(
        adversary_threshold_percentage: usize,
        quorum_threshold_percentage: usize,
        quantization_param: usize,
        encoded_length: String,
    ) -> (r: Result<Self, ValidationError>)
        ensures
            r is Ok <==> thresholds_ordered(
                adversary_threshold_percentage as nat,
                quorum_threshold_percentage as nat,
            ),
            r matches Ok(p) ==> p@ == (BlobQuorumParamsView {
                adversary_threshold_percentage: adversary_threshold_percentage as nat,
                quorum_threshold_percentage: quorum_threshold_percentage as nat,
                quantization_param: quantization_param as nat,
                encoded_length: encoded_length@,
            }),
            r matches Err(e) ==> e == ValidationError::ThresholdOrder,
    {
        if adversary_threshold_percentage < quorum_threshold_percentage
            && quorum_threshold_percentage <= 100 {
            Ok(
                BlobQuorumParams {
                    adversary_threshold_percentage,
                    quorum_threshold_percentage,
                    quantization_param,
                    encoded_length,
                },
            )
        } else {
            Err(ValidationError::ThresholdOrder)
        }
    }

    pub fn adversary_threshold_percentage(&self) -> (r: usize)
        ensures
            r as nat == self@.adversary_threshold_percentage,
            r < self@.quorum_threshold_percentage,
    {
        proof {
            use_type_invariant(self);
        }
        self.adversary_threshold_percentage
    }

    pub fn quorum_threshold_percentage(&self) -> (r: usize)
        ensures
            r as nat == self@.quorum_threshold_percentage,
            self@.adversary_threshold_percentage < r <= 100,
    {
        proof {
            use_type_invariant(self);
        }
        self.quorum_threshold_percentage
    }

    pub fn quantization_param(&self) -> (r: usize)
        ensures
            r as nat == self@.quantization_param,
    {
        self.quantization_param
    }

    pub fn encoded_length(&self) -> (r: String)
        ensures
            r@ == self@.encoded_length,
    {
        self.encoded_length.clone()
    }
}

/// Positions of a blob's quorums within the batch's quorum list, as opaque encoded text.
#[derive(Debug, PartialEq, Eq, Hash, Default)]
pub struct BlobQuorumIndexes(String);

impl View for BlobQuorumIndexes {
    type V = Seq<char>;

    closed spec fn view(&self) -> Seq<char> {
        self.0@
    }
}

impl BlobQuorumIndexes {
    pub fn new(value: String) -> (r: Self)
        ensures
            r@ == value@,
    {
        BlobQuorumIndexes(value)
    }

    /// The canonical text of the value.
    pub fn to_string(&self) -> (r: String)
        ensures
            r@ == self@,
    {
        self.0.clone()
    }
}

impl Clone for BlobQuorumIndexes {
    fn clone(&self) -> (r: Self)
        ensures
            r == *self,
    {
        BlobQuorumIndexes(self.0.clone())
    }
}

/// The quorums that signed a batch: base64 text of one byte per quorum.
#[derive(Debug, PartialEq, Eq, Hash, Default)]
pub struct BlobQuorumNumbers(String);

impl View for BlobQuorumNumbers {
    type V = Seq<char>;

    closed spec fn view(&self) -> Seq<char> {
        self.0@
    }
}

impl BlobQuorumNumbers {
    pub fn new(value: String) -> (r: Self)
        ensures
            r@ == value@,
    {
        BlobQuorumNumbers(value)
    }

    /// The canonical text of the value.
    pub fn to_string(&self) -> (r: String)
        ensures
            r@ == self@,
    {
        self.0.clone()
    }
}

impl Clone for BlobQuorumNumbers {
    fn clone(&self) -> (r: Self)
        ensures
            r == *self,
    {
        BlobQuorumNumbers(self.0.clone())
    }
}

/// The share of stake that signed, per quorum: base64 text of one byte per quorum.
#[derive(Debug, PartialEq, Eq, Hash, Default)]
pub struct BlobQuorumSignedPercentages(String);

impl View for BlobQuorumSignedPercentages {
    type V = Seq<char>;

    closed spec fn view(&self) -> Seq<char> {
        self.0@
    }
}

impl BlobQuorumSignedPercentages {
    pub fn new(value: String) -> (r: Self)
        ensures
            r@ == value@,
    {
        BlobQuorumSignedPercentages(value)
    }

    /// The canonical text of the value.
    pub fn to_string(&self) -> (r: String)
        ensures
            r@ == self@,
    {
        self.0.clone()
    }
}

impl Clone for BlobQuorumSignedPercentages {
    fn clone(&self) -> (r: Self)
        ensures
            r == *self,
    {
        BlobQuorumSignedPercentages(self.0.clone())
    }
}

impl BlobQuorumNumbers {
    /// The quorum numbers, one byte each; `None` when the text is not base64.
    pub fn quorums(&self) -> (r: Option<Vec<u8>>)
        ensures
            r matches Some(v) ==> base64_decoded(self@) == Some(v@),
            r is None ==> base64_decoded(self@) is None,
    {
        decode_base64(self.0.as_str())
    }
}

impl BlobQuorumSignedPercentages {
    /// The signed percentages, one byte per quorum; `None` when the text is not base64.
    pub fn percentages(&self) -> (r: Option<Vec<u8>>)
        ensures
            r matches Some(v) ==> base64_decoded(self@) == Some(v@),
            r is None ==> base64_decoded(self@) is None,
    {
        decode_base64(self.0.as_str())
    }
}

} // verus!
