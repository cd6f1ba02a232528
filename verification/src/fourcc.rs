use vstd::prelude::*;
use vstd::string::StringSliceAdditionalSpecFns;

verus! {

/// A four-character code: the 4-byte tag that RIFF uses to label every list
/// and chunk.  Compared byte-wise; copied freely.
#[derive(Clone, Copy, PartialEq, Eq, Hash, Structural, Debug)]
pub struct FourCC(pub u8, pub u8, pub u8, pub u8);

impl FourCC {
    /// The tag formed by the first four bytes of `b`.
    pub open spec fn spec_from_bytes(b: Seq<u8>) -> FourCC
        recommends
            b.len() >= 4,
    {
        FourCC(b[0], b[1], b[2], b[3])
    }

    pub fn from_array(arr: [u8; 4]) -> (r: FourCC)
        ensures
            r == FourCC(arr@[0], arr@[1], arr@[2], arr@[3]),
    {
        FourCC(arr[0], arr[1], arr[2], arr[3])
    }

    pub fn from_slice(bytes: &[u8]) -> (r: Option<FourCC>)
        ensures
            match r {
                Some(f) => bytes@.len() == 4 && f == FourCC::spec_from_bytes(bytes@),
                None => bytes@.len() != 4,
            },
    {
        if bytes.len() != 4 {
            None
        } else {
            Some(FourCC(bytes[0], bytes[1], bytes[2], bytes[3]))
        }
    }

    pub fn from_str(string: &str) -> (r: Option<FourCC>)
        ensures
            match r {
                Some(f) => string.spec_bytes().len() == 4
                    && f == FourCC::spec_from_bytes(string.spec_bytes()),
                None => string.spec_bytes().len() != 4,
            },
    {
        FourCC::from_slice(string.as_bytes())
    }
}

} // verus!
