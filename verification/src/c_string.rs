//! Owned C strings: byte strings that hold no zero byte, so that the bytes
//! followed by one terminating zero can be read back unchanged by code that
//! stops at the first zero.

use vstd::prelude::*;
use vstd::string::StringSliceAdditionalSpecFns;

verus! {

/// Whether no byte of `bytes` is zero.
pub open spec fn nul_free(bytes: Seq<u8>) -> bool {
    forall|i: int| 0 <= i < bytes.len() ==> bytes[i] != 0
}

/// Whether `position` is where the first zero byte of `bytes` stands.
pub open spec fn is_first_nul(bytes: Seq<u8>, position: int) -> bool {
    &&& 0 <= position < bytes.len()
    &&& bytes[position] == 0
    &&& nul_free(bytes.take(position))
}

/// What a reader of C strings sees of `bytes`: the bytes before the first
/// zero, and all of them where none is zero.
pub open spec fn until_nul(bytes: Seq<u8>) -> Seq<u8>
    decreases bytes.len(),
{
    if bytes.len() == 0 || bytes[0] == 0 {
        Seq::empty()
    } else {
        seq![bytes[0]] + until_nul(bytes.drop_first())
    }
}

/// The bytes up to a place are what a reader of C strings sees, if none of
/// them is zero and the bytes end there or go on with a zero.
pub proof fn lemma_until_nul(bytes: Seq<u8>, end: int)
    requires
        0 <= end <= bytes.len(),
        nul_free(bytes.take(end)),
        end < bytes.len() ==> bytes[end] == 0,
    ensures
        until_nul(bytes) == bytes.take(end),
    decreases end,
{
    if end == 0 {
        assert(bytes.take(0) =~= Seq::<u8>::empty());
    } else {
        assert(bytes.take(end)[0] != 0);
        let rest = bytes.drop_first();
        let front = rest.take(end - 1);
        assert forall|i: int| 0 <= i < front.len() implies #[trigger] front[i] != 0 by {
            assert(bytes.take(end)[i + 1] != 0);
        }
        lemma_until_nul(rest, end - 1);
        assert(bytes.take(end) =~= seq![bytes[0]] + rest.take(end - 1));
    }
}

/// A reader of C strings sees all of a byte string that holds no zero.
pub proof fn lemma_until_nul_of_nul_free(bytes: Seq<u8>)
    requires
        nul_free(bytes),
    ensures
        until_nul(bytes) == bytes,
{
    assert(bytes.take(bytes.len() as int) =~= bytes);
    lemma_until_nul(bytes, bytes.len() as int);
}

/// Why a byte string is no C string: it holds a zero byte.
pub struct NulError {
    position: usize,
    bytes: Vec<u8>,
}

impl NulError {
    /// The index of the first zero byte.
    pub closed spec fn position(&self) -> int {
        self.position as int
    }

    /// The bytes that were refused.
    pub closed spec fn bytes(&self) -> Seq<u8> {
        self.bytes@
    }

    /// The index of the first zero byte of the refused bytes.
    pub fn nul_position(&self) -> (position: usize)
        ensures
            position == self.position(),
    {
        self.position
    }

    /// Gives back the bytes that were refused.
    pub fn into_vec(self) -> (bytes: Vec<u8>)
        ensures
            bytes@ == self.bytes(),
    {
        self.bytes
    }
}

/// An owned C string without its terminator.
pub struct CStringBytes {
    bytes: Vec<u8>,
}

impl View for CStringBytes {
    type V = Seq<u8>;

    closed spec fn view(&self) -> Seq<u8> {
        self.bytes@
    }
}

impl CStringBytes {
    #[verifier::type_invariant]
    spec fn holds_no_nul(self) -> bool {
        nul_free(self.bytes@)
    }

    /// Takes `bytes` as a C string, or refuses them at their first zero byte.
    pub fn new(bytes: Vec<u8>) -> (result: Result<CStringBytes, NulError>)
        ensures
            nul_free(bytes@) <==> result is Ok,
            result matches Ok(string) ==> string@ == bytes@,
            result matches Err(error) ==> error.bytes() == bytes@ && is_first_nul(
                bytes@,
                error.position(),
            ),
    {
        let mut i: usize = 0;
        while i < bytes.len()
            invariant
                i <= bytes.len(),
                nul_free(bytes@.take(i as int)),
            decreases bytes.len() - i,
        {
            if bytes[i] == 0 {
                return Err(NulError { position: i, bytes });
            }
            i += 1;
        }
        assert(bytes@.take(i as int) == bytes@);
        Ok(CStringBytes { bytes })
    }

    /// The UTF-8 bytes of `text` as a C string, or the refusal at their first
    /// zero byte.
    pub fn from_str(text: &str) -> (result: Result<CStringBytes, NulError>)
        ensures
            nul_free(text.spec_bytes()) <==> result is Ok,
            result matches Ok(string) ==> string@ == text.spec_bytes(),
            result matches Err(error) ==> error.bytes() == text.spec_bytes() && is_first_nul(
                text.spec_bytes(),
                error.position(),
            ),
    {
        CStringBytes::new(slice_to_vec(text.as_bytes()))
    }

    /// The C string that a reader sees of `bytes`: the bytes before their
    /// first zero, and all of them where none is zero.
    pub fn until_nul(bytes: Vec<u8>) -> (string: CStringBytes)
        ensures
            string@ == until_nul(bytes@),
            nul_free(bytes@) ==> string@ == bytes@,
    {
        match CStringBytes::new(bytes) {
            Ok(string) => {
                proof {
                    lemma_until_nul_of_nul_free(bytes@);
                }
                string
            },
            Err(error) => {
                let position: usize = error.position;
                let mut seen = error.bytes;
                seen.truncate(position);
                proof {
                    lemma_until_nul(bytes@, position as int);
                }
                CStringBytes { bytes: seen }
            },
        }
    }

    /// The C string that a reader sees of the UTF-8 bytes of `text`.
    pub fn until_nul_of_str(text: &str) -> (string: CStringBytes)
        ensures
            string@ == until_nul(text.spec_bytes()),
            nul_free(text.spec_bytes()) ==> string@ == text.spec_bytes(),
    {
        CStringBytes::until_nul(slice_to_vec(text.as_bytes()))
    }

    /// The bytes of the string; none of them is zero.
    pub fn as_bytes(&self) -> (bytes: &[u8])
        ensures
            bytes@ == self@,
            nul_free(bytes@),
    {
        proof {
            use_type_invariant(self);
        }
        self.bytes.as_slice()
    }

    /// Gives up the string for its bytes.
    pub fn into_bytes(self) -> (bytes: Vec<u8>)
        ensures
            bytes@ == self@,
            nul_free(bytes@),
    {
        proof {
            use_type_invariant(&self);
        }
        self.bytes
    }

    /// A copy of the string.
    pub fn duplicate(&self) -> (copy: CStringBytes)
        ensures
            copy@ == self@,
    {
        proof {
            use_type_invariant(self);
        }
        CStringBytes { bytes: slice_to_vec(self.bytes.as_slice()) }
    }
}

/// A fresh vector that holds the bytes of `bytes` in their order.
pub(crate) fn slice_to_vec(bytes: &[u8]) -> (copy: Vec<u8>)
    ensures
        copy@ == bytes@,
{
    let mut copy: Vec<u8> = Vec::new();
    let mut i: usize = 0;
    while i < bytes.len()
        invariant
            i <= bytes.len(),
            copy@ == bytes@.take(i as int),
        decreases bytes.len() - i,
    {
        copy.push(bytes[i]);
        i += 1;
    }
    copy
}

} // verus!
