//! Conversion of host strings into NUL-terminated byte buffers.

use vstd::prelude::*;
use vstd::string::StringSliceAdditionalSpecFns;

verus! {

/// Whether `bytes` holds a zero byte anywhere.
pub open spec fn has_nul(bytes: Seq<u8>) -> bool {
    exists|i: int| 0 <= i < bytes.len() && bytes[i] == 0
}

/// Whether `i` is the position of the first zero byte of `bytes`.
pub open spec fn is_first_nul(bytes: Seq<u8>, i: int) -> bool {
    &&& 0 <= i < bytes.len()
    &&& bytes[i] == 0
    &&& forall|j: int| 0 <= j < i ==> bytes[j] != 0
}

/// The buffer handed to the native side for the text `bytes`: the text
/// itself followed by one terminating zero byte.
pub open spec fn c_text(bytes: Seq<u8>) -> Seq<u8> {
    bytes.push(0u8)
}

/// Whether `buf` is a well-formed C string buffer: its last byte is zero and
/// no byte before it is.
pub open spec fn terminated(buf: Seq<u8>) -> bool {
    buf.len() > 0 && is_first_nul(buf, buf.len() - 1)
}

/// A text cannot cross the boundary because it holds a zero byte.
#[derive(Debug, Clone, Copy, PartialEq, Eq, Structural)]
pub struct NulError {
    /// Byte offset of the first zero byte within the rejected text.
    pub position: usize,
}

/// An owned, NUL-terminated byte buffer ready to be passed as `const char*`.
#[derive(Debug, PartialEq, Eq)]
pub struct CText {
    bytes: Vec<u8>,
}

impl View for CText {
    type V = Seq<u8>;

    closed spec fn view(&self) -> Seq<u8> {
        self.bytes@
    }
}

impl Clone for CText {
    fn clone(&self) -> (r: CText)
        ensures
            r@ == self@,
    {
        proof {
            use_type_invariant(self);
        }
        CText { bytes: vstd::slice::slice_to_vec(self.bytes.as_slice()) }
    }
}

impl CText {
    #[verifier::type_invariant]
    spec fn inv(self) -> bool {
        terminated(self.bytes@)
    }

    /// Converts `s`, rejecting it when it holds a zero byte.
    pub fn new(s: &str) -> (r: Result<CText, NulError>)
        ensures
            match r {
                Ok(t) => !has_nul(s.spec_bytes()) && t@ == c_text(s.spec_bytes()),
                Err(e) => is_first_nul(s.spec_bytes(), e.position as int),
            },
    {
        let bytes = s.as_bytes();
        let n = bytes.len();
        let mut out: Vec<u8> = Vec::new();
        let mut i: usize = 0;
        while i < n
            invariant
                n == bytes@.len(),
                bytes@ == s.spec_bytes(),
                0 <= i <= n,
                out@ == bytes@.subrange(0, i as int),
                forall|j: int| 0 <= j < i ==> bytes@[j] != 0,
            decreases n - i,
        {
            let b = bytes[i];
            if b == 0 {
                return Err(NulError { position: i });
            }
            out.push(b);
            i += 1;
            assert(out@ =~= bytes@.subrange(0, i as int));
        }
        assert(out@ =~= bytes@);
        out.push(0u8);
        Ok(CText { bytes: out })
    }

    /// Converts an optional text; an absent text stays absent.
    pub fn new_opt(s: Option<&str>) -> (r: Result<Option<CText>, NulError>)
        ensures
            match (s, r) {
                (None, Ok(None)) => true,
                (Some(text), Ok(Some(t))) => {
                    !has_nul(text.spec_bytes()) && t@ == c_text(text.spec_bytes())
                },
                (Some(text), Err(e)) => is_first_nul(text.spec_bytes(), e.position as int),
                _ => false,
            },
    {
        match s {
            Some(text) => Ok(Some(CText::new(text)?)),
            None => Ok(None),
        }
    }

    /// The buffer, terminator included.
    pub fn as_bytes(&self) -> (r: &[u8])
        ensures
            r@ == self@,
            terminated(self@),
    {
        proof {
            use_type_invariant(self);
        }
        self.bytes.as_slice()
    }
}

/// A text without zero bytes keeps every byte: the terminator that the
/// conversion appends is the first zero the native side meets, so the
/// native reader sees the whole text and nothing else.
pub proof fn lemma_c_text_not_truncated(bytes: Seq<u8>)
    requires
        !has_nul(bytes),
    ensures
        terminated(c_text(bytes)),
        c_text(bytes).drop_last() == bytes,
        is_first_nul(c_text(bytes), bytes.len() as int),
{
    assert(c_text(bytes).drop_last() =~= bytes);
    assert forall|j: int| 0 <= j < bytes.len() implies c_text(bytes)[j] != 0 by {
        assert(c_text(bytes)[j] == bytes[j]);
    }
}

} // verus!
