//! Exclusive ownership of the native strings that name streams and tracks.
//!
//! The engine reads an identifier as a buffer of bytes closed by a zero byte.
//! An [`OwnedHandle`] is such a buffer. It has one owner, is never changed
//! after it was made, and is given up by value, so that it cannot be given up
//! twice.

use vstd::prelude::*;
use vstd::string::StringSliceAdditionalSpecFns;
use vstd::utf8::encode_utf8;
use crate::error::RtcError;

verus! {

/// True when `text` holds no zero byte, so that the engine reads all of it.
pub open spec fn encodable(text: Seq<u8>) -> bool {
    forall|i: int| 0 <= i < text.len() ==> text[i] != 0u8
}

/// The buffer the engine is handed for `text`: its bytes, then a zero byte.
pub open spec fn native_encoding(text: Seq<u8>) -> Seq<u8> {
    text.push(0u8)
}

/// A buffer the engine can read as a string: it ends with the only zero byte
/// it holds.
pub open spec fn is_native_string(buffer: Seq<u8>) -> bool {
    &&& buffer.len() > 0
    &&& buffer.last() == 0u8
    &&& encodable(buffer.drop_last())
}

/// The encoding of an encodable text is a native string, and the text can be
/// read back from it.
pub proof fn lemma_encoding_is_native_string(text: Seq<u8>)
    requires
        encodable(text),
    ensures
        is_native_string(native_encoding(text)),
        native_encoding(text).drop_last() == text,
{
    assert(native_encoding(text).drop_last() =~= text);
}

/// An identifier in the engine's encoding, owned by the one value that
/// acquired it.
pub struct OwnedHandle {
    buffer: Vec<u8>,
}

impl OwnedHandle {
    /// The bytes of the buffer, the closing zero byte included.
    pub closed spec fn view(&self) -> Seq<u8> {
        self.buffer@
    }

    #[verifier::type_invariant]
    spec fn well_formed(&self) -> bool {
        is_native_string(self.buffer@)
    }

    /// Encodes `text` for the engine. Fails with `EncodingError` exactly
    /// when `text` holds a zero byte.
    pub fn acquire(text: &str) -> (r: Result<OwnedHandle, RtcError>)
        ensures
            match r {
                Ok(handle) => encodable(text.spec_bytes()) && handle@ == native_encoding(
                    text.spec_bytes(),
                ),
                Err(e) => !encodable(text.spec_bytes()) && e == RtcError::EncodingError,
            },
    {
        let bytes = text.as_bytes();
        let mut buffer: Vec<u8> = Vec::new();
        let mut i: usize = 0;
        while i < bytes.len()
            invariant
                i <= bytes.len(),
                bytes@ == text.spec_bytes(),
                buffer@ == bytes@.subrange(0, i as int),
                encodable(buffer@),
            decreases bytes.len() - i,
        {
            let b: u8 = bytes[i];
            if b == 0 {
                return Err(RtcError::EncodingError);
            }
            buffer.push(b);
            i += 1;
            assert(buffer@ =~= bytes@.subrange(0, i as int));
        }
        assert(buffer@ =~= text.spec_bytes());
        buffer.push(0);
        proof {
            lemma_encoding_is_native_string(text.spec_bytes());
        }
        Ok(OwnedHandle { buffer })
    }

    /// Gives the buffer up. The handle is taken by value: after this call
    /// there is nothing left that could be released again.
    pub fn release(self) {
    }

    /// The buffer as the engine reads it.
    pub fn as_bytes(&self) -> (bytes: &[u8])
        ensures
            bytes@ == self@,
            is_native_string(bytes@),
    {
        proof {
            use_type_invariant(self);
        }
        self.buffer.as_slice()
    }
}

/// The name of a resource: the text the host knows it by, and the buffer the
/// engine reads the same text from.
pub struct Identifier {
    text: String,
    raw: OwnedHandle,
}

impl Identifier {
    /// The text.
    pub closed spec fn view(&self) -> Seq<char> {
        self.text@
    }

    #[verifier::type_invariant]
    spec fn well_formed(&self) -> bool {
        &&& encodable(encode_utf8(self.text@))
        &&& self.raw@ == native_encoding(encode_utf8(self.text@))
    }

    /// Acquires the native buffer for `text`. Fails with `EncodingError`
    /// exactly when `text` holds a zero byte.
    pub fn new(text: &str) -> (r: Result<Identifier, RtcError>)
        ensures
            match r {
                Ok(name) => encodable(text.spec_bytes()) && name@ == text@,
                Err(e) => !encodable(text.spec_bytes()) && e == RtcError::EncodingError,
            },
    {
        match OwnedHandle::acquire(text) {
            Ok(raw) => Ok(Identifier { text: text.to_owned(), raw }),
            Err(e) => Err(e),
        }
    }

    /// The text.
    pub fn as_str(&self) -> (text: &str)
        ensures
            text@ == self@,
    {
        self.text.as_str()
    }

    /// The buffer the engine reads the text from.
    pub fn raw(&self) -> (raw: &OwnedHandle)
        ensures
            encodable(encode_utf8(self@)),
            raw@ == native_encoding(encode_utf8(self@)),
    {
        proof {
            use_type_invariant(self);
        }
        &self.raw
    }

    /// Gives the name up, and its native buffer with it.
    pub fn release(self) {
        let Identifier { text: _, raw } = self;
        raw.release();
    }
}

/// The handle of a resource of the engine that is alive. The engine hands
/// out zero where it created nothing, so a handle is never zero.
pub struct NativeHandle {
    address: u64,
}

impl NativeHandle {
    /// The handle as the engine gave it.
    pub closed spec fn view(&self) -> u64 {
        self.address
    }

    #[verifier::type_invariant]
    spec fn well_formed(&self) -> bool {
        self.address != 0
    }

    /// The handle for what the engine returned from a creation: `None`
    /// exactly when that is zero.
    pub fn from_raw(address: u64) -> (handle: Option<NativeHandle>)
        ensures
            match handle {
                Some(h) => address != 0 && h@ == address,
                None => address == 0,
            },
    {
        if address == 0 {
            None
        } else {
            Some(NativeHandle { address })
        }
    }

    /// The handle as the engine gave it.
    pub fn address(&self) -> (address: u64)
        ensures
            address == self@,
            address != 0,
    {
        proof {
            use_type_invariant(self);
        }
        self.address
    }
}

} // verus!
