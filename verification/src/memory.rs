//! Linear-memory accessor: bounds-checked reads and writes of byte ranges
//! in the guest's flat address space.
//!
//! Offsets and lengths come from the guest and are untrusted. Every access
//! is validated against the current memory size before any byte is touched;
//! an out-of-range request fails the in-flight call and leaves memory
//! untouched. Decoding bytes to text fails explicitly -- it never silently
//! substitutes.

use vstd::prelude::*;
use vstd::string::StringSliceAdditionalSpecFns;
use vstd::utf8::{decode_utf8, decode_utf8_encode_utf8, encode_utf8, valid_utf8};
use crate::BridgeError;

verus! {

/// The guest's single flat, bounds-limited address space: the only memory
/// region directly manipulable through the import surface.
pub struct GuestMemory {
    pub bytes: Vec<u8>,
}

impl View for GuestMemory {
    type V = Seq<u8>;

    open spec fn view(&self) -> Seq<u8> {
        self.bytes@
    }
}

/// How many payload bytes a clipped write transfers: the payload length,
/// capped at the length the guest asked for.
pub open spec fn clipped_len(len: u32, payload: Seq<u8>) -> int {
    if payload.len() <= len {
        payload.len() as int
    } else {
        len as int
    }
}

impl GuestMemory {
    /// Fresh zeroed memory of the given size.
    pub fn new(size: usize) -> (m: Self)
        ensures
            m@.len() == size,
            forall|i: int| 0 <= i < size ==> m@[i] == 0u8,
    {
        let mut bytes: Vec<u8> = Vec::new();
        let mut i: usize = 0;
        while i < size
            invariant
                i <= size,
                bytes@.len() == i,
                forall|j: int| 0 <= j < i ==> bytes@[j] == 0u8,
            decreases size - i,
        {
            bytes.push(0u8);
            i = i + 1;
        }
        GuestMemory { bytes }
    }

    /// Memory whose contents are the given bytes, as a loader's data
    /// segment would leave them.
    pub fn from_bytes(bytes: Vec<u8>) -> (m: Self)
        ensures
            m@ == bytes@,
    {
        GuestMemory { bytes }
    }

    /// The current memory size in bytes.
    pub fn size(&self) -> (n: usize)
        ensures
            n == self@.len(),
    {
        self.bytes.len()
    }

    /// Reads the byte range `[offset, offset + len)`, after validating that
    /// it lies inside memory.
    pub fn read_bytes(&self, offset: u32, len: u32) -> (r: Result<Vec<u8>, BridgeError>)
        ensures
            r is Ok <==> offset + len <= self@.len(),
            r matches Ok(out) ==> out@ == self@.subrange(offset as int, offset + len),
            r matches Err(e) ==> e == BridgeError::OutOfRange,
    {
        if (offset as u64) + (len as u64) > self.bytes.len() as u64 {
            return Err(BridgeError::OutOfRange);
        }
        let n = self.bytes.len();
        let mut out: Vec<u8> = Vec::new();
        let mut i: usize = 0;
        while i < len as usize
            invariant
                i <= len,
                offset + len <= n == self@.len(),
                out@.len() == i,
                forall|j: int| 0 <= j < i ==> out@[j] == self@[offset + j],
            decreases len as usize - i,
        {
            out.push(self.bytes[offset as usize + i]);
            i = i + 1;
        }
        proof {
            assert(out@ =~= self@.subrange(offset as int, offset + len));
        }
        Ok(out)
    }
}

/// Relies on `String::from_utf8`: it succeeds exactly when the input bytes
/// are valid UTF-8, and the string it returns is their decoding.
#[verifier::external_body]
fn string_from_utf8(bytes: Vec<u8>) -> (r: Option<String>)
    ensures
        r is Some <==> valid_utf8(bytes@),
        r matches Some(s) ==> s@ == decode_utf8(bytes@),
{
    String::from_utf8(bytes).ok()
}

/// Pulls the byte range `[ptr, ptr + len)` out of guest memory and decodes
/// it as text. Fails with `OutOfRange` when the range leaves memory, and
/// with `InvalidText` when the bytes are not valid text.
pub fn get_string_from_memory(mem: &GuestMemory, ptr: u32, len: u32) -> (r: Result<
    String,
    BridgeError,
>)
    ensures
        r is Ok <==> ptr + len <= mem@.len() && valid_utf8(mem@.subrange(ptr as int, ptr + len)),
        r matches Ok(s) ==> s@ == decode_utf8(mem@.subrange(ptr as int, ptr + len)),
        ptr + len > mem@.len() ==> r == Err::<String, BridgeError>(BridgeError::OutOfRange),
        ptr + len <= mem@.len() && !valid_utf8(mem@.subrange(ptr as int, ptr + len)) ==> r
            == Err::<String, BridgeError>(BridgeError::InvalidText),
{
    let bytes = match mem.read_bytes(ptr, len) {
        Ok(bytes) => bytes,
        Err(e) => {
            return Err(e);
        },
    };
    match string_from_utf8(bytes) {
        Some(s) => Ok(s),
        None => Err(BridgeError::InvalidText),
    }
}

/// Writes the text's bytes into the byte range `[ptr, ptr + len)` of guest
/// memory, after validating that the range lies inside memory. The write is
/// clipped: it transfers `min(len, payload length)` bytes and touches no
/// byte outside `[ptr, ptr + len)`, even when the payload is larger.
pub fn set_memory_to_string(mem: &mut GuestMemory, ptr: u32, len: u32, string: &str) -> (r: Result<
    (),
    BridgeError,
>)
    ensures
        r is Ok <==> ptr + len <= old(mem)@.len(),
        r is Err ==> final(mem)@ == old(mem)@ && r == Err::<(), BridgeError>(
            BridgeError::OutOfRange,
        ),
        r is Ok ==> final(mem)@.len() == old(mem)@.len(),
        r is Ok ==> forall|i: int|
            0 <= i < clipped_len(len, string.spec_bytes()) ==> final(mem)@[ptr + i]
                == string.spec_bytes()[i],
        r is Ok ==> forall|i: int|
            0 <= i < old(mem)@.len() && !(ptr <= i < ptr + clipped_len(len, string.spec_bytes()))
                ==> final(mem)@[i] == old(mem)@[i],
{
    if (ptr as u64) + (len as u64) > mem.bytes.len() as u64 {
        return Err(BridgeError::OutOfRange);
    }
    let n = mem.bytes.len();
    let payload = string.as_bytes();
    let write_len: usize = if payload.len() <= len as usize {
        payload.len()
    } else {
        len as usize
    };
    let mut i: usize = 0;
    while i < write_len
        invariant
            i <= write_len,
            write_len == clipped_len(len, string.spec_bytes()),
            write_len <= len,
            ptr + len <= n == mem@.len(),
            payload@ == string.spec_bytes(),
            mem@.len() == old(mem)@.len(),
            forall|j: int| 0 <= j < i ==> mem@[ptr + j] == string.spec_bytes()[j],
            forall|j: int|
                0 <= j < mem@.len() && !(ptr <= j < ptr + i) ==> mem@[j] == old(mem)@[j],
        decreases write_len - i,
    {
        mem.bytes[ptr as usize + i] = payload[i];
        i = i + 1;
    }
    Ok(())
}

/// Law: marshaling text through guest memory is a round trip. Any valid
/// text bytes -- the empty range and multi-byte characters included --
/// decode to text whose encoding is byte-for-byte the original, of the
/// original length. So a message set from those bytes reads back exactly
/// them, length first.
pub proof fn lemma_text_round_trip(bytes: Seq<u8>)
    requires
        valid_utf8(bytes),
    ensures
        encode_utf8(decode_utf8(bytes)) == bytes,
        encode_utf8(decode_utf8(bytes)).len() == bytes.len(),
{
    decode_utf8_encode_utf8(bytes);
}

} // verus!
