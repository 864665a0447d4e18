//! Borrowed views of buffers: the bytes that a native buffer descriptor (a
//! pointer and a length) designates, without a copy.

use vstd::prelude::*;
use vstd::slice::{axiom_slice_ext_equal, slice_subrange};
use vstd::string::StringSliceAdditionalSpecFns;

verus! {

/// What to borrow for a native pointer and length.
#[derive(Debug, Clone, Copy, PartialEq, Eq, Structural)]
pub enum SliceSource {
    /// The empty slice. The pointer is not looked at.
    Empty,
    /// The `length` items that start at `address`, which is not null.
    Native { address: usize, length: usize },
}

/// Converts an array pointer and a length to the slice to borrow. A length of
/// zero gives the empty slice whatever the pointer is, null included: the
/// constructor of slices from raw parts, which takes no null pointer even for
/// an empty range, is then never reached. With a length above zero the native
/// library hands out a pointer that is not null.
pub fn slice_conv(address: usize, len: usize) -> (source: SliceSource)
    requires
        len != 0 ==> address != 0,
    ensures
        len == 0 ==> source == SliceSource::Empty,
        len != 0 ==> source == (SliceSource::Native { address, length: len }),
        source matches SliceSource::Native { address, length } ==> address != 0 && length != 0,
{
    if len == 0 {
        SliceSource::Empty
    } else {
        SliceSource::Native { address, length: len }
    }
}

/// The length that a native buffer descriptor holds for `len` bytes: the
/// descriptor's length field has 32 bits.
pub open spec fn native_length(len: nat) -> nat {
    len % 0x1_0000_0000
}

/// A buffer as the native library sees it: borrowed bytes, as many as the
/// 32-bit length field of a native buffer descriptor can count. It owns
/// nothing: the bytes must stay where they are for as long as it is in use.
#[derive(Debug, Clone, Copy)]
pub struct BufferRef<'a> {
    bytes: &'a [u8],
}

impl<'a> View for BufferRef<'a> {
    type V = Seq<u8>;

    closed spec fn view(&self) -> Seq<u8> {
        self.bytes@
    }
}

impl<'a> BufferRef<'a> {
    /// The buffer that borrows the bytes `bytes`.
    pub closed spec fn holding(bytes: Seq<u8>) -> BufferRef<'a> {
        BufferRef { bytes: choose|slice: &'a [u8]| slice@ == bytes }
    }

    /// The buffer of the first bytes of `bytes`, as many as a native length
    /// field holds for their number.
    pub open spec fn of(bytes: Seq<u8>) -> BufferRef<'a> {
        BufferRef::holding(bytes.take(native_length(bytes.len()) as int))
    }

    #[verifier::type_invariant]
    closed spec fn fits_native_length(&self) -> bool {
        self.bytes@.len() <= u32::MAX
    }

    /// Get the bytes of the buffer.
    pub fn as_bytes(&self) -> (bytes: &'a [u8])
        ensures
            bytes@ == self@,
    {
        self.bytes
    }

    /// The length of the buffer, as the native library counts it.
    pub fn len(&self) -> (length: u32)
        ensures
            length == self@.len(),
    {
        proof {
            use_type_invariant(self);
        }
        self.bytes.len() as u32
    }

    /// The buffer of a slice that was made from a native descriptor, whose
    /// length a native length field holds.
    pub fn from_ffi_ref(bytes: &'a [u8]) -> (buffer: Self)
        requires
            bytes@.len() <= u32::MAX,
        ensures
            buffer@ == bytes@,
            buffer == BufferRef::holding(bytes@),
    {
        proof {
            broadcast use axiom_slice_ext_equal;

            let chosen = choose|slice: &'a [u8]| slice@ == bytes@;
            assert(chosen@ == bytes@);
            assert(chosen.len() == bytes.len());
            assert(chosen =~= bytes);
        }
        BufferRef { bytes }
    }

    /// The buffer of the first bytes of `value`, as many as a native length
    /// field holds for its length: all of them unless `value` is longer than
    /// that field can count.
    pub fn from_bytes(value: &'a [u8]) -> (buffer: Self)
        ensures
            buffer == BufferRef::of(value@),
            buffer@ == value@.take(native_length(value@.len()) as int),
            value@.len() <= u32::MAX ==> buffer@ == value@,
    {
        let kept: u64 = (value.len() as u64) % 0x1_0000_0000;
        let bytes = slice_subrange(value, 0, kept as usize);
        assert(value@.len() <= u32::MAX ==> bytes@ =~= value@);
        BufferRef::from_ffi_ref(bytes)
    }

    /// The buffer of the bytes of a string.
    pub fn from_str(value: &'a str) -> (buffer: Self)
        ensures
            buffer == BufferRef::of(value.spec_bytes()),
            buffer@ == value.spec_bytes().take(native_length(value.spec_bytes().len()) as int),
            value.spec_bytes().len() <= u32::MAX ==> buffer@ == value.spec_bytes(),
    {
        BufferRef::from_bytes(value.as_bytes())
    }
}

impl<'a> From<&'a str> for BufferRef<'a> {
    fn from(value: &'a str) -> (buffer: Self) {
        BufferRef::from_str(value)
    }
}

impl<'a> vstd::std_specs::convert::FromSpecImpl<&'a str> for BufferRef<'a> {
    open spec fn obeys_from_spec() -> bool {
        true
    }

    open spec fn from_spec(value: &'a str) -> Self {
        BufferRef::of(value.spec_bytes())
    }
}

impl<'a> From<&'a [u8]> for BufferRef<'a> {
    fn from(value: &'a [u8]) -> (buffer: Self) {
        BufferRef::from_bytes(value)
    }
}

impl<'a> vstd::std_specs::convert::FromSpecImpl<&'a [u8]> for BufferRef<'a> {
    open spec fn obeys_from_spec() -> bool {
        true
    }

    open spec fn from_spec(value: &'a [u8]) -> Self {
        BufferRef::of(value@)
    }
}

} // verus!
