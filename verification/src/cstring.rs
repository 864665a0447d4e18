//! Strings in the form that the native library reads: the bytes of the text
//! with a terminating zero byte, and no zero byte before it.

use vstd::prelude::*;
use vstd::string::StringSliceAdditionalSpecFns;

verus! {

/// A string with a terminating zero byte, owned. The native library reads it
/// through a pointer to its first byte, so it must outlive every native
/// structure that points to it.
#[derive(Debug)]
pub struct NulString {
    bytes: Vec<u8>,
}

impl View for NulString {
    type V = Seq<u8>;

    /// The bytes of the text, without the terminating zero.
    closed spec fn view(&self) -> Seq<u8> {
        self.bytes@.drop_last()
    }
}

impl NulString {
    #[verifier::type_invariant]
    closed spec fn terminated(&self) -> bool {
        &&& self.bytes@.len() >= 1
        &&& self.bytes@.last() == 0
        &&& !self.bytes@.drop_last().contains(0u8)
    }

    /// The string of the bytes of `value`, or nothing where one of them is
    /// zero: such a text has no form that the native library reads whole.
    pub fn new(value: &str) -> (made: Option<NulString>)
        ensures
            value.spec_bytes().contains(0u8) ==> made is None,
            !value.spec_bytes().contains(0u8) ==> made is Some && made->Some_0@
                == value.spec_bytes(),
    {
        let text = value.as_bytes();
        let mut bytes: Vec<u8> = Vec::new();
        let mut i: usize = 0;
        while i < text.len()
            invariant
                text@ == value.spec_bytes(),
                i <= text@.len(),
                bytes@ == text@.take(i as int),
                !text@.take(i as int).contains(0u8),
            decreases text@.len() - i,
        {
            let byte = text[i];
            if byte == 0 {
                assert(text@[i as int] == 0u8);
                return None;
            }
            bytes.push(byte);
            i += 1;
            assert(text@.take(i as int) =~= text@.take(i - 1).push(byte));
            assert(!text@.take(i as int).contains(0u8)) by {
                if text@.take(i as int).contains(0u8) {
                    let k = choose|k: int|
                        0 <= k < text@.take(i as int).len() && text@.take(i as int)[k] == 0u8;
                    if k < i - 1 {
                        assert(text@.take(i - 1)[k] == 0u8);
                    }
                }
            }
        }
        assert(text@.take(i as int) =~= text@);
        bytes.push(0);
        assert(bytes@.drop_last() =~= text@);
        Some(NulString { bytes })
    }

    /// Whether `value` has a form that the native library reads whole: none
    /// of its bytes is zero.
    pub fn accepts(value: &str) -> (yes: bool)
        ensures
            yes == !value.spec_bytes().contains(0u8),
    {
        let text = value.as_bytes();
        let mut i: usize = 0;
        while i < text.len()
            invariant
                text@ == value.spec_bytes(),
                i <= text@.len(),
                forall|k: int| 0 <= k < i ==> text@[k] != 0,
            decreases text@.len() - i,
        {
            if text[i] == 0 {
                assert(text@[i as int] == 0u8);
                return false;
            }
            i += 1;
        }
        true
    }

    /// The bytes of the text, followed by the terminating zero.
    pub fn as_bytes_with_nul(&self) -> (bytes: &[u8])
        ensures
            bytes@ == self@.push(0u8),
            !self@.contains(0u8),
    {
        proof {
            use_type_invariant(self);
            assert(self.bytes@ =~= self.bytes@.drop_last().push(0u8));
        }
        self.bytes.as_slice()
    }
}

} // verus!
