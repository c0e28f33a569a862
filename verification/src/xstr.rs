//! Strings on their way to Xlib.

use vstd::prelude::*;
use vstd::string::StringSliceAdditionalSpecFns;

verus! {

/// A string slice that is to be handed to Xlib as a C string.
pub struct XStr<'a>(pub &'a str);

/// `bytes` with the terminating zero byte behind them.
pub open spec fn terminated(bytes: Seq<u8>) -> Seq<u8> {
    bytes.push(0u8)
}

impl<'a> XStr<'a> {
    /// The bytes of the string.
    pub open spec fn spec_bytes(&self) -> Seq<u8> {
        self.0.spec_bytes()
    }

    /// Whether the string holds a zero byte, which a C string cannot.
    pub open spec fn has_nul(&self) -> bool {
        self.spec_bytes().contains(0u8)
    }

    /// The string as the bytes of a C string: its own bytes and a zero
    /// byte behind them. There is none for a string that holds a zero byte
    /// itself.
    pub fn c_bytes(&self) -> (bytes: Option<Vec<u8>>)
        ensures
            bytes is Some <==> !self.has_nul(),
            bytes matches Some(b) ==> b@ == terminated(self.spec_bytes()),
    {
        let source = self.0.as_bytes();
        let mut bytes: Vec<u8> = Vec::new();
        let mut i: usize = 0;
        while i < source.len()
            invariant
                i <= source@.len(),
                source@ == self.spec_bytes(),
                bytes@ == source@.take(i as int),
                !source@.take(i as int).contains(0u8),
            decreases source@.len() - i,
        {
            let byte = source[i];
            if byte == 0 {
                assert(source@[i as int] == 0u8);
                return None;
            }
            bytes.push(byte);
            i = i + 1;
            assert(source@.take(i as int) =~= source@.take(i - 1).push(byte));
            assert forall|j: int| 0 <= j < i implies source@.take(i as int)[j] != 0u8 by {
                if j < i - 1 {
                    assert(source@.take(i - 1)[j] == source@[j]);
                    assert(source@.take(i - 1).contains(source@[j]));
                }
            }
        }
        assert(source@.take(i as int) =~= source@);
        bytes.push(0);
        Some(bytes)
    }
}

} // verus!
