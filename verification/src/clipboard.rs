//! Plain-value types shared with the platform clipboard layer: the text
//! snapshot the history stores, the clipboard data format the controller
//! recognizes, and the numeric error code the platform reports.

use vstd::prelude::*;
use crate::bytes::eq_bytes;

verus! {

/// One captured clipboard text payload. It is opaque to the controller:
/// equality is byte-for-byte and nothing else about the encoding matters.
#[derive(Debug)]
pub struct ClipboardText(pub Vec<u8>);

impl View for ClipboardText {
    type V = Seq<u8>;

    open spec fn view(&self) -> Seq<u8> {
        self.0@
    }
}

impl Clone for ClipboardText {
    fn clone(&self) -> (r: Self)
        ensures
            r@ == self@,
    {
        let v = self.0.clone();
        proof {
            assert(v@ =~= self.0@);
        }
        ClipboardText(v)
    }
}

impl PartialEq for ClipboardText {
    fn eq(&self, other: &Self) -> (r: bool) {
        eq_bytes(self.0.as_slice(), other.0.as_slice())
    }
}

impl vstd::std_specs::cmp::PartialEqSpecImpl for ClipboardText {
    open spec fn obeys_eq_spec() -> bool {
        true
    }

    open spec fn eq_spec(&self, other: &Self) -> bool {
        self@ == other@
    }
}

/// The clipboard data formats the controller can handle. Only text is
/// representable in the history; anything else makes the controller drop
/// its claim of ownership.
#[derive(Clone, Copy, Debug, PartialEq, Eq, Structural)]
pub enum ClipboardFormat {
    UnicodeText,
}

/// A numeric error code reported by the platform clipboard/window layer.
/// The platform layer decides which codes mean transient contention.
#[derive(Clone, Copy, Debug, PartialEq, Eq, Structural)]
pub struct ErrorCode(pub u32);

} // verus!
