//! The fixed usage-page and usage tables of the descriptor builder.

use vstd::prelude::*;

verus! {

/// A HID usage page: the namespace that the following usages belong to.
#[derive(Clone, Copy, Debug, PartialEq, Eq, Structural)]
pub enum UsagePage {
    GenericDesktop,
    KeyboardKeypad,
    Button,
    Consumer,
}

impl UsagePage {
    /// The one-byte HID code of the usage page.
    pub open spec fn code(self) -> u8 {
        match self {
            UsagePage::GenericDesktop => 0x01,
            UsagePage::KeyboardKeypad => 0x07,
            UsagePage::Button => 0x09,
            UsagePage::Consumer => 0x0c,
        }
    }

    /// The byte that a Usage Page item carries for this page.
    pub fn value(self) -> (r: u8)
        ensures
            r == self.code(),
    {
        match self {
            UsagePage::GenericDesktop => 0x01,
            UsagePage::KeyboardKeypad => 0x07,
            UsagePage::Button => 0x09,
            UsagePage::Consumer => 0x0c,
        }
    }
}

/// A HID usage: a control or data item within a usage page.
#[derive(Clone, Copy, Debug, PartialEq, Eq, Structural)]
pub enum Usage {
    Keyboard,
    Mouse,
    Pointer,
    X,
    Y,
    Wheel,
    AcPan,
}

impl Usage {
    /// How many bytes the usage value takes in a Usage item.
    pub open spec fn byte_len(self) -> nat {
        match self {
            Usage::AcPan => 2,
            _ => 1,
        }
    }

    /// The usage value, least significant byte first.
    pub open spec fn bytes(self) -> Seq<u8> {
        match self {
            Usage::Keyboard => seq![0x06u8],
            Usage::Mouse => seq![0x02u8],
            Usage::Pointer => seq![0x01u8],
            Usage::X => seq![0x30u8],
            Usage::Y => seq![0x31u8],
            Usage::Wheel => seq![0x38u8],
            Usage::AcPan => seq![0x38u8, 0x02u8],
        }
    }

    /// Number of bytes of the usage value.
    pub fn size(self) -> (r: usize)
        ensures
            r == self.byte_len(),
    {
        match self {
            Usage::AcPan => 2,
            _ => 1,
        }
    }

    /// The usage value as the bytes that follow the tag of a Usage item.
    pub fn value(self) -> (r: Vec<u8>)
        ensures
            r@ == self.bytes(),
            r@.len() == self.byte_len(),
    {
        let mut rv: Vec<u8> = vec![0u8; self.size()];
        match self {
            Usage::Keyboard => {
                rv[0] = 0x06;
            },
            Usage::Mouse => {
                rv[0] = 0x02;
            },
            Usage::Pointer => {
                rv[0] = 0x01;
            },
            Usage::X => {
                rv[0] = 0x30;
            },
            Usage::Y => {
                rv[0] = 0x31;
            },
            Usage::Wheel => {
                rv[0] = 0x38;
            },
            Usage::AcPan => {
                rv[0] = 0x38;
                rv[1] = 0x02;
            },
        }
        rv
    }
}

/// Every usage value is exactly as long as its declared size: two bytes for
/// AC Pan, the only two-byte usage, and one byte for every other usage.
pub proof fn lemma_usage_size(u: Usage)
    ensures
        u.bytes().len() == u.byte_len(),
        u.byte_len() == 1 || u.byte_len() == 2,
        u.byte_len() == 2 <==> u == Usage::AcPan,
{
}

} // verus!
