//! Which progress messages the node sends.

use vstd::prelude::*;

use crate::text::{decimal, decimal_string_u8};

verus! {

const SIMPLE_PROGRESS: u8 = 1;
const SENDING_TO_NETWORK: u8 = 2;
const COMPATIBILITY_MODE: u8 = 4;
const EXPECTED_HASH: u8 = 8;
// Bit 4 (value 16) is left unused.
const EXPECTED_MIME: u8 = 32;
const EXPECTED_DATA_LENGTH: u8 = 64;

/// Which progress messages the node sends for a request.
#[derive(Copy, Clone, Debug, Eq, PartialEq, Structural)]
pub struct Verbosity {
    pub simple_progress: bool,
    pub sending_to_network: bool,
    pub compatibility_mode: bool,
    pub expected_hashes: bool,
    pub expected_mime: bool,
    pub expected_data_length: bool,
}

/// The bit a flag sets when it holds.
pub open spec fn flag(b: bool, bit: nat) -> nat {
    if b {
        bit
    } else {
        0
    }
}

impl Verbosity {
    /// The bitmask of the flags: bits 0 to 3 for the first four, bit 5 for the MIME type
    /// and bit 6 for the data length; bit 4 is never set.
    pub open spec fn spec_bitmask(self) -> nat {
        flag(self.simple_progress, 1) + flag(self.sending_to_network, 2) + flag(
            self.compatibility_mode,
            4,
        ) + flag(self.expected_hashes, 8) + flag(self.expected_mime, 32) + flag(
            self.expected_data_length,
            64,
        )
    }

    pub fn as_bitmask(&self) -> (res: u8)
        ensures
            res as nat == self.spec_bitmask(),
            (res & 1 != 0) == self.simple_progress,
            (res & 2 != 0) == self.sending_to_network,
            (res & 4 != 0) == self.compatibility_mode,
            (res & 8 != 0) == self.expected_hashes,
            res & 16 == 0,
            (res & 32 != 0) == self.expected_mime,
            (res & 64 != 0) == self.expected_data_length,
            res < 128,
    {
        let mut res: u8 = 0;
        if self.simple_progress {
            assert(0u8 | 1u8 == 1u8) by (bit_vector);
            res |= SIMPLE_PROGRESS;
        }
        assert(res as nat == flag(self.simple_progress, 1));
        if self.sending_to_network {
            assert(res < 2 ==> res | 2 == res + 2) by (bit_vector);
            res |= SENDING_TO_NETWORK;
        }
        assert(res < 4);
        if self.compatibility_mode {
            assert(res < 4 ==> res | 4 == res + 4) by (bit_vector);
            res |= COMPATIBILITY_MODE;
        }
        assert(res < 8);
        if self.expected_hashes {
            assert(res < 8 ==> res | 8 == res + 8) by (bit_vector);
            res |= EXPECTED_HASH;
        }
        assert(res < 16);
        if self.expected_mime {
            assert(res < 16 ==> res | 32 == res + 32) by (bit_vector);
            res |= EXPECTED_MIME;
        }
        assert(res < 64);
        if self.expected_data_length {
            assert(res < 64 ==> res | 64 == res + 64) by (bit_vector);
            res |= EXPECTED_DATA_LENGTH;
        }
        proof {
            lemma_verbosity_bits(*self);
        }
        let r = res;
        assert((r & 1 != 0) == (r % 2 == 1) && (r & 2 != 0) == ((r / 2) % 2 == 1) && (r & 4 != 0)
            == ((r / 4) % 2 == 1) && (r & 8 != 0) == ((r / 8) % 2 == 1) && (r & 16 == 0) == ((r
            / 16) % 2 == 0) && (r & 32 != 0) == ((r / 32) % 2 == 1) && (r & 64 != 0) == ((r / 64)
            % 2 == 1)) by (bit_vector);
        res
    }

    /// The text of the flags on the wire: the decimal bitmask.
    pub fn text(&self) -> (res: String)
        ensures
            res@ == decimal(self.spec_bitmask()),
    {
        decimal_string_u8(self.as_bitmask())
    }
}

/// Each flag has its own bit of the mask: bit 0 (value 1) for simple progress, bit 1
/// (2) for sending to the network, bit 2 (4) for compatibility mode, bit 3 (8) for
/// expected hashes, bit 5 (32) for the expected MIME type and bit 6 (64) for the expected
/// data length; bit 4 (16) and the bits above 6 are never set.
pub proof fn lemma_verbosity_bits(v: Verbosity)
    ensures
        (v.spec_bitmask() % 2 == 1) == v.simple_progress,
        ((v.spec_bitmask() / 2) % 2 == 1) == v.sending_to_network,
        ((v.spec_bitmask() / 4) % 2 == 1) == v.compatibility_mode,
        ((v.spec_bitmask() / 8) % 2 == 1) == v.expected_hashes,
        (v.spec_bitmask() / 16) % 2 == 0,
        ((v.spec_bitmask() / 32) % 2 == 1) == v.expected_mime,
        ((v.spec_bitmask() / 64) % 2 == 1) == v.expected_data_length,
        v.spec_bitmask() < 128,
{
}

} // verus!
