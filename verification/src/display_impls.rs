//! How the versions of a brick are shown.

use vstd::prelude::*;
use vstd::string::StringExecFns;
use crate::opcodes::GetVersionsResponse;
use crate::text::{hex, push_hex};

verus! {

/// A word with its two bytes swapped. The brick sends a version high byte
/// first, while the words of a reply are read low byte first.
pub open spec fn swapped(word: u16) -> u16 {
    ((word % 256) * 256 + word / 256) as u16
}

/// A word with its two bytes swapped.
pub fn swap_bytes(word: u16) -> (r: u16)
    ensures
        r == swapped(word),
{
    (word % 256) * 256 + word / 256
}

impl GetVersionsResponse {
    /// The versions as `ROM: major.minor; FW: major.minor`, in hexadecimal.
    pub open spec fn text(&self) -> Seq<char> {
        "ROM: "@ + hex(swapped(self.rom[0]) as nat) + "."@ + hex(swapped(self.rom[1]) as nat)
            + "; FW: "@ + hex(swapped(self.firmware[0]) as nat) + "."@ + hex(
            swapped(self.firmware[1]) as nat,
        )
    }

    /// The versions as `ROM: major.minor; FW: major.minor`, in hexadecimal.
    pub fn to_string(&self) -> (r: String)
        ensures
            r@ == self.text(),
    {
        let mut out = String::from_str("ROM: ");
        push_hex(&mut out, swap_bytes(self.rom[0]) as usize);
        out.append(".");
        push_hex(&mut out, swap_bytes(self.rom[1]) as usize);
        out.append("; FW: ");
        push_hex(&mut out, swap_bytes(self.firmware[0]) as usize);
        out.append(".");
        push_hex(&mut out, swap_bytes(self.firmware[1]) as usize);
        assert(out@ =~= self.text());
        out
    }
}

} // verus!
