//! The link layer: what the host keeps in mind between two frames.
//!
//! The brick takes two successive frames with the same opcode byte for one
//! command sent twice, and ignores the second. So the host toggles bit 0x08
//! of the opcode byte from frame to frame, starting with the bit clear. It
//! also leaves at least 300 ms between two transmissions, and waits at most
//! one second for a reply.
//!
//! The link does no input or output. It says which bytes are to be written
//! and when; whoever owns the device writes them and reports the time.

use vstd::prelude::*;
use vstd::slice::slice_subrange;
use crate::codec::{encode_frame, frame};
use crate::errors::Error;
use crate::opcodes::{short_buffer_message, Opcode, Opcodes};

verus! {

/// The least time between two transmissions, in milliseconds.
pub const TX_SEPARATION_MS: u64 = 300;

/// The longest wait for a reply, in milliseconds.
pub const READ_TIMEOUT_MS: u64 = 1000;

/// The most bytes that are read of a reply at once.
pub const READ_SIZE: usize = 256;

/// The most parameter bytes that a request can carry.
pub const SCRATCH_SIZE: usize = 1024;

/// The bit of the opcode byte that is toggled from frame to frame.
pub const ALTERNATE_BIT: u8 = 0x08;

/// The opcode byte as it goes on the wire: with bit 0x08 set in the
/// alternate form.
pub open spec fn wire_opcode(code: u8, alternate: bool) -> u8 {
    if alternate {
        code | 0x08
    } else {
        code
    }
}

/// The frame that carries a request in the plain or the alternate form.
pub open spec fn request_frame<O: Opcode>(msg: O, alternate: bool) -> Seq<u8> {
    frame(wire_opcode(msg.opcode(), alternate), msg.encoding())
}

/// The state of the link to one brick. The link is owned by one session:
/// it cannot be copied.
#[derive(Debug, PartialEq, Eq)]
pub struct Link {
    use_alternate_opcode: bool,
    last_tx: u64,
}

impl Link {
    /// Whether the next frame goes out in the alternate form.
    pub closed spec fn alternate(&self) -> bool {
        self.use_alternate_opcode
    }

    /// The time of the last transmission, in milliseconds.
    pub closed spec fn last_tx(&self) -> u64 {
        self.last_tx
    }

    /// The time that has passed since the last transmission. A clock that
    /// reads less than it did then counts as no time passed.
    pub open spec fn elapsed(&self, now: u64) -> int {
        if now >= self.last_tx() {
            now - self.last_tx()
        } else {
            0
        }
    }

    /// Whether enough time has passed since the last transmission.
    pub open spec fn may_transmit(&self, now: u64) -> bool {
        self.elapsed(now) >= TX_SEPARATION_MS
    }

    /// The link after a frame has been built: the alternate bit toggled.
    pub closed spec fn toggled(self) -> Link {
        Link { use_alternate_opcode: !self.use_alternate_opcode, last_tx: self.last_tx }
    }

    /// The link after a frame has been written at a time.
    pub closed spec fn written(self, now: u64) -> Link {
        Link { use_alternate_opcode: self.use_alternate_opcode, last_tx: now }
    }

    /// A link that was opened at a time: the alternate bit is clear, and
    /// the first transmission waits as if one had just been made.
    pub fn new(now: u64) -> (link: Self)
        ensures
            !link.alternate(),
            link.last_tx() == now,
    {
        Link { use_alternate_opcode: false, last_tx: now }
    }

    /// Whether the next frame goes out in the alternate form.
    pub fn use_alternate(&self) -> (r: bool)
        ensures
            r == self.alternate(),
    {
        self.use_alternate_opcode
    }

    /// Builds the frame for a request and toggles the alternate bit. The
    /// bit is toggled even where the request has more parameter bytes than
    /// a frame can carry, and no frame is built.
    pub fn send<O: Opcode>(&mut self, msg: &O) -> (r: Result<Vec<u8>, Error>)
        ensures
            *final(self) == old(self).toggled(),
            final(self).alternate() == !old(self).alternate(),
            final(self).last_tx() == old(self).last_tx(),
            match r {
                Ok(wire) => msg.encoding().len() <= SCRATCH_SIZE && wire@ == request_frame(
                    *msg,
                    old(self).alternate(),
                ),
                Err(e) => {
                    &&& msg.encoding().len() > SCRATCH_SIZE
                    &&& e matches Error::Io(message)
                    &&& message@ == short_buffer_message()
                },
            },
    {
        let mut opcode = msg.request_opcode();
        if self.use_alternate_opcode {
            opcode |= ALTERNATE_BIT;
        }
        self.use_alternate_opcode = !self.use_alternate_opcode;
        let mut buf = [0u8; 1024];
        let len = msg.serialise(&mut buf)?;
        let wire = encode_frame(opcode, slice_subrange(buf.as_slice(), 0, len));
        assert(buf@.subrange(0, len as int) =~= msg.encoding());
        Ok(wire)
    }

    /// How long to wait before the next transmission, in milliseconds.
    pub fn tx_delay(&self, now: u64) -> (r: u64)
        ensures
            r == if self.may_transmit(now) {
                0
            } else {
                TX_SEPARATION_MS - self.elapsed(now)
            },
            r <= TX_SEPARATION_MS,
            r == 0 <==> self.may_transmit(now),
    {
        let elapsed = if now >= self.last_tx {
            now - self.last_tx
        } else {
            0
        };
        if elapsed >= TX_SEPARATION_MS {
            0
        } else {
            TX_SEPARATION_MS - elapsed
        }
    }

    /// Records that a frame was written at a time. A frame is written only
    /// when enough time has passed since the frame before it.
    pub fn sent(&mut self, now: u64)
        requires
            old(self).may_transmit(now),
        ensures
            *final(self) == old(self).written(now),
            final(self).last_tx() == now,
            final(self).alternate() == old(self).alternate(),
    {
        self.last_tx = now;
    }
}

/// Whether the wait for a reply that began at `started` is over. A clock
/// that reads less than it did then counts as no time passed.
pub open spec fn read_expired(started: u64, now: u64) -> bool {
    now >= started && now - started >= READ_TIMEOUT_MS
}

/// Decides, before every attempt to read a reply, whether to go on: the
/// wait that began at `started` ends in a timeout once a second has
/// passed.
pub fn read_deadline(started: u64, now: u64) -> (r: Result<(), Error>)
    ensures
        r == if read_expired(started, now) {
            Err::<(), Error>(Error::Timeout)
        } else {
            Ok::<(), Error>(())
        },
{
    if now >= started && now - started >= READ_TIMEOUT_MS {
        Err(Error::Timeout)
    } else {
        Ok(())
    }
}

/// Whether the next frame goes out in the alternate form after `n` frames
/// of a link that started with the bit as `first` says.
pub open spec fn alternate_after(first: bool, n: nat) -> bool {
    if n % 2 == 0 {
        first
    } else {
        !first
    }
}

/// The link after `n` frames have been built.
pub open spec fn link_after(link: Link, n: nat) -> Link
    decreases n,
{
    if n == 0 {
        link
    } else {
        link_after(link, (n - 1) as nat).toggled()
    }
}

/// No opcode of the catalogue has bit 0x08 set, so the bit is free to tell
/// a frame from the one before it.
pub proof fn opcodes_leave_alternate_bit(msg: Opcodes)
    ensures
        msg.opcode() & 0x08 == 0,
        (msg.opcode() | 0x08) & 0x08 == 0x08,
{
    let code = msg.opcode();
    assert(code & 0x08 == 0 && (code | 0x08) & 0x08 == 0x08) by (bit_vector)
        requires
            code == 0x10 || code == 0x12 || code == 0x13 || code == 0x14 || code == 0x15 || code
                == 0x17 || code == 0x20 || code == 0x21 || code == 0x22 || code == 0x23 || code
                == 0x24 || code == 0x25 || code == 0x27 || code == 0x30 || code == 0x31 || code
                == 0x32 || code == 0x33 || code == 0x34 || code == 0x35 || code == 0x37 || code
                == 0x40 || code == 0x42 || code == 0x43 || code == 0x44 || code == 0x45 || code
                == 0x50 || code == 0x51 || code == 0x52 || code == 0x54 || code == 0x60 || code
                == 0x61 || code == 0x62 || code == 0x64 || code == 0x65 || code == 0x70 || code
                == 0x71 || code == 0x72 || code == 0x74 || code == 0x75 || code == 0x81 || code
                == 0x82 || code == 0x84 || code == 0x85 || code == 0x90 || code == 0x91 || code
                == 0x92 || code == 0x94 || code == 0x95 || code == 0xa1 || code == 0xa5 || code
                == 0xb1 || code == 0xb2 || code == 0xc1 || code == 0xd1 || code == 0xe1 || code
                == 0xf7,
    ;
}

/// The alternate bit alternates: of the frames that a link builds one
/// after the other for any opcodes of the catalogue, frame number `k`,
/// counted from zero, has bit 0x08 of its opcode byte set exactly if `k`
/// is odd, on a link that starts with the bit clear.
pub proof fn alternate_bit_alternates(link: Link, msgs: Seq<Opcodes>, k: int)
    requires
        !link.alternate(),
        0 <= k < msgs.len(),
    ensures
        link_after(link, k as nat).alternate() == (k % 2 == 1),
        request_frame(msgs[k], link_after(link, k as nat).alternate())[2] & 0x08 == if k % 2
            == 1 {
            0x08u8
        } else {
            0u8
        },
{
    lemma_link_after(link, k as nat);
    opcodes_leave_alternate_bit(msgs[k]);
    let alternate = link_after(link, k as nat).alternate();
    let wire = request_frame(msgs[k], alternate);
    assert(wire[2] == wire_opcode(msgs[k].opcode(), alternate));
}

/// After `n` frames the alternate bit is what it was if `n` is even, and
/// the other way round if `n` is odd.
proof fn lemma_link_after(link: Link, n: nat)
    ensures
        link_after(link, n).alternate() == alternate_after(link.alternate(), n),
        link_after(link, n).last_tx() == link.last_tx(),
    decreases n,
{
    if n > 0 {
        lemma_link_after(link, (n - 1) as nat);
    }
}

/// Whether each of the times is at least 300 ms after the one before it.
pub open spec fn paced(times: Seq<u64>) -> bool {
    forall|k: int| 0 < k < times.len() ==> times[k] - #[trigger] times[k - 1] >= TX_SEPARATION_MS
}

/// The link after frames have been written at the given times.
pub open spec fn link_written(link: Link, times: Seq<u64>) -> Link
    decreases times.len(),
{
    if times.len() == 0 {
        link
    } else {
        link_written(link, times.drop_last()).written(times.last())
    }
}

/// Whether every one of the times is a time at which the link, as the
/// writes before it left it, lets a frame be written.
pub open spec fn permitted(link: Link, times: Seq<u64>) -> bool
    decreases times.len(),
{
    if times.len() == 0 {
        true
    } else {
        permitted(link, times.drop_last()) && link_written(link, times.drop_last()).may_transmit(
            times.last(),
        )
    }
}

/// Transmissions are paced: if every frame is written at a time at which
/// the link lets it be written, any two successive writes are at least
/// 300 ms apart.
pub proof fn transmissions_are_paced(link: Link, times: Seq<u64>)
    requires
        permitted(link, times),
    ensures
        paced(times),
        times.len() > 0 ==> link_written(link, times).last_tx() == times.last(),
    decreases times.len(),
{
    if times.len() > 0 {
        let earlier = times.drop_last();
        transmissions_are_paced(link, earlier);
        assert forall|k: int| 0 < k < times.len() implies times[k] - #[trigger] times[k - 1]
            >= TX_SEPARATION_MS by {
            if k < earlier.len() {
                assert(earlier[k] == times[k]);
                assert(earlier[k - 1] == times[k - 1]);
            } else {
                assert(earlier.last() == times[k - 1]);
            }
        }
    }
}

} // verus!
