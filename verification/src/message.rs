//! The relay message: a signed 32-bit exit code as exactly four octets.

use vstd::prelude::*;

verus! {

/// Number of octets in a relay message.
pub const MESSAGE_LEN: usize = 4;

/// Order in which the octets of a status travel over the channel.
#[derive(Clone, Copy, Debug, PartialEq, Eq)]
pub enum ByteOrder {
    /// Least significant octet first.
    LittleEndian,
    /// Most significant octet first.
    BigEndian,
}

/// The unsigned value whose 32-bit pattern is the two's-complement
/// representation of `code`.
pub open spec fn bit_pattern(code: i32) -> int {
    if code >= 0 {
        code as int
    } else {
        code + 0x1_0000_0000
    }
}

/// The signed value that the 32-bit pattern `pattern` stands for.
pub open spec fn signed_value(pattern: int) -> int {
    if pattern >= 0x8000_0000 {
        pattern - 0x1_0000_0000
    } else {
        pattern
    }
}

/// Octet number `k` of `pattern`, counted from the least significant.
pub open spec fn octet(pattern: int, k: nat) -> u8 {
    if k == 0 {
        (pattern % 0x100) as u8
    } else if k == 1 {
        (pattern / 0x100 % 0x100) as u8
    } else if k == 2 {
        (pattern / 0x1_0000 % 0x100) as u8
    } else {
        (pattern / 0x100_0000 % 0x100) as u8
    }
}

/// The pattern made of four octets given from the least significant up.
pub open spec fn pattern_of(b0: u8, b1: u8, b2: u8, b3: u8) -> int {
    b0 + 0x100 * b1 + 0x1_0000 * b2 + 0x100_0000 * b3
}

/// A relay message. Its length is fixed by its type: a sequence of any other
/// length is not a message.
#[derive(Clone, Copy, Debug, PartialEq, Eq)]
pub struct ExitStatusMessage {
    /// The octets in the order in which they are sent.
    pub octets: [u8; 4],
}

impl ExitStatusMessage {
    /// The message that carries `code` in the given byte order.
    pub open spec fn of(code: i32, order: ByteOrder) -> ExitStatusMessage {
        let p = bit_pattern(code);
        match order {
            ByteOrder::LittleEndian => ExitStatusMessage {
                octets: [octet(p, 0), octet(p, 1), octet(p, 2), octet(p, 3)],
            },
            ByteOrder::BigEndian => ExitStatusMessage {
                octets: [octet(p, 3), octet(p, 2), octet(p, 1), octet(p, 0)],
            },
        }
    }

    /// The exit code that this message carries when read in the given order.
    pub open spec fn code(self, order: ByteOrder) -> int {
        let b = self.octets;
        match order {
            ByteOrder::LittleEndian => signed_value(pattern_of(b[0], b[1], b[2], b[3])),
            ByteOrder::BigEndian => signed_value(pattern_of(b[3], b[2], b[1], b[0])),
        }
    }

    /// Encodes an exit code.
    pub fn encode(code: i32, order: ByteOrder) -> (message: ExitStatusMessage)
        ensures
            message == ExitStatusMessage::of(code, order),
    {
        let pattern: u32 = if code >= 0 {
            code as u32
        } else {
            (code as i64 + 0x1_0000_0000) as u32
        };
        let b0: u8 = (pattern % 0x100) as u8;
        let b1: u8 = (pattern / 0x100 % 0x100) as u8;
        let b2: u8 = (pattern / 0x1_0000 % 0x100) as u8;
        let b3: u8 = (pattern / 0x100_0000 % 0x100) as u8;
        match order {
            ByteOrder::LittleEndian => ExitStatusMessage { octets: [b0, b1, b2, b3] },
            ByteOrder::BigEndian => ExitStatusMessage { octets: [b3, b2, b1, b0] },
        }
    }

    /// Decodes the exit code.
    pub fn decode(&self, order: ByteOrder) -> (code: i32)
        ensures
            code == self.code(order),
    {
        let (b0, b1, b2, b3) = match order {
            ByteOrder::LittleEndian => (
                self.octets[0],
                self.octets[1],
                self.octets[2],
                self.octets[3],
            ),
            ByteOrder::BigEndian => (
                self.octets[3],
                self.octets[2],
                self.octets[1],
                self.octets[0],
            ),
        };
        let pattern: u32 = b0 as u32 + 0x100 * (b1 as u32) + 0x1_0000 * (b2 as u32) + 0x100_0000
            * (b3 as u32);
        if pattern >= 0x8000_0000 {
            (pattern as i64 - 0x1_0000_0000) as i32
        } else {
            pattern as i32
        }
    }

    /// The message that the octets received from a channel make up. Only
    /// exactly [`MESSAGE_LEN`] octets are one; fewer are what a writer left
    /// that closed its end early.
    pub open spec fn received(octets: Seq<u8>) -> Option<ExitStatusMessage> {
        if octets.len() == MESSAGE_LEN {
            Some(ExitStatusMessage { octets: [octets[0], octets[1], octets[2], octets[3]] })
        } else {
            None
        }
    }

    /// Takes what arrived on the channel as a message.
    pub fn from_received(octets: &[u8]) -> (message: Option<ExitStatusMessage>)
        ensures
            message == ExitStatusMessage::received(octets@),
    {
        if octets.len() == MESSAGE_LEN {
            Some(ExitStatusMessage { octets: [octets[0], octets[1], octets[2], octets[3]] })
        } else {
            None
        }
    }
}

/// The octets that `i32::to_ne_bytes` of the standard library gives for
/// `code`: its two's-complement representation in the byte order of the
/// machine. Which order that is differs between machines, so the contract
/// claims only that it is one of the two.
#[verifier::external_body]
fn native_octets(code: i32) -> (octets: [u8; 4])
    ensures
        octets == ExitStatusMessage::of(code, ByteOrder::LittleEndian).octets || octets
            == ExitStatusMessage::of(code, ByteOrder::BigEndian).octets,
{
    code.to_ne_bytes()
}

impl ByteOrder {
    /// The byte order in which `octets` is the message of the code 1, if
    /// there is one.
    pub fn of_unit_probe(octets: [u8; 4]) -> (order: Option<ByteOrder>)
        ensures
            match order {
                Some(o) => octets == ExitStatusMessage::of(1, o).octets,
                None => forall|o: ByteOrder| octets != #[trigger] ExitStatusMessage::of(1, o).octets,
            },
    {
        let ghost little = ExitStatusMessage::of(1, ByteOrder::LittleEndian).octets;
        let ghost big = ExitStatusMessage::of(1, ByteOrder::BigEndian).octets;
        if octets[0] == 1 && octets[1] == 0 && octets[2] == 0 && octets[3] == 0 {
            assert(octets =~= little);
            Some(ByteOrder::LittleEndian)
        } else if octets[0] == 0 && octets[1] == 0 && octets[2] == 0 && octets[3] == 1 {
            assert(octets =~= big);
            Some(ByteOrder::BigEndian)
        } else {
            assert(octets@ != little@ && octets@ != big@);
            None
        }
    }

    /// The byte order of the machine that runs this process. Both ends of a
    /// channel run on one machine, so a status sent in this order is read
    /// back in it.
    pub fn native() -> ByteOrder {
        match ByteOrder::of_unit_probe(native_octets(1)) {
            Some(order) => order,
            None => vstd::pervasive::unreached(),
        }
    }
}

/// A 32-bit pattern is put together again from its four octets.
proof fn lemma_pattern_of_octets(p: u32)
    ensures
        pattern_of(octet(p as int, 0), octet(p as int, 1), octet(p as int, 2), octet(p as int, 3))
            == p,
{
    assert(p == (p % 0x100) + 0x100 * (p / 0x100 % 0x100) + 0x1_0000 * (p / 0x1_0000 % 0x100)
        + 0x100_0000 * (p / 0x100_0000 % 0x100)) by (bit_vector);
}

/// The octets of a pattern put together from four octets are those four.
proof fn lemma_octets_of_pattern(b0: u8, b1: u8, b2: u8, b3: u8)
    ensures
        0 <= pattern_of(b0, b1, b2, b3) < 0x1_0000_0000,
        octet(pattern_of(b0, b1, b2, b3), 0) == b0,
        octet(pattern_of(b0, b1, b2, b3), 1) == b1,
        octet(pattern_of(b0, b1, b2, b3), 2) == b2,
        octet(pattern_of(b0, b1, b2, b3), 3) == b3,
{
    let p = (b0 + 0x100 * b1 + 0x1_0000 * b2 + 0x100_0000 * b3) as u32;
    assert(p == pattern_of(b0, b1, b2, b3));
    assert(p % 0x100 == b0 && p / 0x100 % 0x100 == b1 && p / 0x1_0000 % 0x100 == b2 && p
        / 0x100_0000 % 0x100 == b3) by (bit_vector)
        requires
            p == b0 + 0x100 * b1 + 0x1_0000 * b2 + 0x100_0000 * b3,
    ;
}

/// Decoding inverts encoding: every exit code, the extremes and the negative
/// ones included, comes back unchanged from its message.
pub proof fn lemma_decode_inverts_encode(code: i32, order: ByteOrder)
    ensures
        ExitStatusMessage::of(code, order).code(order) == code,
{
    let p = bit_pattern(code);
    lemma_pattern_of_octets(p as u32);
    assert(signed_value(p) == code);
}

/// Encoding inverts decoding: a message carries a code of 32 bits, and the
/// message of that code is the message itself. No two messages carry the
/// same code.
pub proof fn lemma_encode_inverts_decode(message: ExitStatusMessage, order: ByteOrder)
    ensures
        i32::MIN <= message.code(order) <= i32::MAX,
        ExitStatusMessage::of(message.code(order) as i32, order) == message,
{
    let b = message.octets;
    match order {
        ByteOrder::LittleEndian => {
            lemma_octets_of_pattern(b[0], b[1], b[2], b[3]);
            let p = pattern_of(b[0], b[1], b[2], b[3]);
            assert(bit_pattern(signed_value(p) as i32) == p);
        },
        ByteOrder::BigEndian => {
            lemma_octets_of_pattern(b[3], b[2], b[1], b[0]);
            let p = pattern_of(b[3], b[2], b[1], b[0]);
            assert(bit_pattern(signed_value(p) as i32) == p);
        },
    }
    assert(ExitStatusMessage::of(message.code(order) as i32, order).octets =~= message.octets);
}

} // verus!
