//! Packet framing: a five byte direction prefix, a two byte command, the total length as a
//! little endian `u16`, the body, and a checksum byte that is the sum of all other bytes.

use vstd::prelude::*;

verus! {

#[derive(Debug, Clone, Copy, PartialEq, Eq, Hash, Structural)]
pub enum Direction {
    /// From the device to the host.
    Inbound,
    /// From the host to the device.
    Outbound,
}

impl Direction {
    pub open spec fn spec_prefix(self) -> Seq<u8> {
        match self {
            Direction::Inbound => seq![0x09u8, 0xFFu8, 0x00u8, 0x00u8, 0x01u8],
            Direction::Outbound => seq![0x08u8, 0xEEu8, 0x00u8, 0x00u8, 0x00u8],
        }
    }

    pub fn prefix(&self) -> (r: [u8; 5])
        ensures
            r@ == self.spec_prefix(),
    {
        let r = match self {
            Direction::Inbound => [0x09u8, 0xFFu8, 0x00u8, 0x00u8, 0x01u8],
            Direction::Outbound => [0x08u8, 0xEEu8, 0x00u8, 0x00u8, 0x00u8],
        };
        assert(r@ =~= self.spec_prefix());
        r
    }
}

/// The two byte command that says what a packet is about.
#[derive(Debug, Clone, Copy, Eq, Hash)]
pub struct Command(pub [u8; 2]);

impl PartialEq for Command {
    fn eq(&self, other: &Self) -> (r: bool) {
        self.0[0] == other.0[0] && self.0[1] == other.0[1]
    }
}

impl vstd::std_specs::cmp::PartialEqSpecImpl for Command {
    open spec fn obeys_eq_spec() -> bool {
        true
    }

    open spec fn eq_spec(&self, other: &Self) -> bool {
        self.0[0] == other.0[0] && self.0[1] == other.0[1]
    }
}

impl Command {
    /// The acknowledgement of this command in direction `direction`: the same command with an
    /// empty body.
    pub fn ack(&self, direction: Direction) -> (r: Packet)
        ensures
            r.direction == direction,
            r.command == *self,
            r.body@.len() == 0,
    {
        Packet { direction, command: *self, body: Vec::new() }
    }
}

/// Number of framing bytes around the body: prefix, command, length and checksum.
pub const FRAME_LEN: usize = 10;

/// Largest body that the `u16` length field can describe.
pub const MAX_BODY_LEN: usize = 65525;

#[derive(Debug, Clone)]
pub struct Packet {
    pub direction: Direction,
    pub command: Command,
    pub body: Vec<u8>,
}

/// Sum of all bytes of `s`.
pub open spec fn byte_sum(s: Seq<u8>) -> nat
    decreases s.len(),
{
    if s.len() == 0 {
        0
    } else {
        byte_sum(s.drop_last()) + s.last() as nat
    }
}

pub open spec fn spec_checksum(s: Seq<u8>) -> u8 {
    (byte_sum(s) % 256) as u8
}

/// The frame without its checksum byte.
pub open spec fn spec_frame_without_checksum(
    direction: Direction,
    command: Command,
    body: Seq<u8>,
) -> Seq<u8> {
    let total = body.len() + 10;
    direction.spec_prefix() + seq![command.0[0], command.0[1]] + seq![
        (total % 256) as u8,
        (total / 256) as u8,
    ] + body
}

/// The complete frame of a packet.
pub open spec fn spec_packet_bytes(direction: Direction, command: Command, body: Seq<u8>) -> Seq<
    u8,
> {
    let frame = spec_frame_without_checksum(direction, command, body);
    frame.push(spec_checksum(frame))
}

/// The direction whose prefix starts `s`, if any.
pub open spec fn spec_direction_of(s: Seq<u8>) -> Option<Direction> {
    if s.len() < 5 {
        None
    } else if s.subrange(0, 5) == Direction::Inbound.spec_prefix() {
        Some(Direction::Inbound)
    } else if s.subrange(0, 5) == Direction::Outbound.spec_prefix() {
        Some(Direction::Outbound)
    } else {
        None
    }
}

/// Reads a complete frame: the prefix names a direction, the length field equals the number
/// of bytes, and the last byte is the checksum of the ones before it.
pub open spec fn spec_parse_packet(s: Seq<u8>) -> Option<(Direction, Command, Seq<u8>)> {
    if s.len() < 10 || s.len() > 65535 {
        None
    } else if s[7] as nat + 256 * (s[8] as nat) != s.len() {
        None
    } else if s.last() != spec_checksum(s.drop_last()) {
        None
    } else {
        match spec_direction_of(s) {
            Some(direction) => Some(
                (direction, Command([s[5], s[6]]), s.subrange(9, s.len() - 1)),
            ),
            None => None,
        }
    }
}

proof fn lemma_byte_sum_push(s: Seq<u8>, b: u8)
    ensures
        byte_sum(s.push(b)) == byte_sum(s) + b as nat,
{
    assert(s.push(b).drop_last() =~= s);
}

/// Sum of the first `n` bytes of `s`, modulo 256.
pub fn checksum_of_prefix(s: &[u8], n: usize) -> (r: u8)
    requires
        n <= s@.len(),
    ensures
        r == spec_checksum(s@.subrange(0, n as int)),
{
    let mut acc: u8 = 0;
    let mut i: usize = 0;
    while i < n
        invariant
            i <= n <= s@.len(),
            acc == byte_sum(s@.subrange(0, i as int)) % 256,
        decreases n - i,
    {
        proof {
            assert(s@.subrange(0, i as int + 1) =~= s@.subrange(0, i as int).push(s@[i as int]));
            lemma_byte_sum_push(s@.subrange(0, i as int), s@[i as int]);
        }
        acc = ((acc as u32 + s[i] as u32) % 256) as u8;
        i = i + 1;
    }
    acc
}

/// Sum of the bytes of `s`, modulo 256.
pub fn checksum(s: &[u8]) -> (r: u8)
    ensures
        r == spec_checksum(s@),
{
    let r = checksum_of_prefix(s, s.len());
    assert(s@.subrange(0, s@.len() as int) =~= s@);
    r
}

impl Packet {
    pub open spec fn spec_bytes(&self) -> Seq<u8> {
        spec_packet_bytes(self.direction, self.command, self.body@)
    }

    pub fn new(direction: Direction, command: Command, body: Vec<u8>) -> (r: Packet)
        ensures
            r.direction == direction,
            r.command == command,
            r.body@ == body@,
    {
        Packet { direction, command, body }
    }

    /// The complete frame, checksum included.
    pub fn bytes_with_checksum(&self) -> (r: Vec<u8>)
        requires
            self.body@.len() <= MAX_BODY_LEN,
        ensures
            r@ == self.spec_bytes(),
    {
        let total: usize = self.body.len() + FRAME_LEN;
        let prefix = self.direction.prefix();
        let mut out: Vec<u8> = Vec::new();
        let mut i: usize = 0;
        while i < 5
            invariant
                i <= 5,
                out@ == prefix@.subrange(0, i as int),
            decreases 5 - i,
        {
            out.push(prefix[i]);
            i = i + 1;
            assert(out@ =~= prefix@.subrange(0, i as int));
        }
        out.push(self.command.0[0]);
        out.push(self.command.0[1]);
        out.push((total % 256) as u8);
        out.push((total / 256) as u8);
        let ghost head = out@;
        let mut j: usize = 0;
        while j < self.body.len()
            invariant
                j <= self.body@.len(),
                out@ == head + self.body@.subrange(0, j as int),
            decreases self.body@.len() - j,
        {
            out.push(self.body[j]);
            j = j + 1;
            assert(out@ =~= head + self.body@.subrange(0, j as int));
        }
        proof {
            assert(self.body@.subrange(0, j as int) =~= self.body@);
            assert(out@ =~= spec_frame_without_checksum(
                self.direction,
                self.command,
                self.body@,
            ));
        }
        let sum = checksum(out.as_slice());
        out.push(sum);
        out
    }

    /// Reads one complete frame.
    pub fn parse(s: &[u8]) -> (r: Option<Packet>)
        ensures
            match r {
                Some(p) => spec_parse_packet(s@) == Some((p.direction, p.command, p.body@)),
                None => spec_parse_packet(s@) is None,
            },
    {
        let n = s.len();
        if n < FRAME_LEN || n > 65535 {
            return None;
        }
        if s[7] as usize + 256 * (s[8] as usize) != n {
            return None;
        }
        if s[n - 1] != checksum_of_prefix(s, n - 1) {
            assert(s@.subrange(0, n - 1) =~= s@.drop_last());
            return None;
        }
        let direction = if s[0] == 0x09 && s[1] == 0xFF && s[2] == 0 && s[3] == 0 && s[4] == 1 {
            assert(s@.subrange(0, 5) =~= Direction::Inbound.spec_prefix());
            Direction::Inbound
        } else if s[0] == 0x08 && s[1] == 0xEE && s[2] == 0 && s[3] == 0 && s[4] == 0 {
            assert(s@.subrange(0, 5) =~= Direction::Outbound.spec_prefix());
            Direction::Outbound
        } else {
            proof {
                if s@.subrange(0, 5) == Direction::Inbound.spec_prefix() {
                    assert(s@.subrange(0, 5)[0] == s@[0]);
                    assert(s@.subrange(0, 5)[1] == s@[1]);
                    assert(s@.subrange(0, 5)[2] == s@[2]);
                    assert(s@.subrange(0, 5)[3] == s@[3]);
                    assert(s@.subrange(0, 5)[4] == s@[4]);
                }
                if s@.subrange(0, 5) == Direction::Outbound.spec_prefix() {
                    assert(s@.subrange(0, 5)[0] == s@[0]);
                    assert(s@.subrange(0, 5)[1] == s@[1]);
                    assert(s@.subrange(0, 5)[2] == s@[2]);
                    assert(s@.subrange(0, 5)[3] == s@[3]);
                    assert(s@.subrange(0, 5)[4] == s@[4]);
                }
            }
            return None;
        };
        let mut body: Vec<u8> = Vec::new();
        let mut i: usize = 9;
        while i < n - 1
            invariant
                9 <= i <= n - 1,
                n == s@.len(),
                body@ == s@.subrange(9, i as int),
            decreases n - 1 - i,
        {
            body.push(s[i]);
            i = i + 1;
            assert(body@ =~= s@.subrange(9, i as int));
        }
        proof {
            assert(s@.subrange(0, n - 1) =~= s@.drop_last());
        }
        Some(Packet { direction, command: Command([s[5], s[6]]), body })
    }
}

/// Reading the frame of a packet gives the packet back.
pub proof fn lemma_packet_roundtrip(direction: Direction, command: Command, body: Seq<u8>)
    requires
        body.len() <= MAX_BODY_LEN,
    ensures
        spec_parse_packet(spec_packet_bytes(direction, command, body)) == Some(
            (direction, command, body),
        ),
{
    let frame = spec_frame_without_checksum(direction, command, body);
    let s = spec_packet_bytes(direction, command, body);
    let total = body.len() + 10;
    assert(s.len() == total);
    assert(s.drop_last() =~= frame);
    assert(s[7] == (total % 256) as u8);
    assert(s[8] == (total / 256) as u8);
    assert(s.subrange(0, 5) =~= direction.spec_prefix());
    assert(s.subrange(9, s.len() - 1) =~= body);
    assert([s[5], s[6]] =~= command.0);
}

/// Why an inbound packet could not be read.
#[derive(Debug, Clone, Copy, PartialEq, Eq, Structural)]
pub enum PacketParseError {
    /// The body does not have the layout the packet's command calls for.
    InvalidBody,
}

} // verus!
