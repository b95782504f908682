//! A demo connection that answers each request from a table of canned responses, and
//! acknowledges anything else.

use vstd::prelude::*;

use crate::packet::{Command, Direction, Packet, spec_packet_bytes};

verus! {

/// Why a write to the demo connection failed.
#[derive(Debug, Clone, Copy, PartialEq, Eq, Structural)]
pub enum DemoWriteError {
    /// Too short to hold a direction prefix and a command.
    TooShort,
}

/// Index of the first response from `j` on for `command`.
pub open spec fn find_response(responses: Seq<(Command, Vec<u8>)>, command: Command, j: int) -> Option<int>
    decreases responses.len() - j,
{
    if j < 0 || j >= responses.len() {
        None
    } else if responses[j].0.0@ == command.0@ {
        Some(j)
    } else {
        find_response(responses, command, j + 1)
    }
}

/// The command of written bytes: the two bytes after the direction prefix.
pub open spec fn spec_written_command(data: Seq<u8>) -> Command {
    Command([data[5], data[6]])
}

/// What the demo device sends back for written bytes: the canned response for their command,
/// or else an acknowledgement of it (an inbound packet with that command and no body).
pub open spec fn spec_demo_response(responses: Seq<(Command, Vec<u8>)>, data: Seq<u8>) -> Result<
    Seq<u8>,
    DemoWriteError,
> {
    if data.len() < 7 {
        Err(DemoWriteError::TooShort)
    } else {
        let command = spec_written_command(data);
        match find_response(responses, command, 0) {
            Some(i) => Ok(responses[i].1@),
            None => Ok(spec_packet_bytes(Direction::Inbound, command, seq![])),
        }
    }
}

/// Stands in for a device: it offers one device of model `M` and connects to it.
pub struct DemoConnectionRegistry<M> {
    model: M,
    packet_responses: Vec<(Command, Vec<u8>)>,
}

impl<M> DemoConnectionRegistry<M> {
    pub closed spec fn spec_packet_responses(&self) -> Seq<(Command, Vec<u8>)> {
        self.packet_responses@
    }

    pub closed spec fn spec_model(&self) -> M {
        self.model
    }

    pub fn new(model: M, packet_responses: Vec<(Command, Vec<u8>)>) -> (r: Self)
        ensures
            r.spec_model() == model,
            r.spec_packet_responses() == packet_responses@,
    {
        DemoConnectionRegistry { model, packet_responses }
    }

    pub fn model(&self) -> (r: &M)
        ensures
            *r == self.spec_model(),
    {
        &self.model
    }

    /// The canned responses, by command.
    pub fn packet_responses(&self) -> (r: &Vec<(Command, Vec<u8>)>)
        ensures
            r@ == self.spec_packet_responses(),
    {
        &self.packet_responses
    }
}

fn clone_bytes(v: &Vec<u8>) -> (r: Vec<u8>)
    ensures
        r@ == v@,
{
    let r = v.clone();
    assert(r@ =~= v@);
    r
}

/// The answer of the demo device to written bytes. The written bytes need not carry a
/// checksum, so only their command is read.
pub fn demo_response(packet_responses: &Vec<(Command, Vec<u8>)>, data: &[u8]) -> (r: Result<
    Vec<u8>,
    DemoWriteError,
>)
    ensures
        match spec_demo_response(packet_responses@, data@) {
            Ok(bytes) => r matches Ok(v) && v@ == bytes,
            Err(e) => r == Err::<Vec<u8>, DemoWriteError>(e),
        },
{
    if data.len() < 7 {
        return Err(DemoWriteError::TooShort);
    }
    let command = Command([data[5], data[6]]);
    let ghost responses = packet_responses@;
    let mut i: usize = 0;
    while i < packet_responses.len()
        invariant
            i <= responses.len(),
            data@.len() >= 7,
            responses == packet_responses@,
            command == spec_written_command(data@),
            find_response(responses, command, 0) == find_response(responses, command, i as int),
        decreases responses.len() - i,
    {
        let candidate = packet_responses[i].0;
        if candidate.0[0] == command.0[0] && candidate.0[1] == command.0[1] {
            assert(candidate.0@ =~= command.0@);
            assert(responses[i as int].0.0@ == command.0@);
            assert(find_response(responses, command, i as int) == Some(i as int));
            return Ok(clone_bytes(&packet_responses[i].1));
        }
        proof {
            if candidate.0@ == command.0@ {
                assert(candidate.0@[0] == command.0@[0]);
                assert(candidate.0@[1] == command.0@[1]);
            }
        }
        i = i + 1;
    }
    let ack = command.ack(Direction::Inbound);
    Ok(ack.bytes_with_checksum())
}

} // verus!
