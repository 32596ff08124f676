//! Bookkeeping of the TCP command connection: command ids, message framing and
//! the responses that have arrived but were not asked for yet.

use std::collections::HashMap;

use vstd::prelude::*;

use crate::errors::{is_protocol_error, FrankaResult};
use crate::network::framing::{
    header_accepted, lemma_message_reassembled, size_too_small_text, FramingView, TcpFraming,
};
use crate::wire::le_bytes::seq_u32_at;
use crate::wire::robot::CommandHeader;

verus! {

broadcast use vstd::std_specs::hash::group_hash_axioms;

/// Largest payload chunk read from the socket at once.
pub const MAX_READ_CHUNK: usize = 4096;

/// The size field of a request whose payload has `payload_len` bytes: the total
/// message size, header included, modulo 2^32.
pub open spec fn request_size_field(payload_len: nat) -> u32 {
    ((payload_len + 12) % 0x1_0000_0000) as u32
}

/// The bytes of a request: its header, then the payload.
pub open spec fn request_bytes(command: u32, command_id: u32, payload: Seq<u8>) -> Seq<u8> {
    CommandHeader {
        command,
        command_id,
        size: request_size_field(payload.len()),
    }.spec_bytes() + payload
}

/// The state of a command connection, in mathematical terms.
pub struct ChannelView {
    /// The id that the next request gets.
    pub next_command_id: u32,
    /// The message being assembled.
    pub framing: FramingView,
    /// Complete responses not handed out yet, by command id.
    pub responses: Map<u32, Seq<u8>>,
}

/// The protocol state of the TCP command connection to the robot: the id of the
/// next request, the framing of incoming messages, and complete responses by
/// command id. The socket itself is driven by the caller, which hands over the
/// bytes it reads and sends the bytes that this state prepares.
pub struct CommandChannel {
    next_command_id: u32,
    framing: TcpFraming,
    received_responses: HashMap<u32, Vec<u8>>,
}

impl View for CommandChannel {
    type V = ChannelView;

    closed spec fn view(&self) -> ChannelView {
        ChannelView {
            next_command_id: self.next_command_id,
            framing: self.framing@,
            responses: self.received_responses@.map_values(|v: Vec<u8>| v@),
        }
    }
}

impl CommandChannel {
    /// A fresh connection: ids start at 0, nothing pending, nothing received.
    pub fn new() -> (c: CommandChannel)
        ensures
            c@.next_command_id == 0,
            c@.framing == FramingView::Idle,
            c@.responses == Map::<u32, Seq<u8>>::empty(),
    {
        let c = CommandChannel {
            next_command_id: 0,
            framing: TcpFraming::new(),
            received_responses: HashMap::new(),
        };
        assert(c@.responses =~= Map::<u32, Seq<u8>>::empty());
        c
    }

    /// Assigns the next command id to a request and returns the id with the bytes to
    /// send: the header (command, id, total size) followed by the payload.
    pub fn prepare_request(&mut self, command: u32, payload: &[u8]) -> (r: (u32, Vec<u8>))
        ensures
            r.0 == old(self)@.next_command_id,
            r.1@ == request_bytes(command, r.0, payload@),
            final(self)@.next_command_id == old(self)@.next_command_id.wrapping_add(1),
            final(self)@.framing == old(self)@.framing,
            final(self)@.responses == old(self)@.responses,
    {
        let command_id = self.next_command_id;
        self.next_command_id = self.next_command_id.wrapping_add(1);
        let len = payload.len() as u64;
        let size = ((len % 0x1_0000_0000 + 12) % 0x1_0000_0000) as u32;
        assert(size == request_size_field(payload@.len())) by {
            assert((len % 0x1_0000_0000 + 12) % 0x1_0000_0000 == (len + 12) % 0x1_0000_0000)
                by (nonlinear_arith);
        }
        let header = CommandHeader { command, command_id, size };
        let header_bytes = header.to_bytes();
        let mut bytes: Vec<u8> = Vec::new();
        bytes.extend_from_slice(header_bytes.as_slice());
        bytes.extend_from_slice(payload);
        assert(bytes@ =~= request_bytes(command, command_id, payload@));
        (command_id, bytes)
    }

    /// Hands out the response to `command_id`, if it has arrived, and forgets it.
    pub fn take_response(&mut self, command_id: u32) -> (r: Option<Vec<u8>>)
        ensures
            final(self)@.next_command_id == old(self)@.next_command_id,
            final(self)@.framing == old(self)@.framing,
            final(self)@.responses == old(self)@.responses.remove(command_id),
            match r {
                Some(v) => old(self)@.responses.contains_key(command_id) && v@ == old(
                    self,
                )@.responses[command_id],
                None => !old(self)@.responses.contains_key(command_id),
            },
    {
        let r = self.received_responses.remove(&command_id);
        assert(self@.responses =~= old(self)@.responses.remove(command_id));
        r
    }

    /// Returns true if a header has arrived and its message is still incomplete or
    /// not yet stored.
    pub fn has_pending_header(&self) -> (b: bool)
        ensures
            b == (self@.framing is Reading),
    {
        self.framing.has_pending_header()
    }

    /// Takes the header of the next incoming message.
    pub fn receive_header(&mut self, header_bytes: &[u8; 12]) -> (r: FrankaResult<()>)
        ensures
            final(self)@.next_command_id == old(self)@.next_command_id,
            final(self)@.framing == old(self)@.framing.with_header(header_bytes@),
            final(self)@.responses == old(self)@.responses,
            r is Ok <==> header_accepted(header_bytes@),
            r matches Err(e) ==> is_protocol_error(
                e,
                size_too_small_text(seq_u32_at(header_bytes@, 8)),
            ),
    {
        self.framing.set_header(header_bytes)
    }

    /// Takes payload bytes of the incoming message.
    pub fn receive_bytes(&mut self, data: &[u8])
        ensures
            final(self)@.next_command_id == old(self)@.next_command_id,
            final(self)@.framing == old(self)@.framing.with_bytes(data@),
            final(self)@.responses == old(self)@.responses,
    {
        self.framing.push_bytes(data)
    }

    /// Whether the incoming message is complete.
    pub fn is_message_complete(&self) -> (b: bool)
        ensures
            b == self@.framing.complete(),
    {
        self.framing.is_complete()
    }

    /// How many bytes to read next: what the incoming message still lacks, at most
    /// `MAX_READ_CHUNK`.
    pub fn read_chunk_size(&self) -> (n: usize)
        ensures
            n == if self@.framing.remaining() < MAX_READ_CHUNK {
                self@.framing.remaining()
            } else {
                MAX_READ_CHUNK as nat
            },
    {
        let remaining = self.framing.remaining_bytes();
        if remaining < MAX_READ_CHUNK {
            remaining
        } else {
            MAX_READ_CHUNK
        }
    }

    /// Files the complete message as the response to its command id (replacing an
    /// earlier one with the same id) and waits for the next header.
    pub fn store_message(&mut self)
        requires
            old(self)@.framing.complete(),
        ensures
            final(self)@.next_command_id == old(self)@.next_command_id,
            final(self)@.framing == FramingView::Idle,
            old(self)@.framing matches FramingView::Reading { command_id, received, .. }
                && final(self)@.responses == old(self)@.responses.insert(command_id, received),
    {
        let (command_id, message) = self.framing.take_message();
        self.received_responses.insert(command_id, message);
        assert(self@.responses =~= old(self)@.responses.insert(
            command_id,
            old(self)@.framing->received,
        ));
    }
}

/// A request prepared by `prepare_request` is reassembled by the receiving side's framing,
/// whatever state it was in, as the same bytes under the same command id, complete, provided
/// that its total size fits the 32-bit size field.
pub proof fn lemma_request_reassembled(
    f: FramingView,
    command: u32,
    command_id: u32,
    payload: Seq<u8>,
)
    requires
        payload.len() + 12 < 0x1_0000_0000,
    ensures
        ({
            let msg = request_bytes(command, command_id, payload);
            &&& f.with_header(msg.subrange(0, 12)).with_bytes(msg.subrange(12, msg.len() as int))
                == (FramingView::Reading { command_id, received: msg, expected_size: msg.len() })
            &&& f.with_header(msg.subrange(0, 12)).with_bytes(
                msg.subrange(12, msg.len() as int),
            ).complete()
        }),
{
    let header = CommandHeader { command, command_id, size: request_size_field(payload.len()) };
    let msg = request_bytes(command, command_id, payload);
    header.lemma_roundtrip();
    let hb = header.spec_bytes();
    assert(msg.subrange(0, 12) =~= hb);
    assert(seq_u32_at(msg, 8) == seq_u32_at(hb, 8));
    assert(seq_u32_at(msg, 4) == seq_u32_at(hb, 4));
    assert(request_size_field(payload.len()) == payload.len() + 12);
    lemma_message_reassembled(f, msg);
}

/// A complete incoming message, once stored, is what a request for its command id gets,
/// and only once: afterwards nothing is stored under that id.
pub proof fn lemma_response_handed_out_once(v: ChannelView)
    requires
        v.framing is Reading,
    ensures
        ({
            let id = v.framing->command_id;
            let stored = v.responses.insert(id, v.framing->received);
            &&& stored.contains_key(id)
            &&& stored[id] == v.framing->received
            &&& !stored.remove(id).contains_key(id)
        }),
{
}

} // verus!
