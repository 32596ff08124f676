//! TCP message framing: assembles partial reads into complete messages.

use vstd::prelude::*;

use crate::errors::{is_protocol_error, FrankaError, FrankaResult};
use crate::text::{decimal, text_with_number};
use crate::wire::le_bytes::seq_u32_at;
use crate::wire::robot::CommandHeader;

verus! {

/// What a framing state is, in mathematical terms.
pub enum FramingView {
    /// Waiting for a new message header.
    Idle,
    /// Header received, accumulating payload bytes.
    Reading { command_id: u32, received: Seq<u8>, expected_size: nat },
}

enum FramingState {
    /// Waiting for a new message header.
    Idle,
    /// Header received, accumulating payload bytes.
    Reading { command_id: u32, buffer: Vec<u8>, expected_size: usize },
}

/// Handles TCP message framing: assembles partial reads into complete messages.
///
/// The protocol uses a fixed-size header (CommandHeader: 12 bytes) followed by
/// a variable-length payload. The header's `size` field gives the total message
/// size (including the header itself).
pub struct TcpFraming {
    state: FramingState,
}

impl FramingView {
    /// A message is pending and all of its bytes have arrived.
    pub open spec fn complete(self) -> bool {
        match self {
            FramingView::Idle => false,
            FramingView::Reading { received, expected_size, .. } => received.len() >= expected_size,
        }
    }

    /// How many bytes the pending message still lacks (0 without one).
    pub open spec fn remaining(self) -> nat {
        match self {
            FramingView::Idle => 0,
            FramingView::Reading { received, expected_size, .. } => if received.len()
                >= expected_size {
                0
            } else {
                (expected_size - received.len()) as nat
            },
        }
    }

    /// The state after the header `h` (twelve bytes) arrived: a header whose size is at
    /// least the header's own size starts a message; any other leaves the state as it was.
    pub open spec fn with_header(self, h: Seq<u8>) -> FramingView {
        if header_accepted(h) {
            FramingView::Reading {
                command_id: seq_u32_at(h, 4),
                received: h,
                expected_size: seq_u32_at(h, 8) as nat,
            }
        } else {
            self
        }
    }

    /// The state after `data` arrived: appended to a pending message, dropped otherwise.
    pub open spec fn with_bytes(self, data: Seq<u8>) -> FramingView {
        match self {
            FramingView::Idle => FramingView::Idle,
            FramingView::Reading { command_id, received, expected_size } => FramingView::Reading {
                command_id,
                received: received + data,
                expected_size,
            },
        }
    }

    /// The state after each of `pieces` arrived in turn.
    pub open spec fn with_pieces(self, pieces: Seq<Seq<u8>>) -> FramingView
        decreases pieces.len(),
    {
        if pieces.len() == 0 {
            self
        } else {
            self.with_pieces(pieces.drop_last()).with_bytes(pieces.last())
        }
    }

    /// The state after one operation: a header (twelve bytes), payload bytes, or taking
    /// the message.
    pub open spec fn after_op(self, op: FramingOp) -> FramingView {
        match op {
            FramingOp::SetHeader(h) => self.with_header(h),
            FramingOp::Push(d) => self.with_bytes(d),
            FramingOp::Take => FramingView::Idle,
        }
    }
}

/// An operation that changes a framing: `set_header`, `push_bytes` or `take_message`.
/// (The queries leave it unchanged.)
pub enum FramingOp {
    SetHeader(Seq<u8>),
    Push(Seq<u8>),
    Take,
}

/// The bytes of `pieces`, one after another.
pub open spec fn concat_pieces(pieces: Seq<Seq<u8>>) -> Seq<u8>
    decreases pieces.len(),
{
    if pieces.len() == 0 {
        Seq::empty()
    } else {
        concat_pieces(pieces.drop_last()) + pieces.last()
    }
}

/// The state of a new framing after the operations `ops`, in order.
pub open spec fn run_ops(ops: Seq<FramingOp>) -> FramingView
    decreases ops.len(),
{
    if ops.len() == 0 {
        FramingView::Idle
    } else {
        run_ops(ops.drop_last()).after_op(ops.last())
    }
}

/// Whether a header's size field is at least the size of the header itself.
pub open spec fn header_accepted(h: Seq<u8>) -> bool {
    seq_u32_at(h, 8) >= 12
}

/// The error text for a header whose size field is smaller than the header.
pub open spec fn size_too_small_text(size: u32) -> Seq<char> {
    "TCP message size ("@ + decimal(size as nat) + ") is smaller than header (12)"@
}

impl View for TcpFraming {
    type V = FramingView;

    closed spec fn view(&self) -> FramingView {
        match self.state {
            FramingState::Idle => FramingView::Idle,
            FramingState::Reading { command_id, buffer, expected_size } => FramingView::Reading {
                command_id,
                received: buffer@,
                expected_size: expected_size as nat,
            },
        }
    }
}

impl TcpFraming {
    /// A framing that waits for a header.
    pub fn new() -> (f: TcpFraming)
        ensures
            f@ == FramingView::Idle,
    {
        TcpFraming { state: FramingState::Idle }
    }

    /// Returns true if we have already parsed a header and are reading payload.
    pub fn has_pending_header(&self) -> (b: bool)
        ensures
            b == (self@ is Reading),
    {
        match self.state {
            FramingState::Idle => false,
            FramingState::Reading { .. } => true,
        }
    }

    /// Parse a header and begin accumulating the message body.
    ///
    /// A header whose size is smaller than the header itself is refused with a
    /// protocol error, and the framing is left as it was.
    pub fn set_header(&mut self, header_bytes: &[u8; 12]) -> (r: FrankaResult<()>)
        ensures
            final(self)@ == old(self)@.with_header(header_bytes@),
            r is Ok <==> header_accepted(header_bytes@),
            r matches Err(e) ==> is_protocol_error(e, size_too_small_text(seq_u32_at(header_bytes@, 8))),
    {
        let header = CommandHeader::from_bytes(header_bytes.as_slice());
        let size = header.size;
        let command_id = header.command_id;
        if size < 12 {
            let message = text_with_number(
                "TCP message size (",
                size as u64,
                ") is smaller than header (12)",
            );
            return Err(FrankaError::Protocol { message });
        }
        let mut buffer: Vec<u8> = Vec::new();
        buffer.extend_from_slice(header_bytes.as_slice());
        assert(buffer@ =~= header_bytes@);
        self.state = FramingState::Reading { command_id, buffer, expected_size: size as usize };
        Ok(())
    }

    /// Append received bytes to the current message being assembled.
    /// Without a pending header the bytes are dropped.
    pub fn push_bytes(&mut self, data: &[u8])
        ensures
            final(self)@ == old(self)@.with_bytes(data@),
    {
        match &mut self.state {
            FramingState::Idle => {},
            FramingState::Reading { buffer, .. } => {
                let ghost before = buffer@;
                buffer.extend_from_slice(data);
                assert(buffer@ =~= before + data@);
            },
        }
    }

    /// Returns the number of bytes still needed to complete the current message.
    pub fn remaining_bytes(&self) -> (n: usize)
        ensures
            n == self@.remaining(),
    {
        match &self.state {
            FramingState::Idle => 0,
            FramingState::Reading { buffer, expected_size, .. } => expected_size.saturating_sub(
                buffer.len(),
            ),
        }
    }

    /// Returns true if the current message is fully assembled.
    pub fn is_complete(&self) -> (b: bool)
        ensures
            b == self@.complete(),
    {
        match &self.state {
            FramingState::Idle => false,
            FramingState::Reading { buffer, expected_size, .. } => buffer.len() >= *expected_size,
        }
    }

    /// Extract the completed message, returning (command_id, full_message_bytes),
    /// and go back to waiting for a header. Only a complete message can be taken.
    pub fn take_message(&mut self) -> (r: (u32, Vec<u8>))
        requires
            old(self)@.complete(),
        ensures
            final(self)@ == FramingView::Idle,
            old(self)@ matches FramingView::Reading { command_id, received, .. } && r.0
                == command_id && r.1@ == received,
    {
        let mut old_state = FramingState::Idle;
        std::mem::swap(&mut old_state, &mut self.state);
        match old_state {
            FramingState::Reading { command_id, buffer, .. } => (command_id, buffer),
            FramingState::Idle => (0, Vec::new()),
        }
    }
}

/// Bytes that arrive in two pieces leave the framing as if they had arrived at once.
pub proof fn lemma_bytes_in_pieces(f: FramingView, a: Seq<u8>, b: Seq<u8>)
    ensures
        f.with_bytes(a).with_bytes(b) == f.with_bytes(a + b),
{
    match f {
        FramingView::Idle => {},
        FramingView::Reading { command_id, received, expected_size } => {
            assert(received + a + b =~= received + (a + b));
        },
    }
}

/// While a message is pending, the bytes received and the bytes still lacking add up
/// to the announced size, until the message is complete.
pub proof fn lemma_remaining_accounts_for_size(f: FramingView)
    requires
        f is Reading,
    ensures
        !f.complete() ==> f.remaining() + f->received.len() == f->expected_size,
        f.complete() <==> f.remaining() == 0,
{
}

/// After an accepted header `h` and any number of pieces of payload, in any state before:
/// the message under the header's command id holds the header followed by every byte of
/// the pieces, none dropped; it lacks what the header's size `S` asks beyond them
/// (`S` minus the bytes held, or nothing), and it is complete exactly when nothing lacks.
pub proof fn lemma_header_then_pieces(f: FramingView, h: Seq<u8>, pieces: Seq<Seq<u8>>)
    requires
        h.len() == 12,
        header_accepted(h),
    ensures
        ({
            let g = f.with_header(h).with_pieces(pieces);
            let size = seq_u32_at(h, 8) as nat;
            let held = 12 + concat_pieces(pieces).len();
            &&& g == (FramingView::Reading {
                command_id: seq_u32_at(h, 4),
                received: h + concat_pieces(pieces),
                expected_size: size,
            })
            &&& g.remaining() == if size >= held { (size - held) as nat } else { 0 }
            &&& g.complete() <==> held >= size
        }),
    decreases pieces.len(),
{
    if pieces.len() > 0 {
        lemma_header_then_pieces(f, h, pieces.drop_last());
        let prev = concat_pieces(pieces.drop_last());
        assert(h + prev + pieces.last() =~= h + concat_pieces(pieces));
    } else {
        assert(h + concat_pieces(pieces) =~= h);
    }
}

/// A framing has a pending header exactly when some `set_header` was accepted after the
/// last `take_message` (or since it was made): pushes, refused headers and queries never
/// change that, and taking the message always clears it.
pub proof fn lemma_pending_header(ops: Seq<FramingOp>)
    ensures
        run_ops(ops) is Reading <==> exists|i: int|
            0 <= i < ops.len() && (#[trigger] ops[i] matches FramingOp::SetHeader(h)
                && header_accepted(h)) && forall|j: int| i < j < ops.len() ==> !(ops[j] is Take),
    decreases ops.len(),
{
    if ops.len() > 0 {
        let prev = ops.drop_last();
        lemma_pending_header(prev);
        let n = ops.len() - 1;
        if run_ops(ops) is Reading {
            match ops.last() {
                FramingOp::SetHeader(h) => {
                    if header_accepted(h) {
                        assert(ops[n] matches FramingOp::SetHeader(h) && header_accepted(h));
                    } else {
                        let i = choose|i: int|
                            0 <= i < prev.len() && (#[trigger] prev[i] matches FramingOp::SetHeader(h)
                                && header_accepted(h)) && forall|j: int|
                                i < j < prev.len() ==> !(prev[j] is Take);
                        assert(ops[i] == prev[i]);
                        assert forall|j: int| i < j < ops.len() implies !(ops[j] is Take) by {
                            if j < n {
                                assert(ops[j] == prev[j]);
                            }
                        }
                    }
                },
                FramingOp::Push(d) => {
                    let i = choose|i: int|
                        0 <= i < prev.len() && (#[trigger] prev[i] matches FramingOp::SetHeader(h)
                            && header_accepted(h)) && forall|j: int|
                            i < j < prev.len() ==> !(prev[j] is Take);
                    assert(ops[i] == prev[i]);
                    assert forall|j: int| i < j < ops.len() implies !(ops[j] is Take) by {
                        if j < n {
                            assert(ops[j] == prev[j]);
                        }
                    }
                },
                FramingOp::Take => {},
            }
        } else {
            if exists|i: int|
                0 <= i < ops.len() && (#[trigger] ops[i] matches FramingOp::SetHeader(h)
                    && header_accepted(h)) && forall|j: int| i < j < ops.len() ==> !(ops[j] is Take)
            {
                let i = choose|i: int|
                    0 <= i < ops.len() && (#[trigger] ops[i] matches FramingOp::SetHeader(h)
                        && header_accepted(h)) && forall|j: int|
                        i < j < ops.len() ==> !(ops[j] is Take);
                if i == n {
                    assert(false);
                } else {
                    assert(!(ops[n] is Take));
                    assert(prev[i] == ops[i]);
                    assert forall|j: int| i < j < prev.len() implies !(prev[j] is Take) by {
                        assert(prev[j] == ops[j]);
                    }
                    match ops.last() {
                        FramingOp::SetHeader(h) => {},
                        FramingOp::Push(d) => {},
                        FramingOp::Take => {},
                    }
                }
            }
        }
    }
}

/// A message whose header announces its true size is reassembled exactly: after its
/// header and the rest of its bytes (in any state before), the framing holds the whole
/// message under the header's command id, and it is complete.
pub proof fn lemma_message_reassembled(f: FramingView, msg: Seq<u8>)
    requires
        msg.len() >= 12,
        seq_u32_at(msg, 8) == msg.len(),
    ensures
        f.with_header(msg.subrange(0, 12)).with_bytes(msg.subrange(12, msg.len() as int))
            == (FramingView::Reading {
            command_id: seq_u32_at(msg, 4),
            received: msg,
            expected_size: msg.len(),
        }),
        f.with_header(msg.subrange(0, 12)).with_bytes(
            msg.subrange(12, msg.len() as int),
        ).complete(),
{
    let h = msg.subrange(0, 12);
    assert(seq_u32_at(h, 8) == seq_u32_at(msg, 8));
    assert(seq_u32_at(h, 4) == seq_u32_at(msg, 4));
    assert(h + msg.subrange(12, msg.len() as int) =~= msg);
}

} // verus!
