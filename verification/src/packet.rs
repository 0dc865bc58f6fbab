//! Control packets and their framing.
//!
//! A frame is one tag byte, eight stream-id bytes and a payload that runs to
//! the end of the message: the transport delimits frames, this layer does not.

use crate::ident::{ReconnectToken, StreamId, EMPTY_STREAM, TOKEN_STREAM};
use crate::text::{decode_text, lemma_decode_text_of_encoded, string_from_utf8_lossy};
use vstd::prelude::*;
use vstd::slice::{slice_subrange, slice_to_vec};
use vstd::utf8::*;

verus! {

/// Period at which peers are expected to exchange pings.
pub const PING_INTERVAL: u64 = 30;

/// Length of the fixed part of a frame: the tag and the stream id.
pub const HEADER_LEN: usize = 9;

/// Tag of `Init`; no payload.
pub const TAG_INIT: u8 = 0x01;

/// Tag of `Data`; the payload is the chunk, passed through as it is.
pub const TAG_DATA: u8 = 0x02;

/// Tag of `Refused`; no payload.
pub const TAG_REFUSED: u8 = 0x03;

/// Tag of `End`; no payload.
pub const TAG_END: u8 = 0x04;

/// Tag of `Ping`; the payload is the reconnect token, if there is one.
pub const TAG_PING: u8 = 0x05;

/// Tag of `Terminate`; the payload is the reason.
pub const TAG_TERMINATE: u8 = 0x06;

/// Why a frame could not be decoded.
#[derive(Clone, Copy, Debug, PartialEq, Eq, Structural)]
pub enum FrameError {
    /// The frame is too short to hold a tag and a stream id.
    Truncated,
    /// The tag byte names no packet.
    InvalidControlByte,
}

impl FrameError {
    /// The wording of each failure.
    pub open spec fn text(self) -> Seq<char> {
        match self {
            FrameError::Truncated => "invalid DataPacket, missing stream id"@,
            FrameError::InvalidControlByte => "invalid control byte in DataPacket"@,
        }
    }

    /// A human-readable description of the failure.
    pub fn message(&self) -> (m: &'static str)
        ensures
            m@ == self.text(),
    {
        match self {
            FrameError::Truncated => "invalid DataPacket, missing stream id",
            FrameError::InvalidControlByte => "invalid control byte in DataPacket",
        }
    }
}

/// One unit of the multiplexed exchange that follows the handshake.
#[derive(Clone, Debug)]
pub enum ControlPacket {
    /// Opens a stream.
    Init(StreamId),
    /// A chunk of payload for a stream.
    Data(StreamId, Vec<u8>),
    /// The addressed endpoint could not be reached; ends the stream.
    Refused(StreamId),
    /// Closes a stream.
    End(StreamId),
    /// Keepalive, with or without a reconnect token.
    Ping(Option<ReconnectToken>),
    /// Ends the whole connection, with a reason. Known from `V1` on.
    Terminate { reason: String },
}

/// What a control packet holds, as plain mathematical values: stream ids and
/// payloads as byte sequences, tokens and reasons as character sequences.
pub enum PacketView {
    Init(Seq<u8>),
    Data(Seq<u8>, Seq<u8>),
    Refused(Seq<u8>),
    End(Seq<u8>),
    Ping(Option<Seq<char>>),
    Terminate(Seq<char>),
}

impl PacketView {
    /// Stream ids are eight bytes long.
    pub open spec fn wf(self) -> bool {
        match self {
            PacketView::Init(sid) => sid.len() == 8,
            PacketView::Data(sid, _) => sid.len() == 8,
            PacketView::Refused(sid) => sid.len() == 8,
            PacketView::End(sid) => sid.len() == 8,
            PacketView::Ping(_) => true,
            PacketView::Terminate(_) => true,
        }
    }

    /// The frame that carries the packet.
    pub open spec fn frame(self) -> Seq<u8> {
        match self {
            PacketView::Init(sid) => seq![TAG_INIT] + sid,
            PacketView::Data(sid, data) => seq![TAG_DATA] + sid + data,
            PacketView::Refused(sid) => seq![TAG_REFUSED] + sid,
            PacketView::End(sid) => seq![TAG_END] + sid,
            PacketView::Ping(None) => seq![TAG_PING] + EMPTY_STREAM@,
            PacketView::Ping(Some(token)) => seq![TAG_PING] + TOKEN_STREAM@ + encode_utf8(token),
            PacketView::Terminate(reason) => seq![TAG_TERMINATE] + EMPTY_STREAM@ + encode_utf8(
                reason,
            ),
        }
    }

    /// The packet that a frame carries, or the reason why it carries none.
    ///
    /// The eight bytes after the tag are read as the stream id whatever the
    /// tag is. A ping whose stream id is not the empty marker carries a token,
    /// read leniently from the rest of the frame.
    pub open spec fn parse(frame: Seq<u8>) -> Result<PacketView, FrameError> {
        if frame.len() < HEADER_LEN {
            Err(FrameError::Truncated)
        } else {
            let tag = frame[0];
            let sid = frame.subrange(1, HEADER_LEN as int);
            let payload = frame.subrange(HEADER_LEN as int, frame.len() as int);
            if tag == TAG_INIT {
                Ok(PacketView::Init(sid))
            } else if tag == TAG_DATA {
                Ok(PacketView::Data(sid, payload))
            } else if tag == TAG_REFUSED {
                Ok(PacketView::Refused(sid))
            } else if tag == TAG_END {
                Ok(PacketView::End(sid))
            } else if tag == TAG_PING {
                if sid == EMPTY_STREAM@ {
                    Ok(PacketView::Ping(None))
                } else {
                    Ok(PacketView::Ping(Some(decode_text(payload))))
                }
            } else if tag == TAG_TERMINATE {
                Ok(PacketView::Terminate(decode_text(payload)))
            } else {
                Err(FrameError::InvalidControlByte)
            }
        }
    }

    /// The label under which a packet is logged.
    pub open spec fn label(self) -> Seq<char> {
        match self {
            PacketView::Ping(_) => "PING"@,
            PacketView::Init(_) => "INIT STREAM"@,
            PacketView::Data(_, _) => "STREAM DATA"@,
            PacketView::Refused(_) => "REFUSED"@,
            PacketView::End(_) => "END STREAM"@,
            PacketView::Terminate(_) => "TERMINATE"@,
        }
    }

    /// Decoding the frame of a packet gives the packet back, whatever its
    /// variant and payload.
    pub proof fn lemma_round_trip(self)
        requires
            self.wf(),
        ensures
            Self::parse(self.frame()) == Ok::<PacketView, FrameError>(self),
    {
        let frame = self.frame();
        let sid = frame.subrange(1, HEADER_LEN as int);
        let payload = frame.subrange(HEADER_LEN as int, frame.len() as int);
        match self {
            PacketView::Init(s) => {
                assert(sid =~= s);
            },
            PacketView::Data(s, d) => {
                assert(sid =~= s);
                assert(payload =~= d);
            },
            PacketView::Refused(s) => {
                assert(sid =~= s);
            },
            PacketView::End(s) => {
                assert(sid =~= s);
            },
            PacketView::Ping(None) => {
                assert(sid =~= EMPTY_STREAM@);
            },
            PacketView::Ping(Some(token)) => {
                assert(sid =~= TOKEN_STREAM@);
                assert(sid[7] != EMPTY_STREAM@[7]);
                assert(payload =~= encode_utf8(token));
                lemma_decode_text_of_encoded(token);
            },
            PacketView::Terminate(reason) => {
                assert(payload =~= encode_utf8(reason));
                lemma_decode_text_of_encoded(reason);
            },
        }
    }

    /// A ping without a token is framed with the empty marker and nothing
    /// after it; a ping with a token is framed with the token marker followed
    /// by the token's bytes; and either frame decodes to the ping it came
    /// from.
    pub proof fn lemma_ping_markers(token: Seq<char>)
        ensures
            PacketView::Ping(None).frame() == seq![TAG_PING] + EMPTY_STREAM@,
            PacketView::Ping(Some(token)).frame().subrange(1, HEADER_LEN as int) == TOKEN_STREAM@,
            PacketView::Ping(Some(token)).frame().skip(HEADER_LEN as int) == encode_utf8(token),
            Self::parse(PacketView::Ping(None).frame()) == Ok::<PacketView, FrameError>(
                PacketView::Ping(None),
            ),
            Self::parse(PacketView::Ping(Some(token)).frame()) == Ok::<PacketView, FrameError>(
                PacketView::Ping(Some(token)),
            ),
    {
        PacketView::Ping(None).lemma_round_trip();
        PacketView::Ping(Some(token)).lemma_round_trip();
    }
}

impl View for ControlPacket {
    type V = PacketView;

    open spec fn view(&self) -> PacketView {
        match self {
            ControlPacket::Init(sid) => PacketView::Init(sid@),
            ControlPacket::Data(sid, data) => PacketView::Data(sid@, data@),
            ControlPacket::Refused(sid) => PacketView::Refused(sid@),
            ControlPacket::End(sid) => PacketView::End(sid@),
            ControlPacket::Ping(None) => PacketView::Ping(None),
            ControlPacket::Ping(Some(token)) => PacketView::Ping(Some(token@)),
            ControlPacket::Terminate { reason } => PacketView::Terminate(reason@),
        }
    }
}

/// Reads the stream id of a frame.
fn stream_id_of(data: &[u8]) -> (id: StreamId)
    requires
        data@.len() >= HEADER_LEN,
    ensures
        id@ == data@.subrange(1, HEADER_LEN as int),
{
    let mut bytes = [0u8; 8];
    let mut i: usize = 0;
    while i < 8
        invariant
            i <= 8,
            data@.len() >= HEADER_LEN,
            forall|j: int| 0 <= j < i ==> bytes@[j] == data@[j + 1],
        decreases 8 - i,
    {
        bytes[i] = data[i + 1];
        i += 1;
    }
    assert(bytes@ =~= data@.subrange(1, HEADER_LEN as int));
    StreamId::new(bytes)
}

impl ControlPacket {
    /// Every packet's view is well formed.
    pub proof fn lemma_view_wf(self)
        ensures
            self@.wf(),
    {
        match self {
            ControlPacket::Init(sid) => sid.lemma_len(),
            ControlPacket::Data(sid, _) => sid.lemma_len(),
            ControlPacket::Refused(sid) => sid.lemma_len(),
            ControlPacket::End(sid) => sid.lemma_len(),
            ControlPacket::Ping(_) => {},
            ControlPacket::Terminate { .. } => {},
        }
    }

    /// Encodes the packet as one frame: the tag, the stream id (or the marker
    /// that stands in for it) and the payload, with no length prefix.
    pub fn serialize(self) -> (bytes: Vec<u8>)
        ensures
            bytes@ == self@.frame(),
    {
        let mut out: Vec<u8> = Vec::new();
        match self {
            ControlPacket::Init(sid) => {
                out.push(TAG_INIT);
                out.extend_from_slice(sid.as_slice());
            },
            ControlPacket::Data(sid, data) => {
                out.push(TAG_DATA);
                out.extend_from_slice(sid.as_slice());
                out.extend_from_slice(data.as_slice());
            },
            ControlPacket::Refused(sid) => {
                out.push(TAG_REFUSED);
                out.extend_from_slice(sid.as_slice());
            },
            ControlPacket::End(sid) => {
                out.push(TAG_END);
                out.extend_from_slice(sid.as_slice());
            },
            ControlPacket::Ping(None) => {
                out.push(TAG_PING);
                out.extend_from_slice(EMPTY_STREAM.as_slice());
            },
            ControlPacket::Ping(Some(token)) => {
                out.push(TAG_PING);
                out.extend_from_slice(TOKEN_STREAM.as_slice());
                out.extend_from_slice(token.0.as_str().as_bytes());
            },
            ControlPacket::Terminate { reason } => {
                out.push(TAG_TERMINATE);
                out.extend_from_slice(EMPTY_STREAM.as_slice());
                out.extend_from_slice(reason.as_str().as_bytes());
            },
        }
        assert(out@ =~= self@.frame());
        out
    }

    /// The label under which the packet is logged.
    pub fn packet_type(&self) -> (label: &'static str)
        ensures
            label@ == self@.label(),
    {
        match self {
            ControlPacket::Ping(_) => "PING",
            ControlPacket::Init(_) => "INIT STREAM",
            ControlPacket::Data(_, _) => "STREAM DATA",
            ControlPacket::Refused(_) => "REFUSED",
            ControlPacket::End(_) => "END STREAM",
            ControlPacket::Terminate { .. } => "TERMINATE",
        }
    }

    /// Decodes one frame.
    ///
    /// Fails on a frame shorter than nine bytes and on a tag outside
    /// `0x01..=0x06`, and on nothing else: text that is not well-formed UTF-8
    /// is repaired, not rejected.
    pub fn deserialize(data: &[u8]) -> (r: Result<ControlPacket, FrameError>)
        ensures
            match r {
                Ok(packet) => PacketView::parse(data@) == Ok::<PacketView, FrameError>(packet@),
                Err(e) => PacketView::parse(data@) == Err::<PacketView, FrameError>(e),
            },
            r == Err::<ControlPacket, FrameError>(FrameError::Truncated) <==> data@.len()
                < HEADER_LEN,
            r == Err::<ControlPacket, FrameError>(FrameError::InvalidControlByte) <==> data@.len()
                >= HEADER_LEN && !(TAG_INIT <= data@[0] <= TAG_TERMINATE),
            r is Ok <==> data@.len() >= HEADER_LEN && TAG_INIT <= data@[0] <= TAG_TERMINATE,
    {
        if data.len() < HEADER_LEN {
            return Err(FrameError::Truncated);
        }
        let tag = data[0];
        let stream_id = stream_id_of(data);
        let payload = slice_subrange(data, HEADER_LEN, data.len());
        if tag == TAG_INIT {
            Ok(ControlPacket::Init(stream_id))
        } else if tag == TAG_DATA {
            Ok(ControlPacket::Data(stream_id, slice_to_vec(payload)))
        } else if tag == TAG_REFUSED {
            Ok(ControlPacket::Refused(stream_id))
        } else if tag == TAG_END {
            Ok(ControlPacket::End(stream_id))
        } else if tag == TAG_PING {
            if stream_id == StreamId::new(EMPTY_STREAM) {
                Ok(ControlPacket::Ping(None))
            } else {
                Ok(ControlPacket::Ping(Some(ReconnectToken(string_from_utf8_lossy(payload)))))
            }
        } else if tag == TAG_TERMINATE {
            Ok(ControlPacket::Terminate { reason: string_from_utf8_lossy(payload) })
        } else {
            Err(FrameError::InvalidControlByte)
        }
    }
}

} // verus!
