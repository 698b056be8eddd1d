//! The self-describing wire envelope: a 4-byte little-endian payload length,
//! a 2-byte little-endian payload-type tag, then exactly that many payload
//! bytes. The tag is opaque to the codec. A decoded envelope either keeps the
//! native library's header-and-payload view or owns a self-contained,
//! re-encodable buffer; its accessors behave identically either way.

use vstd::bytes::{
    lemma_auto_spec_u16_to_from_le_bytes, lemma_auto_spec_u32_to_from_le_bytes,
    spec_u16_from_le_bytes, spec_u16_to_le_bytes, spec_u32_from_le_bytes, spec_u32_to_le_bytes,
    u16_from_le_bytes, u16_to_le_bytes, u32_from_le_bytes, u32_to_le_bytes,
};
use vstd::prelude::*;
use vstd::slice::{slice_subrange, slice_to_vec};

use crate::buffer::{bytes_as_slice, bytes_from_vec, bytes_len, bytes_slice, bytes_view};
use crate::error::FrameError;

verus! {

/// The frame encoding of a payload: `[len: u32 LE][type: u16 LE][payload]`.
pub open spec fn frame_bytes(ty: u16, payload: Seq<u8>) -> Seq<u8>
    recommends
        payload.len() <= u32::MAX,
{
    spec_u32_to_le_bytes(payload.len() as u32) + spec_u16_to_le_bytes(ty) + payload
}

/// What decoding a buffer yields: the type tag, the payload, and how many
/// bytes the frame occupies — or nothing when the buffer ends before the
/// announced payload is complete.
pub open spec fn frame_parse(b: Seq<u8>) -> Option<(u16, Seq<u8>, int)> {
    if b.len() < 6 {
        None
    } else {
        let l = spec_u32_from_le_bytes(b.subrange(0, 4)) as int;
        if b.len() < 6 + l {
            None
        } else {
            Some((spec_u16_from_le_bytes(b.subrange(4, 6)), b.subrange(6, 6 + l), 6 + l))
        }
    }
}

/// A self-contained frame buffer: at least the 6 header bytes, with the
/// length field matching the payload that follows.
pub open spec fn self_contained(b: Seq<u8>) -> bool {
    &&& b.len() >= 6
    &&& b.len() - 6 <= u32::MAX
    &&& spec_u32_from_le_bytes(b.subrange(0, 4)) == b.len() - 6
}

/// The native library's view of one raw frame: the payload buffer and the
/// type tag alongside it. The payload length must fit the 32-bit length
/// field.
#[allow(non_camel_case_types)]
#[derive(Debug, Clone)]
pub struct raw_data_t {
    pub raw: bytes::Bytes,
    pub raw_type: u16,
}

impl raw_data_t {
    /// The payload fits the frame's 32-bit length field.
    pub open spec fn wf(&self) -> bool {
        bytes_view(self.raw).len() <= u32::MAX
    }

    /// A self-contained copy of this frame: the length and type fields
    /// re-embedded in front of the payload.
    pub fn to_bytes(&self) -> (r: bytes::Bytes)
        requires
            self.wf(),
        ensures
            bytes_view(r) == frame_bytes(self.raw_type, bytes_view(self.raw)),
    {
        let mut data: Vec<u8> = Vec::new();
        let pl = bytes_len(&self.raw);
        let mut lenb = u32_to_le_bytes(pl as u32);
        data.append(&mut lenb);
        let mut tyb = u16_to_le_bytes(self.raw_type);
        data.append(&mut tyb);
        data.extend_from_slice(bytes_as_slice(&self.raw));
        proof {
            assert(data@ =~= frame_bytes(self.raw_type, bytes_view(self.raw)));
        }
        bytes_from_vec(data)
    }
}

/// Storage of a decoded envelope: the native library's header-and-payload
/// view, or an owned self-contained buffer.
#[derive(Debug, Clone)]
pub enum RawDataInner {
    Raw(raw_data_t),
    Data(bytes::Bytes),
}

/// A decoded wire envelope. Its accessors work identically whether it is
/// backed by the native view or by an owned buffer; callers can tell the two
/// apart only by explicit conversion to bytes.
#[derive(Debug, Clone)]
pub struct RawData(pub RawDataInner);

impl From<raw_data_t> for RawData {
    /// Wraps the native library's view without copying its payload.
    fn from(raw: raw_data_t) -> (r: RawData)
        ensures
            r == (RawData { 0: RawDataInner::Raw(raw) }),
    {
        RawData(RawDataInner::Raw(raw))
    }
}

impl vstd::std_specs::convert::FromSpecImpl<raw_data_t> for RawData {
    open spec fn obeys_from_spec() -> bool {
        true
    }

    open spec fn from_spec(raw: raw_data_t) -> RawData {
        RawData(RawDataInner::Raw(raw))
    }
}

impl RawData {
    /// The payload bytes.
    pub open spec fn payload(&self) -> Seq<u8> {
        match self.0 {
            RawDataInner::Raw(r) => bytes_view(r.raw),
            RawDataInner::Data(b) => bytes_view(b).subrange(6, bytes_view(b).len() as int),
        }
    }

    /// The payload-type tag.
    pub open spec fn ptype(&self) -> u16 {
        match self.0 {
            RawDataInner::Raw(r) => r.raw_type,
            RawDataInner::Data(b) => spec_u16_from_le_bytes(bytes_view(b).subrange(4, 6)),
        }
    }

    /// The held frame is consistent: the length field (stored or embedded)
    /// matches the payload's byte count.
    pub open spec fn wf(&self) -> bool {
        match self.0 {
            RawDataInner::Raw(r) => r.wf(),
            RawDataInner::Data(b) => self_contained(bytes_view(b)),
        }
    }

    /// Wraps a self-contained frame buffer the caller has already framed
    /// correctly; [`RawData::read_inlined`] is the checking path for bytes of
    /// unknown shape.
    pub fn new(raw: bytes::Bytes) -> (r: RawData)
        requires
            self_contained(bytes_view(raw)),
        ensures
            r.wf(),
            r.ptype() == spec_u16_from_le_bytes(bytes_view(raw).subrange(4, 6)),
            r.payload() == bytes_view(raw).subrange(6, bytes_view(raw).len() as int),
    {
        RawData(RawDataInner::Data(raw))
    }

    /// Payload byte count, read from the stored field or the embedded
    /// length field.
    pub fn raw_len(&self) -> (n: u32)
        requires
            self.wf(),
        ensures
            n == self.payload().len(),
    {
        match &self.0 {
            RawDataInner::Raw(r) => bytes_len(&r.raw) as u32,
            RawDataInner::Data(b) => {
                let s = bytes_as_slice(b);
                u32_from_le_bytes(slice_subrange(s, 0, 4))
            },
        }
    }

    /// The payload-type tag.
    pub fn raw_type(&self) -> (t: u16)
        requires
            self.wf(),
        ensures
            t == self.ptype(),
    {
        match &self.0 {
            RawDataInner::Raw(r) => r.raw_type,
            RawDataInner::Data(b) => {
                let s = bytes_as_slice(b);
                u16_from_le_bytes(slice_subrange(s, 4, 6))
            },
        }
    }

    /// The payload as a shared buffer, copying nothing for the owned
    /// representation.
    pub fn raw(&self) -> (r: bytes::Bytes)
        requires
            self.wf(),
        ensures
            bytes_view(r) == self.payload(),
    {
        match &self.0 {
            RawDataInner::Raw(r) => r.raw.clone(),
            RawDataInner::Data(b) => {
                let l = bytes_len(b);
                bytes_slice(b, 6, l)
            },
        }
    }

    /// This envelope as the native library's header-and-payload view.
    pub fn as_raw_data_t(&self) -> (r: raw_data_t)
        requires
            self.wf(),
        ensures
            r.wf(),
            bytes_view(r.raw) == self.payload(),
            r.raw_type == self.ptype(),
    {
        raw_data_t { raw: self.raw(), raw_type: self.raw_type() }
    }

    /// This envelope as one self-contained, re-encodable buffer.
    pub fn as_bytes(&self) -> (r: bytes::Bytes)
        requires
            self.wf(),
        ensures
            bytes_view(r) == frame_bytes(self.ptype(), self.payload()),
    {
        match &self.0 {
            RawDataInner::Raw(raw) => raw.to_bytes(),
            RawDataInner::Data(b) => {
                proof {
                    lemma_auto_spec_u32_to_from_le_bytes();
                    lemma_auto_spec_u16_to_from_le_bytes();
                    let bv = bytes_view(*b);
                    assert(spec_u32_to_le_bytes(spec_u32_from_le_bytes(bv.subrange(0, 4)))
                        =~= bv.subrange(0, 4));
                    assert(spec_u16_to_le_bytes(spec_u16_from_le_bytes(bv.subrange(4, 6)))
                        =~= bv.subrange(4, 6));
                    assert(frame_bytes(self.ptype(), self.payload()) =~= bv);
                }
                b.clone()
            },
        }
    }

    /// Decodes one envelope from the front of `input`: reads the length,
    /// reads the tag, and takes exactly that many payload bytes into an
    /// owned, self-contained buffer, reporting how many input bytes the
    /// frame occupied. A short input is an error, never a partial payload.
    pub fn read_inlined(input: &[u8]) -> (r: Result<(RawData, usize), FrameError>)
        ensures
            r is Ok <==> frame_parse(input@) is Some,
            r matches Ok((d, consumed)) ==> frame_parse(input@) matches Some(p) && d.wf()
                && d.ptype() == p.0 && d.payload() == p.1 && consumed == p.2,
            r matches Err(e) ==> e == FrameError::UnexpectedEof,
    {
        if input.len() < 6 {
            return Err(FrameError::UnexpectedEof);
        }
        let l = u32_from_le_bytes(slice_subrange(input, 0, 4)) as usize;
        if input.len() - 6 < l {
            return Err(FrameError::UnexpectedEof);
        }
        let total = 6 + l;
        let data = slice_to_vec(slice_subrange(input, 0, total));
        let owned = bytes_from_vec(data);
        proof {
            let bv = bytes_view(owned);
            assert(bv.subrange(0, 4) =~= input@.subrange(0, 4));
            assert(bv.subrange(4, 6) =~= input@.subrange(4, 6));
            assert(bv.subrange(6, bv.len() as int) =~= input@.subrange(6, 6 + l));
        }
        Ok((RawData(RawDataInner::Data(owned)), total))
    }

    /// Encodes this envelope — length, tag, payload, all little-endian —
    /// appending to `wtr`, and returns how many bytes were written.
    pub fn write_inlined(&self, wtr: &mut Vec<u8>) -> (n: usize)
        requires
            self.wf(),
        ensures
            final(wtr)@ == old(wtr)@ + frame_bytes(self.ptype(), self.payload()),
            n == self.payload().len() + 6,
    {
        let l0 = wtr.len();
        let b = self.as_bytes();
        wtr.extend_from_slice(bytes_as_slice(&b));
        proof {
            lemma_auto_spec_u32_to_from_le_bytes();
            lemma_auto_spec_u16_to_from_le_bytes();
        }
        wtr.len() - l0
    }
}

/// Envelope round trip: decoding an encoded frame yields the same type tag
/// and payload and consumes exactly the whole frame, while any buffer cut
/// short before the announced payload is complete fails to parse rather than
/// yielding a partial payload.
pub proof fn lemma_envelope_round_trip(ty: u16, payload: Seq<u8>)
    requires
        payload.len() <= u32::MAX,
    ensures
        frame_parse(frame_bytes(ty, payload)) == Some((ty, payload, payload.len() as int + 6)),
        forall|n: int|
            0 <= n < payload.len() + 6 ==> frame_parse(#[trigger] frame_bytes(ty, payload).take(
                n,
            )) is None,
{
    lemma_auto_spec_u32_to_from_le_bytes();
    lemma_auto_spec_u16_to_from_le_bytes();
    let f = frame_bytes(ty, payload);
    assert(f.subrange(0, 4) =~= spec_u32_to_le_bytes(payload.len() as u32));
    assert(f.subrange(4, 6) =~= spec_u16_to_le_bytes(ty));
    assert(f.subrange(6, 6 + payload.len() as int) =~= payload);
    assert forall|n: int| 0 <= n < payload.len() + 6 implies frame_parse(
        #[trigger] frame_bytes(ty, payload).take(n),
    ) is None by {
        let p = f.take(n);
        if n >= 6 {
            assert(p.subrange(0, 4) =~= f.subrange(0, 4));
            assert(p.len() < 6 + spec_u32_from_le_bytes(p.subrange(0, 4)));
        }
    }
}

} // verus!
