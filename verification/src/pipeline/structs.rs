//! Encoded chunks as they travel from a transport to a decoder.

use bytes::Bytes;
use vstd::prelude::*;

verus! {

/// `bytes::Bytes`, a cheaply shared, immutable run of bytes. The library
/// never looks inside one except through the items below.
#[verifier::external_type_specification]
#[verifier::external_body]
pub struct ExBytes(bytes::Bytes);

/// The bytes that a `Bytes` value holds, first to last.
pub uninterp spec fn bytes_contents(b: Bytes) -> Seq<u8>;

/// `Bytes::copy_from_slice` copies the slice into a fresh buffer: the result
/// holds exactly the bytes of `data`.
pub assume_specification[ Bytes::copy_from_slice ](data: &[u8]) -> (b: Bytes)
    ensures
        bytes_contents(b) == data@,
;

/// `Bytes::is_empty` tells whether the value holds no byte at all.
pub assume_specification[ Bytes::is_empty ](b: &Bytes) -> (empty: bool)
    ensures
        empty == (bytes_contents(*b).len() == 0),
;

/// `Bytes::len` is the number of bytes held.
pub assume_specification[ Bytes::len ](b: &Bytes) -> (len: usize)
    ensures
        len == bytes_contents(*b).len(),
;

/// Copies the held bytes out through `Bytes`' `Deref` to a slice and the
/// slice's `to_vec`: the vector holds the same bytes in the same order.
#[verifier::external_body]
fn bytes_to_vec(b: &Bytes) -> (out: Vec<u8>)
    ensures
        out@ == bytes_contents(*b),
{
    b.to_vec()
}

/// The codecs that the pipeline can carry.
#[derive(Debug, Clone, Copy, PartialEq, Eq, Structural)]
pub enum Codec {
    H264,
}

/// What kind of data a chunk carries.
#[derive(Debug, Clone, Copy, PartialEq, Eq, Structural)]
pub enum EncodedChunkKind {
    Video(Codec),
}

/// Why a demuxed packet could not become a chunk.
#[derive(Debug, Clone, Copy, PartialEq, Eq, Structural)]
pub enum ChunkFromFfmpegError {
    /// The packet has no payload, or an empty one.
    NoData,
    /// The packet has no presentation time.
    NoPts,
    /// The packet is to be decoded after it is to be presented.
    DtsAfterPts,
}

impl ChunkFromFfmpegError {
    /// The error as a sentence for logs and responses.
    pub fn message(&self) -> (text: String)
        ensures
            text@ == match *self {
                ChunkFromFfmpegError::NoData => "No data"@,
                ChunkFromFfmpegError::NoPts => "No pts"@,
                ChunkFromFfmpegError::DtsAfterPts => "Dts after pts"@,
            },
    {
        match self {
            ChunkFromFfmpegError::NoData => String::from_str("No data"),
            ChunkFromFfmpegError::NoPts => String::from_str("No pts"),
            ChunkFromFfmpegError::DtsAfterPts => String::from_str("Dts after pts"),
        }
    }
}

/// What a demuxed packet says of itself: its payload, if it has one, and its
/// timestamps, each absent where the demuxer set none.
#[derive(Debug)]
pub struct AvPacket {
    pub data: Option<Vec<u8>>,
    pub pts: Option<i64>,
    pub dts: Option<i64>,
}

/// A chunk of encoded data, such as one H264 NAL unit.
pub struct EncodedChunk {
    pub data: Bytes,
    pub pts: i64,
    pub dts: Option<i64>,
    pub kind: EncodedChunkKind,
}

impl EncodedChunk {
    /// The payload of the chunk.
    pub open spec fn payload(&self) -> Seq<u8> {
        bytes_contents(self.data)
    }

    /// A chunk is sound when it carries at least one byte and is not decoded
    /// later than it is presented.
    pub open spec fn is_sound(&self) -> bool {
        &&& self.payload().len() > 0
        &&& self.dts matches Some(dts) ==> dts <= self.pts
    }

    /// Builds a chunk from a demuxed packet.
    ///
    /// A packet without payload, or with an empty one, gives `NoData`. One
    /// with payload but without presentation time gives `NoPts`. One whose
    /// decoding time lies after its presentation time gives `DtsAfterPts`.
    /// Every other packet becomes a chunk that carries the packet's bytes and
    /// timestamps unchanged; every chunk that is made is sound.
    pub fn from_av_packet(value: &AvPacket, kind: EncodedChunkKind) -> (chunk: Result<
        Self,
        ChunkFromFfmpegError,
    >)
        ensures
            chunk matches Ok(made) ==> made.is_sound(),
            match value.data {
                None => chunk == Err::<Self, _>(ChunkFromFfmpegError::NoData),
                Some(data) => if data@.len() == 0 {
                    chunk == Err::<Self, _>(ChunkFromFfmpegError::NoData)
                } else {
                    match value.pts {
                        None => chunk == Err::<Self, _>(ChunkFromFfmpegError::NoPts),
                        Some(pts) => if value.dts matches Some(dts) && dts > pts {
                            chunk == Err::<Self, _>(ChunkFromFfmpegError::DtsAfterPts)
                        } else {
                            &&& chunk is Ok
                            &&& chunk->Ok_0.payload() == data@
                            &&& chunk->Ok_0.pts == pts
                            &&& chunk->Ok_0.dts == value.dts
                            &&& chunk->Ok_0.kind == kind
                        },
                    }
                },
            },
    {
        let data = match &value.data {
            Some(data) => {
                if data.len() == 0 {
                    return Err(ChunkFromFfmpegError::NoData);
                }
                Bytes::copy_from_slice(data.as_slice())
            },
            None => return Err(ChunkFromFfmpegError::NoData),
        };
        let pts = match value.pts {
            Some(pts) => pts,
            None => return Err(ChunkFromFfmpegError::NoPts),
        };
        match value.dts {
            Some(dts) => {
                if dts > pts {
                    return Err(ChunkFromFfmpegError::DtsAfterPts);
                }
            },
            None => {},
        }
        Ok(EncodedChunk { data, pts, dts: value.dts, kind })
    }

    /// Number of payload bytes.
    pub fn len(&self) -> (len: usize)
        ensures
            len == self.payload().len(),
    {
        self.data.len()
    }

    /// A copy of the payload.
    pub fn to_vec(&self) -> (out: Vec<u8>)
        ensures
            out@ == self.payload(),
    {
        bytes_to_vec(&self.data)
    }

    /// Checks the chunk against [`EncodedChunk::is_sound`].
    pub fn check_sound(&self) -> (sound: bool)
        ensures
            sound == self.is_sound(),
    {
        if self.data.is_empty() {
            return false;
        }
        match self.dts {
            Some(dts) => dts <= self.pts,
            None => true,
        }
    }
}

/// A codec as the demuxer names it: the one the pipeline supports, or any
/// other, kept by its name.
#[derive(Debug)]
pub enum AvCodecId {
    H264,
    Other(String),
}

/// Why a demuxer's codec cannot be carried.
#[derive(Debug)]
pub enum CodecFromFfmpegError {
    UnsupportedCodec(String),
}

impl CodecFromFfmpegError {
    /// The error as a sentence for logs and responses.
    pub fn message(&self) -> (text: String)
        ensures
            text@ == "Unsupported codec "@ + self->UnsupportedCodec_0@,
    {
        match self {
            CodecFromFfmpegError::UnsupportedCodec(name) => String::from_str(
                "Unsupported codec ",
            ).concat(name.as_str()),
        }
    }
}

impl Codec {
    /// H264 is carried; every other codec is refused under its name.
    pub fn try_from(value: AvCodecId) -> (codec: Result<Codec, CodecFromFfmpegError>)
        ensures
            codec == match value {
                AvCodecId::H264 => Ok::<Codec, CodecFromFfmpegError>(Codec::H264),
                AvCodecId::Other(name) => Err::<Codec, CodecFromFfmpegError>(
                    CodecFromFfmpegError::UnsupportedCodec(name),
                ),
            },
    {
        match value {
            AvCodecId::H264 => Ok(Codec::H264),
            AvCodecId::Other(name) => Err(CodecFromFfmpegError::UnsupportedCodec(name)),
        }
    }
}

} // verus!
