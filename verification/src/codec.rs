//! The compression pass between a serialized message and a packet's payload.
//!
//! A message is first serialized by the caller; its bytes are then compressed
//! here with zstd at a fixed, fast level. Decoding goes the other way.

use vstd::prelude::*;

verus! {

/// The error of `std::io`, as zstd returns it.
#[verifier::external_type_specification]
#[verifier::external_body]
pub struct ExIoError(std::io::Error);

/// The compression level for every message: tuned for speed, since a message
/// is encoded on every tick.
pub const ZSTD_LEVEL: i32 = 5;

/// The stage of the codec at which a message failed.
#[derive(Clone, Copy, Debug, PartialEq, Eq, Structural)]
pub enum CodecStage {
    /// Turning a message into bytes, or bytes into a message.
    Bincode,
    /// Compressing or decompressing those bytes.
    Zstd,
}

/// A message that could not be encoded or decoded. The connection is dropped
/// on either.
#[derive(Clone, Copy, Debug, PartialEq, Eq, Structural)]
pub enum CodecError {
    Encoding(CodecStage),
    Decoding(CodecStage),
}

/// `zstd::encode_all` makes a frame of `data` at `level`.
pub uninterp spec fn zstd_writable(data: Seq<u8>, level: int) -> bool;

/// The zstd frame that `zstd::encode_all` makes of `data` at `level`.
pub uninterp spec fn zstd_frame(data: Seq<u8>, level: int) -> Seq<u8>;

/// `zstd::decode_all` reads `frame`.
pub uninterp spec fn zstd_readable(frame: Seq<u8>) -> bool;

/// The bytes that `zstd::decode_all` makes of `frame` where it succeeds.
pub uninterp spec fn zstd_content(frame: Seq<u8>) -> Seq<u8>;

/// Calls `zstd::encode_all` on a cursor over `data`.
///
/// Trusted: whether the call succeeds, and what it then returns, depends on
/// `data` and `level` alone; and what it returns is a frame that
/// `zstd::decode_all` reads, and reads as `data` again. For which data it
/// succeeds is not claimed. That it can fail for want of memory, whatever the
/// data, is left out of account, as it is wherever verified code allocates.
#[verifier::external_body]
fn zstd_encode_all(data: &[u8], level: i32) -> (res: Result<Vec<u8>, std::io::Error>)
    ensures
        res is Ok == zstd_writable(data@, level as int),
        res matches Ok(frame) ==> frame@ == zstd_frame(data@, level as int) && zstd_readable(
            frame@,
        ) && zstd_content(frame@) == data@,
{
    zstd::encode_all(std::io::Cursor::new(data), level)
}

/// Calls `zstd::decode_all` on `frame`.
///
/// Trusted: whether the call succeeds, and what it then returns, depends on
/// `frame` alone. For which bytes it succeeds is not claimed; want of memory
/// is left out of account, as for the compressor.
#[verifier::external_body]
fn zstd_decode_all(frame: &[u8]) -> (res: Result<Vec<u8>, std::io::Error>)
    ensures
        res is Ok == zstd_readable(frame@),
        res matches Ok(data) ==> data@ == zstd_content(frame@),
{
    zstd::decode_all(frame)
}

/// What the compressor's answer means for the message: its frame is the
/// packet's payload, and any failure is an encoding error of the zstd stage.
pub fn packet_from_compressor(outcome: Result<Vec<u8>, std::io::Error>) -> (res: Result<
    Vec<u8>,
    CodecError,
>)
    ensures
        outcome matches Ok(frame) ==> res == Ok::<Vec<u8>, CodecError>(frame),
        outcome is Err ==> res == Err::<Vec<u8>, CodecError>(
            CodecError::Encoding(CodecStage::Zstd),
        ),
{
    match outcome {
        Ok(frame) => Ok(frame),
        Err(_) => Err(CodecError::Encoding(CodecStage::Zstd)),
    }
}

/// What the decompressor's answer means for the packet: its output is the
/// serialized message, and any failure is a decoding error of the zstd stage.
pub fn message_from_decompressor(outcome: Result<Vec<u8>, std::io::Error>) -> (res: Result<
    Vec<u8>,
    CodecError,
>)
    ensures
        outcome matches Ok(data) ==> res == Ok::<Vec<u8>, CodecError>(data),
        outcome is Err ==> res == Err::<Vec<u8>, CodecError>(
            CodecError::Decoding(CodecStage::Zstd),
        ),
{
    match outcome {
        Ok(data) => Ok(data),
        Err(_) => Err(CodecError::Decoding(CodecStage::Zstd)),
    }
}

/// Compresses a serialized message into a packet's payload.
///
/// It succeeds exactly where zstd makes a frame of the bytes at
/// [`ZSTD_LEVEL`]. The payload is that frame, and decoding it succeeds and
/// gives the bytes back. The only error is that of the zstd stage.
pub fn encode_message(serialized: &[u8]) -> (res: Result<Vec<u8>, CodecError>)
    ensures
        res is Ok == zstd_writable(serialized@, 5),
        match res {
            Ok(packet) => packet@ == zstd_frame(serialized@, 5) && zstd_readable(packet@)
                && zstd_content(packet@) == serialized@,
            Err(e) => e == CodecError::Encoding(CodecStage::Zstd),
        },
{
    packet_from_compressor(zstd_encode_all(serialized, ZSTD_LEVEL))
}

/// Decompresses a packet's payload into a serialized message.
///
/// It succeeds exactly where zstd reads the payload. The only error is that
/// of the zstd stage.
pub fn decode_message(packet: &[u8]) -> (res: Result<Vec<u8>, CodecError>)
    ensures
        res is Ok == zstd_readable(packet@),
        match res {
            Ok(serialized) => serialized@ == zstd_content(packet@),
            Err(e) => e == CodecError::Decoding(CodecStage::Zstd),
        },
{
    message_from_decompressor(zstd_decode_all(packet))
}

/// Decodes what [`encode_message`] encoded. It succeeds exactly where
/// encoding does, for what was encoded can always be decoded; and the bytes
/// that come out are the bytes that went in. The only error is that of
/// encoding.
pub fn round_trip(serialized: &[u8]) -> (res: Result<Vec<u8>, CodecError>)
    ensures
        res is Ok == zstd_writable(serialized@, 5),
        match res {
            Ok(back) => back@ == serialized@ && back@ == zstd_content(
                zstd_frame(serialized@, 5),
            ),
            Err(e) => e == CodecError::Encoding(CodecStage::Zstd),
        },
{
    match encode_message(serialized) {
        Ok(packet) => decode_message(packet.as_slice()),
        Err(e) => Err(e),
    }
}

} // verus!
