//! Ogg page framing, done by the `ogg` crate's `PacketWriter` writing into
//! memory. The page layout (segment tables, CRCs, sequence numbers) is the
//! crate's; this module states which packets went in, in which order, with
//! which end marks and granule positions.

use vstd::prelude::*;
use ogg::writing::{PacketWriteEndInfo, PacketWriter};

verus! {

/// How a packet ends: a plain packet, the end of a page, or the end of the
/// logical stream.
#[derive(PartialEq, Eq, Structural, Clone, Copy, Debug)]
pub enum PacketEnd {
    NormalPacket,
    EndPage,
    EndStream,
}

/// An Ogg `PacketWriter` over an in-memory buffer, held in a private field:
/// it is only ever created empty by `ogg_writer_new` and changed by
/// `ogg_write_packet`.
#[verifier::external_body]
pub struct OggPageWriter {
    inner: PacketWriter<'static, Vec<u8>>,
}

#[verifier::external_type_specification]
#[verifier::external_body]
pub struct ExIoError(std::io::Error);

/// The packets handed to a writer so far, in order: contents, stream serial,
/// end mark, granule position.
pub uninterp spec fn ogg_packets_written(w: OggPageWriter) -> Seq<
    (Seq<u8>, u32, PacketEnd, u64),
>;

/// The bytes of the Ogg pages into which `PacketWriter` frames this sequence
/// of packets, starting from an empty output.
pub uninterp spec fn ogg_stream_bytes(packets: Seq<(Seq<u8>, u32, PacketEnd, u64)>) -> Seq<u8>;

/// `PacketWriter::new` over an empty `Vec<u8>`: no packet has been written.
#[verifier::external_body]
pub(crate) fn ogg_writer_new() -> (w: OggPageWriter)
    ensures
        ogg_packets_written(w) == Seq::<(Seq<u8>, u32, PacketEnd, u64)>::empty(),
{
    OggPageWriter { inner: PacketWriter::new(Vec::new()) }
}

/// `PacketWriter::write_packet`: the packet is appended to those written,
/// with the given serial, end mark and granule position. Its only errors
/// come from the underlying writer; writing into a `Vec<u8>` (and into the
/// in-memory `Cursor` the page header is built in) appends and succeeds, so
/// the call succeeds. The bounds keep the page sequence counter (at most two
/// pages per packet of fewer than 255 * 255 bytes) from overflowing.
#[verifier::external_body]
pub(crate) fn ogg_write_packet(
    w: &mut OggPageWriter,
    data: &Vec<u8>,
    serial: u32,
    end: PacketEnd,
    granule: u64,
) -> (r: Result<(), std::io::Error>)
    requires
        ogg_packets_written(*old(w)).len() < 0x4000_0000,
        data@.len() < 65025,
    ensures
        r is Ok,
        ogg_packets_written(*final(w)) == ogg_packets_written(*old(w)).push(
            (data@, serial, end, granule),
        ),
{
    let info = match end {
        PacketEnd::NormalPacket => PacketWriteEndInfo::NormalPacket,
        PacketEnd::EndPage => PacketWriteEndInfo::EndPage,
        PacketEnd::EndStream => PacketWriteEndInfo::EndStream,
    };
    w.inner.write_packet(data.clone(), serial, info, granule)
}

/// `PacketWriter::into_inner`: the bytes of the pages written for the
/// packets handed to the writer.
#[verifier::external_body]
pub(crate) fn ogg_writer_into_bytes(w: OggPageWriter) -> (bytes: Vec<u8>)
    ensures
        bytes@ == ogg_stream_bytes(ogg_packets_written(w)),
{
    w.inner.into_inner()
}

} // verus!
