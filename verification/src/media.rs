//! The trusted boundary to symphonia: opaque handles for the stream reader,
//! the decoder and the sample buffer, and one contracted wrapper per outside
//! call the decode state machine makes.

use vstd::prelude::*;

use crate::errors::InitError;
use crate::errors::StreamError;

verus! {

#[verifier::external_type_specification]
#[verifier::external_body]
pub struct ExPacket(symphonia::core::formats::Packet);

#[verifier::external_type_specification]
#[verifier::external_body]
pub struct ExSignalSpec(symphonia::core::audio::SignalSpec);

/// The container demuxer built by a successful probe. The trait object it
/// holds cannot be declared to the verifier, so the whole handle is opaque.
#[verifier::external_body]
pub struct MediaStream {
    reader: Box<dyn symphonia::core::formats::FormatReader>,
}

/// The decoder built for the selected track. Opaque for the same reason.
#[verifier::external_body]
pub struct CodecHandle {
    decoder: Box<dyn symphonia::core::codecs::Decoder>,
}

/// The reusable interleaved sample buffer. Its element type is generic with
/// a bound of an outside trait, which the verifier refuses to declare, so it
/// is held behind an opaque struct instead.
#[verifier::external_body]
pub struct SampleStore {
    buf: symphonia::core::audio::SampleBuffer<i32>,
}

/// The number of metadata revisions queued in the stream ahead of the
/// newest one, i.e. how many drain steps are still owed.
pub uninterp spec fn meta_pending(s: MediaStream) -> nat;

/// The decoder's cached last decoded frame, as interleaved full-scale
/// 32-bit samples.
pub uninterp spec fn last_frame(d: CodecHandle) -> Seq<i32>;

/// The written samples a sample buffer holds, in interleaved order.
pub uninterp spec fn sb_samples(b: SampleStore) -> Seq<i32>;

/// The fixed number of samples a sample buffer can hold.
pub uninterp spec fn sb_capacity(b: SampleStore) -> nat;

/// The number of channels a signal specification assigns.
pub uninterp spec fn channel_count_of(s: symphonia::core::audio::SignalSpec) -> nat;

/// Whether probing these bytes, with this extension hint, recognizes a
/// supported container format. The probe and codec registries are fixed
/// per build, so this is a function of the bytes and hint alone.
pub uninterp spec fn format_recognized(media: Seq<u8>, hint: Seq<char>) -> bool;

/// The track entries this reader state reports, reduced as `TrackEntry`
/// does: id, and whether the codec tag differs from the unknown sentinel.
/// A reader may revise its tracks as packets are pulled (a chained
/// stream), so this is a function of the reader state.
pub uninterp spec fn stream_tracks(s: MediaStream) -> Seq<TrackEntry>;

/// Whether a registered decoder instantiates for the codec parameters of
/// the indexed track this reader state reports; false when the index is
/// out of range.
pub uninterp spec fn stream_codec_ok(s: MediaStream, index: int) -> bool;

/// The track entries the recognized container reports at instantiation,
/// reduced as `TrackEntry` does.
pub uninterp spec fn source_tracks(media: Seq<u8>, hint: Seq<char>) -> Seq<TrackEntry>;

/// Whether a registered decoder instantiates for the codec parameters of
/// the indexed instantiation-time track of the recognized container;
/// false when the index is out of range.
pub uninterp spec fn source_codec_ok(media: Seq<u8>, hint: Seq<char>, index: int) -> bool;

/// Whether pulling the next packet from this reader state succeeds.
pub uninterp spec fn pull_ok(s: MediaStream) -> bool;

/// The track id of the packet that a successful pull on this reader state
/// returns.
pub uninterp spec fn pull_track(s: MediaStream) -> u32;

/// The track id a packet carries.
pub uninterp spec fn packet_track(p: symphonia::core::formats::Packet) -> u32;

/// Whether this decoder state decodes this packet successfully.
pub uninterp spec fn decode_ok(d: CodecHandle, p: symphonia::core::formats::Packet) -> bool;

/// The sample rate the decoder's cached last decoded frame reports.
pub uninterp spec fn last_frame_rate(d: CodecHandle) -> u32;

/// The channel count the decoder's cached last decoded frame reports.
pub uninterp spec fn last_frame_channels(d: CodecHandle) -> nat;

/// One track of the probed container, reduced to what selection reads:
/// its id and whether its codec tag differs from the unknown sentinel.
#[derive(Clone, Copy, PartialEq, Eq, Structural, Debug)]
pub struct TrackEntry {
    pub id: u32,
    pub decodable: bool,
}

/// What one successful decode reports of its frame.
pub struct FrameInfo {
    /// Frames in the decoded buffer.
    pub frames: usize,
    /// Channels of the decoded signal.
    pub channels: u32,
    /// Capacity of the decoder's buffer, in frames.
    pub capacity: u64,
    /// Sample rate of the decoded signal, in hertz.
    pub rate: u32,
    /// The full signal specification, kept for allocating the sample buffer.
    pub signal: symphonia::core::audio::SignalSpec,
}

/// Relies on symphonia's Probe::format over an in-memory source: with the
/// registries fixed per build, it succeeds exactly when the bytes are
/// recognized as a supported container, fails with no reader otherwise,
/// and the fresh reader reports the instantiation-time tracks and
/// decoder availability of these bytes and hint.
#[verifier::external_body]
pub(crate) fn probe_source(media: Vec<u8>, ext_hint: &str) -> (r: Result<MediaStream, InitError>)
    ensures
        r is Ok <==> format_recognized(media@, ext_hint@),
        r matches Err(e) ==> e matches InitError::UnsupportedFormat(_),
        r matches Ok(ms) ==> stream_tracks(ms) == source_tracks(media@, ext_hint@),
        r matches Ok(ms) ==> forall|i: int|
            #[trigger] stream_codec_ok(ms, i) <==> source_codec_ok(media@, ext_hint@, i),
{
    let cursor = std::io::Cursor::new(media);
    let mss = symphonia::core::io::MediaSourceStream::new(Box::new(cursor), Default::default());
    let mut hint = symphonia::core::probe::Hint::new();
    hint.with_extension(ext_hint);
    let fmt_opts = symphonia::core::formats::FormatOptions::default();
    let meta_opts = symphonia::core::meta::MetadataOptions::default();
    match symphonia::default::get_probe().format(&hint, mss, &fmt_opts, &meta_opts) {
        Ok(probed) => Ok(MediaStream { reader: probed.format }),
        Err(e) => Err(InitError::UnsupportedFormat(format!("{}", e))),
    }
}

/// Relies on FormatReader::tracks and on comparing each codec tag with the
/// CODEC_TYPE_NULL sentinel: one entry per track the reader reports, in
/// container order.
#[verifier::external_body]
pub(crate) fn track_entries(s: &MediaStream) -> (r: Vec<TrackEntry>)
    ensures
        r@ == stream_tracks(*s),
{
    s.reader
        .tracks()
        .iter()
        .map(
            |t| TrackEntry {
                id: t.id,
                decodable: t.codec_params.codec != symphonia::core::codecs::CODEC_TYPE_NULL,
            },
        )
        .collect()
}

/// Relies on CodecRegistry::make: a decoder is built exactly when one is
/// registered for the indexed track's codec parameters and instantiates
/// on them, and fails otherwise.
#[verifier::external_body]
pub(crate) fn make_decoder(s: &MediaStream, index: usize) -> (r: Result<CodecHandle, InitError>)
    requires
        index < stream_tracks(*s).len(),
    ensures
        r is Ok <==> stream_codec_ok(*s, index as int),
        r matches Err(e) ==> e matches InitError::UnsupportedCodec(_),
{
    let track = match s.reader.tracks().get(index) {
        Some(t) => t,
        None => return Err(InitError::NoSupportedTrack),
    };
    let dec_opts = symphonia::core::codecs::DecoderOptions::default();
    match symphonia::default::get_codecs().make(&track.codec_params, &dec_opts) {
        Ok(d) => Ok(CodecHandle { decoder: d }),
        Err(e) => Err(InitError::UnsupportedCodec(format!("{}", e))),
    }
}

/// Relies on FormatReader::next_packet: over an in-memory source the pull
/// is a function of the reader state, succeeding or not accordingly; end
/// of stream and I/O faults surface as IoFailure, everything else as
/// malformed data. Pulling a packet may queue new metadata revisions, so
/// nothing is preserved of the queue.
#[verifier::external_body]
pub(crate) fn next_packet(s: &mut MediaStream) -> (r: Result<
    symphonia::core::formats::Packet,
    StreamError,
>)
    ensures
        r is Ok <==> pull_ok(*old(s)),
        r matches Ok(p) ==> packet_track(p) == pull_track(*old(s)),
        r matches Err(e) ==> (e matches StreamError::IoFailure(_) || e
            matches StreamError::DecodeFailure(_)),
{
    match s.reader.next_packet() {
        Ok(p) => Ok(p),
        Err(symphonia::core::errors::Error::IoError(e)) => Err(
            StreamError::IoFailure(format!("{}", e)),
        ),
        Err(e) => Err(StreamError::DecodeFailure(format!("{}", e))),
    }
}

pub assume_specification[ symphonia::core::formats::Packet::track_id ](
    p: &symphonia::core::formats::Packet,
) -> (r: u32)
    ensures
        r == packet_track(*p),
;

/// Relies on Metadata::is_latest: true exactly when no revision is queued
/// ahead of the newest one; asking does not change the queue.
#[verifier::external_body]
pub(crate) fn metadata_is_latest(s: &mut MediaStream) -> (r: bool)
    ensures
        r <==> meta_pending(*old(s)) == 0,
        meta_pending(*final(s)) == meta_pending(*old(s)),
{
    s.reader.metadata().is_latest()
}

/// Relies on Metadata::pop: with at least one revision queued ahead of the
/// newest, it discards the oldest and shortens the queue by one.
#[verifier::external_body]
pub(crate) fn metadata_pop(s: &mut MediaStream)
    requires
        meta_pending(*old(s)) > 0,
    ensures
        meta_pending(*final(s)) == meta_pending(*old(s)) - 1,
{
    s.reader.metadata().pop();
}

/// Relies on Decoder::decode and Decoder::last_decoded: decoding is a
/// function of the decoder state and the packet, and succeeds or fails
/// accordingly; on success the decoder caches the decoded frame, whose
/// interleaved length is frames * channels and whose reported rate and
/// channel count the returned report repeats; frames never exceeds the
/// buffer's capacity, and the reported channel count is that of the
/// reported signal specification.
#[verifier::external_body]
pub(crate) fn decode_packet(d: &mut CodecHandle, p: &symphonia::core::formats::Packet) -> (r:
    Result<FrameInfo, StreamError>)
    ensures
        r is Ok <==> decode_ok(*old(d), *p),
        r matches Err(e) ==> e matches StreamError::DecodeFailure(_),
        r matches Ok(fi) ==> {
            &&& last_frame(*final(d)).len() == fi.frames * fi.channels
            &&& fi.frames <= fi.capacity
            &&& fi.channels as nat == channel_count_of(fi.signal)
            &&& fi.rate == last_frame_rate(*final(d))
            &&& fi.channels as nat == last_frame_channels(*final(d))
        },
{
    match d.decoder.decode(p) {
        Ok(decoded) => {
            let signal = *decoded.spec();
            Ok(
                FrameInfo {
                    frames: decoded.frames(),
                    channels: signal.channels.count() as u32,
                    capacity: decoded.capacity() as u64,
                    rate: signal.rate,
                    signal,
                },
            )
        },
        Err(e) => Err(StreamError::DecodeFailure(format!("{}", e))),
    }
}

/// Relies on SampleBuffer::new: it allocates room for duration * channels
/// samples with none written yet; the admitted sizes keep it from its
/// internal overflow asserts.
#[verifier::external_body]
pub(crate) fn alloc_sample_buffer(
    duration: u64,
    signal: symphonia::core::audio::SignalSpec,
) -> (r: SampleStore)
    requires
        channel_count_of(signal) >= 1,
        duration as int * channel_count_of(signal) as int <= usize::MAX as int / 4,
    ensures
        sb_samples(r) == Seq::<i32>::empty(),
        sb_capacity(r) == duration as int * channel_count_of(signal) as int,
{
    SampleStore { buf: symphonia::core::audio::SampleBuffer::new(duration, signal) }
}

/// Relies on SampleBuffer::capacity: the fixed number of samples the buffer
/// can hold.
#[verifier::external_body]
pub(crate) fn sample_buffer_capacity(b: &SampleStore) -> (r: usize)
    ensures
        r as nat == sb_capacity(*b),
{
    b.buf.capacity()
}

/// Relies on SampleBuffer::copy_interleaved_ref: it overwrites the written
/// region with the decoder's cached frame in interleaved channel order,
/// converted to full-scale 32-bit samples; the capacity precondition keeps
/// it from its internal assert, and the capacity itself is untouched.
#[verifier::external_body]
pub(crate) fn copy_decoded_interleaved(
    d: &CodecHandle,
    b: &mut SampleStore,
)
    requires
        last_frame(*d).len() <= sb_capacity(*old(b)),
    ensures
        sb_samples(*final(b)) == last_frame(*d),
        sb_capacity(*final(b)) == sb_capacity(*old(b)),
{
    b.buf.copy_interleaved_ref(d.decoder.last_decoded());
}

/// Relies on SampleBuffer::samples: the written samples, in interleaved
/// order.
#[verifier::external_body]
pub(crate) fn sample_buffer_contents(b: &SampleStore) -> (r: Vec<i32>)
    ensures
        r@ == sb_samples(*b),
{
    b.buf.samples().to_vec()
}

} // verus!
