//! The decode state machine and its sample-buffer discipline: Ready until
//! the one-time initialization succeeds, then Playing, pulling and decoding
//! exactly one container packet per tick into a buffer that is sized once
//! and overwritten thereafter.

use vstd::prelude::*;

use crate::amplitude::Rgb;
use crate::amplitude::circle_color_of_milli;
use crate::amplitude::color_of_milli;
use crate::amplitude::milli_of_raw_spec;
use crate::amplitude::radius_milli_spec;
use crate::amplitude::raw_to_milli;
use crate::amplitude::rgb_black;
use crate::errors::FatalError;
use crate::errors::InitError;
use crate::errors::StreamError;
use crate::media::CodecHandle;
use crate::media::MediaStream;
use crate::media::SampleStore;
use crate::media::TrackEntry;
use crate::media::alloc_sample_buffer;
use crate::media::copy_decoded_interleaved;
use crate::media::decode_packet;
use crate::media::format_recognized;
use crate::media::last_frame;
use crate::media::last_frame_channels;
use crate::media::last_frame_rate;
use crate::media::make_decoder;
use crate::media::metadata_is_latest;
use crate::media::metadata_pop;
use crate::media::meta_pending;
use crate::media::next_packet;
use crate::media::probe_source;
use crate::media::pull_ok;
use crate::media::pull_track;
use crate::media::sample_buffer_capacity;
use crate::media::sample_buffer_contents;
use crate::media::sb_capacity;
use crate::media::sb_samples;
use crate::media::source_codec_ok;
use crate::media::source_tracks;
use crate::media::track_entries;
use crate::num_to_circle::number_to_circle;
use crate::num_to_color::number_to_color;

verus! {

broadcast use vstd::string::to_string_from_display_ensures_for_str;

/// The stream reader, decoder and selected track id, built atomically by
/// initialization and owned by the state machine for the rest of the run.
pub struct PlayerData {
    pub stream: MediaStream,
    pub decoder: CodecHandle,
    /// Immutable once set: every later packet must belong to this track.
    pub track_id: u32,
}

/// Ready until the one-time initialization succeeds, then Playing forever.
/// The player handles exist exactly when Playing.
pub enum AudioState {
    Ready,
    Playing(PlayerData),
}

/// The application core: the decode state, the reusable sample buffer with
/// the audio spec it was sized for, and the monotonic running total of
/// samples produced across all ticks.
pub struct AppState {
    pub audio_state: AudioState,
    /// Path of the media file; the host reads the bytes it names.
    pub audio_path: String,
    /// Tick interval in milliseconds.
    pub fps_as_ms: u64,
    pub sample_buf: Option<SampleStore>,
    /// Sample rate the buffer was sized for; meaningful once allocated.
    pub rate: u32,
    /// Channel count the buffer was sized for; meaningful once allocated.
    pub channels: u32,
    /// Fixed capacity of the buffer in samples; meaningful once allocated.
    pub capacity: usize,
    /// Monotonic total of samples produced; never reset.
    pub sample_count: u64,
}

/// Addition that stops at the top of the counter's range instead of
/// wrapping; the running total only ever grows.
pub open spec fn sat_add_u64(a: u64, b: u64) -> u64 {
    if a + b > u64::MAX {
        u64::MAX
    } else {
        (a + b) as u64
    }
}

impl AppState {
    /// The recorded capacity mirrors the buffer's real one.
    pub open spec fn wf(self) -> bool {
        match self.sample_buf {
            Some(b) => sb_capacity(b) == self.capacity as nat,
            None => true,
        }
    }

    pub open spec fn allocated(self) -> bool {
        self.sample_buf is Some
    }

    /// The samples of the most recently decoded packet, interleaved.
    pub open spec fn samples_view(self) -> Seq<i32> {
        match self.sample_buf {
            Some(b) => sb_samples(b),
            None => Seq::empty(),
        }
    }

    /// The track selected at initialization, while Playing.
    pub open spec fn selected_track(self) -> Option<u32> {
        match self.audio_state {
            AudioState::Playing(pd) => Some(pd.track_id),
            AudioState::Ready => None,
        }
    }

    /// The decoder's cached last decoded frame, while Playing.
    pub open spec fn decoder_frame(self) -> Seq<i32> {
        match self.audio_state {
            AudioState::Playing(pd) => last_frame(pd.decoder),
            AudioState::Ready => Seq::empty(),
        }
    }
}

impl Default for AppState {
    /// A fresh core: Ready, no buffer, nothing counted, with the default
    /// source path and a tick interval of 41 ms (roughly 24 per second).
    fn default() -> (r: Self)
        ensures
            r.audio_state is Ready,
            r.sample_buf is None,
            r.sample_count == 0,
            r.fps_as_ms == 41,
            r.audio_path@ == "./sample.mp3"@,
            r.wf(),
    {
        AppState {
            audio_state: AudioState::Ready,
            audio_path: "./sample.mp3".to_string(),
            fps_as_ms: 41,
            sample_buf: None,
            rate: 0,
            channels: 0,
            capacity: 0,
            sample_count: 0,
        }
    }
}

/// Some track of the container is decodable.
pub open spec fn has_decodable(tracks: Seq<TrackEntry>) -> bool {
    exists|i: int| 0 <= i < tracks.len() && tracks[i].decodable
}

/// Position i holds the first decodable track.
pub open spec fn is_first_decodable(tracks: Seq<TrackEntry>, i: int) -> bool {
    &&& 0 <= i < tracks.len()
    &&& tracks[i].decodable
    &&& forall|j: int| 0 <= j < i ==> !tracks[j].decodable
}

/// At most one position holds the first decodable track.
proof fn lemma_first_decodable_unique(tracks: Seq<TrackEntry>, i: int, j: int)
    requires
        is_first_decodable(tracks, i),
        is_first_decodable(tracks, j),
    ensures
        i == j,
{
    if i < j {
        assert(!tracks[i].decodable);
    } else if j < i {
        assert(!tracks[j].decodable);
    }
}

/// Select the first track whose codec differs from the unknown sentinel,
/// returning its position and id; none qualifies exactly when every track
/// is undecodable.
pub fn select_track(tracks: &Vec<TrackEntry>) -> (r: Option<(usize, u32)>)
    ensures
        match r {
            Some(sel) => is_first_decodable(tracks@, sel.0 as int) && sel.1 == tracks@[sel.0 as int].id,
            None => !has_decodable(tracks@),
        },
{
    let mut i: usize = 0;
    while i < tracks.len()
        invariant
            i <= tracks.len(),
            forall|j: int| 0 <= j < i ==> !tracks@[j].decodable,
        decreases tracks.len() - i,
    {
        if tracks[i].decodable {
            return Some((i, tracks[i].id));
        }
        i = i + 1;
    }
    None
}

/// A packet is admitted exactly when it belongs to the selected track;
/// any other packet halts the run with the mismatching pair.
pub fn check_track(packet_track: u32, selected: u32) -> (r: Result<(), StreamError>)
    ensures
        r is Ok <==> packet_track == selected,
        r matches Err(e) ==> e == (StreamError::TrackMismatch {
            got: packet_track,
            expected: selected,
        }),
{
    if packet_track != selected {
        Err(StreamError::TrackMismatch { got: packet_track, expected: selected })
    } else {
        Ok(())
    }
}

/// One Playing tick: pull the next packet, drain stale metadata revisions,
/// admit the packet only for the selected track, decode it, size the buffer
/// once from the first decoded frame, overwrite the buffer with the frame,
/// and report how many samples were produced. Any error leaves the buffer,
/// its spec and its contents exactly as they were.
fn playing_step(
    pd: &mut PlayerData,
    buf: &mut Option<SampleStore>,
    rate: &mut u32,
    channels: &mut u32,
    capacity: &mut usize,
) -> (r: Result<usize, StreamError>)
    requires
        (match *old(buf) {
            Some(b) => sb_capacity(b) == *old(capacity) as nat,
            None => true,
        }),
    ensures
        final(pd).track_id == old(pd).track_id,
        (match *final(buf) {
            Some(b) => sb_capacity(b) == *final(capacity) as nat,
            None => true,
        }),
        *old(buf) is Some ==> {
            &&& *final(buf) is Some
            &&& *final(capacity) == *old(capacity)
            &&& *final(rate) == *old(rate)
            &&& *final(channels) == *old(channels)
        },
        r is Err ==> {
            &&& *final(buf) == *old(buf)
            &&& *final(capacity) == *old(capacity)
            &&& *final(rate) == *old(rate)
            &&& *final(channels) == *old(channels)
        },
        r matches Ok(n) ==> {
            &&& *final(buf) is Some
            &&& (match *final(buf) {
                Some(b) => sb_samples(b) == last_frame(final(pd).decoder) && sb_samples(b).len()
                    == n,
                None => false,
            })
            &&& n <= *final(capacity)
        },
        !pull_ok(old(pd).stream) ==> (r matches Err(e) && (e matches StreamError::IoFailure(_)
            || e matches StreamError::DecodeFailure(_))),
        pull_ok(old(pd).stream) && pull_track(old(pd).stream) != old(pd).track_id ==> r == Err::<
            usize,
            StreamError,
        >((StreamError::TrackMismatch {
            got: pull_track(old(pd).stream),
            expected: old(pd).track_id,
        })),
        pull_ok(old(pd).stream) && pull_track(old(pd).stream) == old(pd).track_id ==> (r is Ok
            || r matches Err(StreamError::DecodeFailure(_))),
        (*old(buf) is None && r is Ok) ==> (*final(rate) == last_frame_rate(final(pd).decoder)
            && *final(channels) as nat == last_frame_channels(final(pd).decoder)),
{
    // Pull the next packet; end of stream and every fault are fatal.
    let packet = match next_packet(&mut pd.stream) {
        Ok(p) => p,
        Err(e) => { return Err(e); },
    };

    // Drain metadata revisions older than the current one. This is an
    // observability side effect only, with no influence on decoding.
    let ghost pd_entry = *pd;
    loop
        invariant
            pd.track_id == pd_entry.track_id,
            pd.decoder == pd_entry.decoder,
        decreases meta_pending(pd.stream),
    {
        if metadata_is_latest(&mut pd.stream) {
            break ;
        }
        metadata_pop(&mut pd.stream);
    }

    // A packet of any other track is an unrecoverable desynchronization.
    let tid = packet.track_id();
    match check_track(tid, pd.track_id) {
        Ok(u) => u,
        Err(e) => { return Err(e); },
    };

    // Decode the packet into the decoder's cached frame.
    let fi = match decode_packet(&mut pd.decoder, &packet) {
        Ok(f) => f,
        Err(e) => { return Err(e); },
    };
    let n = match fi.frames.checked_mul(fi.channels as usize) {
        Some(n) => n,
        None => {
            return Err(StreamError::DecodeFailure("decoded frame too large".to_string()));
        },
    };

    match buf {
        None => {
            // First successfully decoded frame: size the buffer, exactly
            // once for the life of the run, from the frame's capacity and
            // signal spec.
            if fi.channels == 0 {
                return Err(StreamError::DecodeFailure("decoded frame has no channels".to_string()));
            }
            let cap64 = match fi.capacity.checked_mul(fi.channels as u64) {
                Some(c) => c,
                None => {
                    return Err(StreamError::DecodeFailure("decoded frame too large".to_string()));
                },
            };
            if cap64 > usize::MAX as u64 / 4 {
                return Err(StreamError::DecodeFailure("decoded frame too large".to_string()));
            }
            let mut fresh = alloc_sample_buffer(fi.capacity, fi.signal);
            let cap = sample_buffer_capacity(&fresh);
            proof {
                assert(fi.frames * fi.channels <= fi.capacity * fi.channels) by (nonlinear_arith)
                    requires
                        fi.frames <= fi.capacity,
                ;
            }
            copy_decoded_interleaved(&pd.decoder, &mut fresh);
            *capacity = cap;
            *rate = fi.rate;
            *channels = fi.channels;
            *buf = Some(fresh);
            Ok(n)
        },
        Some(b) => {
            // Later frames must fit the capacity fixed by the first one.
            if n > *capacity {
                return Err(
                    StreamError::DecodeFailure(
                        "decoded frame exceeds the fixed buffer capacity".to_string(),
                    ),
                );
            }
            copy_decoded_interleaved(&pd.decoder, b);
            Ok(n)
        },
    }
}

impl AppState {
    /// One-time initialization: probe the container format of the given
    /// bytes, select the first decodable track, and build a decoder for
    /// it. The machine moves to Playing, with the bundle stored
    /// atomically, exactly when all three outside steps succeed; each
    /// failing step yields its own error, in step order, and the machine
    /// stays Ready with no player data. No samples are produced either
    /// way.
    pub fn initialize(&mut self, media: Vec<u8>, ext_hint: &str) -> (r: Result<(), InitError>)
        requires
            old(self).audio_state is Ready,
        ensures
            r is Ok ==> final(self).audio_state is Playing,
            r is Err ==> final(self).audio_state is Ready,
            final(self).sample_buf == old(self).sample_buf,
            final(self).sample_count == old(self).sample_count,
            final(self).capacity == old(self).capacity,
            final(self).rate == old(self).rate,
            final(self).channels == old(self).channels,
            final(self).audio_path == old(self).audio_path,
            final(self).fps_as_ms == old(self).fps_as_ms,
            r != Err::<(), InitError>(InitError::UnreadableSource),
            (r matches Err(InitError::UnsupportedFormat(_))) <==> !format_recognized(
                media@,
                ext_hint@,
            ),
            (r == Err::<(), InitError>(InitError::NoSupportedTrack)) <==> (format_recognized(
                media@,
                ext_hint@,
            ) && !has_decodable(source_tracks(media@, ext_hint@))),
            r matches Err(InitError::UnsupportedCodec(_)) ==> format_recognized(media@, ext_hint@)
                && has_decodable(source_tracks(media@, ext_hint@)),
            forall|i: int|
                (#[trigger] is_first_decodable(source_tracks(media@, ext_hint@), i)
                    && format_recognized(media@, ext_hint@)) ==> ((r is Ok <==> source_codec_ok(
                    media@,
                    ext_hint@,
                    i,
                )) && (r is Ok ==> final(self).selected_track() == Some(
                    source_tracks(media@, ext_hint@)[i].id,
                ))),
            r is Ok ==> format_recognized(media@, ext_hint@) && has_decodable(
                source_tracks(media@, ext_hint@),
            ),
    {
        let ghost m = media@;
        let ghost h = ext_hint@;
        let stream = match probe_source(media, ext_hint) {
            Ok(s) => s,
            Err(e) => { return Err(e); },
        };
        let tracks = track_entries(&stream);
        proof {
            assert(tracks@ == source_tracks(m, h));
        }
        let sel = match select_track(&tracks) {
            Some(s) => s,
            None => {
                proof {
                    assert forall|i: int| !is_first_decodable(source_tracks(m, h), i) by {
                        if is_first_decodable(source_tracks(m, h), i) {
                            assert(0 <= i < tracks@.len() && tracks@[i].decodable);
                            assert(has_decodable(tracks@));
                        }
                    }
                }
                return Err(InitError::NoSupportedTrack);
            },
        };
        proof {
            assert(has_decodable(tracks@)) by {
                assert((sel.0 as int) < tracks@.len() && tracks@[sel.0 as int].decodable);
            }
            assert forall|i: int| #[trigger]
                is_first_decodable(source_tracks(m, h), i) implies i == sel.0 as int by {
                lemma_first_decodable_unique(source_tracks(m, h), i, sel.0 as int);
            }
        }
        let decoder = match make_decoder(&stream, sel.0) {
            Ok(d) => d,
            Err(e) => { return Err(e); },
        };
        self.audio_state = AudioState::Playing(PlayerData { stream, decoder, track_id: sel.1 });
        Ok(())
    }

    /// One host tick, the only driver of the machine. A Ready tick runs
    /// initialization on the bytes the host read (absent bytes mean the
    /// source was unreadable) and produces no samples. A Playing tick
    /// pulls and decodes one packet, overwriting the sample buffer and
    /// growing the running total by what was produced. Every error is
    /// fatal: the host reports it and terminates; the buffer, its fixed
    /// spec and the total are exactly as they were.
    pub fn tick(&mut self, media: Option<Vec<u8>>, ext_hint: &str) -> (r: Result<
        usize,
        FatalError,
    >)
        requires
            old(self).wf(),
        ensures
            final(self).wf(),
            final(self).audio_path == old(self).audio_path,
            final(self).fps_as_ms == old(self).fps_as_ms,
            final(self).sample_count >= old(self).sample_count,
            r matches Ok(n) ==> final(self).sample_count == sat_add_u64(
                old(self).sample_count,
                n as u64,
            ),
            r is Err ==> final(self).sample_count == old(self).sample_count,
            old(self).allocated() ==> {
                &&& final(self).allocated()
                &&& final(self).capacity == old(self).capacity
                &&& final(self).rate == old(self).rate
                &&& final(self).channels == old(self).channels
            },
            old(self).audio_state is Ready ==> {
                &&& final(self).sample_buf == old(self).sample_buf
                &&& (r matches Ok(n) ==> n == 0 && final(self).audio_state is Playing)
                &&& (r is Err ==> final(self).audio_state is Ready && r matches Err(
                    FatalError::Init(_),
                ))
                &&& (media is None <==> r == Err::<usize, FatalError>(
                    FatalError::Init(InitError::UnreadableSource),
                ))
                &&& (media matches Some(bytes) ==> {
                    &&& ((r matches Err(FatalError::Init(InitError::UnsupportedFormat(_))))
                        <==> !format_recognized(bytes@, ext_hint@))
                    &&& ((r == Err::<usize, FatalError>(
                        FatalError::Init(InitError::NoSupportedTrack),
                    )) <==> (format_recognized(bytes@, ext_hint@) && !has_decodable(
                        source_tracks(bytes@, ext_hint@),
                    )))
                    &&& forall|i: int|
                        (#[trigger] is_first_decodable(source_tracks(bytes@, ext_hint@), i)
                            && format_recognized(bytes@, ext_hint@)) ==> ((r is Ok
                            <==> source_codec_ok(bytes@, ext_hint@, i)) && (r is Ok
                            ==> final(self).selected_track() == Some(source_tracks(bytes@, ext_hint@)[i].id)))
                    &&& (r is Ok ==> format_recognized(bytes@, ext_hint@) && has_decodable(
                        source_tracks(bytes@, ext_hint@),
                    ))
                })
            },
            old(self).audio_state matches AudioState::Playing(pd0) ==> {
                &&& final(self).selected_track() == old(self).selected_track()
                &&& (r matches Err(e) ==> e matches FatalError::Stream(_))
                &&& (!pull_ok(pd0.stream) ==> (r matches Err(FatalError::Stream(e)) && (e
                    matches StreamError::IoFailure(_) || e matches StreamError::DecodeFailure(_))))
                &&& (pull_ok(pd0.stream) && pull_track(pd0.stream) != pd0.track_id ==> r == Err::<
                    usize,
                    FatalError,
                >(FatalError::Stream((StreamError::TrackMismatch {
                    got: pull_track(pd0.stream),
                    expected: pd0.track_id,
                }))))
                &&& (pull_ok(pd0.stream) && pull_track(pd0.stream) == pd0.track_id ==> (r is Ok
                    || r matches Err(FatalError::Stream(StreamError::DecodeFailure(_)))))
                &&& (!old(self).allocated() && r is Ok ==> (final(self).audio_state matches
                    AudioState::Playing(pd1) && final(self).rate == last_frame_rate(pd1.decoder)
                    && final(self).channels as nat == last_frame_channels(pd1.decoder)))
                &&& (r matches Ok(n) ==> {
                    &&& final(self).allocated()
                    &&& final(self).samples_view() == final(self).decoder_frame()
                    &&& final(self).samples_view().len() == n
                    &&& n <= final(self).capacity
                })
                &&& (r is Err ==> {
                    &&& final(self).samples_view() == old(self).samples_view()
                    &&& final(self).allocated() == old(self).allocated()
                    &&& final(self).capacity == old(self).capacity
                    &&& final(self).rate == old(self).rate
                    &&& final(self).channels == old(self).channels
                })
            },
    {
        let ready = match &self.audio_state {
            AudioState::Ready => true,
            AudioState::Playing(_) => false,
        };
        if ready {
            match media {
                None => Err(FatalError::Init(InitError::UnreadableSource)),
                Some(bytes) => match self.initialize(bytes, ext_hint) {
                    Ok(u) => Ok(0),
                    Err(e) => Err(FatalError::Init(e)),
                },
            }
        } else {
            match &mut self.audio_state {
                AudioState::Ready => Err(FatalError::Init(InitError::UnreadableSource)),
                AudioState::Playing(pd) => {
                    match playing_step(
                        pd,
                        &mut self.sample_buf,
                        &mut self.rate,
                        &mut self.channels,
                        &mut self.capacity,
                    ) {
                        Ok(n) => {
                            self.sample_count = self.sample_count.saturating_add(n as u64);
                            Ok(n)
                        },
                        Err(e) => Err(FatalError::Stream(e)),
                    }
                },
            }
        }
    }
}

/// The sample at a position of the current buffer, absent when the
/// position is out of range (as when the buffer is empty).
pub open spec fn sample_at(s: Seq<i32>, i: int) -> Option<i32> {
    if 0 <= i < s.len() {
        Some(s[i])
    } else {
        None
    }
}

/// The colour mapping applied at a buffer position: absent samples are
/// black, present ones are first brought to thousandths of full scale.
pub open spec fn color_at(s: Seq<i32>, i: int) -> Rgb {
    match sample_at(s, i) {
        None => rgb_black(),
        Some(raw) => color_of_milli(milli_of_raw_spec(raw as int)),
    }
}

/// The circle mapping applied at a buffer position.
pub open spec fn circle_at(s: Seq<i32>, i: int) -> (u32, Rgb) {
    match sample_at(s, i) {
        None => (0u32, rgb_black()),
        Some(raw) => (
            radius_milli_spec(milli_of_raw_spec(raw as int)) as u32,
            circle_color_of_milli(milli_of_raw_spec(raw as int)),
        ),
    }
}

/// The sample at a position, in thousandths of full scale.
fn milli_at(samples: &Vec<i32>, i: usize) -> (r: Option<i32>)
    ensures
        r == (match sample_at(samples@, i as int) {
            None => Option::<i32>::None,
            Some(raw) => Some(milli_of_raw_spec(raw as int) as i32),
        }),
{
    if i < samples.len() {
        Some(raw_to_milli(samples[i]))
    } else {
        None
    }
}

/// What the host renders each tick: the heading colour from the newest
/// sample, and four circles at the fixed buffer positions 0, len/4, len/2
/// and len/2 + len/4 (positions may coincide when the buffer is short).
pub struct RenderView {
    pub label_color: Rgb,
    pub circle_first: (u32, Rgb),
    pub circle_quarter: (u32, Rgb),
    pub circle_half: (u32, Rgb),
    pub circle_three_quarter: (u32, Rgb),
    pub sample_len: usize,
    pub sample_count: u64,
}

impl AppState {
    /// True exactly when initialization has succeeded.
    pub fn is_playing(&self) -> (b: bool)
        ensures
            b == (self.audio_state is Playing),
    {
        match &self.audio_state {
            AudioState::Ready => false,
            AudioState::Playing(_) => true,
        }
    }

    /// The monotonic running total of samples produced across all ticks.
    pub fn total_samples(&self) -> (n: u64)
        ensures
            n == self.sample_count,
    {
        self.sample_count
    }

    /// The sample rate the buffer was sized for; meaningful once allocated.
    pub fn sample_rate(&self) -> (r: u32)
        ensures
            r == self.rate,
    {
        self.rate
    }

    /// The channel count the buffer was sized for; meaningful once
    /// allocated.
    pub fn channel_count(&self) -> (c: u32)
        ensures
            c == self.channels,
    {
        self.channels
    }

    /// The fixed capacity of the buffer, in samples.
    pub fn buffer_capacity(&self) -> (c: usize)
        ensures
            c == self.capacity,
    {
        self.capacity
    }

    /// The samples of the most recently decoded packet, interleaved
    /// channel-major per frame, as full-scale 32-bit values.
    pub fn current_samples(&self) -> (v: Vec<i32>)
        ensures
            v@ == self.samples_view(),
    {
        match &self.sample_buf {
            Some(b) => sample_buffer_contents(b),
            None => Vec::new(),
        }
    }

    /// An immutable snapshot of everything the host renders this tick.
    pub fn render_view(&self) -> (v: RenderView)
        ensures
            v.sample_len == self.samples_view().len(),
            v.sample_count == self.sample_count,
            v.label_color == color_at(self.samples_view(), self.samples_view().len() - 1),
            v.circle_first == circle_at(self.samples_view(), 0),
            v.circle_quarter == circle_at(self.samples_view(), self.samples_view().len() as int / 4),
            v.circle_half == circle_at(self.samples_view(), self.samples_view().len() as int / 2),
            v.circle_three_quarter == circle_at(
                self.samples_view(),
                self.samples_view().len() as int / 2 + self.samples_view().len() as int / 4,
            ),
    {
        let samples = self.current_samples();
        let len = samples.len();
        let last: Option<i32> = if len == 0 {
            None
        } else {
            milli_at(&samples, len - 1)
        };
        let label_color = number_to_color(last);
        let circle_first = number_to_circle(milli_at(&samples, 0));
        let circle_quarter = number_to_circle(milli_at(&samples, len / 4));
        let circle_half = number_to_circle(milli_at(&samples, len / 2));
        let circle_three_quarter = number_to_circle(milli_at(&samples, len / 2 + len / 4));
        RenderView {
            label_color,
            circle_first,
            circle_quarter,
            circle_half,
            circle_three_quarter,
            sample_len: len,
            sample_count: self.sample_count,
        }
    }
}

} // verus!
