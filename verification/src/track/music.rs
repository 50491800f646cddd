//! Turns a downloaded preview into the cached raw-sample file, and cuts clips out of
//! a cached file. Everything here works on bytes in memory: reading and writing the
//! cache is left to the caller.
use vstd::prelude::*;

verus! {

/// Whether samples are integers or floating point numbers.
#[derive(Debug, PartialEq, Eq, Clone, Copy, Structural)]
pub enum SampleFormat {
    /// Samples are floating point values.
    Float,
    /// Samples are integer values.
    Int,
}

/// The properties of the audio data of a raw-sample file.
#[derive(Debug, PartialEq, Eq, Clone, Copy, Structural)]
pub struct WavFormat {
    /// The number of channels.
    pub channels: u16,
    /// The number of samples per second and channel.
    pub sample_rate: u32,
    /// The number of bits per sample.
    pub bits_per_sample: u16,
    /// Whether the samples are float or integer values.
    pub sample_format: SampleFormat,
}

/// One decoded frame of a compressed preview.
#[derive(Debug)]
pub struct Mp3Frame {
    /// The decoded audio held by this frame. Channels are interleaved.
    pub data: Vec<i16>,
    /// This frame's sample rate in hertz.
    pub sample_rate: i32,
    /// The number of channels in this frame.
    pub channels: usize,
}

/// A decoded frame as a value.
pub struct FrameView {
    /// The decoded audio held by the frame. Channels are interleaved.
    pub data: Seq<i16>,
    /// The frame's sample rate in hertz.
    pub sample_rate: i32,
    /// The number of channels in the frame.
    pub channels: usize,
}

impl View for Mp3Frame {
    type V = FrameView;

    open spec fn view(&self) -> FrameView {
        FrameView { data: self.data@, sample_rate: self.sample_rate, channels: self.channels }
    }
}

/// The frames as values.
pub open spec fn frame_views(frames: Seq<Mp3Frame>) -> Seq<FrameView> {
    Seq::new(frames.len(), |i: int| frames[i]@)
}

/// What a decoder gives when asked for its next frame.
#[derive(Debug)]
pub enum NextFrame {
    /// One more frame.
    Frame(Mp3Frame),
    /// The data has ended.
    Eof,
    /// The data could not be read.
    Failed,
}

/// Why a preview could not be transcoded.
#[derive(Debug, PartialEq, Eq, Clone, Copy, Structural)]
pub enum TranscodeError {
    /// The first frame could not be read.
    NoFirstFrame,
    /// The first frame's channel count does not fit the file format.
    InvalidChannelCount,
    /// The first frame's sample rate is negative.
    NegativeSampleRate,
    /// A later frame could not be read.
    BrokenFrame,
    /// The samples could not be written as a raw-sample file.
    Unwritable,
}

/// Why a clip could not be cut.
#[derive(Debug, PartialEq, Eq, Clone, Copy, Structural)]
pub enum ClipError {
    /// The cached file could not be read as a raw-sample file of 16-bit samples.
    Unreadable,
    /// The cached file is not stereo.
    NotStereo,
    /// The cached file ends more than half a second before the clip does.
    TooShort {
        /// How many samples the file has for the clip.
        read: u64,
        /// How many samples the clip takes.
        wanted: u64,
    },
    /// The clip could not be written as a raw-sample file.
    Unwritable,
}

/// The number of bits per sample of a cached file.
pub const CACHED_BITS_PER_SAMPLE: u16 = 16;

/// What `hound` reads out of the bytes of a raw-sample file as 16-bit samples: the
/// format and all samples, channels interleaved; nothing where it fails.
pub uninterp spec fn wav_contents(wav: Seq<u8>) -> Option<(WavFormat, Seq<i16>)>;

/// The bytes that `hound` writes for samples in a format; nothing where it fails.
pub uninterp spec fn wav_encoding(format: WavFormat, samples: Seq<i16>) -> Option<Seq<u8>>;

/// The compressed audio that a decoder was made over.
pub uninterp spec fn made_over(decoder: minimp3_fixed::Decoder<std::io::Cursor<Vec<u8>>>) -> Seq<
    u8,
>;

/// What a decoder has yet to give: the frames in turn, and whether the data ends
/// after them, rather than fails to be read.
pub uninterp spec fn upcoming(decoder: minimp3_fixed::Decoder<std::io::Cursor<Vec<u8>>>) -> (
    Seq<FrameView>,
    bool,
);

/// How many bytes one sample takes in a file of the format.
pub open spec fn bytes_per_sample(format: WavFormat) -> int {
    (format.bits_per_sample + 7) / 8
}

/// How many bytes the header of a file of the format takes after its first eight.
pub open spec fn header_size(format: WavFormat) -> int {
    if format.channels > 2 || format.bits_per_sample > 16 {
        60
    } else {
        36
    }
}

/// Whether `count` samples can be written as a raw-sample file of the format: the
/// format has a sample rate and channels, a sample takes one to four whole bytes,
/// floating point samples take four, and the bytes of a second and of the whole file
/// can each be told in 32 bits.
pub open spec fn encodable(format: WavFormat, count: nat) -> bool {
    &&& format.sample_rate > 0
    &&& format.channels > 0
    &&& (format.bits_per_sample == 8 || format.bits_per_sample == 16 || format.bits_per_sample
        == 24 || format.bits_per_sample == 32)
    &&& format.sample_format is Float ==> format.bits_per_sample == 32
    &&& format.sample_rate * bytes_per_sample(format) * format.channels <= u32::MAX
    &&& count * bytes_per_sample(format) + header_size(format) <= u32::MAX
}

/// Whether a file written for samples in the format is read back as those samples in
/// that format: so for 16-bit integer samples in one or two channels.
pub open spec fn read_back(format: WavFormat) -> bool {
    &&& format.bits_per_sample == 16
    &&& format.sample_format is Int
    &&& format.channels <= 2
}

/// Whether `count` samples make whole frames: a sample for each channel in each.
pub open spec fn whole_frames(format: WavFormat, count: nat) -> bool {
    format.channels > 0 && count % (format.channels as nat) == 0
}

/// `std::io::Cursor`, a reader over bytes in memory.
#[verifier::external_type_specification]
#[verifier::external_body]
#[verifier::reject_recursive_types(T)]
pub struct ExCursor<T>(std::io::Cursor<T>);

/// `minimp3_fixed::Decoder`, a decoder of compressed audio.
#[verifier::external_type_specification]
#[verifier::external_body]
#[verifier::reject_recursive_types(R)]
pub struct ExDecoder<R>(minimp3_fixed::Decoder<R>);

/// Reads a raw-sample file with `hound`: `WavReader::new` on the bytes, `spec` for
/// the format, and the `samples` iterator for all samples as `i16`. Trusted: the
/// outcome depends on the bytes alone.
#[verifier::external_body]
fn decode_wav(wav: &[u8]) -> (contents: Option<(WavFormat, Vec<i16>)>)
    ensures
        match contents {
            Some((format, samples)) => wav_contents(wav@) == Some((format, samples@)),
            None => wav_contents(wav@) is None,
        },
{
    let mut reader = hound::WavReader::new(std::io::Cursor::new(wav)).ok()?;
    let spec = reader.spec();
    let samples = reader.samples::<i16>().collect::<Result<Vec<i16>, hound::Error>>().ok()?;
    let sample_format = match spec.sample_format {
        hound::SampleFormat::Float => SampleFormat::Float,
        hound::SampleFormat::Int => SampleFormat::Int,
    };
    let hound::WavSpec { channels, sample_rate, bits_per_sample, .. } = spec;
    Some((WavFormat { channels, sample_rate, bits_per_sample, sample_format }, samples))
}

/// Writes a raw-sample file with `hound`: `WavWriter::new` on a buffer in memory,
/// `write_sample` for each sample in turn, and `finalize`. The writer panics on a
/// format without a sample rate or channels, on floating point samples of other than
/// 32 bits, and where its 32-bit counts overflow: those are left out. Trusted: the
/// outcome depends on the format and the samples alone. A file of 16-bit integer
/// samples in one or two channels is written if and only if the last frame has a sample
/// for each channel, and it is read back as it was written.
#[verifier::external_body]
fn encode_wav(format: WavFormat, samples: &[i16]) -> (wav: Option<Vec<u8>>)
    requires
        encodable(format, samples@.len()),
    ensures
        match wav {
            Some(bytes) => wav_encoding(format, samples@) == Some(bytes@) && (read_back(format)
                ==> wav_contents(bytes@) == Some((format, samples@))),
            None => wav_encoding(format, samples@) is None,
        },
        read_back(format) ==> (wav is Some <==> whole_frames(format, samples@.len())),
{
    let sample_format = match format.sample_format {
        SampleFormat::Float => hound::SampleFormat::Float,
        SampleFormat::Int => hound::SampleFormat::Int,
    };
    let WavFormat { channels, sample_rate, bits_per_sample, .. } = format;
    let spec = hound::WavSpec { channels, sample_rate, bits_per_sample, sample_format };
    let mut bytes = Vec::new();
    let mut writer = hound::WavWriter::new(std::io::Cursor::new(&mut bytes), spec).ok()?;
    samples.iter().try_for_each(|sample| writer.write_sample(*sample)).ok()?;
    writer.finalize().ok()?;
    Some(bytes)
}

/// Makes a decoder over compressed audio in memory with `minimp3_fixed::Decoder::new`.
/// Trusted: the decoder reads the audio it was given. Nothing is claimed of what it
/// will decode: how samples are rounded is up to the machine.
#[verifier::external_body]
fn new_decoder(mp3: Vec<u8>) -> (decoder: minimp3_fixed::Decoder<std::io::Cursor<Vec<u8>>>)
    ensures
        made_over(decoder) == mp3@,
{
    minimp3_fixed::Decoder::new(std::io::Cursor::new(mp3))
}

/// Asks a decoder for its next frame with `minimp3_fixed::Decoder::next_frame`.
/// Trusted: the decoder gives its frames in turn, and when none is left it tells
/// whether the data has ended or could not be read.
#[verifier::external_body]
fn next_frame(decoder: &mut minimp3_fixed::Decoder<std::io::Cursor<Vec<u8>>>) -> (next: NextFrame)
    ensures
        match next {
            NextFrame::Frame(frame) => upcoming(*old(decoder)).0.len() > 0 && frame@ == upcoming(
                *old(decoder),
            ).0[0] && upcoming(*final(decoder)) == (
                upcoming(*old(decoder)).0.drop_first(),
                upcoming(*old(decoder)).1,
            ),
            NextFrame::Eof => upcoming(*old(decoder)).0.len() == 0 && upcoming(*old(decoder)).1,
            NextFrame::Failed => upcoming(*old(decoder)).0.len() == 0 && !upcoming(
                *old(decoder),
            ).1,
        },
{
    match decoder.next_frame() {
        Ok(minimp3_fixed::Frame { data, sample_rate, channels, .. }) => NextFrame::Frame(
            Mp3Frame { data, sample_rate, channels },
        ),
        Err(minimp3_fixed::Error::Eof) => NextFrame::Eof,
        Err(_) => NextFrame::Failed,
    }
}

/// Whether `count` samples can be written as a raw-sample file of the format.
pub fn can_encode(format: &WavFormat, count: usize) -> (can: bool)
    ensures
        can == encodable(*format, count as nat),
{
    let bits: u16 = format.bits_per_sample;
    if format.sample_rate == 0 || format.channels == 0 {
        return false;
    }
    if !(bits == 8 || bits == 16 || bits == 24 || bits == 32) {
        return false;
    }
    let float = match format.sample_format {
        SampleFormat::Float => true,
        SampleFormat::Int => false,
    };
    if float && bits != 32 {
        return false;
    }
    let bytes: u64 = ((bits + 7) / 8) as u64;
    let header: u128 = if format.channels > 2 || bits > 16 {
        60
    } else {
        36
    };
    assert((format.sample_rate as u64) * bytes <= 0xffff_ffff * 4) by (nonlinear_arith)
        requires
            format.sample_rate <= 0xffff_ffff,
            bytes <= 4,
    ;
    let per_frame: u64 = (format.sample_rate as u64) * bytes;
    assert(per_frame * (format.channels as u64) <= 0xffff_ffff * 4 * 0xffff) by (nonlinear_arith)
        requires
            per_frame <= 0xffff_ffff * 4,
            format.channels <= 0xffff,
    ;
    if per_frame * (format.channels as u64) > 0xffff_ffff {
        return false;
    }
    assert((count as u128) * (bytes as u128) <= 0xffff_ffff_ffff_ffff * 4) by (nonlinear_arith)
        requires
            count <= 0xffff_ffff_ffff_ffff,
            bytes <= 4,
    ;
    (count as u128) * (bytes as u128) + header <= 0xffff_ffff
}

/// The format of the file that a preview is cached as, given its first frame.
pub open spec fn cached_format(channels: usize, sample_rate: i32) -> Result<
    WavFormat,
    TranscodeError,
> {
    if channels > u16::MAX {
        Err(TranscodeError::InvalidChannelCount)
    } else if sample_rate < 0 {
        Err(TranscodeError::NegativeSampleRate)
    } else {
        Ok(
            WavFormat {
                channels: channels as u16,
                sample_rate: sample_rate as u32,
                bits_per_sample: CACHED_BITS_PER_SAMPLE,
                sample_format: SampleFormat::Int,
            },
        )
    }
}

/// The format of the file that a preview is cached as, given its first frame: the
/// frame's channels and sample rate, with 16-bit integer samples.
pub fn format_of(first: &Mp3Frame) -> (format: Result<WavFormat, TranscodeError>)
    ensures
        format == cached_format(first.channels, first.sample_rate),
{
    if first.channels > u16::MAX as usize {
        return Err(TranscodeError::InvalidChannelCount);
    }
    if first.sample_rate < 0 {
        return Err(TranscodeError::NegativeSampleRate);
    }
    Ok(
        WavFormat {
            channels: first.channels as u16,
            sample_rate: first.sample_rate as u32,
            bits_per_sample: CACHED_BITS_PER_SAMPLE,
            sample_format: SampleFormat::Int,
        },
    )
}

/// The samples of the first `count` frames, one frame after the other.
pub open spec fn samples_of(frames: Seq<FrameView>, count: int) -> Seq<i16>
    decreases count,
{
    if count <= 0 {
        Seq::empty()
    } else {
        samples_of(frames, count - 1) + frames[count - 1].data
    }
}

/// The format and the samples that the frames of a preview are cached as: the format
/// comes from the first frame, and the samples are those of all frames in turn.
pub open spec fn wav_of_frames(frames: Seq<FrameView>) -> Result<
    (WavFormat, Seq<i16>),
    TranscodeError,
> {
    if frames.len() == 0 {
        Err(TranscodeError::NoFirstFrame)
    } else {
        match cached_format(frames[0].channels, frames[0].sample_rate) {
            Err(reason) => Err(reason),
            Ok(format) => Ok((format, samples_of(frames, frames.len() as int))),
        }
    }
}

/// What transcoding gives for the frames of a preview, where `ended` tells
/// whether the data ended after them, rather than failed to be read. Data that cannot
/// be read to its end is refused; else the frames are written as a raw-sample file,
/// where their format and number allow it.
pub open spec fn transcoded(frames: Seq<FrameView>, ended: bool) -> Result<
    Seq<u8>,
    TranscodeError,
> {
    if !ended {
        Err(
            if frames.len() == 0 {
                TranscodeError::NoFirstFrame
            } else {
                TranscodeError::BrokenFrame
            },
        )
    } else {
        match wav_of_frames(frames) {
            Err(reason) => Err(reason),
            Ok((format, samples)) => if !encodable(format, samples.len()) {
                Err(TranscodeError::Unwritable)
            } else {
                match wav_encoding(format, samples) {
                    Some(bytes) => Ok(bytes),
                    None => Err(TranscodeError::Unwritable),
                }
            },
        }
    }
}

/// Put the samples of `frame` behind `samples`.
fn append_samples(samples: &mut Vec<i16>, frame: &Mp3Frame)
    ensures
        final(samples)@ == old(samples)@ + frame.data@,
{
    let ghost before = samples@;
    let mut i: usize = 0;
    while i < frame.data.len()
        invariant
            i <= frame.data.len(),
            samples@ == before + frame.data@.subrange(0, i as int),
        decreases frame.data.len() - i,
    {
        samples.push(frame.data[i]);
        i = i + 1;
    }
    assert(frame.data@.subrange(0, frame.data@.len() as int) =~= frame.data@);
}

/// The format and the samples that the frames of a preview are cached as: the format
/// comes from the first frame, and the samples are those of all frames in turn.
pub fn wav_from_frames(frames: &Vec<Mp3Frame>) -> (out: Result<
    (WavFormat, Vec<i16>),
    TranscodeError,
>)
    ensures
        match wav_of_frames(frame_views(frames@)) {
            Err(reason) => out == Err::<(WavFormat, Vec<i16>), TranscodeError>(reason),
            Ok((format, expected)) => out matches Ok((made, samples)) && made == format
                && samples@ == expected,
        },
{
    if frames.len() == 0 {
        return Err(TranscodeError::NoFirstFrame);
    }
    let format = match format_of(&frames[0]) {
        Ok(format) => format,
        Err(reason) => {
            return Err(reason);
        },
    };
    let mut samples: Vec<i16> = Vec::new();
    let mut i: usize = 0;
    while i < frames.len()
        invariant
            i <= frames.len(),
            samples@ == samples_of(frame_views(frames@), i as int),
        decreases frames.len() - i,
    {
        append_samples(&mut samples, &frames[i]);
        i = i + 1;
    }
    Ok((format, samples))
}

/// The bytes of a result, where it has any.
pub open spec fn bytes_of<E>(out: Result<Vec<u8>, E>) -> Result<Seq<u8>, E> {
    match out {
        Ok(bytes) => Ok(bytes@),
        Err(reason) => Err(reason),
    }
}

/// Write the decoded frames of a preview as the bytes of the raw-sample file that it
/// is cached as, where `ended` tells whether the data ended after the frames, rather
/// than failed to be read. Frames of one or two channels are written whenever their
/// format and number allow it and the last frame has a sample for each channel, and
/// the file is read back as the samples of the frames, in the format of the first.
pub fn encode_frames(frames: &Vec<Mp3Frame>, ended: bool) -> (wav: Result<Vec<u8>, TranscodeError>)
    ensures
        bytes_of(wav) == transcoded(frame_views(frames@), ended),
        wav matches Ok(bytes) ==> wav_of_frames(frame_views(frames@)) matches Ok(cached)
            && (cached.0.channels <= 2 ==> wav_contents(bytes@) == Some(cached)),
        match wav_of_frames(frame_views(frames@)) {
            Ok((format, samples)) => ended && format.channels <= 2 ==> (wav is Ok <==> encodable(
                format,
                samples.len(),
            ) && whole_frames(format, samples.len())),
            Err(_) => true,
        },
{
    if !ended {
        return Err(
            if frames.len() == 0 {
                TranscodeError::NoFirstFrame
            } else {
                TranscodeError::BrokenFrame
            },
        );
    }
    let (format, samples) = match wav_from_frames(frames) {
        Ok(cached) => cached,
        Err(reason) => {
            return Err(reason);
        },
    };
    if !can_encode(&format, samples.len()) {
        return Err(TranscodeError::Unwritable);
    }
    match encode_wav(format, samples.as_slice()) {
        Some(bytes) => Ok(bytes),
        None => Err(TranscodeError::Unwritable),
    }
}

/// Transcode a downloaded preview into the bytes of the raw-sample file that it is
/// cached as: a decoder is made over the preview, its frames are decoded in turn until
/// it gives no more, and what it gave is written as [`encode_frames`] says. Which
/// frames a decoder gives for a preview is up to the decoder.
pub fn transcode_track(mp3: Vec<u8>) -> (wav: Result<Vec<u8>, TranscodeError>)
    ensures
        exists|decoder: minimp3_fixed::Decoder<std::io::Cursor<Vec<u8>>>|
            made_over(decoder) == mp3@ && bytes_of(wav) == transcoded(
                (#[trigger] upcoming(decoder)).0,
                upcoming(decoder).1,
            ),
{
    let mut decoder = new_decoder(mp3);
    let ghost made = decoder;
    let ghost stream = upcoming(decoder);
    let mut frames: Vec<Mp3Frame> = Vec::new();
    proof {
        assert(frame_views(frames@) + upcoming(decoder).0 =~= stream.0);
    }
    loop
        invariant
            made_over(made) == mp3@,
            stream == upcoming(made),
            frame_views(frames@) + upcoming(decoder).0 == stream.0,
            upcoming(decoder).1 == stream.1,
        decreases upcoming(decoder).0.len(),
    {
        let ghost before = upcoming(decoder);
        let ghost so_far = frame_views(frames@);
        match next_frame(&mut decoder) {
            NextFrame::Frame(frame) => {
                frames.push(frame);
                proof {
                    assert(frame_views(frames@) =~= so_far.push(before.0[0]));
                    assert(frame_views(frames@) + upcoming(decoder).0 =~= so_far + before.0);
                }
            },
            NextFrame::Eof => {
                proof {
                    assert(frame_views(frames@) =~= stream.0);
                }
                return encode_frames(&frames, true);
            },
            NextFrame::Failed => {
                proof {
                    assert(frame_views(frames@) =~= stream.0);
                }
                return encode_frames(&frames, false);
            },
        }
    }
}

/// The position of the first sample of a clip that starts `start` milliseconds into
/// the audio: the frame that plays at that time, times the channels.
pub open spec fn first_sample(format: WavFormat, start: u32) -> int {
    (format.sample_rate * start / 1000) * format.channels
}

/// How many samples a clip of `length` milliseconds takes.
pub open spec fn samples_wanted(format: WavFormat, length: u32) -> int {
    format.channels * format.sample_rate * length / 1000
}

/// How many samples a file of `total` samples has for a clip of `wanted` samples that
/// starts at position `first`.
pub open spec fn samples_there(total: int, first: int, wanted: int) -> int {
    if first >= total {
        0
    } else if wanted <= total - first {
        wanted
    } else {
        total - first
    }
}

/// The `count` samples from position `first` on.
pub open spec fn window(samples: Seq<i16>, first: int, count: int) -> Seq<i16> {
    if count <= 0 {
        Seq::empty()
    } else {
        samples.subrange(first, first + count)
    }
}

/// The samples of the clip that starts `start` milliseconds into stereo audio and lasts
/// `length` milliseconds: the samples that the audio has for it, and silence for the
/// rest, as long as no more samples are missing than one channel has in a second,
/// which is half a second of stereo.
pub open spec fn clipped(format: WavFormat, samples: Seq<i16>, start: u32, length: u32) -> Result<
    Seq<i16>,
    ClipError,
> {
    let first = first_sample(format, start);
    let wanted = samples_wanted(format, length);
    let read = samples_there(samples.len() as int, first, wanted);
    if format.channels != 2 {
        Err(ClipError::NotStereo)
    } else if wanted - read > format.sample_rate {
        Err(ClipError::TooShort { read: read as u64, wanted: wanted as u64 })
    } else {
        Ok(window(samples, first, read) + Seq::new((wanted - read) as nat, |i: int| 0i16))
    }
}

/// What cutting a clip out of the bytes of a cached file gives.
pub open spec fn clip_of(wav: Seq<u8>, start: u32, end: u32) -> Result<Seq<u8>, ClipError> {
    match wav_contents(wav) {
        None => Err(ClipError::Unreadable),
        Some((format, samples)) => match clipped(format, samples, start, (end - start) as u32) {
            Err(reason) => Err(reason),
            Ok(clip) => if !encodable(format, clip.len()) {
                Err(ClipError::Unwritable)
            } else {
                match wav_encoding(format, clip) {
                    Some(bytes) => Ok(bytes),
                    None => Err(ClipError::Unwritable),
                }
            },
        },
    }
}

/// Cut the samples of a clip out of the samples of stereo audio. The clip starts
/// `start` milliseconds into the audio and lasts `length` milliseconds. Where the
/// audio ends before the clip does, the clip is filled up with silence, unless more
/// than half a second is missing.
pub fn clip_samples(format: &WavFormat, samples: &[i16], start: u32, length: u32) -> (clip: Result<
    Vec<i16>,
    ClipError,
>)
    ensures
        match clipped(*format, samples@, start, length) {
            Ok(expected) => clip matches Ok(cut) && cut@ == expected,
            Err(reason) => clip == Err::<Vec<i16>, ClipError>(reason),
        },
        clip matches Ok(cut) ==> cut@.len() == samples_wanted(*format, length),
{
    if format.channels != 2 {
        return Err(ClipError::NotStereo);
    }
    let rate: u64 = format.sample_rate as u64;
    assert(rate * (start as u64) <= 0xffff_ffff * 0xffff_ffff) by (nonlinear_arith)
        requires
            rate <= 0xffff_ffff,
            start <= 0xffff_ffff,
    ;
    assert(rate * (length as u64) <= 0xffff_ffff * 0xffff_ffff) by (nonlinear_arith)
        requires
            rate <= 0xffff_ffff,
            length <= 0xffff_ffff,
    ;
    let first: u64 = (rate * (start as u64) / 1000) * 2;
    assert(2 * (rate as u128) * (length as u128) == format.channels * format.sample_rate * length)
        by (nonlinear_arith)
        requires
            format.channels == 2,
            rate == format.sample_rate,
    ;
    assert(2 * (rate as u128) * (length as u128) <= 2 * (0xffff_ffff * 0xffff_ffff))
        by (nonlinear_arith)
        requires
            rate <= 0xffff_ffff,
            length <= 0xffff_ffff,
    ;
    assert(2 * (rate as u128) == 2 * rate);
    let wanted: u64 = (2 * (rate as u128) * (length as u128) / 1000) as u64;
    let total: u64 = samples.len() as u64;
    let read: u64 = if first >= total {
        0
    } else if wanted <= total - first {
        wanted
    } else {
        total - first
    };
    if wanted - read > rate {
        return Err(ClipError::TooShort { read, wanted });
    }
    let ghost expected = clipped(*format, samples@, start, length)->Ok_0;
    let mut cut: Vec<i16> = Vec::new();
    let mut i: u64 = 0;
    while i < read
        invariant
            i <= read,
            read > 0 ==> first + read <= total,
            total == samples@.len(),
            cut@ == window(samples@, first as int, i as int),
        decreases read - i,
    {
        cut.push(samples[(first + i) as usize]);
        i = i + 1;
        assert(cut@ =~= window(samples@, first as int, i as int));
    }
    let ghost copied = cut@;
    let mut j: u64 = read;
    while j < wanted
        invariant
            read <= j <= wanted,
            cut@ == copied + Seq::new((j - read) as nat, |i: int| 0i16),
        decreases wanted - j,
    {
        cut.push(0);
        j = j + 1;
    }
    assert(cut@ =~= expected);
    Ok(cut)
}

/// Get a clip from the bytes of a cached track. The clip starts `start` milliseconds
/// into the track and ends `end` milliseconds into it, and comes back as the bytes of
/// a raw-sample file in the format of the cached one. A clip of 16-bit integer samples
/// is written whenever [`clipped`] gives its samples, their number can be told in the
/// file and is even; it is read back as those samples.
pub fn clip_track(wav: &[u8], start: u32, end: u32) -> (clip: Result<Vec<u8>, ClipError>)
    requires
        start <= end,
    ensures
        bytes_of(clip) == clip_of(wav@, start, end),
        clip matches Ok(bytes) ==> wav_contents(wav@) matches Some((format, samples)) && clipped(
            format,
            samples,
            start,
            (end - start) as u32,
        ) matches Ok(cut) && (read_back(format) ==> wav_contents(bytes@) == Some((format, cut))),
        match wav_contents(wav@) {
            Some((format, samples)) => match clipped(format, samples, start, (end - start) as u32) {
                Ok(cut) => read_back(format) ==> (clip is Ok <==> encodable(format, cut.len())
                    && whole_frames(format, cut.len())),
                Err(_) => true,
            },
            None => true,
        },
{
    let (format, samples) = match decode_wav(wav) {
        Some(contents) => contents,
        None => {
            return Err(ClipError::Unreadable);
        },
    };
    let cut = match clip_samples(&format, samples.as_slice(), start, end - start) {
        Ok(cut) => cut,
        Err(reason) => {
            return Err(reason);
        },
    };
    if !can_encode(&format, cut.len()) {
        return Err(ClipError::Unwritable);
    }
    match encode_wav(format, cut.as_slice()) {
        Some(bytes) => Ok(bytes),
        None => Err(ClipError::Unwritable),
    }
}

} // verus!
