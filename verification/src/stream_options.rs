use vstd::prelude::*;

verus! {

/// Encoding of one sample as it travels between the caller and the device.
#[non_exhaustive]
#[derive(Debug, Clone, Copy, PartialEq, Eq, Structural)]
pub enum Format {
    /// 32-bit floating point.
    F32,
    /// 32-bit signed integer.
    I32,
    /// 24-bit signed integer, packed.
    I24,
    /// 16-bit signed integer.
    I16,
    /// 8-bit signed integer.
    I8,
    /// 8-bit unsigned integer.
    U8,
}

/// How the rate of a stream is chosen.
#[non_exhaustive]
#[derive(Debug, Clone, Copy, PartialEq, Eq, Structural)]
pub enum SampleRate {
    /// Exactly this many frames per second.
    Exact(i32),
    /// The rate the device offers that lies nearest to this one.
    NearestTo(i32),
    /// Whatever rate the device prefers.
    DeviceDefault,
}

impl Default for SampleRate {
    fn default() -> (rate: SampleRate)
        ensures
            rate == SampleRate::DeviceDefault,
    {
        SampleRate::DeviceDefault
    }
}

/// A function that the host runs on every buffer of frames of a stream.
///
/// Every `FnMut(&mut [Frame]) + Send` is one, so a boxed closure or function
/// can stand wherever a [`Callback`] is asked for.
pub trait StreamCallback<Frame>: Send {
    /// Whether the function may be run on a buffer that holds `frames`.
    spec fn runs_on(&self, frames: Seq<Frame>) -> bool;

    /// Whether a run on a buffer that holds `before` may end with the buffer
    /// holding `after`.
    spec fn may_leave(&self, before: Seq<Frame>, after: Seq<Frame>) -> bool;

    /// Runs the function on `buffer`, which it may read and overwrite. What
    /// the function accepts and what it may do stay the same from one run to
    /// the next.
    fn call(&mut self, buffer: &mut [Frame])
        requires
            old(self).runs_on(old(buffer)@),
        ensures
            old(self).may_leave(old(buffer)@, final(buffer)@),
            forall|frames: Seq<Frame>| final(self).runs_on(frames) == old(self).runs_on(frames),
            forall|before: Seq<Frame>, after: Seq<Frame>|
                final(self).may_leave(before, after) == old(self).may_leave(before, after),
    ;
}

impl<Frame, F: FnMut(&mut [Frame]) + Send> StreamCallback<Frame> for F {
    /// The function's own precondition, on every buffer with these frames.
    open spec fn runs_on(&self, frames: Seq<Frame>) -> bool {
        forall|buffer: &mut [Frame]| buffer@ == frames ==> call_requires(*self, (buffer,))
    }

    /// Behind a [`Callback`] nothing is said of what such a function does to
    /// a buffer; `call` on the function itself says it.
    open spec fn may_leave(&self, before: Seq<Frame>, after: Seq<Frame>) -> bool {
        true
    }

    /// Hands `buffer` to the function: the buffer ends as one run of the
    /// function, by its own postcondition, may leave it.
    fn call(&mut self, buffer: &mut [Frame])
        ensures
            exists|run: &mut [Frame]|
                run@ == old(buffer)@ && final(run)@ == final(buffer)@ && #[trigger] call_ensures(
                    *old(self),
                    (run,),
                    (),
                ),
    {
        self(buffer)
    }
}

/// The callback of a stream whose owner has chosen none.
struct Idle;

impl<Frame> StreamCallback<Frame> for Idle {
    open spec fn runs_on(&self, frames: Seq<Frame>) -> bool {
        true
    }

    open spec fn may_leave(&self, before: Seq<Frame>, after: Seq<Frame>) -> bool {
        after == before
    }

    fn call(&mut self, buffer: &mut [Frame]) {
        dummy_callback(buffer)
    }
}

/// The boxed function of a stream.
pub type Callback<Frame> = Box<dyn StreamCallback<Frame>>;

/// Configures the creation of input and output streams.
///
/// `Default` fills in the format and the number of channels from the frame
/// type, so that only the callback is left to choose:
/// `StreamOptions { callback: Box::new(f), ..Default::default() }`.
#[verifier::reject_recursive_types(Frame)]
pub struct StreamOptions<Frame> {
    /// The encoding of each sample.
    pub format: Format,
    /// The number of samples in a frame.
    pub n_channels: i32,
    /// The number of frames in a buffer; `None` leaves it to the host.
    pub frames_per_buffer: Option<i32>,
    /// The rate at which frames are played or recorded.
    pub sample_rate: SampleRate,
    /// The function that the host runs on each buffer.
    pub callback: Callback<Frame>,
}

/// The callback of a stream whose owner has not chosen one: it leaves the
/// buffer as it found it.
pub fn dummy_callback<T>(buffer: &mut [T])
    ensures
        final(buffer)@ == old(buffer)@,
{
}

impl<Frame> StreamOptions<Frame> {
    /// Whether nothing has been chosen but the format and the number of
    /// channels: the buffer size is left to the host and the rate to the
    /// device.
    pub open spec fn is_plain(&self, format: Format, n_channels: i32) -> bool {
        &&& self.format == format
        &&& self.n_channels == n_channels
        &&& self.frames_per_buffer is None
        &&& self.sample_rate == SampleRate::DeviceDefault
    }
}

impl<Frame: 'static + HasDefaultNChannels> StreamOptions<Frame> {
    /// Plain options for frames of type `Frame` whose samples are encoded as
    /// `format`, with a callback that runs on every buffer and leaves each as
    /// it found it.
    pub fn with_format(format: Format) -> (options: Self)
        ensures
            options.is_plain(format, Frame::N_CHANNELS),
            forall|frames: Seq<Frame>| options.callback.runs_on(frames),
            forall|before: Seq<Frame>, after: Seq<Frame>|
                options.callback.may_leave(before, after) ==> after == before,
    {
        StreamOptions {
            format,
            n_channels: Frame::N_CHANNELS,
            sample_rate: SampleRate::DeviceDefault,
            frames_per_buffer: None,
            callback: Box::new(Idle),
        }
    }
}

/// A frame is indexed by channel and gives samples: their type chooses the
/// format, the frame type the number of channels.
impl<Frame> Default for StreamOptions<Frame> where
    Frame: 'static + core::ops::Index<usize> + HasDefaultNChannels,
    Frame::Output: HasDefaultFormat,
 {
    /// Plain options in the format of the sample type, with a callback that
    /// runs on every buffer and leaves each as it found it.
    fn default() -> (options: StreamOptions<Frame>)
        ensures
            options.is_plain(<Frame::Output as HasDefaultFormat>::FORMAT, Frame::N_CHANNELS),
            forall|frames: Seq<Frame>| options.callback.runs_on(frames),
            forall|before: Seq<Frame>, after: Seq<Frame>|
                options.callback.may_leave(before, after) ==> after == before,
    {
        StreamOptions::with_format(<Frame::Output as HasDefaultFormat>::FORMAT)
    }
}

/// This trait is implemented for primitive types that have a direct
/// [`Format`] equivalent.
pub trait HasDefaultFormat {
    const FORMAT: Format;
}

impl HasDefaultFormat for i16 {
    const FORMAT: Format = Format::I16;
}

/// This trait is implemented for the array types that serve as frames: one
/// sample for each channel.
pub trait HasDefaultNChannels {
    const N_CHANNELS: i32;
}

impl<T> HasDefaultNChannels for [T; 1] {
    const N_CHANNELS: i32 = 1;
}

impl<T> HasDefaultNChannels for [T; 2] {
    const N_CHANNELS: i32 = 2;
}

/// A frame of one sample stands for one channel, a frame of two samples for
/// two, whatever the sample type is.
pub proof fn frame_channel_counts<T>()
    ensures
        <[T; 1] as HasDefaultNChannels>::N_CHANNELS == 1,
        <[T; 2] as HasDefaultNChannels>::N_CHANNELS == 2,
{
}

/// Plain options for frames of one sample, such as `default` returns, have
/// one channel.
pub proof fn plain_mono_options_have_one_channel<T>(options: StreamOptions<[T; 1]>, format: Format)
    requires
        options.is_plain(format, <[T; 1] as HasDefaultNChannels>::N_CHANNELS),
    ensures
        options.n_channels == 1,
{
}

/// Plain options for frames of two samples, such as `default` returns, have
/// two channels.
pub proof fn plain_stereo_options_have_two_channels<T>(
    options: StreamOptions<[T; 2]>,
    format: Format,
)
    requires
        options.is_plain(format, <[T; 2] as HasDefaultNChannels>::N_CHANNELS),
    ensures
        options.n_channels == 2,
{
}

/// 16-bit signed samples are encoded as `Format::I16` unless the owner of a
/// stream says otherwise.
pub proof fn default_format_of_i16()
    ensures
        <i16 as HasDefaultFormat>::FORMAT == Format::I16,
{
}

} // verus!
