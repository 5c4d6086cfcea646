//! Dispatch of the driver's asynchronous callbacks to typed handlers.
//!
//! The driver invokes its two callback slots on a thread it owns, lending a
//! buffer only for the duration of the call. The code that receives the raw
//! pointer turns it into `Option<&[u8]>` of the declared length (`None` for a
//! null pointer) and calls the `Raw*` entry points below; nothing here keeps
//! the buffer past the call, blocks, or panics.
use crate::frame::{decode_frame, frame_readable, frame_sample, sample_of, ImuData, FRAME_DATA_LEN};
use vstd::prelude::*;

verus! {

/// Entry point for raw sensor frames: a frame of declared length `len`
/// received at timestamp `ts` (milliseconds, from an unspecified epoch).
/// Wrap a `CallbackImu` in an `ImuBridge` instead unless even decoding the
/// frame is too expensive.
pub trait RawCallbackImu {
    fn raw_imu_message(&mut self, data: Option<&[u8]>, len: u16, ts: u32);
}

/// Receives each decoded orientation sample with its timestamp.
pub trait CallbackImu {
    fn imu_message(&mut self, data: ImuData, ts: u32);
}

/// Entry point for raw device messages on the MCU channel: message `msgid`
/// with a payload of declared length `len`, received at timestamp `ts`.
pub trait RawCallbackMcu {
    fn raw_mcu_message(&mut self, msgid: u16, data: Option<&[u8]>, len: u16, ts: u32);
}

/// Receives the identifier, payload length and timestamp of each device
/// message; the payload itself is opaque.
pub trait CallbackMcu {
    fn mcu_message(&mut self, msgid: u16, len: u16, ts: u32);
}

/// A sensor handler with a view of the samples it has been handed.
pub trait ImuHandler {
    /// Every sample handed over so far, with its timestamp, in order.
    spec fn samples(&self) -> Seq<(ImuData, u32)>;

    fn handle_imu(&mut self, data: ImuData, ts: u32)
        ensures
            final(self).samples() == old(self).samples().push((data, ts)),
    ;
}

/// A message handler with a view of the messages it has been handed.
pub trait McuHandler {
    /// Every message handed over so far, as (id, length, timestamp), in order.
    spec fn messages(&self) -> Seq<(u16, u16, u32)>;

    fn handle_mcu(&mut self, msgid: u16, len: u16, ts: u32)
        ensures
            final(self).messages() == old(self).messages().push((msgid, len, ts)),
    ;
}

/// The samples a handler holds after a frame: the decoded sample and its
/// timestamp appended once when the frame is readable, nothing otherwise.
pub open spec fn after_frame(
    samples: Seq<(ImuData, u32)>,
    data: Option<&[u8]>,
    len: u16,
    ts: u32,
) -> Seq<(ImuData, u32)> {
    match frame_sample(data, len) {
        Some(s) => samples.push((s, ts)),
        None => samples,
    }
}

/// Decodes one frame and hands the sample to `h`; a frame that cannot be
/// decoded is dropped without a word, as the driver has no channel for the
/// error.
pub fn dispatch_imu<H: ImuHandler>(h: &mut H, data: Option<&[u8]>, len: u16, ts: u32)
    ensures
        final(h).samples() == after_frame(old(h).samples(), data, len, ts),
{
    match decode_frame(data, len) {
        Some(sample) => h.handle_imu(sample, ts),
        None => {},
    }
}

/// Hands one message's identifier, length and timestamp to `h`.
pub fn dispatch_mcu<H: McuHandler>(h: &mut H, msgid: u16, len: u16, ts: u32)
    ensures
        final(h).messages() == old(h).messages().push((msgid, len, ts)),
{
    h.handle_mcu(msgid, len, ts)
}

/// A `CallbackImu` behind the raw entry point: every sample it is handed
/// goes to the handler exactly as it is recorded.
pub struct ImuBridge<C> {
    handler: C,
    samples: Ghost<Seq<(ImuData, u32)>>,
}

impl<C: CallbackImu> ImuBridge<C> {
    /// A bridge that has handed nothing over yet.
    pub fn new(handler: C) -> (b: ImuBridge<C>)
        ensures
            b.samples() == Seq::<(ImuData, u32)>::empty(),
    {
        ImuBridge { handler, samples: Ghost(Seq::empty()) }
    }

    pub fn handler(&self) -> &C {
        &self.handler
    }

    pub fn into_handler(self) -> C {
        self.handler
    }
}

impl<C: CallbackImu> ImuHandler for ImuBridge<C> {
    closed spec fn samples(&self) -> Seq<(ImuData, u32)> {
        self.samples@
    }

    fn handle_imu(&mut self, data: ImuData, ts: u32) {
        self.handler.imu_message(data, ts);
        self.samples = Ghost(self.samples@.push((data, ts)));
    }
}

impl<C: CallbackImu> RawCallbackImu for ImuBridge<C> {
    fn raw_imu_message(&mut self, data: Option<&[u8]>, len: u16, ts: u32)
        ensures
            final(self).samples() == after_frame(old(self).samples(), data, len, ts),
    {
        dispatch_imu(self, data, len, ts)
    }
}

/// A `CallbackMcu` behind the raw entry point: every message it is handed
/// goes to the handler exactly as it is recorded; the payload is not read.
pub struct McuBridge<C> {
    handler: C,
    messages: Ghost<Seq<(u16, u16, u32)>>,
}

impl<C: CallbackMcu> McuBridge<C> {
    /// A bridge that has handed nothing over yet.
    pub fn new(handler: C) -> (b: McuBridge<C>)
        ensures
            b.messages() == Seq::<(u16, u16, u32)>::empty(),
    {
        McuBridge { handler, messages: Ghost(Seq::empty()) }
    }

    pub fn handler(&self) -> &C {
        &self.handler
    }

    pub fn into_handler(self) -> C {
        self.handler
    }
}

impl<C: CallbackMcu> McuHandler for McuBridge<C> {
    closed spec fn messages(&self) -> Seq<(u16, u16, u32)> {
        self.messages@
    }

    fn handle_mcu(&mut self, msgid: u16, len: u16, ts: u32) {
        self.handler.mcu_message(msgid, len, ts);
        self.messages = Ghost(self.messages@.push((msgid, len, ts)));
    }
}

impl<C: CallbackMcu> RawCallbackMcu for McuBridge<C> {
    fn raw_mcu_message(&mut self, msgid: u16, _data: Option<&[u8]>, len: u16, ts: u32)
        ensures
            final(self).messages() == old(self).messages().push((msgid, len, ts)),
    {
        dispatch_mcu(self, msgid, len, ts)
    }
}

/// A message handler that ignores every message, for sessions that have no
/// use for the MCU channel.
pub struct Noop;

impl CallbackMcu for Noop {
    fn mcu_message(&mut self, _msgid: u16, _len: u16, _ts: u32) {
    }
}

/// A frame that is absent, declared shorter than the data bytes, or lent
/// with fewer bytes reaches no handler.
pub proof fn lemma_declined_frame_not_delivered(
    samples: Seq<(ImuData, u32)>,
    data: Option<&[u8]>,
    len: u16,
    ts: u32,
)
    requires
        data is None || len < FRAME_DATA_LEN || data.unwrap()@.len() < FRAME_DATA_LEN,
    ensures
        after_frame(samples, data, len, ts) == samples,
{
}

/// A readable frame reaches the handler exactly once, with the bit-exact
/// words at offsets 0, 4 and 8 and the timestamp unchanged.
pub proof fn lemma_readable_frame_delivered_once(
    samples: Seq<(ImuData, u32)>,
    data: &[u8],
    len: u16,
    ts: u32,
)
    requires
        len >= FRAME_DATA_LEN,
        data@.len() >= FRAME_DATA_LEN,
    ensures
        after_frame(samples, Some(data), len, ts) == samples.push((sample_of(data@), ts)),
        after_frame(samples, Some(data), len, ts).len() == samples.len() + 1,
{
}

/// Two readable frames that agree on their data bytes, received at the same
/// timestamp, hand the handler the same sample: trailing bytes and declared
/// lengths beyond the data bytes change nothing.
pub proof fn lemma_trailing_bytes_same_delivery(
    samples: Seq<(ImuData, u32)>,
    a: &[u8],
    len_a: u16,
    b: &[u8],
    len_b: u16,
    ts: u32,
)
    requires
        frame_readable(Some(a), len_a),
        frame_readable(Some(b), len_b),
        a@.subrange(0, FRAME_DATA_LEN as int) == b@.subrange(0, FRAME_DATA_LEN as int),
    ensures
        after_frame(samples, Some(a), len_a, ts) == after_frame(samples, Some(b), len_b, ts),
{
    crate::frame::lemma_trailing_bytes_ignored(a, len_a, b, len_b);
}

} // verus!
