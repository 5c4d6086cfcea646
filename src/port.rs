//! The boundary to the native library: a plain calling interface, and the
//! verified driver that forwards to it and keeps the view of what it sent.
use crate::bridge::{RawCallbackImu, RawCallbackMcu};
use crate::device::{is_command, NativeCall, NativeDriver};
use vstd::prelude::*;

verus! {

/// The native library's entry points as plain calls, implemented over the C
/// functions (and by stand-ins in tests). It carries no contract: what the
/// device answers is its own, and the layers above state what follows from
/// each answer.
pub trait NativePort {
    /// Registers the two callback handlers and opens the USB session;
    /// `true` when it opened. The handlers receive the driver's callbacks
    /// until `deinit`.
    fn init<I: RawCallbackImu + Send + 'static, M: RawCallbackMcu + Send + 'static>(
        &mut self,
        imu: I,
        mcu: M,
    ) -> bool;

    /// Releases the session and deregisters the callbacks.
    fn deinit(&mut self);

    /// Performs one command with the arguments it carries and returns the
    /// native integer answer.
    fn command(&mut self, call: NativeCall) -> i32
        requires
            is_command(call),
    ;
}

/// A driver over a `NativePort`: every call goes to the port exactly as it
/// is recorded in the driver's view.
pub struct PortDriver<P> {
    port: P,
    received: Ghost<Seq<NativeCall>>,
    answers: Ghost<Seq<i32>>,
    open: Ghost<bool>,
}

impl<P: NativePort> PortDriver<P> {
    /// A driver that has received nothing and holds no session.
    pub fn new(port: P) -> (d: PortDriver<P>)
        ensures
            d.received() == Seq::<NativeCall>::empty(),
            d.answers() == Seq::<i32>::empty(),
            !d.is_open(),
    {
        PortDriver { port, received: Ghost(Seq::empty()), answers: Ghost(Seq::empty()), open: Ghost(false) }
    }

    /// Hands the port back.
    pub fn into_port(self) -> P {
        self.port
    }

    /// Sends `call` to the port and records it with its answer.
    fn forward(&mut self, call: NativeCall) -> (r: i32)
        requires
            is_command(call),
            old(self).is_open(),
        ensures
            final(self).received() == old(self).received().push(call),
            final(self).answers() == old(self).answers().push(r),
            final(self).is_open(),
    {
        let r = self.port.command(call);
        self.received = Ghost(self.received@.push(call));
        self.answers = Ghost(self.answers@.push(r));
        r
    }
}

impl<P: NativePort> NativeDriver for PortDriver<P> {
    closed spec fn received(&self) -> Seq<NativeCall> {
        self.received@
    }

    closed spec fn answers(&self) -> Seq<i32> {
        self.answers@
    }

    closed spec fn is_open(&self) -> bool {
        self.open@
    }

    /// The native device's state is not modelled: any answer and any state.
    closed spec fn step(&self, call: NativeCall, answer: i32, next: PortDriver<P>) -> bool {
        true
    }

    fn init<I: RawCallbackImu + Send + 'static, M: RawCallbackMcu + Send + 'static>(
        &mut self,
        imu: I,
        mcu: M,
    ) -> (opened: bool) {
        let opened = self.port.init(imu, mcu);
        self.received = Ghost(self.received@.push(NativeCall::Init));
        self.open = Ghost(opened);
        opened
    }

    fn deinit(&mut self) {
        self.port.deinit();
        self.received = Ghost(self.received@.push(NativeCall::Deinit));
        self.open = Ghost(false);
    }

    fn set_imu(&mut self, on: bool) -> (r: i32) {
        self.forward(NativeCall::SetImu(on))
    }

    fn get_imu_state(&mut self) -> (r: i32) {
        self.forward(NativeCall::GetImuState)
    }

    fn set_imu_fq(&mut self, frequency: i32) -> (r: i32) {
        self.forward(NativeCall::SetImuFq(frequency))
    }

    fn get_imu_fq(&mut self) -> (r: i32) {
        self.forward(NativeCall::GetImuFq)
    }

    fn set_3d(&mut self, on: bool) -> (r: i32) {
        self.forward(NativeCall::Set3d(on))
    }

    fn get_3d_state(&mut self) -> (r: i32) {
        self.forward(NativeCall::Get3dState)
    }
}

} // verus!
