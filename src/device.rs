//! The device handle: the one open session with the glasses' native driver,
//! and the typed command surface over it.
use crate::bridge::{CallbackImu, ImuBridge, McuBridge, Noop, RawCallbackImu, RawCallbackMcu};
use crate::codes::{
    decode_frequency, decode_state, frequency_result, result_from_err, state_code, state_result,
    status_result, ImuFrequency, SdkErr,
};
use vstd::prelude::*;

verus! {

/// One call issued to the native driver, with the arguments it was given.
#[derive(Debug, Clone, Copy, PartialEq, Eq, Structural)]
pub enum NativeCall {
    Init,
    SetImu(bool),
    GetImuState,
    SetImuFq(i32),
    GetImuFq,
    Set3d(bool),
    Get3dState,
    Deinit,
}

/// The native driver's entry points, one method per native function, with
/// a view of what the driver has been sent.
///
/// The view is the calls the driver received, the answers it gave to
/// commands, and whether a session is open. Commands are taken only inside
/// a session; each blocks until the device answers and returns the raw
/// integer answer. Implemented by `PortDriver`, over the native library, and
/// by `SimulatedGlasses`. At most one session with the native library may be
/// open at a time in a process.
pub trait NativeDriver: Sized {
    /// Every call the driver has received, in order.
    spec fn received(&self) -> Seq<NativeCall>;

    /// The driver's answers to the commands it has received, in order.
    spec fn answers(&self) -> Seq<i32>;

    /// Whether a session is open.
    spec fn is_open(&self) -> bool;

    /// How an implementation's own state evolves when it answers `call`
    /// with `answer`. The trait makes no claim of it; a stand-in device
    /// defines it to describe the state it keeps.
    spec fn step(&self, call: NativeCall, answer: i32, next: Self) -> bool;

    /// Registers the two callback handlers and opens the USB session;
    /// `true` when the session opened. The handlers receive the driver's
    /// callbacks until `deinit`.
    fn init<I: RawCallbackImu + Send + 'static, M: RawCallbackMcu + Send + 'static>(
        &mut self,
        imu: I,
        mcu: M,
    ) -> (opened: bool)
        requires
            !old(self).is_open(),
        ensures
            final(self).received() == old(self).received().push(NativeCall::Init),
            final(self).answers() == old(self).answers(),
            final(self).is_open() == opened,
    ;

    /// Releases the session and deregisters the callbacks.
    fn deinit(&mut self)
        requires
            old(self).is_open(),
        ensures
            final(self).received() == old(self).received().push(NativeCall::Deinit),
            final(self).answers() == old(self).answers(),
            !final(self).is_open(),
    ;

    fn set_imu(&mut self, on: bool) -> (r: i32)
        requires
            old(self).is_open(),
        ensures
            final(self).received() == old(self).received().push(NativeCall::SetImu(on)),
            final(self).answers() == old(self).answers().push(r),
            final(self).is_open(),
            old(self).step(NativeCall::SetImu(on), r, *final(self)),
    ;

    fn get_imu_state(&mut self) -> (r: i32)
        requires
            old(self).is_open(),
        ensures
            final(self).received() == old(self).received().push(NativeCall::GetImuState),
            final(self).answers() == old(self).answers().push(r),
            final(self).is_open(),
            old(self).step(NativeCall::GetImuState, r, *final(self)),
    ;

    fn set_imu_fq(&mut self, frequency: i32) -> (r: i32)
        requires
            old(self).is_open(),
        ensures
            final(self).received() == old(self).received().push(NativeCall::SetImuFq(frequency)),
            final(self).answers() == old(self).answers().push(r),
            final(self).is_open(),
            old(self).step(NativeCall::SetImuFq(frequency), r, *final(self)),
    ;

    fn get_imu_fq(&mut self) -> (r: i32)
        requires
            old(self).is_open(),
        ensures
            final(self).received() == old(self).received().push(NativeCall::GetImuFq),
            final(self).answers() == old(self).answers().push(r),
            final(self).is_open(),
            old(self).step(NativeCall::GetImuFq, r, *final(self)),
    ;

    fn set_3d(&mut self, on: bool) -> (r: i32)
        requires
            old(self).is_open(),
        ensures
            final(self).received() == old(self).received().push(NativeCall::Set3d(on)),
            final(self).answers() == old(self).answers().push(r),
            final(self).is_open(),
            old(self).step(NativeCall::Set3d(on), r, *final(self)),
    ;

    fn get_3d_state(&mut self) -> (r: i32)
        requires
            old(self).is_open(),
        ensures
            final(self).received() == old(self).received().push(NativeCall::Get3dState),
            final(self).answers() == old(self).answers().push(r),
            final(self).is_open(),
            old(self).step(NativeCall::Get3dState, r, *final(self)),
    ;
}

/// `after` is `before` having received `call` inside a session and answered
/// it with `answer`.
pub open spec fn answered<D: NativeDriver>(before: D, after: D, call: NativeCall, answer: i32) -> bool {
    &&& after.received() == before.received().push(call)
    &&& after.answers() == before.answers().push(answer)
    &&& after.is_open()
    &&& before.step(call, answer, after)
}

/// A call issued between opening and closing a session.
pub open spec fn is_command(c: NativeCall) -> bool {
    !(c is Init) && !(c is Deinit)
}

/// The calls of a session that is still open: `Init` first, then commands.
pub open spec fn open_session(calls: Seq<NativeCall>) -> bool {
    &&& calls.len() >= 1
    &&& calls[0] == NativeCall::Init
    &&& forall|i: int| 1 <= i < calls.len() ==> is_command(#[trigger] calls[i])
}

/// The calls of a closed session: an open session followed by one `Deinit`.
pub open spec fn closed_session(calls: Seq<NativeCall>) -> bool {
    &&& calls.len() >= 2
    &&& calls.last() == NativeCall::Deinit
    &&& open_session(calls.drop_last())
}

/// An open session with the glasses. Created by a successful `init`; `close`
/// consumes it and tears the session down. A fresh `init` is needed to open
/// a session again.
///
/// The session ends only through `close`: a handle dropped without it leaves
/// the driver's session open. Wrap it in a guard whose `Drop` calls `close`
/// where leaving a scope must end the session.
///
/// Commands must not run concurrently; `&mut self` serialises them.
pub struct Sdk<D> {
    driver: D,
    start: Ghost<int>,
}

impl<D: NativeDriver> Sdk<D> {
    /// The driver this handle owns.
    pub closed spec fn driver(&self) -> D {
        self.driver
    }

    /// Where this session's `Init` stands among the driver's received calls.
    pub closed spec fn session_start(&self) -> int {
        self.start@
    }

    /// Every call the driver has received, this session's and earlier ones.
    pub open spec fn received(&self) -> Seq<NativeCall> {
        self.driver().received()
    }

    /// The driver's answers to commands, in order.
    pub open spec fn answers(&self) -> Seq<i32> {
        self.driver().answers()
    }

    /// The driver's answer to the latest command.
    pub open spec fn last_reply(&self) -> i32 {
        self.answers().last()
    }

    /// The calls of this session, from its `Init` on.
    pub open spec fn calls(&self) -> Seq<NativeCall> {
        self.received().subrange(self.session_start(), self.received().len() as int)
    }

    /// The driver holds an open session, and this session's calls are `Init`
    /// followed by commands.
    pub closed spec fn wf(&self) -> bool {
        &&& self.driver.is_open()
        &&& 0 <= self.start@ < self.driver.received().len()
        &&& open_session(self.calls())
    }

    /// Opens a session with raw callback handlers: the driver's `init` is
    /// called once with `imu` and `mcu`. `Ok` exactly when the driver reports
    /// that the session opened; otherwise `InitializationFailed`, with the
    /// driver handed back.
    pub fn raw_init<I: RawCallbackImu + Send + 'static, M: RawCallbackMcu + Send + 'static>(
        driver: D,
        imu: I,
        mcu: M,
    ) -> (r: Result<Self, (SdkErr, D)>)
        requires
            !driver.is_open(),
        ensures
            match r {
                Ok(sdk) => {
                    &&& sdk.wf()
                    &&& sdk.driver().is_open()
                    &&& sdk.received() == driver.received().push(NativeCall::Init)
                    &&& sdk.answers() == driver.answers()
                    &&& sdk.calls() == seq![NativeCall::Init]
                },
                Err((e, d)) => {
                    &&& e == SdkErr::InitializationFailed
                    &&& !d.is_open()
                    &&& d.received() == driver.received().push(NativeCall::Init)
                    &&& d.answers() == driver.answers()
                },
            },
    {
        let mut driver = driver;
        let ghost start = driver.received().len() as int;
        if driver.init(imu, mcu) {
            let sdk = Sdk { driver, start: Ghost(start) };
            assert(sdk.calls() =~= seq![NativeCall::Init]);
            Ok(sdk)
        } else {
            Err((SdkErr::InitializationFailed, driver))
        }
    }

    /// Opens a session whose decoded sensor samples go to `handler`; device
    /// messages are ignored.
    pub fn init<C: CallbackImu + Send + 'static>(driver: D, handler: C) -> (r: Result<Self, (SdkErr, D)>)
        requires
            !driver.is_open(),
        ensures
            match r {
                Ok(sdk) => {
                    &&& sdk.wf()
                    &&& sdk.driver().is_open()
                    &&& sdk.received() == driver.received().push(NativeCall::Init)
                    &&& sdk.answers() == driver.answers()
                    &&& sdk.calls() == seq![NativeCall::Init]
                },
                Err((e, d)) => {
                    &&& e == SdkErr::InitializationFailed
                    &&& !d.is_open()
                    &&& d.received() == driver.received().push(NativeCall::Init)
                    &&& d.answers() == driver.answers()
                },
            },
    {
        Self::raw_init(driver, ImuBridge::new(handler), McuBridge::new(Noop))
    }

    /// Turns sensor streaming on or off; the driver is given `on_off` unchanged.
    pub fn set_imu(&mut self, on_off: bool) -> (r: Result<(), SdkErr>)
        requires
            old(self).wf(),
        ensures
            final(self).wf(),
            final(self).session_start() == old(self).session_start(),
            answered(old(self).driver(), final(self).driver(), NativeCall::SetImu(on_off), final(self).last_reply()),
            final(self).calls() == old(self).calls().push(NativeCall::SetImu(on_off)),
            r == status_result(final(self).last_reply()),
    {
        let ghost prev = self.received();
        let code = self.driver.set_imu(on_off);
        proof {
            self.lemma_command_extends(prev, NativeCall::SetImu(on_off));
        }
        result_from_err(code)
    }

    /// Queries whether sensor streaming is on, with a fresh device query: `0`
    /// is off, `1` is on, any other answer is classified.
    pub fn get_imu_state(&mut self) -> (r: Result<bool, SdkErr>)
        requires
            old(self).wf(),
        ensures
            final(self).wf(),
            final(self).session_start() == old(self).session_start(),
            answered(old(self).driver(), final(self).driver(), NativeCall::GetImuState, final(self).last_reply()),
            final(self).calls() == old(self).calls().push(NativeCall::GetImuState),
            r == state_result(final(self).last_reply()),
    {
        let ghost prev = self.received();
        let code = self.driver.get_imu_state();
        proof {
            self.lemma_command_extends(prev, NativeCall::GetImuState);
        }
        decode_state(code)
    }

    /// Sets the sensor sampling rate; the driver is given the rate's encoding.
    pub fn set_imu_fq(&mut self, frequency: ImuFrequency) -> (r: Result<(), SdkErr>)
        requires
            old(self).wf(),
        ensures
            final(self).wf(),
            final(self).session_start() == old(self).session_start(),
            answered(old(self).driver(), final(self).driver(), NativeCall::SetImuFq(frequency.spec_code()), final(self).last_reply()),
            final(self).calls() == old(self).calls().push(NativeCall::SetImuFq(frequency.spec_code())),
            r == status_result(final(self).last_reply()),
    {
        let ghost prev = self.received();
        let encoded: i32 = frequency.into();
        let code = self.driver.set_imu_fq(encoded);
        proof {
            self.lemma_command_extends(prev, NativeCall::SetImuFq(frequency.spec_code()));
        }
        result_from_err(code)
    }

    /// Queries the sensor sampling rate, with a fresh device query: a rate
    /// encoding is that rate, any other answer is classified.
    pub fn get_imu_fq(&mut self) -> (r: Result<ImuFrequency, SdkErr>)
        requires
            old(self).wf(),
        ensures
            final(self).wf(),
            final(self).session_start() == old(self).session_start(),
            answered(old(self).driver(), final(self).driver(), NativeCall::GetImuFq, final(self).last_reply()),
            final(self).calls() == old(self).calls().push(NativeCall::GetImuFq),
            r == frequency_result(final(self).last_reply()),
    {
        let ghost prev = self.received();
        let code = self.driver.get_imu_fq();
        proof {
            self.lemma_command_extends(prev, NativeCall::GetImuFq);
        }
        decode_frequency(code)
    }

    /// Switches the display between 3D (3840x1080, `true`) and 2D
    /// (1920x1080, `false`); the driver is given `on_off` unchanged.
    pub fn set_3d(&mut self, on_off: bool) -> (r: Result<(), SdkErr>)
        requires
            old(self).wf(),
        ensures
            final(self).wf(),
            final(self).session_start() == old(self).session_start(),
            answered(old(self).driver(), final(self).driver(), NativeCall::Set3d(on_off), final(self).last_reply()),
            final(self).calls() == old(self).calls().push(NativeCall::Set3d(on_off)),
            r == status_result(final(self).last_reply()),
    {
        let ghost prev = self.received();
        let code = self.driver.set_3d(on_off);
        proof {
            self.lemma_command_extends(prev, NativeCall::Set3d(on_off));
        }
        result_from_err(code)
    }

    /// Queries whether the display is in 3D mode, with a fresh device query:
    /// `0` is 2D, `1` is 3D, any other answer is classified.
    pub fn get_3d_state(&mut self) -> (r: Result<bool, SdkErr>)
        requires
            old(self).wf(),
        ensures
            final(self).wf(),
            final(self).session_start() == old(self).session_start(),
            answered(old(self).driver(), final(self).driver(), NativeCall::Get3dState, final(self).last_reply()),
            final(self).calls() == old(self).calls().push(NativeCall::Get3dState),
            r == state_result(final(self).last_reply()),
    {
        let ghost prev = self.received();
        let code = self.driver.get_3d_state();
        proof {
            self.lemma_command_extends(prev, NativeCall::Get3dState);
        }
        decode_state(code)
    }

    /// A command appended to the driver's calls extends this session's calls
    /// by that command and keeps the session open.
    proof fn lemma_command_extends(&self, prev: Seq<NativeCall>, call: NativeCall)
        requires
            is_command(call),
            self.driver.is_open(),
            0 <= self.start@ < prev.len(),
            open_session(prev.subrange(self.start@, prev.len() as int)),
            self.driver.received() == prev.push(call),
        ensures
            self.calls() == prev.subrange(self.start@, prev.len() as int).push(call),
            self.wf(),
    {
        let before = prev.subrange(self.start@, prev.len() as int);
        assert(self.calls() =~= before.push(call));
        assert forall|i: int| 1 <= i < self.calls().len() implies is_command(#[trigger] self.calls()[i]) by {
            if i < before.len() {
                assert(self.calls()[i] == before[i]);
            }
        }
    }

    /// Tears the session down: the driver receives `Deinit`, once, after
    /// every command of the session, and is handed back with no session open.
    /// Its commands require an open session, so none can follow before a
    /// fresh `init`.
    pub fn close(self) -> (driver: D)
        requires
            self.wf(),
        ensures
            driver.received() == self.received().push(NativeCall::Deinit),
            driver.answers() == self.answers(),
            !driver.is_open(),
            closed_session(self.calls().push(NativeCall::Deinit)),
    {
        let mut driver = self.driver;
        driver.deinit();
        proof {
            let closed = self.calls().push(NativeCall::Deinit);
            assert(closed.drop_last() == self.calls());
        }
        driver
    }
}

/// Teardown is the last call of a session and is issued once: in the calls
/// of a closed session, `Init` stands first and nowhere else, and `Deinit`
/// stands last and nowhere else.
pub proof fn lemma_teardown_is_last(calls: Seq<NativeCall>)
    requires
        closed_session(calls),
    ensures
        calls[0] == NativeCall::Init,
        calls.last() == NativeCall::Deinit,
        forall|i: int| 0 <= i < calls.len() && #[trigger] calls[i] == NativeCall::Deinit ==> i
            == calls.len() - 1,
        forall|i: int| 0 <= i < calls.len() && #[trigger] calls[i] == NativeCall::Init ==> i == 0,
{
    let open = calls.drop_last();
    assert forall|i: int| 0 <= i < calls.len() - 1 implies #[trigger] calls[i] == open[i] by {}
    assert forall|i: int| 1 <= i < calls.len() - 1 implies is_command(#[trigger] calls[i]) by {
        assert(is_command(open[i]));
    }
}

/// An on/off state and a sampling rate decode back from their encodings.
pub proof fn lemma_set_then_query(on: bool, frequency: ImuFrequency)
    ensures
        state_result(state_code(on)) == Ok::<bool, SdkErr>(on),
        frequency_result(frequency.spec_code()) == Ok::<ImuFrequency, SdkErr>(frequency),
{
}

} // verus!
