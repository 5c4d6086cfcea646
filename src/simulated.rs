//! A stand-in for the glasses' native driver that keeps the device state in
//! memory, for developing and exercising the device handle without hardware.
use crate::codes::{
    state_code, state_result, status_result, frequency_result, ImuFrequency, ERR_INVALID_ARGUMENT,
    ERR_SUCCESS,
};
use crate::bridge::{RawCallbackImu, RawCallbackMcu};
use crate::device::{answered, NativeCall, NativeDriver, Sdk};
use vstd::prelude::*;

verus! {

/// Simulated glasses: answers every command as the device does, keeping
/// the streaming toggle, the display mode and the sampling-rate encoding,
/// and records every call it receives.
pub struct SimulatedGlasses {
    opens: bool,
    open: bool,
    imu: bool,
    three_d: bool,
    frequency: i32,
    log: Vec<NativeCall>,
    replies: Vec<i32>,
}

impl SimulatedGlasses {
    /// Streaming off, 2D, 60 Hz, no session. `opens` says whether `init`
    /// succeeds, standing for a device that is present or absent.
    pub fn new(opens: bool) -> (g: SimulatedGlasses)
        ensures
            g.received() == Seq::<NativeCall>::empty(),
            g.answers() == Seq::<i32>::empty(),
            !g.is_open(),
            !g.imu_on(),
            !g.three_d_on(),
            g.frequency_code() == ImuFrequency::Hz60.spec_code(),
    {
        SimulatedGlasses {
            opens,
            open: false,
            imu: false,
            three_d: false,
            frequency: ImuFrequency::Hz60.code(),
            log: Vec::new(),
            replies: Vec::new(),
        }
    }

    /// Whether sensor streaming is on.
    pub closed spec fn imu_on(&self) -> bool {
        self.imu
    }

    /// Whether the display is in 3D mode.
    pub closed spec fn three_d_on(&self) -> bool {
        self.three_d
    }

    /// The encoding of the current sampling rate.
    pub closed spec fn frequency_code(&self) -> i32 {
        self.frequency
    }

    /// The same device state, and the same answer to `init`.
    pub closed spec fn keeps(&self, next: SimulatedGlasses, imu: bool, three_d: bool, frequency: i32) -> bool {
        &&& next.opens == self.opens
        &&& next.imu == imu
        &&& next.three_d == three_d
        &&& next.frequency == frequency
    }

    /// Every call received so far, in order.
    pub fn calls(&self) -> (r: &[NativeCall])
        ensures
            r@ == self.received(),
    {
        self.log.as_slice()
    }

    /// Every answer given to a command so far, in order.
    pub fn replies(&self) -> (r: &[i32])
        ensures
            r@ == self.answers(),
    {
        self.replies.as_slice()
    }
}

impl NativeDriver for SimulatedGlasses {
    closed spec fn received(&self) -> Seq<NativeCall> {
        self.log@
    }

    closed spec fn answers(&self) -> Seq<i32> {
        self.replies@
    }

    closed spec fn is_open(&self) -> bool {
        self.open
    }

    /// Setters succeed and change their own part of the state (a rate must
    /// be a known encoding, else `ERR_INVALID_ARGUMENT` and no change);
    /// queries answer with the state's encoding and change nothing.
    closed spec fn step(&self, call: NativeCall, answer: i32, next: SimulatedGlasses) -> bool {
        match call {
            NativeCall::SetImu(on) => answer == ERR_SUCCESS && self.keeps(
                next,
                on,
                self.three_d,
                self.frequency,
            ),
            NativeCall::Set3d(on) => answer == ERR_SUCCESS && self.keeps(
                next,
                self.imu,
                on,
                self.frequency,
            ),
            NativeCall::SetImuFq(f) => if ImuFrequency::spec_from_code(f) is Some {
                answer == ERR_SUCCESS && self.keeps(next, self.imu, self.three_d, f)
            } else {
                answer == ERR_INVALID_ARGUMENT && self.keeps(
                    next,
                    self.imu,
                    self.three_d,
                    self.frequency,
                )
            },
            NativeCall::GetImuState => answer == state_code(self.imu) && self.keeps(
                next,
                self.imu,
                self.three_d,
                self.frequency,
            ),
            NativeCall::Get3dState => answer == state_code(self.three_d) && self.keeps(
                next,
                self.imu,
                self.three_d,
                self.frequency,
            ),
            NativeCall::GetImuFq => answer == self.frequency && self.keeps(
                next,
                self.imu,
                self.three_d,
                self.frequency,
            ),
            _ => false,
        }
    }

    fn init<I: RawCallbackImu + Send + 'static, M: RawCallbackMcu + Send + 'static>(
        &mut self,
        imu: I,
        mcu: M,
    ) -> (opened: bool) {
        self.log.push(NativeCall::Init);
        self.open = self.opens;
        self.opens
    }

    fn deinit(&mut self) {
        self.log.push(NativeCall::Deinit);
        self.open = false;
    }

    fn set_imu(&mut self, on: bool) -> (r: i32) {
        self.log.push(NativeCall::SetImu(on));
        self.imu = on;
        self.replies.push(ERR_SUCCESS);
        ERR_SUCCESS
    }

    fn get_imu_state(&mut self) -> (r: i32) {
        self.log.push(NativeCall::GetImuState);
        let r: i32 = if self.imu { 1 } else { 0 };
        self.replies.push(r);
        r
    }

    fn set_imu_fq(&mut self, frequency: i32) -> (r: i32) {
        self.log.push(NativeCall::SetImuFq(frequency));
        let r: i32 = match ImuFrequency::try_from_code(frequency) {
            Some(_) => {
                self.frequency = frequency;
                ERR_SUCCESS
            },
            None => ERR_INVALID_ARGUMENT,
        };
        self.replies.push(r);
        r
    }

    fn get_imu_fq(&mut self) -> (r: i32) {
        self.log.push(NativeCall::GetImuFq);
        let r = self.frequency;
        self.replies.push(r);
        r
    }

    fn set_3d(&mut self, on: bool) -> (r: i32) {
        self.log.push(NativeCall::Set3d(on));
        self.three_d = on;
        self.replies.push(ERR_SUCCESS);
        ERR_SUCCESS
    }

    fn get_3d_state(&mut self) -> (r: i32) {
        self.log.push(NativeCall::Get3dState);
        let r: i32 = if self.three_d { 1 } else { 0 };
        self.replies.push(r);
        r
    }
}

/// On the simulated glasses, turning streaming on or off and then querying
/// it returns the value just set: the set succeeds and the query answers
/// `Ok(on)`.
pub proof fn lemma_imu_round_trip(
    s0: Sdk<SimulatedGlasses>,
    s1: Sdk<SimulatedGlasses>,
    s2: Sdk<SimulatedGlasses>,
    on: bool,
)
    requires
        answered(s0.driver(), s1.driver(), NativeCall::SetImu(on), s1.last_reply()),
        answered(s1.driver(), s2.driver(), NativeCall::GetImuState, s2.last_reply()),
    ensures
        status_result(s1.last_reply()) == Ok::<(), crate::codes::SdkErr>(()),
        state_result(s2.last_reply()) == Ok::<bool, crate::codes::SdkErr>(on),
{
}

/// On the simulated glasses, switching the display mode and then querying
/// it returns the mode just set.
pub proof fn lemma_display_round_trip(
    s0: Sdk<SimulatedGlasses>,
    s1: Sdk<SimulatedGlasses>,
    s2: Sdk<SimulatedGlasses>,
    on: bool,
)
    requires
        answered(s0.driver(), s1.driver(), NativeCall::Set3d(on), s1.last_reply()),
        answered(s1.driver(), s2.driver(), NativeCall::Get3dState, s2.last_reply()),
    ensures
        status_result(s1.last_reply()) == Ok::<(), crate::codes::SdkErr>(()),
        state_result(s2.last_reply()) == Ok::<bool, crate::codes::SdkErr>(on),
{
}

/// On the simulated glasses, setting a sampling rate and then querying it
/// returns the rate just set.
pub proof fn lemma_frequency_round_trip(
    s0: Sdk<SimulatedGlasses>,
    s1: Sdk<SimulatedGlasses>,
    s2: Sdk<SimulatedGlasses>,
    frequency: ImuFrequency,
)
    requires
        answered(s0.driver(), s1.driver(), NativeCall::SetImuFq(frequency.spec_code()), s1.last_reply()),
        answered(s1.driver(), s2.driver(), NativeCall::GetImuFq, s2.last_reply()),
    ensures
        status_result(s1.last_reply()) == Ok::<(), crate::codes::SdkErr>(()),
        frequency_result(s2.last_reply()) == Ok::<ImuFrequency, crate::codes::SdkErr>(frequency),
{
}

} // verus!
