use std::cell::RefCell;
use std::rc::Rc;
use viture_one_sdk::{
    CallbackImu, GeneralErrCode, ImuData, ImuFrequency, MessageErrCode, NativeCall, NativePort,
    PortDriver, RawCallbackImu, RawCallbackMcu, Sdk, SdkErr,
};

/// A stand-in for the native driver: records every call and keeps the
/// device's state the way the glasses do.
#[derive(Default)]
struct Device {
    opens: bool,
    imu: bool,
    three_d: bool,
    frequency: i32,
    forced_answer: Option<i32>,
}

struct Double {
    device: Rc<RefCell<Device>>,
    log: Rc<RefCell<Vec<NativeCall>>>,
}

impl Double {
    fn new(opens: bool) -> (Double, Rc<RefCell<Device>>, Rc<RefCell<Vec<NativeCall>>>) {
        let device = Rc::new(RefCell::new(Device { opens, ..Device::default() }));
        let log = Rc::new(RefCell::new(Vec::new()));
        let double = Double { device: device.clone(), log: log.clone() };
        (double, device, log)
    }

    fn answer(&self, call: NativeCall, normal: i32) -> i32 {
        self.log.borrow_mut().push(call);
        self.device.borrow().forced_answer.unwrap_or(normal)
    }
}

impl NativePort for Double {
    fn init<I: RawCallbackImu + Send + 'static, M: RawCallbackMcu + Send + 'static>(
        &mut self,
        _imu: I,
        _mcu: M,
    ) -> bool {
        self.log.borrow_mut().push(NativeCall::Init);
        self.device.borrow().opens
    }

    fn deinit(&mut self) {
        self.log.borrow_mut().push(NativeCall::Deinit);
    }

    fn command(&mut self, call: NativeCall) -> i32 {
        let state = {
            let d = self.device.borrow();
            match call {
                NativeCall::GetImuState => d.imu as i32,
                NativeCall::Get3dState => d.three_d as i32,
                NativeCall::GetImuFq => d.frequency,
                _ => 0,
            }
        };
        let r = self.answer(call, state);
        if r == 0 {
            let mut d = self.device.borrow_mut();
            match call {
                NativeCall::SetImu(on) => d.imu = on,
                NativeCall::Set3d(on) => d.three_d = on,
                NativeCall::SetImuFq(f) => d.frequency = f,
                _ => {}
            }
        }
        r
    }
}

struct Ignore;

impl CallbackImu for Ignore {
    fn imu_message(&mut self, _data: ImuData, _ts: u32) {}
}

#[test]
fn session_calls_are_init_commands_then_deinit() {
    let (double, _device, log) = Double::new(true);
    let mut sdk = Sdk::init(PortDriver::new(double), Ignore).ok().unwrap();
    sdk.set_imu(true).unwrap();
    assert_eq!(sdk.get_imu_state(), Ok(true));
    sdk.set_3d(true).unwrap();
    let driver = sdk.close();
    assert_eq!(
        *log.borrow(),
        vec![
            NativeCall::Init,
            NativeCall::SetImu(true),
            NativeCall::GetImuState,
            NativeCall::Set3d(true),
            NativeCall::Deinit,
        ]
    );
    drop(driver);
    assert_eq!(log.borrow().len(), 5);
    assert_eq!(log.borrow().iter().filter(|c| **c == NativeCall::Deinit).count(), 1);
}

#[test]
fn session_without_commands_still_tears_down() {
    let (double, _device, log) = Double::new(true);
    let sdk = Sdk::init(PortDriver::new(double), Ignore).ok().unwrap();
    sdk.close();
    assert_eq!(*log.borrow(), vec![NativeCall::Init, NativeCall::Deinit]);
}

#[test]
fn failed_init_yields_no_handle_and_no_further_calls() {
    let (double, _device, log) = Double::new(false);
    let r = Sdk::init(PortDriver::new(double), Ignore);
    assert!(matches!(r, Err((SdkErr::InitializationFailed, _))));
    assert_eq!(*log.borrow(), vec![NativeCall::Init]);
}

#[test]
fn imu_toggle_round_trips() {
    let (double, _device, _log) = Double::new(true);
    let mut sdk = Sdk::init(PortDriver::new(double), Ignore).ok().unwrap();
    for on in [true, false, true] {
        assert_eq!(sdk.set_imu(on), Ok(()));
        assert_eq!(sdk.get_imu_state(), Ok(on));
    }
    sdk.close();
}

#[test]
fn display_mode_round_trips() {
    let (double, _device, _log) = Double::new(true);
    let mut sdk = Sdk::init(PortDriver::new(double), Ignore).ok().unwrap();
    for on in [true, false] {
        assert_eq!(sdk.set_3d(on), Ok(()));
        assert_eq!(sdk.get_3d_state(), Ok(on));
    }
    sdk.close();
}

#[test]
fn sample_rate_round_trips_and_is_marshalled() {
    let (double, _device, log) = Double::new(true);
    let mut sdk = Sdk::init(PortDriver::new(double), Ignore).ok().unwrap();
    for (f, code) in [
        (ImuFrequency::Hz240, 3),
        (ImuFrequency::Hz60, 0),
        (ImuFrequency::Hz120, 2),
        (ImuFrequency::Hz90, 1),
    ] {
        assert_eq!(sdk.set_imu_fq(f), Ok(()));
        assert_eq!(log.borrow().last(), Some(&NativeCall::SetImuFq(code)));
        assert_eq!(sdk.get_imu_fq(), Ok(f));
    }
    sdk.close();
}

#[test]
fn command_errors_are_classified_and_handle_stays_usable() {
    let (double, device, _log) = Double::new(true);
    let mut sdk = Sdk::init(PortDriver::new(double), Ignore).ok().unwrap();
    device.borrow_mut().forced_answer = Some(-3);
    assert_eq!(
        sdk.set_imu(true),
        Err(SdkErr::GeneralErrCode(GeneralErrCode::Timeout))
    );
    assert_eq!(
        sdk.get_imu_state(),
        Err(SdkErr::GeneralErrCode(GeneralErrCode::Timeout))
    );
    device.borrow_mut().forced_answer = Some(4);
    assert_eq!(
        sdk.set_3d(false),
        Err(SdkErr::MessageErrCode(MessageErrCode::UnsupportedCommand))
    );
    assert_eq!(
        sdk.get_imu_fq(),
        Err(SdkErr::MessageErrCode(MessageErrCode::UnsupportedCommand))
    );
    device.borrow_mut().forced_answer = Some(1000);
    assert_eq!(sdk.set_imu_fq(ImuFrequency::Hz90), Err(SdkErr::UnknownCode(1000)));
    assert_eq!(sdk.get_3d_state(), Err(SdkErr::UnknownCode(1000)));
    device.borrow_mut().forced_answer = None;
    assert_eq!(sdk.set_imu(false), Ok(()));
    assert_eq!(sdk.get_imu_state(), Ok(false));
    sdk.close();
}

#[test]
fn reopening_needs_a_fresh_init() {
    let (double, _device, log) = Double::new(true);
    let sdk = Sdk::init(PortDriver::new(double), Ignore).ok().unwrap();
    let driver = sdk.close();
    let mut again = Sdk::init(driver, Ignore).ok().unwrap();
    assert_eq!(again.get_3d_state(), Ok(false));
    again.close();
    assert_eq!(
        *log.borrow(),
        vec![
            NativeCall::Init,
            NativeCall::Deinit,
            NativeCall::Init,
            NativeCall::Get3dState,
            NativeCall::Deinit,
        ]
    );
}

#[test]
fn failed_init_hands_the_driver_back_closed() {
    let (double, _device, log) = Double::new(false);
    let Err((e, driver)) = Sdk::init(PortDriver::new(double), Ignore) else {
        panic!("init should fail");
    };
    assert_eq!(e, SdkErr::InitializationFailed);
    drop(driver);
    assert_eq!(*log.borrow(), vec![NativeCall::Init]);
}
