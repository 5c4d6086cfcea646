use viture_one_sdk::{
    CallbackImu, ImuBridge, ImuData, McuBridge, ImuFrequency, MessageErrCode, NativeCall, NativeDriver, Noop, Sdk, SdkErr,
    SimulatedGlasses,
};

struct Quiet;

impl CallbackImu for Quiet {
    fn imu_message(&mut self, _data: ImuData, _ts: u32) {}
}

#[test]
fn simulated_session_records_init_commands_deinit() {
    let glasses = SimulatedGlasses::new(true);
    let mut sdk = Sdk::init(glasses, Quiet).ok().unwrap();
    assert_eq!(sdk.set_imu(true), Ok(()));
    assert_eq!(sdk.get_imu_state(), Ok(true));
    assert_eq!(sdk.set_imu_fq(ImuFrequency::Hz120), Ok(()));
    let glasses = sdk.close();
    assert_eq!(
        glasses.calls(),
        &[
            NativeCall::Init,
            NativeCall::SetImu(true),
            NativeCall::GetImuState,
            NativeCall::SetImuFq(2),
            NativeCall::Deinit,
        ]
    );
    assert_eq!(glasses.replies(), &[0, 1, 0]);
}

#[test]
fn simulated_toggles_round_trip() {
    let mut sdk = Sdk::init(SimulatedGlasses::new(true), Quiet).ok().unwrap();
    assert_eq!(sdk.get_imu_state(), Ok(false));
    assert_eq!(sdk.get_3d_state(), Ok(false));
    for on in [true, false, true] {
        assert_eq!(sdk.set_imu(on), Ok(()));
        assert_eq!(sdk.get_imu_state(), Ok(on));
        assert_eq!(sdk.set_3d(on), Ok(()));
        assert_eq!(sdk.get_3d_state(), Ok(on));
    }
    sdk.close();
}

#[test]
fn simulated_rate_round_trips() {
    let mut sdk = Sdk::init(SimulatedGlasses::new(true), Quiet).ok().unwrap();
    assert_eq!(sdk.get_imu_fq(), Ok(ImuFrequency::Hz60));
    for f in [ImuFrequency::Hz90, ImuFrequency::Hz240, ImuFrequency::Hz120, ImuFrequency::Hz60] {
        assert_eq!(sdk.set_imu_fq(f), Ok(()));
        assert_eq!(sdk.get_imu_fq(), Ok(f));
    }
    sdk.close();
}

#[test]
fn simulated_rejects_unknown_rate_encoding() {
    let mut glasses = SimulatedGlasses::new(true);
    assert!(glasses.init(ImuBridge::new(Quiet), McuBridge::new(Noop)));
    assert_eq!(glasses.set_imu_fq(7), 2);
    assert_eq!(glasses.get_imu_fq(), 0);
    glasses.deinit();
    assert_eq!(
        viture_one_sdk::result_from_err(2),
        Err(SdkErr::MessageErrCode(MessageErrCode::InvalidArgument))
    );
}

#[test]
fn absent_simulated_glasses_fail_to_open_and_come_back() {
    let Err((e, glasses)) = Sdk::init(SimulatedGlasses::new(false), Quiet) else {
        panic!("absent glasses should not open");
    };
    assert_eq!(e, SdkErr::InitializationFailed);
    assert_eq!(glasses.calls(), &[NativeCall::Init]);
}

#[test]
fn simulated_glasses_reopen_after_close() {
    let sdk = Sdk::init(SimulatedGlasses::new(true), Quiet).ok().unwrap();
    let glasses = sdk.close();
    let mut again = Sdk::init(glasses, Quiet).ok().unwrap();
    assert_eq!(again.get_3d_state(), Ok(false));
    let glasses = again.close();
    assert_eq!(
        glasses.calls(),
        &[
            NativeCall::Init,
            NativeCall::Deinit,
            NativeCall::Init,
            NativeCall::Get3dState,
            NativeCall::Deinit,
        ]
    );
}
