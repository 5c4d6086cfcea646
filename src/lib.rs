//! Typed access to VITURE One glasses: result-code classification,
//! sensor-frame decoding, callback dispatch and the device-handle lifecycle.
pub mod bridge;
pub mod codes;
pub mod device;
pub mod frame;
pub mod port;
pub mod simulated;

pub use bridge::{
    dispatch_imu, dispatch_mcu, CallbackImu, CallbackMcu, ImuBridge, ImuHandler, McuBridge,
    McuHandler, Noop, RawCallbackImu, RawCallbackMcu,
};
pub use codes::{
    decode_frequency, decode_state, result_from_err, GeneralErrCode, ImuFrequency,
    MessageErrCode, SdkErr,
};
pub use device::{NativeCall, NativeDriver, Sdk};
pub use frame::{decode_frame, ImuData};
pub use port::{NativePort, PortDriver};
pub use simulated::SimulatedGlasses;
