//! Result codes reported by the glasses' native driver and their classification.
use vstd::prelude::*;

verus! {

/// The driver's success sentinel.
pub const ERR_SUCCESS: i32 = 0;
/// Message error: generic failure.
pub const ERR_FAILURE: i32 = 1;
/// Message error: invalid argument.
pub const ERR_INVALID_ARGUMENT: i32 = 2;
/// Message error: not enough memory.
pub const ERR_NOT_ENOUGH_MEMORY: i32 = 3;
/// Message error: unsupported command.
pub const ERR_UNSUPPORTED_CMD: i32 = 4;
/// Message error: CRC mismatch.
pub const ERR_CRC_MISMATCH: i32 = 5;
/// Message error: version mismatch.
pub const ERR_VER_MISMATCH: i32 = 6;
/// Message error: message id mismatch.
pub const ERR_MSG_ID_MISMATCH: i32 = 7;
/// Message error: message STX mismatch.
pub const ERR_MSG_STX_MISMATCH: i32 = 8;
/// Message error: code not written.
pub const ERR_CODE_NOT_WRITTEN: i32 = 9;
/// General error: the USB write failed.
pub const ERR_WRITE_FAIL: i32 = -1;
/// General error: the device answered with an error.
pub const ERR_RSP_ERROR: i32 = -2;
/// General error: the device did not answer in time.
pub const ERR_TIMEOUT: i32 = -3;

/// Encodings of the sensor sampling rates.
pub const IMU_FREQUENCE_60: i32 = 0;
pub const IMU_FREQUENCE_90: i32 = 1;
pub const IMU_FREQUENCE_120: i32 = 2;
pub const IMU_FREQUENCE_240: i32 = 3;

/// Negative codes: failures of the transport itself.
#[derive(Debug, Clone, Copy, PartialEq, Eq, Structural)]
pub enum GeneralErrCode {
    WriteFailure,
    RspError,
    Timeout,
}

impl GeneralErrCode {
    /// The driver's integer code for this error.
    pub open spec fn spec_code(self) -> i32 {
        match self {
            GeneralErrCode::WriteFailure => ERR_WRITE_FAIL,
            GeneralErrCode::RspError => ERR_RSP_ERROR,
            GeneralErrCode::Timeout => ERR_TIMEOUT,
        }
    }

    /// The general error whose code is `code`, if any.
    pub open spec fn spec_from_code(code: i32) -> Option<GeneralErrCode> {
        if code == ERR_WRITE_FAIL {
            Some(GeneralErrCode::WriteFailure)
        } else if code == ERR_RSP_ERROR {
            Some(GeneralErrCode::RspError)
        } else if code == ERR_TIMEOUT {
            Some(GeneralErrCode::Timeout)
        } else {
            None
        }
    }

    pub fn code(self) -> (r: i32)
        ensures
            r == self.spec_code(),
    {
        match self {
            GeneralErrCode::WriteFailure => ERR_WRITE_FAIL,
            GeneralErrCode::RspError => ERR_RSP_ERROR,
            GeneralErrCode::Timeout => ERR_TIMEOUT,
        }
    }

    /// Recognises one of the general error codes; `None` for any other value.
    pub fn try_from_code(code: i32) -> (r: Option<GeneralErrCode>)
        ensures
            r == GeneralErrCode::spec_from_code(code),
    {
        if code == ERR_WRITE_FAIL {
            Some(GeneralErrCode::WriteFailure)
        } else if code == ERR_RSP_ERROR {
            Some(GeneralErrCode::RspError)
        } else if code == ERR_TIMEOUT {
            Some(GeneralErrCode::Timeout)
        } else {
            None
        }
    }
}

/// Positive codes: failures reported in the device's answer message.
///
/// These overlap numerically with valid answers of the query commands
/// (`1` is both "true" and `Failure`; `1..=3` are also sampling-rate
/// encodings), so a query's own valid values are recognised before any
/// code reaches this set.
#[derive(Debug, Clone, Copy, PartialEq, Eq, Structural)]
pub enum MessageErrCode {
    Failure,
    InvalidArgument,
    NotEnoughMemory,
    UnsupportedCommand,
    CrcMismatch,
    VersionMismatch,
    MessageIdMismatch,
    MessageStxMismatch,
    CodeNotWritten,
}

impl MessageErrCode {
    /// The driver's integer code for this error.
    pub open spec fn spec_code(self) -> i32 {
        match self {
            MessageErrCode::Failure => ERR_FAILURE,
            MessageErrCode::InvalidArgument => ERR_INVALID_ARGUMENT,
            MessageErrCode::NotEnoughMemory => ERR_NOT_ENOUGH_MEMORY,
            MessageErrCode::UnsupportedCommand => ERR_UNSUPPORTED_CMD,
            MessageErrCode::CrcMismatch => ERR_CRC_MISMATCH,
            MessageErrCode::VersionMismatch => ERR_VER_MISMATCH,
            MessageErrCode::MessageIdMismatch => ERR_MSG_ID_MISMATCH,
            MessageErrCode::MessageStxMismatch => ERR_MSG_STX_MISMATCH,
            MessageErrCode::CodeNotWritten => ERR_CODE_NOT_WRITTEN,
        }
    }

    /// The message error whose code is `code`, if any.
    pub open spec fn spec_from_code(code: i32) -> Option<MessageErrCode> {
        if code == ERR_FAILURE {
            Some(MessageErrCode::Failure)
        } else if code == ERR_INVALID_ARGUMENT {
            Some(MessageErrCode::InvalidArgument)
        } else if code == ERR_NOT_ENOUGH_MEMORY {
            Some(MessageErrCode::NotEnoughMemory)
        } else if code == ERR_UNSUPPORTED_CMD {
            Some(MessageErrCode::UnsupportedCommand)
        } else if code == ERR_CRC_MISMATCH {
            Some(MessageErrCode::CrcMismatch)
        } else if code == ERR_VER_MISMATCH {
            Some(MessageErrCode::VersionMismatch)
        } else if code == ERR_MSG_ID_MISMATCH {
            Some(MessageErrCode::MessageIdMismatch)
        } else if code == ERR_MSG_STX_MISMATCH {
            Some(MessageErrCode::MessageStxMismatch)
        } else if code == ERR_CODE_NOT_WRITTEN {
            Some(MessageErrCode::CodeNotWritten)
        } else {
            None
        }
    }

    pub fn code(self) -> (r: i32)
        ensures
            r == self.spec_code(),
    {
        match self {
            MessageErrCode::Failure => ERR_FAILURE,
            MessageErrCode::InvalidArgument => ERR_INVALID_ARGUMENT,
            MessageErrCode::NotEnoughMemory => ERR_NOT_ENOUGH_MEMORY,
            MessageErrCode::UnsupportedCommand => ERR_UNSUPPORTED_CMD,
            MessageErrCode::CrcMismatch => ERR_CRC_MISMATCH,
            MessageErrCode::VersionMismatch => ERR_VER_MISMATCH,
            MessageErrCode::MessageIdMismatch => ERR_MSG_ID_MISMATCH,
            MessageErrCode::MessageStxMismatch => ERR_MSG_STX_MISMATCH,
            MessageErrCode::CodeNotWritten => ERR_CODE_NOT_WRITTEN,
        }
    }

    /// Recognises one of the message error codes; `None` for any other value.
    pub fn try_from_code(code: i32) -> (r: Option<MessageErrCode>)
        ensures
            r == MessageErrCode::spec_from_code(code),
    {
        if code == ERR_FAILURE {
            Some(MessageErrCode::Failure)
        } else if code == ERR_INVALID_ARGUMENT {
            Some(MessageErrCode::InvalidArgument)
        } else if code == ERR_NOT_ENOUGH_MEMORY {
            Some(MessageErrCode::NotEnoughMemory)
        } else if code == ERR_UNSUPPORTED_CMD {
            Some(MessageErrCode::UnsupportedCommand)
        } else if code == ERR_CRC_MISMATCH {
            Some(MessageErrCode::CrcMismatch)
        } else if code == ERR_VER_MISMATCH {
            Some(MessageErrCode::VersionMismatch)
        } else if code == ERR_MSG_ID_MISMATCH {
            Some(MessageErrCode::MessageIdMismatch)
        } else if code == ERR_MSG_STX_MISMATCH {
            Some(MessageErrCode::MessageStxMismatch)
        } else if code == ERR_CODE_NOT_WRITTEN {
            Some(MessageErrCode::CodeNotWritten)
        } else {
            None
        }
    }
}

/// A failed command or a failed initialisation.
#[derive(Debug, Clone, Copy, PartialEq, Eq, Structural)]
pub enum SdkErr {
    /// Negative codes: the transport failed.
    GeneralErrCode(GeneralErrCode),
    /// Positive codes reported by the device.
    MessageErrCode(MessageErrCode),
    /// Any code outside both fixed sets, carried unchanged.
    UnknownCode(i32),
    /// The driver could not open a session; it reports no code for this.
    InitializationFailed,
}

/// The classification of a non-success code: general codes first, then
/// message codes, and any other value is unknown.
pub open spec fn classify(code: i32) -> SdkErr {
    match GeneralErrCode::spec_from_code(code) {
        Some(g) => SdkErr::GeneralErrCode(g),
        None => match MessageErrCode::spec_from_code(code) {
            Some(m) => SdkErr::MessageErrCode(m),
            None => SdkErr::UnknownCode(code),
        },
    }
}

impl From<i32> for SdkErr {
    /// Classifies any integer; total, never a success.
    fn from(code: i32) -> (r: SdkErr) {
        match GeneralErrCode::try_from_code(code) {
            Some(g) => SdkErr::GeneralErrCode(g),
            None => match MessageErrCode::try_from_code(code) {
                Some(m) => SdkErr::MessageErrCode(m),
                None => SdkErr::UnknownCode(code),
            },
        }
    }
}

impl vstd::std_specs::convert::FromSpecImpl<i32> for SdkErr {
    open spec fn obeys_from_spec() -> bool {
        true
    }

    open spec fn from_spec(code: i32) -> SdkErr {
        classify(code)
    }
}

impl From<GeneralErrCode> for SdkErr {
    fn from(code: GeneralErrCode) -> (r: SdkErr) {
        SdkErr::GeneralErrCode(code)
    }
}

impl vstd::std_specs::convert::FromSpecImpl<GeneralErrCode> for SdkErr {
    open spec fn obeys_from_spec() -> bool {
        true
    }

    open spec fn from_spec(code: GeneralErrCode) -> SdkErr {
        SdkErr::GeneralErrCode(code)
    }
}

impl From<MessageErrCode> for SdkErr {
    fn from(code: MessageErrCode) -> (r: SdkErr) {
        SdkErr::MessageErrCode(code)
    }
}

impl vstd::std_specs::convert::FromSpecImpl<MessageErrCode> for SdkErr {
    open spec fn obeys_from_spec() -> bool {
        true
    }

    open spec fn from_spec(code: MessageErrCode) -> SdkErr {
        SdkErr::MessageErrCode(code)
    }
}

/// What a command whose only valid answer is the success sentinel returns.
pub open spec fn status_result(code: i32) -> Result<(), SdkErr> {
    if code == ERR_SUCCESS {
        Ok(())
    } else {
        Err(classify(code))
    }
}

/// Turns the answer of a command that only reports success or failure into a
/// `Result`: the success sentinel is `Ok`, any other value is classified.
pub fn result_from_err(code: i32) -> (r: Result<(), SdkErr>)
    ensures
        r == status_result(code),
{
    if code == ERR_SUCCESS {
        Ok(())
    } else {
        Err(SdkErr::from(code))
    }
}

/// Sampling rates the sensor can run at.
#[derive(Debug, Clone, Copy, PartialEq, Eq, Structural)]
pub enum ImuFrequency {
    Hz60,
    Hz90,
    Hz120,
    Hz240,
}

impl ImuFrequency {
    /// The driver's encoding of this rate.
    pub open spec fn spec_code(self) -> i32 {
        match self {
            ImuFrequency::Hz60 => IMU_FREQUENCE_60,
            ImuFrequency::Hz90 => IMU_FREQUENCE_90,
            ImuFrequency::Hz120 => IMU_FREQUENCE_120,
            ImuFrequency::Hz240 => IMU_FREQUENCE_240,
        }
    }

    /// The rate whose encoding is `code`, if any.
    pub open spec fn spec_from_code(code: i32) -> Option<ImuFrequency> {
        if code == IMU_FREQUENCE_60 {
            Some(ImuFrequency::Hz60)
        } else if code == IMU_FREQUENCE_90 {
            Some(ImuFrequency::Hz90)
        } else if code == IMU_FREQUENCE_120 {
            Some(ImuFrequency::Hz120)
        } else if code == IMU_FREQUENCE_240 {
            Some(ImuFrequency::Hz240)
        } else {
            None
        }
    }

    pub fn code(self) -> (r: i32)
        ensures
            r == self.spec_code(),
    {
        match self {
            ImuFrequency::Hz60 => IMU_FREQUENCE_60,
            ImuFrequency::Hz90 => IMU_FREQUENCE_90,
            ImuFrequency::Hz120 => IMU_FREQUENCE_120,
            ImuFrequency::Hz240 => IMU_FREQUENCE_240,
        }
    }

    /// Recognises a rate encoding; `None` for any other value.
    pub fn try_from_code(code: i32) -> (r: Option<ImuFrequency>)
        ensures
            r == ImuFrequency::spec_from_code(code),
    {
        if code == IMU_FREQUENCE_60 {
            Some(ImuFrequency::Hz60)
        } else if code == IMU_FREQUENCE_90 {
            Some(ImuFrequency::Hz90)
        } else if code == IMU_FREQUENCE_120 {
            Some(ImuFrequency::Hz120)
        } else if code == IMU_FREQUENCE_240 {
            Some(ImuFrequency::Hz240)
        } else {
            None
        }
    }
}

impl From<ImuFrequency> for i32 {
    fn from(frequency: ImuFrequency) -> (r: i32) {
        frequency.code()
    }
}

impl vstd::std_specs::convert::FromSpecImpl<ImuFrequency> for i32 {
    open spec fn obeys_from_spec() -> bool {
        true
    }

    open spec fn from_spec(frequency: ImuFrequency) -> i32 {
        frequency.spec_code()
    }
}

/// The driver's encoding of an on/off state.
pub open spec fn state_code(on: bool) -> i32 {
    if on {
        1
    } else {
        0
    }
}

/// What an on/off query returns for the driver's answer `code`.
pub open spec fn state_result(code: i32) -> Result<bool, SdkErr> {
    if code == 0 {
        Ok(false)
    } else if code == 1 {
        Ok(true)
    } else {
        Err(classify(code))
    }
}

/// What a sampling-rate query returns for the driver's answer `code`.
pub open spec fn frequency_result(code: i32) -> Result<ImuFrequency, SdkErr> {
    match ImuFrequency::spec_from_code(code) {
        Some(f) => Ok(f),
        None => Err(classify(code)),
    }
}

/// Decodes the answer of an on/off query: `0` is off and `1` is on, any other
/// value is classified as an error.
///
/// `1` is also the code of `MessageErrCode::Failure`; an on/off query reads it
/// as "on", which is the driver's documented answer for that query.
pub fn decode_state(code: i32) -> (r: Result<bool, SdkErr>)
    ensures
        r == state_result(code),
{
    if code == 0 {
        Ok(false)
    } else if code == 1 {
        Ok(true)
    } else {
        Err(SdkErr::from(code))
    }
}

/// Decodes the answer of a sampling-rate query: a rate encoding is that rate,
/// any other value is classified as an error.
///
/// The encodings `1..=3` coincide with the message error codes `Failure`,
/// `InvalidArgument` and `NotEnoughMemory`; the query reads them as rates.
pub fn decode_frequency(code: i32) -> (r: Result<ImuFrequency, SdkErr>)
    ensures
        r == frequency_result(code),
{
    match ImuFrequency::try_from_code(code) {
        Some(f) => Ok(f),
        None => Err(SdkErr::from(code)),
    }
}

/// Classification is total and exclusive: every integer is a general error
/// exactly when it is a general code, a message error exactly when it is a
/// message code and not a general one, and unknown otherwise, carrying the
/// integer unchanged. No non-success code is read as success, and only the
/// success sentinel is.
pub proof fn lemma_classify_total(code: i32)
    ensures
        classify(code) is GeneralErrCode <==> GeneralErrCode::spec_from_code(code) is Some,
        classify(code) is MessageErrCode <==> (GeneralErrCode::spec_from_code(code) is None
            && MessageErrCode::spec_from_code(code) is Some),
        classify(code) is UnknownCode <==> (GeneralErrCode::spec_from_code(code) is None
            && MessageErrCode::spec_from_code(code) is None),
        classify(code) is UnknownCode ==> classify(code) == SdkErr::UnknownCode(code),
        !(classify(code) is InitializationFailed),
        status_result(code) is Ok <==> code == ERR_SUCCESS,
{
}

/// Each general and each message code classifies to its own variant, and a
/// code recognises exactly the variant it encodes.
pub proof fn lemma_known_codes_classify(g: GeneralErrCode, m: MessageErrCode)
    ensures
        classify(g.spec_code()) == SdkErr::GeneralErrCode(g),
        classify(m.spec_code()) == SdkErr::MessageErrCode(m),
        GeneralErrCode::spec_from_code(g.spec_code()) == Some(g),
        MessageErrCode::spec_from_code(m.spec_code()) == Some(m),
{
}

/// An integer that is neither a general nor a message code classifies as
/// unknown, carrying the integer unchanged.
pub proof fn lemma_unknown_code_kept(code: i32)
    requires
        forall|g: GeneralErrCode| g.spec_code() != code,
        forall|m: MessageErrCode| m.spec_code() != code,
    ensures
        classify(code) == SdkErr::UnknownCode(code),
{
    if let Some(g) = GeneralErrCode::spec_from_code(code) {
        assert(g.spec_code() == code);
    }
    if let Some(m) = MessageErrCode::spec_from_code(code) {
        assert(m.spec_code() == code);
    }
}

} // verus!
