use viture_one_sdk::{
    decode_frequency, decode_state, result_from_err, GeneralErrCode, ImuFrequency,
    MessageErrCode, SdkErr,
};

#[test]
fn general_codes_classify_to_their_variant() {
    assert_eq!(SdkErr::from(-1), SdkErr::GeneralErrCode(GeneralErrCode::WriteFailure));
    assert_eq!(SdkErr::from(-2), SdkErr::GeneralErrCode(GeneralErrCode::RspError));
    assert_eq!(SdkErr::from(-3), SdkErr::GeneralErrCode(GeneralErrCode::Timeout));
}

#[test]
fn message_codes_classify_to_their_variant() {
    let expected = [
        (1, MessageErrCode::Failure),
        (2, MessageErrCode::InvalidArgument),
        (3, MessageErrCode::NotEnoughMemory),
        (4, MessageErrCode::UnsupportedCommand),
        (5, MessageErrCode::CrcMismatch),
        (6, MessageErrCode::VersionMismatch),
        (7, MessageErrCode::MessageIdMismatch),
        (8, MessageErrCode::MessageStxMismatch),
        (9, MessageErrCode::CodeNotWritten),
    ];
    for (code, variant) in expected {
        assert_eq!(SdkErr::from(code), SdkErr::MessageErrCode(variant));
        assert_eq!(variant.code(), code);
        assert_eq!(MessageErrCode::try_from_code(code), Some(variant));
    }
}

#[test]
fn codes_outside_both_sets_are_unknown_and_kept() {
    for code in [0, 10, 11, 255, -4, -100, i32::MIN, i32::MAX] {
        assert_eq!(SdkErr::from(code), SdkErr::UnknownCode(code));
    }
}

#[test]
fn classifier_is_total_over_a_wide_range() {
    for code in -70_000..70_000 {
        let e = SdkErr::from(code);
        match e {
            SdkErr::GeneralErrCode(g) => assert_eq!(g.code(), code),
            SdkErr::MessageErrCode(m) => assert_eq!(m.code(), code),
            SdkErr::UnknownCode(c) => {
                assert_eq!(c, code);
                assert!(!(-3..=-1).contains(&code) && !(1..=9).contains(&code));
            }
            SdkErr::InitializationFailed => panic!("classifier produced an init failure"),
        }
    }
}

#[test]
fn general_codes_round_trip() {
    for g in [GeneralErrCode::WriteFailure, GeneralErrCode::RspError, GeneralErrCode::Timeout] {
        assert_eq!(GeneralErrCode::try_from_code(g.code()), Some(g));
        assert_eq!(SdkErr::from(g), SdkErr::GeneralErrCode(g));
    }
    assert_eq!(GeneralErrCode::try_from_code(0), None);
    assert_eq!(GeneralErrCode::try_from_code(1), None);
}

#[test]
fn message_code_converts_into_error() {
    assert_eq!(
        SdkErr::from(MessageErrCode::CrcMismatch),
        SdkErr::MessageErrCode(MessageErrCode::CrcMismatch)
    );
    assert_eq!(MessageErrCode::try_from_code(0), None);
    assert_eq!(MessageErrCode::try_from_code(-1), None);
}

#[test]
fn status_success_only_on_zero() {
    assert_eq!(result_from_err(0), Ok(()));
    assert_eq!(
        result_from_err(-2),
        Err(SdkErr::GeneralErrCode(GeneralErrCode::RspError))
    );
    assert_eq!(
        result_from_err(1),
        Err(SdkErr::MessageErrCode(MessageErrCode::Failure))
    );
    assert_eq!(result_from_err(42), Err(SdkErr::UnknownCode(42)));
}

#[test]
fn state_answers_decode() {
    assert_eq!(decode_state(0), Ok(false));
    assert_eq!(decode_state(1), Ok(true));
    assert_eq!(
        decode_state(2),
        Err(SdkErr::MessageErrCode(MessageErrCode::InvalidArgument))
    );
    assert_eq!(
        decode_state(-3),
        Err(SdkErr::GeneralErrCode(GeneralErrCode::Timeout))
    );
    assert_eq!(decode_state(77), Err(SdkErr::UnknownCode(77)));
}

#[test]
fn frequency_answers_decode() {
    assert_eq!(decode_frequency(0), Ok(ImuFrequency::Hz60));
    assert_eq!(decode_frequency(1), Ok(ImuFrequency::Hz90));
    assert_eq!(decode_frequency(2), Ok(ImuFrequency::Hz120));
    assert_eq!(decode_frequency(3), Ok(ImuFrequency::Hz240));
    assert_eq!(
        decode_frequency(4),
        Err(SdkErr::MessageErrCode(MessageErrCode::UnsupportedCommand))
    );
    assert_eq!(
        decode_frequency(-1),
        Err(SdkErr::GeneralErrCode(GeneralErrCode::WriteFailure))
    );
    assert_eq!(decode_frequency(240), Err(SdkErr::UnknownCode(240)));
}

#[test]
fn frequency_encodings() {
    let all = [
        (ImuFrequency::Hz60, 0),
        (ImuFrequency::Hz90, 1),
        (ImuFrequency::Hz120, 2),
        (ImuFrequency::Hz240, 3),
    ];
    for (f, code) in all {
        let encoded: i32 = f.into();
        assert_eq!(encoded, code);
        assert_eq!(f.code(), code);
        assert_eq!(ImuFrequency::try_from_code(code), Some(f));
    }
    assert_eq!(ImuFrequency::try_from_code(4), None);
}
