use negicon::mlx90363::{
    mem_write_key, DeviceError, Mlx90363, MlxAlpha, MlxDiagnosticStatus, MlxError, MlxFrame,
    MlxGET1, MlxMarker, MlxMemReadRequest, MlxMemReadResponse, MlxMemWriteChallengeRequest,
    MlxMemWriteChallengeSolutionRequest, MlxMemWriteRequest, MlxMemWriteStatus, MlxOpcode,
    MlxNopChallenge, MlxNopResponse, MlxReply, MlxStatus,
};
use negicon::spi_protocol::{stamp, NopError, NopMessage, SpiError};

#[test]
fn opcode_codes_round_trip() {
    let all = [
        MlxOpcode::GET1,
        MlxOpcode::GET2,
        MlxOpcode::GET3,
        MlxOpcode::Get3Ready,
        MlxOpcode::MemoryRead,
        MlxOpcode::MemoryReadAnswer,
        MlxOpcode::EEWrite,
        MlxOpcode::EEWriteChallenge,
        MlxOpcode::EEChallengeAns,
        MlxOpcode::EEReadAnswer,
        MlxOpcode::EEReadChallenge,
        MlxOpcode::EEWriteStatus,
        MlxOpcode::NOPChallenge,
        MlxOpcode::ChallengeNOPMISOPacket,
        MlxOpcode::DiagnosticDetails,
        MlxOpcode::DiagnosticsAnswer,
        MlxOpcode::OscCounterStart,
        MlxOpcode::OscCounterStartAcknowledge,
        MlxOpcode::OscCounterStop,
        MlxOpcode::OscCounterStopAckCounterValue,
        MlxOpcode::Reboot,
        MlxOpcode::Standby,
        MlxOpcode::StandbyAck,
        MlxOpcode::ErrorFrame,
        MlxOpcode::NothingToTransmit,
        MlxOpcode::ReadyMessage,
        MlxOpcode::NotAnOpcode,
    ];
    for op in all {
        assert_eq!(MlxOpcode::from_number(op.code()), op);
    }
    assert_eq!(MlxOpcode::GET1.code(), 0x13);
    assert_eq!(MlxOpcode::NothingToTransmit.code(), 0x3E);
}

#[test]
fn unknown_opcode_reads_as_not_an_opcode() {
    assert_eq!(MlxOpcode::from_number(0x00), MlxOpcode::NotAnOpcode);
    assert_eq!(MlxOpcode::from_number(0x3F), MlxOpcode::NotAnOpcode);
}

#[test]
fn marker_numbers() {
    assert_eq!(MlxMarker::from_number(0), MlxMarker::Alpha);
    assert_eq!(MlxMarker::from_number(3), MlxMarker::Irregular);
    assert_eq!(MlxMarker::Alpha.to_number(), 0);
    assert_eq!(MlxMarker::AlphaBeta.to_number(), 0x40);
    assert_eq!(MlxMarker::XYZ.to_number(), 0x80);
    assert_eq!(MlxMarker::Irregular.to_number(), 0xC0);
}

#[test]
fn diagnostic_and_device_codes() {
    assert_eq!(MlxDiagnosticStatus::from_number(2), MlxDiagnosticStatus::Pass);
    assert_eq!(DeviceError::from_number(1), DeviceError::IncorrectBitCount);
    assert_eq!(DeviceError::from_number(3), DeviceError::AnswerTimeoutOrNotReady);
    assert_eq!(DeviceError::from_number(9), DeviceError::Unknown);
    assert_eq!(MlxMemWriteStatus::from_number(6), MlxMemWriteStatus::KeyInvalid);
    assert_eq!(MlxMemWriteStatus::from_number(8), MlxMemWriteStatus::OddAddress);
}

#[test]
fn get1_encoding() {
    let req = MlxGET1 { reset_counter: true, timeout: 0x1234, marker: MlxMarker::Alpha };
    assert_eq!(req.encode(), [0, 1, 0x34, 0x12, 0, 0, 0x13, 0]);
    assert_eq!(Mlx90363::get_alpha(), [0, 0, 0xFF, 0xFF, 0, 0, 0x13, 0xea]);
}

#[test]
fn mem_read_encoding() {
    let req = MlxMemReadRequest::new(0x1018, 0x103A);
    assert_eq!(req.serialize(), [0x18, 0x10, 0x3A, 0x10, 0, 0, 0xC1, 0]);
    assert_eq!(Mlx90363::read_memory(0x1018, 0x103A), stamp(req.serialize()));
}

#[test]
fn mem_write_keys_by_address() {
    assert_eq!(mem_write_key(0x00), 17485);
    assert_eq!(mem_write_key(0x01), 17485);
    assert_eq!(mem_write_key(0x02), 31053);
    assert_eq!(mem_write_key(0x3E), 3147);
    assert_eq!(mem_write_key(0x42), 31053);
}

#[test]
fn mem_write_encoding() {
    let req = MlxMemWriteRequest { addr: 0x04, data: 0xBEEF };
    // key slot 2: 57190 = 0xDF66
    assert_eq!(req.serialize(), [0, 0x04, 0x66, 0xDF, 0xEF, 0xBE, 0xC3, 0]);
}

#[test]
fn challenge_request_encoding() {
    assert_eq!(MlxMemWriteChallengeRequest {}.serialize(), [0, 0, 0, 0, 0, 0, 0xCF, 0]);
}

#[test]
fn challenge_solution_encoding() {
    let s = MlxMemWriteChallengeSolutionRequest { value: 0x1234 }.serialize();
    assert_eq!(s, [0, 0, 0x00, 0x00, 0xFF, 0xFF, 0xC5, 0]);
    let s = MlxMemWriteChallengeSolutionRequest { value: 0xA55A }.serialize();
    assert_eq!(s, [0, 0, 0x6E, 0xB7, 0x91, 0x48, 0xC5, 0]);
}

#[test]
fn alpha_decoding() {
    let m = [0x34, 0x92, 0, 0, 40, 0, 0x05, 0];
    let a = MlxAlpha::from_message(&m).unwrap();
    assert_eq!(a, MlxAlpha { data: 0x1234, diag: MlxDiagnosticStatus::Pass, vg: 40, counter: 5 });
    let m = [0x34, 0x92, 0, 0, 40, 0, 0x45, 0];
    assert_eq!(MlxAlpha::from_message(&m), Err(MlxError::FormatError));
}

#[test]
fn frame_decoding() {
    let f = MlxFrame::from_message(&[0, 0, 0, 0, 0, 0, 0xFE, 0]);
    assert_eq!(f, MlxFrame { marker: MlxMarker::Irregular, opcode: MlxOpcode::NothingToTransmit });
}

#[test]
fn status_decoding() {
    let s = MlxStatus::from_message(&[7, 9, 0, 0, 0, 0, 0xEC, 0]).unwrap();
    assert_eq!(s, MlxStatus { fw_version: 9, hw_version: 7 });
    assert_eq!(MlxStatus::from_message(&[7, 9, 0, 0, 0, 0, 0x2C, 0]), Err(MlxError::FormatError));
}

#[test]
fn mem_read_response_decoding() {
    let r = MlxMemReadResponse::deserialize(&[0x01, 0x02, 0x03, 0x04, 0, 0, 0xC2, 0]);
    assert_eq!(r, MlxMemReadResponse { data0: 0x0201, data1: 0x0403 });
}

#[test]
fn reply_dispatch() {
    assert_eq!(MlxReply::deserialize([0, 0, 0, 0, 0, 0, 0xEC, 0]), Ok(MlxReply::XReply));
    assert_eq!(MlxReply::deserialize([0, 0, 0, 0, 0, 0, 0xFE, 0]), Ok(MlxReply::XReply));
    assert_eq!(
        MlxReply::deserialize([2, 0, 0, 0, 0, 0, 0xFD, 0]),
        Err(MlxError::DeviceError(DeviceError::IncorrectCrc))
    );
    assert_eq!(
        MlxReply::deserialize([0, 0, 0xCD, 0xAB, 0, 0, 0xC4, 0]),
        Ok(MlxReply::MlxMemWriteChallengeReply(0xABCD))
    );
    assert_eq!(MlxReply::deserialize([0, 0, 0, 0, 0, 0, 0xE8, 0]), Ok(MlxReply::MlxMemWriteReadAnswerReply));
    assert_eq!(
        MlxReply::deserialize([1, 0, 0, 0, 0, 0, 0xCE, 0]),
        Ok(MlxReply::MlxMemWriteStatusReply(MlxMemWriteStatus::Success))
    );
    assert_eq!(MlxReply::deserialize([3, 0, 0, 0, 0, 0, 0xCE, 0]), Err(MlxError::FormatError));
    assert_eq!(
        MlxReply::deserialize([0, 0, 0x39, 0x39, 0xC6, 0xC6, 0xD1, 0]),
        Ok(MlxReply::Nop(NopMessage { challenge: 0x3939, opcode: 0xD1, inv: 0xC6C6 }))
    );
    assert_eq!(
        MlxReply::deserialize([1, 2, 3, 4, 0, 0, 0xC2, 0]),
        Ok(MlxReply::MlxMemReadResponse(MlxMemReadResponse { data0: 0x0201, data1: 0x0403 }))
    );
}

#[test]
fn unrecognized_replies_are_format_errors() {
    assert_eq!(MlxReply::deserialize([0, 0, 0, 0, 0, 0, 0x53, 0]), Err(MlxError::FormatError));
    assert_eq!(MlxReply::deserialize([0, 0, 0, 0, 0, 0, 0x93, 0]), Err(MlxError::FormatError));
    assert_eq!(MlxReply::deserialize([0, 0, 0, 0, 0, 0, 0xD3, 0]), Err(MlxError::FormatError));
    assert_eq!(MlxReply::deserialize([0, 0, 0, 0, 0, 0, 0xC0, 0]), Err(MlxError::FormatError));
}

#[test]
fn transfer_judges_transport_first() {
    assert_eq!(Mlx90363::transfer(Err(())), Err(MlxError::SpiError(SpiError::TxError)));
    assert_eq!(
        Mlx90363::transfer(Ok([0, 0, 0, 0, 0, 0, 0xEC, 0])),
        Err(MlxError::SpiError(SpiError::CrcError))
    );
    assert_eq!(Mlx90363::transfer(Ok(stamp([0, 0, 0, 0, 0, 0, 0xEC, 0]))), Ok(MlxReply::XReply));
}

#[test]
fn check_message_classes() {
    assert_eq!(Mlx90363::check_message(&[0, 0, 0, 0, 0, 0, 0x13, 0]), Ok(()));
    assert_eq!(Mlx90363::check_message(&[0, 0, 0, 0, 0, 0, 0xD1, 0]), Ok(()));
    assert_eq!(
        Mlx90363::check_message(&[4, 0, 0, 0, 0, 0, 0xFD, 0]),
        Err(MlxError::DeviceError(DeviceError::InvalidRequestOpcode))
    );
    assert_eq!(Mlx90363::check_message(&[0, 0, 0, 0, 0, 0, 0xC2, 0]), Err(MlxError::FormatError));
}

#[test]
fn bare_nop_challenge_encoding() {
    assert_eq!(MlxNopChallenge { key: 0x5A5A }.encode(), [0, 0, 0x5A, 0x5A, 0, 0, 0xD0, 0]);
}

#[test]
fn raw_nop_response_checks() {
    assert_eq!(MlxNopResponse::verify(&[0, 0, 0x5A, 0x5A, 0xA5, 0xA5, 0xD1, 0], 0x5A5A), Ok(()));
    assert_eq!(
        MlxNopResponse::verify(&[0, 0, 0x5A, 0x5A, 0xA5, 0xA5, 0xD0, 0], 0x5A5A),
        Err(NopError::InvalidOpcode)
    );
    assert_eq!(
        MlxNopResponse::verify(&[0, 0, 0x5B, 0x5A, 0xA5, 0xA5, 0xD1, 0], 0x5A5A),
        Err(NopError::InvalidChallenge)
    );
    assert_eq!(
        MlxNopResponse::verify(&[0, 0, 0x5A, 0x5A, 0xA5, 0xA4, 0xD1, 0], 0x5A5A),
        Err(NopError::InvalidInverse)
    );
}
