use tps6699x::command::{
    Command, ResetArgs, ReturnValue, TfudArgs, TfuiArgs, TfuqArgs, TfuqBlockStatus,
    TfuqCommandType, TfuqReturnValue, TfuqStatusQuery, RESET_FEATURE_ENABLE, TFUI_ARGS_LEN,
    TFUQ_RETURN_LEN,
};
use tps6699x::error::PdError;
use tps6699x::{u32_from_str, Mode};

#[test]
fn tfui_args_encode_exact_bytes() {
    let args = TfuiArgs {
        num_data_blocks_tx: 0x0102,
        data_len: 0x4000,
        timeout_secs: 30,
        broadcast_u16_address: 0x0077,
    };
    let mut buf = [0xEEu8; 10];
    assert_eq!(args.encode_into_slice(&mut buf), Ok(()));
    assert_eq!(buf, [0x02, 0x01, 0x00, 0x40, 30, 0, 0x77, 0x00, 0xEE, 0xEE]);
    assert_eq!(TfuiArgs::decode_from_slice(&buf), Ok(args));
    let mut short = [0u8; TFUI_ARGS_LEN - 1];
    assert_eq!(args.encode_into_slice(&mut short), Err(PdError::InvalidParams));
    assert_eq!(short, [0u8; 7]);
    assert_eq!(TfuiArgs::decode_from_slice(&short), Err(PdError::InvalidParams));
}

#[test]
fn tfui_args_round_trip_extremes() {
    for value in [0u16, 1, 0x00FF, 0x0100, 0x7FFF, 0x8000, 0xFFFF] {
        let args = TfuiArgs {
            num_data_blocks_tx: value,
            data_len: value.wrapping_add(1),
            timeout_secs: !value,
            broadcast_u16_address: value.rotate_left(3),
        };
        let mut buf = [0u8; 8];
        assert_eq!(args.encode_into_slice(&mut buf), Ok(()));
        assert_eq!(TfuiArgs::decode_from_slice(&buf), Ok(args));
    }
}

#[test]
fn tfud_args_round_trip_and_layout() {
    let args = TfudArgs {
        block_number: 0x1234,
        data_len: 0xABCD,
        timeout_secs: 0x00FF,
        broadcast_u16_address: 0xFF00,
    };
    let mut buf = [0u8; 8];
    assert_eq!(args.encode_into_slice(&mut buf), Ok(()));
    assert_eq!(buf, [0x34, 0x12, 0xCD, 0xAB, 0xFF, 0x00, 0x00, 0xFF]);
    assert_eq!(TfudArgs::decode_from_slice(&buf), Ok(args));
    assert_eq!(TfudArgs::decode_from_slice(&buf[..7]), Err(PdError::InvalidParams));
    let mut short = [9u8; 3];
    assert_eq!(args.encode_into_slice(&mut short), Err(PdError::InvalidParams));
    assert_eq!(short, [9u8; 3]);
}

#[test]
fn reset_args_round_trip() {
    let args = ResetArgs { switch_banks: 0, copy_bank: RESET_FEATURE_ENABLE };
    let mut buf = [0x55u8; 3];
    assert_eq!(args.encode_into_slice(&mut buf), Ok(()));
    assert_eq!(buf, [0x00, 0xAC, 0x55]);
    assert_eq!(ResetArgs::decode_from_slice(&buf), Ok(args));
    let mut short = [7u8; 1];
    assert_eq!(args.encode_into_slice(&mut short), Err(PdError::InvalidParams));
    assert_eq!(short, [7u8]);
    assert_eq!(ResetArgs::decode_from_slice(&short), Err(PdError::InvalidParams));
}

#[test]
fn tfuq_args_encode() {
    let args = TfuqArgs {
        status_query: TfuqStatusQuery::StatusInProgress,
        command: TfuqCommandType::QueryTfuStatus,
    };
    let mut buf = [0xFFu8; 2];
    assert_eq!(args.encode_into_slice(&mut buf), Ok(()));
    assert_eq!(buf, [0x01, 0x00]);
    let bank1 = TfuqArgs {
        status_query: TfuqStatusQuery::StatusBank1,
        command: TfuqCommandType::QueryTfuStatus,
    };
    assert_eq!(bank1.encode_into_slice(&mut buf), Ok(()));
    assert_eq!(buf, [0x03, 0x00]);
    let mut short = [0u8; 1];
    assert_eq!(args.encode_into_slice(&mut short), Err(PdError::InvalidParams));
}

#[test]
fn tfuq_return_value_decode() {
    let mut buf = [0u8; TFUQ_RETURN_LEN];
    for (i, b) in buf.iter_mut().enumerate() {
        *b = i as u8;
    }
    let decoded = TfuqReturnValue::decode_from_slice(&buf).unwrap();
    assert_eq!(decoded.active_host, 0);
    assert_eq!(decoded.current_state, 1);
    assert_eq!(decoded.image_write_status, 4);
    assert_eq!(decoded.blocks_written_bitfield, 0x0605);
    assert_eq!(decoded.block_status, [7, 8, 9, 10, 11, 12, 13, 14, 15, 16, 17, 18, 19]);
    assert_eq!(decoded.num_of_header_bytes_received, 0x17161514);
    assert_eq!(decoded.num_of_data_bytes_received, 0x1D1C1B1A);
    assert_eq!(decoded.num_of_app_config_updates, 0x1F1E);
    assert_eq!(
        TfuqReturnValue::decode_from_slice(&buf[..TFUQ_RETURN_LEN - 1]),
        Err(PdError::InvalidParams)
    );
}

#[test]
fn return_value_codes() {
    assert_eq!(ReturnValue::try_from(0x00), Ok(ReturnValue::Success));
    assert_eq!(ReturnValue::try_from(0x01), Ok(ReturnValue::Abort));
    assert_eq!(ReturnValue::try_from(0x02), Err(PdError::InvalidParams));
    assert_eq!(ReturnValue::try_from(0x03), Ok(ReturnValue::Rejected));
    assert_eq!(ReturnValue::try_from(0x04), Ok(ReturnValue::RxLocked));
    assert_eq!(ReturnValue::try_from(0x05), Ok(ReturnValue::Task0));
    assert_eq!(ReturnValue::try_from(0x0F), Ok(ReturnValue::Task10));
    assert_eq!(ReturnValue::try_from(0x10), Err(PdError::InvalidParams));
    assert_eq!(ReturnValue::try_from(0xFF), Err(PdError::InvalidParams));
    for code in 0u8..=255 {
        if let Ok(value) = ReturnValue::try_from(code) {
            assert_eq!(value.code(), code);
        }
    }
}

#[test]
fn block_status_codes() {
    assert_eq!(TfuqBlockStatus::try_from(0x00), Ok(TfuqBlockStatus::Success));
    assert_eq!(TfuqBlockStatus::try_from(0x09), Ok(TfuqBlockStatus::HeaderValidAndAuthentic));
    assert_eq!(TfuqBlockStatus::try_from(0x0F), Ok(TfuqBlockStatus::DataValidAndAuthentic));
    assert_eq!(TfuqBlockStatus::try_from(0x10), Ok(TfuqBlockStatus::DataValidButRepeated));
    assert_eq!(TfuqBlockStatus::try_from(0x1A), Ok(TfuqBlockStatus::SpecialCmdFailed));
    assert_eq!(TfuqBlockStatus::try_from(0x1B), Err(PdError::InvalidParams));
    assert_eq!(TfuqBlockStatus::try_from(0xFF), Err(PdError::InvalidParams));
}

#[test]
fn command_codes_are_packed_names() {
    assert_eq!(Command::Success.code(), 0);
    assert_eq!(Command::Invalid.code(), u32::from_le_bytes(*b"!CMD"));
    assert_eq!(Command::Gaid.code(), u32::from_le_bytes(*b"GAID"));
    assert_eq!(Command::Tfus.code(), u32::from_le_bytes(*b"TFUs"));
    assert_eq!(Command::Tfui.code(), u32::from_le_bytes(*b"TFUi"));
    assert_eq!(Command::Tfuq.code(), u32::from_le_bytes(*b"TFUq"));
    assert_eq!(Command::Tfue.code(), u32::from_le_bytes(*b"TFUe"));
    assert_eq!(Command::Tfud.code(), u32::from_le_bytes(*b"TFUd"));
    assert_eq!(Command::Tfuc.code(), u32::from_le_bytes(*b"TFUc"));
    assert_eq!(u32_from_str("GAID"), Command::Gaid.code());
    assert_eq!(u32_from_str("!CMD"), Command::Invalid.code());
    assert!(Command::Gaid.matches_register(0x4449_4147));
    assert!(!Command::Gaid.matches_register(0));
    assert!(Command::Gaid == 0x4449_4147u32);
    assert!(Command::Success == 0u32);
    assert!(Command::Invalid != 0u32);
    assert!(Mode::F211 == u32::from_le_bytes(*b"F211"));
    assert!(Mode::F211 != u32::from_le_bytes(*b"APP0"));
}

#[test]
fn mode_codes_are_packed_names() {
    assert_eq!(Mode::Boot.code(), u32_from_str("BOOT"));
    assert_eq!(Mode::F211.code(), u32_from_str("F211"));
    assert_eq!(Mode::App0.code(), u32_from_str("APP0"));
    assert_eq!(Mode::App1.code(), u32_from_str("APP1"));
    assert_eq!(Mode::Wtpr.code(), u32_from_str("WTPR"));
    assert_eq!(Mode::App0.to_le_bytes(), *b"APP0");
    assert_eq!(Mode::try_from(u32::from_le_bytes(*b"F211")), Ok(Mode::F211));
    assert_eq!(Mode::try_from(0), Err(PdError::InvalidParams));
    assert_eq!(Mode::from_register(b"WTPR"), Ok(Mode::Wtpr));
    assert_eq!(Mode::from_register(b"WTP"), Err(PdError::InvalidParams));
    assert_eq!(Mode::from_register(b"XXXX"), Err(PdError::InvalidParams));
}

fn check_get_modes(addr: [u8; 2], expected_addr: u8) {
    assert_eq!(tps6699x::error::port_addr(&addr, 2, tps6699x::error::PortId(0)), Ok(expected_addr));
    for expected_mode in [Mode::Boot, Mode::F211, Mode::App0, Mode::App1, Mode::Wtpr] {
        let register: [u8; 4] = expected_mode.into();
        let mut response = vec![register.len() as u8];
        response.extend_from_slice(&register);
        let mut data = [0u8; 4];
        assert_eq!(tps6699x::transport::parse_read_response(&response, &mut data), Ok(()));
        assert_eq!(Mode::from_register(&data), Ok(expected_mode));
    }
}

#[test]
fn test_get_modes_address_0() {
    check_get_modes(tps6699x::ADDR0, 0x20);
}

#[test]
fn test_get_modes_address_1() {
    check_get_modes(tps6699x::ADDR1, 0x21);
}
