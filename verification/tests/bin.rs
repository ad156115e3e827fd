use airfrog::bin::{
    Command, LineLevel, MultiReg, Op, ProtocolError, RegType, ResponseCode, Speed, CMD_AP_BULK_READ,
    CMD_AP_READ,
};
use airfrog::error::{AirfrogError, ErrorKind};
use airfrog::net::{disable_mode, enable_mode, Control as NetControl, Status as NetStatus, WifiMode, WifiType};
use airfrog::swd::{calculate_parity, check_parity, Api, LoopStep, ParseOutcome, SwdError};

fn decode(bytes: &[u8]) -> Result<Op, ProtocolError> {
    let command = Command::from_byte(bytes[0])?;
    let (fixed, _) = command.remaining_bytes()?;
    let fixed_bytes = &bytes[1..1 + fixed];
    let var = Op::var_len(command, fixed_bytes)?;
    Op::from_bytes(command, fixed_bytes, &bytes[1 + fixed..1 + fixed + var])
}

#[test]
fn single_ap_register_read_example() {
    let op = decode(&[0x02, 0x0C]).unwrap();
    assert_eq!(op, Op::ApRead { reg: 0x0C });
    assert_eq!(op.to_bytes(), vec![CMD_AP_READ, 0x0C]);
    assert_eq!(Api::word_response(0x7856_3412), vec![0x12, 0x34, 0x56, 0x78]);
    assert_eq!(ResponseCode::Success.to_byte(), 0x00);
}

#[test]
fn bulk_ap_register_read_example() {
    let op = decode(&[0x12, 0x0C, 0x04, 0x00]).unwrap();
    assert_eq!(op, Op::ApBulkRead { reg: 0x0C, count: 4 });
    assert_eq!(op.to_bytes(), vec![CMD_AP_BULK_READ, 0x0C, 0x04, 0x00]);
    assert_eq!(Api::bulk_read_response(4, &[1, 2, 3, 4])[..6], [0x04, 0x00, 1, 0, 0, 0]);
}

#[test]
fn error_response_example() {
    assert_eq!(Api::binary_api_response_from_swd_error(SwdError::FaultAck).to_byte(), 0x82);
    assert_eq!(Api::binary_api_response_from_swd_error(SwdError::Timeout).to_byte(), 0x83);
    assert_eq!(Api::binary_api_response_from_swd_error(SwdError::Network).to_byte(), 0x84);
    assert_eq!(Api::binary_api_response_from_swd_error(SwdError::Api).to_byte(), 0x85);
}

#[test]
fn operations_round_trip() {
    let ops = vec![
        Op::DpRead { reg: 4 },
        Op::DpWrite { reg: 8, data: 0xDEAD_BEEF },
        Op::ApWrite { reg: 0x0C, data: 1 },
        Op::ApBulkWrite { reg: 0x0C, data: vec![1, 2, 3] },
        Op::MultiRegWrite {
            count: 2,
            data: vec![
                MultiReg { reg_type: RegType::Dp, reg: 8, data: 0 },
                MultiReg { reg_type: RegType::Ap, reg: 4, data: 0x2000_0000 },
            ],
        },
        Op::Ping,
        Op::ResetTarget,
        Op::Clock { level: LineLevel::High, post_level: LineLevel::Low, cycles: 50 },
        Op::SetSpeed { speed: Speed::Fast },
        Op::Disconnect,
    ];
    for op in ops {
        assert_eq!(decode(&op.to_bytes()), Ok(op.clone()));
    }
}

#[test]
fn bad_requests() {
    assert_eq!(Command::from_byte(0x55), Err(ProtocolError::Command(0x55)));
    assert_eq!(decode(&[0x13, 0x0C, 0x01, 0x10]), Err(ProtocolError::Arg));
    assert_eq!(decode(&[0x12, 0x0C, 0x01, 0x01]), Err(ProtocolError::Arg));
    assert_eq!(decode(&[0x12, 0x0C, 0x00, 0x01]), Ok(Op::ApBulkRead { reg: 0x0C, count: 256 }));
    assert_eq!(LineLevel::levels_from_byte(0x33), Err(ProtocolError::Arg));
    assert_eq!(Api::parse_error_outcome(Some(ProtocolError::Arg)), ParseOutcome::Respond(ResponseCode::Api));
    assert_eq!(Api::parse_error_outcome(None), ParseOutcome::Fail);
}

#[test]
fn operation_display() {
    assert_eq!(Op::DpWrite { reg: 4, data: 7 }.to_string(false), "DP Write");
    assert_eq!(Op::DpWrite { reg: 4, data: 7 }.to_string(true), "DpWrite(reg=4, data=7)");
    assert_eq!(Op::ApBulkWrite { reg: 12, data: vec![1, 22] }.to_string(true), "ApBulkWrite(reg=12, data=[1, 22])");
    let m = Op::MultiRegWrite { count: 1, data: vec![MultiReg { reg_type: RegType::Ap, reg: 4, data: 9 }] };
    assert_eq!(m.to_string(true), format!("MultiRegWrite(count=1, data={:?})", vec![MultiReg { reg_type: RegType::Ap, reg: 4, data: 9 }]));
    let c = Op::Clock { level: LineLevel::Input, post_level: LineLevel::High, cycles: 3 };
    assert_eq!(c.to_string(true), "Clock(level=Input, post_level=High, cycles=3)");
    assert_eq!(Op::SetSpeed { speed: Speed::Turbo }.to_string(true), "SetSpeed(speed=Turbo)");
    assert_eq!(Op::ResetTarget.to_string(false), "Reset Target");
}

#[test]
fn speeds() {
    assert_eq!(Speed::default(), Speed::Turbo);
    assert_eq!(Speed::Medium.to_khz(), 1000);
    assert_eq!(Speed::from_khz(2000), Speed::Fast);
    assert_eq!(Speed::from_byte(Speed::Slow.to_byte()), Ok(Speed::Slow));
}

#[test]
fn swd_acks_and_parity() {
    assert_eq!(SwdError::from_ack(1), Ok(()));
    assert_eq!(SwdError::from_ack(2), Err(SwdError::WaitAck));
    assert_eq!(SwdError::from_ack(4), Err(SwdError::FaultAck));
    assert_eq!(SwdError::from_ack(7), Err(SwdError::NoAck(7)));
    assert!(calculate_parity(0b1011));
    assert!(!calculate_parity(0b11));
    assert!(calculate_parity(0x1234_5678));
    assert!(!calculate_parity(0));
    assert_eq!(calculate_parity(0b1011 ^ 0b11), calculate_parity(0b1011) != calculate_parity(0b11));
    assert_eq!(check_parity(0b1011, true), Ok(0b1011));
    assert_eq!(check_parity(0b1011, false), Err(SwdError::ReadParity));
    assert_eq!(Api::handshake_result(1, 0x01), Ok(()));
    assert_eq!(Api::handshake_result(0, 0x01), Err(SwdError::Api));
}

#[test]
fn api_call_counting() {
    let mut api = Api::new();
    let mut due = 0;
    for _ in 0..airfrog::swd::API_CALL_LOG_INTERVAL * 2 {
        if api.record_call() {
            due += 1;
        }
    }
    assert_eq!(due, 2);
}

#[test]
fn errors_and_status_codes() {
    let e: AirfrogError = SwdError::Timeout.into();
    assert_eq!(e, AirfrogError::Airfrog(ErrorKind::Timeout));
    assert_eq!(e.status_code(), 408);
    assert_eq!(AirfrogError::Swd(SwdError::FaultAck).status_code(), 500);
    assert_eq!(AirfrogError::Airfrog(ErrorKind::TooLarge).to_string(), "Request too large");
    assert_eq!(ErrorKind::TooLarge.kind(), "too large");
    assert_eq!(SwdError::NoAck(7).kind(), "bad acknowledge");
    assert_eq!(SwdError::NoAck(7).detail(), "7");
    assert_eq!(SwdError::WaitAck.kind(), "wait acknowledge");
    assert_eq!(SwdError::FaultAck.kind(), "fault acknowledge");
    assert_eq!(SwdError::ReadParity.kind(), "read parity error");
    assert_eq!(SwdError::DpError.kind(), "debug port error");
    assert_eq!(SwdError::Unsupported.kind(), "unsupported operation");
}

#[test]
fn wifi_modes() {
    assert_eq!(enable_mode(None, WifiType::Sta), Some(WifiMode::Sta));
    assert_eq!(enable_mode(Some(WifiMode::Sta), WifiType::Ap), Some(WifiMode::ApSta));
    assert_eq!(disable_mode(Some(WifiMode::ApSta), WifiType::Ap), Some(WifiMode::Sta));
    assert_eq!(disable_mode(Some(WifiMode::Sta), WifiType::Sta), None);
    assert_eq!(airfrog::net::control_status(NetControl::Enable), NetStatus::Enabled);
}

struct VecWriter(Vec<u8>);

impl airfrog::bin::SyncWriter for VecWriter {
    type Error = ();
    fn write_all(&mut self, buf: &[u8]) -> Result<(), ()> {
        self.0.extend_from_slice(buf);
        Ok(())
    }
}

#[test]
fn sync_send_writes_the_encoding() {
    let mut w = VecWriter(vec![0xAA]);
    Op::ApRead { reg: 0x0C }.sync_send(&mut w).unwrap();
    Op::Clock { level: LineLevel::High, post_level: LineLevel::Input, cycles: 0x0102 }.sync_send(&mut w).unwrap();
    assert_eq!(w.0, vec![0xAA, 0x02, 0x0C, 0xF2, 0x21, 0x02, 0x01]);
}

#[test]
fn main_loop_decisions() {
    assert_eq!(Api::op_outcome(&Op::Disconnect), LoopStep::Finish(ResponseCode::Success));
    assert_eq!(Api::op_outcome(&Op::Ping), LoopStep::Handle);
    assert_eq!(Api::op_outcome(&Op::DpRead { reg: 0 }), LoopStep::Handle);
    assert_eq!(Api::answer_bytes(Ok(Some(vec![0x78, 0x56, 0x34, 0x12]))), vec![0x00, 0x78, 0x56, 0x34, 0x12]);
    assert_eq!(Api::answer_bytes(Ok(None)), vec![0x00]);
    assert_eq!(Api::answer_bytes(Err(SwdError::FaultAck)), vec![0x82]);
    assert_eq!(Api::answer_bytes(Err(SwdError::Api)), vec![0x85]);
}
