use airfrog::bin::{LineLevel, MultiReg, Op, RegType, Speed as BinSpeed};
use airfrog::handler::{op_step, SwdAction};
use airfrog::swd::{Api, LineState, Speed, SwdError, Version};

/// Runs an operation against a scripted interface: each call returns the
/// next scripted result.
fn run(op: &Op, script: &[Result<Vec<u32>, SwdError>]) -> (Vec<SwdAction>, Result<Option<Vec<u8>>, SwdError>) {
    let mut calls = Vec::new();
    let mut last = None;
    let mut step = 0;
    loop {
        match op_step(op, step, last) {
            SwdAction::Done(outcome) => return (calls, outcome),
            action => {
                calls.push(action);
                last = Some(script[step].clone());
            }
        }
        step += 1;
    }
}

#[test]
fn register_reads_answer_the_word() {
    let (calls, out) = run(&Op::DpRead { reg: 4 }, &[Ok(vec![0x1234_5678])]);
    assert_eq!(calls, vec![SwdAction::ReadDp { reg: 4 }]);
    assert_eq!(out, Ok(Some(vec![0x78, 0x56, 0x34, 0x12])));
    let (calls, out) = run(&Op::ApRead { reg: 0x0C }, &[Err(SwdError::FaultAck)]);
    assert_eq!(calls, vec![SwdAction::ReadAp { ap: 0, reg: 0x0C }]);
    assert_eq!(out, Err(SwdError::FaultAck));
    let (calls, out) = run(&Op::ApWrite { reg: 4, data: 9 }, &[Ok(vec![])]);
    assert_eq!(calls, vec![SwdAction::WriteAp { ap: 0, reg: 4, data: 9 }]);
    assert_eq!(out, Ok(None));
}

#[test]
fn bulk_read_sets_auto_increment_first() {
    let op = Op::ApBulkRead { reg: 0x0C, count: 2 };
    let (calls, out) = run(&op, &[Ok(vec![]), Ok(vec![1, 2])]);
    assert_eq!(calls, vec![SwdAction::SetAddrInc(true), SwdAction::ReadApBulk { ap: 0, reg: 0x0C, count: 2 }]);
    assert_eq!(out, Ok(Some(vec![2, 0, 1, 0, 0, 0, 2, 0, 0, 0])));
    assert_eq!(out, Ok(Some(Api::bulk_read_response(2, &[1, 2]))));
    let (calls, out) = run(&op, &[Err(SwdError::WaitAck)]);
    assert_eq!(calls, vec![SwdAction::SetAddrInc(true)]);
    assert_eq!(out, Err(SwdError::WaitAck));
}

#[test]
fn bulk_write_sets_auto_increment_first() {
    let op = Op::ApBulkWrite { reg: 0x0C, data: vec![5, 6] };
    let (calls, out) = run(&op, &[Ok(vec![]), Ok(vec![])]);
    assert_eq!(
        calls,
        vec![SwdAction::SetAddrInc(true), SwdAction::WriteApBulk { ap: 0, reg: 0x0C, data: vec![5, 6] }]
    );
    assert_eq!(out, Ok(None));
}

#[test]
fn multi_register_write_stops_at_first_error() {
    let op = Op::MultiRegWrite {
        count: 3,
        data: vec![
            MultiReg { reg_type: RegType::Dp, reg: 8, data: 1 },
            MultiReg { reg_type: RegType::Ap, reg: 4, data: 2 },
            MultiReg { reg_type: RegType::Ap, reg: 0xC, data: 3 },
        ],
    };
    let (calls, out) = run(&op, &[Ok(vec![]), Ok(vec![]), Ok(vec![])]);
    assert_eq!(calls.len(), 3);
    assert_eq!(calls[0], SwdAction::WriteDp { reg: 8, data: 1 });
    assert_eq!(calls[1], SwdAction::WriteAp { ap: 0, reg: 4, data: 2 });
    assert_eq!(out, Ok(None));
    let (calls, out) = run(&op, &[Ok(vec![]), Err(SwdError::NoAck(7))]);
    assert_eq!(calls.len(), 2);
    assert_eq!(out, Err(SwdError::NoAck(7)));
}

#[test]
fn reset_tries_v1_then_v2() {
    let (calls, out) = run(&Op::ResetTarget, &[Ok(vec![])]);
    assert_eq!(calls, vec![SwdAction::Reset(Version::V1)]);
    assert_eq!(out, Ok(None));
    let (calls, out) = run(&Op::ResetTarget, &[Err(SwdError::NoAck(7)), Ok(vec![])]);
    assert_eq!(calls, vec![SwdAction::Reset(Version::V1), SwdAction::Reset(Version::V2)]);
    assert_eq!(out, Ok(None));
    let (_, out) = run(&Op::ResetTarget, &[Err(SwdError::NoAck(7)), Err(SwdError::DpError)]);
    assert_eq!(out, Err(SwdError::DpError));
}

#[test]
fn control_operations() {
    let (calls, out) = run(&Op::Ping, &[]);
    assert!(calls.is_empty());
    assert_eq!(out, Ok(None));
    let op = Op::Clock { level: LineLevel::High, post_level: LineLevel::Input, cycles: 50 };
    let (calls, out) = run(&op, &[Ok(vec![])]);
    assert_eq!(calls, vec![SwdAction::Clock { level: LineState::High, post: LineState::Input, cycles: 50 }]);
    assert_eq!(out, Ok(None));
    let (calls, _) = run(&Op::SetSpeed { speed: BinSpeed::Medium }, &[Ok(vec![])]);
    assert_eq!(calls, vec![SwdAction::SetSpeed(Speed::Medium)]);
}
