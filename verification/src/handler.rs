//! Carrying out a binary API operation on the target's SWD interface, one
//! call at a time: each step says which call to make next, given what the
//! previous call returned, until the operation is done and its response
//! data (or error) is known.

use crate::bin::{bytes16, bytes32, words_bytes, MultiReg, Op, OpView, RegType};
use crate::swd::{
    into_swd_line_state, speed_of_bin, state_of_level, LineState, Speed, SwdError, Version,
};
use vstd::prelude::*;

verus! {

/// The next call to make on the SWD interface while carrying out an
/// operation, or the operation's outcome once it is done.
#[derive(Debug, PartialEq, Eq)]
#[allow(inconsistent_fields)]
pub enum SwdAction {
    /// Read a Debug Port register.
    ReadDp { reg: u8 },
    /// Write a Debug Port register.
    WriteDp { reg: u8, data: u32 },
    /// Read a register of an Access Port.
    ReadAp { ap: u8, reg: u8 },
    /// Write a register of an Access Port.
    WriteAp { ap: u8, reg: u8, data: u32 },
    /// Turn address auto-increment on or off.
    SetAddrInc(bool),
    /// Read `count` words from an Access Port register.
    ReadApBulk { ap: u8, reg: u8, count: u16 },
    /// Write words to an Access Port register.
    WriteApBulk { ap: u8, reg: u8, data: Vec<u32> },
    /// Reset the target with this protocol version.
    Reset(Version),
    /// Clock the SWD lines.
    Clock { level: LineState, post: LineState, cycles: u32 },
    /// Change the SWD speed.
    SetSpeed(Speed),
    /// The operation is done: the response data on success, else the error.
    Done(Result<Option<Vec<u8>>, SwdError>),
}

/// The mathematical value of an [`SwdAction`]: its byte and word vectors
/// as sequences.
#[allow(inconsistent_fields)]
pub ghost enum SwdActionView {
    ReadDp { reg: u8 },
    WriteDp { reg: u8, data: u32 },
    ReadAp { ap: u8, reg: u8 },
    WriteAp { ap: u8, reg: u8, data: u32 },
    SetAddrInc(bool),
    ReadApBulk { ap: u8, reg: u8, count: u16 },
    WriteApBulk { ap: u8, reg: u8, data: Seq<u32> },
    Reset(Version),
    Clock { level: LineState, post: LineState, cycles: u32 },
    SetSpeed(Speed),
    Done(Result<Option<Seq<u8>>, SwdError>),
}

impl View for SwdAction {
    type V = SwdActionView;

    open spec fn view(&self) -> SwdActionView {
        match self {
            SwdAction::ReadDp { reg } => SwdActionView::ReadDp { reg: *reg },
            SwdAction::WriteDp { reg, data } => SwdActionView::WriteDp { reg: *reg, data: *data },
            SwdAction::ReadAp { ap, reg } => SwdActionView::ReadAp { ap: *ap, reg: *reg },
            SwdAction::WriteAp { ap, reg, data } => SwdActionView::WriteAp {
                ap: *ap,
                reg: *reg,
                data: *data,
            },
            SwdAction::SetAddrInc(on) => SwdActionView::SetAddrInc(*on),
            SwdAction::ReadApBulk { ap, reg, count } => SwdActionView::ReadApBulk {
                ap: *ap,
                reg: *reg,
                count: *count,
            },
            SwdAction::WriteApBulk { ap, reg, data } => SwdActionView::WriteApBulk {
                ap: *ap,
                reg: *reg,
                data: data@,
            },
            SwdAction::Reset(v) => SwdActionView::Reset(*v),
            SwdAction::Clock { level, post, cycles } => SwdActionView::Clock {
                level: *level,
                post: *post,
                cycles: *cycles,
            },
            SwdAction::SetSpeed(s) => SwdActionView::SetSpeed(*s),
            SwdAction::Done(r) => SwdActionView::Done(
                match r {
                    Ok(Some(v)) => Ok(Some(v@)),
                    Ok(None) => Ok(None),
                    Err(e) => Err(*e),
                },
            ),
        }
    }
}

/// What the previous SWD call returned: the words it read (none for a
/// call that reads nothing), or its error. Before the first call there is
/// nothing to report, which counts as success.
pub open spec fn call_result(last: Option<Result<Vec<u32>, SwdError>>) -> Result<Seq<u32>, SwdError> {
    match last {
        Some(Ok(words)) => Ok(words@),
        Some(Err(e)) => Err(e),
        None => Ok(Seq::empty()),
    }
}

/// The outcome of an operation that reads data, once its read returned:
/// the words read, little-endian, or the read's error.
pub open spec fn read_outcome(res: Result<Seq<u32>, SwdError>) -> SwdActionView {
    match res {
        Ok(words) => SwdActionView::Done(Ok(Some(words_bytes(words)))),
        Err(e) => SwdActionView::Done(Err(e)),
    }
}

/// The outcome of an operation that returns no data, once its last call
/// returned: success, or that call's error.
pub open spec fn write_outcome(res: Result<Seq<u32>, SwdError>) -> SwdActionView {
    match res {
        Ok(_) => SwdActionView::Done(Ok(None)),
        Err(e) => SwdActionView::Done(Err(e)),
    }
}

/// The call that carries out one register write of a multi-register
/// write: Debug Port registers directly, Access Port registers on AP 0.
pub open spec fn reg_write_call(m: MultiReg) -> SwdActionView {
    match m.reg_type {
        RegType::Dp => SwdActionView::WriteDp { reg: m.reg, data: m.data },
        RegType::Ap => SwdActionView::WriteAp { ap: 0, reg: m.reg, data: m.data },
    }
}

/// What to do at step `step` of an operation, given what the previous call
/// returned (`res`; ignored at step 0).
///
/// - Register reads and writes make one call, on AP 0 for the Access Port;
///   a read is answered with the word read.
/// - A bulk read or write first turns address auto-increment on, then,
///   if that succeeded, makes the bulk transfer on AP 0; a bulk read is
///   answered with the count followed by the words read.
/// - A multi-register write makes its writes in order and stops at the
///   first that fails.
/// - A target reset tries protocol version 1 and, only if that fails,
///   version 2, whose outcome is the answer.
/// - Clocking and speed changes make their call and succeed; a ping does
///   nothing.
/// - Wherever a call fails and nothing else is tried, its error is the
///   outcome.
pub open spec fn op_step_spec(op: OpView, step: nat, res: Result<Seq<u32>, SwdError>) -> SwdActionView {
    match op {
        OpView::DpRead { reg } => if step == 0 {
            SwdActionView::ReadDp { reg }
        } else {
            read_outcome(res)
        },
        OpView::DpWrite { reg, data } => if step == 0 {
            SwdActionView::WriteDp { reg, data }
        } else {
            write_outcome(res)
        },
        OpView::ApRead { reg } => if step == 0 {
            SwdActionView::ReadAp { ap: 0, reg }
        } else {
            read_outcome(res)
        },
        OpView::ApWrite { reg, data } => if step == 0 {
            SwdActionView::WriteAp { ap: 0, reg, data }
        } else {
            write_outcome(res)
        },
        OpView::ApBulkRead { reg, count } => if step == 0 {
            SwdActionView::SetAddrInc(true)
        } else if step == 1 {
            match res {
                Ok(_) => SwdActionView::ReadApBulk { ap: 0, reg, count },
                Err(e) => SwdActionView::Done(Err(e)),
            }
        } else {
            match res {
                Ok(words) => SwdActionView::Done(Ok(Some(bytes16(count) + words_bytes(words)))),
                Err(e) => SwdActionView::Done(Err(e)),
            }
        },
        OpView::ApBulkWrite { reg, data } => if step == 0 {
            SwdActionView::SetAddrInc(true)
        } else if step == 1 {
            match res {
                Ok(_) => SwdActionView::WriteApBulk { ap: 0, reg, data },
                Err(e) => SwdActionView::Done(Err(e)),
            }
        } else {
            write_outcome(res)
        },
        OpView::MultiRegWrite { data, .. } => if step > 0 && res is Err {
            write_outcome(res)
        } else if step < data.len() {
            reg_write_call(data[step as int])
        } else {
            SwdActionView::Done(Ok(None))
        },
        OpView::Ping => SwdActionView::Done(Ok(None)),
        OpView::ResetTarget => if step == 0 {
            SwdActionView::Reset(Version::V1)
        } else if step == 1 {
            match res {
                Ok(_) => SwdActionView::Done(Ok(None)),
                Err(_) => SwdActionView::Reset(Version::V2),
            }
        } else {
            write_outcome(res)
        },
        OpView::Clock { level, post_level, cycles } => if step == 0 {
            SwdActionView::Clock {
                level: state_of_level(level),
                post: state_of_level(post_level),
                cycles: cycles as u32,
            }
        } else {
            SwdActionView::Done(Ok(None))
        },
        OpView::SetSpeed { speed } => if step == 0 {
            SwdActionView::SetSpeed(speed_of_bin(speed))
        } else {
            SwdActionView::Done(Ok(None))
        },
        OpView::Disconnect => SwdActionView::Done(Ok(None)),
    }
}

/// Words as the bytes of a response: each word, little-endian.
fn words_response(words: &[u32]) -> (r: Vec<u8>)
    ensures
        r@ == words_bytes(words@),
{
    let mut v: Vec<u8> = Vec::new();
    let mut i: usize = 0;
    while i < words.len()
        invariant
            i <= words@.len(),
            v@ == words_bytes(words@.take(i as int)),
        decreases words@.len() - i,
    {
        let w = words[i];
        v.push((w & 0xFF) as u8);
        v.push(((w >> 8u32) & 0xFF) as u8);
        v.push(((w >> 16u32) & 0xFF) as u8);
        v.push((w >> 24u32) as u8);
        assert(words@.take(i + 1).drop_last() =~= words@.take(i as int));
        i = i + 1;
    }
    assert(words@.take(words@.len() as int) =~= words@);
    v
}

fn read_done(res: Result<Vec<u32>, SwdError>) -> (r: SwdAction)
    ensures
        r@ == read_outcome(
            match res {
                Ok(w) => Ok(w@),
                Err(e) => Err(e),
            },
        ),
{
    match res {
        Ok(words) => SwdAction::Done(Ok(Some(words_response(words.as_slice())))),
        Err(e) => SwdAction::Done(Err(e)),
    }
}

fn write_done(res: Result<Vec<u32>, SwdError>) -> (r: SwdAction)
    ensures
        r@ == write_outcome(
            match res {
                Ok(w) => Ok(w@),
                Err(e) => Err(e),
            },
        ),
{
    match res {
        Ok(_) => SwdAction::Done(Ok(None)),
        Err(e) => SwdAction::Done(Err(e)),
    }
}

/// The step `step` of carrying out `op` (see [`op_step_spec`]), given what
/// the previous SWD call returned (`None` before the first call). A
/// disconnect is no SWD operation: the server handles it before this.
pub fn op_step(op: &Op, step: usize, last: Option<Result<Vec<u32>, SwdError>>) -> (r: SwdAction)
    requires
        !(op@ is Disconnect),
    ensures
        r@ == op_step_spec(op@, step as nat, call_result(last)),
{
    let res: Result<Vec<u32>, SwdError> = match last {
        Some(r) => r,
        None => Ok(Vec::new()),
    };
    match op {
        Op::DpRead { reg } => if step == 0 {
            SwdAction::ReadDp { reg: *reg }
        } else {
            read_done(res)
        },
        Op::DpWrite { reg, data } => if step == 0 {
            SwdAction::WriteDp { reg: *reg, data: *data }
        } else {
            write_done(res)
        },
        Op::ApRead { reg } => if step == 0 {
            SwdAction::ReadAp { ap: 0, reg: *reg }
        } else {
            read_done(res)
        },
        Op::ApWrite { reg, data } => if step == 0 {
            SwdAction::WriteAp { ap: 0, reg: *reg, data: *data }
        } else {
            write_done(res)
        },
        Op::ApBulkRead { reg, count } => if step == 0 {
            SwdAction::SetAddrInc(true)
        } else if step == 1 {
            match res {
                Ok(_) => SwdAction::ReadApBulk { ap: 0, reg: *reg, count: *count },
                Err(e) => SwdAction::Done(Err(e)),
            }
        } else {
            match res {
                Ok(words) => {
                    let mut v: Vec<u8> = Vec::new();
                    v.push((*count & 0xFF) as u8);
                    v.push((*count >> 8u16) as u8);
                    let mut rest = words_response(words.as_slice());
                    v.append(&mut rest);
                    assert(v@ =~= bytes16(*count) + words_bytes(words@));
                    SwdAction::Done(Ok(Some(v)))
                },
                Err(e) => SwdAction::Done(Err(e)),
            }
        },
        Op::ApBulkWrite { reg, data } => if step == 0 {
            SwdAction::SetAddrInc(true)
        } else if step == 1 {
            match res {
                Ok(_) => {
                    let d = data.clone();
                    assert(d@ =~= data@);
                    SwdAction::WriteApBulk { ap: 0, reg: *reg, data: d }
                },
                Err(e) => SwdAction::Done(Err(e)),
            }
        } else {
            write_done(res)
        },
        Op::MultiRegWrite { data, .. } => if step > 0 && res.is_err() {
            write_done(res)
        } else if step < data.len() {
            let m = data[step];
            match m.reg_type {
                RegType::Dp => SwdAction::WriteDp { reg: m.reg, data: m.data },
                RegType::Ap => SwdAction::WriteAp { ap: 0, reg: m.reg, data: m.data },
            }
        } else {
            SwdAction::Done(Ok(None))
        },
        Op::Ping => SwdAction::Done(Ok(None)),
        Op::ResetTarget => if step == 0 {
            SwdAction::Reset(Version::V1)
        } else if step == 1 {
            match res {
                Ok(_) => SwdAction::Done(Ok(None)),
                Err(_) => SwdAction::Reset(Version::V2),
            }
        } else {
            write_done(res)
        },
        Op::Clock { level, post_level, cycles } => if step == 0 {
            SwdAction::Clock {
                level: into_swd_line_state(*level),
                post: into_swd_line_state(*post_level),
                cycles: *cycles as u32,
            }
        } else {
            SwdAction::Done(Ok(None))
        },
        Op::SetSpeed { speed } => if step == 0 {
            SwdAction::SetSpeed(Speed::from(*speed))
        } else {
            SwdAction::Done(Ok(None))
        },
        Op::Disconnect => SwdAction::Done(Ok(None)),
    }
}

/// The number of SWD calls an operation makes at most: none for a ping,
/// two for a bulk transfer or a target reset, one per register write of a
/// multi-register write, one for the others.
pub open spec fn step_bound(op: OpView) -> nat {
    match op {
        OpView::Ping | OpView::Disconnect => 0,
        OpView::ApBulkRead { .. } | OpView::ApBulkWrite { .. } | OpView::ResetTarget => 2,
        OpView::MultiRegWrite { data, .. } => data.len(),
        _ => 1,
    }
}

/// Every operation comes to an end: from step [`step_bound`] on, whatever
/// the calls returned, its outcome is known.
pub proof fn lemma_op_finishes(op: OpView, step: nat, res: Result<Seq<u32>, SwdError>)
    requires
        !(op is Disconnect),
        step >= step_bound(op),
    ensures
        op_step_spec(op, step, res) is Done,
{
}

/// Every Access Port call that carrying out an operation makes is on AP 0.
pub proof fn lemma_ap_calls_use_ap_zero(op: OpView, step: nat, res: Result<Seq<u32>, SwdError>)
    ensures
        match op_step_spec(op, step, res) {
            SwdActionView::ReadAp { ap, .. } => ap == 0,
            SwdActionView::WriteAp { ap, .. } => ap == 0,
            SwdActionView::ReadApBulk { ap, .. } => ap == 0,
            SwdActionView::WriteApBulk { ap, .. } => ap == 0,
            _ => true,
        },
{
}

/// A bulk transfer is made only after address auto-increment was turned
/// on, as the first call of the operation, and that call succeeded.
pub proof fn lemma_bulk_after_addr_inc(op: OpView, step: nat, res: Result<Seq<u32>, SwdError>)
    ensures
        (op is ApBulkRead || op is ApBulkWrite) ==> op_step_spec(op, 0, res)
            == SwdActionView::SetAddrInc(true),
        (op_step_spec(op, step, res) is ReadApBulk || op_step_spec(op, step, res) is WriteApBulk)
            ==> {
            &&& op is ApBulkRead || op is ApBulkWrite
            &&& step == 1
            &&& res is Ok
        },
{
}

/// A target reset tries protocol version 2 only as its second call, and
/// only after the version 1 reset failed; its outcome is that of the last
/// reset tried.
pub proof fn lemma_reset_falls_back(step: nat, res: Result<Seq<u32>, SwdError>)
    ensures
        op_step_spec(OpView::ResetTarget, 0, res) == SwdActionView::Reset(Version::V1),
        (op_step_spec(OpView::ResetTarget, step, res) == SwdActionView::Reset(Version::V2)) <==> (
        step == 1 && res is Err),
        step == 1 && res is Ok ==> op_step_spec(OpView::ResetTarget, step, res)
            == SwdActionView::Done(Ok(None)),
        step >= 2 ==> op_step_spec(OpView::ResetTarget, step, res) == write_outcome(res),
{
}

/// The first SWD call that fails ends an operation, with that call's
/// error as its outcome; the one exception is a failed version 1 reset,
/// after which version 2 is tried. (A ping makes no call, and clocking and
/// speed changes cannot fail.)
pub proof fn lemma_first_error_ends_op(op: OpView, step: nat, e: SwdError)
    requires
        step > 0,
        !(op is Ping || op is Clock || op is SetSpeed || op is Disconnect),
        !(op is ResetTarget && step == 1),
    ensures
        op_step_spec(op, step, Err(e)) == SwdActionView::Done(Err(e)),
{
}

/// A Debug Port operation only ever calls on the Debug Port, an Access
/// Port register operation only on AP 0, and each makes exactly the call
/// it names: a DP read of `reg` reads DP register `reg`, a DP write of
/// `(reg, data)` writes `data` to DP register `reg`, and likewise for the
/// AP. A successful read is answered with the word read, least
/// significant byte first.
pub proof fn lemma_register_ops_make_their_call(
    op: OpView,
    step: nat,
    res: Result<Seq<u32>, SwdError>,
    w: u32,
)
    ensures
        op matches OpView::DpRead { reg } ==> op_step_spec(op, 0, res) == (SwdActionView::ReadDp {
            reg,
        }),
        op matches OpView::DpWrite { reg, data } ==> op_step_spec(op, 0, res) == (
        SwdActionView::WriteDp { reg, data }),
        op matches OpView::ApRead { reg } ==> op_step_spec(op, 0, res) == (SwdActionView::ReadAp {
            ap: 0,
            reg,
        }),
        op matches OpView::ApWrite { reg, data } ==> op_step_spec(op, 0, res) == (
        SwdActionView::WriteAp { ap: 0, reg, data }),
        (op is DpRead || op is DpWrite) ==> {
            let a = op_step_spec(op, step, res);
            a is ReadDp || a is WriteDp || a is Done
        },
        (op is ApRead || op is ApWrite) ==> {
            let a = op_step_spec(op, step, res);
            a is ReadAp || a is WriteAp || a is Done
        },
        (op is DpRead || op is ApRead) ==> op_step_spec(op, 1, Ok(seq![w])) == SwdActionView::Done(
            Ok(
                Some(
                    seq![
                        (w & 0xFF) as u8,
                        ((w >> 8u32) & 0xFF) as u8,
                        ((w >> 16u32) & 0xFF) as u8,
                        (w >> 24u32) as u8,
                    ],
                ),
            ),
        ),
{
    assert(words_bytes(seq![w]) =~= bytes32(w)) by {
        let s = seq![w];
        assert(s.drop_last() =~= Seq::<u32>::empty());
        assert(s.last() == w);
        assert(words_bytes(s.drop_last()) =~= Seq::<u8>::empty());
        assert(words_bytes(s) == words_bytes(s.drop_last()) + bytes32(s.last()));
    }
}

/// Each register write of a multi-register write that is carried out goes
/// to the port its record names, with the record's register and word: a
/// DP record to the Debug Port, an AP record to AP 0.
pub proof fn lemma_multi_reg_writes_follow_their_records(
    count: u16,
    data: Seq<MultiReg>,
    step: nat,
    res: Result<Seq<u32>, SwdError>,
)
    requires
        step < data.len(),
        step == 0 || res is Ok,
    ensures
        data[step as int].reg_type == RegType::Dp ==> op_step_spec(
            OpView::MultiRegWrite { count, data },
            step,
            res,
        ) == (SwdActionView::WriteDp { reg: data[step as int].reg, data: data[step as int].data }),
        data[step as int].reg_type == RegType::Ap ==> op_step_spec(
            OpView::MultiRegWrite { count, data },
            step,
            res,
        ) == (SwdActionView::WriteAp {
            ap: 0,
            reg: data[step as int].reg,
            data: data[step as int].data,
        }),
{
}

} // verus!
