use vstd::prelude::*;

use crate::codec::{c_text, encode, nul_free};
use crate::error::Error;
use crate::size_hint::SizeHint;

verus! {

/// One entry of the native engine's function table, with its arguments
/// already in the form the engine reads.
#[derive(Debug, PartialEq, Eq)]
pub enum NativeCall {
    Run,
    Terminate,
    Destroy,
    Navigate(Vec<u8>),
    SetTitle(Vec<u8>),
    SetSize(i32, i32, i32),
    GetWindow,
    Init(Vec<u8>),
    Eval(Vec<u8>),
    Dispatch,
    Bind(Vec<u8>),
    Return(Vec<u8>, i32, Vec<u8>),
}

/// An operation that a handle forwards to the engine, with its arguments as
/// the caller gave them.
#[derive(Debug, PartialEq, Eq)]
pub enum Op {
    Terminate,
    SetTitle(String),
    SetSize(i32, i32, SizeHint),
    GetWindow,
    Init(String),
    Eval(String),
    Dispatch,
    Bind(String),
    Return(String, i32, String),
}

impl Op {
    /// Every text argument of the operation can cross the native boundary.
    pub open spec fn texts_ok(self) -> bool {
        match self {
            Op::SetTitle(t) => nul_free(t@),
            Op::Init(t) => nul_free(t@),
            Op::Eval(t) => nul_free(t@),
            Op::Bind(n) => nul_free(n@),
            Op::Return(q, _, t) => nul_free(q@) && nul_free(t@),
            _ => true,
        }
    }

    /// `c` is the native call that carries out this operation.
    pub open spec fn is_call_for(self, c: NativeCall) -> bool {
        match (self, c) {
            (Op::Terminate, NativeCall::Terminate) => true,
            (Op::SetTitle(t), NativeCall::SetTitle(b)) => b@ == c_text(t@),
            (Op::SetSize(w, h, k), NativeCall::SetSize(w2, h2, k2)) => w2 == w && h2 == h
                && k2 == k.wire(),
            (Op::GetWindow, NativeCall::GetWindow) => true,
            (Op::Init(t), NativeCall::Init(b)) => b@ == c_text(t@),
            (Op::Eval(t), NativeCall::Eval(b)) => b@ == c_text(t@),
            (Op::Dispatch, NativeCall::Dispatch) => true,
            (Op::Bind(n), NativeCall::Bind(b)) => b@ == c_text(n@),
            (Op::Return(q, st, t), NativeCall::Return(bq, st2, bt)) => bq@ == c_text(q@) && st2
                == st && bt@ == c_text(t@),
            _ => false,
        }
    }

    /// The operation is one that a weak handle offers.
    pub open spec fn is_weak_op(self) -> bool {
        match self {
            Op::Terminate | Op::GetWindow | Op::Dispatch | Op::Bind(_) | Op::Return(..) => true,
            _ => false,
        }
    }
}

/// `r` is what the operation `op` comes to on an engine that is alive or not:
/// liveness is checked first, then the text arguments, and only then is a
/// native call produced.
pub open spec fn planned(op: Op, alive: bool, r: Result<NativeCall, Error>) -> bool {
    if !alive {
        r == Err::<NativeCall, Error>(Error::HandleExpired)
    } else if !op.texts_ok() {
        r == Err::<NativeCall, Error>(Error::EncodingError)
    } else {
        r matches Ok(c) && op.is_call_for(c)
    }
}

/// Encodes both texts of a `return`, the sequence id first.
fn encode_pair(q: &str, t: &str) -> (r: Result<(Vec<u8>, Vec<u8>), Error>)
    ensures
        (nul_free(q@) && nul_free(t@)) <==> r is Ok,
        r matches Ok(p) ==> p.0@ == c_text(q@) && p.1@ == c_text(t@),
        r matches Err(e) ==> e == Error::EncodingError,
{
    let bq = match encode(q) {
        Ok(b) => b,
        Err(e) => return Err(e),
    };
    let bt = match encode(t) {
        Ok(b) => b,
        Err(e) => return Err(e),
    };
    Ok((bq, bt))
}

/// Decides the native call for `op` on an engine that is `alive` or not,
/// failing before any call when the engine is gone or a text cannot be encoded.
pub fn plan(op: &Op, alive: bool) -> (r: Result<NativeCall, Error>)
    ensures
        planned(*op, alive, r),
{
    if !alive {
        return Err(Error::HandleExpired);
    }
    match op {
        Op::Terminate => Ok(NativeCall::Terminate),
        Op::SetTitle(t) => match encode(t.as_str()) {
            Ok(b) => Ok(NativeCall::SetTitle(b)),
            Err(e) => Err(e),
        },
        Op::SetSize(w, h, k) => Ok(NativeCall::SetSize(*w, *h, k.to_wire())),
        Op::GetWindow => Ok(NativeCall::GetWindow),
        Op::Init(t) => match encode(t.as_str()) {
            Ok(b) => Ok(NativeCall::Init(b)),
            Err(e) => Err(e),
        },
        Op::Eval(t) => match encode(t.as_str()) {
            Ok(b) => Ok(NativeCall::Eval(b)),
            Err(e) => Err(e),
        },
        Op::Dispatch => Ok(NativeCall::Dispatch),
        Op::Bind(n) => match encode(n.as_str()) {
            Ok(b) => Ok(NativeCall::Bind(b)),
            Err(e) => Err(e),
        },
        Op::Return(q, st, t) => match encode_pair(q.as_str(), t.as_str()) {
            Ok(p) => Ok(NativeCall::Return(p.0, *st, p.1)),
            Err(e) => Err(e),
        },
    }
}

} // verus!
