//! Calls of C functions, and top-level functions.

use vstd::prelude::*;
use vstd::string::StringExecFns;
use crate::swift_plan::{SwiftAsyncResult, SwiftCallMode, SwiftConversion, SwiftFunction, SwiftParam, SwiftReturn};

verus! {

/// `label name: Type` (the label only where there is one).
pub open spec fn param_text(p: SwiftParam) -> Seq<char> {
    (match p.label {
        Some(l) => l@ + " "@,
        None => Seq::empty(),
    }) + p.name@ + ": "@ + p.swift_type@
}

pub open spec fn params_text(ps: Seq<SwiftParam>) -> Seq<char>
    decreases ps.len(),
{
    if ps.len() == 0 {
        Seq::empty()
    } else if ps.len() == 1 {
        param_text(ps[0])
    } else {
        params_text(ps.drop_last()) + ", "@ + param_text(ps.last())
    }
}

/// The argument passed for a parameter: as is, or wire-encoded.
pub open spec fn arg_text(p: SwiftParam) -> Seq<char> {
    match p.conversion {
        SwiftConversion::ToWireBuffer { .. } => "WireBuffer.encode("@ + p.name@ + ")"@,
        _ => p.name@,
    }
}

pub open spec fn args_text(ps: Seq<SwiftParam>) -> Seq<char>
    decreases ps.len(),
{
    if ps.len() == 0 {
        Seq::empty()
    } else if ps.len() == 1 {
        arg_text(ps[0])
    } else {
        args_text(ps.drop_last()) + ", "@ + arg_text(ps.last())
    }
}

/// The arguments of the C call, with the object handle first for an instance method.
pub open spec fn call_args_text(with_handle: bool, ps: Seq<SwiftParam>) -> Seq<char> {
    if with_handle {
        if ps.len() == 0 {
            "handle"@
        } else {
            "handle, "@ + args_text(ps)
        }
    } else {
        args_text(ps)
    }
}

/// The Swift return type of a call, where it has one.
pub open spec fn return_type_of(mode: SwiftCallMode, ret_kind: SwiftReturn) -> Option<Seq<char>> {
    match mode {
        SwiftCallMode::Sync { .. } => match ret_kind {
            SwiftReturn::Void => None,
            SwiftReturn::Direct { swift_type } => Some(swift_type@),
            SwiftReturn::FromWireBuffer { swift_type, .. } => Some(swift_type@),
        },
        SwiftCallMode::Async { result, .. } => match *result {
            SwiftAsyncResult::Void => None,
            SwiftAsyncResult::Direct { swift_type } => Some(swift_type@),
            SwiftAsyncResult::Encoded { swift_type, .. } => Some(swift_type@),
        },
    }
}

/// What follows the parameter list: ` async throws` for an async call, then ` -> Type`.
pub open spec fn signature_tail(mode: SwiftCallMode, ret_kind: SwiftReturn) -> Seq<char> {
    (if mode is Async {
        " async throws"@
    } else {
        Seq::empty()
    }) + (match return_type_of(mode, ret_kind) {
        Some(t) => " -> "@ + t,
        None => Seq::empty(),
    })
}

/// The C call itself: `symbol(args)`.
pub open spec fn c_call(symbol: Seq<char>, with_handle: bool, ps: Seq<SwiftParam>) -> Seq<char> {
    symbol + "("@ + call_args_text(with_handle, ps) + ")"@
}

/// A synchronous call: the result returned as is, or decoded from its wire buffer.
pub open spec fn sync_call_text(
    symbol: Seq<char>,
    ret_kind: SwiftReturn,
    with_handle: bool,
    ps: Seq<SwiftParam>,
    prefix: Seq<char>,
) -> Seq<char> {
    match ret_kind {
        SwiftReturn::Void => c_call(symbol, with_handle, ps),
        SwiftReturn::Direct { .. } => "return "@ + c_call(symbol, with_handle, ps),
        SwiftReturn::FromWireBuffer { .. } => "return WireBuffer.decode("@ + c_call(
            symbol,
            with_handle,
            ps,
        ) + ", free: "@ + prefix + "_free_buf_u8)"@,
    }
}

/// An asynchronous call, driven through its start, poll, complete, cancel and free
/// functions.
pub open spec fn async_call_text(
    start: Seq<char>,
    poll: Seq<char>,
    complete: Seq<char>,
    cancel: Seq<char>,
    free: Seq<char>,
    with_handle: bool,
    ps: Seq<SwiftParam>,
) -> Seq<char> {
    "return try await riffCall(start: { "@ + c_call(start, with_handle, ps) + " }, poll: "@ + poll
        + ", complete: "@ + complete + ", cancel: "@ + cancel + ", free: "@ + free + ")"@
}

/// The body of a call, one line at the given indentation.
pub open spec fn call_body(
    indent: Seq<char>,
    mode: SwiftCallMode,
    ret_kind: SwiftReturn,
    with_handle: bool,
    ps: Seq<SwiftParam>,
    prefix: Seq<char>,
) -> Seq<char> {
    indent + (match mode {
        SwiftCallMode::Sync { symbol } => sync_call_text(symbol@, ret_kind, with_handle, ps, prefix),
        SwiftCallMode::Async { start, poll, complete, cancel, free, .. } => async_call_text(
            start@,
            poll@,
            complete@,
            cancel@,
            free@,
            with_handle,
            ps,
        ),
    }) + "\n"@
}

/// A top-level Swift function forwarding to its C function.
#[verifier::opaque]
pub open spec fn function_text(f: SwiftFunction, prefix: Seq<char>) -> Seq<char> {
    "public func "@ + f.name@ + "("@ + params_text(f.params@) + ")"@ + signature_tail(f.mode, f.returns)
        + " {\n"@ + call_body("    "@, f.mode, f.returns, false, f.params@, prefix) + "}\n"@
}

pub(crate) fn push_params_text(out: &mut String, params: &[SwiftParam])
    ensures
        final(out)@ == old(out)@ + params_text(params@),
{
    let ghost start = out@;
    let mut i: usize = 0;
    while i < params.len()
        invariant
            i <= params@.len(),
            out@ == start + params_text(params@.take(i as int)),
        decreases params.len() - i,
    {
        assert(params@.take(i + 1).drop_last() =~= params@.take(i as int));
        let ghost before = out@;
        if i > 0 {
            out.append(", ");
        }
        let ghost mid = out@;
        match &params[i].label {
            Some(l) => {
                out.append(l.as_str());
                out.append(" ");
            },
            None => {},
        }
        out.append(params[i].name.as_str());
        out.append(": ");
        out.append(params[i].swift_type.as_str());
        assert(out@ =~= mid + param_text(params@[i as int]));
        i = i + 1;
        assert(out@ =~= start + params_text(params@.take(i as int)));
    }
    assert(params@.take(i as int) =~= params@);
}

pub(crate) fn push_args_text(out: &mut String, params: &[SwiftParam])
    ensures
        final(out)@ == old(out)@ + args_text(params@),
{
    let ghost start = out@;
    let mut i: usize = 0;
    while i < params.len()
        invariant
            i <= params@.len(),
            out@ == start + args_text(params@.take(i as int)),
        decreases params.len() - i,
    {
        assert(params@.take(i + 1).drop_last() =~= params@.take(i as int));
        if i > 0 {
            out.append(", ");
        }
        let ghost mid = out@;
        match &params[i].conversion {
            SwiftConversion::ToWireBuffer { .. } => {
                out.append("WireBuffer.encode(");
                out.append(params[i].name.as_str());
                out.append(")");
            },
            _ => out.append(params[i].name.as_str()),
        }
        assert(out@ =~= mid + arg_text(params@[i as int]));
        i = i + 1;
        assert(out@ =~= start + args_text(params@.take(i as int)));
    }
    assert(params@.take(i as int) =~= params@);
}

fn push_call_args(out: &mut String, with_handle: bool, params: &[SwiftParam])
    ensures
        final(out)@ == old(out)@ + call_args_text(with_handle, params@),
{
    if with_handle {
        if params.len() == 0 {
            out.append("handle");
        } else {
            out.append("handle, ");
            push_args_text(out, params);
            assert(final(out)@ =~= old(out)@ + call_args_text(with_handle, params@));
        }
    } else {
        push_args_text(out, params);
    }
}

pub(crate) fn push_signature_tail(out: &mut String, mode: &SwiftCallMode, ret_kind: &SwiftReturn)
    ensures
        final(out)@ == old(out)@ + signature_tail(*mode, *ret_kind),
{
    let ghost start = out@;
    let mut ret: Option<&String> = None;
    match mode {
        SwiftCallMode::Sync { .. } => match ret_kind {
            SwiftReturn::Void => {},
            SwiftReturn::Direct { swift_type } => ret = Some(swift_type),
            SwiftReturn::FromWireBuffer { swift_type, .. } => ret = Some(swift_type),
        },
        SwiftCallMode::Async { result, .. } => {
            out.append(" async throws");
            match &**result {
                SwiftAsyncResult::Void => {},
                SwiftAsyncResult::Direct { swift_type } => ret = Some(swift_type),
                SwiftAsyncResult::Encoded { swift_type, .. } => ret = Some(swift_type),
            }
        },
    }
    match ret {
        Some(t) => {
            out.append(" -> ");
            out.append(t.as_str());
        },
        None => {},
    }
    assert(out@ =~= start + signature_tail(*mode, *ret_kind));
}

fn push_c_call(out: &mut String, symbol: &str, with_handle: bool, params: &[SwiftParam])
    ensures
        final(out)@ == old(out)@ + c_call(symbol@, with_handle, params@),
{
    let ghost before = out@;
    out.append(symbol);
    out.append("(");
    push_call_args(out, with_handle, params);
    out.append(")");
    assert(out@ =~= before + c_call(symbol@, with_handle, params@));
}

fn push_sync_call(
    out: &mut String,
    symbol: &str,
    ret_kind: &SwiftReturn,
    with_handle: bool,
    params: &[SwiftParam],
    prefix: &str,
)
    ensures
        final(out)@ == old(out)@ + sync_call_text(symbol@, *ret_kind, with_handle, params@, prefix@),
{
    let ghost before = out@;
    match ret_kind {
        SwiftReturn::Void => push_c_call(out, symbol, with_handle, params),
        SwiftReturn::Direct { .. } => {
            out.append("return ");
            push_c_call(out, symbol, with_handle, params);
        },
        SwiftReturn::FromWireBuffer { .. } => {
            out.append("return WireBuffer.decode(");
            push_c_call(out, symbol, with_handle, params);
            out.append(", free: ");
            out.append(prefix);
            out.append("_free_buf_u8)");
        },
    }
    assert(out@ =~= before + sync_call_text(symbol@, *ret_kind, with_handle, params@, prefix@));
}

fn push_async_call(
    out: &mut String,
    start: &str,
    poll: &str,
    complete: &str,
    cancel: &str,
    free: &str,
    with_handle: bool,
    params: &[SwiftParam],
)
    ensures
        final(out)@ == old(out)@ + async_call_text(
            start@,
            poll@,
            complete@,
            cancel@,
            free@,
            with_handle,
            params@,
        ),
{
    let ghost before = out@;
    out.append("return try await riffCall(start: { ");
    push_c_call(out, start, with_handle, params);
    out.append(" }, poll: ");
    out.append(poll);
    out.append(", complete: ");
    out.append(complete);
    out.append(", cancel: ");
    out.append(cancel);
    out.append(", free: ");
    out.append(free);
    out.append(")");
    assert(out@ =~= before + async_call_text(
        start@,
        poll@,
        complete@,
        cancel@,
        free@,
        with_handle,
        params@,
    ));
}

pub(crate) fn push_call_body(
    out: &mut String,
    indent: &str,
    mode: &SwiftCallMode,
    ret_kind: &SwiftReturn,
    with_handle: bool,
    params: &[SwiftParam],
    prefix: &str,
)
    ensures
        final(out)@ == old(out)@ + call_body(indent@, *mode, *ret_kind, with_handle, params@, prefix@),
{
    let ghost before = out@;
    out.append(indent);
    match mode {
        SwiftCallMode::Sync { symbol } => {
            push_sync_call(out, symbol.as_str(), ret_kind, with_handle, params, prefix);
        },
        SwiftCallMode::Async { start, poll, complete, cancel, free, .. } => {
            push_async_call(
                out,
                start.as_str(),
                poll.as_str(),
                complete.as_str(),
                cancel.as_str(),
                free.as_str(),
                with_handle,
                params,
            );
        },
    }
    out.append("\n");
    assert(out@ =~= before + call_body(indent@, *mode, *ret_kind, with_handle, params@, prefix@));
}

/// The values the function template prints.
pub struct FunctionTemplate<'a> {
    pub func: &'a SwiftFunction,
    pub prefix: &'a str,
}

impl<'a> FunctionTemplate<'a> {
    pub fn new(func: &'a SwiftFunction, prefix: &'a str) -> (r: Self)
        ensures
            r.func == func,
            r.prefix == prefix,
    {
        Self { func, prefix }
    }

    pub fn render(&self) -> (r: String)
        ensures
            r@ == function_text(*self.func, self.prefix@),
    {
        proof {
            reveal(function_text);
        }
        let f = self.func;
        let mut out = "public func ".to_owned();
        out.append(f.name.as_str());
        out.append("(");
        push_params_text(&mut out, f.params.as_slice());
        out.append(")");
        push_signature_tail(&mut out, &f.mode, &f.returns);
        out.append(" {\n");
        push_call_body(&mut out, "    ", &f.mode, &f.returns, false, f.params.as_slice(), self.prefix);
        out.append("}\n");
        out
    }
}

/// The Swift function for a function of the plan.
pub fn render_function(func: &SwiftFunction, prefix: &str) -> (r: String)
    ensures
        r@ == function_text(*func, prefix@),
{
    FunctionTemplate::new(func, prefix).render()
}

} // verus!
