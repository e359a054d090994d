//! Callback protocols and their bridge to C.

use vstd::prelude::*;
use vstd::string::StringExecFns;
use crate::swift_plan::{SwiftCallback, SwiftCallbackMethod, SwiftCallbackParam, SwiftReturn};

verus! {

pub open spec fn callback_param_text(p: SwiftCallbackParam) -> Seq<char> {
    p.label@ + ": "@ + p.swift_type@
}

pub open spec fn callback_params_text(ps: Seq<SwiftCallbackParam>) -> Seq<char>
    decreases ps.len(),
{
    if ps.len() == 0 {
        Seq::empty()
    } else if ps.len() == 1 {
        callback_param_text(ps[0])
    } else {
        callback_params_text(ps.drop_last()) + ", "@ + callback_param_text(ps.last())
    }
}

pub open spec fn callback_return_text(r: SwiftReturn) -> Seq<char> {
    match r {
        SwiftReturn::Void => Seq::empty(),
        SwiftReturn::Direct { swift_type } => " -> "@ + swift_type@,
        SwiftReturn::FromWireBuffer { swift_type, .. } => " -> "@ + swift_type@,
    }
}

/// One requirement of the protocol.
pub open spec fn protocol_requirement(m: SwiftCallbackMethod) -> Seq<char> {
    "    func "@ + m.swift_name@ + "("@ + callback_params_text(m.params@) + ")"@ + (if m.is_async {
        " async"@
    } else {
        Seq::empty()
    }) + callback_return_text(m.returns) + "\n"@
}

pub open spec fn protocol_requirements(ms: Seq<SwiftCallbackMethod>) -> Seq<char>
    decreases ms.len(),
{
    if ms.len() == 0 {
        Seq::empty()
    } else {
        protocol_requirements(ms.drop_last()) + protocol_requirement(ms.last())
    }
}

/// `, a, b` for the C arguments of one parameter.
pub open spec fn ffi_arg_list(args: Seq<String>) -> Seq<char>
    decreases args.len(),
{
    if args.len() == 0 {
        Seq::empty()
    } else {
        ffi_arg_list(args.drop_last()) + ", "@ + args.last()@
    }
}

/// The C arguments of all parameters, each preceded by `, `.
pub open spec fn ffi_args_of(ps: Seq<SwiftCallbackParam>) -> Seq<char>
    decreases ps.len(),
{
    if ps.len() == 0 {
        Seq::empty()
    } else {
        ffi_args_of(ps.drop_last()) + ffi_arg_list(ps.last().ffi_args@)
    }
}

/// The decoding lines of the parameters that need one.
pub open spec fn decode_preludes(ps: Seq<SwiftCallbackParam>) -> Seq<char>
    decreases ps.len(),
{
    if ps.len() == 0 {
        Seq::empty()
    } else {
        decode_preludes(ps.drop_last()) + (match ps.last().decode_prelude {
            Some(d) => "        "@ + d@ + "\n"@,
            None => Seq::empty(),
        })
    }
}

pub open spec fn callback_call_arg(p: SwiftCallbackParam) -> Seq<char> {
    p.label@ + ": "@ + p.call_arg@
}

pub open spec fn callback_call_args(ps: Seq<SwiftCallbackParam>) -> Seq<char>
    decreases ps.len(),
{
    if ps.len() == 0 {
        Seq::empty()
    } else if ps.len() == 1 {
        callback_call_arg(ps[0])
    } else {
        callback_call_args(ps.drop_last()) + ", "@ + callback_call_arg(ps.last())
    }
}

/// One entry of the vtable: a closure that takes the C arguments, decodes them, and
/// calls the Swift implementation, storing its result through the out pointer where
/// the method has one.
pub open spec fn vtable_entry(m: SwiftCallbackMethod, wrapper: Seq<char>) -> Seq<char> {
    "    "@ + m.ffi_name@ + ": { handle"@ + ffi_args_of(m.params@) + (if m.has_out_param {
        ", out"@
    } else {
        Seq::empty()
    }) + " in\n"@ + decode_preludes(m.params@) + "        let wrapper = Unmanaged<"@ + wrapper
        + ">.fromOpaque(handle!).takeUnretainedValue()\n        "@ + (if m.has_out_param {
        "out!.pointee = "@
    } else if m.returns is Void {
        Seq::empty()
    } else {
        "return "@
    }) + "wrapper.inner."@ + m.swift_name@ + "("@ + callback_call_args(m.params@) + ")\n    },\n"@
}

pub open spec fn vtable_entries(ms: Seq<SwiftCallbackMethod>, wrapper: Seq<char>) -> Seq<char>
    decreases ms.len(),
{
    if ms.len() == 0 {
        Seq::empty()
    } else {
        vtable_entries(ms.drop_last(), wrapper) + vtable_entry(ms.last(), wrapper)
    }
}

/// The protocol, the wrapper class that holds an implementation, the vtable that C
/// calls through, and the bridge that registers the vtable and wraps implementations.
#[verifier::opaque]
pub open spec fn callback_text(cb: SwiftCallback) -> Seq<char> {
    "public protocol "@ + cb.protocol_name@ + ": AnyObject {\n"@ + protocol_requirements(
        cb.methods@,
    ) + "}\n\nfinal class "@ + cb.wrapper_class@ + " {\n    let inner: "@ + cb.protocol_name@
        + "\n\n    init(_ inner: "@ + cb.protocol_name@
        + ") {\n        self.inner = inner\n    }\n}\n\nprivate var "@ + cb.vtable_var@ + " = "@
        + cb.vtable_type@ + "(\n"@ + vtable_entries(cb.methods@, cb.wrapper_class@)
        + ")\n\npublic enum "@ + cb.bridge_name@
        + " {\n    public static func register() {\n        "@ + cb.register_fn@ + "(&"@
        + cb.vtable_var@ + ")\n    }\n\n    public static func create(_ value: "@
        + cb.protocol_name@ + ") -> OpaquePointer {\n        return "@ + cb.create_fn@
        + "(Unmanaged.passRetained("@ + cb.wrapper_class@ + "(value)).toOpaque())\n    }\n}\n"@
}

fn push_callback_params(out: &mut String, params: &[SwiftCallbackParam])
    ensures
        final(out)@ == old(out)@ + callback_params_text(params@),
{
    let ghost start = out@;
    let mut i: usize = 0;
    while i < params.len()
        invariant
            i <= params@.len(),
            out@ == start + callback_params_text(params@.take(i as int)),
        decreases params.len() - i,
    {
        assert(params@.take(i + 1).drop_last() =~= params@.take(i as int));
        if i > 0 {
            out.append(", ");
        }
        out.append(params[i].label.as_str());
        out.append(": ");
        out.append(params[i].swift_type.as_str());
        i = i + 1;
        assert(out@ =~= start + callback_params_text(params@.take(i as int)));
    }
    assert(params@.take(i as int) =~= params@);
}

fn push_callback_call_args(out: &mut String, params: &[SwiftCallbackParam])
    ensures
        final(out)@ == old(out)@ + callback_call_args(params@),
{
    let ghost start = out@;
    let mut i: usize = 0;
    while i < params.len()
        invariant
            i <= params@.len(),
            out@ == start + callback_call_args(params@.take(i as int)),
        decreases params.len() - i,
    {
        assert(params@.take(i + 1).drop_last() =~= params@.take(i as int));
        if i > 0 {
            out.append(", ");
        }
        out.append(params[i].label.as_str());
        out.append(": ");
        out.append(params[i].call_arg.as_str());
        i = i + 1;
        assert(out@ =~= start + callback_call_args(params@.take(i as int)));
    }
    assert(params@.take(i as int) =~= params@);
}

fn push_ffi_arg_list(out: &mut String, args: &[String])
    ensures
        final(out)@ == old(out)@ + ffi_arg_list(args@),
{
    let ghost start = out@;
    let mut i: usize = 0;
    while i < args.len()
        invariant
            i <= args@.len(),
            out@ == start + ffi_arg_list(args@.take(i as int)),
        decreases args.len() - i,
    {
        assert(args@.take(i + 1).drop_last() =~= args@.take(i as int));
        out.append(", ");
        out.append(args[i].as_str());
        i = i + 1;
        assert(out@ =~= start + ffi_arg_list(args@.take(i as int)));
    }
    assert(args@.take(i as int) =~= args@);
}

fn push_ffi_args_of(out: &mut String, params: &[SwiftCallbackParam])
    ensures
        final(out)@ == old(out)@ + ffi_args_of(params@),
{
    let ghost start = out@;
    let mut i: usize = 0;
    while i < params.len()
        invariant
            i <= params@.len(),
            out@ == start + ffi_args_of(params@.take(i as int)),
        decreases params.len() - i,
    {
        assert(params@.take(i + 1).drop_last() =~= params@.take(i as int));
        push_ffi_arg_list(out, params[i].ffi_args.as_slice());
        i = i + 1;
        assert(out@ =~= start + ffi_args_of(params@.take(i as int)));
    }
    assert(params@.take(i as int) =~= params@);
}

fn push_decode_preludes(out: &mut String, params: &[SwiftCallbackParam])
    ensures
        final(out)@ == old(out)@ + decode_preludes(params@),
{
    let ghost start = out@;
    let mut i: usize = 0;
    while i < params.len()
        invariant
            i <= params@.len(),
            out@ == start + decode_preludes(params@.take(i as int)),
        decreases params.len() - i,
    {
        assert(params@.take(i + 1).drop_last() =~= params@.take(i as int));
        match &params[i].decode_prelude {
            Some(d) => {
                out.append("        ");
                out.append(d.as_str());
                out.append("\n");
            },
            None => {},
        }
        i = i + 1;
        assert(out@ =~= start + decode_preludes(params@.take(i as int)));
    }
    assert(params@.take(i as int) =~= params@);
}

fn push_protocol_requirements(out: &mut String, methods: &[SwiftCallbackMethod])
    ensures
        final(out)@ == old(out)@ + protocol_requirements(methods@),
{
    let ghost start = out@;
    let mut i: usize = 0;
    while i < methods.len()
        invariant
            i <= methods@.len(),
            out@ == start + protocol_requirements(methods@.take(i as int)),
        decreases methods.len() - i,
    {
        assert(methods@.take(i + 1).drop_last() =~= methods@.take(i as int));
        let ghost before = out@;
        let m = &methods[i];
        out.append("    func ");
        out.append(m.swift_name.as_str());
        out.append("(");
        push_callback_params(out, m.params.as_slice());
        out.append(")");
        if m.is_async {
            out.append(" async");
        }
        match &m.returns {
            SwiftReturn::Void => {},
            SwiftReturn::Direct { swift_type } => {
                out.append(" -> ");
                out.append(swift_type.as_str());
            },
            SwiftReturn::FromWireBuffer { swift_type, .. } => {
                out.append(" -> ");
                out.append(swift_type.as_str());
            },
        }
        out.append("\n");
        assert(out@ =~= before + protocol_requirement(methods@[i as int]));
        i = i + 1;
        assert(out@ =~= start + protocol_requirements(methods@.take(i as int)));
    }
    assert(methods@.take(i as int) =~= methods@);
}

/// What a vtable closure does with the value of the implementation's call.
pub open spec fn result_sink(m: SwiftCallbackMethod) -> Seq<char> {
    if m.has_out_param {
        "out!.pointee = "@
    } else if m.returns is Void {
        Seq::empty()
    } else {
        "return "@
    }
}

proof fn lemma_vtable_entry_parts(m: SwiftCallbackMethod, wrapper: Seq<char>)
    ensures
        vtable_entry(m, wrapper) == ("    "@ + m.ffi_name@ + ": { handle"@ + ffi_args_of(m.params@)
            + (if m.has_out_param {
            ", out"@
        } else {
            Seq::empty()
        }) + " in\n"@) + decode_preludes(m.params@) + ("        let wrapper = Unmanaged<"@
            + wrapper + ">.fromOpaque(handle!).takeUnretainedValue()\n        "@ + result_sink(m)
            + "wrapper.inner."@ + m.swift_name@ + "("@ + callback_call_args(m.params@)
            + ")\n    },\n"@),
{
    assert(vtable_entry(m, wrapper) =~= ("    "@ + m.ffi_name@ + ": { handle"@ + ffi_args_of(
        m.params@,
    ) + (if m.has_out_param {
        ", out"@
    } else {
        Seq::empty()
    }) + " in\n"@) + decode_preludes(m.params@) + ("        let wrapper = Unmanaged<"@ + wrapper
        + ">.fromOpaque(handle!).takeUnretainedValue()\n        "@ + result_sink(m)
        + "wrapper.inner."@ + m.swift_name@ + "("@ + callback_call_args(m.params@)
        + ")\n    },\n"@));
}

fn push_vtable_entry(out: &mut String, m: &SwiftCallbackMethod, wrapper: &str)
    ensures
        final(out)@ == old(out)@ + vtable_entry(*m, wrapper@),
{
    let ghost before = out@;
    let mut head = "    ".to_owned();
    head.append(m.ffi_name.as_str());
    head.append(": { handle");
    push_ffi_args_of(&mut head, m.params.as_slice());
    if m.has_out_param {
        head.append(", out");
    }
    head.append(" in\n");
    let mut tail = "        let wrapper = Unmanaged<".to_owned();
    tail.append(wrapper);
    tail.append(">.fromOpaque(handle!).takeUnretainedValue()\n        ");
    if m.has_out_param {
        tail.append("out!.pointee = ");
    } else {
        match &m.returns {
            SwiftReturn::Void => {},
            _ => tail.append("return "),
        }
    }
    tail.append("wrapper.inner.");
    tail.append(m.swift_name.as_str());
    tail.append("(");
    push_callback_call_args(&mut tail, m.params.as_slice());
    tail.append(")\n    },\n");
    out.append(head.as_str());
    push_decode_preludes(out, m.params.as_slice());
    out.append(tail.as_str());
    proof {
        lemma_vtable_entry_parts(*m, wrapper@);
    }
    assert(out@ =~= before + vtable_entry(*m, wrapper@));
}

fn push_vtable_entries(out: &mut String, methods: &[SwiftCallbackMethod], wrapper: &str)
    ensures
        final(out)@ == old(out)@ + vtable_entries(methods@, wrapper@),
{
    let ghost start = out@;
    let mut i: usize = 0;
    while i < methods.len()
        invariant
            i <= methods@.len(),
            out@ == start + vtable_entries(methods@.take(i as int), wrapper@),
        decreases methods.len() - i,
    {
        assert(methods@.take(i + 1).drop_last() =~= methods@.take(i as int));
        push_vtable_entry(out, &methods[i], wrapper);
        i = i + 1;
        assert(out@ =~= start + vtable_entries(methods@.take(i as int), wrapper@));
    }
    assert(methods@.take(i as int) =~= methods@);
}

/// The values the callback template prints.
pub struct CallbackTemplate<'a> {
    pub callback: &'a SwiftCallback,
}

impl<'a> CallbackTemplate<'a> {
    pub fn new(callback: &'a SwiftCallback) -> (r: Self)
        ensures
            r.callback == callback,
    {
        Self { callback }
    }

    pub fn render(&self) -> (r: String)
        ensures
            r@ == callback_text(*self.callback),
    {
        proof {
            reveal(callback_text);
        }
        let cb = self.callback;
        let mut out = "public protocol ".to_owned();
        out.append(cb.protocol_name.as_str());
        out.append(": AnyObject {\n");
        push_protocol_requirements(&mut out, cb.methods.as_slice());
        out.append("}\n\nfinal class ");
        out.append(cb.wrapper_class.as_str());
        out.append(" {\n    let inner: ");
        out.append(cb.protocol_name.as_str());
        out.append("\n\n    init(_ inner: ");
        out.append(cb.protocol_name.as_str());
        out.append(") {\n        self.inner = inner\n    }\n}\n\nprivate var ");
        out.append(cb.vtable_var.as_str());
        out.append(" = ");
        out.append(cb.vtable_type.as_str());
        out.append("(\n");
        push_vtable_entries(&mut out, cb.methods.as_slice(), cb.wrapper_class.as_str());
        out.append(")\n\npublic enum ");
        out.append(cb.bridge_name.as_str());
        out.append(" {\n    public static func register() {\n        ");
        out.append(cb.register_fn.as_str());
        out.append("(&");
        out.append(cb.vtable_var.as_str());
        out.append(")\n    }\n\n    public static func create(_ value: ");
        out.append(cb.protocol_name.as_str());
        out.append(") -> OpaquePointer {\n        return ");
        out.append(cb.create_fn.as_str());
        out.append("(Unmanaged.passRetained(");
        out.append(cb.wrapper_class.as_str());
        out.append("(value)).toOpaque())\n    }\n}\n");
        out
    }
}

/// The Swift protocol and bridge for a callback of the plan.
pub fn render_callback(callback: &SwiftCallback) -> (r: String)
    ensures
        r@ == callback_text(*callback),
{
    CallbackTemplate::new(callback).render()
}

} // verus!
