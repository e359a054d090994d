//! Classes wrapping an object handle.

use vstd::prelude::*;
use vstd::string::StringExecFns;
use crate::swift_plan::{SwiftClass, SwiftConstructor, SwiftMethod, SwiftStream};
use crate::templates::function::{args_text, call_body, params_text, push_args_text, push_call_body, push_params_text, push_signature_tail, signature_tail};

verus! {

pub open spec fn throws_text(fallible: bool) -> Seq<char> {
    if fallible {
        " throws"@
    } else {
        Seq::empty()
    }
}

pub open spec fn try_text(fallible: bool) -> Seq<char> {
    if fallible {
        "try "@
    } else {
        Seq::empty()
    }
}

/// A designated initializer, or a static factory method, forwarding to its C function.
pub open spec fn constructor_text(c: SwiftConstructor, class_name: Seq<char>) -> Seq<char> {
    match c {
        SwiftConstructor::Designated { ffi_symbol, params, is_fallible, .. } =>
            "\n    public convenience init("@ + params_text(params@) + ")"@ + throws_text(is_fallible)
            + " {\n        self.init(handle: "@ + try_text(is_fallible) + ffi_symbol@ + "("@
            + args_text(params@) + "))\n    }\n"@,
        SwiftConstructor::Factory { name, ffi_symbol, params, is_fallible, .. } =>
            "\n    public static func "@ + name@ + "("@ + params_text(params@) + ")"@ + throws_text(
            is_fallible,
        ) + " -> "@ + class_name + " {\n        return "@ + try_text(is_fallible) + class_name
            + "(handle: "@ + ffi_symbol@ + "("@ + args_text(params@) + "))\n    }\n"@,
    }
}

pub open spec fn constructors_text(cs: Seq<SwiftConstructor>, class_name: Seq<char>) -> Seq<char>
    decreases cs.len(),
{
    if cs.len() == 0 {
        Seq::empty()
    } else {
        constructors_text(cs.drop_last(), class_name) + constructor_text(cs.last(), class_name)
    }
}

/// A method: an instance method passes the object handle first.
pub open spec fn method_text(m: SwiftMethod, prefix: Seq<char>) -> Seq<char> {
    "\n    public "@ + (if m.is_static {
        "static "@
    } else {
        Seq::empty()
    }) + "func "@ + m.name@ + "("@ + params_text(m.params@) + ")"@ + signature_tail(m.mode, m.returns)
        + " {\n"@ + call_body("        "@, m.mode, m.returns, !m.is_static, m.params@, prefix)
        + "    }\n"@
}

pub open spec fn methods_text(ms: Seq<SwiftMethod>, prefix: Seq<char>) -> Seq<char>
    decreases ms.len(),
{
    if ms.len() == 0 {
        Seq::empty()
    } else {
        methods_text(ms.drop_last(), prefix) + method_text(ms.last(), prefix)
    }
}

/// A stream: an `AsyncStream` fed through the C subscription functions.
pub open spec fn stream_text(st: SwiftStream) -> Seq<char> {
    "\n    public func "@ + st.name@ + "() -> AsyncStream<"@ + st.item_type@
        + "> {\n        return riffStream(handle: handle, subscribe: "@ + st.subscribe@ + ", poll: "@
        + st.poll@ + ", popBatch: "@ + st.pop_batch@ + ", wait: "@ + st.wait@ + ", unsubscribe: "@
        + st.unsubscribe@ + ", free: "@ + st.free@ + ", freeBuf: "@ + st.free_buf@ + ", cas: "@
        + st.atomic_cas@ + ") { wire in "@ + st.item_decode_expr@ + " }\n    }\n"@
}

pub open spec fn streams_text(ss: Seq<SwiftStream>) -> Seq<char>
    decreases ss.len(),
{
    if ss.len() == 0 {
        Seq::empty()
    } else {
        streams_text(ss.drop_last()) + stream_text(ss.last())
    }
}

/// A class owning an object handle, freed on `deinit`, with its constructors,
/// methods and streams.
#[verifier::opaque]
pub open spec fn class_text(cls: SwiftClass, prefix: Seq<char>) -> Seq<char> {
    "public final class "@ + cls.name@
        + " {\n    let handle: OpaquePointer\n\n    init(handle: OpaquePointer) {\n        self.handle = handle\n    }\n\n    deinit {\n        "@
        + cls.ffi_free@ + "(handle)\n    }\n"@ + constructors_text(cls.constructors@, cls.name@)
        + methods_text(cls.methods@, prefix) + streams_text(cls.streams@) + "}\n"@
}

fn push_constructor(out: &mut String, c: &SwiftConstructor, class_name: &str)
    ensures
        final(out)@ == old(out)@ + constructor_text(*c, class_name@),
{
    let ghost before = out@;
    match c {
        SwiftConstructor::Designated { ffi_symbol, params, is_fallible, .. } => {
            out.append("\n    public convenience init(");
            push_params_text(out, params.as_slice());
            out.append(")");
            if *is_fallible {
                out.append(" throws");
            }
            out.append(" {\n        self.init(handle: ");
            if *is_fallible {
                out.append("try ");
            }
            out.append(ffi_symbol.as_str());
            out.append("(");
            push_args_text(out, params.as_slice());
            out.append("))\n    }\n");
        },
        SwiftConstructor::Factory { name, ffi_symbol, params, is_fallible, .. } => {
            out.append("\n    public static func ");
            out.append(name.as_str());
            out.append("(");
            push_params_text(out, params.as_slice());
            out.append(")");
            if *is_fallible {
                out.append(" throws");
            }
            out.append(" -> ");
            out.append(class_name);
            out.append(" {\n        return ");
            if *is_fallible {
                out.append("try ");
            }
            out.append(class_name);
            out.append("(handle: ");
            out.append(ffi_symbol.as_str());
            out.append("(");
            push_args_text(out, params.as_slice());
            out.append("))\n    }\n");
        },
    }
    assert(out@ =~= before + constructor_text(*c, class_name@));
}

fn push_constructors(out: &mut String, cs: &[SwiftConstructor], class_name: &str)
    ensures
        final(out)@ == old(out)@ + constructors_text(cs@, class_name@),
{
    let ghost start = out@;
    let mut i: usize = 0;
    while i < cs.len()
        invariant
            i <= cs@.len(),
            out@ == start + constructors_text(cs@.take(i as int), class_name@),
        decreases cs.len() - i,
    {
        assert(cs@.take(i + 1).drop_last() =~= cs@.take(i as int));
        push_constructor(out, &cs[i], class_name);
        i = i + 1;
        assert(out@ =~= start + constructors_text(cs@.take(i as int), class_name@));
    }
    assert(cs@.take(i as int) =~= cs@);
}

fn push_method(out: &mut String, m: &SwiftMethod, prefix: &str)
    ensures
        final(out)@ == old(out)@ + method_text(*m, prefix@),
{
    let ghost before = out@;
    out.append("\n    public ");
    if m.is_static {
        out.append("static ");
    }
    out.append("func ");
    out.append(m.name.as_str());
    out.append("(");
    push_params_text(out, m.params.as_slice());
    out.append(")");
    push_signature_tail(out, &m.mode, &m.returns);
    out.append(" {\n");
    push_call_body(out, "        ", &m.mode, &m.returns, !m.is_static, m.params.as_slice(), prefix);
    out.append("    }\n");
    assert(out@ =~= before + method_text(*m, prefix@));
}

fn push_methods(out: &mut String, ms: &[SwiftMethod], prefix: &str)
    ensures
        final(out)@ == old(out)@ + methods_text(ms@, prefix@),
{
    let ghost start = out@;
    let mut i: usize = 0;
    while i < ms.len()
        invariant
            i <= ms@.len(),
            out@ == start + methods_text(ms@.take(i as int), prefix@),
        decreases ms.len() - i,
    {
        assert(ms@.take(i + 1).drop_last() =~= ms@.take(i as int));
        push_method(out, &ms[i], prefix);
        i = i + 1;
        assert(out@ =~= start + methods_text(ms@.take(i as int), prefix@));
    }
    assert(ms@.take(i as int) =~= ms@);
}

fn push_stream(out: &mut String, st: &SwiftStream)
    ensures
        final(out)@ == old(out)@ + stream_text(*st),
{
    let ghost before = out@;
    out.append("\n    public func ");
    out.append(st.name.as_str());
    out.append("() -> AsyncStream<");
    out.append(st.item_type.as_str());
    out.append("> {\n        return riffStream(handle: handle, subscribe: ");
    out.append(st.subscribe.as_str());
    out.append(", poll: ");
    out.append(st.poll.as_str());
    out.append(", popBatch: ");
    out.append(st.pop_batch.as_str());
    out.append(", wait: ");
    out.append(st.wait.as_str());
    out.append(", unsubscribe: ");
    out.append(st.unsubscribe.as_str());
    out.append(", free: ");
    out.append(st.free.as_str());
    out.append(", freeBuf: ");
    out.append(st.free_buf.as_str());
    out.append(", cas: ");
    out.append(st.atomic_cas.as_str());
    out.append(") { wire in ");
    out.append(st.item_decode_expr.as_str());
    out.append(" }\n    }\n");
    assert(out@ =~= before + stream_text(*st));
}

fn push_streams(out: &mut String, ss: &[SwiftStream])
    ensures
        final(out)@ == old(out)@ + streams_text(ss@),
{
    let ghost start = out@;
    let mut i: usize = 0;
    while i < ss.len()
        invariant
            i <= ss@.len(),
            out@ == start + streams_text(ss@.take(i as int)),
        decreases ss.len() - i,
    {
        assert(ss@.take(i + 1).drop_last() =~= ss@.take(i as int));
        push_stream(out, &ss[i]);
        i = i + 1;
        assert(out@ =~= start + streams_text(ss@.take(i as int)));
    }
    assert(ss@.take(i as int) =~= ss@);
}

/// The values the class template prints.
pub struct ClassTemplate<'a> {
    pub cls: &'a SwiftClass,
    pub prefix: &'a str,
}

impl<'a> ClassTemplate<'a> {
    pub fn new(cls: &'a SwiftClass, prefix: &'a str) -> (r: Self)
        ensures
            r.cls == cls,
            r.prefix == prefix,
    {
        Self { cls, prefix }
    }

    pub fn render(&self) -> (r: String)
        ensures
            r@ == class_text(*self.cls, self.prefix@),
    {
        proof {
            reveal(class_text);
        }
        let cls = self.cls;
        let mut out = "public final class ".to_owned();
        out.append(cls.name.as_str());
        out.append(
            " {\n    let handle: OpaquePointer\n\n    init(handle: OpaquePointer) {\n        self.handle = handle\n    }\n\n    deinit {\n        ",
        );
        out.append(cls.ffi_free.as_str());
        out.append("(handle)\n    }\n");
        push_constructors(&mut out, cls.constructors.as_slice(), cls.name.as_str());
        push_methods(&mut out, cls.methods.as_slice(), self.prefix);
        push_streams(&mut out, cls.streams.as_slice());
        out.append("}\n");
        out
    }
}

/// The Swift class for a class of the plan.
pub fn render_class(cls: &SwiftClass, prefix: &str) -> (r: String)
    ensures
        r@ == class_text(*cls, prefix@),
{
    ClassTemplate::new(cls, prefix).render()
}

} // verus!
