//! Swift names, types and declarations for the exported module.

use vstd::prelude::*;
use vstd::string::StringExecFns;
use crate::model::{
    spec_is_c_style, Class, Constructor, Enumeration, Method, Module, Parameter, Primitive,
    Receiver, Record, RecordField, StreamMethod, Type, Variant,
};
use crate::text::{int_decimal, push_decimal_i64};
use crate::naming::{camel_case, pascal_case, snake_case, to_camel_case, to_pascal_case, to_snake_case};

verus! {

/// The Swift name of a primitive type.
pub open spec fn primitive_swift(p: Primitive) -> Seq<char> {
    match p {
        Primitive::Bool => "Bool"@,
        Primitive::I8 => "Int8"@,
        Primitive::I16 => "Int16"@,
        Primitive::I32 => "Int32"@,
        Primitive::I64 => "Int64"@,
        Primitive::U8 => "UInt8"@,
        Primitive::U16 => "UInt16"@,
        Primitive::U32 => "UInt32"@,
        Primitive::U64 => "UInt64"@,
        Primitive::F32 => "Float"@,
        Primitive::F64 => "Double"@,
        Primitive::Usize => "UInt"@,
        Primitive::Isize => "Int"@,
    }
}

/// The Swift spelling of a type. A result is spelt as its success type, since the
/// error travels as a thrown error.
pub open spec fn swift_type(t: Type) -> Seq<char>
    decreases t,
{
    match t {
        Type::Primitive(p) => primitive_swift(p),
        Type::String => "String"@,
        Type::Bytes => "Data"@,
        Type::Vec(inner) => "["@ + swift_type(*inner) + "]"@,
        Type::Option(inner) => swift_type(*inner) + "?"@,
        Type::Result { ok, .. } => swift_type(*ok),
        Type::Record(name) => pascal_case(name@),
        Type::Enum(name) => pascal_case(name@),
        Type::Object(name) => pascal_case(name@),
        Type::Void => "Void"@,
    }
}

/// `name: Type` for one parameter.
pub open spec fn param_decl(p: Parameter) -> Seq<char> {
    camel_case(p.name@) + ": "@ + swift_type(p.param_type)
}

/// The parameter declarations, joined by `, `.
pub open spec fn params_decl(ps: Seq<Parameter>) -> Seq<char>
    decreases ps.len(),
{
    if ps.len() == 0 {
        Seq::empty()
    } else if ps.len() == 1 {
        param_decl(ps[0])
    } else {
        params_decl(ps.drop_last()) + ", "@ + param_decl(ps.last())
    }
}

/// ` -> Type` where the method returns something other than the unit type.
pub open spec fn return_clause(output: Option<Type>) -> Seq<char> {
    match output {
        Some(t) => if t is Void {
            Seq::empty()
        } else {
            " -> "@ + swift_type(t)
        },
        None => Seq::empty(),
    }
}

/// `(params) async throws -> Type`, each modifier only where it applies.
pub open spec fn method_sig(m: Method) -> Seq<char> {
    "("@ + params_decl(m.inputs@) + ")"@ + (if m.is_async {
        " async"@
    } else {
        Seq::empty()
    }) + (if m.output matches Some(t) && t is Result {
        " throws"@
    } else {
        Seq::empty()
    }) + return_clause(m.output)
}

/// `    public var name: Type` and a line break.
pub open spec fn field_var_line(f: RecordField) -> Seq<char> {
    "    public var "@ + camel_case(f.name@) + ": "@ + swift_type(f.field_type) + "\n"@
}

pub open spec fn field_var_lines(fs: Seq<RecordField>) -> Seq<char>
    decreases fs.len(),
{
    if fs.len() == 0 {
        Seq::empty()
    } else {
        field_var_lines(fs.drop_last()) + field_var_line(fs.last())
    }
}

/// `name: Type` for one field.
pub open spec fn field_decl(f: RecordField) -> Seq<char> {
    camel_case(f.name@) + ": "@ + swift_type(f.field_type)
}

/// The field declarations, joined by `, `.
pub open spec fn field_decls(fs: Seq<RecordField>) -> Seq<char>
    decreases fs.len(),
{
    if fs.len() == 0 {
        Seq::empty()
    } else if fs.len() == 1 {
        field_decl(fs[0])
    } else {
        field_decls(fs.drop_last()) + ", "@ + field_decl(fs.last())
    }
}

/// `        self.name = name` and a line break.
pub open spec fn field_assign_line(f: RecordField) -> Seq<char> {
    "        self."@ + camel_case(f.name@) + " = "@ + camel_case(f.name@) + "\n"@
}

pub open spec fn field_assign_lines(fs: Seq<RecordField>) -> Seq<char>
    decreases fs.len(),
{
    if fs.len() == 0 {
        Seq::empty()
    } else {
        field_assign_lines(fs.drop_last()) + field_assign_line(fs.last())
    }
}

/// The Swift struct for a record: its stored properties and a memberwise initializer.
pub open spec fn record_source(r: Record) -> Seq<char> {
    "public struct "@ + pascal_case(r.name@) + " {\n"@ + field_var_lines(r.fields@)
        + "\n    public init("@ + field_decls(r.fields@) + ") {\n"@ + field_assign_lines(r.fields@)
        + "    }\n}\n"@
}

/// The raw value of the variant at `index`: its explicit discriminant, else its index.
pub open spec fn discriminant_of(v: Variant, index: int) -> int {
    match v.discriminant {
        Some(d) => d as int,
        None => index,
    }
}

/// `    case name = value` and a line break.
pub open spec fn c_case_line(v: Variant, index: int) -> Seq<char> {
    "    case "@ + camel_case(v.name@) + " = "@ + int_decimal(discriminant_of(v, index)) + "\n"@
}

pub open spec fn c_case_lines(vs: Seq<Variant>) -> Seq<char>
    decreases vs.len(),
{
    if vs.len() == 0 {
        Seq::empty()
    } else {
        c_case_lines(vs.drop_last()) + c_case_line(vs.last(), vs.len() - 1)
    }
}

/// `    case name` or `    case name(field: Type, ...)`, and a line break.
pub open spec fn data_case_line(v: Variant) -> Seq<char> {
    "    case "@ + camel_case(v.name@) + (if v.fields@.len() == 0 {
        Seq::empty()
    } else {
        "("@ + field_decls(v.fields@) + ")"@
    }) + "\n"@
}

pub open spec fn data_case_lines(vs: Seq<Variant>) -> Seq<char>
    decreases vs.len(),
{
    if vs.len() == 0 {
        Seq::empty()
    } else {
        data_case_lines(vs.drop_last()) + data_case_line(vs.last())
    }
}

/// The Swift enum: with `Int32` raw values where no variant carries a field, with
/// associated values otherwise.
pub open spec fn enum_source(e: Enumeration) -> Seq<char> {
    if spec_is_c_style(e.variants@) {
        "public enum "@ + pascal_case(e.name@) + ": Int32 {\n"@ + c_case_lines(e.variants@) + "}\n"@
    } else {
        "public enum "@ + pascal_case(e.name@) + " {\n"@ + data_case_lines(e.variants@) + "}\n"@
    }
}

/// The prefix of a class's C symbols within a module.
pub open spec fn class_prefix_of(c: Class, m: Module) -> Seq<char> {
    "mffi_"@ + snake_case(m.name@) + "_"@ + snake_case(c.name@)
}

/// The parameter names in camelCase, joined by `, `.
pub open spec fn call_args(ps: Seq<Parameter>) -> Seq<char>
    decreases ps.len(),
{
    if ps.len() == 0 {
        Seq::empty()
    } else if ps.len() == 1 {
        camel_case(ps[0].name@)
    } else {
        call_args(ps.drop_last()) + ", "@ + camel_case(ps.last().name@)
    }
}

/// The call of a method's C function: the object handle first (but for a static
/// method), then the arguments.
pub open spec fn method_call(m: Method, class_prefix: Seq<char>) -> Seq<char> {
    class_prefix + "_"@ + snake_case(m.name@) + "("@ + (if m.receiver is Static {
        call_args(m.inputs@)
    } else if m.inputs@.len() == 0 {
        "handle"@
    } else {
        "handle, "@ + call_args(m.inputs@)
    }) + ")"@
}

/// Whether the method hands back a value.
pub open spec fn returns_value(output: Option<Type>) -> bool {
    output matches Some(t) && !(t is Void)
}

/// The body of a method: the call, awaited through the poll function for an async
/// method, marked `try` where the method throws, returned where it has a value.
pub open spec fn method_body(m: Method, class_prefix: Seq<char>) -> Seq<char> {
    "        "@ + (if returns_value(m.output) {
        "return "@
    } else {
        Seq::empty()
    }) + (if m.output matches Some(t) && t is Result {
        "try "@
    } else {
        Seq::empty()
    }) + (if m.is_async {
        "await riffAwait(poll: "@ + class_prefix + "_"@ + snake_case(m.name@) + "_poll) { "@
            + method_call(m, class_prefix) + " }"@
    } else {
        method_call(m, class_prefix)
    }) + "\n"@
}

/// The body of a stream method: an `AsyncStream` fed by the C subscription.
pub open spec fn stream_body(st: StreamMethod, class_prefix: Seq<char>) -> Seq<char> {
    "        return AsyncStream { continuation in\n            "@ + class_prefix + "_"@ + snake_case(
        st.name@,
    ) + "_subscribe(handle, continuation)\n        }\n"@
}

pub open spec fn constructor_block(c: Constructor, class_prefix: Seq<char>) -> Seq<char> {
    "\n    public convenience init("@ + params_decl(c.inputs@) + ") {\n        self.init(handle: "@
        + class_prefix + "_new("@ + call_args(c.inputs@) + "))\n    }\n"@
}

pub open spec fn constructor_blocks(cs: Seq<Constructor>, class_prefix: Seq<char>) -> Seq<char>
    decreases cs.len(),
{
    if cs.len() == 0 {
        Seq::empty()
    } else {
        constructor_blocks(cs.drop_last(), class_prefix) + constructor_block(cs.last(), class_prefix)
    }
}

pub open spec fn method_block(m: Method, class_prefix: Seq<char>) -> Seq<char> {
    "\n    public "@ + (if m.receiver is Static {
        "static "@
    } else {
        Seq::empty()
    }) + "func "@ + camel_case(m.name@) + method_sig(m) + " {\n"@ + method_body(m, class_prefix)
        + "    }\n"@
}

pub open spec fn method_blocks(ms: Seq<Method>, class_prefix: Seq<char>) -> Seq<char>
    decreases ms.len(),
{
    if ms.len() == 0 {
        Seq::empty()
    } else {
        method_blocks(ms.drop_last(), class_prefix) + method_block(ms.last(), class_prefix)
    }
}

pub open spec fn stream_block(st: StreamMethod, class_prefix: Seq<char>) -> Seq<char> {
    "\n    public func "@ + camel_case(st.name@) + "() -> AsyncStream<"@ + swift_type(st.item_type)
        + "> {\n"@ + stream_body(st, class_prefix) + "    }\n"@
}

pub open spec fn stream_blocks(ss: Seq<StreamMethod>, class_prefix: Seq<char>) -> Seq<char>
    decreases ss.len(),
{
    if ss.len() == 0 {
        Seq::empty()
    } else {
        stream_blocks(ss.drop_last(), class_prefix) + stream_block(ss.last(), class_prefix)
    }
}

/// The Swift class for an exported class: it owns the object handle, frees it on
/// `deinit`, and forwards constructors, methods and streams to the C functions.
pub open spec fn class_source(c: Class, m: Module) -> Seq<char> {
    let cp = class_prefix_of(c, m);
    "public final class "@ + pascal_case(c.name@)
        + " {\n    private let handle: OpaquePointer\n\n    private init(handle: OpaquePointer) {\n        self.handle = handle\n    }\n\n    deinit {\n        "@
        + cp + "_free(handle)\n    }\n"@ + constructor_blocks(c.constructors@, cp) + method_blocks(
        c.methods@,
        cp,
    ) + stream_blocks(c.streams@, cp) + "}\n"@
}

fn push_call_args(out: &mut String, params: &[Parameter])
    ensures
        final(out)@ == old(out)@ + call_args(params@),
{
    let ghost start = out@;
    let mut i: usize = 0;
    while i < params.len()
        invariant
            i <= params@.len(),
            out@ == start + call_args(params@.take(i as int)),
        decreases params.len() - i,
    {
        assert(params@.take(i + 1).drop_last() =~= params@.take(i as int));
        if i > 0 {
            out.append(", ");
        }
        let name = to_camel_case(params[i].name.as_str());
        out.append(name.as_str());
        i = i + 1;
        assert(out@ =~= start + call_args(params@.take(i as int)));
    }
    assert(params@.take(i as int) =~= params@);
}

fn push_method_call(out: &mut String, method: &Method, class_prefix: &str)
    ensures
        final(out)@ == old(out)@ + method_call(*method, class_prefix@),
{
    out.append(class_prefix);
    out.append("_");
    let name = to_snake_case(method.name.as_str());
    out.append(name.as_str());
    out.append("(");
    match method.receiver {
        Receiver::Static => push_call_args(out, method.inputs.as_slice()),
        _ => {
            if method.inputs.len() == 0 {
                out.append("handle");
            } else {
                out.append("handle, ");
                push_call_args(out, method.inputs.as_slice());
            }
        },
    }
    out.append(")");
    assert(final(out)@ =~= old(out)@ + method_call(*method, class_prefix@));
}

fn push_method_body(out: &mut String, method: &Method, class_prefix: &str)
    ensures
        final(out)@ == old(out)@ + method_body(*method, class_prefix@),
{
    let ghost start = out@;
    out.append("        ");
    match &method.output {
        Some(t) => {
            if !t.is_void() {
                out.append("return ");
            }
        },
        None => {},
    }
    if method.throws() {
        out.append("try ");
    }
    if method.is_async {
        out.append("await riffAwait(poll: ");
        out.append(class_prefix);
        out.append("_");
        let name = to_snake_case(method.name.as_str());
        out.append(name.as_str());
        out.append("_poll) { ");
        push_method_call(out, method, class_prefix);
        out.append(" }");
    } else {
        push_method_call(out, method, class_prefix);
    }
    out.append("\n");
    assert(out@ =~= start + method_body(*method, class_prefix@));
}

fn push_stream_body(out: &mut String, stream: &StreamMethod, class_prefix: &str)
    ensures
        final(out)@ == old(out)@ + stream_body(*stream, class_prefix@),
{
    let ghost start = out@;
    out.append("        return AsyncStream { continuation in\n            ");
    out.append(class_prefix);
    out.append("_");
    let name = to_snake_case(stream.name.as_str());
    out.append(name.as_str());
    out.append("_subscribe(handle, continuation)\n        }\n");
    assert(out@ =~= start + stream_body(*stream, class_prefix@));
}

fn push_constructor_block(out: &mut String, c: &Constructor, class_prefix: &str)
    ensures
        final(out)@ == old(out)@ + constructor_block(*c, class_prefix@),
{
    let ghost before = out@;
    out.append("\n    public convenience init(");
    let decl = Swift::params_declaration(c.inputs.as_slice());
    out.append(decl.as_str());
    out.append(") {\n        self.init(handle: ");
    out.append(class_prefix);
    out.append("_new(");
    push_call_args(out, c.inputs.as_slice());
    out.append("))\n    }\n");
    assert(out@ =~= before + constructor_block(*c, class_prefix@));
}

fn push_constructor_blocks(out: &mut String, constructors: &[Constructor], class_prefix: &str)
    ensures
        final(out)@ == old(out)@ + constructor_blocks(constructors@, class_prefix@),
{
    let ghost start = out@;
    let mut i: usize = 0;
    while i < constructors.len()
        invariant
            i <= constructors@.len(),
            out@ == start + constructor_blocks(constructors@.take(i as int), class_prefix@),
        decreases constructors.len() - i,
    {
        assert(constructors@.take(i + 1).drop_last() =~= constructors@.take(i as int));
        push_constructor_block(out, &constructors[i], class_prefix);
        i = i + 1;
        assert(out@ =~= start + constructor_blocks(constructors@.take(i as int), class_prefix@));
    }
    assert(constructors@.take(i as int) =~= constructors@);
}

fn push_method_block(out: &mut String, method: &Method, class_prefix: &str)
    ensures
        final(out)@ == old(out)@ + method_block(*method, class_prefix@),
{
    let ghost before = out@;
    out.append("\n    public ");
    match method.receiver {
        Receiver::Static => out.append("static "),
        _ => {},
    }
    out.append("func ");
    let name = to_camel_case(method.name.as_str());
    out.append(name.as_str());
    let sig = Swift::method_signature(method);
    out.append(sig.as_str());
    out.append(" {\n");
    push_method_body(out, method, class_prefix);
    out.append("    }\n");
    assert(out@ =~= before + method_block(*method, class_prefix@));
}

fn push_method_blocks(out: &mut String, methods: &[Method], class_prefix: &str)
    ensures
        final(out)@ == old(out)@ + method_blocks(methods@, class_prefix@),
{
    let ghost start = out@;
    let mut i: usize = 0;
    while i < methods.len()
        invariant
            i <= methods@.len(),
            out@ == start + method_blocks(methods@.take(i as int), class_prefix@),
        decreases methods.len() - i,
    {
        assert(methods@.take(i + 1).drop_last() =~= methods@.take(i as int));
        push_method_block(out, &methods[i], class_prefix);
        i = i + 1;
        assert(out@ =~= start + method_blocks(methods@.take(i as int), class_prefix@));
    }
    assert(methods@.take(i as int) =~= methods@);
}

fn push_stream_block(out: &mut String, stream: &StreamMethod, class_prefix: &str)
    ensures
        final(out)@ == old(out)@ + stream_block(*stream, class_prefix@),
{
    let ghost before = out@;
    out.append("\n    public func ");
    let name = to_camel_case(stream.name.as_str());
    out.append(name.as_str());
    out.append("() -> AsyncStream<");
    let ty = map_type(&stream.item_type);
    out.append(ty.as_str());
    out.append("> {\n");
    push_stream_body(out, stream, class_prefix);
    out.append("    }\n");
    assert(out@ =~= before + stream_block(*stream, class_prefix@));
}

fn push_stream_blocks(out: &mut String, streams: &[StreamMethod], class_prefix: &str)
    ensures
        final(out)@ == old(out)@ + stream_blocks(streams@, class_prefix@),
{
    let ghost start = out@;
    let mut i: usize = 0;
    while i < streams.len()
        invariant
            i <= streams@.len(),
            out@ == start + stream_blocks(streams@.take(i as int), class_prefix@),
        decreases streams.len() - i,
    {
        assert(streams@.take(i + 1).drop_last() =~= streams@.take(i as int));
        push_stream_block(out, &streams[i], class_prefix);
        i = i + 1;
        assert(out@ =~= start + stream_blocks(streams@.take(i as int), class_prefix@));
    }
    assert(streams@.take(i as int) =~= streams@);
}

fn push_field_decls(out: &mut String, fields: &[RecordField])
    ensures
        final(out)@ == old(out)@ + field_decls(fields@),
{
    let ghost start = out@;
    let mut i: usize = 0;
    while i < fields.len()
        invariant
            i <= fields@.len(),
            out@ == start + field_decls(fields@.take(i as int)),
        decreases fields.len() - i,
    {
        assert(fields@.take(i + 1).drop_last() =~= fields@.take(i as int));
        if i > 0 {
            out.append(", ");
        }
        let name = to_camel_case(fields[i].name.as_str());
        out.append(name.as_str());
        out.append(": ");
        let ty = map_type(&fields[i].field_type);
        out.append(ty.as_str());
        i = i + 1;
        assert(out@ =~= start + field_decls(fields@.take(i as int)));
    }
    assert(fields@.take(i as int) =~= fields@);
}

fn push_field_var_lines(out: &mut String, fields: &[RecordField])
    ensures
        final(out)@ == old(out)@ + field_var_lines(fields@),
{
    let ghost start = out@;
    let mut i: usize = 0;
    while i < fields.len()
        invariant
            i <= fields@.len(),
            out@ == start + field_var_lines(fields@.take(i as int)),
        decreases fields.len() - i,
    {
        assert(fields@.take(i + 1).drop_last() =~= fields@.take(i as int));
        out.append("    public var ");
        let name = to_camel_case(fields[i].name.as_str());
        out.append(name.as_str());
        out.append(": ");
        let ty = map_type(&fields[i].field_type);
        out.append(ty.as_str());
        out.append("\n");
        i = i + 1;
        assert(out@ =~= start + field_var_lines(fields@.take(i as int)));
    }
    assert(fields@.take(i as int) =~= fields@);
}

fn push_field_assign_lines(out: &mut String, fields: &[RecordField])
    ensures
        final(out)@ == old(out)@ + field_assign_lines(fields@),
{
    let ghost start = out@;
    let mut i: usize = 0;
    while i < fields.len()
        invariant
            i <= fields@.len(),
            out@ == start + field_assign_lines(fields@.take(i as int)),
        decreases fields.len() - i,
    {
        assert(fields@.take(i + 1).drop_last() =~= fields@.take(i as int));
        let name = to_camel_case(fields[i].name.as_str());
        out.append("        self.");
        out.append(name.as_str());
        out.append(" = ");
        out.append(name.as_str());
        out.append("\n");
        i = i + 1;
        assert(out@ =~= start + field_assign_lines(fields@.take(i as int)));
    }
    assert(fields@.take(i as int) =~= fields@);
}

fn push_c_case_lines(out: &mut String, variants: &[Variant])
    requires
        variants@.len() <= i64::MAX,
    ensures
        final(out)@ == old(out)@ + c_case_lines(variants@),
{
    let ghost start = out@;
    let mut i: usize = 0;
    while i < variants.len()
        invariant
            i <= variants@.len(),
            variants@.len() <= i64::MAX,
            out@ == start + c_case_lines(variants@.take(i as int)),
        decreases variants.len() - i,
    {
        assert(variants@.take(i + 1).drop_last() =~= variants@.take(i as int));
        out.append("    case ");
        let name = to_camel_case(variants[i].name.as_str());
        out.append(name.as_str());
        out.append(" = ");
        let value: i64 = match variants[i].discriminant {
            Some(d) => d,
            None => i as i64,
        };
        push_decimal_i64(out, value);
        out.append("\n");
        i = i + 1;
        assert(out@ =~= start + c_case_lines(variants@.take(i as int)));
    }
    assert(variants@.take(i as int) =~= variants@);
}

fn push_data_case_lines(out: &mut String, variants: &[Variant])
    ensures
        final(out)@ == old(out)@ + data_case_lines(variants@),
{
    let ghost start = out@;
    let mut i: usize = 0;
    while i < variants.len()
        invariant
            i <= variants@.len(),
            out@ == start + data_case_lines(variants@.take(i as int)),
        decreases variants.len() - i,
    {
        assert(variants@.take(i + 1).drop_last() =~= variants@.take(i as int));
        out.append("    case ");
        let name = to_camel_case(variants[i].name.as_str());
        out.append(name.as_str());
        if variants[i].fields.len() > 0 {
            out.append("(");
            push_field_decls(out, variants[i].fields.as_slice());
            out.append(")");
        }
        out.append("\n");
        i = i + 1;
        assert(out@ =~= start + data_case_lines(variants@.take(i as int)));
    }
    assert(variants@.take(i as int) =~= variants@);
}

/// The Swift name of a named type is the name its declaration uses: an enumeration,
/// a record and a class are declared by `render_enum`, `render_record` and
/// `render_class` under exactly the name that `swift_type_name` gives the type, which is
/// the name's `class_name`.
pub proof fn lemma_named_types_match_declarations(e: Enumeration, r: Record, c: Class, m: Module)
    ensures
        ({
            let t = swift_type(Type::Enum(e.name));
            let head = "public enum "@ + t;
            enum_source(e).len() > head.len() && enum_source(e).take(head.len() as int) == head
                && t == pascal_case(e.name@)
        }),
        ({
            let t = swift_type(Type::Record(r.name));
            let head = "public struct "@ + t + " {"@;
            record_source(r).len() > head.len() && record_source(r).take(head.len() as int) == head
                && t == pascal_case(r.name@)
        }),
        ({
            let t = swift_type(Type::Object(c.name));
            let head = "public final class "@ + t + " {"@;
            class_source(c, m).len() > head.len() && class_source(c, m).take(head.len() as int)
                == head && t == pascal_case(c.name@)
        }),
{
    reveal_strlit(" {");
    reveal_strlit(" {\n");
    let te = swift_type(Type::Enum(e.name));
    let he = "public enum "@ + te;
    let rest_e = if spec_is_c_style(e.variants@) {
        ": Int32 {\n"@ + c_case_lines(e.variants@) + "}\n"@
    } else {
        " {\n"@ + data_case_lines(e.variants@) + "}\n"@
    };
    reveal_strlit(": Int32 {\n");
    assert(enum_source(e) =~= he + rest_e);
    assert((he + rest_e).take(he.len() as int) =~= he);
    let tr = swift_type(Type::Record(r.name));
    let hr = "public struct "@ + tr + " {"@;
    let rest_r = "\n"@ + field_var_lines(r.fields@) + "\n    public init("@ + field_decls(r.fields@)
        + ") {\n"@ + field_assign_lines(r.fields@) + "    }\n}\n"@;
    reveal_strlit("\n");
    assert(" {\n"@ =~= " {"@ + "\n"@);
    assert(record_source(r) =~= hr + rest_r);
    assert((hr + rest_r).take(hr.len() as int) =~= hr);
    let tc = swift_type(Type::Object(c.name));
    let hc = "public final class "@ + tc + " {"@;
    let cp = class_prefix_of(c, m);
    let body = "\n    private let handle: OpaquePointer\n\n    private init(handle: OpaquePointer) {\n        self.handle = handle\n    }\n\n    deinit {\n        "@;
    reveal_strlit(" {\n    private let handle: OpaquePointer\n\n    private init(handle: OpaquePointer) {\n        self.handle = handle\n    }\n\n    deinit {\n        ");
    reveal_strlit("\n    private let handle: OpaquePointer\n\n    private init(handle: OpaquePointer) {\n        self.handle = handle\n    }\n\n    deinit {\n        ");
    assert(" {\n    private let handle: OpaquePointer\n\n    private init(handle: OpaquePointer) {\n        self.handle = handle\n    }\n\n    deinit {\n        "@
        =~= " {"@ + body);
    let rest_c = body + cp + "_free(handle)\n    }\n"@ + constructor_blocks(c.constructors@, cp)
        + method_blocks(c.methods@, cp) + stream_blocks(c.streams@, cp) + "}\n"@;
    assert(class_source(c, m) =~= hc + rest_c);
    assert((hc + rest_c).take(hc.len() as int) =~= hc);
}

/// A method's signature starts with its parameter declarations in parentheses; an async
/// method's continues with ` async`, then a throwing one's with ` throws` (so an async
/// throwing method reads `(...) async throws`); a method returning a value other than
/// the unit type ends with ` -> ` and that value's Swift type.
pub proof fn lemma_signature_shape(m: Method)
    ensures
        ({
            let head = "("@ + params_decl(m.inputs@) + ")"@;
            let sig = method_sig(m);
            let p = head.len() as int;
            &&& sig.len() >= p && sig.take(p) == head
            &&& m.is_async ==> sig.len() >= p + 6 && sig.subrange(p, p + 6) == " async"@
            &&& (m.is_async && (m.output matches Some(t) && t is Result)) ==> sig.len() >= p + 13
                && sig.subrange(p, p + 13) == " async throws"@
            &&& (!m.is_async && (m.output matches Some(t) && t is Result)) ==> sig.len() >= p + 7
                && sig.subrange(p, p + 7) == " throws"@
            &&& (m.output matches Some(t) && !(t is Void)) ==> sig.len() >= p + 4 + swift_type(
                m.output.unwrap(),
            ).len() && sig.skip(sig.len() - 4 - swift_type(m.output.unwrap()).len()) == " -> "@
                + swift_type(m.output.unwrap())
        }),
{
    reveal_strlit(" async");
    reveal_strlit(" throws");
    reveal_strlit(" async throws");
    reveal_strlit(" -> ");
    let head = "("@ + params_decl(m.inputs@) + ")"@;
    let a = if m.is_async {
        " async"@
    } else {
        Seq::empty()
    };
    let t = if m.output matches Some(t) && t is Result {
        " throws"@
    } else {
        Seq::empty()
    };
    let r = return_clause(m.output);
    let sig = method_sig(m);
    assert(sig =~= head + a + t + r);
    let p = head.len() as int;
    assert((head + a + t + r).take(p) =~= head);
    if m.is_async {
        assert((head + a + t + r).subrange(p, p + 6) =~= a);
        if m.output matches Some(x) && x is Result {
            assert((head + a + t + r).subrange(p, p + 13) =~= a + t);
        }
    } else if m.output matches Some(x) && x is Result {
        assert((head + a + t + r).subrange(p, p + 7) =~= t);
    }
    if m.output matches Some(x) && !(x is Void) {
        let q = swift_type(m.output.unwrap());
        assert(r =~= " -> "@ + q);
        assert((head + a + t + r).skip(sig.len() - 4 - q.len()) =~= r);
    }
}

/// A parameter is declared as its `param_name`, `: `, and its `swift_type_name`; a list
/// of parameters as those declarations joined by `, `.
pub proof fn lemma_params_declaration(p: Parameter, q: Parameter)
    ensures
        params_decl(seq![p]) == camel_case(p.name@) + ": "@ + swift_type(p.param_type),
        params_decl(seq![p, q]) == camel_case(p.name@) + ": "@ + swift_type(p.param_type) + ", "@
            + camel_case(q.name@) + ": "@ + swift_type(q.param_type),
        params_decl(Seq::<Parameter>::empty()) == Seq::<char>::empty(),
{
    assert(seq![p, q].drop_last() =~= seq![p]);
    assert(seq![p, q].last() == q);
    assert(seq![p][0] == p);
    assert(params_decl(seq![p]) == param_decl(p));
    assert(params_decl(seq![p, q]) == param_decl(p) + ", "@ + param_decl(q));
    assert(params_decl(seq![p, q]) =~= camel_case(p.name@) + ": "@ + swift_type(p.param_type) + ", "@
        + camel_case(q.name@) + ": "@ + swift_type(q.param_type));
}

/// How compound types are spelt in Swift: a vector of `t` is `[t]`, an optional `t` is
/// `t?`, a result is spelt as its success type, and records, enums and objects by the
/// `class_name` of their name.
pub proof fn lemma_swift_type_forms(t: Type, e: Type, n: String)
    ensures
        swift_type(Type::Vec(Box::new(t))) == "["@ + swift_type(t) + "]"@,
        swift_type(Type::Option(Box::new(t))) == swift_type(t) + "?"@,
        swift_type(Type::Result { ok: Box::new(t), err: Box::new(e) }) == swift_type(t),
        swift_type(Type::Record(n)) == pascal_case(n@),
        swift_type(Type::Enum(n)) == pascal_case(n@),
        swift_type(Type::Object(n)) == pascal_case(n@),
        swift_type(Type::String) == "String"@,
        swift_type(Type::Bytes) == "Data"@,
        swift_type(Type::Void) == "Void"@,
{
}

fn primitive_name(p: Primitive) -> (r: &'static str)
    ensures
        r@ == primitive_swift(p),
{
    match p {
        Primitive::Bool => "Bool",
        Primitive::I8 => "Int8",
        Primitive::I16 => "Int16",
        Primitive::I32 => "Int32",
        Primitive::I64 => "Int64",
        Primitive::U8 => "UInt8",
        Primitive::U16 => "UInt16",
        Primitive::U32 => "UInt32",
        Primitive::U64 => "UInt64",
        Primitive::F32 => "Float",
        Primitive::F64 => "Double",
        Primitive::Usize => "UInt",
        Primitive::Isize => "Int",
    }
}

/// The Swift spelling of `ty`.
pub fn map_type(ty: &Type) -> (r: String)
    ensures
        r@ == swift_type(*ty),
    decreases ty,
{
    match ty {
        Type::Primitive(p) => primitive_name(*p).to_owned(),
        Type::String => "String".to_owned(),
        Type::Bytes => "Data".to_owned(),
        Type::Vec(inner) => {
            let mut s = "[".to_owned();
            let t = map_type(inner);
            s.append(t.as_str());
            s.append("]");
            s
        },
        Type::Option(inner) => {
            let mut s = map_type(inner);
            s.append("?");
            s
        },
        Type::Result { ok, .. } => map_type(ok),
        Type::Record(name) => to_pascal_case(name.as_str()),
        Type::Enum(name) => to_pascal_case(name.as_str()),
        Type::Object(name) => to_pascal_case(name.as_str()),
        Type::Void => "Void".to_owned(),
    }
}

/// The Swift code generator's entry points.
pub struct Swift;

impl Swift {
    /// The Swift spelling of a type.
    pub fn swift_type_name(ty: &Type) -> (r: String)
        ensures
            r@ == swift_type(*ty),
    {
        map_type(ty)
    }

    /// A method name: camelCase.
    pub fn method_name(name: &str) -> (r: String)
        ensures
            r@ == camel_case(name@),
    {
        to_camel_case(name)
    }

    /// A class name: PascalCase.
    pub fn class_name(name: &str) -> (r: String)
        ensures
            r@ == pascal_case(name@),
    {
        to_pascal_case(name)
    }

    /// A parameter name: camelCase.
    pub fn param_name(name: &str) -> (r: String)
        ensures
            r@ == camel_case(name@),
    {
        to_camel_case(name)
    }

    /// An enum case name: camelCase.
    pub fn enum_case_name(name: &str) -> (r: String)
        ensures
            r@ == camel_case(name@),
    {
        to_camel_case(name)
    }

    /// A property name: camelCase.
    pub fn property_name(name: &str) -> (r: String)
        ensures
            r@ == camel_case(name@),
    {
        to_camel_case(name)
    }

    /// `name: Type, name: Type, ...` for the parameters.
    pub fn params_declaration(params: &[Parameter]) -> (r: String)
        ensures
            r@ == params_decl(params@),
    {
        let mut out = String::new();
        let mut i: usize = 0;
        while i < params.len()
            invariant
                i <= params@.len(),
                out@ == params_decl(params@.take(i as int)),
            decreases params.len() - i,
        {
            let ghost prev = params@.take(i as int);
            let ghost next = params@.take(i + 1);
            assert(next.drop_last() =~= prev);
            if i > 0 {
                out.append(", ");
            }
            let name = to_camel_case(params[i].name.as_str());
            out.append(name.as_str());
            out.append(": ");
            let ty = map_type(&params[i].param_type);
            out.append(ty.as_str());
            i = i + 1;
            if i == 1 {
                assert(out@ =~= params_decl(next));
            } else {
                assert(out@ =~= params_decl(next));
            }
        }
        assert(params@.take(i as int) =~= params@);
        out
    }

    /// The Swift struct for a record.
    pub fn render_record(record: &Record) -> (r: String)
        ensures
            r@ == record_source(*record),
    {
        let mut out = "public struct ".to_owned();
        let name = to_pascal_case(record.name.as_str());
        out.append(name.as_str());
        out.append(" {\n");
        push_field_var_lines(&mut out, record.fields.as_slice());
        out.append("\n    public init(");
        push_field_decls(&mut out, record.fields.as_slice());
        out.append(") {\n");
        push_field_assign_lines(&mut out, record.fields.as_slice());
        out.append("    }\n}\n");
        out
    }

    /// The Swift enum for an enumeration.
    pub fn render_enum(enumeration: &Enumeration) -> (r: String)
        requires
            enumeration.variants@.len() <= i64::MAX,
        ensures
            r@ == enum_source(*enumeration),
    {
        let mut out = "public enum ".to_owned();
        let name = to_pascal_case(enumeration.name.as_str());
        out.append(name.as_str());
        if enumeration.is_c_style() {
            out.append(": Int32 {\n");
            push_c_case_lines(&mut out, enumeration.variants.as_slice());
        } else {
            out.append(" {\n");
            push_data_case_lines(&mut out, enumeration.variants.as_slice());
        }
        out.append("}\n");
        out
    }

    /// The body of a method of `class`.
    pub fn render_method_body(method: &Method, class: &Class, module: &Module) -> (r: String)
        ensures
            r@ == method_body(*method, class_prefix_of(*class, *module)),
    {
        let prefix = class.ffi_prefix(module.ffi_prefix().as_str());
        let mut out = String::new();
        push_method_body(&mut out, method, prefix.as_str());
        out
    }

    /// The body of a stream method of `class`.
    pub fn render_stream_body(stream: &StreamMethod, class: &Class, module: &Module) -> (r: String)
        ensures
            r@ == stream_body(*stream, class_prefix_of(*class, *module)),
    {
        let prefix = class.ffi_prefix(module.ffi_prefix().as_str());
        let mut out = String::new();
        push_stream_body(&mut out, stream, prefix.as_str());
        out
    }

    /// The Swift class for an exported class of `module`.
    pub fn render_class(class: &Class, module: &Module) -> (r: String)
        ensures
            r@ == class_source(*class, *module),
    {
        let prefix = class.ffi_prefix(module.ffi_prefix().as_str());
        let mut out = "public final class ".to_owned();
        let name = to_pascal_case(class.name.as_str());
        out.append(name.as_str());
        out.append(
            " {\n    private let handle: OpaquePointer\n\n    private init(handle: OpaquePointer) {\n        self.handle = handle\n    }\n\n    deinit {\n        ",
        );
        out.append(prefix.as_str());
        out.append("_free(handle)\n    }\n");
        push_constructor_blocks(&mut out, class.constructors.as_slice(), prefix.as_str());
        push_method_blocks(&mut out, class.methods.as_slice(), prefix.as_str());
        push_stream_blocks(&mut out, class.streams.as_slice(), prefix.as_str());
        out.append("}\n");
        out
    }

    /// `(params) async throws -> Type`.
    pub fn method_signature(method: &Method) -> (r: String)
        ensures
            r@ == method_sig(*method),
    {
        let params = Self::params_declaration(method.inputs.as_slice());
        let mut s = "(".to_owned();
        s.append(params.as_str());
        s.append(")");
        if method.is_async {
            s.append(" async");
        }
        if method.throws() {
            s.append(" throws");
        }
        match &method.output {
            Some(ty) => {
                if !ty.is_void() {
                    s.append(" -> ");
                    let t = map_type(ty);
                    s.append(t.as_str());
                }
            },
            None => {},
        }
        s
    }
}

} // verus!
