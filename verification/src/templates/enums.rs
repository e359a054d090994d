//! C-style enums and enums with associated values.

use vstd::prelude::*;
use vstd::string::StringExecFns;
use crate::swift_plan::{SwiftEnum, SwiftField, SwiftVariant, SwiftVariantPayload};
use crate::text::{int_decimal, push_decimal_i64};

verus! {

pub open spec fn c_case_line(v: SwiftVariant) -> Seq<char> {
    "    case "@ + v.swift_name@ + " = "@ + int_decimal(v.discriminant as int) + "\n"@
}

pub open spec fn c_case_lines(vs: Seq<SwiftVariant>) -> Seq<char>
    decreases vs.len(),
{
    if vs.len() == 0 {
        Seq::empty()
    } else {
        c_case_lines(vs.drop_last()) + c_case_line(vs.last())
    }
}

/// A C-style enum: `Int32` raw values, and `Error` conformance for an error enum.
pub open spec fn c_enum_text(name: Seq<char>, variants: Seq<SwiftVariant>, is_error: bool) -> Seq<char> {
    "public enum "@ + name + ": Int32"@ + (if is_error {
        ", Error"@
    } else {
        Seq::empty()
    }) + " {\n"@ + c_case_lines(variants) + "}\n"@
}

/// The payload's field types, joined by `, `.
pub open spec fn tuple_types(fs: Seq<SwiftField>) -> Seq<char>
    decreases fs.len(),
{
    if fs.len() == 0 {
        Seq::empty()
    } else if fs.len() == 1 {
        fs[0].swift_type@
    } else {
        tuple_types(fs.drop_last()) + ", "@ + fs.last().swift_type@
    }
}

/// The payload's fields as `name: Type`, joined by `, `.
pub open spec fn named_fields(fs: Seq<SwiftField>) -> Seq<char>
    decreases fs.len(),
{
    if fs.len() == 0 {
        Seq::empty()
    } else if fs.len() == 1 {
        fs[0].swift_name@ + ": "@ + fs[0].swift_type@
    } else {
        named_fields(fs.drop_last()) + ", "@ + fs.last().swift_name@ + ": "@ + fs.last().swift_type@
    }
}

pub open spec fn payload_text(p: SwiftVariantPayload) -> Seq<char> {
    match p {
        SwiftVariantPayload::Unit => Seq::empty(),
        SwiftVariantPayload::Tuple(fs) => "("@ + tuple_types(fs@) + ")"@,
        SwiftVariantPayload::Struct(fs) => "("@ + named_fields(fs@) + ")"@,
    }
}

pub open spec fn data_case_line(v: SwiftVariant) -> Seq<char> {
    "    case "@ + v.swift_name@ + payload_text(v.payload) + "\n"@
}

pub open spec fn data_case_lines(vs: Seq<SwiftVariant>) -> Seq<char>
    decreases vs.len(),
{
    if vs.len() == 0 {
        Seq::empty()
    } else {
        data_case_lines(vs.drop_last()) + data_case_line(vs.last())
    }
}

/// An enum with associated values, and `Error` conformance for an error enum.
pub open spec fn data_enum_text(name: Seq<char>, variants: Seq<SwiftVariant>, is_error: bool) -> Seq<char> {
    "public enum "@ + name + (if is_error {
        ": Error"@
    } else {
        Seq::empty()
    }) + " {\n"@ + data_case_lines(variants) + "}\n"@
}

/// The values the C-style enum template prints.
pub struct EnumCStyleTemplate<'a> {
    pub class_name: &'a str,
    pub variants: &'a [SwiftVariant],
    pub is_error: bool,
}

/// The values the data enum template prints.
pub struct EnumDataTemplate<'a> {
    pub class_name: &'a str,
    pub variants: &'a [SwiftVariant],
    pub is_error: bool,
}

fn push_c_case_lines(out: &mut String, variants: &[SwiftVariant])
    ensures
        final(out)@ == old(out)@ + c_case_lines(variants@),
{
    let ghost start = out@;
    let mut i: usize = 0;
    while i < variants.len()
        invariant
            i <= variants@.len(),
            out@ == start + c_case_lines(variants@.take(i as int)),
        decreases variants.len() - i,
    {
        assert(variants@.take(i + 1).drop_last() =~= variants@.take(i as int));
        out.append("    case ");
        out.append(variants[i].swift_name.as_str());
        out.append(" = ");
        push_decimal_i64(out, variants[i].discriminant);
        out.append("\n");
        i = i + 1;
        assert(out@ =~= start + c_case_lines(variants@.take(i as int)));
    }
    assert(variants@.take(i as int) =~= variants@);
}

fn push_tuple_types(out: &mut String, fields: &[SwiftField])
    ensures
        final(out)@ == old(out)@ + tuple_types(fields@),
{
    let ghost start = out@;
    let mut i: usize = 0;
    while i < fields.len()
        invariant
            i <= fields@.len(),
            out@ == start + tuple_types(fields@.take(i as int)),
        decreases fields.len() - i,
    {
        assert(fields@.take(i + 1).drop_last() =~= fields@.take(i as int));
        if i > 0 {
            out.append(", ");
        }
        out.append(fields[i].swift_type.as_str());
        i = i + 1;
        assert(out@ =~= start + tuple_types(fields@.take(i as int)));
    }
    assert(fields@.take(i as int) =~= fields@);
}

fn push_named_fields(out: &mut String, fields: &[SwiftField])
    ensures
        final(out)@ == old(out)@ + named_fields(fields@),
{
    let ghost start = out@;
    let mut i: usize = 0;
    while i < fields.len()
        invariant
            i <= fields@.len(),
            out@ == start + named_fields(fields@.take(i as int)),
        decreases fields.len() - i,
    {
        assert(fields@.take(i + 1).drop_last() =~= fields@.take(i as int));
        if i > 0 {
            out.append(", ");
        }
        out.append(fields[i].swift_name.as_str());
        out.append(": ");
        out.append(fields[i].swift_type.as_str());
        i = i + 1;
        assert(out@ =~= start + named_fields(fields@.take(i as int)));
    }
    assert(fields@.take(i as int) =~= fields@);
}

fn push_data_case_lines(out: &mut String, variants: &[SwiftVariant])
    ensures
        final(out)@ == old(out)@ + data_case_lines(variants@),
{
    let ghost start = out@;
    let mut i: usize = 0;
    while i < variants.len()
        invariant
            i <= variants@.len(),
            out@ == start + data_case_lines(variants@.take(i as int)),
        decreases variants.len() - i,
    {
        assert(variants@.take(i + 1).drop_last() =~= variants@.take(i as int));
        let ghost before = out@;
        out.append("    case ");
        out.append(variants[i].swift_name.as_str());
        match &variants[i].payload {
            SwiftVariantPayload::Unit => {},
            SwiftVariantPayload::Tuple(fs) => {
                out.append("(");
                push_tuple_types(out, fs.as_slice());
                out.append(")");
            },
            SwiftVariantPayload::Struct(fs) => {
                out.append("(");
                push_named_fields(out, fs.as_slice());
                out.append(")");
            },
        }
        out.append("\n");
        assert(out@ =~= before + data_case_line(variants@[i as int]));
        i = i + 1;
        assert(out@ =~= start + data_case_lines(variants@.take(i as int)));
    }
    assert(variants@.take(i as int) =~= variants@);
}

impl<'a> EnumCStyleTemplate<'a> {
    pub fn from_enum(e: &'a SwiftEnum) -> (r: Self)
        ensures
            r.class_name@ == e.name@,
            r.variants@ == e.variants@,
            r.is_error == e.is_error,
    {
        Self { class_name: e.name.as_str(), variants: e.variants.as_slice(), is_error: e.is_error }
    }

    pub fn render(&self) -> (r: String)
        ensures
            r@ == c_enum_text(self.class_name@, self.variants@, self.is_error),
    {
        let mut out = "public enum ".to_owned();
        out.append(self.class_name);
        out.append(": Int32");
        if self.is_error {
            out.append(", Error");
        }
        out.append(" {\n");
        push_c_case_lines(&mut out, self.variants);
        out.append("}\n");
        out
    }
}

impl<'a> EnumDataTemplate<'a> {
    pub fn from_enum(e: &'a SwiftEnum) -> (r: Self)
        ensures
            r.class_name@ == e.name@,
            r.variants@ == e.variants@,
            r.is_error == e.is_error,
    {
        Self { class_name: e.name.as_str(), variants: e.variants.as_slice(), is_error: e.is_error }
    }

    pub fn render(&self) -> (r: String)
        ensures
            r@ == data_enum_text(self.class_name@, self.variants@, self.is_error),
    {
        let mut out = "public enum ".to_owned();
        out.append(self.class_name);
        if self.is_error {
            out.append(": Error");
        }
        out.append(" {\n");
        push_data_case_lines(&mut out, self.variants);
        out.append("}\n");
        out
    }
}

/// The Swift enum: C-style or with associated values, as the plan says.
pub open spec fn enum_text(e: SwiftEnum) -> Seq<char> {
    if e.is_c_style {
        c_enum_text(e.name@, e.variants@, e.is_error)
    } else {
        data_enum_text(e.name@, e.variants@, e.is_error)
    }
}

/// The Swift enum for an enum of the plan.
pub fn render_enum(e: &SwiftEnum) -> (r: String)
    ensures
        r@ == enum_text(*e),
{
    if e.is_c_style {
        EnumCStyleTemplate::from_enum(e).render()
    } else {
        EnumDataTemplate::from_enum(e).render()
    }
}

} // verus!
