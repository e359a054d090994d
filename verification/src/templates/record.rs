//! Record structs.

use vstd::prelude::*;
use vstd::string::StringExecFns;
use crate::swift_plan::{SwiftField, SwiftRecord};
use crate::text::{nat_decimal, push_decimal_u64};

verus! {

pub open spec fn field_var_line(f: SwiftField) -> Seq<char> {
    "    public var "@ + f.swift_name@ + ": "@ + f.swift_type@ + "\n"@
}

pub open spec fn field_var_lines(fs: Seq<SwiftField>) -> Seq<char>
    decreases fs.len(),
{
    if fs.len() == 0 {
        Seq::empty()
    } else {
        field_var_lines(fs.drop_last()) + field_var_line(fs.last())
    }
}

/// `name: Type`, with ` = default` where the field has a default.
pub open spec fn field_init_param(f: SwiftField) -> Seq<char> {
    f.swift_name@ + ": "@ + f.swift_type@ + (match f.default_expr {
        Some(d) => " = "@ + d@,
        None => Seq::empty(),
    })
}

pub open spec fn field_init_params(fs: Seq<SwiftField>) -> Seq<char>
    decreases fs.len(),
{
    if fs.len() == 0 {
        Seq::empty()
    } else if fs.len() == 1 {
        field_init_param(fs[0])
    } else {
        field_init_params(fs.drop_last()) + ", "@ + field_init_param(fs.last())
    }
}

pub open spec fn field_assign_line(f: SwiftField) -> Seq<char> {
    "        self."@ + f.swift_name@ + " = "@ + f.swift_name@ + "\n"@
}

pub open spec fn field_assign_lines(fs: Seq<SwiftField>) -> Seq<char>
    decreases fs.len(),
{
    if fs.len() == 0 {
        Seq::empty()
    } else {
        field_assign_lines(fs.drop_last()) + field_assign_line(fs.last())
    }
}

/// A record struct with a memberwise initializer, and its wire size where it is blittable.
pub open spec fn record_text(
    class_name: Seq<char>,
    fields: Seq<SwiftField>,
    is_blittable: bool,
    blittable_size: Option<usize>,
) -> Seq<char> {
    "public struct "@ + class_name + " {\n"@ + field_var_lines(fields) + "\n    public init("@
        + field_init_params(fields) + ") {\n"@ + field_assign_lines(fields) + "    }\n}\n"@ + (
    match blittable_size {
        Some(size) => if is_blittable {
            "\nextension "@ + class_name + " {\n    public static let wireSize = "@ + nat_decimal(
                size as nat,
            ) + "\n}\n"@
        } else {
            Seq::empty()
        },
        None => Seq::empty(),
    })
}

/// The values the record template prints.
pub struct RecordTemplate<'a> {
    pub class_name: &'a str,
    pub fields: &'a [SwiftField],
    pub is_blittable: bool,
    pub blittable_size: Option<usize>,
}

fn push_field_var_lines(out: &mut String, fields: &[SwiftField])
    ensures
        final(out)@ == old(out)@ + field_var_lines(fields@),
{
    let ghost start = out@;
    let mut i: usize = 0;
    while i < fields.len()
        invariant
            i <= fields@.len(),
            out@ == start + field_var_lines(fields@.take(i as int)),
        decreases fields.len() - i,
    {
        assert(fields@.take(i + 1).drop_last() =~= fields@.take(i as int));
        out.append("    public var ");
        out.append(fields[i].swift_name.as_str());
        out.append(": ");
        out.append(fields[i].swift_type.as_str());
        out.append("\n");
        i = i + 1;
        assert(out@ =~= start + field_var_lines(fields@.take(i as int)));
    }
    assert(fields@.take(i as int) =~= fields@);
}

fn push_field_init_params(out: &mut String, fields: &[SwiftField])
    ensures
        final(out)@ == old(out)@ + field_init_params(fields@),
{
    let ghost start = out@;
    let mut i: usize = 0;
    while i < fields.len()
        invariant
            i <= fields@.len(),
            out@ == start + field_init_params(fields@.take(i as int)),
        decreases fields.len() - i,
    {
        assert(fields@.take(i + 1).drop_last() =~= fields@.take(i as int));
        if i > 0 {
            out.append(", ");
        }
        out.append(fields[i].swift_name.as_str());
        out.append(": ");
        out.append(fields[i].swift_type.as_str());
        match &fields[i].default_expr {
            Some(d) => {
                out.append(" = ");
                out.append(d.as_str());
            },
            None => {},
        }
        i = i + 1;
        assert(out@ =~= start + field_init_params(fields@.take(i as int)));
    }
    assert(fields@.take(i as int) =~= fields@);
}

fn push_field_assign_lines(out: &mut String, fields: &[SwiftField])
    ensures
        final(out)@ == old(out)@ + field_assign_lines(fields@),
{
    let ghost start = out@;
    let mut i: usize = 0;
    while i < fields.len()
        invariant
            i <= fields@.len(),
            out@ == start + field_assign_lines(fields@.take(i as int)),
        decreases fields.len() - i,
    {
        assert(fields@.take(i + 1).drop_last() =~= fields@.take(i as int));
        out.append("        self.");
        out.append(fields[i].swift_name.as_str());
        out.append(" = ");
        out.append(fields[i].swift_name.as_str());
        out.append("\n");
        i = i + 1;
        assert(out@ =~= start + field_assign_lines(fields@.take(i as int)));
    }
    assert(fields@.take(i as int) =~= fields@);
}

impl<'a> RecordTemplate<'a> {
    pub fn from_record(record: &'a SwiftRecord) -> (r: Self)
        ensures
            r.class_name@ == record.class_name@,
            r.fields@ == record.fields@,
            r.is_blittable == record.is_blittable,
            r.blittable_size == record.blittable_size,
    {
        Self {
            class_name: record.class_name.as_str(),
            fields: record.fields.as_slice(),
            is_blittable: record.is_blittable,
            blittable_size: record.blittable_size,
        }
    }

    pub fn render(&self) -> (r: String)
        ensures
            r@ == record_text(self.class_name@, self.fields@, self.is_blittable, self.blittable_size),
    {
        let mut out = "public struct ".to_owned();
        out.append(self.class_name);
        out.append(" {\n");
        push_field_var_lines(&mut out, self.fields);
        out.append("\n    public init(");
        push_field_init_params(&mut out, self.fields);
        out.append(") {\n");
        push_field_assign_lines(&mut out, self.fields);
        out.append("    }\n}\n");
        match self.blittable_size {
            Some(size) => {
                if self.is_blittable {
                    out.append("\nextension ");
                    out.append(self.class_name);
                    out.append(" {\n    public static let wireSize = ");
                    push_decimal_u64(&mut out, size as u64);
                    out.append("\n}\n");
                }
            },
            None => {},
        }
        out
    }
}

/// The Swift struct for a record.
pub fn render_record(record: &SwiftRecord) -> (r: String)
    ensures
        r@ == record_text(
            record.class_name@,
            record.fields@,
            record.is_blittable,
            record.blittable_size,
        ),
{
    RecordTemplate::from_record(record).render()
}

} // verus!
