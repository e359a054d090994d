//! How each parameter and each result of an exported function is bound on the foreign side.

use vstd::prelude::*;
use crate::ir::{
    AbiCall, AbiParam, AbiType, AsyncCall, CallbackId, CallbackStyle, ClassId, InputShape,
    Mutability, OutputShape, ParamName, ReadOp, ReadSeq, RecordId, ValueShape, WriteOp, WriteSeq,
};

verus! {

/// A parameter that the caller passes, with its binding.
#[derive(Debug)]
pub struct InputParam {
    pub name: ParamName,
    pub ffi_type: AbiType,
    pub abi: InputBinding,
}

/// What a parameter of the C function becomes.
#[derive(Debug)]
pub enum ParamBinding {
    Input(InputBinding),
    Hidden(HiddenInputBinding),
    UnsupportedValue,
}

/// How a parameter that the caller passes is handed over.
#[derive(Debug)]
pub enum InputBinding {
    Scalar,
    Utf8Slice { len_param: ParamName },
    PrimitiveSlice { len_param: ParamName, mutability: Mutability, element_abi: AbiType },
    WirePacket { len_param: ParamName, decode_ops: ReadSeq, encode_ops: WriteSeq },
    OutputBuffer { len_param: ParamName, decode_ops: ReadSeq },
    Handle { class_id: ClassId, nullable: bool },
    CallbackHandle { callback_id: CallbackId, nullable: bool, style: CallbackStyle },
}

/// A parameter of the C function that the generated code fills in itself.
#[derive(Debug)]
pub enum HiddenInputBinding {
    SyntheticLen { for_param: ParamName },
    OutLen { for_param: ParamName },
    OutDirect,
    StatusOut,
}

/// A result that comes back directly or through a fixed-layout buffer.
#[derive(Debug)]
pub enum FastOutputBinding {
    Scalar { abi_type: AbiType },
    OptionScalar { abi_type: AbiType, decode_ops: ReadSeq, encode_ops: WriteSeq },
    ResultScalar { ok_abi: AbiType, err_abi: AbiType, decode_ops: ReadSeq, encode_ops: WriteSeq },
    PrimitiveVec { element_abi: AbiType, decode_ops: ReadSeq, encode_ops: WriteSeq },
    BlittableRecord { record_id: RecordId, size: u32, decode_ops: ReadSeq, encode_ops: WriteSeq },
}

/// Whether a wire-encoded result is a bare UTF-8 string or any other encoding.
#[derive(Debug, Clone, Copy, PartialEq, Eq, Structural)]
pub enum WireOutputKind {
    Utf8String,
    Encoded,
}

/// A result that comes back wire-encoded.
#[derive(Debug)]
pub struct WireOutputBinding {
    pub decode_ops: ReadSeq,
    pub encode_ops: WriteSeq,
    pub wire_shape: WireOutputKind,
}

/// How a function's result is handed back.
#[derive(Debug)]
pub enum OutputBinding {
    Unit,
    Fast(FastOutputBinding),
    Wire(WireOutputBinding),
    Handle { class_id: ClassId, nullable: bool },
    CallbackHandle { callback_id: CallbackId, nullable: bool },
}

// ---------------------------------------------------------------------------
// The mappings, as spec functions.
// ---------------------------------------------------------------------------

/// The binding of a parameter shape.
pub open spec fn spec_param_binding(shape: InputShape) -> ParamBinding {
    match shape {
        InputShape::Value(ValueShape::Scalar(_)) => ParamBinding::Input(InputBinding::Scalar),
        InputShape::Value(_) => ParamBinding::UnsupportedValue,
        InputShape::Utf8Slice { len_param } => ParamBinding::Input(
            InputBinding::Utf8Slice { len_param },
        ),
        InputShape::PrimitiveSlice { len_param, mutability, element_abi } => ParamBinding::Input(
            InputBinding::PrimitiveSlice { len_param, mutability, element_abi },
        ),
        InputShape::WirePacket { len_param, value } => ParamBinding::Input(
            InputBinding::WirePacket {
                len_param,
                decode_ops: value.spec_read_ops().unwrap(),
                encode_ops: value.spec_write_ops().unwrap(),
            },
        ),
        InputShape::OutputBuffer { len_param, value } => ParamBinding::Input(
            InputBinding::OutputBuffer { len_param, decode_ops: value.spec_read_ops().unwrap() },
        ),
        InputShape::Handle { class_id, nullable } => ParamBinding::Input(
            InputBinding::Handle { class_id, nullable },
        ),
        InputShape::Callback { callback_id, nullable, style } => ParamBinding::Input(
            InputBinding::CallbackHandle { callback_id, nullable, style },
        ),
        InputShape::HiddenSyntheticLen { for_param } => ParamBinding::Hidden(
            HiddenInputBinding::SyntheticLen { for_param },
        ),
        InputShape::HiddenOutLen { for_param } => ParamBinding::Hidden(
            HiddenInputBinding::OutLen { for_param },
        ),
        InputShape::HiddenOutDirect => ParamBinding::Hidden(HiddenInputBinding::OutDirect),
        InputShape::HiddenStatusOut => ParamBinding::Hidden(HiddenInputBinding::StatusOut),
    }
}

/// The shapes whose binding needs codec steps carry them: a wire packet both read and
/// write steps, an output buffer read steps.
pub open spec fn shape_has_codec(shape: InputShape) -> bool {
    match shape {
        InputShape::WirePacket { value, .. } => value.spec_read_ops() is Some
            && value.spec_write_ops() is Some,
        InputShape::OutputBuffer { value, .. } => value.spec_read_ops() is Some,
        _ => true,
    }
}

/// Whether an encoded result is a bare string: both its first read step and its
/// first write step are string steps.
pub open spec fn spec_classify_wire_shape(decode_ops: ReadSeq, encode_ops: WriteSeq) -> WireOutputKind {
    if decode_ops.ops@.len() > 0 && encode_ops.ops@.len() > 0 && decode_ops.ops@[0] is String
        && encode_ops.ops@[0] is String {
        WireOutputKind::Utf8String
    } else {
        WireOutputKind::Encoded
    }
}

/// The binding of a result shape.
pub open spec fn spec_output_binding(shape: OutputShape) -> OutputBinding {
    match shape {
        OutputShape::Unit => OutputBinding::Unit,
        OutputShape::Value(ValueShape::Scalar(abi_type)) => OutputBinding::Fast(
            FastOutputBinding::Scalar { abi_type },
        ),
        OutputShape::Value(ValueShape::OptionScalar { abi, read, write }) => OutputBinding::Fast(
            FastOutputBinding::OptionScalar { abi_type: abi, decode_ops: read, encode_ops: write },
        ),
        OutputShape::Value(ValueShape::ResultScalar { ok, err, read, write }) => OutputBinding::Fast(
            FastOutputBinding::ResultScalar {
                ok_abi: ok,
                err_abi: err,
                decode_ops: read,
                encode_ops: write,
            },
        ),
        OutputShape::Value(ValueShape::PrimitiveVec { element_abi, read, write }) => OutputBinding::Fast(
            FastOutputBinding::PrimitiveVec { element_abi, decode_ops: read, encode_ops: write },
        ),
        OutputShape::Value(ValueShape::BlittableRecord { id, size, read, write }) => OutputBinding::Fast(
            FastOutputBinding::BlittableRecord {
                record_id: id,
                size,
                decode_ops: read,
                encode_ops: write,
            },
        ),
        OutputShape::Value(ValueShape::WireEncoded { read, write }) => OutputBinding::Wire(
            WireOutputBinding {
                decode_ops: read,
                encode_ops: write,
                wire_shape: spec_classify_wire_shape(read, write),
            },
        ),
        OutputShape::Handle { class_id, nullable } => OutputBinding::Handle { class_id, nullable },
        OutputShape::Callback { callback_id, nullable } => OutputBinding::CallbackHandle {
            callback_id,
            nullable,
        },
    }
}

// ---------------------------------------------------------------------------
// Equality up to the views of the codec steps.
// ---------------------------------------------------------------------------

impl InputBinding {
    /// Equal, with codec steps compared by their views.
    pub open spec fn same_as(self, other: InputBinding) -> bool {
        match (self, other) {
            (
                InputBinding::WirePacket { len_param: l1, decode_ops: d1, encode_ops: e1 },
                InputBinding::WirePacket { len_param: l2, decode_ops: d2, encode_ops: e2 },
            ) => l1 == l2 && d1@ == d2@ && e1@ == e2@,
            (
                InputBinding::OutputBuffer { len_param: l1, decode_ops: d1 },
                InputBinding::OutputBuffer { len_param: l2, decode_ops: d2 },
            ) => l1 == l2 && d1@ == d2@,
            (InputBinding::WirePacket { .. }, _) => false,
            (InputBinding::OutputBuffer { .. }, _) => false,
            _ => self == other,
        }
    }
}

impl ParamBinding {
    /// Equal, with codec steps compared by their views.
    pub open spec fn same_as(self, other: ParamBinding) -> bool {
        match (self, other) {
            (ParamBinding::Input(a), ParamBinding::Input(b)) => a.same_as(b),
            (ParamBinding::Input(_), _) => false,
            _ => self == other,
        }
    }
}

impl FastOutputBinding {
    /// Equal, with codec steps compared by their views.
    pub open spec fn same_as(self, other: FastOutputBinding) -> bool {
        match (self, other) {
            (FastOutputBinding::Scalar { abi_type: a }, FastOutputBinding::Scalar { abi_type: b }) => a
                == b,
            (
                FastOutputBinding::OptionScalar { abi_type: a1, decode_ops: d1, encode_ops: e1 },
                FastOutputBinding::OptionScalar { abi_type: a2, decode_ops: d2, encode_ops: e2 },
            ) => a1 == a2 && d1@ == d2@ && e1@ == e2@,
            (
                FastOutputBinding::ResultScalar {
                    ok_abi: o1,
                    err_abi: r1,
                    decode_ops: d1,
                    encode_ops: e1,
                },
                FastOutputBinding::ResultScalar {
                    ok_abi: o2,
                    err_abi: r2,
                    decode_ops: d2,
                    encode_ops: e2,
                },
            ) => o1 == o2 && r1 == r2 && d1@ == d2@ && e1@ == e2@,
            (
                FastOutputBinding::PrimitiveVec { element_abi: a1, decode_ops: d1, encode_ops: e1 },
                FastOutputBinding::PrimitiveVec { element_abi: a2, decode_ops: d2, encode_ops: e2 },
            ) => a1 == a2 && d1@ == d2@ && e1@ == e2@,
            (
                FastOutputBinding::BlittableRecord {
                    record_id: i1,
                    size: s1,
                    decode_ops: d1,
                    encode_ops: e1,
                },
                FastOutputBinding::BlittableRecord {
                    record_id: i2,
                    size: s2,
                    decode_ops: d2,
                    encode_ops: e2,
                },
            ) => i1 == i2 && s1 == s2 && d1@ == d2@ && e1@ == e2@,
            _ => false,
        }
    }

    /// The read steps of every binding but a plain scalar.
    pub open spec fn spec_decode_ops(self) -> Option<ReadSeq> {
        match self {
            FastOutputBinding::Scalar { .. } => None,
            FastOutputBinding::OptionScalar { decode_ops, .. } => Some(decode_ops),
            FastOutputBinding::ResultScalar { decode_ops, .. } => Some(decode_ops),
            FastOutputBinding::PrimitiveVec { decode_ops, .. } => Some(decode_ops),
            FastOutputBinding::BlittableRecord { decode_ops, .. } => Some(decode_ops),
        }
    }

    /// The write steps of every binding but a plain scalar.
    pub open spec fn spec_encode_ops(self) -> Option<WriteSeq> {
        match self {
            FastOutputBinding::Scalar { .. } => None,
            FastOutputBinding::OptionScalar { encode_ops, .. } => Some(encode_ops),
            FastOutputBinding::ResultScalar { encode_ops, .. } => Some(encode_ops),
            FastOutputBinding::PrimitiveVec { encode_ops, .. } => Some(encode_ops),
            FastOutputBinding::BlittableRecord { encode_ops, .. } => Some(encode_ops),
        }
    }
}

impl OutputBinding {
    /// Equal, with codec steps compared by their views.
    pub open spec fn same_as(self, other: OutputBinding) -> bool {
        match (self, other) {
            (OutputBinding::Fast(a), OutputBinding::Fast(b)) => a.same_as(b),
            (OutputBinding::Wire(a), OutputBinding::Wire(b)) => a.decode_ops@ == b.decode_ops@
                && a.encode_ops@ == b.encode_ops@ && a.wire_shape == b.wire_shape,
            (OutputBinding::Fast(_), _) => false,
            (OutputBinding::Wire(_), _) => false,
            _ => self == other,
        }
    }

    /// The read steps of a fast or wire binding, where it has them.
    pub open spec fn spec_decode_ops(self) -> Option<ReadSeq> {
        match self {
            OutputBinding::Fast(fast) => fast.spec_decode_ops(),
            OutputBinding::Wire(wire) => Some(wire.decode_ops),
            _ => None,
        }
    }

    /// The write steps of a fast or wire binding, where it has them.
    pub open spec fn spec_encode_ops(self) -> Option<WriteSeq> {
        match self {
            OutputBinding::Fast(fast) => fast.spec_encode_ops(),
            OutputBinding::Wire(wire) => Some(wire.encode_ops),
            _ => None,
        }
    }
}

// ---------------------------------------------------------------------------
// Laws.
// ---------------------------------------------------------------------------

/// Every parameter is exactly one of: passed by the caller, filled in by the generated
/// code (the four hidden shapes), or unsupported (a value shape other than a scalar).
pub proof fn lemma_param_binding_partition(shape: InputShape)
    ensures
        (spec_param_binding(shape) is Hidden) <==> (shape is HiddenSyntheticLen || shape is HiddenOutLen
            || shape is HiddenOutDirect || shape is HiddenStatusOut),
        (spec_param_binding(shape) is UnsupportedValue) <==> (shape matches InputShape::Value(v)
            && !(v is Scalar)),
        (spec_param_binding(shape) is Input) <==> !(spec_param_binding(shape) is Hidden)
            && !(spec_param_binding(shape) is UnsupportedValue),
{
}

/// A parameter keeps what its shape says of it: a handle its class and nullability, a
/// callback its trait, nullability and style, a slice its length parameter (and a
/// primitive slice its mutability and element type), a hidden parameter the parameter
/// it serves.
pub proof fn lemma_param_binding_keeps_fields(
    len_param: ParamName,
    class_id: ClassId,
    callback_id: CallbackId,
    nullable: bool,
    style: CallbackStyle,
    mutability: Mutability,
    element_abi: AbiType,
    abi: AbiType,
)
    ensures
        spec_param_binding(InputShape::Handle { class_id, nullable }) == ParamBinding::Input(
            InputBinding::Handle { class_id, nullable },
        ),
        spec_param_binding(InputShape::Callback { callback_id, nullable, style }) == ParamBinding::Input(
            InputBinding::CallbackHandle { callback_id, nullable, style },
        ),
        spec_param_binding(InputShape::Utf8Slice { len_param }) == ParamBinding::Input(
            InputBinding::Utf8Slice { len_param },
        ),
        spec_param_binding(InputShape::PrimitiveSlice { len_param, mutability, element_abi })
            == ParamBinding::Input(InputBinding::PrimitiveSlice { len_param, mutability, element_abi }),
        spec_param_binding(InputShape::Value(ValueShape::Scalar(abi))) == ParamBinding::Input(
            InputBinding::Scalar,
        ),
        spec_param_binding(InputShape::HiddenSyntheticLen { for_param: len_param }) == ParamBinding::Hidden(
            HiddenInputBinding::SyntheticLen { for_param: len_param },
        ),
        spec_param_binding(InputShape::HiddenOutLen { for_param: len_param }) == ParamBinding::Hidden(
            HiddenInputBinding::OutLen { for_param: len_param },
        ),
        spec_param_binding(InputShape::HiddenOutDirect) == ParamBinding::Hidden(
            HiddenInputBinding::OutDirect,
        ),
        spec_param_binding(InputShape::HiddenStatusOut) == ParamBinding::Hidden(
            HiddenInputBinding::StatusOut,
        ),
{
}

/// A wire packet or output buffer parameter keeps its length parameter.
pub proof fn lemma_param_binding_keeps_len_param(len_param: ParamName, value: ValueShape)
    ensures
        spec_param_binding(InputShape::WirePacket { len_param, value }) matches ParamBinding::Input(
            InputBinding::WirePacket { len_param: l, .. },
        ) && l == len_param,
        spec_param_binding(InputShape::OutputBuffer { len_param, value }) matches ParamBinding::Input(
            InputBinding::OutputBuffer { len_param: l, .. },
        ) && l == len_param,
{
}

/// A result keeps what its shape says of it: a handle its class and nullability, a
/// callback its trait and nullability, a scalar its type, an optional or fallible
/// scalar, a primitive vector or a blittable record its types, id and size.
pub proof fn lemma_output_binding_keeps_fields(
    class_id: ClassId,
    callback_id: CallbackId,
    nullable: bool,
    abi: AbiType,
    err: AbiType,
    id: RecordId,
    size: u32,
    read: ReadSeq,
    write: WriteSeq,
)
    ensures
        spec_output_binding(OutputShape::Unit) == OutputBinding::Unit,
        spec_output_binding(OutputShape::Handle { class_id, nullable }) == (OutputBinding::Handle {
            class_id,
            nullable,
        }),
        spec_output_binding(OutputShape::Callback { callback_id, nullable }) == (
        OutputBinding::CallbackHandle { callback_id, nullable }),
        spec_output_binding(OutputShape::Value(ValueShape::Scalar(abi))) == OutputBinding::Fast(
            FastOutputBinding::Scalar { abi_type: abi },
        ),
        spec_output_binding(OutputShape::Value(ValueShape::OptionScalar { abi, read, write }))
            matches OutputBinding::Fast(FastOutputBinding::OptionScalar { abi_type: a, .. }) && a == abi,
        spec_output_binding(OutputShape::Value(ValueShape::ResultScalar { ok: abi, err, read, write }))
            matches OutputBinding::Fast(FastOutputBinding::ResultScalar { ok_abi: o, err_abi: e, .. })
            && o == abi && e == err,
        spec_output_binding(OutputShape::Value(ValueShape::PrimitiveVec { element_abi: abi, read, write }))
            matches OutputBinding::Fast(FastOutputBinding::PrimitiveVec { element_abi: a, .. }) && a == abi,
        spec_output_binding(OutputShape::Value(ValueShape::BlittableRecord { id, size, read, write }))
            matches OutputBinding::Fast(FastOutputBinding::BlittableRecord { record_id: i, size: n, .. })
            && (i == id && n == size),
{
}

/// A result binding has read steps exactly when it has write steps.
pub proof fn lemma_output_codec_paired(b: OutputBinding)
    ensures
        b.spec_decode_ops() is Some <==> b.spec_encode_ops() is Some,
{
}

/// The binding of a value result carries the value shape's own codec steps, and a
/// scalar result has none.
pub proof fn lemma_output_binding_keeps_codec(v: ValueShape)
    ensures
        spec_output_binding(OutputShape::Value(v)).spec_decode_ops() == v.spec_read_ops(),
        spec_output_binding(OutputShape::Value(v)).spec_encode_ops() == v.spec_write_ops(),
{
}

/// A wire packet or output buffer parameter carries its value shape's codec steps.
pub proof fn lemma_input_binding_keeps_codec(len_param: ParamName, value: ValueShape)
    requires
        value.spec_read_ops() is Some,
        value.spec_write_ops() is Some,
    ensures
        spec_param_binding(InputShape::WirePacket { len_param, value }) matches ParamBinding::Input(
            InputBinding::WirePacket { decode_ops, encode_ops, .. },
        ) && decode_ops == value.spec_read_ops().unwrap() && encode_ops
            == value.spec_write_ops().unwrap(),
        spec_param_binding(InputShape::OutputBuffer { len_param, value }) matches ParamBinding::Input(
            InputBinding::OutputBuffer { decode_ops, .. },
        ) && decode_ops == value.spec_read_ops().unwrap(),
{
}

/// Only wire-encoded results are wire bindings, and only those start with a string
/// step in both directions are bare strings.
pub proof fn lemma_wire_output_only_for_encoded(shape: OutputShape)
    ensures
        (spec_output_binding(shape) is Wire) <==> (shape matches OutputShape::Value(v)
            && v is WireEncoded),
        spec_output_binding(shape) matches OutputBinding::Wire(w) ==> (w.wire_shape
            == WireOutputKind::Utf8String <==> (w.decode_ops.ops@.len() > 0
            && w.encode_ops.ops@.len() > 0 && w.decode_ops.ops@[0] is String
            && w.encode_ops.ops@[0] is String)),
{
}

// ---------------------------------------------------------------------------
// The executable mappings.
// ---------------------------------------------------------------------------

impl InputParam {
    /// The parameter as the caller sees it, or `None` for a hidden or unsupported one.
    pub fn from_abi_param(param: &AbiParam) -> (r: Option<Self>)
        requires
            shape_has_codec(param.input_shape),
        ensures
            match spec_param_binding(param.input_shape) {
                ParamBinding::Input(a) => r matches Some(p) && p.name == param.name && p.ffi_type
                    == param.ffi_type && p.abi.same_as(a),
                _ => r is None,
            },
    {
        let abi = match ParamBinding::from_abi_param(param) {
            ParamBinding::Input(abi) => abi,
            ParamBinding::Hidden(_) | ParamBinding::UnsupportedValue => return None,
        };
        Some(Self { name: param.name.clone(), ffi_type: param.ffi_type, abi })
    }
}

impl ParamBinding {
    /// The binding of a parameter.
    pub fn from_abi_param(param: &AbiParam) -> (r: Self)
        requires
            shape_has_codec(param.input_shape),
        ensures
            r.same_as(spec_param_binding(param.input_shape)),
    {
        match &param.input_shape {
            InputShape::Value(ValueShape::Scalar(_)) => Self::Input(InputBinding::Scalar),
            InputShape::Utf8Slice { len_param } => Self::Input(
                InputBinding::Utf8Slice { len_param: len_param.clone() },
            ),
            InputShape::PrimitiveSlice { len_param, mutability, element_abi } => Self::Input(
                InputBinding::PrimitiveSlice {
                    len_param: len_param.clone(),
                    mutability: *mutability,
                    element_abi: *element_abi,
                },
            ),
            InputShape::WirePacket { len_param, value } => {
                let decode_ops = match value.read_ops() {
                    Some(ops) => ops.clone(),
                    None => {
                        assert(false);
                        return Self::UnsupportedValue;
                    },
                };
                let encode_ops = match value.write_ops() {
                    Some(ops) => ops.clone(),
                    None => {
                        assert(false);
                        return Self::UnsupportedValue;
                    },
                };
                Self::Input(
                    InputBinding::WirePacket { len_param: len_param.clone(), decode_ops, encode_ops },
                )
            },
            InputShape::OutputBuffer { len_param, value } => {
                let decode_ops = match value.read_ops() {
                    Some(ops) => ops.clone(),
                    None => {
                        assert(false);
                        return Self::UnsupportedValue;
                    },
                };
                Self::Input(InputBinding::OutputBuffer { len_param: len_param.clone(), decode_ops })
            },
            InputShape::Handle { class_id, nullable } => Self::Input(
                InputBinding::Handle { class_id: class_id.clone(), nullable: *nullable },
            ),
            InputShape::Callback { callback_id, nullable, style } => Self::Input(
                InputBinding::CallbackHandle {
                    callback_id: callback_id.clone(),
                    nullable: *nullable,
                    style: *style,
                },
            ),
            InputShape::HiddenSyntheticLen { for_param } => Self::Hidden(
                HiddenInputBinding::SyntheticLen { for_param: for_param.clone() },
            ),
            InputShape::HiddenOutLen { for_param } => Self::Hidden(
                HiddenInputBinding::OutLen { for_param: for_param.clone() },
            ),
            InputShape::HiddenOutDirect => Self::Hidden(HiddenInputBinding::OutDirect),
            InputShape::HiddenStatusOut => Self::Hidden(HiddenInputBinding::StatusOut),
            InputShape::Value(_) => Self::UnsupportedValue,
        }
    }
}

impl InputBinding {
    /// The binding of a parameter that the caller passes, or `None` for a hidden or
    /// unsupported one.
    pub fn from_abi_param(param: &AbiParam) -> (r: Option<Self>)
        requires
            shape_has_codec(param.input_shape),
        ensures
            match spec_param_binding(param.input_shape) {
                ParamBinding::Input(a) => r matches Some(b) && b.same_as(a),
                _ => r is None,
            },
    {
        match ParamBinding::from_abi_param(param) {
            ParamBinding::Input(abi) => Some(abi),
            ParamBinding::Hidden(_) | ParamBinding::UnsupportedValue => None,
        }
    }
}

impl HiddenInputBinding {
    /// The binding of a parameter that the generated code fills in, or `None` for any other.
    pub fn from_abi_param(param: &AbiParam) -> (r: Option<Self>)
        requires
            shape_has_codec(param.input_shape),
        ensures
            r == match spec_param_binding(param.input_shape) {
                ParamBinding::Hidden(h) => Some(h),
                _ => None,
            },
    {
        match ParamBinding::from_abi_param(param) {
            ParamBinding::Hidden(hidden) => Some(hidden),
            ParamBinding::Input(_) | ParamBinding::UnsupportedValue => None,
        }
    }
}

impl FastOutputBinding {
    /// The read steps, for every binding but a plain scalar.
    pub fn decode_ops(&self) -> (r: Option<&ReadSeq>)
        ensures
            r is Some <==> self.spec_decode_ops() is Some,
            r matches Some(d) ==> *d == self.spec_decode_ops().unwrap(),
    {
        match self {
            Self::Scalar { .. } => None,
            Self::OptionScalar { decode_ops, .. }
            | Self::ResultScalar { decode_ops, .. }
            | Self::PrimitiveVec { decode_ops, .. }
            | Self::BlittableRecord { decode_ops, .. } => Some(decode_ops),
        }
    }

    /// The write steps, for every binding but a plain scalar.
    pub fn encode_ops(&self) -> (r: Option<&WriteSeq>)
        ensures
            r is Some <==> self.spec_encode_ops() is Some,
            r matches Some(e) ==> *e == self.spec_encode_ops().unwrap(),
    {
        match self {
            Self::Scalar { .. } => None,
            Self::OptionScalar { encode_ops, .. }
            | Self::ResultScalar { encode_ops, .. }
            | Self::PrimitiveVec { encode_ops, .. }
            | Self::BlittableRecord { encode_ops, .. } => Some(encode_ops),
        }
    }
}

impl OutputBinding {
    /// The binding of a synchronous call's result.
    pub fn from_abi_call(call: &AbiCall) -> (r: Self)
        ensures
            r.same_as(spec_output_binding(call.output_shape)),
    {
        Self::from_output_shape(&call.output_shape)
    }

    /// The binding of an asynchronous call's result.
    pub fn from_async_call(async_call: &AsyncCall) -> (r: Self)
        ensures
            r.same_as(spec_output_binding(async_call.result_shape)),
    {
        Self::from_result_shape(&async_call.result_shape)
    }

    /// The binding of an asynchronous call's result shape.
    pub fn from_result_shape(result_shape: &OutputShape) -> (r: Self)
        ensures
            r.same_as(spec_output_binding(*result_shape)),
    {
        Self::from_output_shape(result_shape)
    }

    /// The binding of a result shape.
    pub fn from_output_shape(output_shape: &OutputShape) -> (r: Self)
        ensures
            r.same_as(spec_output_binding(*output_shape)),
    {
        match output_shape {
            OutputShape::Unit => Self::Unit,
            OutputShape::Value(ValueShape::Scalar(abi_type)) => Self::Fast(
                FastOutputBinding::Scalar { abi_type: *abi_type },
            ),
            OutputShape::Value(ValueShape::OptionScalar { abi, read, write }) => Self::Fast(
                FastOutputBinding::OptionScalar {
                    abi_type: *abi,
                    decode_ops: read.clone(),
                    encode_ops: write.clone(),
                },
            ),
            OutputShape::Value(ValueShape::ResultScalar { ok, err, read, write }) => Self::Fast(
                FastOutputBinding::ResultScalar {
                    ok_abi: *ok,
                    err_abi: *err,
                    decode_ops: read.clone(),
                    encode_ops: write.clone(),
                },
            ),
            OutputShape::Value(ValueShape::PrimitiveVec { element_abi, read, write }) => Self::Fast(
                FastOutputBinding::PrimitiveVec {
                    element_abi: *element_abi,
                    decode_ops: read.clone(),
                    encode_ops: write.clone(),
                },
            ),
            OutputShape::Value(ValueShape::BlittableRecord { id, size, read, write }) => Self::Fast(
                FastOutputBinding::BlittableRecord {
                    record_id: id.clone(),
                    size: *size,
                    decode_ops: read.clone(),
                    encode_ops: write.clone(),
                },
            ),
            OutputShape::Handle { class_id, nullable } => Self::Handle {
                class_id: class_id.clone(),
                nullable: *nullable,
            },
            OutputShape::Callback { callback_id, nullable } => Self::CallbackHandle {
                callback_id: callback_id.clone(),
                nullable: *nullable,
            },
            OutputShape::Value(ValueShape::WireEncoded { .. }) => {
                let decode_ops = output_shape_value_read_ops(output_shape);
                let encode_ops = output_shape_value_write_ops(output_shape);
                let wire_shape = classify_wire_shape(&decode_ops, &encode_ops);
                Self::Wire(WireOutputBinding { decode_ops, encode_ops, wire_shape })
            },
        }
    }

    /// The read steps of a fast or wire binding, where it has them.
    pub fn decode_ops(&self) -> (r: Option<&ReadSeq>)
        ensures
            r is Some <==> self.spec_decode_ops() is Some,
            r matches Some(d) ==> *d == self.spec_decode_ops().unwrap(),
    {
        match self {
            Self::Fast(fast) => fast.decode_ops(),
            Self::Wire(wire) => Some(&wire.decode_ops),
            Self::Unit | Self::Handle { .. } | Self::CallbackHandle { .. } => None,
        }
    }

    /// The write steps of a fast or wire binding, where it has them.
    pub fn encode_ops(&self) -> (r: Option<&WriteSeq>)
        ensures
            r is Some <==> self.spec_encode_ops() is Some,
            r matches Some(e) ==> *e == self.spec_encode_ops().unwrap(),
    {
        match self {
            Self::Fast(fast) => fast.encode_ops(),
            Self::Wire(wire) => Some(&wire.encode_ops),
            Self::Unit | Self::Handle { .. } | Self::CallbackHandle { .. } => None,
        }
    }
}

/// The read steps of a value result.
fn output_shape_value_read_ops(output_shape: &OutputShape) -> (r: ReadSeq)
    requires
        output_shape matches OutputShape::Value(v) && v.spec_read_ops() is Some,
    ensures
        output_shape matches OutputShape::Value(v) && r@ == v.spec_read_ops().unwrap()@,
{
    match output_shape {
        OutputShape::Value(value_shape) => match value_shape.read_ops() {
            Some(ops) => ops.clone(),
            None => {
                assert(false);
                ReadSeq { size: crate::ir::SizeExpr::Runtime, ops: Vec::new(), shape: crate::ir::WireShape::Value }
            },
        },
        _ => {
            assert(false);
            ReadSeq { size: crate::ir::SizeExpr::Runtime, ops: Vec::new(), shape: crate::ir::WireShape::Value }
        },
    }
}

/// The write steps of a value result.
fn output_shape_value_write_ops(output_shape: &OutputShape) -> (r: WriteSeq)
    requires
        output_shape matches OutputShape::Value(v) && v.spec_write_ops() is Some,
    ensures
        output_shape matches OutputShape::Value(v) && r@ == v.spec_write_ops().unwrap()@,
{
    match output_shape {
        OutputShape::Value(value_shape) => match value_shape.write_ops() {
            Some(ops) => ops.clone(),
            None => {
                assert(false);
                WriteSeq { size: crate::ir::SizeExpr::Runtime, ops: Vec::new(), shape: crate::ir::WireShape::Value }
            },
        },
        _ => {
            assert(false);
            WriteSeq { size: crate::ir::SizeExpr::Runtime, ops: Vec::new(), shape: crate::ir::WireShape::Value }
        },
    }
}

/// Whether an encoded result is a bare string.
fn classify_wire_shape(decode_ops: &ReadSeq, encode_ops: &WriteSeq) -> (r: WireOutputKind)
    ensures
        r == spec_classify_wire_shape(*decode_ops, *encode_ops),
{
    if decode_ops.ops.len() > 0 && encode_ops.ops.len() > 0 {
        match (decode_ops.ops[0], encode_ops.ops[0]) {
            (ReadOp::String { .. }, WriteOp::String { .. }) => WireOutputKind::Utf8String,
            _ => WireOutputKind::Encoded,
        }
    } else {
        WireOutputKind::Encoded
    }
}

} // verus!
