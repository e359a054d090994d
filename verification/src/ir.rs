//! The ABI-level description of exported functions that the binding model is built from.

use vstd::prelude::*;

verus! {

/// Name of a parameter of an exported function.
#[derive(Debug)]
pub struct ParamName(pub String);

/// Name of an exported class.
#[derive(Debug)]
pub struct ClassId(pub String);

/// Name of an exported callback trait.
#[derive(Debug)]
pub struct CallbackId(pub String);

/// Name of an exported record.
#[derive(Debug)]
pub struct RecordId(pub String);

impl ParamName {
    pub fn new(name: &str) -> (r: Self)
        ensures
            r.0@ == name@,
    {
        ParamName(name.to_owned())
    }

    pub fn as_str(&self) -> (r: &str)
        ensures
            r@ == self.0@,
    {
        self.0.as_str()
    }
}

impl Clone for ParamName {
    fn clone(&self) -> (r: Self)
        ensures
            r == *self,
    {
        ParamName(self.0.clone())
    }
}

impl ClassId {
    pub fn new(name: &str) -> (r: Self)
        ensures
            r.0@ == name@,
    {
        ClassId(name.to_owned())
    }

    pub fn as_str(&self) -> (r: &str)
        ensures
            r@ == self.0@,
    {
        self.0.as_str()
    }
}

impl Clone for ClassId {
    fn clone(&self) -> (r: Self)
        ensures
            r == *self,
    {
        ClassId(self.0.clone())
    }
}

impl CallbackId {
    pub fn new(name: &str) -> (r: Self)
        ensures
            r.0@ == name@,
    {
        CallbackId(name.to_owned())
    }

    pub fn as_str(&self) -> (r: &str)
        ensures
            r@ == self.0@,
    {
        self.0.as_str()
    }
}

impl Clone for CallbackId {
    fn clone(&self) -> (r: Self)
        ensures
            r == *self,
    {
        CallbackId(self.0.clone())
    }
}

impl RecordId {
    pub fn new(name: &str) -> (r: Self)
        ensures
            r.0@ == name@,
    {
        RecordId(name.to_owned())
    }

    pub fn as_str(&self) -> (r: &str)
        ensures
            r@ == self.0@,
    {
        self.0.as_str()
    }
}

impl Clone for RecordId {
    fn clone(&self) -> (r: Self)
        ensures
            r == *self,
    {
        RecordId(self.0.clone())
    }
}

/// A C ABI type.
#[derive(Debug, Clone, Copy, PartialEq, Eq, Structural)]
pub enum AbiType {
    Void,
    Bool,
    I8,
    I16,
    I32,
    I64,
    U8,
    U16,
    U32,
    U64,
    ISize,
    USize,
    F32,
    F64,
    Pointer,
}

/// Whether a slice parameter may be written through.
#[derive(Debug, Clone, Copy, PartialEq, Eq, Structural)]
pub enum Mutability {
    Shared,
    Mutable,
}

/// How a callback object crosses the boundary.
#[derive(Debug, Clone, Copy, PartialEq, Eq, Structural)]
pub enum CallbackStyle {
    BoxedDyn,
    ImplTrait,
}

/// Size of an encoded value: known in advance, or only once the value is at hand.
#[derive(Debug, Clone, Copy, PartialEq, Eq, Structural)]
pub enum SizeExpr {
    Fixed(u32),
    Runtime,
}

/// What a sequence of wire operations reads or writes as a whole.
#[derive(Debug, Clone, Copy, PartialEq, Eq, Structural)]
pub enum WireShape {
    Value,
    Optional,
    Sequence,
}

/// One step of reading an encoded value.
#[derive(Debug, Clone, Copy, PartialEq, Eq, Structural)]
pub enum ReadOp {
    Primitive { abi: AbiType, offset: u32 },
    String { offset: u32 },
    Bytes { offset: u32 },
    Option { offset: u32 },
    Vec { offset: u32 },
    Record { offset: u32 },
}

/// One step of writing an encoded value.
#[derive(Debug, Clone, Copy, PartialEq, Eq, Structural)]
pub enum WriteOp {
    Primitive { abi: AbiType, offset: u32 },
    String { offset: u32 },
    Bytes { offset: u32 },
    Option { offset: u32 },
    Vec { offset: u32 },
    Record { offset: u32 },
}

/// The steps that read one encoded value.
#[derive(Debug)]
pub struct ReadSeq {
    pub size: SizeExpr,
    pub ops: Vec<ReadOp>,
    pub shape: WireShape,
}

/// The steps that write one encoded value.
#[derive(Debug)]
pub struct WriteSeq {
    pub size: SizeExpr,
    pub ops: Vec<WriteOp>,
    pub shape: WireShape,
}

impl View for ReadSeq {
    type V = (SizeExpr, Seq<ReadOp>, WireShape);

    open spec fn view(&self) -> (SizeExpr, Seq<ReadOp>, WireShape) {
        (self.size, self.ops@, self.shape)
    }
}

impl View for WriteSeq {
    type V = (SizeExpr, Seq<WriteOp>, WireShape);

    open spec fn view(&self) -> (SizeExpr, Seq<WriteOp>, WireShape) {
        (self.size, self.ops@, self.shape)
    }
}

/// Copies the operations one by one.
fn copy_read_ops(ops: &Vec<ReadOp>) -> (r: Vec<ReadOp>)
    ensures
        r@ == ops@,
{
    let mut r: Vec<ReadOp> = Vec::new();
    let mut i: usize = 0;
    while i < ops.len()
        invariant
            i <= ops.len(),
            r@ == ops@.take(i as int),
        decreases ops.len() - i,
    {
        r.push(ops[i]);
        i = i + 1;
        assert(r@ =~= ops@.take(i as int));
    }
    assert(ops@.take(i as int) =~= ops@);
    r
}

/// Copies the operations one by one.
fn copy_write_ops(ops: &Vec<WriteOp>) -> (r: Vec<WriteOp>)
    ensures
        r@ == ops@,
{
    let mut r: Vec<WriteOp> = Vec::new();
    let mut i: usize = 0;
    while i < ops.len()
        invariant
            i <= ops.len(),
            r@ == ops@.take(i as int),
        decreases ops.len() - i,
    {
        r.push(ops[i]);
        i = i + 1;
        assert(r@ =~= ops@.take(i as int));
    }
    assert(ops@.take(i as int) =~= ops@);
    r
}

impl Clone for ReadSeq {
    fn clone(&self) -> (r: Self)
        ensures
            r@ == self@,
    {
        ReadSeq { size: self.size, ops: copy_read_ops(&self.ops), shape: self.shape }
    }
}

impl Clone for WriteSeq {
    fn clone(&self) -> (r: Self)
        ensures
            r@ == self@,
    {
        WriteSeq { size: self.size, ops: copy_write_ops(&self.ops), shape: self.shape }
    }
}

/// How a value crosses the boundary.
#[derive(Debug)]
pub enum ValueShape {
    Scalar(AbiType),
    OptionScalar { abi: AbiType, read: ReadSeq, write: WriteSeq },
    ResultScalar { ok: AbiType, err: AbiType, read: ReadSeq, write: WriteSeq },
    PrimitiveVec { element_abi: AbiType, read: ReadSeq, write: WriteSeq },
    BlittableRecord { id: RecordId, size: u32, read: ReadSeq, write: WriteSeq },
    WireEncoded { read: ReadSeq, write: WriteSeq },
}

impl ValueShape {
    /// The read steps of every shape but a plain scalar.
    pub open spec fn spec_read_ops(&self) -> Option<ReadSeq> {
        match self {
            ValueShape::Scalar(_) => None,
            ValueShape::OptionScalar { read, .. } => Some(*read),
            ValueShape::ResultScalar { read, .. } => Some(*read),
            ValueShape::PrimitiveVec { read, .. } => Some(*read),
            ValueShape::BlittableRecord { read, .. } => Some(*read),
            ValueShape::WireEncoded { read, .. } => Some(*read),
        }
    }

    /// The write steps of every shape but a plain scalar.
    pub open spec fn spec_write_ops(&self) -> Option<WriteSeq> {
        match self {
            ValueShape::Scalar(_) => None,
            ValueShape::OptionScalar { write, .. } => Some(*write),
            ValueShape::ResultScalar { write, .. } => Some(*write),
            ValueShape::PrimitiveVec { write, .. } => Some(*write),
            ValueShape::BlittableRecord { write, .. } => Some(*write),
            ValueShape::WireEncoded { write, .. } => Some(*write),
        }
    }

    pub fn read_ops(&self) -> (r: Option<&ReadSeq>)
        ensures
            r is Some <==> self.spec_read_ops() is Some,
            r matches Some(x) ==> *x == self.spec_read_ops().unwrap(),
    {
        match self {
            ValueShape::Scalar(_) => None,
            ValueShape::OptionScalar { read, .. } => Some(read),
            ValueShape::ResultScalar { read, .. } => Some(read),
            ValueShape::PrimitiveVec { read, .. } => Some(read),
            ValueShape::BlittableRecord { read, .. } => Some(read),
            ValueShape::WireEncoded { read, .. } => Some(read),
        }
    }

    pub fn write_ops(&self) -> (r: Option<&WriteSeq>)
        ensures
            r is Some <==> self.spec_write_ops() is Some,
            r matches Some(x) ==> *x == self.spec_write_ops().unwrap(),
    {
        match self {
            ValueShape::Scalar(_) => None,
            ValueShape::OptionScalar { write, .. } => Some(write),
            ValueShape::ResultScalar { write, .. } => Some(write),
            ValueShape::PrimitiveVec { write, .. } => Some(write),
            ValueShape::BlittableRecord { write, .. } => Some(write),
            ValueShape::WireEncoded { write, .. } => Some(write),
        }
    }
}

/// How a parameter crosses the boundary.
#[derive(Debug)]
pub enum InputShape {
    Value(ValueShape),
    Utf8Slice { len_param: ParamName },
    PrimitiveSlice { len_param: ParamName, mutability: Mutability, element_abi: AbiType },
    WirePacket { len_param: ParamName, value: ValueShape },
    OutputBuffer { len_param: ParamName, value: ValueShape },
    Handle { class_id: ClassId, nullable: bool },
    Callback { callback_id: CallbackId, nullable: bool, style: CallbackStyle },
    HiddenSyntheticLen { for_param: ParamName },
    HiddenOutLen { for_param: ParamName },
    HiddenOutDirect,
    HiddenStatusOut,
}

/// One parameter of an exported C function.
#[derive(Debug)]
pub struct AbiParam {
    pub name: ParamName,
    pub ffi_type: AbiType,
    pub input_shape: InputShape,
}

/// How a function's result crosses the boundary.
#[derive(Debug)]
pub enum OutputShape {
    Unit,
    Value(ValueShape),
    Handle { class_id: ClassId, nullable: bool },
    Callback { callback_id: CallbackId, nullable: bool },
}

/// A synchronous exported call.
#[derive(Debug)]
pub struct AbiCall {
    pub output_shape: OutputShape,
}

/// An asynchronous exported call, whose result is collected once it completes.
#[derive(Debug)]
pub struct AsyncCall {
    pub result_shape: OutputShape,
}

} // verus!
