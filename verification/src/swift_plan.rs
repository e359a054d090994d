//! The Swift rendering plan: every name, type and symbol the Swift templates print,
//! already decided.

use vstd::prelude::*;
use crate::ir::RecordId;

verus! {

/// A primitive type of the wire codec.
#[derive(Debug, Clone, Copy, PartialEq, Eq, Structural)]
pub enum PrimitiveType {
    Bool,
    I8,
    I16,
    I32,
    I64,
    U8,
    U16,
    U32,
    U64,
    F32,
    F64,
}

/// How a record's bytes are laid out.
#[derive(Debug)]
pub enum RecordLayout {
    /// A fixed-size C layout, with its size and its fields' primitive types.
    Blittable { size: u32, fields: Vec<PrimitiveType> },
    /// Field by field in the wire format.
    Encoded,
}

/// How a value is encoded on the wire.
#[derive(Debug)]
pub enum CodecPlan {
    Primitive(PrimitiveType),
    String,
    Bytes,
    Option(Box<CodecPlan>),
    Vec(Box<CodecPlan>),
    Record { id: RecordId, layout: RecordLayout },
}

/// A stored property of a record or of an enum payload.
#[derive(Debug)]
pub struct SwiftField {
    pub swift_name: String,
    pub swift_type: String,
    pub default_expr: Option<String>,
    pub codec: CodecPlan,
    pub c_offset: Option<usize>,
}

/// A Swift struct for a record.
#[derive(Debug)]
pub struct SwiftRecord {
    pub class_name: String,
    pub fields: Vec<SwiftField>,
    pub is_blittable: bool,
    pub blittable_size: Option<usize>,
}

/// What an enum case carries.
#[derive(Debug)]
pub enum SwiftVariantPayload {
    Unit,
    Tuple(Vec<SwiftField>),
    Struct(Vec<SwiftField>),
}

/// A case of a Swift enum.
#[derive(Debug)]
pub struct SwiftVariant {
    pub swift_name: String,
    pub discriminant: i64,
    pub payload: SwiftVariantPayload,
}

/// A Swift enum.
#[derive(Debug)]
pub struct SwiftEnum {
    pub name: String,
    pub is_c_style: bool,
    pub is_error: bool,
    pub variants: Vec<SwiftVariant>,
    pub doc: Option<String>,
}

/// How an argument is handed to the C function.
#[derive(Debug)]
pub enum SwiftConversion {
    Direct,
    ToString,
    ToWireBuffer { codec: CodecPlan },
}

/// A parameter of a Swift function or method.
#[derive(Debug)]
pub struct SwiftParam {
    pub label: Option<String>,
    pub name: String,
    pub swift_type: String,
    pub conversion: SwiftConversion,
}

/// How a result comes back from the C function.
#[derive(Debug)]
pub enum SwiftReturn {
    Void,
    Direct { swift_type: String },
    FromWireBuffer { swift_type: String, codec: CodecPlan },
}

/// How the result of an asynchronous call is collected.
#[derive(Debug)]
pub enum SwiftAsyncResult {
    Void,
    Direct { swift_type: String },
    Encoded { swift_type: String, ok_type: Option<String>, codec: CodecPlan, throws: bool },
}

/// Whether a call completes at once, or is started, polled and completed.
#[derive(Debug)]
pub enum SwiftCallMode {
    Sync { symbol: String },
    Async {
        start: String,
        poll: String,
        complete: String,
        cancel: String,
        free: String,
        result: Box<SwiftAsyncResult>,
    },
}

/// A top-level Swift function.
#[derive(Debug)]
pub struct SwiftFunction {
    pub name: String,
    pub mode: SwiftCallMode,
    pub params: Vec<SwiftParam>,
    pub returns: SwiftReturn,
    pub doc: Option<String>,
}

/// A parameter of a callback method, as Swift receives it from C.
#[derive(Debug)]
pub struct SwiftCallbackParam {
    pub label: String,
    pub swift_type: String,
    pub call_arg: String,
    pub ffi_args: Vec<String>,
    pub decode_prelude: Option<String>,
}

/// A method of a callback protocol.
#[derive(Debug)]
pub struct SwiftCallbackMethod {
    pub swift_name: String,
    pub ffi_name: String,
    pub params: Vec<SwiftCallbackParam>,
    pub returns: SwiftReturn,
    pub is_async: bool,
    pub has_out_param: bool,
}

/// A callback protocol with its bridge to C.
#[derive(Debug)]
pub struct SwiftCallback {
    pub protocol_name: String,
    pub wrapper_class: String,
    pub vtable_var: String,
    pub vtable_type: String,
    pub bridge_name: String,
    pub register_fn: String,
    pub create_fn: String,
    pub methods: Vec<SwiftCallbackMethod>,
    pub doc: Option<String>,
}

/// A constructor of a Swift class.
#[derive(Debug)]
pub enum SwiftConstructor {
    Designated { ffi_symbol: String, params: Vec<SwiftParam>, is_fallible: bool, doc: Option<String> },
    Factory {
        name: String,
        ffi_symbol: String,
        params: Vec<SwiftParam>,
        is_fallible: bool,
        doc: Option<String>,
    },
}

/// A method of a Swift class.
#[derive(Debug)]
pub struct SwiftMethod {
    pub name: String,
    pub mode: SwiftCallMode,
    pub params: Vec<SwiftParam>,
    pub returns: SwiftReturn,
    pub is_static: bool,
    pub doc: Option<String>,
}

/// How a stream hands out its items.
#[derive(Debug, Clone, Copy, PartialEq, Eq, Structural)]
pub enum SwiftStreamMode {
    Async,
    Batch,
    Callback,
}

/// A stream of a Swift class.
#[derive(Debug)]
pub struct SwiftStream {
    pub name: String,
    pub mode: SwiftStreamMode,
    pub item_type: String,
    pub item_decode_expr: String,
    pub subscribe: String,
    pub poll: String,
    pub pop_batch: String,
    pub wait: String,
    pub unsubscribe: String,
    pub free: String,
    pub free_buf: String,
    pub atomic_cas: String,
}

/// A Swift class wrapping an object handle.
#[derive(Debug)]
pub struct SwiftClass {
    pub name: String,
    pub ffi_free: String,
    pub constructors: Vec<SwiftConstructor>,
    pub methods: Vec<SwiftMethod>,
    pub streams: Vec<SwiftStream>,
    pub doc: Option<String>,
}

/// Everything one Swift file holds.
#[derive(Debug)]
pub struct SwiftModule {
    pub records: Vec<SwiftRecord>,
    pub enums: Vec<SwiftEnum>,
    pub callbacks: Vec<SwiftCallback>,
    pub functions: Vec<SwiftFunction>,
    pub classes: Vec<SwiftClass>,
}

/// Some function or method of the module is asynchronous.
pub open spec fn spec_has_async(m: SwiftModule) -> bool {
    ||| exists|i: int| 0 <= i < m.functions@.len() && (#[trigger] m.functions@[i]).mode is Async
    ||| exists|i: int, j: int|
        0 <= i < m.classes@.len() && 0 <= j < (#[trigger] m.classes@[i]).methods@.len()
            && (#[trigger] m.classes@[i].methods@[j]).mode is Async
}

/// Some class of the module has a stream.
pub open spec fn spec_has_streams(m: SwiftModule) -> bool {
    exists|i: int| 0 <= i < m.classes@.len() && (#[trigger] m.classes@[i]).streams@.len() > 0
}

impl SwiftModule {
    /// Whether some function or method is asynchronous.
    pub fn has_async(&self) -> (r: bool)
        ensures
            r == spec_has_async(*self),
    {
        let mut i: usize = 0;
        while i < self.functions.len()
            invariant
                i <= self.functions@.len(),
                forall|k: int| 0 <= k < i ==> !((#[trigger] self.functions@[k]).mode is Async),
            decreases self.functions.len() - i,
        {
            if let SwiftCallMode::Async { .. } = self.functions[i].mode {
                return true;
            }
            i = i + 1;
        }
        let mut c: usize = 0;
        while c < self.classes.len()
            invariant
                c <= self.classes@.len(),
                forall|k: int| 0 <= k < self.functions@.len() ==> !((#[trigger] self.functions@[k]).mode is Async),
                forall|a: int, b: int|
                    0 <= a < c && 0 <= b < (#[trigger] self.classes@[a]).methods@.len() ==> !((
                    #[trigger] self.classes@[a].methods@[b]).mode is Async),
            decreases self.classes.len() - c,
        {
            let methods = &self.classes[c].methods;
            let mut j: usize = 0;
            while j < methods.len()
                invariant
                    c < self.classes@.len(),
                    methods == self.classes@[c as int].methods,
                    j <= methods@.len(),
                    forall|b: int| 0 <= b < j ==> !((#[trigger] methods@[b]).mode is Async),
                decreases methods.len() - j,
            {
                if let SwiftCallMode::Async { .. } = methods[j].mode {
                    assert(self.classes@[c as int].methods@[j as int].mode is Async);
                    return true;
                }
                j = j + 1;
            }
            c = c + 1;
        }
        false
    }

    /// Whether some class has a stream.
    pub fn has_streams(&self) -> (r: bool)
        ensures
            r == spec_has_streams(*self),
    {
        let mut i: usize = 0;
        while i < self.classes.len()
            invariant
                i <= self.classes@.len(),
                forall|k: int| 0 <= k < i ==> (#[trigger] self.classes@[k]).streams@.len() == 0,
            decreases self.classes.len() - i,
        {
            if self.classes[i].streams.len() > 0 {
                return true;
            }
            i = i + 1;
        }
        false
    }
}

} // verus!
