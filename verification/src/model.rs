//! The language-neutral model of an exported module: classes, records, enums and the
//! types that appear in them.

use vstd::prelude::*;
use vstd::string::StringExecFns;
use crate::naming::{snake_case, to_snake_case};

verus! {

/// A primitive scalar type.
#[derive(Debug, Clone, Copy, PartialEq, Eq, Structural)]
pub enum Primitive {
    Bool,
    I8,
    I16,
    I32,
    I64,
    U8,
    U16,
    U32,
    U64,
    F32,
    F64,
    Usize,
    Isize,
}

/// A type in the exported interface.
#[derive(Debug)]
pub enum Type {
    Primitive(Primitive),
    String,
    Bytes,
    Vec(Box<Type>),
    Option(Box<Type>),
    Result { ok: Box<Type>, err: Box<Type> },
    Record(String),
    Enum(String),
    Object(String),
    Void,
}

impl Type {
    /// A vector of `inner`.
    pub fn vec(inner: Type) -> (r: Type)
        ensures
            r matches Type::Vec(b) && *b == inner,
    {
        Type::Vec(Box::new(inner))
    }

    /// An optional `inner`.
    pub fn option(inner: Type) -> (r: Type)
        ensures
            r matches Type::Option(b) && *b == inner,
    {
        Type::Option(Box::new(inner))
    }

    /// A fallible result.
    pub fn result(ok: Type, err: Type) -> (r: Type)
        ensures
            r matches Type::Result { ok: o, err: e } && *o == ok && *e == err,
    {
        Type::Result { ok: Box::new(ok), err: Box::new(err) }
    }

    /// Whether this is the unit type.
    pub fn is_void(&self) -> (r: bool)
        ensures
            r == (*self is Void),
    {
        match self {
            Type::Void => true,
            _ => false,
        }
    }

    /// Whether a value of this type can be an error.
    pub fn is_result(&self) -> (r: bool)
        ensures
            r == (*self is Result),
    {
        match self {
            Type::Result { .. } => true,
            _ => false,
        }
    }
}

/// Why and since when an item is deprecated.
#[derive(Debug)]
pub struct Deprecation {
    pub note: Option<String>,
    pub since: Option<String>,
}

/// A named, typed parameter.
#[derive(Debug)]
pub struct Parameter {
    pub name: String,
    pub param_type: Type,
}

impl Parameter {
    pub fn new(name: &str, param_type: Type) -> (r: Self)
        ensures
            r.name@ == name@,
            r.param_type == param_type,
    {
        Parameter { name: name.to_owned(), param_type }
    }
}

/// How a method receives its object.
#[derive(Debug, Clone, Copy, PartialEq, Eq, Structural)]
pub enum Receiver {
    Static,
    Ref,
    RefMut,
    Owned,
}

/// A method of a class.
#[derive(Debug)]
pub struct Method {
    pub name: String,
    pub receiver: Receiver,
    pub inputs: Vec<Parameter>,
    pub output: Option<Type>,
    pub is_async: bool,
    pub doc: Option<String>,
}

impl Method {
    pub fn new(name: &str, receiver: Receiver) -> (r: Self)
        ensures
            r.name@ == name@,
            r.receiver == receiver,
            r.inputs@.len() == 0,
            r.output is None,
            !r.is_async,
            r.doc is None,
    {
        Method {
            name: name.to_owned(),
            receiver,
            inputs: Vec::new(),
            output: None,
            is_async: false,
            doc: None,
        }
    }

    pub fn with_param(self, param: Parameter) -> (r: Self)
        ensures
            r.inputs@ == self.inputs@.push(param),
            r.name == self.name,
            r.receiver == self.receiver,
            r.output == self.output,
            r.is_async == self.is_async,
            r.doc == self.doc,
    {
        let mut m = self;
        m.inputs.push(param);
        m
    }

    pub fn with_output(self, output: Type) -> (r: Self)
        ensures
            r.output == Some(output),
            r.name == self.name,
            r.receiver == self.receiver,
            r.inputs == self.inputs,
            r.is_async == self.is_async,
            r.doc == self.doc,
    {
        let mut m = self;
        m.output = Some(output);
        m
    }

    pub fn make_async(self) -> (r: Self)
        ensures
            r.is_async,
            r.name == self.name,
            r.receiver == self.receiver,
            r.inputs == self.inputs,
            r.output == self.output,
            r.doc == self.doc,
    {
        let mut m = self;
        m.is_async = true;
        m
    }

    pub fn with_doc(self, doc: &str) -> (r: Self)
        ensures
            r.doc matches Some(d) && d@ == doc@,
            r.name == self.name,
            r.receiver == self.receiver,
            r.inputs == self.inputs,
            r.output == self.output,
            r.is_async == self.is_async,
    {
        let mut m = self;
        m.doc = Some(doc.to_owned());
        m
    }

    /// Whether the method can fail: its output is a result.
    pub fn throws(&self) -> (r: bool)
        ensures
            r == (self.output matches Some(t) && t is Result),
    {
        match &self.output {
            Some(t) => t.is_result(),
            None => false,
        }
    }

    /// The C symbol of the method under the class prefix.
    pub fn ffi_name(&self, class_prefix: &str) -> (r: String)
        ensures
            r@ == class_prefix@ + "_"@ + snake_case(self.name@),
    {
        let mut s = class_prefix.to_owned();
        s.append("_");
        let n = to_snake_case(self.name.as_str());
        s.append(n.as_str());
        s
    }

    /// The C symbol that polls the method's pending result.
    pub fn ffi_poll(&self, class_prefix: &str) -> (r: String)
        ensures
            r@ == class_prefix@ + "_"@ + snake_case(self.name@) + "_poll"@,
    {
        let mut s = self.ffi_name(class_prefix);
        s.append("_poll");
        s
    }
}

/// A constructor of a class.
#[derive(Debug)]
pub struct Constructor {
    pub inputs: Vec<Parameter>,
    pub doc: Option<String>,
}

impl Constructor {
    pub fn new() -> (r: Self)
        ensures
            r.inputs@.len() == 0,
            r.doc is None,
    {
        Constructor { inputs: Vec::new(), doc: None }
    }

    pub fn with_param(self, param: Parameter) -> (r: Self)
        ensures
            r.inputs@ == self.inputs@.push(param),
            r.doc == self.doc,
    {
        let mut c = self;
        c.inputs.push(param);
        c
    }
}

/// A method of a class that produces a stream of items.
#[derive(Debug)]
pub struct StreamMethod {
    pub name: String,
    pub item_type: Type,
}

impl StreamMethod {
    pub fn new(name: &str, item_type: Type) -> (r: Self)
        ensures
            r.name@ == name@,
            r.item_type == item_type,
    {
        StreamMethod { name: name.to_owned(), item_type }
    }
}

/// An exported class.
#[derive(Debug)]
pub struct Class {
    pub name: String,
    pub constructors: Vec<Constructor>,
    pub methods: Vec<Method>,
    pub streams: Vec<StreamMethod>,
    pub doc: Option<String>,
}

impl Class {
    pub fn new(name: &str) -> (r: Self)
        ensures
            r.name@ == name@,
            r.constructors@.len() == 0,
            r.methods@.len() == 0,
            r.streams@.len() == 0,
            r.doc is None,
    {
        Class {
            name: name.to_owned(),
            constructors: Vec::new(),
            methods: Vec::new(),
            streams: Vec::new(),
            doc: None,
        }
    }

    pub fn with_doc(self, doc: &str) -> (r: Self)
        ensures
            r.doc matches Some(d) && d@ == doc@,
            r.name == self.name,
            r.constructors == self.constructors,
            r.methods == self.methods,
            r.streams == self.streams,
    {
        let mut c = self;
        c.doc = Some(doc.to_owned());
        c
    }

    pub fn with_constructor(self, constructor: Constructor) -> (r: Self)
        ensures
            r.constructors@ == self.constructors@.push(constructor),
            r.name == self.name,
            r.methods == self.methods,
            r.streams == self.streams,
            r.doc == self.doc,
    {
        let mut c = self;
        c.constructors.push(constructor);
        c
    }

    pub fn with_method(self, method: Method) -> (r: Self)
        ensures
            r.methods@ == self.methods@.push(method),
            r.name == self.name,
            r.constructors == self.constructors,
            r.streams == self.streams,
            r.doc == self.doc,
    {
        let mut c = self;
        c.methods.push(method);
        c
    }

    pub fn with_stream(self, stream: StreamMethod) -> (r: Self)
        ensures
            r.streams@ == self.streams@.push(stream),
            r.name == self.name,
            r.constructors == self.constructors,
            r.methods == self.methods,
            r.doc == self.doc,
    {
        let mut c = self;
        c.streams.push(stream);
        c
    }

    /// The prefix of the class's C symbols under the module prefix.
    pub fn ffi_prefix(&self, module_prefix: &str) -> (r: String)
        ensures
            r@ == module_prefix@ + "_"@ + snake_case(self.name@),
    {
        let mut s = module_prefix.to_owned();
        s.append("_");
        let n = to_snake_case(self.name.as_str());
        s.append(n.as_str());
        s
    }

    /// The C symbol that creates an object of the class.
    pub fn ffi_new(&self, module_prefix: &str) -> (r: String)
        ensures
            r@ == module_prefix@ + "_"@ + snake_case(self.name@) + "_new"@,
    {
        let mut s = self.ffi_prefix(module_prefix);
        s.append("_new");
        s
    }

    /// The C symbol that frees an object of the class.
    pub fn ffi_free(&self, module_prefix: &str) -> (r: String)
        ensures
            r@ == module_prefix@ + "_"@ + snake_case(self.name@) + "_free"@,
    {
        let mut s = self.ffi_prefix(module_prefix);
        s.append("_free");
        s
    }
}

/// A field of a record or of an enum variant.
#[derive(Debug)]
pub struct RecordField {
    pub name: String,
    pub field_type: Type,
}

impl RecordField {
    pub fn new(name: &str, field_type: Type) -> (r: Self)
        ensures
            r.name@ == name@,
            r.field_type == field_type,
    {
        RecordField { name: name.to_owned(), field_type }
    }
}

/// A record: a value type with named fields.
#[derive(Debug)]
pub struct Record {
    pub name: String,
    pub fields: Vec<RecordField>,
}

impl Record {
    pub fn new(name: &str) -> (r: Self)
        ensures
            r.name@ == name@,
            r.fields@.len() == 0,
    {
        Record { name: name.to_owned(), fields: Vec::new() }
    }

    pub fn with_field(self, field: RecordField) -> (r: Self)
        ensures
            r.fields@ == self.fields@.push(field),
            r.name == self.name,
    {
        let mut rec = self;
        rec.fields.push(field);
        rec
    }
}

/// A variant of an enumeration, with an optional explicit discriminant and fields.
#[derive(Debug)]
pub struct Variant {
    pub name: String,
    pub discriminant: Option<i64>,
    pub fields: Vec<RecordField>,
}

impl Variant {
    pub fn new(name: &str) -> (r: Self)
        ensures
            r.name@ == name@,
            r.discriminant is None,
            r.fields@.len() == 0,
    {
        Variant { name: name.to_owned(), discriminant: None, fields: Vec::new() }
    }

    pub fn with_discriminant(self, discriminant: i64) -> (r: Self)
        ensures
            r.discriminant == Some(discriminant),
            r.name == self.name,
            r.fields == self.fields,
    {
        let mut v = self;
        v.discriminant = Some(discriminant);
        v
    }

    pub fn with_field(self, field: RecordField) -> (r: Self)
        ensures
            r.fields@ == self.fields@.push(field),
            r.name == self.name,
            r.discriminant == self.discriminant,
    {
        let mut v = self;
        v.fields.push(field);
        v
    }
}

/// An enumeration.
#[derive(Debug)]
pub struct Enumeration {
    pub name: String,
    pub variants: Vec<Variant>,
}

/// No variant carries a field.
pub open spec fn spec_is_c_style(variants: Seq<Variant>) -> bool {
    forall|i: int| 0 <= i < variants.len() ==> (#[trigger] variants[i]).fields@.len() == 0
}

impl Enumeration {
    pub fn new(name: &str) -> (r: Self)
        ensures
            r.name@ == name@,
            r.variants@.len() == 0,
    {
        Enumeration { name: name.to_owned(), variants: Vec::new() }
    }

    pub fn with_variant(self, variant: Variant) -> (r: Self)
        ensures
            r.variants@ == self.variants@.push(variant),
            r.name == self.name,
    {
        let mut e = self;
        e.variants.push(variant);
        e
    }

    /// Whether no variant carries a field.
    pub fn is_c_style(&self) -> (r: bool)
        ensures
            r == spec_is_c_style(self.variants@),
    {
        let mut i: usize = 0;
        while i < self.variants.len()
            invariant
                i <= self.variants@.len(),
                forall|j: int| 0 <= j < i ==> (#[trigger] self.variants@[j]).fields@.len() == 0,
            decreases self.variants.len() - i,
        {
            if self.variants[i].fields.len() != 0 {
                return false;
            }
            i = i + 1;
        }
        true
    }

    /// Whether some variant carries a field.
    pub fn is_data_enum(&self) -> (r: bool)
        ensures
            r == !spec_is_c_style(self.variants@),
    {
        !self.is_c_style()
    }
}

/// An exported module.
#[derive(Debug)]
pub struct Module {
    pub name: String,
    pub classes: Vec<Class>,
    pub records: Vec<Record>,
    pub enums: Vec<Enumeration>,
}

impl Module {
    pub fn new(name: &str) -> (r: Self)
        ensures
            r.name@ == name@,
            r.classes@.len() == 0,
            r.records@.len() == 0,
            r.enums@.len() == 0,
    {
        Module { name: name.to_owned(), classes: Vec::new(), records: Vec::new(), enums: Vec::new() }
    }

    pub fn with_class(self, class: Class) -> (r: Self)
        ensures
            r.classes@ == self.classes@.push(class),
            r.name == self.name,
            r.records == self.records,
            r.enums == self.enums,
    {
        let mut m = self;
        m.classes.push(class);
        m
    }

    pub fn with_record(self, record: Record) -> (r: Self)
        ensures
            r.records@ == self.records@.push(record),
            r.name == self.name,
            r.classes == self.classes,
            r.enums == self.enums,
    {
        let mut m = self;
        m.records.push(record);
        m
    }

    pub fn with_enum(self, enumeration: Enumeration) -> (r: Self)
        ensures
            r.enums@ == self.enums@.push(enumeration),
            r.name == self.name,
            r.classes == self.classes,
            r.records == self.records,
    {
        let mut m = self;
        m.enums.push(enumeration);
        m
    }

    /// The prefix of every C symbol of the module.
    pub fn ffi_prefix(&self) -> (r: String)
        ensures
            r@ == "mffi_"@ + snake_case(self.name@),
    {
        let mut s = "mffi_".to_owned();
        let n = to_snake_case(self.name.as_str());
        s.append(n.as_str());
        s
    }

    /// The first class named `name`.
    pub fn find_class(&self, name: &str) -> (r: Option<&Class>)
        ensures
            match r {
                Some(c) => exists|i: int|
                    0 <= i < self.classes@.len() && self.classes@[i] == *c && c.name@ == name@
                        && forall|j: int| 0 <= j < i ==> (#[trigger] self.classes@[j]).name@ != name@,
                None => forall|i: int|
                    0 <= i < self.classes@.len() ==> (#[trigger] self.classes@[i]).name@ != name@,
            },
    {
        let wanted = name.to_owned();
        let mut i: usize = 0;
        while i < self.classes.len()
            invariant
                i <= self.classes@.len(),
                wanted@ == name@,
                forall|j: int| 0 <= j < i ==> (#[trigger] self.classes@[j]).name@ != name@,
            decreases self.classes.len() - i,
        {
            if self.classes[i].name == wanted {
                return Some(&self.classes[i]);
            }
            i = i + 1;
        }
        None
    }

    /// The first record named `name`.
    pub fn find_record(&self, name: &str) -> (r: Option<&Record>)
        ensures
            match r {
                Some(c) => exists|i: int|
                    0 <= i < self.records@.len() && self.records@[i] == *c && c.name@ == name@
                        && forall|j: int| 0 <= j < i ==> (#[trigger] self.records@[j]).name@ != name@,
                None => forall|i: int|
                    0 <= i < self.records@.len() ==> (#[trigger] self.records@[i]).name@ != name@,
            },
    {
        let wanted = name.to_owned();
        let mut i: usize = 0;
        while i < self.records.len()
            invariant
                i <= self.records@.len(),
                wanted@ == name@,
                forall|j: int| 0 <= j < i ==> (#[trigger] self.records@[j]).name@ != name@,
            decreases self.records.len() - i,
        {
            if self.records[i].name == wanted {
                return Some(&self.records[i]);
            }
            i = i + 1;
        }
        None
    }

    /// The first enumeration named `name`.
    pub fn find_enum(&self, name: &str) -> (r: Option<&Enumeration>)
        ensures
            match r {
                Some(c) => exists|i: int|
                    0 <= i < self.enums@.len() && self.enums@[i] == *c && c.name@ == name@
                        && forall|j: int| 0 <= j < i ==> (#[trigger] self.enums@[j]).name@ != name@,
                None => forall|i: int|
                    0 <= i < self.enums@.len() ==> (#[trigger] self.enums@[i]).name@ != name@,
            },
    {
        let wanted = name.to_owned();
        let mut i: usize = 0;
        while i < self.enums.len()
            invariant
                i <= self.enums@.len(),
                wanted@ == name@,
                forall|j: int| 0 <= j < i ==> (#[trigger] self.enums@[j]).name@ != name@,
            decreases self.enums.len() - i,
        {
            if self.enums[i].name == wanted {
                return Some(&self.enums[i]);
            }
            i = i + 1;
        }
        None
    }
}

} // verus!
