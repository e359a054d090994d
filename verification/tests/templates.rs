use riff::ir::RecordId;
use riff::swift_plan::{
    CodecPlan, PrimitiveType, RecordLayout, SwiftAsyncResult, SwiftCallMode, SwiftCallback,
    SwiftCallbackMethod, SwiftCallbackParam, SwiftClass, SwiftConstructor, SwiftConversion,
    SwiftEnum, SwiftField, SwiftFunction, SwiftMethod, SwiftModule, SwiftParam, SwiftRecord,
    SwiftReturn, SwiftStream, SwiftStreamMode, SwiftVariant, SwiftVariantPayload,
};
use riff::templates::{
    render_callback, render_class, render_enum, render_function, render_preamble, render_record,
    CallbackTemplate, ClassTemplate, EnumCStyleTemplate, EnumDataTemplate, FunctionTemplate,
    PreambleTemplate, RecordTemplate, SwiftEmitter,
};

fn field(name: &str, ty: &str, default_expr: Option<&str>, codec: CodecPlan, c_offset: Option<usize>) -> SwiftField {
    SwiftField {
        swift_name: name.to_string(),
        swift_type: ty.to_string(),
        default_expr: default_expr.map(|d| d.to_string()),
        codec,
        c_offset,
    }
}

fn point() -> SwiftRecord {
    SwiftRecord {
        class_name: "Point".to_string(),
        fields: vec![
            field("x", "Double", None, CodecPlan::Primitive(PrimitiveType::F64), Some(0)),
            field("y", "Double", None, CodecPlan::Primitive(PrimitiveType::F64), Some(8)),
        ],
        is_blittable: true,
        blittable_size: Some(16),
    }
}

fn param(name: &str, ty: &str, conversion: SwiftConversion) -> SwiftParam {
    SwiftParam { label: None, name: name.to_string(), swift_type: ty.to_string(), conversion }
}

#[test]
fn blittable_record_text() {
    let record = point();
    let expected = "public struct Point {\n    public var x: Double\n    public var y: Double\n\n    public init(x: Double, y: Double) {\n        self.x = x\n        self.y = y\n    }\n}\n\nextension Point {\n    public static let wireSize = 16\n}\n";
    assert_eq!(render_record(&record), expected);
    assert_eq!(RecordTemplate::from_record(&record).render(), expected);
}

#[test]
fn record_with_defaults_text() {
    let record = SwiftRecord {
        class_name: "Config".to_string(),
        fields: vec![
            field("timeout", "Double", Some("30.0"), CodecPlan::Primitive(PrimitiveType::F64), Some(0)),
            field("name", "String", None, CodecPlan::String, None),
        ],
        is_blittable: false,
        blittable_size: None,
    };
    assert_eq!(
        render_record(&record),
        "public struct Config {\n    public var timeout: Double\n    public var name: String\n\n    public init(timeout: Double = 30.0, name: String) {\n        self.timeout = timeout\n        self.name = name\n    }\n}\n"
    );
}

#[test]
fn enum_texts() {
    let status = SwiftEnum {
        name: "ApiError".to_string(),
        is_c_style: true,
        is_error: true,
        variants: vec![
            SwiftVariant { swift_name: "notFound".to_string(), discriminant: 0, payload: SwiftVariantPayload::Unit },
            SwiftVariant { swift_name: "serverError".to_string(), discriminant: -2, payload: SwiftVariantPayload::Unit },
        ],
        doc: None,
    };
    let expected = "public enum ApiError: Int32, Error {\n    case notFound = 0\n    case serverError = -2\n}\n";
    assert_eq!(render_enum(&status), expected);
    assert_eq!(EnumCStyleTemplate::from_enum(&status).render(), expected);

    let message = SwiftEnum {
        name: "Message".to_string(),
        is_c_style: false,
        is_error: false,
        variants: vec![
            SwiftVariant { swift_name: "empty".to_string(), discriminant: 0, payload: SwiftVariantPayload::Unit },
            SwiftVariant {
                swift_name: "text".to_string(),
                discriminant: 1,
                payload: SwiftVariantPayload::Tuple(vec![field("value", "String", None, CodecPlan::String, None)]),
            },
            SwiftVariant {
                swift_name: "click".to_string(),
                discriminant: 2,
                payload: SwiftVariantPayload::Struct(vec![
                    field("x", "Int32", None, CodecPlan::Primitive(PrimitiveType::I32), None),
                    field("y", "Int32", None, CodecPlan::Primitive(PrimitiveType::I32), None),
                ]),
            },
        ],
        doc: None,
    };
    let expected = "public enum Message {\n    case empty\n    case text(String)\n    case click(x: Int32, y: Int32)\n}\n";
    assert_eq!(render_enum(&message), expected);
    assert_eq!(EnumDataTemplate::from_enum(&message).render(), expected);
}

fn greet() -> SwiftFunction {
    SwiftFunction {
        name: "greet".to_string(),
        mode: SwiftCallMode::Sync { symbol: "riff_greet".to_string() },
        params: vec![param("name", "String", SwiftConversion::ToString)],
        returns: SwiftReturn::FromWireBuffer { swift_type: "String".to_string(), codec: CodecPlan::String },
        doc: None,
    }
}

#[test]
fn function_texts() {
    let add = SwiftFunction {
        name: "add".to_string(),
        mode: SwiftCallMode::Sync { symbol: "riff_add".to_string() },
        params: vec![
            param("a", "Int32", SwiftConversion::Direct),
            SwiftParam { label: Some("to".to_string()), name: "b".to_string(), swift_type: "Int32".to_string(), conversion: SwiftConversion::Direct },
        ],
        returns: SwiftReturn::Direct { swift_type: "Int32".to_string() },
        doc: None,
    };
    assert_eq!(
        render_function(&add, "riff"),
        "public func add(a: Int32, to b: Int32) -> Int32 {\n    return riff_add(a, b)\n}\n"
    );
    assert_eq!(
        FunctionTemplate::new(&greet(), "riff").render(),
        "public func greet(name: String) -> String {\n    return WireBuffer.decode(riff_greet(name), free: riff_free_buf_u8)\n}\n"
    );
    let fetch = SwiftFunction {
        name: "fetchData".to_string(),
        mode: SwiftCallMode::Async {
            start: "riff_fetch_data_start".to_string(),
            poll: "riff_fetch_data_poll".to_string(),
            complete: "riff_fetch_data_complete".to_string(),
            cancel: "riff_fetch_data_cancel".to_string(),
            free: "riff_fetch_data_free".to_string(),
            result: Box::new(SwiftAsyncResult::Encoded {
                swift_type: "String".to_string(),
                ok_type: None,
                codec: CodecPlan::String,
                throws: false,
            }),
        },
        params: vec![param(
            "point",
            "Point",
            SwiftConversion::ToWireBuffer {
                codec: CodecPlan::Record {
                    id: RecordId::new("Point"),
                    layout: RecordLayout::Blittable { size: 16, fields: vec![PrimitiveType::F64, PrimitiveType::F64] },
                },
            },
        )],
        returns: SwiftReturn::Void,
        doc: None,
    };
    assert_eq!(
        render_function(&fetch, "riff"),
        "public func fetchData(point: Point) async throws -> String {\n    return try await riffCall(start: { riff_fetch_data_start(WireBuffer.encode(point)) }, poll: riff_fetch_data_poll, complete: riff_fetch_data_complete, cancel: riff_fetch_data_cancel, free: riff_fetch_data_free)\n}\n"
    );
}

fn validator() -> SwiftCallback {
    SwiftCallback {
        protocol_name: "Validator".to_string(),
        wrapper_class: "ValidatorWrapper".to_string(),
        vtable_var: "validatorVtable".to_string(),
        vtable_type: "ValidatorVtable".to_string(),
        bridge_name: "ValidatorBridge".to_string(),
        register_fn: "riff_register_validator".to_string(),
        create_fn: "riff_create_validator".to_string(),
        methods: vec![SwiftCallbackMethod {
            swift_name: "validate".to_string(),
            ffi_name: "validate".to_string(),
            params: vec![SwiftCallbackParam {
                label: "input".to_string(),
                swift_type: "String".to_string(),
                call_arg: "input".to_string(),
                ffi_args: vec!["inputPtr".to_string(), "inputLen".to_string()],
                decode_prelude: Some("let input = decodeString(inputPtr, inputLen)".to_string()),
            }],
            returns: SwiftReturn::Direct { swift_type: "Bool".to_string() },
            is_async: false,
            has_out_param: true,
        }],
        doc: None,
    }
}

#[test]
fn callback_text() {
    let cb = validator();
    let expected = "public protocol Validator: AnyObject {\n    func validate(input: String) -> Bool\n}\n\nfinal class ValidatorWrapper {\n    let inner: Validator\n\n    init(_ inner: Validator) {\n        self.inner = inner\n    }\n}\n\nprivate var validatorVtable = ValidatorVtable(\n    validate: { handle, inputPtr, inputLen, out in\n        let input = decodeString(inputPtr, inputLen)\n        let wrapper = Unmanaged<ValidatorWrapper>.fromOpaque(handle!).takeUnretainedValue()\n        out!.pointee = wrapper.inner.validate(input: input)\n    },\n)\n\npublic enum ValidatorBridge {\n    public static func register() {\n        riff_register_validator(&validatorVtable)\n    }\n\n    public static func create(_ value: Validator) -> OpaquePointer {\n        return riff_create_validator(Unmanaged.passRetained(ValidatorWrapper(value)).toOpaque())\n    }\n}\n";
    assert_eq!(render_callback(&cb), expected);
    assert_eq!(CallbackTemplate::new(&cb).render(), expected);
}

fn database() -> SwiftClass {
    SwiftClass {
        name: "Database".to_string(),
        ffi_free: "riff_database_free".to_string(),
        constructors: vec![
            SwiftConstructor::Designated {
                ffi_symbol: "riff_database_open".to_string(),
                params: vec![param("path", "String", SwiftConversion::ToString)],
                is_fallible: false,
                doc: None,
            },
            SwiftConstructor::Factory {
                name: "inMemory".to_string(),
                ffi_symbol: "riff_database_in_memory".to_string(),
                params: vec![],
                is_fallible: true,
                doc: None,
            },
        ],
        methods: vec![SwiftMethod {
            name: "query".to_string(),
            mode: SwiftCallMode::Sync { symbol: "riff_database_query".to_string() },
            params: vec![param("sql", "String", SwiftConversion::ToString)],
            returns: SwiftReturn::FromWireBuffer { swift_type: "String".to_string(), codec: CodecPlan::String },
            is_static: false,
            doc: None,
        }],
        streams: vec![SwiftStream {
            name: "events".to_string(),
            mode: SwiftStreamMode::Async,
            item_type: "String".to_string(),
            item_decode_expr: "wire.readString(at: 0).value".to_string(),
            subscribe: "riff_database_events_subscribe".to_string(),
            poll: "riff_database_events_poll".to_string(),
            pop_batch: "riff_database_events_pop_batch".to_string(),
            wait: "riff_database_events_wait".to_string(),
            unsubscribe: "riff_database_events_unsubscribe".to_string(),
            free: "riff_database_events_free".to_string(),
            free_buf: "riff_free_buf_u8".to_string(),
            atomic_cas: "riff_atomic_u8_cas".to_string(),
        }],
        doc: None,
    }
}

#[test]
fn class_text() {
    let cls = database();
    let expected = "public final class Database {\n    let handle: OpaquePointer\n\n    init(handle: OpaquePointer) {\n        self.handle = handle\n    }\n\n    deinit {\n        riff_database_free(handle)\n    }\n\n    public convenience init(path: String) {\n        self.init(handle: riff_database_open(path))\n    }\n\n    public static func inMemory() throws -> Database {\n        return try Database(handle: riff_database_in_memory())\n    }\n\n    public func query(sql: String) -> String {\n        return WireBuffer.decode(riff_database_query(handle, sql), free: riff_free_buf_u8)\n    }\n\n    public func events() -> AsyncStream<String> {\n        return riffStream(handle: handle, subscribe: riff_database_events_subscribe, poll: riff_database_events_poll, popBatch: riff_database_events_pop_batch, wait: riff_database_events_wait, unsubscribe: riff_database_events_unsubscribe, free: riff_database_events_free, freeBuf: riff_free_buf_u8, cas: riff_atomic_u8_cas) { wire in wire.readString(at: 0).value }\n    }\n}\n";
    assert_eq!(render_class(&cls, "riff"), expected);
    assert_eq!(ClassTemplate::new(&cls, "riff").render(), expected);
}

#[test]
fn preamble_texts() {
    let plain = render_preamble("riff", None, false, false);
    assert_eq!(plain, "// Swift bindings of the exported module.\n\nimport Foundation\n\n// C symbols of this module start with `riff_`.\n");
    let with_module = PreambleTemplate::new("riff", Some("RiffFFI"), true, true).render();
    assert!(with_module.starts_with("// Swift bindings of the exported module.\n\nimport Foundation\nimport RiffFFI\n"));
    assert!(with_module.contains("func riffCall<T>("));
    assert!(with_module.contains("func riffStream<T>("));
}

#[test]
fn emitter_puts_sections_in_order() {
    let module = SwiftModule {
        records: vec![point()],
        enums: vec![],
        callbacks: vec![validator()],
        functions: vec![greet()],
        classes: vec![database()],
    };
    assert!(module.has_streams());
    assert!(!module.has_async());
    let emitter = SwiftEmitter::with_prefix("riff").with_ffi_module("RiffFFI");
    let out = emitter.emit(&module);
    let expected = [
        render_preamble("riff", Some("RiffFFI"), false, true),
        "\n\n".to_string(),
        render_record(&point()),
        "\n\n".to_string(),
        render_callback(&validator()),
        "\n\n".to_string(),
        render_function(&greet(), "riff"),
        "\n\n".to_string(),
        render_class(&database(), "riff"),
        "\n\n".to_string(),
    ]
    .concat();
    assert_eq!(out, expected);

    let empty = SwiftModule { records: vec![], enums: vec![], callbacks: vec![], functions: vec![], classes: vec![] };
    assert_eq!(SwiftEmitter::default().emit(&empty), render_preamble("", None, false, false) + "\n\n");
    assert_eq!(SwiftEmitter::new().emit(&empty), SwiftEmitter::default().emit(&empty));
}
