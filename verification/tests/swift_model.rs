use riff::model::{
    Class, Constructor, Enumeration, Method, Module, Parameter, Primitive, Receiver, Record,
    RecordField, StreamMethod, Type, Variant,
};
use riff::swift::Swift;

fn create_test_module() -> Module {
    let sensor_class = Class::new("Sensor")
        .with_doc("A hardware sensor interface")
        .with_constructor(Constructor::new())
        .with_method(
            Method::new("get_reading", Receiver::Ref)
                .with_output(Type::Primitive(Primitive::F64)),
        )
        .with_method(
            Method::new("predict_next", Receiver::Ref)
                .with_param(Parameter::new("samples", Type::Primitive(Primitive::U32)))
                .with_output(Type::vec(Type::Primitive(Primitive::F64)))
                .make_async(),
        )
        .with_stream(StreamMethod::new(
            "readings",
            Type::Primitive(Primitive::F64),
        ));

    let reading_record = Record::new("SensorReading")
        .with_field(RecordField::new("timestamp", Type::Primitive(Primitive::U64)))
        .with_field(RecordField::new("value", Type::Primitive(Primitive::F64)))
        .with_field(RecordField::new("unit", Type::String));

    let status_enum = Enumeration::new("SensorStatus")
        .with_variant(Variant::new("idle").with_discriminant(0))
        .with_variant(Variant::new("active").with_discriminant(1))
        .with_variant(Variant::new("error").with_discriminant(2));

    Module::new("sensors")
        .with_class(sensor_class)
        .with_record(reading_record)
        .with_enum(status_enum)
}

#[test]
fn test_module_ffi_prefix() {
    let module = create_test_module();
    assert_eq!(module.ffi_prefix(), "mffi_sensors");
}

#[test]
fn test_class_ffi_names() {
    let module = create_test_module();
    let class = module.find_class("Sensor").unwrap();
    let prefix = module.ffi_prefix();

    assert_eq!(class.ffi_new(&prefix), "mffi_sensors_sensor_new");
    assert_eq!(class.ffi_free(&prefix), "mffi_sensors_sensor_free");
}

#[test]
fn test_method_ffi_names() {
    let module = create_test_module();
    let class = module.find_class("Sensor").unwrap();
    let class_prefix = class.ffi_prefix(&module.ffi_prefix());
    let method = class.methods.iter().find(|m| m.name == "predict_next").unwrap();

    assert_eq!(method.ffi_name(&class_prefix), "mffi_sensors_sensor_predict_next");
    assert_eq!(method.ffi_poll(&class_prefix), "mffi_sensors_sensor_predict_next_poll");
}

#[test]
fn test_swift_type_mapping() {
    assert_eq!(Swift::swift_type_name(&Type::Primitive(Primitive::I32)), "Int32");
    assert_eq!(Swift::swift_type_name(&Type::Primitive(Primitive::Bool)), "Bool");
    assert_eq!(Swift::swift_type_name(&Type::String), "String");
    assert_eq!(Swift::swift_type_name(&Type::Bytes), "Data");
    assert_eq!(Swift::swift_type_name(&Type::vec(Type::Primitive(Primitive::F64))), "[Double]");
    assert_eq!(Swift::swift_type_name(&Type::option(Type::String)), "String?");
}

#[test]
fn test_swift_naming_convention() {
    assert_eq!(Swift::class_name("sensor_manager"), "SensorManager");
    assert_eq!(Swift::method_name("get_current_reading"), "getCurrentReading");
    assert_eq!(Swift::param_name("sample_count"), "sampleCount");
    assert_eq!(Swift::enum_case_name("NOT_FOUND"), "notFound");
}

#[test]
fn test_enum_detection() {
    let c_style = Enumeration::new("Status")
        .with_variant(Variant::new("ok"))
        .with_variant(Variant::new("error"));

    let data_enum = Enumeration::new("Result")
        .with_variant(Variant::new("success").with_field(RecordField::new("value", Type::Primitive(Primitive::I32))))
        .with_variant(Variant::new("failure"));

    assert!(c_style.is_c_style());
    assert!(!data_enum.is_c_style());
    assert!(data_enum.is_data_enum());
}

#[test]
fn test_swift_params_declaration() {
    let params = vec![
        Parameter::new("sample_count", Type::Primitive(Primitive::U32)),
        Parameter::new("threshold", Type::Primitive(Primitive::F64)),
    ];

    let output = Swift::params_declaration(&params);
    assert_eq!(output, "sampleCount: UInt32, threshold: Double");
}

#[test]
fn naming_splits_on_case_changes_and_separators() {
    assert_eq!(Swift::class_name("SensorReading"), "SensorReading");
    assert_eq!(Swift::class_name("http-client v2"), "HttpClientV2");
    assert_eq!(Swift::property_name("max_Value"), "maxValue");
    assert_eq!(Swift::method_name("__init__"), "init");
    assert_eq!(Swift::class_name(""), "");
    assert_eq!(riff::naming::to_snake_case("SensorManager"), "sensor_manager");
    assert_eq!(riff::naming::to_snake_case("a1B"), "a1_b");
}

#[test]
fn camel_is_decapitalized_pascal_on_examples() {
    for name in ["sensor_manager", "NOT_FOUND", "x", "_a_b_", "already_camelCase"] {
        let pascal = Swift::class_name(name);
        let camel = Swift::method_name(name);
        let mut expected: Vec<char> = pascal.chars().collect();
        if let Some(first) = expected.first_mut() {
            *first = first.to_ascii_lowercase();
        }
        assert_eq!(camel, expected.into_iter().collect::<String>());
    }
}

#[test]
fn method_signatures() {
    let module = create_test_module();
    let class = module.find_class("Sensor").unwrap();
    assert_eq!(Swift::method_signature(&class.methods[0]), "() -> Double");
    assert_eq!(Swift::method_signature(&class.methods[1]), "(samples: UInt32) async -> [Double]");
    let fallible = Method::new("load", Receiver::Static)
        .with_param(Parameter::new("path", Type::String))
        .with_output(Type::result(Type::Record("user_profile".to_string()), Type::String));
    assert!(fallible.throws());
    assert_eq!(Swift::method_signature(&fallible), "(path: String) throws -> UserProfile");
    let unit = Method::new("reset", Receiver::RefMut).with_output(Type::Void);
    assert_eq!(Swift::method_signature(&unit), "()");
}

#[test]
fn find_returns_none_for_missing_names() {
    let module = create_test_module();
    assert!(module.find_class("Missing").is_none());
    assert!(module.find_record("SensorReading").is_some());
    assert!(module.find_enum("SensorStatus").is_some());
    assert!(module.find_enum("sensor_status").is_none());
}

#[test]
fn test_swift_record_generation() {
    let module = create_test_module();
    let record = module.find_record("SensorReading").unwrap();
    let output = Swift::render_record(record);

    assert!(output.contains("public struct SensorReading"));
    assert!(output.contains("public var timestamp: UInt64"));
    assert!(output.contains("public var value: Double"));
    assert!(output.contains("public var unit: String"));
}

#[test]
fn test_swift_enum_generation() {
    let module = create_test_module();
    let enumeration = module.find_enum("SensorStatus").unwrap();
    let output = Swift::render_enum(enumeration);

    assert!(output.contains("public enum SensorStatus: Int32"));
    assert!(output.contains("case idle = 0"));
    assert!(output.contains("case active = 1"));
    assert!(output.contains("case error = 2"));
}

#[test]
fn record_source_is_exact() {
    let record = Record::new("point")
        .with_field(RecordField::new("x_pos", Type::Primitive(Primitive::I32)))
        .with_field(RecordField::new("y_pos", Type::option(Type::String)));
    assert_eq!(
        Swift::render_record(&record),
        "public struct Point {\n    public var xPos: Int32\n    public var yPos: String?\n\n    public init(xPos: Int32, yPos: String?) {\n        self.xPos = xPos\n        self.yPos = yPos\n    }\n}\n"
    );
}

#[test]
fn enum_sources_are_exact() {
    let c_style = Enumeration::new("log_level")
        .with_variant(Variant::new("DEBUG"))
        .with_variant(Variant::new("warn").with_discriminant(-7))
        .with_variant(Variant::new("error"));
    assert_eq!(
        Swift::render_enum(&c_style),
        "public enum LogLevel: Int32 {\n    case debug = 0\n    case warn = -7\n    case error = 2\n}\n"
    );
    let data = Enumeration::new("shape")
        .with_variant(Variant::new("circle").with_field(RecordField::new("radius", Type::Primitive(Primitive::F64))))
        .with_variant(Variant::new("empty"));
    assert_eq!(
        Swift::render_enum(&data),
        "public enum Shape {\n    case circle(radius: Double)\n    case empty\n}\n"
    );
}

#[test]
fn class_source_is_exact() {
    let module = create_test_module();
    let class = module.find_class("Sensor").unwrap();
    let expected = "public final class Sensor {\n    private let handle: OpaquePointer\n\n    private init(handle: OpaquePointer) {\n        self.handle = handle\n    }\n\n    deinit {\n        mffi_sensors_sensor_free(handle)\n    }\n\n    public convenience init() {\n        self.init(handle: mffi_sensors_sensor_new())\n    }\n\n    public func getReading() -> Double {\n        return mffi_sensors_sensor_get_reading(handle)\n    }\n\n    public func predictNext(samples: UInt32) async -> [Double] {\n        return await riffAwait(poll: mffi_sensors_sensor_predict_next_poll) { mffi_sensors_sensor_predict_next(handle, samples) }\n    }\n\n    public func readings() -> AsyncStream<Double> {\n        return AsyncStream { continuation in\n            mffi_sensors_sensor_readings_subscribe(handle, continuation)\n        }\n    }\n}\n";
    assert_eq!(Swift::render_class(class, &module), expected);
    assert_eq!(
        Swift::render_method_body(&class.methods[0], class, &module),
        "        return mffi_sensors_sensor_get_reading(handle)\n"
    );
    assert_eq!(
        Swift::render_stream_body(&class.streams[0], class, &module),
        "        return AsyncStream { continuation in\n            mffi_sensors_sensor_readings_subscribe(handle, continuation)\n        }\n"
    );
}

#[test]
fn converted_names_have_no_separators_and_right_first_letter() {
    for name in ["__Big__bad_wolf", "x-y z", "ABC_def", "9lives", "a__b"] {
        let pascal = Swift::class_name(name);
        let camel = Swift::method_name(name);
        let snake = riff::naming::to_snake_case(name);
        assert!(!pascal.contains(['_', '-', ' ']));
        assert!(!camel.contains(['_', '-', ' ']));
        assert!(!snake.chars().any(|c| c.is_ascii_uppercase()));
        if let Some(c) = pascal.chars().next() {
            assert!(!c.is_ascii_lowercase());
        }
        if let Some(c) = camel.chars().next() {
            assert!(!c.is_ascii_uppercase());
        }
        assert!(!snake.starts_with('_') && !snake.ends_with('_') && !snake.contains("__"));
    }
    assert_eq!(riff::naming::to_snake_case("__Big__bad_wolf"), "big_bad_wolf");
}
