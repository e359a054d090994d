use riff::binding::{FastOutputBinding, HiddenInputBinding, InputBinding, InputParam, OutputBinding, ParamBinding, WireOutputKind};
use riff::ir::{
    AbiCall, AbiParam, AbiType, AsyncCall, CallbackId, CallbackStyle, ClassId, InputShape, Mutability,
    OutputShape, ParamName, ReadOp, ReadSeq, RecordId, SizeExpr, ValueShape, WireShape, WriteOp,
    WriteSeq,
};

fn empty_read_seq() -> ReadSeq {
    ReadSeq {
        size: SizeExpr::Fixed(0),
        ops: Vec::new(),
        shape: WireShape::Value,
    }
}

fn empty_write_seq() -> WriteSeq {
    WriteSeq {
        size: SizeExpr::Fixed(0),
        ops: Vec::new(),
        shape: WireShape::Value,
    }
}

#[test]
fn input_abi_maps_supported_shapes() {
    let len_param = ParamName::new("payload_len");
    let class_id = ClassId::new("Connection");
    let callback_id = CallbackId::new("OnEvent");

    assert!(matches!(
        InputBinding::from_abi_param(&AbiParam {
            name: ParamName::new("value"),
            ffi_type: AbiType::I32,
            input_shape: InputShape::Value(ValueShape::Scalar(AbiType::I32)),
        }),
        Some(InputBinding::Scalar)
    ));
    assert!(matches!(
        InputBinding::from_abi_param(&AbiParam {
            name: ParamName::new("value"),
            ffi_type: AbiType::Pointer,
            input_shape: InputShape::Utf8Slice {
                len_param: len_param.clone(),
            },
        }),
        Some(InputBinding::Utf8Slice { .. })
    ));
    assert!(matches!(
        InputBinding::from_abi_param(&AbiParam {
            name: ParamName::new("value"),
            ffi_type: AbiType::Pointer,
            input_shape: InputShape::PrimitiveSlice {
                len_param: len_param.clone(),
                mutability: Mutability::Shared,
                element_abi: AbiType::I32,
            },
        }),
        Some(InputBinding::PrimitiveSlice { .. })
    ));
    assert!(matches!(
        InputBinding::from_abi_param(&AbiParam {
            name: ParamName::new("value"),
            ffi_type: AbiType::Pointer,
            input_shape: InputShape::WirePacket {
                len_param: len_param.clone(),
                value: ValueShape::WireEncoded {
                    read: empty_read_seq(),
                    write: empty_write_seq(),
                },
            },
        }),
        Some(InputBinding::WirePacket { .. })
    ));
    assert!(matches!(
        InputBinding::from_abi_param(&AbiParam {
            name: ParamName::new("value"),
            ffi_type: AbiType::Pointer,
            input_shape: InputShape::OutputBuffer {
                len_param: len_param.clone(),
                value: ValueShape::WireEncoded {
                    read: empty_read_seq(),
                    write: empty_write_seq(),
                },
            },
        }),
        Some(InputBinding::OutputBuffer { .. })
    ));
    assert!(matches!(
        InputBinding::from_abi_param(&AbiParam {
            name: ParamName::new("value"),
            ffi_type: AbiType::Pointer,
            input_shape: InputShape::Handle {
                class_id: class_id.clone(),
                nullable: true,
            },
        }),
        Some(InputBinding::Handle { .. })
    ));
    assert!(matches!(
        InputBinding::from_abi_param(&AbiParam {
            name: ParamName::new("value"),
            ffi_type: AbiType::Pointer,
            input_shape: InputShape::Callback {
                callback_id: callback_id.clone(),
                nullable: false,
                style: CallbackStyle::BoxedDyn,
            },
        }),
        Some(InputBinding::CallbackHandle { .. })
    ));
}

#[test]
fn output_abi_maps_shapes() {
    assert!(matches!(
        OutputBinding::from_output_shape(&OutputShape::Unit),
        OutputBinding::Unit
    ));
    assert!(matches!(
        OutputBinding::from_output_shape(&OutputShape::Value(ValueShape::Scalar(AbiType::I64))),
        OutputBinding::Fast(FastOutputBinding::Scalar { .. })
    ));
    assert!(matches!(
        OutputBinding::from_output_shape(&OutputShape::Value(ValueShape::OptionScalar {
            abi: AbiType::I32,
            read: empty_read_seq(),
            write: empty_write_seq()
        })),
        OutputBinding::Fast(FastOutputBinding::OptionScalar {
            abi_type: AbiType::I32,
            ..
        })
    ));
    assert!(matches!(
        OutputBinding::from_output_shape(&OutputShape::Value(ValueShape::ResultScalar {
            ok: AbiType::I32,
            err: AbiType::U32,
            read: empty_read_seq(),
            write: empty_write_seq()
        })),
        OutputBinding::Fast(FastOutputBinding::ResultScalar {
            ok_abi: AbiType::I32,
            err_abi: AbiType::U32,
            ..
        })
    ));
    assert!(matches!(
        OutputBinding::from_output_shape(&OutputShape::Value(ValueShape::PrimitiveVec {
            element_abi: AbiType::U32,
            read: empty_read_seq(),
            write: empty_write_seq()
        })),
        OutputBinding::Fast(FastOutputBinding::PrimitiveVec {
            element_abi: AbiType::U32,
            ..
        })
    ));
    assert!(matches!(
        OutputBinding::from_output_shape(&OutputShape::Value(ValueShape::BlittableRecord {
            id: RecordId::new("Point"),
            size: 16,
            read: empty_read_seq(),
            write: empty_write_seq()
        })),
        OutputBinding::Fast(FastOutputBinding::BlittableRecord { size: 16, .. })
    ));
}

fn string_read_seq() -> ReadSeq {
    ReadSeq { size: SizeExpr::Runtime, ops: vec![ReadOp::String { offset: 0 }], shape: WireShape::Value }
}

fn string_write_seq() -> WriteSeq {
    WriteSeq { size: SizeExpr::Runtime, ops: vec![WriteOp::String { offset: 0 }], shape: WireShape::Value }
}

#[test]
fn hidden_and_unsupported_parameters() {
    let hidden = AbiParam {
        name: ParamName::new("out_len"),
        ffi_type: AbiType::USize,
        input_shape: InputShape::HiddenOutLen { for_param: ParamName::new("out") },
    };
    assert!(InputBinding::from_abi_param(&hidden).is_none());
    assert!(InputParam::from_abi_param(&hidden).is_none());
    match HiddenInputBinding::from_abi_param(&hidden) {
        Some(HiddenInputBinding::OutLen { for_param }) => assert_eq!(for_param.as_str(), "out"),
        other => panic!("unexpected {:?}", other),
    }
    assert!(matches!(
        ParamBinding::from_abi_param(&AbiParam {
            name: ParamName::new("status"),
            ffi_type: AbiType::Pointer,
            input_shape: InputShape::HiddenStatusOut,
        }),
        ParamBinding::Hidden(HiddenInputBinding::StatusOut)
    ));

    let unsupported = AbiParam {
        name: ParamName::new("v"),
        ffi_type: AbiType::Pointer,
        input_shape: InputShape::Value(ValueShape::WireEncoded {
            read: empty_read_seq(),
            write: empty_write_seq(),
        }),
    };
    assert!(matches!(ParamBinding::from_abi_param(&unsupported), ParamBinding::UnsupportedValue));
    assert!(InputBinding::from_abi_param(&unsupported).is_none());
    assert!(HiddenInputBinding::from_abi_param(&unsupported).is_none());
}

#[test]
fn input_param_keeps_name_type_and_codec() {
    let param = AbiParam {
        name: ParamName::new("payload"),
        ffi_type: AbiType::Pointer,
        input_shape: InputShape::WirePacket {
            len_param: ParamName::new("payload_len"),
            value: ValueShape::WireEncoded { read: string_read_seq(), write: string_write_seq() },
        },
    };
    let input = InputParam::from_abi_param(&param).unwrap();
    assert_eq!(input.name.as_str(), "payload");
    assert_eq!(input.ffi_type, AbiType::Pointer);
    match input.abi {
        InputBinding::WirePacket { len_param, decode_ops, encode_ops } => {
            assert_eq!(len_param.as_str(), "payload_len");
            assert_eq!(decode_ops.ops, vec![ReadOp::String { offset: 0 }]);
            assert_eq!(encode_ops.ops, vec![WriteOp::String { offset: 0 }]);
        }
        other => panic!("unexpected {:?}", other),
    }
}

#[test]
fn wire_outputs_are_classified() {
    let string_out = OutputBinding::from_output_shape(&OutputShape::Value(ValueShape::WireEncoded {
        read: string_read_seq(),
        write: string_write_seq(),
    }));
    match &string_out {
        OutputBinding::Wire(w) => assert_eq!(w.wire_shape, WireOutputKind::Utf8String),
        other => panic!("unexpected {:?}", other),
    }
    assert_eq!(string_out.decode_ops().unwrap().ops, vec![ReadOp::String { offset: 0 }]);
    assert_eq!(string_out.encode_ops().unwrap().ops, vec![WriteOp::String { offset: 0 }]);

    let encoded = OutputBinding::from_abi_call(&AbiCall {
        output_shape: OutputShape::Value(ValueShape::WireEncoded {
            read: empty_read_seq(),
            write: empty_write_seq(),
        }),
    });
    match &encoded {
        OutputBinding::Wire(w) => assert_eq!(w.wire_shape, WireOutputKind::Encoded),
        other => panic!("unexpected {:?}", other),
    }

    let handle = OutputBinding::from_async_call(&AsyncCall {
        result_shape: OutputShape::Handle { class_id: ClassId::new("Db"), nullable: true },
    });
    assert!(matches!(handle, OutputBinding::Handle { nullable: true, .. }));
    assert!(handle.decode_ops().is_none());
    assert!(handle.encode_ops().is_none());

    let scalar = OutputBinding::from_result_shape(&OutputShape::Value(ValueShape::Scalar(AbiType::U8)));
    assert!(scalar.decode_ops().is_none());
    assert!(scalar.encode_ops().is_none());
}
