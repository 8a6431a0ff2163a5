use ferro_babe::model::{
    Constant, ConstantPoolIndex, ConstantRef, FrameData, InsnData, Instruction, InstructionOperand,
    LdcData, LdcValueRef, MemberRefData, MemberReference, RawVerificationType, StackMapEntry,
    StackMapFrame, StackMapFrameKind, VerificationType,
};
use ferro_babe::model::instruction::add_displacement;
use ferro_babe::{Class, ClassVersion};

#[test]
fn constant_views_keep_values_and_indices() {
    let stored = vec![
        Constant::Utf8("name".to_string()),
        Constant::Float(0x3fc0_0000),
        Constant::Double(0x4004_0000_0000_0000),
        Constant::MethodHandle { reference_kind: 6, reference_index: 9 },
        Constant::Dynamic { bootstrap_method_attr_index: 2, name_and_type_index: 3 },
        Constant::InvokeDynamic { bootstrap_method_attr_index: 4, name_and_type_index: 5 },
        Constant::Module { name_index: 7 },
        Constant::Package { name_index: 8 },
        Constant::MethodType { descriptor_index: 1 },
        Constant::NameAndType { name_index: 1, descriptor_index: 2 },
    ];
    assert!(matches!(ConstantRef::from(&stored[0]), ConstantRef::Utf8("name")));
    assert!(matches!(ConstantRef::from(&stored[1]), ConstantRef::Float(0x3fc0_0000)));
    assert!(matches!(ConstantRef::from(&stored[2]), ConstantRef::Double(0x4004_0000_0000_0000)));
    assert!(matches!(
        ConstantRef::from(&stored[3]),
        ConstantRef::MethodHandle { reference_kind: 6, reference } if reference.get() == 9
    ));
    assert!(matches!(
        ConstantRef::from(&stored[4]),
        ConstantRef::Dynamic { bootstrap_method: 2, name_and_type } if name_and_type.get() == 3
    ));
    assert!(matches!(
        ConstantRef::from(&stored[5]),
        ConstantRef::InvokeDynamic { bootstrap_method: 4, name_and_type } if name_and_type.get() == 5
    ));
    assert!(matches!(ConstantRef::from(&stored[6]), ConstantRef::Module { name } if name.get() == 7));
    assert!(matches!(ConstantRef::from(&stored[7]), ConstantRef::Package { name } if name.get() == 8));
    assert!(matches!(ConstantRef::from(&stored[8]), ConstantRef::MethodType { descriptor } if descriptor.get() == 1));
    assert!(matches!(
        ConstantRef::from(&stored[9]),
        ConstantRef::NameAndType { name, descriptor } if name.get() == 1 && descriptor.get() == 2
    ));
}

#[test]
fn branch_targets_wrap_to_thirty_two_bits() {
    assert_eq!(add_displacement(10, -4), 6);
    assert_eq!(add_displacement(0, -1), -1);
    assert_eq!(add_displacement(65535, i32::MAX), i32::MIN + 65534);
    let jump = InsnData::Jump { opcode: 0xa7, offset: -20 };
    let instruction = Instruction::new(16, &jump);
    assert_eq!(instruction.offset().get(), 16);
    assert_eq!(instruction.opcode(), 0xa7);
    assert!(matches!(instruction.operand(), InstructionOperand::Branch { relative: -20, target: -4 }));
}

#[test]
fn member_and_ldc_views_borrow_the_stored_text() {
    let symbolic = MemberRefData::Symbolic {
        owner: "a/B".to_string(),
        name: "go".to_string(),
        descriptor: "()V".to_string(),
    };
    assert!(matches!(
        MemberReference::from(&symbolic),
        MemberReference::Symbolic { owner: "a/B", name: "go", descriptor: "()V" }
    ));
    assert!(matches!(MemberReference::from(&MemberRefData::Index(3)), MemberReference::ConstantPool(i) if i.get() == 3));
    assert!(matches!(LdcValueRef::from(&LdcData::String("s".to_string())), LdcValueRef::String("s")));
    assert!(matches!(LdcValueRef::from(&LdcData::Type), LdcValueRef::TypeDescriptor));
    assert!(matches!(LdcValueRef::from(&LdcData::Long(-1)), LdcValueRef::Long(-1)));
    let ldc = InsnData::Ldc { opcode: 0x12, value: LdcData::Int(9) };
    assert!(matches!(Instruction::new(0, &ldc).operand(), InstructionOperand::Ldc(LdcValueRef::Integer(9))));
}

#[test]
fn verification_types_resolve_object_names() {
    let pool = vec![
        Constant::Unusable,
        Constant::Utf8("java/lang/String".to_string()),
        Constant::Class { name_index: 1 },
        Constant::Class { name_index: 0 },
    ];
    let frame: FrameData = StackMapEntry::FullFrame {
        offset_delta: 7,
        locals: vec![
            RawVerificationType::Object { cpool_index: 2 },
            RawVerificationType::Object { cpool_index: 3 },
            RawVerificationType::Uninitialized { offset: 12 },
        ],
        stack: vec![],
    };
    let view = StackMapFrame::new(&frame, &pool);
    assert_eq!(view.kind(), StackMapFrameKind::Full);
    assert_eq!(view.offset_delta(), 7);
    let locals = view.locals().unwrap();
    assert_eq!(locals.len(), 3);
    assert_eq!(
        locals.iter(),
        vec![
            VerificationType::Object {
                internal_name: Some("java/lang/String"),
                constant_pool_index: ConstantPoolIndex::new(2),
            },
            VerificationType::Object { internal_name: None, constant_pool_index: ConstantPoolIndex::new(3) },
            VerificationType::Uninitialized { offset: 12 },
        ]
    );
    let stack = view.stack().unwrap();
    assert!(stack.is_empty());
    assert_eq!(stack.len(), 0);

    let extended: FrameData = StackMapEntry::SameLocals1StackItemFrameExtended {
        offset_delta: 300,
        stack: RawVerificationType::UninitializedThis,
    };
    let view = StackMapFrame::new(&extended, &pool);
    assert_eq!(view.kind(), StackMapFrameKind::SameLocalsOneStackItem);
    assert_eq!(view.stack().unwrap().iter(), vec![VerificationType::UninitializedThis]);
    assert!(view.locals().is_none());

    let same: FrameData = StackMapEntry::SameFrameExtended { offset_delta: 99 };
    let view = StackMapFrame::new(&same, &pool);
    assert_eq!(view.kind(), StackMapFrameKind::SameExtended);
    assert_eq!(view.offset_delta(), 99);
}

#[test]
fn class_version_holds_both_numbers() {
    let version = ClassVersion::new(3, 61);
    assert_eq!(version.minor(), 3);
    assert_eq!(version.major(), 61);
}

#[test]
fn constant_lookup_outside_the_pool_is_none() {
    let class = Class {
        minor_version: 0,
        major_version: 52,
        access_flags: 0,
        name: "A".to_string(),
        super_name: None,
        source_file: Some("A.java".to_string()),
        interfaces: vec![],
        fields: vec![],
        methods: vec![],
        constant_pool: vec![Constant::Unusable, Constant::Integer(5)],
    };
    assert!(matches!(class.constant(ConstantPoolIndex::new(1)), Some(ConstantRef::Integer(5))));
    assert!(class.constant(ConstantPoolIndex::new(2)).is_none());
    assert_eq!(class.source_file(), Some("A.java"));
    assert_eq!(class.super_name(), None);
    assert_eq!(class.constants().len(), 2);
    assert!(class.methods().is_empty());
}
