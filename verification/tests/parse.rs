use ferro_babe::format::{FerroFormatter, Formatter, OutputPiece};
use ferro_babe::guard::decodes_within_range;
use ferro_babe::model::{
    ConstantPoolIndex, ConstantRef, InstructionOperand, LdcValueRef, MemberReference,
    StackMapFrameKind, VerificationType,
};
use ferro_babe::{
    DecodeErrorKind, DiagnosticSeverity, DiagnosticStage, Disassembler, FerroBabeError,
    RecoveryMode,
};

fn u2(out: &mut Vec<u8>, v: u16) {
    out.extend_from_slice(&v.to_be_bytes());
}

fn u4(out: &mut Vec<u8>, v: u32) {
    out.extend_from_slice(&v.to_be_bytes());
}

fn utf8(out: &mut Vec<u8>, s: &str) {
    out.push(1);
    u2(out, s.len() as u16);
    out.extend_from_slice(s.as_bytes());
}

fn pair(out: &mut Vec<u8>, tag: u8, a: u16, b: u16) {
    out.push(tag);
    u2(out, a);
    u2(out, b);
}

fn single(out: &mut Vec<u8>, tag: u8, a: u16) {
    out.push(tag);
    u2(out, a);
}

/// The constant pool of the test class; its count is 28.
fn constant_pool() -> Vec<u8> {
    let mut p = Vec::new();
    utf8(&mut p, "Demo"); // 1
    single(&mut p, 7, 1); // 2
    utf8(&mut p, "java/lang/Object"); // 3
    single(&mut p, 7, 3); // 4
    utf8(&mut p, "<init>"); // 5
    utf8(&mut p, "()V"); // 6
    pair(&mut p, 12, 5, 6); // 7
    pair(&mut p, 10, 4, 7); // 8
    utf8(&mut p, "Code"); // 9
    utf8(&mut p, "hello"); // 10
    single(&mut p, 8, 10); // 11
    utf8(&mut p, "COUNT"); // 12
    utf8(&mut p, "I"); // 13
    utf8(&mut p, "run"); // 14
    utf8(&mut p, "(I)I"); // 15
    utf8(&mut p, "SourceFile"); // 16
    utf8(&mut p, "Demo.java"); // 17
    utf8(&mut p, "java/lang/Runnable"); // 18
    single(&mut p, 7, 18); // 19
    p.push(3); // 20
    u4(&mut p, 100000);
    p.push(5); // 21, 22
    u4(&mut p, 0);
    u4(&mut p, 1234567);
    utf8(&mut p, "StackMapTable"); // 23
    utf8(&mut p, "java/lang/Exception"); // 24
    single(&mut p, 7, 24); // 25
    utf8(&mut p, "ping"); // 26
    p.push(4); // 27
    u4(&mut p, 1.5f32.to_bits());
    p
}

fn run_code() -> Vec<u8> {
    let mut c = Vec::new();
    c.push(0x1a); // 0 iload_0
    c.push(0xaa); // 1 tableswitch
    c.extend_from_slice(&[0, 0]);
    u4(&mut c, 57); // default -> 58
    u4(&mut c, 0); // low
    u4(&mut c, 1); // high
    u4(&mut c, 23); // -> 24
    u4(&mut c, 43); // -> 44
    c.push(0x1a); // 24 iload_0
    c.push(0xab); // 25 lookupswitch
    c.extend_from_slice(&[0, 0]);
    u4(&mut c, 19); // default -> 44
    u4(&mut c, 1); // one pair
    u4(&mut c, 7);
    u4(&mut c, 33); // 7 -> 58
    c.extend_from_slice(&[0x12, 11]); // 44 ldc "hello"
    c.push(0x57); // 46 pop
    c.extend_from_slice(&[0x12, 27]); // 47 ldc 1.5f
    c.push(0x57); // 49 pop
    c.extend_from_slice(&[0xa7, 0, 3]); // 50 goto 53
    c.extend_from_slice(&[0x84, 0, 0xff]); // 53 iinc 0 -1
    c.extend_from_slice(&[0x10, 5]); // 56 bipush 5
    c.push(0xac); // 58 ireturn
    assert_eq!(c.len(), 59);
    c
}

fn stack_map_table() -> Vec<u8> {
    let mut a = Vec::new();
    u2(&mut a, 5);
    a.push(24); // same frame, delta 24
    a.push(64 + 19); // same locals, one stack item, delta 19
    a.push(1); // integer
    a.push(255); // full frame
    u2(&mut a, 13);
    u2(&mut a, 1);
    a.push(1); // integer local
    u2(&mut a, 1);
    a.push(7); // object
    u2(&mut a, 25);
    a.push(250); // chop one
    u2(&mut a, 0);
    a.push(252); // append one
    u2(&mut a, 2);
    a.push(0); // top
    a
}

fn code_attribute(max_stack: u16, max_locals: u16, code: &[u8], handlers: &[[u16; 4]], stack_map: Option<&[u8]>) -> Vec<u8> {
    let mut body = Vec::new();
    u2(&mut body, max_stack);
    u2(&mut body, max_locals);
    u4(&mut body, code.len() as u32);
    body.extend_from_slice(code);
    u2(&mut body, handlers.len() as u16);
    for h in handlers {
        for v in h {
            u2(&mut body, *v);
        }
    }
    match stack_map {
        Some(table) => {
            u2(&mut body, 1);
            u2(&mut body, 23);
            u4(&mut body, table.len() as u32);
            body.extend_from_slice(table);
        }
        None => u2(&mut body, 0),
    }
    let mut a = Vec::new();
    u2(&mut a, 9);
    u4(&mut a, body.len() as u32);
    a.extend_from_slice(&body);
    a
}

fn demo_class(major: u16) -> Vec<u8> {
    let mut b = Vec::new();
    u4(&mut b, 0xCAFEBABE);
    u2(&mut b, 0);
    u2(&mut b, major);
    u2(&mut b, 28);
    b.extend_from_slice(&constant_pool());
    u2(&mut b, 0x0021); // public super
    u2(&mut b, 2);
    u2(&mut b, 4);
    u2(&mut b, 1); // interfaces
    u2(&mut b, 19);
    u2(&mut b, 1); // fields
    u2(&mut b, 0x001a);
    u2(&mut b, 12);
    u2(&mut b, 13);
    u2(&mut b, 0);
    u2(&mut b, 3); // methods
    u2(&mut b, 0x0001);
    u2(&mut b, 5);
    u2(&mut b, 6);
    u2(&mut b, 1);
    b.extend_from_slice(&code_attribute(1, 1, &[0x2a, 0xb7, 0, 8, 0xb1], &[], None));
    u2(&mut b, 0x0009);
    u2(&mut b, 14);
    u2(&mut b, 15);
    u2(&mut b, 1);
    let table = stack_map_table();
    b.extend_from_slice(&code_attribute(2, 1, &run_code(), &[[44, 53, 58, 25], [0, 24, 58, 0]], Some(&table)));
    u2(&mut b, 0x0101); // public native
    u2(&mut b, 26);
    u2(&mut b, 6);
    u2(&mut b, 0);
    u2(&mut b, 1); // class attributes
    u2(&mut b, 16);
    u4(&mut b, 2);
    u2(&mut b, 17);
    b
}

fn render(pieces: &[OutputPiece]) -> String {
    let mut text = String::new();
    for piece in pieces {
        match piece {
            OutputPiece::Text(t) => text.push_str(t),
            OutputPiece::Float(bits) => text.push_str(&f32::from_bits(*bits).to_string()),
            OutputPiece::Double(bits) => text.push_str(&f64::from_bits(*bits).to_string()),
        }
    }
    text
}

#[test]
fn parses_demo_class_completely() {
    let bytes = demo_class(52);
    let disassembly = Disassembler::default().parse(&bytes).unwrap();
    assert!(disassembly.is_complete());
    assert!(disassembly.diagnostics().is_empty());
    assert_eq!(disassembly.version().major(), 52);
    assert_eq!(disassembly.version().minor(), 0);
    let class = disassembly.class().unwrap();
    assert_eq!(class.name(), "Demo");
    assert_eq!(class.super_name(), Some("java/lang/Object"));
    assert_eq!(class.source_file(), Some("Demo.java"));
    assert_eq!(class.access_flags(), 0x0021);
    assert_eq!(class.interfaces(), vec!["java/lang/Runnable"]);
    assert_eq!(class.fields().len(), 1);
    assert_eq!(class.fields()[0].name(), "COUNT");
    assert_eq!(class.fields()[0].descriptor(), "I");
    assert_eq!(class.fields()[0].access_flags(), 0x001a);
    assert_eq!(class.methods().len(), 3);
}

#[test]
fn constants_report_their_slot_index() {
    let bytes = demo_class(52);
    let disassembly = Disassembler::default().parse(&bytes).unwrap();
    let class = disassembly.class().unwrap();
    let constants = class.constants();
    assert_eq!(constants.len(), 28);
    for (position, (index, _)) in constants.iter().enumerate() {
        assert_eq!(index.get() as usize, position);
    }
    assert!(matches!(constants[0].1, ConstantRef::Unusable));
    assert!(matches!(constants[1].1, ConstantRef::Utf8("Demo")));
    assert!(matches!(class.constant(ConstantPoolIndex::new(2)), Some(ConstantRef::Class { name }) if name.get() == 1));
    assert!(matches!(class.constant(ConstantPoolIndex::new(20)), Some(ConstantRef::Integer(100000))));
    assert!(matches!(class.constant(ConstantPoolIndex::new(21)), Some(ConstantRef::Long(1234567))));
    assert!(matches!(class.constant(ConstantPoolIndex::new(22)), Some(ConstantRef::Unusable)));
    assert!(matches!(class.constant(ConstantPoolIndex::new(27)), Some(ConstantRef::Float(bits)) if bits == 1.5f32.to_bits()));
    assert!(matches!(
        class.constant(ConstantPoolIndex::new(8)),
        Some(ConstantRef::MethodReference { class, name_and_type }) if class.get() == 4 && name_and_type.get() == 7
    ));
    assert!(class.constant(ConstantPoolIndex::new(28)).is_none());
    assert!(class.constant(ConstantPoolIndex::new(500)).is_none());
}

#[test]
fn method_code_is_exposed_in_order() {
    let bytes = demo_class(52);
    let disassembly = Disassembler::default().parse(&bytes).unwrap();
    let class = disassembly.class().unwrap();
    let methods = class.methods();
    let init = &methods[0];
    assert_eq!(init.name(), "<init>");
    assert_eq!(init.descriptor(), "()V");
    assert!(init.has_code());
    assert_eq!(init.max_stack(), 1);
    assert_eq!(init.max_locals(), 1);
    let instructions = init.instructions().unwrap();
    let offsets: Vec<u16> = instructions.iter().map(|i| i.offset().get()).collect();
    assert_eq!(offsets, vec![0, 1, 4]);
    let opcodes: Vec<u8> = instructions.iter().map(|i| i.opcode()).collect();
    assert_eq!(opcodes, vec![0x2a, 0xb7, 0xb1]);
    assert!(matches!(instructions[0].operand(), InstructionOperand::NoOperand));
    assert!(matches!(
        instructions[1].operand(),
        InstructionOperand::Member(MemberReference::ConstantPool(index)) if index.get() == 8
    ));
    assert!(init.exception_handlers().is_empty());
    assert!(init.stack_map_frames().is_none());

    let ping = &methods[2];
    assert!(!ping.has_code());
    assert!(ping.instructions().is_none());
    assert!(ping.exception_handlers().is_empty());
    assert_eq!(ping.max_stack(), 0);
    assert_eq!(ping.max_locals(), 0);
}

#[test]
fn switch_and_branch_targets_are_absolute() {
    let bytes = demo_class(52);
    let disassembly = Disassembler::default().parse(&bytes).unwrap();
    let class = disassembly.class().unwrap();
    let methods = class.methods();
    let instructions = methods[1].instructions().unwrap();
    match instructions[1].operand() {
        InstructionOperand::TableSwitch { default, low, high, targets, base_offset } => {
            assert_eq!(default.relative(), 57);
            assert_eq!(default.target(), 58);
            assert_eq!((low, high), (0, 1));
            assert_eq!(targets, &[23, 43]);
            assert_eq!(base_offset.get(), 1);
        }
        other => panic!("unexpected operand {:?}", other),
    }
    match instructions[3].operand() {
        InstructionOperand::LookupSwitch { default, pairs, base_offset } => {
            assert_eq!(default.target(), 44);
            assert_eq!(pairs, &[(7, 33)]);
            assert_eq!(base_offset.get(), 25);
        }
        other => panic!("unexpected operand {:?}", other),
    }
    assert!(matches!(instructions[4].operand(), InstructionOperand::Ldc(LdcValueRef::ConstantPool(i)) if i.get() == 11));
    assert!(matches!(instructions[8].operand(), InstructionOperand::Branch { relative: 3, target: 53 }));
    assert!(matches!(instructions[9].operand(), InstructionOperand::Increment { local: 0, amount: -1 }));
    assert!(matches!(instructions[10].operand(), InstructionOperand::Immediate(5)));
}

#[test]
fn exception_handlers_resolve_caught_classes() {
    let bytes = demo_class(52);
    let disassembly = Disassembler::default().parse(&bytes).unwrap();
    let class = disassembly.class().unwrap();
    let methods = class.methods();
    let handlers = methods[1].exception_handlers();
    assert_eq!(handlers.len(), 2);
    assert_eq!(handlers[0].start().get(), 44);
    assert_eq!(handlers[0].end().get(), 53);
    assert_eq!(handlers[0].handler().get(), 58);
    assert_eq!(handlers[0].catch_type(), Some("java/lang/Exception"));
    assert_eq!(handlers[1].catch_type(), None);
}

#[test]
fn stack_map_frames_keep_their_encoding() {
    let bytes = demo_class(52);
    let disassembly = Disassembler::default().parse(&bytes).unwrap();
    let class = disassembly.class().unwrap();
    let methods = class.methods();
    let frames = methods[1].stack_map_frames().unwrap();
    let kinds: Vec<StackMapFrameKind> = frames.iter().map(|f| f.kind()).collect();
    assert_eq!(
        kinds,
        vec![
            StackMapFrameKind::Same,
            StackMapFrameKind::SameLocalsOneStackItem,
            StackMapFrameKind::Full,
            StackMapFrameKind::Chop { count: 1 },
            StackMapFrameKind::Append,
        ]
    );
    let deltas: Vec<u16> = frames.iter().map(|f| f.offset_delta()).collect();
    assert_eq!(deltas, vec![24, 19, 13, 0, 2]);
    assert!(frames[0].locals().is_none());
    assert!(frames[0].stack().is_none());
    let stack = frames[1].stack().unwrap();
    assert_eq!(stack.len(), 1);
    assert_eq!(stack.iter(), vec![VerificationType::Integer]);
    let full_stack = frames[2].stack().unwrap();
    assert_eq!(
        full_stack.iter(),
        vec![VerificationType::Object {
            internal_name: Some("java/lang/Exception"),
            constant_pool_index: ConstantPoolIndex::new(25),
        }]
    );
    assert_eq!(frames[2].locals().unwrap().iter(), vec![VerificationType::Integer]);
    assert!(frames[3].locals().is_none());
    assert!(frames[4].stack().is_none());
    let appended = frames[4].locals().unwrap();
    assert!(!appended.is_empty());
    assert_eq!(appended.iter(), vec![VerificationType::Top]);
}

#[test]
fn formats_demo_class() {
    let bytes = demo_class(52);
    let disassembly = Disassembler::default().parse(&bytes).unwrap();
    let class = disassembly.class().unwrap();
    let text = render(&FerroFormatter.format(class));
    let expected = [
        "class Demo : java/lang/Object [public super] v52.0\n",
        "implements java/lang/Runnable\n",
        "\nfield COUNT I [private static final]\n",
        "\nmethod <init>()V [public] stack=1 locals=1\n",
        "  0000  ALOAD_0         \n",
        "  0001  INVOKESPECIAL   #8 java/lang/Object.<init>()V\n",
        "  0004  RETURN          \n",
        "\nmethod run(I)I [public static] stack=2 locals=1\n",
        "  0000  ILOAD_0         \n",
        "  0001  TABLESWITCH     0..1 default=003a [0018, 002c]\n",
        "  0018  ILOAD_0         \n",
        "  0019  LOOKUPSWITCH    default=002c [7:003a]\n",
        "  002c  LDC             #11 \"hello\"\n",
        "  002e  POP             \n",
        "  002f  LDC             #27 1.5\n",
        "  0031  POP             \n",
        "  0032  GOTO            0035\n",
        "  0035  IINC            0 -1\n",
        "  0038  BIPUSH          5\n",
        "  003a  IRETURN         \n",
        "  catch 002c..0035 -> 003a java/lang/Exception\n",
        "  catch 0000..0018 -> 003a\n",
        "\nmethod ping()V [public native]\n",
    ]
    .concat();
    assert_eq!(text, expected);
}

#[test]
fn version_seventy_is_decoded_with_its_own_version() {
    let bytes = demo_class(70);
    let disassembly = Disassembler::default().parse(&bytes).unwrap();
    assert!(disassembly.is_complete());
    assert_eq!(disassembly.version().major(), 70);
    assert_eq!(disassembly.class().unwrap().version().major(), 70);
}

#[test]
fn best_effort_reports_a_decoding_failure() {
    let mut bytes = demo_class(52);
    bytes.truncate(40);
    let disassembly = Disassembler::default().parse(&bytes).unwrap();
    assert!(!disassembly.is_complete());
    assert!(disassembly.class().is_none());
    assert_eq!(disassembly.version().major(), 52);
    let diagnostics = disassembly.diagnostics();
    assert_eq!(diagnostics.len(), 1);
    assert_eq!(diagnostics[0].severity(), DiagnosticSeverity::Error);
    assert_eq!(diagnostics[0].stage(), DiagnosticStage::Header);
    assert_eq!(diagnostics[0].offset(), None);
    assert_eq!(diagnostics[0].message(), "unexpected end of input");
}

#[test]
fn strict_returns_the_decoding_failure() {
    let mut bytes = demo_class(52);
    bytes.truncate(40);
    let disassembler = Disassembler::builder().recovery(RecoveryMode::Strict).build();
    match disassembler.parse(&bytes) {
        Err(FerroBabeError::Decode { source }) => {
            assert_eq!(source.kind, DecodeErrorKind::UnexpectedEof);
            assert_eq!(source.message, "unexpected end of input");
        }
        other => panic!("unexpected result {:?}", other.map(|d| d.is_complete())),
    }
}

#[test]
fn invalid_opcode_is_reported_at_its_offset() {
    let mut bytes = demo_class(52);
    // The first code byte of <init> sits right after its attribute header.
    let position = bytes.windows(5).position(|w| w == [0x2a, 0xb7, 0, 8, 0xb1]).unwrap();
    bytes[position] = 0xcb;
    let disassembly = Disassembler::default().parse(&bytes).unwrap();
    let diagnostics = disassembly.diagnostics();
    assert_eq!(diagnostics.len(), 1);
    assert_eq!(diagnostics[0].stage(), DiagnosticStage::Code);
    assert_eq!(diagnostics[0].offset(), Some(0));
}

#[test]
fn header_errors_do_not_depend_on_recovery() {
    let mut bytes = demo_class(52);
    bytes[7] = 71;
    for mode in [RecoveryMode::BestEffort, RecoveryMode::Strict] {
        let disassembler = Disassembler::builder().recovery(mode).build();
        assert_eq!(
            disassembler.parse(&bytes).err(),
            Some(FerroBabeError::UnsupportedVersion { major: 71, minor: 0 })
        );
    }
}

fn class_with_code(code: &[u8]) -> Vec<u8> {
    let mut b = Vec::new();
    u4(&mut b, 0xCAFEBABE);
    u2(&mut b, 0);
    u2(&mut b, 52);
    u2(&mut b, 28);
    b.extend_from_slice(&constant_pool());
    u2(&mut b, 0x0021);
    u2(&mut b, 2);
    u2(&mut b, 4);
    u2(&mut b, 0); // interfaces
    u2(&mut b, 0); // fields
    u2(&mut b, 1); // methods
    u2(&mut b, 0x0009);
    u2(&mut b, 14);
    u2(&mut b, 15);
    u2(&mut b, 1);
    b.extend_from_slice(&code_attribute(2, 1, code, &[], None));
    u2(&mut b, 0); // class attributes
    b
}

#[test]
fn guard_accepts_well_formed_classes() {
    assert!(decodes_within_range(&demo_class(52)));
    assert!(decodes_within_range(&demo_class(70)));
    assert!(decodes_within_range(&class_with_code(&run_code())));
    assert!(decodes_within_range(&[0xCA, 0xFE]));
}

#[test]
fn guard_refuses_overflowing_tableswitch_range() {
    let mut code = vec![0x1a, 0xaa, 0, 0];
    u4(&mut code, 8);
    u4(&mut code, i32::MIN as u32);
    u4(&mut code, i32::MAX as u32);
    code.push(0xac);
    assert!(!decodes_within_range(&class_with_code(&code)));
}

#[test]
fn guard_refuses_negative_lookupswitch_count() {
    let mut code = vec![0x1a, 0xab, 0, 0];
    u4(&mut code, 8);
    u4(&mut code, (-1i32) as u32);
    code.push(0xac);
    assert!(!decodes_within_range(&class_with_code(&code)));
}

#[test]
fn guard_refuses_overflowing_wide_jump() {
    let mut code = vec![0x00, 0xc8];
    u4(&mut code, i32::MAX as u32);
    code.push(0xb1);
    assert!(!decodes_within_range(&class_with_code(&code)));
    let mut at_start = vec![0xc8];
    u4(&mut at_start, i32::MAX as u32);
    at_start.push(0xb1);
    assert!(decodes_within_range(&class_with_code(&at_start)));
}

#[test]
fn decoded_methods_without_code_are_empty() {
    let bytes = demo_class(52);
    let disassembly = Disassembler::default().parse(&bytes).unwrap();
    let class = disassembly.class().unwrap();
    let methods = class.methods();
    let native = &methods[2];
    assert!(!native.has_code());
    assert_eq!(native.max_stack(), 0);
    assert_eq!(native.max_locals(), 0);
    assert!(native.instructions().is_none());
    assert!(native.exception_handlers().is_empty());
    assert!(native.stack_map_frames().is_none());
}
