use ferro_babe::format::{FerroFormatter, Formatter, OutputPiece};
use ferro_babe::model::{
    CodeAttribute, Constant, ExceptionEntry, Field, InsnData, LdcData, MemberRefData, MethodInfo,
};
use ferro_babe::Class;

fn text(s: &str) -> String {
    s.to_string()
}

fn render(pieces: &[OutputPiece]) -> String {
    let mut out = String::new();
    for piece in pieces {
        match piece {
            OutputPiece::Text(t) => out.push_str(t),
            OutputPiece::Float(bits) => out.push_str(&f32::from_bits(*bits).to_string()),
            OutputPiece::Double(bits) => out.push_str(&f64::from_bits(*bits).to_string()),
        }
    }
    out
}

fn line(offset: &str, mnemonic: &str, operand: &str) -> String {
    format!("  {offset}  {:<16}{operand}\n", mnemonic)
}

fn pool() -> Vec<Constant> {
    vec![
        Constant::Unusable,
        Constant::Utf8(text("Box")),
        Constant::Class { name_index: 1 },
        Constant::Utf8(text("val")),
        Constant::Utf8(text("J")),
        Constant::NameAndType { name_index: 3, descriptor_index: 4 },
        Constant::Fieldref { class_index: 2, name_and_type_index: 5 },
        Constant::Integer(-42),
        Constant::Long(9000000000),
        Constant::Double(2.5f64.to_bits()),
        Constant::Utf8(text("a\"b")),
        Constant::String { string_index: 10 },
        Constant::Fieldref { class_index: 2, name_and_type_index: 99 },
        Constant::MethodType { descriptor_index: 4 },
        Constant::InterfaceMethodref { class_index: 2, name_and_type_index: 5 },
    ]
}

fn code() -> (Vec<InsnData>, Vec<u16>) {
    let instructions = vec![
        InsnData::Int { opcode: 0x10, operand: -3 },
        InsnData::Var { opcode: 0x15, var_index: 4 },
        InsnData::Type { opcode: 0xbb, type_index: 2 },
        InsnData::Field { opcode: 0xb4, field_ref: MemberRefData::Index(6) },
        InsnData::Method {
            opcode: 0xb6,
            method_ref: MemberRefData::Symbolic { owner: text("a/B"), name: text("go"), descriptor: text("()V") },
        },
        InsnData::Jump { opcode: 0xa7, offset: -14 },
        InsnData::Jump { opcode: 0xa7, offset: -20 },
        InsnData::InvokeInterface { opcode: 0xb9, method_index: 14, count: 1 },
        InsnData::InvokeDynamic { opcode: 0xba, method_index: 13 },
        InsnData::Ldc { opcode: 0x12, value: LdcData::Index(7) },
        InsnData::Ldc { opcode: 0x14, value: LdcData::Index(8) },
        InsnData::Ldc { opcode: 0x14, value: LdcData::Index(9) },
        InsnData::Ldc { opcode: 0x12, value: LdcData::Index(11) },
        InsnData::Ldc { opcode: 0x12, value: LdcData::String(text("x\ny")) },
        InsnData::Ldc { opcode: 0x12, value: LdcData::Type },
        InsnData::Ldc { opcode: 0x13, value: LdcData::Index(12) },
        InsnData::MultiANewArray { opcode: 0xc5, type_index: 2, dimensions: 3 },
        InsnData::Ldc { opcode: 0x14, value: LdcData::Double(0.25f64.to_bits()) },
        InsnData::Ldc { opcode: 0x14, value: LdcData::Long(-7) },
        InsnData::Ldc { opcode: 0x12, value: LdcData::Int(3) },
        InsnData::Ldc { opcode: 0x12, value: LdcData::Float((-1.0f32).to_bits()) },
        InsnData::Iinc { opcode: 0x84, var_index: 300, increment: -200 },
        InsnData::TableSwitch { opcode: 0xaa, default_offset: -64, low: -1, high: 0, offsets: vec![-64, 2] },
        InsnData::LookupSwitch { opcode: 0xab, default_offset: 10, pairs: vec![(-5, -90), (6, 0)] },
        InsnData::Simple { opcode: 0xb1 },
    ];
    let offsets = vec![
        0, 2, 5, 8, 11, 14, 16, 19, 24, 29, 31, 34, 36, 38, 40, 43, 46, 50, 52, 54, 56, 58, 64, 90, 120,
        200,
    ];
    (instructions, offsets)
}

fn sample_class() -> Class {
    let (instructions, instruction_offsets) = code();
    Class {
        minor_version: 3,
        major_version: 61,
        access_flags: 0,
        name: text("Box"),
        super_name: None,
        source_file: None,
        interfaces: vec![text("x/I"), text("y/J")],
        fields: vec![Field { access_flags: 0x4011, name: text("E"), descriptor: text("LBox;") }],
        methods: vec![
            MethodInfo {
                access_flags: 0x0008,
                name: text("m"),
                descriptor: text("()V"),
                has_code: true,
                max_stack: 3,
                max_locals: 0,
                instructions,
                instruction_offsets,
                exception_table: vec![
                    ExceptionEntry { start_pc: 0, end_pc: 5, handler_pc: 14, catch_type: 2 },
                    ExceptionEntry { start_pc: 0, end_pc: 1, handler_pc: 2, catch_type: 7 },
                ],
                code_attributes: vec![CodeAttribute::Other],
            },
            MethodInfo {
                access_flags: 0x0401,
                name: text("n"),
                descriptor: text("(I)V"),
                has_code: false,
                max_stack: 0,
                max_locals: 0,
                instructions: vec![],
                instruction_offsets: vec![],
                exception_table: vec![],
                code_attributes: vec![],
            },
        ],
        constant_pool: pool(),
    }
}

#[test]
fn formats_every_operand_kind() {
    let class = sample_class();
    let text = render(&FerroFormatter.format(&class));
    let expected = [
        "class Box [] v61.3\n".to_string(),
        "implements x/I, y/J\n".to_string(),
        "\nfield E LBox; [public final enum]\n".to_string(),
        "\nmethod m()V [static] stack=3 locals=0\n".to_string(),
        line("0000", "BIPUSH", "-3"),
        line("0002", "ILOAD", "4"),
        line("0005", "NEW", "#2 Box"),
        line("0008", "GETFIELD", "#6 Box.valJ"),
        line("000b", "INVOKEVIRTUAL", "a/B.go()V"),
        line("000e", "GOTO", "0000"),
        line("0010", "GOTO", "fffffffc"),
        line("0013", "INVOKEINTERFACE", "#14 Box.valJ count=1"),
        line("0018", "INVOKEDYNAMIC", "#13"),
        line("001d", "LDC", "#7 -42"),
        line("001f", "LDC2_W", "#8 9000000000"),
        line("0022", "LDC2_W", "#9 2.5"),
        line("0024", "LDC", "#11 \"a\\\"b\""),
        line("0026", "LDC", "\"x\\ny\""),
        line("0028", "LDC", "<type>"),
        line("002b", "LDC_W", "#12"),
        line("002e", "MULTIANEWARRAY", "#2 Box dims=3"),
        line("0032", "LDC2_W", "0.25"),
        line("0034", "LDC2_W", "-7"),
        line("0036", "LDC", "3"),
        line("0038", "LDC", "-1"),
        line("003a", "IINC", "300 -200"),
        line("0040", "TABLESWITCH", "-1..0 default=0000 [0000, 0042]"),
        line("005a", "LOOKUPSWITCH", "default=0064 [-5:0000, 6:005a]"),
        line("0078", "RETURN", ""),
        "  catch 0000..0005 -> 000e Box\n".to_string(),
        "  catch 0000..0001 -> 0002\n".to_string(),
        "\nmethod n(I)V [public abstract]\n".to_string(),
    ]
    .concat();
    assert_eq!(text, expected);
}

#[test]
fn write_class_appends_to_existing_output() {
    let class = sample_class();
    let mut output = vec![OutputPiece::Text(text(">>"))];
    FerroFormatter.write_class(&class, &mut output);
    let rendered = render(&output);
    assert!(rendered.starts_with(">>class Box [] v61.3\n"));
    assert_eq!(rendered.len(), 2 + render(&FerroFormatter.format(&class)).len());
}

#[test]
fn class_line_names_super_class_and_all_flags() {
    let class = Class {
        minor_version: 65535,
        major_version: 70,
        access_flags: 0xffff,
        name: text("p/Q"),
        super_name: Some(text("p/R")),
        source_file: None,
        interfaces: vec![],
        fields: vec![Field { access_flags: 0, name: text("f"), descriptor: text("Z") }],
        methods: vec![],
        constant_pool: vec![],
    };
    assert_eq!(
        render(&FerroFormatter.format(&class)),
        "class p/Q : p/R [public final super interface abstract synthetic annotation enum module] v70.65535\n\nfield f Z []\n"
    );
}
