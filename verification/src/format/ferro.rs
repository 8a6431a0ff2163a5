//! The FerroBabe text format.

use vstd::prelude::*;

use super::opcode::{debug_quoted, debug_text, mnemonic, opcode_name};
use super::output::{emit, emit_double, emit_float, emit_string, glyphs, rendered, Glyph, OutputPiece};
use super::text::{
    bits_of, bits_text_value, decimal, decimal_text, hex4, hex4_text, left_aligned,
    left_aligned_text, signed_decimal, signed_text,
};
use crate::model::constant::{class_name_at, utf8_at};
use crate::model::instruction::branch_target;
use crate::model::{
    Class, Constant, ConstantPoolIndex, ConstantRef, ExceptionEntry, Field, InsnData, Instruction,
    InstructionOperand, LdcData, LdcValueRef, MemberRefData, MemberReference, MethodInfo,
};

verus! {

/// Which access flags a flag bitset holds.
#[derive(Debug, Clone, Copy, PartialEq, Eq, Structural)]
pub enum FlagContext {
    Class,
    Field,
    Method,
}

/// The flag bits of `context` and their names, in the order they are printed.
pub open spec fn flag_table(context: FlagContext) -> Seq<(u16, Seq<char>)> {
    match context {
        FlagContext::Class => seq![
            (0x0001u16, "public"@),
            (0x0010u16, "final"@),
            (0x0020u16, "super"@),
            (0x0200u16, "interface"@),
            (0x0400u16, "abstract"@),
            (0x1000u16, "synthetic"@),
            (0x2000u16, "annotation"@),
            (0x4000u16, "enum"@),
            (0x8000u16, "module"@),
        ],
        FlagContext::Field => seq![
            (0x0001u16, "public"@),
            (0x0002u16, "private"@),
            (0x0004u16, "protected"@),
            (0x0008u16, "static"@),
            (0x0010u16, "final"@),
            (0x0040u16, "volatile"@),
            (0x0080u16, "transient"@),
            (0x1000u16, "synthetic"@),
            (0x4000u16, "enum"@),
        ],
        FlagContext::Method => seq![
            (0x0001u16, "public"@),
            (0x0002u16, "private"@),
            (0x0004u16, "protected"@),
            (0x0008u16, "static"@),
            (0x0010u16, "final"@),
            (0x0020u16, "synchronized"@),
            (0x0040u16, "bridge"@),
            (0x0080u16, "varargs"@),
            (0x0100u16, "native"@),
            (0x0400u16, "abstract"@),
            (0x0800u16, "strict"@),
            (0x1000u16, "synthetic"@),
        ],
    }
}

/// The names in `table` whose bit is set in `flags`, in table order.
pub open spec fn set_names(flags: u16, table: Seq<(u16, Seq<char>)>) -> Seq<Seq<char>>
    decreases table.len(),
{
    if table.len() == 0 {
        seq![]
    } else {
        let earlier = set_names(flags, table.drop_last());
        if flags & table.last().0 != 0 {
            earlier.push(table.last().1)
        } else {
            earlier
        }
    }
}

/// The glyphs of `words` with `separator` between neighbours.
pub open spec fn separated(words: Seq<Seq<char>>, separator: Seq<char>) -> Seq<Glyph>
    decreases words.len(),
{
    if words.len() == 0 {
        seq![]
    } else if words.len() == 1 {
        glyphs(words[0])
    } else {
        separated(words.drop_last(), separator) + glyphs(separator) + glyphs(words.last())
    }
}

/// `[` and the names of the set flags, separated by spaces, and `]`.
pub open spec fn flags_glyphs(flags: u16, context: FlagContext) -> Seq<Glyph> {
    glyphs("["@) + separated(set_names(flags, flag_table(context)), " "@) + glyphs("]"@)
}

/// The descriptor and name of the `NameAndType` slot at `index`, if both resolve.
pub open spec fn name_and_type_at(pool: Seq<Constant>, index: int) -> Option<(Seq<char>, Seq<char>)> {
    if 0 <= index < pool.len() {
        match pool[index] {
            Constant::NameAndType { name_index, descriptor_index } => match (
                utf8_at(pool, name_index as int),
                utf8_at(pool, descriptor_index as int),
            ) {
                (Some(name), Some(descriptor)) => Some((name, descriptor)),
                _ => None,
            },
            _ => None,
        }
    } else {
        None
    }
}

/// ` owner.namedescriptor` for a member reference whose class and name-and-type resolve.
pub open spec fn member_constant_glyphs(pool: Seq<Constant>, owner: u16, name_and_type: u16) -> Seq<
    Glyph,
> {
    match (class_name_at(pool, owner as int), name_and_type_at(pool, name_and_type as int)) {
        (Some(o), Some((name, descriptor))) => glyphs(" "@) + glyphs(o) + glyphs("."@) + glyphs(
            name,
        ) + glyphs(descriptor),
        _ => seq![],
    }
}

/// What follows `#index` for the slot at `index`.
pub open spec fn constant_detail_glyphs(pool: Seq<Constant>, index: u16) -> Seq<Glyph> {
    if (index as int) < pool.len() {
        match pool[index as int] {
            Constant::Class { name_index } => match utf8_at(pool, name_index as int) {
                Some(name) => glyphs(" "@) + glyphs(name),
                None => seq![],
            },
            Constant::String { string_index } => match utf8_at(pool, string_index as int) {
                Some(value) => glyphs(" "@) + glyphs(debug_quoted(value)),
                None => seq![],
            },
            Constant::Fieldref { class_index, name_and_type_index } => member_constant_glyphs(
                pool,
                class_index,
                name_and_type_index,
            ),
            Constant::Methodref { class_index, name_and_type_index } => member_constant_glyphs(
                pool,
                class_index,
                name_and_type_index,
            ),
            Constant::InterfaceMethodref {
                class_index,
                name_and_type_index,
            } => member_constant_glyphs(pool, class_index, name_and_type_index),
            Constant::Integer(v) => glyphs(" "@) + glyphs(signed_decimal(v as int)),
            Constant::Float(bits) => glyphs(" "@) + seq![Glyph::Float(bits)],
            Constant::Long(v) => glyphs(" "@) + glyphs(signed_decimal(v as int)),
            Constant::Double(bits) => glyphs(" "@) + seq![Glyph::Double(bits)],
            _ => seq![],
        }
    } else {
        seq![]
    }
}

/// `#index`, then what the slot resolves to.
pub open spec fn constant_glyphs(pool: Seq<Constant>, index: u16) -> Seq<Glyph> {
    glyphs("#"@) + glyphs(decimal(index as nat)) + constant_detail_glyphs(pool, index)
}

/// A member reference: by constant-pool slot, or `owner.namedescriptor`.
pub open spec fn member_glyphs(pool: Seq<Constant>, member: MemberRefData) -> Seq<Glyph> {
    match member {
        MemberRefData::Index(index) => constant_glyphs(pool, index),
        MemberRefData::Symbolic { owner, name, descriptor } => glyphs(owner@) + glyphs("."@)
            + glyphs(name@) + glyphs(descriptor@),
    }
}

/// The value an `ldc` loads.
pub open spec fn ldc_glyphs(pool: Seq<Constant>, value: LdcData) -> Seq<Glyph> {
    match value {
        LdcData::Index(index) => constant_glyphs(pool, index),
        LdcData::String(s) => glyphs(debug_quoted(s@)),
        LdcData::Type => glyphs("<type>"@),
        LdcData::Int(v) => glyphs(signed_decimal(v as int)),
        LdcData::Float(bits) => seq![Glyph::Float(bits)],
        LdcData::Long(v) => glyphs(signed_decimal(v as int)),
        LdcData::Double(bits) => seq![Glyph::Double(bits)],
    }
}

/// A branch target in hexadecimal, at least four digits, as its 32-bit pattern.
pub open spec fn target_glyphs(base: u16, relative: i32) -> Seq<Glyph> {
    glyphs(hex4(bits_of(branch_target(base, relative))))
}

/// The first `n` table-switch targets, separated by `, `.
pub open spec fn targets_glyphs(base: u16, targets: Seq<i32>, n: int) -> Seq<Glyph>
    decreases n,
{
    if n <= 0 {
        seq![]
    } else {
        targets_glyphs(base, targets, n - 1) + (if n > 1 {
            glyphs(", "@)
        } else {
            seq![]
        }) + target_glyphs(base, targets[n - 1])
    }
}

/// The first `n` lookup-switch pairs as `key:target`, separated by `, `.
pub open spec fn pairs_glyphs(base: u16, pairs: Seq<(i32, i32)>, n: int) -> Seq<Glyph>
    decreases n,
{
    if n <= 0 {
        seq![]
    } else {
        pairs_glyphs(base, pairs, n - 1) + (if n > 1 {
            glyphs(", "@)
        } else {
            seq![]
        }) + glyphs(signed_decimal(pairs[n - 1].0 as int)) + glyphs(":"@) + target_glyphs(
            base,
            pairs[n - 1].1,
        )
    }
}

/// The operand of `insn` placed at `offset`.
pub open spec fn operand_glyphs(pool: Seq<Constant>, offset: u16, insn: InsnData) -> Seq<Glyph> {
    match insn {
        InsnData::Simple { .. } => seq![],
        InsnData::Int { operand, .. } => glyphs(signed_decimal(operand as int)),
        InsnData::Var { var_index, .. } => glyphs(decimal(var_index as nat)),
        InsnData::Type { type_index, .. } => constant_glyphs(pool, type_index),
        InsnData::Field { field_ref, .. } => member_glyphs(pool, field_ref),
        InsnData::Method { method_ref, .. } => member_glyphs(pool, method_ref),
        InsnData::InvokeInterface { method_index, count, .. } => constant_glyphs(pool, method_index)
            + glyphs(" count="@) + glyphs(decimal(count as nat)),
        InsnData::InvokeDynamic { method_index, .. } => constant_glyphs(pool, method_index),
        InsnData::Jump { offset: relative, .. } => target_glyphs(offset, relative),
        InsnData::Ldc { value, .. } => ldc_glyphs(pool, value),
        InsnData::Iinc { var_index, increment, .. } => glyphs(decimal(var_index as nat)) + glyphs(
            " "@,
        ) + glyphs(signed_decimal(increment as int)),
        InsnData::TableSwitch { default_offset, low, high, offsets, .. } => glyphs(
            signed_decimal(low as int),
        ) + glyphs(".."@) + glyphs(signed_decimal(high as int)) + glyphs(" default="@)
            + target_glyphs(offset, default_offset) + glyphs(" ["@) + targets_glyphs(
            offset,
            offsets@,
            offsets@.len() as int,
        ) + glyphs("]"@),
        InsnData::LookupSwitch { default_offset, pairs, .. } => glyphs("default="@) + target_glyphs(
            offset,
            default_offset,
        ) + glyphs(" ["@) + pairs_glyphs(offset, pairs@, pairs@.len() as int) + glyphs("]"@),
        InsnData::MultiANewArray { type_index, dimensions, .. } => constant_glyphs(pool, type_index)
            + glyphs(" dims="@) + glyphs(decimal(dimensions as nat)),
    }
}

/// One instruction line: offset, mnemonic padded to sixteen, operand.
pub open spec fn instruction_glyphs(pool: Seq<Constant>, offset: u16, insn: InsnData) -> Seq<Glyph> {
    glyphs("  "@) + glyphs(hex4(offset as nat)) + glyphs("  "@) + glyphs(
        left_aligned(opcode_name(insn.spec_opcode()), 16),
    ) + operand_glyphs(pool, offset, insn) + glyphs("\n"@)
}

/// The first `n` instruction lines of a method.
pub open spec fn instructions_glyphs(pool: Seq<Constant>, method: MethodInfo, n: int) -> Seq<Glyph>
    decreases n,
{
    if n <= 0 {
        seq![]
    } else {
        instructions_glyphs(pool, method, n - 1) + instruction_glyphs(
            pool,
            method.instruction_offsets@[n - 1],
            method.instructions@[n - 1],
        )
    }
}

/// The number of instructions that are paired with an offset.
pub open spec fn paired_count(method: MethodInfo) -> int {
    if method.instructions@.len() <= method.instruction_offsets@.len() {
        method.instructions@.len() as int
    } else {
        method.instruction_offsets@.len() as int
    }
}

/// One exception-handler line.
pub open spec fn handler_glyphs(pool: Seq<Constant>, entry: ExceptionEntry) -> Seq<Glyph> {
    let catch_type = if entry.catch_type == 0 {
        None
    } else {
        class_name_at(pool, entry.catch_type as int)
    };
    glyphs("  catch "@) + glyphs(hex4(entry.start_pc as nat)) + glyphs(".."@) + glyphs(
        hex4(entry.end_pc as nat),
    ) + glyphs(" -> "@) + glyphs(hex4(entry.handler_pc as nat)) + match catch_type {
        Some(name) => glyphs(" "@) + glyphs(name),
        None => seq![],
    } + glyphs("\n"@)
}

/// The first `n` exception-handler lines of a method.
pub open spec fn handlers_glyphs(pool: Seq<Constant>, table: Seq<ExceptionEntry>, n: int) -> Seq<
    Glyph,
>
    decreases n,
{
    if n <= 0 {
        seq![]
    } else {
        handlers_glyphs(pool, table, n - 1) + handler_glyphs(pool, table[n - 1])
    }
}

/// What follows a method's flags: its limits, instructions and handlers, or just a newline.
pub open spec fn code_glyphs(pool: Seq<Constant>, method: MethodInfo) -> Seq<Glyph> {
    if method.has_code {
        glyphs(" stack="@) + glyphs(decimal(method.max_stack as nat)) + glyphs(" locals="@)
            + glyphs(decimal(method.max_locals as nat)) + glyphs("\n"@) + instructions_glyphs(
            pool,
            method,
            paired_count(method),
        ) + handlers_glyphs(pool, method.exception_table@, method.exception_table@.len() as int)
    } else {
        glyphs("\n"@)
    }
}

/// The lines of one method.
pub open spec fn method_glyphs(pool: Seq<Constant>, method: MethodInfo) -> Seq<Glyph> {
    glyphs("\nmethod "@) + glyphs(method.name@) + glyphs(method.descriptor@) + glyphs(" "@)
        + flags_glyphs(method.access_flags, FlagContext::Method) + code_glyphs(pool, method)
}

/// The lines of the first `n` methods.
pub open spec fn methods_glyphs(pool: Seq<Constant>, methods: Seq<MethodInfo>, n: int) -> Seq<Glyph>
    decreases n,
{
    if n <= 0 {
        seq![]
    } else {
        methods_glyphs(pool, methods, n - 1) + method_glyphs(pool, methods[n - 1])
    }
}

/// The lines of one field.
pub open spec fn field_glyphs(field: Field) -> Seq<Glyph> {
    glyphs("\nfield "@) + glyphs(field.name@) + glyphs(" "@) + glyphs(field.descriptor@) + glyphs(
        " "@,
    ) + flags_glyphs(field.access_flags, FlagContext::Field) + glyphs("\n"@)
}

/// The lines of the first `n` fields.
pub open spec fn fields_glyphs(fields: Seq<Field>, n: int) -> Seq<Glyph>
    decreases n,
{
    if n <= 0 {
        seq![]
    } else {
        fields_glyphs(fields, n - 1) + field_glyphs(fields[n - 1])
    }
}

/// The texts of a sequence of strings.
pub open spec fn texts(strings: Seq<String>) -> Seq<Seq<char>> {
    strings.map_values(|s: String| s@)
}

/// ` : super` when the class has a superclass.
pub open spec fn super_glyphs(class: Class) -> Seq<Glyph> {
    match class.super_name {
        Some(s) => glyphs(" : "@) + glyphs(s@),
        None => seq![],
    }
}

/// The first line of a class: name, superclass, flags and version.
pub open spec fn class_line_glyphs(class: Class) -> Seq<Glyph> {
    glyphs("class "@) + glyphs(class.name@) + super_glyphs(class) + glyphs(" "@) + flags_glyphs(
        class.access_flags,
        FlagContext::Class,
    ) + glyphs(" v"@) + glyphs(decimal(class.major_version as nat)) + glyphs("."@) + glyphs(
        decimal(class.minor_version as nat),
    ) + glyphs("\n"@)
}

/// The `implements` line, when the class has interfaces.
pub open spec fn interfaces_line_glyphs(class: Class) -> Seq<Glyph> {
    if class.interfaces@.len() > 0 {
        glyphs("implements "@) + separated(texts(class.interfaces@), ", "@) + glyphs("\n"@)
    } else {
        seq![]
    }
}

/// The first line of a class, and its `implements` line when it has interfaces.
pub open spec fn class_header_glyphs(class: Class) -> Seq<Glyph> {
    class_line_glyphs(class) + interfaces_line_glyphs(class)
}

/// The whole FerroBabe text of a class.
pub open spec fn class_glyphs(class: Class) -> Seq<Glyph> {
    class_header_glyphs(class) + fields_glyphs(class.fields@, class.fields@.len() as int)
        + methods_glyphs(class.constant_pool@, class.methods@, class.methods@.len() as int)
}

} // verus!

verus! {

/// The flag bits of `context` and their names.
fn flag_names(context: FlagContext) -> (names: Vec<(u16, &'static str)>)
    ensures
        names@.len() == flag_table(context).len(),
        forall|i: int|
            0 <= i < names@.len() ==> (#[trigger] names@[i]).0 == flag_table(context)[i].0
                && names@[i].1@ == flag_table(context)[i].1,
{
    match context {
        FlagContext::Class => vec![
            (0x0001, "public"),
            (0x0010, "final"),
            (0x0020, "super"),
            (0x0200, "interface"),
            (0x0400, "abstract"),
            (0x1000, "synthetic"),
            (0x2000, "annotation"),
            (0x4000, "enum"),
            (0x8000, "module"),
        ],
        FlagContext::Field => vec![
            (0x0001, "public"),
            (0x0002, "private"),
            (0x0004, "protected"),
            (0x0008, "static"),
            (0x0010, "final"),
            (0x0040, "volatile"),
            (0x0080, "transient"),
            (0x1000, "synthetic"),
            (0x4000, "enum"),
        ],
        FlagContext::Method => vec![
            (0x0001, "public"),
            (0x0002, "private"),
            (0x0004, "protected"),
            (0x0008, "static"),
            (0x0010, "final"),
            (0x0020, "synchronized"),
            (0x0040, "bridge"),
            (0x0080, "varargs"),
            (0x0100, "native"),
            (0x0400, "abstract"),
            (0x0800, "strict"),
            (0x1000, "synthetic"),
        ],
    }
}

proof fn lemma_separated_push(words: Seq<Seq<char>>, word: Seq<char>, separator: Seq<char>)
    ensures
        separated(words.push(word), separator) == separated(words, separator) + (if words.len()
            == 0 {
            seq![]
        } else {
            glyphs(separator)
        }) + glyphs(word),
{
    let pushed = words.push(word);
    assert(pushed.drop_last() =~= words);
    if words.len() == 0 {
        assert(separated(pushed, separator) == glyphs(word));
        assert(separated(words, separator) =~= Seq::<Glyph>::empty());
    }
}

/// Writes `[`, the names of the flags set in `flags` separated by spaces, and `]`.
fn write_flags(output: &mut Vec<OutputPiece>, flags: u16, context: FlagContext)
    ensures
        rendered(final(output)@) == rendered(old(output)@) + flags_glyphs(flags, context),
{
    let ghost table = flag_table(context);
    let ghost start = rendered(output@);
    emit(output, "[");
    let names = flag_names(context);
    let mut first = true;
    let mut i: usize = 0;
    while i < names.len()
        invariant
            table == flag_table(context),
            names@.len() == table.len(),
            forall|j: int|
                0 <= j < names@.len() ==> (#[trigger] names@[j]).0 == table[j].0 && names@[j].1@
                    == table[j].1,
            i <= names@.len(),
            first == (set_names(flags, table.take(i as int)).len() == 0),
            rendered(output@) == start + glyphs("["@) + separated(
                set_names(flags, table.take(i as int)),
                " "@,
            ),
        decreases names@.len() - i,
    {
        let (bit, name) = names[i];
        let ghost before = set_names(flags, table.take(i as int));
        assert(table.take(i + 1).drop_last() =~= table.take(i as int));
        if flags & bit != 0 {
            proof {
                lemma_separated_push(before, name@, " "@);
            }
            if !first {
                emit(output, " ");
            }
            emit(output, name);
            first = false;
        }
        i = i + 1;
    }
    assert(table.take(names@.len() as int) =~= table);
    emit(output, "]");
}

} // verus!

verus! {

/// The text of the `Utf8` slot at `index`.
fn utf8(class: &Class, index: ConstantPoolIndex) -> (text: Option<&str>)
    ensures
        match utf8_at(class.constant_pool@, index@ as int) {
            Some(t) => text matches Some(s) && s@ == t,
            None => text is None,
        },
{
    match class.constant(index) {
        Some(ConstantRef::Utf8(value)) => Some(value),
        _ => None,
    }
}

/// The name that the `Class` slot at `index` refers to.
fn class_name(class: &Class, index: ConstantPoolIndex) -> (name: Option<&str>)
    ensures
        match class_name_at(class.constant_pool@, index@ as int) {
            Some(t) => name matches Some(s) && s@ == t,
            None => name is None,
        },
{
    match class.constant(index) {
        Some(ConstantRef::Class { name }) => utf8(class, name),
        _ => None,
    }
}

/// The name and descriptor that the `NameAndType` slot at `index` refers to.
fn name_and_type(class: &Class, index: ConstantPoolIndex) -> (resolved: Option<(&str, &str)>)
    ensures
        match name_and_type_at(class.constant_pool@, index@ as int) {
            Some((n, d)) => resolved matches Some((name, descriptor)) && name@ == n
                && descriptor@ == d,
            None => resolved is None,
        },
{
    match class.constant(index) {
        Some(ConstantRef::NameAndType { name, descriptor }) => {
            match (utf8(class, name), utf8(class, descriptor)) {
                (Some(name), Some(descriptor)) => Some((name, descriptor)),
                _ => None,
            }
        },
        _ => None,
    }
}

fn write_member_constant(
    output: &mut Vec<OutputPiece>,
    class: &Class,
    owner: ConstantPoolIndex,
    name_and_type_index: ConstantPoolIndex,
)
    ensures
        rendered(final(output)@) == rendered(old(output)@) + member_constant_glyphs(
            class.constant_pool@,
            owner@,
            name_and_type_index@,
        ),
{
    let owner = match class_name(class, owner) {
        Some(owner) => owner,
        None => return ,
    };
    let (name, descriptor) = match name_and_type(class, name_and_type_index) {
        Some(resolved) => resolved,
        None => return ,
    };
    emit(output, " ");
    emit(output, owner);
    emit(output, ".");
    emit(output, name);
    emit(output, descriptor);
}

fn write_constant(output: &mut Vec<OutputPiece>, class: &Class, index: ConstantPoolIndex)
    ensures
        rendered(final(output)@) == rendered(old(output)@) + constant_glyphs(
            class.constant_pool@,
            index@,
        ),
{
    emit(output, "#");
    emit_string(output, decimal_text(index.get() as u64));
    match class.constant(index) {
        Some(ConstantRef::Class { name }) => {
            if let Some(name) = utf8(class, name) {
                emit(output, " ");
                emit(output, name);
            }
        },
        Some(ConstantRef::String { value }) => {
            if let Some(value) = utf8(class, value) {
                emit(output, " ");
                emit_string(output, debug_text(value));
            }
        },
        Some(ConstantRef::FieldReference { class: owner, name_and_type }) => {
            write_member_constant(output, class, owner, name_and_type);
        },
        Some(ConstantRef::MethodReference { class: owner, name_and_type }) => {
            write_member_constant(output, class, owner, name_and_type);
        },
        Some(ConstantRef::InterfaceMethodReference { class: owner, name_and_type }) => {
            write_member_constant(output, class, owner, name_and_type);
        },
        Some(ConstantRef::Integer(value)) => {
            emit(output, " ");
            emit_string(output, signed_text(value as i64));
        },
        Some(ConstantRef::Float(bits)) => {
            emit(output, " ");
            emit_float(output, bits);
        },
        Some(ConstantRef::Long(value)) => {
            emit(output, " ");
            emit_string(output, signed_text(value));
        },
        Some(ConstantRef::Double(bits)) => {
            emit(output, " ");
            emit_double(output, bits);
        },
        _ => {},
    }
}

fn write_member_reference(
    output: &mut Vec<OutputPiece>,
    class: &Class,
    reference: MemberReference<'_>,
    Ghost(member): Ghost<MemberRefData>,
)
    requires
        reference.shows(member),
    ensures
        rendered(final(output)@) == rendered(old(output)@) + member_glyphs(
            class.constant_pool@,
            member,
        ),
{
    match reference {
        MemberReference::ConstantPool(index) => write_constant(output, class, index),
        MemberReference::Symbolic { owner, name, descriptor } => {
            emit(output, owner);
            emit(output, ".");
            emit(output, name);
            emit(output, descriptor);
        },
    }
}

fn write_ldc_value(
    output: &mut Vec<OutputPiece>,
    class: &Class,
    value: LdcValueRef<'_>,
    Ghost(data): Ghost<LdcData>,
)
    requires
        value.shows(data),
    ensures
        rendered(final(output)@) == rendered(old(output)@) + ldc_glyphs(class.constant_pool@, data),
{
    match value {
        LdcValueRef::ConstantPool(index) => write_constant(output, class, index),
        LdcValueRef::String(value) => emit_string(output, debug_text(value)),
        LdcValueRef::TypeDescriptor => emit(output, "<type>"),
        LdcValueRef::Integer(value) => emit_string(output, signed_text(value as i64)),
        LdcValueRef::Float(bits) => emit_float(output, bits),
        LdcValueRef::Long(value) => emit_string(output, signed_text(value)),
        LdcValueRef::Double(bits) => emit_double(output, bits),
    }
}

} // verus!

verus! {

/// Writes a branch or switch target: `base` plus `relative`, in hexadecimal.
fn write_target(output: &mut Vec<OutputPiece>, base: u16, relative: i32)
    ensures
        rendered(final(output)@) == rendered(old(output)@) + target_glyphs(base, relative),
{
    let target = crate::model::instruction::add_displacement(base, relative);
    emit_string(output, hex4_text(bits_text_value(target)));
}

fn write_table_targets(output: &mut Vec<OutputPiece>, base: u16, targets: &[i32])
    ensures
        rendered(final(output)@) == rendered(old(output)@) + targets_glyphs(
            base,
            targets@,
            targets@.len() as int,
        ),
{
    let ghost start = rendered(output@);
    let mut index: usize = 0;
    while index < targets.len()
        invariant
            index <= targets@.len(),
            rendered(output@) == start + targets_glyphs(base, targets@, index as int),
        decreases targets@.len() - index,
    {
        if index > 0 {
            emit(output, ", ");
        }
        write_target(output, base, targets[index]);
        index = index + 1;
    }
}

fn write_lookup_pairs(output: &mut Vec<OutputPiece>, base: u16, pairs: &[(i32, i32)])
    ensures
        rendered(final(output)@) == rendered(old(output)@) + pairs_glyphs(
            base,
            pairs@,
            pairs@.len() as int,
        ),
{
    let ghost start = rendered(output@);
    let mut index: usize = 0;
    while index < pairs.len()
        invariant
            index <= pairs@.len(),
            rendered(output@) == start + pairs_glyphs(base, pairs@, index as int),
        decreases pairs@.len() - index,
    {
        if index > 0 {
            emit(output, ", ");
        }
        let (key, target) = pairs[index];
        emit_string(output, signed_text(key as i64));
        emit(output, ":");
        write_target(output, base, target);
        index = index + 1;
    }
}

fn write_operand(
    output: &mut Vec<OutputPiece>,
    class: &Class,
    operand: InstructionOperand<'_>,
    Ghost(offset): Ghost<u16>,
    Ghost(insn): Ghost<InsnData>,
)
    requires
        operand.describes(insn, offset),
    ensures
        rendered(final(output)@) == rendered(old(output)@) + operand_glyphs(
            class.constant_pool@,
            offset,
            insn,
        ),
{
    match operand {
        InstructionOperand::NoOperand => {},
        InstructionOperand::Immediate(value) => emit_string(output, signed_text(value as i64)),
        InstructionOperand::Local(index) => emit_string(output, decimal_text(index as u64)),
        InstructionOperand::ConstantPool(index) => write_constant(output, class, index),
        InstructionOperand::Member(reference) => {
            let ghost member = match insn {
                InsnData::Field { field_ref, .. } => field_ref,
                InsnData::Method { method_ref, .. } => method_ref,
                _ => MemberRefData::Index(0),
            };
            write_member_reference(output, class, reference, Ghost(member));
        },
        InstructionOperand::InvokeInterface { method, count } => {
            write_constant(output, class, method);
            emit(output, " count=");
            emit_string(output, decimal_text(count as u64));
        },
        InstructionOperand::InvokeDynamic { call_site } => write_constant(output, class, call_site),
        InstructionOperand::Branch { relative, target } => {
            emit_string(output, hex4_text(bits_text_value(target)));
        },
        InstructionOperand::Ldc(value) => {
            let ghost data = match insn {
                InsnData::Ldc { value, .. } => value,
                _ => LdcData::Type,
            };
            write_ldc_value(output, class, value, Ghost(data));
        },
        InstructionOperand::Increment { local, amount } => {
            emit_string(output, decimal_text(local as u64));
            emit(output, " ");
            emit_string(output, signed_text(amount as i64));
        },
        InstructionOperand::TableSwitch { default, low, high, targets, base_offset } => {
            emit_string(output, signed_text(low as i64));
            emit(output, "..");
            emit_string(output, signed_text(high as i64));
            emit(output, " default=");
            emit_string(output, hex4_text(bits_text_value(default.target())));
            emit(output, " [");
            write_table_targets(output, base_offset.get(), targets);
            emit(output, "]");
        },
        InstructionOperand::LookupSwitch { default, pairs, base_offset } => {
            emit(output, "default=");
            emit_string(output, hex4_text(bits_text_value(default.target())));
            emit(output, " [");
            write_lookup_pairs(output, base_offset.get(), pairs);
            emit(output, "]");
        },
        InstructionOperand::MultiArray { class: index, dimensions } => {
            write_constant(output, class, index);
            emit(output, " dims=");
            emit_string(output, decimal_text(dimensions as u64));
        },
    }
}

fn write_instruction(output: &mut Vec<OutputPiece>, class: &Class, instruction: Instruction<'_>)
    ensures
        rendered(final(output)@) == rendered(old(output)@) + instruction_glyphs(
            class.constant_pool@,
            instruction.spec_offset(),
            instruction.spec_insn(),
        ),
{
    emit(output, "  ");
    emit_string(output, hex4_text(instruction.offset().get() as u64));
    emit(output, "  ");
    emit_string(output, left_aligned_text(mnemonic(instruction.opcode()), 16));
    write_operand(
        output,
        class,
        instruction.operand(),
        Ghost(instruction.spec_offset()),
        Ghost(instruction.spec_insn()),
    );
    emit(output, "\n");
}

} // verus!

verus! {

proof fn lemma_texts_push(strings: Seq<String>, i: int)
    requires
        0 <= i < strings.len(),
    ensures
        texts(strings.take(i + 1)) == texts(strings.take(i)).push(strings[i]@),
{
    assert(texts(strings.take(i + 1)) =~= texts(strings.take(i)).push(strings[i]@));
}

fn write_interfaces(output: &mut Vec<OutputPiece>, class: &Class)
    ensures
        rendered(final(output)@) == rendered(old(output)@) + separated(
            texts(class.interfaces@),
            ", "@,
        ),
{
    let ghost start = rendered(output@);
    let interfaces = class.interfaces();
    let mut i: usize = 0;
    while i < interfaces.len()
        invariant
            interfaces@.len() == class.interfaces@.len(),
            forall|j: int|
                0 <= j < interfaces@.len() ==> (#[trigger] interfaces@[j])@
                    == class.interfaces@[j]@,
            i <= interfaces@.len(),
            rendered(output@) == start + separated(texts(class.interfaces@.take(i as int)), ", "@),
        decreases interfaces@.len() - i,
    {
        proof {
            lemma_texts_push(class.interfaces@, i as int);
            lemma_separated_push(
                texts(class.interfaces@.take(i as int)),
                class.interfaces@[i as int]@,
                ", "@,
            );
        }
        if i > 0 {
            emit(output, ", ");
        }
        emit(output, interfaces[i]);
        i = i + 1;
    }
    assert(class.interfaces@.take(interfaces@.len() as int) =~= class.interfaces@);
}

fn write_field(output: &mut Vec<OutputPiece>, field: &Field)
    ensures
        rendered(final(output)@) == rendered(old(output)@) + field_glyphs(*field),
{
    emit(output, "\nfield ");
    emit(output, field.name());
    emit(output, " ");
    emit(output, field.descriptor());
    emit(output, " ");
    write_flags(output, field.access_flags(), FlagContext::Field);
    emit(output, "\n");
}

fn write_handler(
    output: &mut Vec<OutputPiece>,
    handler: &crate::model::ExceptionHandler<'_>,
    Ghost(pool): Ghost<Seq<Constant>>,
    Ghost(entry): Ghost<ExceptionEntry>,
)
    requires
        handler.describes(entry, pool),
    ensures
        rendered(final(output)@) == rendered(old(output)@) + handler_glyphs(pool, entry),
{
    emit(output, "  catch ");
    emit_string(output, hex4_text(handler.start().get() as u64));
    emit(output, "..");
    emit_string(output, hex4_text(handler.end().get() as u64));
    emit(output, " -> ");
    emit_string(output, hex4_text(handler.handler().get() as u64));
    if let Some(catch_type) = handler.catch_type() {
        emit(output, " ");
        emit(output, catch_type);
    }
    emit(output, "\n");
}

fn write_instructions(
    output: &mut Vec<OutputPiece>,
    class: &Class,
    instructions: &Vec<Instruction<'_>>,
    Ghost(info): Ghost<MethodInfo>,
)
    requires
        instructions@.len() == paired_count(info),
        forall|j: int|
            0 <= j < instructions@.len() ==> (#[trigger] instructions@[j]).spec_offset()
                == info.instruction_offsets@[j] && instructions@[j].spec_insn()
                == info.instructions@[j],
    ensures
        rendered(final(output)@) == rendered(old(output)@) + instructions_glyphs(
            class.constant_pool@,
            info,
            paired_count(info),
        ),
{
    let ghost start = rendered(output@);
    let mut i: usize = 0;
    while i < instructions.len()
        invariant
            instructions@.len() == paired_count(info),
            forall|j: int|
                0 <= j < instructions@.len() ==> (#[trigger] instructions@[j]).spec_offset()
                    == info.instruction_offsets@[j] && instructions@[j].spec_insn()
                    == info.instructions@[j],
            i <= instructions@.len(),
            rendered(output@) == start + instructions_glyphs(class.constant_pool@, info, i as int),
        decreases instructions@.len() - i,
    {
        write_instruction(output, class, instructions[i]);
        i = i + 1;
    }
}

fn write_handlers(
    output: &mut Vec<OutputPiece>,
    handlers: &Vec<crate::model::ExceptionHandler<'_>>,
    Ghost(pool): Ghost<Seq<Constant>>,
    Ghost(table): Ghost<Seq<ExceptionEntry>>,
)
    requires
        handlers@.len() == table.len(),
        forall|j: int|
            0 <= j < handlers@.len() ==> (#[trigger] handlers@[j]).describes(table[j], pool),
    ensures
        rendered(final(output)@) == rendered(old(output)@) + handlers_glyphs(
            pool,
            table,
            table.len() as int,
        ),
{
    let ghost start = rendered(output@);
    let mut k: usize = 0;
    while k < handlers.len()
        invariant
            handlers@.len() == table.len(),
            forall|j: int|
                0 <= j < handlers@.len() ==> (#[trigger] handlers@[j]).describes(table[j], pool),
            k <= handlers@.len(),
            rendered(output@) == start + handlers_glyphs(pool, table, k as int),
        decreases handlers@.len() - k,
    {
        write_handler(output, &handlers[k], Ghost(pool), Ghost(table[k as int]));
        k = k + 1;
    }
}

fn write_code(output: &mut Vec<OutputPiece>, class: &Class, method: crate::model::Method<'_>)
    requires
        method.spec_pool() == class.constant_pool@,
    ensures
        rendered(final(output)@) == rendered(old(output)@) + code_glyphs(
            class.constant_pool@,
            method.spec_info(),
        ),
{
    let ghost info = method.spec_info();
    if method.has_code() {
        emit(output, " stack=");
        emit_string(output, decimal_text(method.max_stack() as u64));
        emit(output, " locals=");
        emit_string(output, decimal_text(method.max_locals() as u64));
        emit(output, "\n");
        if let Some(instructions) = method.instructions() {
            write_instructions(output, class, &instructions, Ghost(info));
        }
        let handlers = method.exception_handlers();
        write_handlers(output, &handlers, Ghost(class.constant_pool@), Ghost(info.exception_table@));
    } else {
        emit(output, "\n");
    }
}

fn write_method(output: &mut Vec<OutputPiece>, class: &Class, method: crate::model::Method<'_>)
    requires
        method.spec_pool() == class.constant_pool@,
    ensures
        rendered(final(output)@) == rendered(old(output)@) + method_glyphs(
            class.constant_pool@,
            method.spec_info(),
        ),
{
    emit(output, "\nmethod ");
    emit(output, method.name());
    emit(output, method.descriptor());
    emit(output, " ");
    write_flags(output, method.access_flags(), FlagContext::Method);
    write_code(output, class, method);
}

fn write_class_line(output: &mut Vec<OutputPiece>, class: &Class)
    ensures
        rendered(final(output)@) == rendered(old(output)@) + class_line_glyphs(*class),
{
    let ghost start = rendered(output@);
    emit(output, "class ");
    emit(output, class.name());
    let ghost named = rendered(output@);
    if let Some(super_name) = class.super_name() {
        emit(output, " : ");
        emit(output, super_name);
    }
    assert(rendered(output@) == named + super_glyphs(*class));
    emit(output, " ");
    write_flags(output, class.access_flags(), FlagContext::Class);
    emit(output, " v");
    emit_string(output, decimal_text(class.version().major() as u64));
    emit(output, ".");
    emit_string(output, decimal_text(class.version().minor() as u64));
    emit(output, "\n");
}

fn write_class_header(output: &mut Vec<OutputPiece>, class: &Class)
    ensures
        rendered(final(output)@) == rendered(old(output)@) + class_header_glyphs(*class),
{
    write_class_line(output, class);
    let ghost first_line = rendered(output@);
    if class.interfaces.len() > 0 {
        emit(output, "implements ");
        write_interfaces(output, class);
        emit(output, "\n");
    }
    assert(rendered(output@) == first_line + interfaces_line_glyphs(*class));
}

/// A text format for decoded classes.
pub trait Formatter {
    /// The text this format gives for `class`.
    spec fn class_text(&self, class: Class) -> Seq<Glyph>;

    /// Appends the text of `class` to `output`.
    fn write_class(&self, class: &Class, output: &mut Vec<OutputPiece>)
        requires
            class.codeless_methods_are_empty(),
        ensures
            rendered(final(output)@) == rendered(old(output)@) + self.class_text(*class),
    ;

    /// The text of `class`, as pieces.
    fn format(&self, class: &Class) -> (pieces: Vec<OutputPiece>)
        requires
            class.codeless_methods_are_empty(),
        ensures
            rendered(pieces@) == self.class_text(*class),
    {
        let mut pieces: Vec<OutputPiece> = Vec::new();
        assert(rendered(pieces@) + self.class_text(*class) =~= self.class_text(*class));
        self.write_class(class, &mut pieces);
        pieces
    }
}

/// The FerroBabe text format: one line for the class, its interfaces, then each field and
/// each method with its code and exception handlers.
#[derive(Debug, Default, Clone, Copy)]
pub struct FerroFormatter;

impl Formatter for FerroFormatter {
    open spec fn class_text(&self, class: Class) -> Seq<Glyph> {
        class_glyphs(class)
    }

    fn write_class(&self, class: &Class, output: &mut Vec<OutputPiece>)
        ensures
            rendered(final(output)@) == rendered(old(output)@) + class_glyphs(*class),
    {
        write_class_header(output, class);
        let ghost after_header = rendered(output@);
        let fields = class.fields();
        let mut i: usize = 0;
        while i < fields.len()
            invariant
                fields@ == class.fields@,
                i <= fields@.len(),
                rendered(output@) == after_header + fields_glyphs(class.fields@, i as int),
            decreases fields@.len() - i,
        {
            write_field(output, &fields[i]);
            i = i + 1;
        }
        let ghost after_fields = rendered(output@);
        let methods = class.methods();
        let mut k: usize = 0;
        while k < methods.len()
            invariant
                methods@.len() == class.methods@.len(),
                forall|j: int|
                    0 <= j < methods@.len() ==> (#[trigger] methods@[j]).spec_info()
                        == class.methods@[j] && methods@[j].spec_pool() == class.constant_pool@,
                k <= methods@.len(),
                rendered(output@) == after_fields + methods_glyphs(
                    class.constant_pool@,
                    class.methods@,
                    k as int,
                ),
            decreases methods@.len() - k,
        {
            write_method(output, class, methods[k]);
            k = k + 1;
        }
    }

    fn format(&self, class: &Class) -> (pieces: Vec<OutputPiece>)
        ensures
            rendered(pieces@) == class_glyphs(*class),
    {
        let mut pieces: Vec<OutputPiece> = Vec::new();
        self.write_class(class, &mut pieces);
        pieces
    }
}

} // verus!

verus! {

proof fn lemma_no_set_names(table: Seq<(u16, Seq<char>)>)
    ensures
        set_names(0, table).len() == 0,
    decreases table.len(),
{
    if table.len() > 0 {
        lemma_no_set_names(table.drop_last());
        let bit = table.last().0;
        assert(0u16 & bit == 0) by (bit_vector);
    }
}

/// A name is printed for a bitset exactly when some entry of the table carries that name and
/// has its bit set in the bitset.
proof fn lemma_listed_names(flags: u16, table: Seq<(u16, Seq<char>)>, name: Seq<char>)
    ensures
        set_names(flags, table).contains(name) <==> exists|i: int|
            0 <= i < table.len() && #[trigger] table[i].1 == name && flags & table[i].0 != 0,
    decreases table.len(),
{
    if table.len() > 0 {
        let earlier = table.drop_last();
        let last = table.len() - 1;
        let before = set_names(flags, earlier);
        let after = set_names(flags, table);
        lemma_listed_names(flags, earlier, name);
        assert(forall|i: int| 0 <= i < earlier.len() ==> #[trigger] earlier[i] == table[i]);
        assert(flags & table[last].0 != 0 ==> after == before.push(table[last].1));
        assert(flags & table[last].0 == 0 ==> after == before);
        if after.contains(name) {
            let j = choose|j: int| 0 <= j < after.len() && after[j] == name;
            if j < before.len() {
                assert(before[j] == after[j]);
                assert(before.contains(name));
                let i = choose|i: int|
                    0 <= i < earlier.len() && #[trigger] earlier[i].1 == name && flags & earlier[i].0 != 0;
                assert(table[i].1 == name && flags & table[i].0 != 0);
            } else {
                assert(table[last].1 == name && flags & table[last].0 != 0);
            }
        }
        if exists|i: int| 0 <= i < table.len() && #[trigger] table[i].1 == name && flags & table[i].0 != 0 {
            let i = choose|i: int|
                0 <= i < table.len() && #[trigger] table[i].1 == name && flags & table[i].0 != 0;
            if i < last {
                assert(earlier[i].1 == name && flags & earlier[i].0 != 0);
                assert(before.contains(name));
                let j = choose|j: int| 0 <= j < before.len() && before[j] == name;
                assert(after[j] == name);
            } else {
                assert(after[before.len() as int] == name);
            }
            assert(after.contains(name));
        }
    }
}

/// In every context, each flag defined for that context is printed exactly when its bit is set
/// in the bitset, whatever the other bits hold: for methods `public` 0x0001, `private` 0x0002,
/// `protected` 0x0004, `static` 0x0008, `final` 0x0010, `synchronized` 0x0020, `bridge`
/// 0x0040, `varargs` 0x0080, `native` 0x0100, `abstract` 0x0400, `strict` 0x0800 and
/// `synthetic` 0x1000, and the class and field flags of the class-file format likewise.
pub proof fn law_each_flag_prints_its_name(flags: u16, context: FlagContext)
    ensures
        context == FlagContext::Class ==> (set_names(flags, flag_table(context)).contains("public"@)
            <==> flags & 0x0001 != 0),
        context == FlagContext::Class ==> (set_names(flags, flag_table(context)).contains("final"@)
            <==> flags & 0x0010 != 0),
        context == FlagContext::Class ==> (set_names(flags, flag_table(context)).contains("super"@)
            <==> flags & 0x0020 != 0),
        context == FlagContext::Class ==> (set_names(flags, flag_table(context)).contains("interface"@)
            <==> flags & 0x0200 != 0),
        context == FlagContext::Class ==> (set_names(flags, flag_table(context)).contains("abstract"@)
            <==> flags & 0x0400 != 0),
        context == FlagContext::Class ==> (set_names(flags, flag_table(context)).contains("synthetic"@)
            <==> flags & 0x1000 != 0),
        context == FlagContext::Class ==> (set_names(flags, flag_table(context)).contains("annotation"@)
            <==> flags & 0x2000 != 0),
        context == FlagContext::Class ==> (set_names(flags, flag_table(context)).contains("enum"@)
            <==> flags & 0x4000 != 0),
        context == FlagContext::Class ==> (set_names(flags, flag_table(context)).contains("module"@)
            <==> flags & 0x8000 != 0),
        context == FlagContext::Field ==> (set_names(flags, flag_table(context)).contains("public"@)
            <==> flags & 0x0001 != 0),
        context == FlagContext::Field ==> (set_names(flags, flag_table(context)).contains("private"@)
            <==> flags & 0x0002 != 0),
        context == FlagContext::Field ==> (set_names(flags, flag_table(context)).contains("protected"@)
            <==> flags & 0x0004 != 0),
        context == FlagContext::Field ==> (set_names(flags, flag_table(context)).contains("static"@)
            <==> flags & 0x0008 != 0),
        context == FlagContext::Field ==> (set_names(flags, flag_table(context)).contains("final"@)
            <==> flags & 0x0010 != 0),
        context == FlagContext::Field ==> (set_names(flags, flag_table(context)).contains("volatile"@)
            <==> flags & 0x0040 != 0),
        context == FlagContext::Field ==> (set_names(flags, flag_table(context)).contains("transient"@)
            <==> flags & 0x0080 != 0),
        context == FlagContext::Field ==> (set_names(flags, flag_table(context)).contains("synthetic"@)
            <==> flags & 0x1000 != 0),
        context == FlagContext::Field ==> (set_names(flags, flag_table(context)).contains("enum"@)
            <==> flags & 0x4000 != 0),
        context == FlagContext::Method ==> (set_names(flags, flag_table(context)).contains("public"@)
            <==> flags & 0x0001 != 0),
        context == FlagContext::Method ==> (set_names(flags, flag_table(context)).contains("private"@)
            <==> flags & 0x0002 != 0),
        context == FlagContext::Method ==> (set_names(flags, flag_table(context)).contains("protected"@)
            <==> flags & 0x0004 != 0),
        context == FlagContext::Method ==> (set_names(flags, flag_table(context)).contains("static"@)
            <==> flags & 0x0008 != 0),
        context == FlagContext::Method ==> (set_names(flags, flag_table(context)).contains("final"@)
            <==> flags & 0x0010 != 0),
        context == FlagContext::Method ==> (set_names(flags, flag_table(context)).contains("synchronized"@)
            <==> flags & 0x0020 != 0),
        context == FlagContext::Method ==> (set_names(flags, flag_table(context)).contains("bridge"@)
            <==> flags & 0x0040 != 0),
        context == FlagContext::Method ==> (set_names(flags, flag_table(context)).contains("varargs"@)
            <==> flags & 0x0080 != 0),
        context == FlagContext::Method ==> (set_names(flags, flag_table(context)).contains("native"@)
            <==> flags & 0x0100 != 0),
        context == FlagContext::Method ==> (set_names(flags, flag_table(context)).contains("abstract"@)
            <==> flags & 0x0400 != 0),
        context == FlagContext::Method ==> (set_names(flags, flag_table(context)).contains("strict"@)
            <==> flags & 0x0800 != 0),
        context == FlagContext::Method ==> (set_names(flags, flag_table(context)).contains("synthetic"@)
            <==> flags & 0x1000 != 0),
{
    reveal_strlit("abstract");
    reveal_strlit("annotation");
    reveal_strlit("bridge");
    reveal_strlit("enum");
    reveal_strlit("final");
    reveal_strlit("interface");
    reveal_strlit("module");
    reveal_strlit("native");
    reveal_strlit("private");
    reveal_strlit("protected");
    reveal_strlit("public");
    reveal_strlit("static");
    reveal_strlit("strict");
    reveal_strlit("super");
    reveal_strlit("synchronized");
    reveal_strlit("synthetic");
    reveal_strlit("transient");
    reveal_strlit("varargs");
    reveal_strlit("volatile");
    if context == FlagContext::Class {
        let table = flag_table(context);
        lemma_listed_names(flags, table, "public"@);
        assert(table[0].1 == "public"@ && table[0].0 == 0x0001);
        assert forall|i: int| 0 <= i < table.len() && #[trigger] table[i].1 == "public"@ implies i == 0 by {
            assert(i != 1 || table[1].1.len() != 6);
            assert(i != 2 || table[2].1.len() != 6);
            assert(i != 3 || table[3].1.len() != 6);
            assert(i != 4 || table[4].1.len() != 6);
            assert(i != 5 || table[5].1.len() != 6);
            assert(i != 6 || table[6].1.len() != 6);
            assert(i != 7 || table[7].1.len() != 6);
            assert(i != 8 || table[8].1[0] != 'p');
        }
        lemma_listed_names(flags, table, "final"@);
        assert(table[1].1 == "final"@ && table[1].0 == 0x0010);
        assert forall|i: int| 0 <= i < table.len() && #[trigger] table[i].1 == "final"@ implies i == 1 by {
            assert(i != 0 || table[0].1.len() != 5);
            assert(i != 2 || table[2].1[0] != 'f');
            assert(i != 3 || table[3].1.len() != 5);
            assert(i != 4 || table[4].1.len() != 5);
            assert(i != 5 || table[5].1.len() != 5);
            assert(i != 6 || table[6].1.len() != 5);
            assert(i != 7 || table[7].1.len() != 5);
            assert(i != 8 || table[8].1.len() != 5);
        }
        lemma_listed_names(flags, table, "super"@);
        assert(table[2].1 == "super"@ && table[2].0 == 0x0020);
        assert forall|i: int| 0 <= i < table.len() && #[trigger] table[i].1 == "super"@ implies i == 2 by {
            assert(i != 0 || table[0].1.len() != 5);
            assert(i != 1 || table[1].1[0] != 's');
            assert(i != 3 || table[3].1.len() != 5);
            assert(i != 4 || table[4].1.len() != 5);
            assert(i != 5 || table[5].1.len() != 5);
            assert(i != 6 || table[6].1.len() != 5);
            assert(i != 7 || table[7].1.len() != 5);
            assert(i != 8 || table[8].1.len() != 5);
        }
        lemma_listed_names(flags, table, "interface"@);
        assert(table[3].1 == "interface"@ && table[3].0 == 0x0200);
        assert forall|i: int| 0 <= i < table.len() && #[trigger] table[i].1 == "interface"@ implies i == 3 by {
            assert(i != 0 || table[0].1.len() != 9);
            assert(i != 1 || table[1].1.len() != 9);
            assert(i != 2 || table[2].1.len() != 9);
            assert(i != 4 || table[4].1.len() != 9);
            assert(i != 5 || table[5].1[0] != 'i');
            assert(i != 6 || table[6].1.len() != 9);
            assert(i != 7 || table[7].1.len() != 9);
            assert(i != 8 || table[8].1.len() != 9);
        }
        lemma_listed_names(flags, table, "abstract"@);
        assert(table[4].1 == "abstract"@ && table[4].0 == 0x0400);
        assert forall|i: int| 0 <= i < table.len() && #[trigger] table[i].1 == "abstract"@ implies i == 4 by {
            assert(i != 0 || table[0].1.len() != 8);
            assert(i != 1 || table[1].1.len() != 8);
            assert(i != 2 || table[2].1.len() != 8);
            assert(i != 3 || table[3].1.len() != 8);
            assert(i != 5 || table[5].1.len() != 8);
            assert(i != 6 || table[6].1.len() != 8);
            assert(i != 7 || table[7].1.len() != 8);
            assert(i != 8 || table[8].1.len() != 8);
        }
        lemma_listed_names(flags, table, "synthetic"@);
        assert(table[5].1 == "synthetic"@ && table[5].0 == 0x1000);
        assert forall|i: int| 0 <= i < table.len() && #[trigger] table[i].1 == "synthetic"@ implies i == 5 by {
            assert(i != 0 || table[0].1.len() != 9);
            assert(i != 1 || table[1].1.len() != 9);
            assert(i != 2 || table[2].1.len() != 9);
            assert(i != 3 || table[3].1[0] != 's');
            assert(i != 4 || table[4].1.len() != 9);
            assert(i != 6 || table[6].1.len() != 9);
            assert(i != 7 || table[7].1.len() != 9);
            assert(i != 8 || table[8].1.len() != 9);
        }
        lemma_listed_names(flags, table, "annotation"@);
        assert(table[6].1 == "annotation"@ && table[6].0 == 0x2000);
        assert forall|i: int| 0 <= i < table.len() && #[trigger] table[i].1 == "annotation"@ implies i == 6 by {
            assert(i != 0 || table[0].1.len() != 10);
            assert(i != 1 || table[1].1.len() != 10);
            assert(i != 2 || table[2].1.len() != 10);
            assert(i != 3 || table[3].1.len() != 10);
            assert(i != 4 || table[4].1.len() != 10);
            assert(i != 5 || table[5].1.len() != 10);
            assert(i != 7 || table[7].1.len() != 10);
            assert(i != 8 || table[8].1.len() != 10);
        }
        lemma_listed_names(flags, table, "enum"@);
        assert(table[7].1 == "enum"@ && table[7].0 == 0x4000);
        assert forall|i: int| 0 <= i < table.len() && #[trigger] table[i].1 == "enum"@ implies i == 7 by {
            assert(i != 0 || table[0].1.len() != 4);
            assert(i != 1 || table[1].1.len() != 4);
            assert(i != 2 || table[2].1.len() != 4);
            assert(i != 3 || table[3].1.len() != 4);
            assert(i != 4 || table[4].1.len() != 4);
            assert(i != 5 || table[5].1.len() != 4);
            assert(i != 6 || table[6].1.len() != 4);
            assert(i != 8 || table[8].1.len() != 4);
        }
        lemma_listed_names(flags, table, "module"@);
        assert(table[8].1 == "module"@ && table[8].0 == 0x8000);
        assert forall|i: int| 0 <= i < table.len() && #[trigger] table[i].1 == "module"@ implies i == 8 by {
            assert(i != 0 || table[0].1[0] != 'm');
            assert(i != 1 || table[1].1.len() != 6);
            assert(i != 2 || table[2].1.len() != 6);
            assert(i != 3 || table[3].1.len() != 6);
            assert(i != 4 || table[4].1.len() != 6);
            assert(i != 5 || table[5].1.len() != 6);
            assert(i != 6 || table[6].1.len() != 6);
            assert(i != 7 || table[7].1.len() != 6);
        }
    }
    if context == FlagContext::Field {
        let table = flag_table(context);
        lemma_listed_names(flags, table, "public"@);
        assert(table[0].1 == "public"@ && table[0].0 == 0x0001);
        assert forall|i: int| 0 <= i < table.len() && #[trigger] table[i].1 == "public"@ implies i == 0 by {
            assert(i != 1 || table[1].1.len() != 6);
            assert(i != 2 || table[2].1.len() != 6);
            assert(i != 3 || table[3].1[0] != 'p');
            assert(i != 4 || table[4].1.len() != 6);
            assert(i != 5 || table[5].1.len() != 6);
            assert(i != 6 || table[6].1.len() != 6);
            assert(i != 7 || table[7].1.len() != 6);
            assert(i != 8 || table[8].1.len() != 6);
        }
        lemma_listed_names(flags, table, "private"@);
        assert(table[1].1 == "private"@ && table[1].0 == 0x0002);
        assert forall|i: int| 0 <= i < table.len() && #[trigger] table[i].1 == "private"@ implies i == 1 by {
            assert(i != 0 || table[0].1.len() != 7);
            assert(i != 2 || table[2].1.len() != 7);
            assert(i != 3 || table[3].1.len() != 7);
            assert(i != 4 || table[4].1.len() != 7);
            assert(i != 5 || table[5].1.len() != 7);
            assert(i != 6 || table[6].1.len() != 7);
            assert(i != 7 || table[7].1.len() != 7);
            assert(i != 8 || table[8].1.len() != 7);
        }
        lemma_listed_names(flags, table, "protected"@);
        assert(table[2].1 == "protected"@ && table[2].0 == 0x0004);
        assert forall|i: int| 0 <= i < table.len() && #[trigger] table[i].1 == "protected"@ implies i == 2 by {
            assert(i != 0 || table[0].1.len() != 9);
            assert(i != 1 || table[1].1.len() != 9);
            assert(i != 3 || table[3].1.len() != 9);
            assert(i != 4 || table[4].1.len() != 9);
            assert(i != 5 || table[5].1.len() != 9);
            assert(i != 6 || table[6].1[0] != 'p');
            assert(i != 7 || table[7].1[0] != 'p');
            assert(i != 8 || table[8].1.len() != 9);
        }
        lemma_listed_names(flags, table, "static"@);
        assert(table[3].1 == "static"@ && table[3].0 == 0x0008);
        assert forall|i: int| 0 <= i < table.len() && #[trigger] table[i].1 == "static"@ implies i == 3 by {
            assert(i != 0 || table[0].1[0] != 's');
            assert(i != 1 || table[1].1.len() != 6);
            assert(i != 2 || table[2].1.len() != 6);
            assert(i != 4 || table[4].1.len() != 6);
            assert(i != 5 || table[5].1.len() != 6);
            assert(i != 6 || table[6].1.len() != 6);
            assert(i != 7 || table[7].1.len() != 6);
            assert(i != 8 || table[8].1.len() != 6);
        }
        lemma_listed_names(flags, table, "final"@);
        assert(table[4].1 == "final"@ && table[4].0 == 0x0010);
        assert forall|i: int| 0 <= i < table.len() && #[trigger] table[i].1 == "final"@ implies i == 4 by {
            assert(i != 0 || table[0].1.len() != 5);
            assert(i != 1 || table[1].1.len() != 5);
            assert(i != 2 || table[2].1.len() != 5);
            assert(i != 3 || table[3].1.len() != 5);
            assert(i != 5 || table[5].1.len() != 5);
            assert(i != 6 || table[6].1.len() != 5);
            assert(i != 7 || table[7].1.len() != 5);
            assert(i != 8 || table[8].1.len() != 5);
        }
        lemma_listed_names(flags, table, "volatile"@);
        assert(table[5].1 == "volatile"@ && table[5].0 == 0x0040);
        assert forall|i: int| 0 <= i < table.len() && #[trigger] table[i].1 == "volatile"@ implies i == 5 by {
            assert(i != 0 || table[0].1.len() != 8);
            assert(i != 1 || table[1].1.len() != 8);
            assert(i != 2 || table[2].1.len() != 8);
            assert(i != 3 || table[3].1.len() != 8);
            assert(i != 4 || table[4].1.len() != 8);
            assert(i != 6 || table[6].1.len() != 8);
            assert(i != 7 || table[7].1.len() != 8);
            assert(i != 8 || table[8].1.len() != 8);
        }
        lemma_listed_names(flags, table, "transient"@);
        assert(table[6].1 == "transient"@ && table[6].0 == 0x0080);
        assert forall|i: int| 0 <= i < table.len() && #[trigger] table[i].1 == "transient"@ implies i == 6 by {
            assert(i != 0 || table[0].1.len() != 9);
            assert(i != 1 || table[1].1.len() != 9);
            assert(i != 2 || table[2].1[0] != 't');
            assert(i != 3 || table[3].1.len() != 9);
            assert(i != 4 || table[4].1.len() != 9);
            assert(i != 5 || table[5].1.len() != 9);
            assert(i != 7 || table[7].1[0] != 't');
            assert(i != 8 || table[8].1.len() != 9);
        }
        lemma_listed_names(flags, table, "synthetic"@);
        assert(table[7].1 == "synthetic"@ && table[7].0 == 0x1000);
        assert forall|i: int| 0 <= i < table.len() && #[trigger] table[i].1 == "synthetic"@ implies i == 7 by {
            assert(i != 0 || table[0].1.len() != 9);
            assert(i != 1 || table[1].1.len() != 9);
            assert(i != 2 || table[2].1[0] != 's');
            assert(i != 3 || table[3].1.len() != 9);
            assert(i != 4 || table[4].1.len() != 9);
            assert(i != 5 || table[5].1.len() != 9);
            assert(i != 6 || table[6].1[0] != 's');
            assert(i != 8 || table[8].1.len() != 9);
        }
        lemma_listed_names(flags, table, "enum"@);
        assert(table[8].1 == "enum"@ && table[8].0 == 0x4000);
        assert forall|i: int| 0 <= i < table.len() && #[trigger] table[i].1 == "enum"@ implies i == 8 by {
            assert(i != 0 || table[0].1.len() != 4);
            assert(i != 1 || table[1].1.len() != 4);
            assert(i != 2 || table[2].1.len() != 4);
            assert(i != 3 || table[3].1.len() != 4);
            assert(i != 4 || table[4].1.len() != 4);
            assert(i != 5 || table[5].1.len() != 4);
            assert(i != 6 || table[6].1.len() != 4);
            assert(i != 7 || table[7].1.len() != 4);
        }
    }
    if context == FlagContext::Method {
        let table = flag_table(context);
        lemma_listed_names(flags, table, "public"@);
        assert(table[0].1 == "public"@ && table[0].0 == 0x0001);
        assert forall|i: int| 0 <= i < table.len() && #[trigger] table[i].1 == "public"@ implies i == 0 by {
            assert(i != 1 || table[1].1.len() != 6);
            assert(i != 2 || table[2].1.len() != 6);
            assert(i != 3 || table[3].1[0] != 'p');
            assert(i != 4 || table[4].1.len() != 6);
            assert(i != 5 || table[5].1.len() != 6);
            assert(i != 6 || table[6].1[0] != 'p');
            assert(i != 7 || table[7].1.len() != 6);
            assert(i != 8 || table[8].1[0] != 'p');
            assert(i != 9 || table[9].1.len() != 6);
            assert(i != 10 || table[10].1[0] != 'p');
            assert(i != 11 || table[11].1.len() != 6);
        }
        lemma_listed_names(flags, table, "private"@);
        assert(table[1].1 == "private"@ && table[1].0 == 0x0002);
        assert forall|i: int| 0 <= i < table.len() && #[trigger] table[i].1 == "private"@ implies i == 1 by {
            assert(i != 0 || table[0].1.len() != 7);
            assert(i != 2 || table[2].1.len() != 7);
            assert(i != 3 || table[3].1.len() != 7);
            assert(i != 4 || table[4].1.len() != 7);
            assert(i != 5 || table[5].1.len() != 7);
            assert(i != 6 || table[6].1.len() != 7);
            assert(i != 7 || table[7].1[0] != 'p');
            assert(i != 8 || table[8].1.len() != 7);
            assert(i != 9 || table[9].1.len() != 7);
            assert(i != 10 || table[10].1.len() != 7);
            assert(i != 11 || table[11].1.len() != 7);
        }
        lemma_listed_names(flags, table, "protected"@);
        assert(table[2].1 == "protected"@ && table[2].0 == 0x0004);
        assert forall|i: int| 0 <= i < table.len() && #[trigger] table[i].1 == "protected"@ implies i == 2 by {
            assert(i != 0 || table[0].1.len() != 9);
            assert(i != 1 || table[1].1.len() != 9);
            assert(i != 3 || table[3].1.len() != 9);
            assert(i != 4 || table[4].1.len() != 9);
            assert(i != 5 || table[5].1.len() != 9);
            assert(i != 6 || table[6].1.len() != 9);
            assert(i != 7 || table[7].1.len() != 9);
            assert(i != 8 || table[8].1.len() != 9);
            assert(i != 9 || table[9].1.len() != 9);
            assert(i != 10 || table[10].1.len() != 9);
            assert(i != 11 || table[11].1[0] != 'p');
        }
        lemma_listed_names(flags, table, "static"@);
        assert(table[3].1 == "static"@ && table[3].0 == 0x0008);
        assert forall|i: int| 0 <= i < table.len() && #[trigger] table[i].1 == "static"@ implies i == 3 by {
            assert(i != 0 || table[0].1[0] != 's');
            assert(i != 1 || table[1].1.len() != 6);
            assert(i != 2 || table[2].1.len() != 6);
            assert(i != 4 || table[4].1.len() != 6);
            assert(i != 5 || table[5].1.len() != 6);
            assert(i != 6 || table[6].1[0] != 's');
            assert(i != 7 || table[7].1.len() != 6);
            assert(i != 8 || table[8].1[0] != 's');
            assert(i != 9 || table[9].1.len() != 6);
            assert(i != 10 || table[10].1[2] != 'a');
            assert(i != 11 || table[11].1.len() != 6);
        }
        lemma_listed_names(flags, table, "final"@);
        assert(table[4].1 == "final"@ && table[4].0 == 0x0010);
        assert forall|i: int| 0 <= i < table.len() && #[trigger] table[i].1 == "final"@ implies i == 4 by {
            assert(i != 0 || table[0].1.len() != 5);
            assert(i != 1 || table[1].1.len() != 5);
            assert(i != 2 || table[2].1.len() != 5);
            assert(i != 3 || table[3].1.len() != 5);
            assert(i != 5 || table[5].1.len() != 5);
            assert(i != 6 || table[6].1.len() != 5);
            assert(i != 7 || table[7].1.len() != 5);
            assert(i != 8 || table[8].1.len() != 5);
            assert(i != 9 || table[9].1.len() != 5);
            assert(i != 10 || table[10].1.len() != 5);
            assert(i != 11 || table[11].1.len() != 5);
        }
        lemma_listed_names(flags, table, "synchronized"@);
        assert(table[5].1 == "synchronized"@ && table[5].0 == 0x0020);
        assert forall|i: int| 0 <= i < table.len() && #[trigger] table[i].1 == "synchronized"@ implies i == 5 by {
            assert(i != 0 || table[0].1.len() != 12);
            assert(i != 1 || table[1].1.len() != 12);
            assert(i != 2 || table[2].1.len() != 12);
            assert(i != 3 || table[3].1.len() != 12);
            assert(i != 4 || table[4].1.len() != 12);
            assert(i != 6 || table[6].1.len() != 12);
            assert(i != 7 || table[7].1.len() != 12);
            assert(i != 8 || table[8].1.len() != 12);
            assert(i != 9 || table[9].1.len() != 12);
            assert(i != 10 || table[10].1.len() != 12);
            assert(i != 11 || table[11].1.len() != 12);
        }
        lemma_listed_names(flags, table, "bridge"@);
        assert(table[6].1 == "bridge"@ && table[6].0 == 0x0040);
        assert forall|i: int| 0 <= i < table.len() && #[trigger] table[i].1 == "bridge"@ implies i == 6 by {
            assert(i != 0 || table[0].1[0] != 'b');
            assert(i != 1 || table[1].1.len() != 6);
            assert(i != 2 || table[2].1.len() != 6);
            assert(i != 3 || table[3].1[0] != 'b');
            assert(i != 4 || table[4].1.len() != 6);
            assert(i != 5 || table[5].1.len() != 6);
            assert(i != 7 || table[7].1.len() != 6);
            assert(i != 8 || table[8].1[0] != 'b');
            assert(i != 9 || table[9].1.len() != 6);
            assert(i != 10 || table[10].1[0] != 'b');
            assert(i != 11 || table[11].1.len() != 6);
        }
        lemma_listed_names(flags, table, "varargs"@);
        assert(table[7].1 == "varargs"@ && table[7].0 == 0x0080);
        assert forall|i: int| 0 <= i < table.len() && #[trigger] table[i].1 == "varargs"@ implies i == 7 by {
            assert(i != 0 || table[0].1.len() != 7);
            assert(i != 1 || table[1].1[0] != 'v');
            assert(i != 2 || table[2].1.len() != 7);
            assert(i != 3 || table[3].1.len() != 7);
            assert(i != 4 || table[4].1.len() != 7);
            assert(i != 5 || table[5].1.len() != 7);
            assert(i != 6 || table[6].1.len() != 7);
            assert(i != 8 || table[8].1.len() != 7);
            assert(i != 9 || table[9].1.len() != 7);
            assert(i != 10 || table[10].1.len() != 7);
            assert(i != 11 || table[11].1.len() != 7);
        }
        lemma_listed_names(flags, table, "native"@);
        assert(table[8].1 == "native"@ && table[8].0 == 0x0100);
        assert forall|i: int| 0 <= i < table.len() && #[trigger] table[i].1 == "native"@ implies i == 8 by {
            assert(i != 0 || table[0].1[0] != 'n');
            assert(i != 1 || table[1].1.len() != 6);
            assert(i != 2 || table[2].1.len() != 6);
            assert(i != 3 || table[3].1[0] != 'n');
            assert(i != 4 || table[4].1.len() != 6);
            assert(i != 5 || table[5].1.len() != 6);
            assert(i != 6 || table[6].1[0] != 'n');
            assert(i != 7 || table[7].1.len() != 6);
            assert(i != 9 || table[9].1.len() != 6);
            assert(i != 10 || table[10].1[0] != 'n');
            assert(i != 11 || table[11].1.len() != 6);
        }
        lemma_listed_names(flags, table, "abstract"@);
        assert(table[9].1 == "abstract"@ && table[9].0 == 0x0400);
        assert forall|i: int| 0 <= i < table.len() && #[trigger] table[i].1 == "abstract"@ implies i == 9 by {
            assert(i != 0 || table[0].1.len() != 8);
            assert(i != 1 || table[1].1.len() != 8);
            assert(i != 2 || table[2].1.len() != 8);
            assert(i != 3 || table[3].1.len() != 8);
            assert(i != 4 || table[4].1.len() != 8);
            assert(i != 5 || table[5].1.len() != 8);
            assert(i != 6 || table[6].1.len() != 8);
            assert(i != 7 || table[7].1.len() != 8);
            assert(i != 8 || table[8].1.len() != 8);
            assert(i != 10 || table[10].1.len() != 8);
            assert(i != 11 || table[11].1.len() != 8);
        }
        lemma_listed_names(flags, table, "strict"@);
        assert(table[10].1 == "strict"@ && table[10].0 == 0x0800);
        assert forall|i: int| 0 <= i < table.len() && #[trigger] table[i].1 == "strict"@ implies i == 10 by {
            assert(i != 0 || table[0].1[0] != 's');
            assert(i != 1 || table[1].1.len() != 6);
            assert(i != 2 || table[2].1.len() != 6);
            assert(i != 3 || table[3].1[2] != 'r');
            assert(i != 4 || table[4].1.len() != 6);
            assert(i != 5 || table[5].1.len() != 6);
            assert(i != 6 || table[6].1[0] != 's');
            assert(i != 7 || table[7].1.len() != 6);
            assert(i != 8 || table[8].1[0] != 's');
            assert(i != 9 || table[9].1.len() != 6);
            assert(i != 11 || table[11].1.len() != 6);
        }
        lemma_listed_names(flags, table, "synthetic"@);
        assert(table[11].1 == "synthetic"@ && table[11].0 == 0x1000);
        assert forall|i: int| 0 <= i < table.len() && #[trigger] table[i].1 == "synthetic"@ implies i == 11 by {
            assert(i != 0 || table[0].1.len() != 9);
            assert(i != 1 || table[1].1.len() != 9);
            assert(i != 2 || table[2].1[0] != 's');
            assert(i != 3 || table[3].1.len() != 9);
            assert(i != 4 || table[4].1.len() != 9);
            assert(i != 5 || table[5].1.len() != 9);
            assert(i != 6 || table[6].1.len() != 9);
            assert(i != 7 || table[7].1.len() != 9);
            assert(i != 8 || table[8].1.len() != 9);
            assert(i != 9 || table[9].1.len() != 9);
            assert(i != 10 || table[10].1.len() != 9);
        }
    }
}

/// A bitset with no flags set is printed as empty brackets, in every context.
pub proof fn law_no_flags_print_empty_brackets(context: FlagContext)
    ensures
        flags_glyphs(0, context) == glyphs("["@) + glyphs("]"@),
{
    lemma_no_set_names(flag_table(context));
    assert(separated(set_names(0, flag_table(context)), " "@) =~= Seq::<Glyph>::empty());
}

} // verus!
