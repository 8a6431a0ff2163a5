//! Trusted declarations for the `rust_asm` class-file decoder.
//!
//! Verus sees none of the decoder's types from inside: each is declared opaque. A decoded
//! class is kept in a [`DecodedClass`] together with the bytes it was decoded from, and each
//! wrapper below reads one part of it, converted one for one into the library's model. What
//! the decoder gives depends on those bytes alone, so each wrapper states its result as the
//! matching part of [`decoded_model`] of those bytes.

use vstd::prelude::*;

use rust_asm::class_reader::{AttributeInfo, ClassReader, VerificationTypeInfo};
use rust_asm::class_reader::StackMapFrame as DecodedFrame;
use rust_asm::constant_pool::CpInfo;
use rust_asm::error::ClassReadError;
use rust_asm::insn::{Insn, LdcValue, MemberRef};
use rust_asm::nodes::ClassNode;

use crate::decode::{
    decoded_model, decoder_accepts, decoder_failure, frames_of, has_shape, is_compound_insn,
    is_dynamic_constant, is_indexed_constant, is_member_constant, is_numeric_insn, is_switch_insn,
    is_value_constant, listed_locals, listed_stack, single_stack_item,
};
use crate::guard::decodes_in_range;
use crate::error::{DecodeError, DecodeErrorKind};
use crate::model::{
    Constant, ExceptionEntry, Field, InsnData, LdcData, MemberRefData, RawVerificationType,
    StackMapEntry,
};

verus! {

#[verifier::external_type_specification]
#[verifier::external_body]
pub struct ExClassNode(ClassNode);

#[verifier::external_type_specification]
#[verifier::external_body]
pub struct ExClassReadError(ClassReadError);

/// A class the decoder accepted, with the bytes it was decoded from.
///
/// Only [`read_class`] makes one, so the node is always the decoder's node for `source`.
pub struct DecodedClass {
    node: ClassNode,
    source: Vec<u8>,
}

impl DecodedClass {
    /// The bytes this class was decoded from.
    pub closed spec fn source(&self) -> Seq<u8> {
        self.source@
    }
}

/// A class file the decoder refused, with the bytes it refused.
///
/// Only [`read_class`] makes one, so the error is always the decoder's error for `source`.
pub struct Refusal {
    error: ClassReadError,
    source: Vec<u8>,
}

impl Refusal {
    /// The bytes the decoder refused.
    pub closed spec fn source(&self) -> Seq<u8> {
        self.source@
    }
}

/// The top-level parts of a decoded class, and how many constants, fields and methods it has.
pub struct ClassHead {
    pub access_flags: u16,
    pub name: String,
    pub super_name: Option<String>,
    pub source_file: Option<String>,
    pub interfaces: Vec<String>,
    pub constants: usize,
    pub fields: usize,
    pub methods: usize,
}

/// The scalar parts of a decoded method, and how many instructions, handlers and code
/// attributes it has.
pub struct MethodHead {
    pub access_flags: u16,
    pub name: String,
    pub descriptor: String,
    pub has_code: bool,
    pub max_stack: u16,
    pub max_locals: u16,
    pub instructions: usize,
    pub instruction_offsets: Vec<u16>,
    pub handlers: usize,
    pub code_attributes: usize,
}

/// Decodes a class file.
///
/// Trusted: calls `ClassReader::new(bytes).to_class_node()`, a parse of `bytes` alone. Claims
/// that it succeeds exactly on the inputs named by [`decoder_accepts`], and two facts of
/// `to_class_node` on the model: a method without a `Code` attribute gets zero limits and no
/// instructions, offsets, handlers or code attributes, and slot 0 of the constant pool is the
/// unusable marker that `read_constant_pool` pushes first.
///
/// The decoder panics, where overflow checks are on, on a switch or 32-bit branch whose
/// arithmetic overflows; always on a `lookupswitch` with a negative pair count; and on an
/// attribute or code length whose end its position arithmetic cannot hold in a `usize`. The
/// `requires` leaves those inputs out. Left unsaid: a switch that claims a table far larger
/// than its code makes the decoder reserve memory for it first, which can fail on a machine
/// without that much memory.
#[verifier::external_body]
pub(crate) fn read_class(bytes: &[u8]) -> (read: Result<DecodedClass, Refusal>)
    requires
        decodes_in_range(bytes@),
    ensures
        read is Ok == decoder_accepts(bytes@),
        read matches Ok(d) ==> d.source() == bytes@ && decoded_model(bytes@).codeless_methods_are_empty()
            && decoded_model(bytes@).constant_pool@.len() >= 1
            && decoded_model(bytes@).constant_pool@[0] == Constant::Unusable,
        read matches Err(r) ==> r.source() == bytes@,
{
    match ClassReader::new(bytes).to_class_node() {
        Ok(node) => Ok(DecodedClass { node, source: bytes.to_vec() }),
        Err(error) => Err(Refusal { error, source: bytes.to_vec() }),
    }
}

/// Names the kind of the decoder's error and keeps the decoder's description of it.
///
/// Trusted: one arm per `ClassReadError` variant, and its `Display` text; the result is
/// [`decoder_failure`] of the refused bytes.
#[verifier::external_body]
pub(crate) fn decode_error_of(refusal: &Refusal) -> (decoded: DecodeError)
    ensures
        decoded == decoder_failure(refusal.source()),
{
    let kind = match &refusal.error {
        ClassReadError::UnexpectedEof => DecodeErrorKind::UnexpectedEof,
        ClassReadError::InvalidMagic(found) => DecodeErrorKind::InvalidMagic(*found),
        ClassReadError::InvalidClassVersion(major) => DecodeErrorKind::InvalidClassVersion(*major),
        ClassReadError::InvalidConstantPoolTag(tag) => DecodeErrorKind::InvalidConstantPoolTag(*tag),
        ClassReadError::InvalidIndex(index) => DecodeErrorKind::InvalidIndex(*index),
        ClassReadError::InvalidAttribute(_) => DecodeErrorKind::InvalidAttribute,
        ClassReadError::InvalidOpcode { opcode, offset } => DecodeErrorKind::InvalidOpcode { opcode: *opcode, offset: *offset },
        ClassReadError::Utf8Error(_) => DecodeErrorKind::Utf8Error,
    };
    DecodeError { kind, message: refusal.error.to_string() }
}

/// Copies the top-level fields of a decoded class and counts its constants, fields and methods.
#[verifier::external_body]
pub(crate) fn class_head(class: &DecodedClass) -> (head: ClassHead)
    ensures
        head.access_flags == decoded_model(class.source()).access_flags,
        head.name == decoded_model(class.source()).name,
        head.super_name == decoded_model(class.source()).super_name,
        head.source_file == decoded_model(class.source()).source_file,
        head.interfaces@ == decoded_model(class.source()).interfaces@,
        head.constants == decoded_model(class.source()).constant_pool@.len(),
        head.fields == decoded_model(class.source()).fields@.len(),
        head.methods == decoded_model(class.source()).methods@.len(),
{
    let n = &class.node;
    ClassHead {
        access_flags: n.access_flags,
        name: n.name.clone(),
        super_name: n.super_name.clone(),
        source_file: n.source_file.clone(),
        interfaces: n.interfaces.clone(),
        constants: n.constant_pool.len(),
        fields: n.fields.len(),
        methods: n.methods.len(),
    }
}

/// Slot `i` when it holds a value; `None` for every other kind.
///
/// Trusted: one arm per listed `CpInfo` variant; floating-point values keep their bit patterns.
#[verifier::external_body]
pub(crate) fn value_constant_of(class: &DecodedClass, i: usize) -> (constant: Option<Constant>)
    requires
        i < decoded_model(class.source()).constant_pool@.len(),
    ensures
        match constant {
            Some(c) => c == decoded_model(class.source()).constant_pool@[i as int],
            None => !is_value_constant(decoded_model(class.source()).constant_pool@[i as int]),
        },
{
    match &class.node.constant_pool[i] {
        CpInfo::Unusable => Some(Constant::Unusable),
        CpInfo::Utf8(text) => Some(Constant::Utf8(text.clone())),
        CpInfo::Integer(value) => Some(Constant::Integer(*value)),
        CpInfo::Float(value) => Some(Constant::Float(value.to_bits())),
        CpInfo::Long(value) => Some(Constant::Long(*value)),
        CpInfo::Double(value) => Some(Constant::Double(value.to_bits())),
        _ => None,
    }
}

/// Slot `i` when it holds a single index; `None` for every other kind.
///
/// Trusted: one arm per listed `CpInfo` variant.
#[verifier::external_body]
pub(crate) fn indexed_constant_of(class: &DecodedClass, i: usize) -> (constant: Option<Constant>)
    requires
        i < decoded_model(class.source()).constant_pool@.len(),
    ensures
        match constant {
            Some(c) => c == decoded_model(class.source()).constant_pool@[i as int],
            None => !is_indexed_constant(decoded_model(class.source()).constant_pool@[i as int]),
        },
{
    match &class.node.constant_pool[i] {
        CpInfo::Class { name_index: n } => Some(Constant::Class { name_index: *n }),
        CpInfo::String { string_index: n } => Some(Constant::String { string_index: *n }),
        CpInfo::MethodType { descriptor_index: n } => Some(Constant::MethodType { descriptor_index: *n }),
        CpInfo::Module { name_index: n } => Some(Constant::Module { name_index: *n }),
        CpInfo::Package { name_index: n } => Some(Constant::Package { name_index: *n }),
        _ => None,
    }
}

/// Slot `i` when it is a member reference or a name-and-type; `None` for every other kind.
///
/// Trusted: one arm per listed `CpInfo` variant.
#[verifier::external_body]
pub(crate) fn member_constant_of(class: &DecodedClass, i: usize) -> (constant: Option<Constant>)
    requires
        i < decoded_model(class.source()).constant_pool@.len(),
    ensures
        match constant {
            Some(c) => c == decoded_model(class.source()).constant_pool@[i as int],
            None => !is_member_constant(decoded_model(class.source()).constant_pool@[i as int]),
        },
{
    match &class.node.constant_pool[i] {
        CpInfo::Fieldref { class_index: c, name_and_type_index: n } => Some(Constant::Fieldref { class_index: *c, name_and_type_index: *n }),
        CpInfo::Methodref { class_index: c, name_and_type_index: n } => Some(Constant::Methodref { class_index: *c, name_and_type_index: *n }),
        CpInfo::InterfaceMethodref { class_index: c, name_and_type_index: n } => Some(Constant::InterfaceMethodref { class_index: *c, name_and_type_index: *n }),
        CpInfo::NameAndType { name_index: n, descriptor_index: d } => Some(Constant::NameAndType { name_index: *n, descriptor_index: *d }),
        _ => None,
    }
}

/// Slot `i` when it is a method handle or dynamically computed; `None` for every other kind.
///
/// Trusted: one arm per listed `CpInfo` variant.
#[verifier::external_body]
pub(crate) fn dynamic_constant_of(class: &DecodedClass, i: usize) -> (constant: Option<Constant>)
    requires
        i < decoded_model(class.source()).constant_pool@.len(),
    ensures
        match constant {
            Some(c) => c == decoded_model(class.source()).constant_pool@[i as int],
            None => !is_dynamic_constant(decoded_model(class.source()).constant_pool@[i as int]),
        },
{
    match &class.node.constant_pool[i] {
        CpInfo::MethodHandle { reference_kind: k, reference_index: r } => Some(Constant::MethodHandle { reference_kind: *k, reference_index: *r }),
        CpInfo::Dynamic { bootstrap_method_attr_index: b, name_and_type_index: n } => Some(Constant::Dynamic { bootstrap_method_attr_index: *b, name_and_type_index: *n }),
        CpInfo::InvokeDynamic { bootstrap_method_attr_index: b, name_and_type_index: n } => Some(Constant::InvokeDynamic { bootstrap_method_attr_index: *b, name_and_type_index: *n }),
        _ => None,
    }
}

/// Field `i`: its flags, name and descriptor.
#[verifier::external_body]
pub(crate) fn field_at(class: &DecodedClass, i: usize) -> (field: Field)
    requires
        i < decoded_model(class.source()).fields@.len(),
    ensures
        field == decoded_model(class.source()).fields@[i as int],
{
    let f = &class.node.fields[i];
    Field { access_flags: f.access_flags, name: f.name.clone(), descriptor: f.descriptor.clone() }
}

/// The scalar parts of method `m`, its instruction offsets, and how many instructions,
/// exception-table entries and code attributes it has.
///
/// Trusted: the instructions are those of `InsnList::insns`.
#[verifier::external_body]
pub(crate) fn method_head(class: &DecodedClass, m: usize) -> (head: MethodHead)
    requires
        m < decoded_model(class.source()).methods@.len(),
    ensures
        head.access_flags == decoded_model(class.source()).methods@[m as int].access_flags,
        head.name == decoded_model(class.source()).methods@[m as int].name,
        head.descriptor == decoded_model(class.source()).methods@[m as int].descriptor,
        head.has_code == decoded_model(class.source()).methods@[m as int].has_code,
        head.max_stack == decoded_model(class.source()).methods@[m as int].max_stack,
        head.max_locals == decoded_model(class.source()).methods@[m as int].max_locals,
        head.instructions == decoded_model(class.source()).methods@[m as int].instructions@.len(),
        head.instruction_offsets@ == decoded_model(class.source()).methods@[m as int].instruction_offsets@,
        head.handlers == decoded_model(class.source()).methods@[m as int].exception_table@.len(),
        head.code_attributes == decoded_model(class.source()).methods@[m as int].code_attributes@.len(),
{
    let n = &class.node.methods[m];
    MethodHead {
        access_flags: n.access_flags,
        name: n.name.clone(),
        descriptor: n.descriptor.clone(),
        has_code: n.has_code,
        max_stack: n.max_stack,
        max_locals: n.max_locals,
        instructions: n.instructions.insns().len(),
        instruction_offsets: n.instruction_offsets.clone(),
        handlers: n.exception_table.len(),
        code_attributes: n.code_attributes.len(),
    }
}

/// Exception-table entry `j` of method `m`: its four offsets and indices.
#[verifier::external_body]
pub(crate) fn handler_at(class: &DecodedClass, m: usize, j: usize) -> (entry: ExceptionEntry)
    requires
        m < decoded_model(class.source()).methods@.len(),
        j < decoded_model(class.source()).methods@[m as int].exception_table@.len(),
    ensures
        entry == decoded_model(class.source()).methods@[m as int].exception_table@[j as int],
{
    let e = &class.node.methods[m].exception_table[j];
    ExceptionEntry { start_pc: e.start_pc, end_pc: e.end_pc, handler_pc: e.handler_pc, catch_type: e.catch_type }
}

/// Instruction `i` of method `m` when it has no operand or one numeric operand; `None` for
/// the other kinds.
///
/// Trusted: one arm per listed `Insn` variant.
#[verifier::external_body]
pub(crate) fn numeric_insn_of(class: &DecodedClass, m: usize, i: usize) -> (insn: Option<InsnData>)
    requires
        m < decoded_model(class.source()).methods@.len(),
        i < decoded_model(class.source()).methods@[m as int].instructions@.len(),
    ensures
        match insn {
            Some(x) => x == decoded_model(class.source()).methods@[m as int].instructions@[i as int],
            None => !is_numeric_insn(decoded_model(class.source()).methods@[m as int].instructions@[i as int]),
        },
{
    match &class.node.methods[m].instructions.insns()[i] {
        Insn::Simple(n) => Some(InsnData::Simple { opcode: n.opcode }),
        Insn::Int(n) => Some(InsnData::Int { opcode: n.insn.opcode, operand: n.operand }),
        Insn::Var(n) => Some(InsnData::Var { opcode: n.insn.opcode, var_index: n.var_index }),
        Insn::Type(n) => Some(InsnData::Type { opcode: n.insn.opcode, type_index: n.type_index }),
        Insn::Jump(n) => Some(InsnData::Jump { opcode: n.insn.opcode, offset: n.offset }),
        _ => None,
    }
}

/// Instruction `i` of method `m` when it is an increment, an interface or dynamic invocation,
/// or a multi-dimensional array; `None` for the other kinds.
///
/// Trusted: one arm per listed `Insn` variant; an `invokedynamic` keeps only its index.
#[verifier::external_body]
pub(crate) fn compound_insn_of(class: &DecodedClass, m: usize, i: usize) -> (insn: Option<InsnData>)
    requires
        m < decoded_model(class.source()).methods@.len(),
        i < decoded_model(class.source()).methods@[m as int].instructions@.len(),
    ensures
        match insn {
            Some(x) => x == decoded_model(class.source()).methods@[m as int].instructions@[i as int],
            None => !is_compound_insn(decoded_model(class.source()).methods@[m as int].instructions@[i as int]),
        },
{
    match &class.node.methods[m].instructions.insns()[i] {
        Insn::Iinc(n) => Some(InsnData::Iinc { opcode: n.insn.opcode, var_index: n.var_index, increment: n.increment }),
        Insn::InvokeInterface(n) => Some(InsnData::InvokeInterface { opcode: n.insn.opcode, method_index: n.method_index, count: n.count }),
        Insn::InvokeDynamic(n) => Some(InsnData::InvokeDynamic { opcode: n.insn.opcode, method_index: n.method_index }),
        Insn::MultiANewArray(n) => Some(InsnData::MultiANewArray { opcode: n.insn.opcode, type_index: n.type_index, dimensions: n.dimensions }),
        _ => None,
    }
}

/// Instruction `i` of method `m` when it is a table or lookup switch; `None` for the other
/// kinds.
///
/// Trusted: one arm per listed `Insn` variant.
#[verifier::external_body]
pub(crate) fn switch_insn_of(class: &DecodedClass, m: usize, i: usize) -> (insn: Option<InsnData>)
    requires
        m < decoded_model(class.source()).methods@.len(),
        i < decoded_model(class.source()).methods@[m as int].instructions@.len(),
    ensures
        match insn {
            Some(x) => x == decoded_model(class.source()).methods@[m as int].instructions@[i as int],
            None => !is_switch_insn(decoded_model(class.source()).methods@[m as int].instructions@[i as int]),
        },
{
    match &class.node.methods[m].instructions.insns()[i] {
        Insn::TableSwitch(n) => Some(InsnData::TableSwitch { opcode: n.insn.opcode, default_offset: n.default_offset, low: n.low, high: n.high, offsets: n.offsets.clone() }),
        Insn::LookupSwitch(n) => Some(InsnData::LookupSwitch { opcode: n.insn.opcode, default_offset: n.default_offset, pairs: n.pairs.clone() }),
        _ => None,
    }
}

/// Instruction `i` of method `m` when it is a field instruction; `None` for the other kinds.
///
/// Trusted: one arm for `Insn::Field`, and one per `MemberRef` variant.
#[verifier::external_body]
pub(crate) fn field_insn_of(class: &DecodedClass, m: usize, i: usize) -> (insn: Option<InsnData>)
    requires
        m < decoded_model(class.source()).methods@.len(),
        i < decoded_model(class.source()).methods@[m as int].instructions@.len(),
    ensures
        match insn {
            Some(x) => x == decoded_model(class.source()).methods@[m as int].instructions@[i as int],
            None => !(decoded_model(class.source()).methods@[m as int].instructions@[i as int] is Field),
        },
{
    match &class.node.methods[m].instructions.insns()[i] {
        Insn::Field(n) => Some(InsnData::Field { opcode: n.insn.opcode, field_ref: match &n.field_ref {
            MemberRef::Index(index) => MemberRefData::Index(*index),
            MemberRef::Symbolic { owner, name, descriptor } => MemberRefData::Symbolic { owner: owner.clone(), name: name.clone(), descriptor: descriptor.clone() },
        } }),
        _ => None,
    }
}

/// Instruction `i` of method `m` when it is a method instruction; `None` for the other kinds.
///
/// Trusted: one arm for `Insn::Method`, and one per `MemberRef` variant.
#[verifier::external_body]
pub(crate) fn method_insn_of(class: &DecodedClass, m: usize, i: usize) -> (insn: Option<InsnData>)
    requires
        m < decoded_model(class.source()).methods@.len(),
        i < decoded_model(class.source()).methods@[m as int].instructions@.len(),
    ensures
        match insn {
            Some(x) => x == decoded_model(class.source()).methods@[m as int].instructions@[i as int],
            None => !(decoded_model(class.source()).methods@[m as int].instructions@[i as int] is Method),
        },
{
    match &class.node.methods[m].instructions.insns()[i] {
        Insn::Method(n) => Some(InsnData::Method { opcode: n.insn.opcode, method_ref: match &n.method_ref {
            MemberRef::Index(index) => MemberRefData::Index(*index),
            MemberRef::Symbolic { owner, name, descriptor } => MemberRefData::Symbolic { owner: owner.clone(), name: name.clone(), descriptor: descriptor.clone() },
        } }),
        _ => None,
    }
}

/// Instruction `i` of method `m` when it is an `ldc`; `None` for the other kinds.
///
/// Trusted: one arm for `Insn::Ldc`, and one per `LdcValue` variant; a type keeps no
/// payload, floating-point values keep their bit patterns.
#[verifier::external_body]
pub(crate) fn ldc_insn_of(class: &DecodedClass, m: usize, i: usize) -> (insn: Option<InsnData>)
    requires
        m < decoded_model(class.source()).methods@.len(),
        i < decoded_model(class.source()).methods@[m as int].instructions@.len(),
    ensures
        match insn {
            Some(x) => x == decoded_model(class.source()).methods@[m as int].instructions@[i as int],
            None => !(decoded_model(class.source()).methods@[m as int].instructions@[i as int] is Ldc),
        },
{
    match &class.node.methods[m].instructions.insns()[i] {
        Insn::Ldc(n) => Some(InsnData::Ldc { opcode: n.insn.opcode, value: match &n.value {
            LdcValue::Index(index) => LdcData::Index(*index),
            LdcValue::String(text) => LdcData::String(text.clone()),
            LdcValue::Type(_) => LdcData::Type,
            LdcValue::Int(v) => LdcData::Int(*v),
            LdcValue::Float(v) => LdcData::Float(v.to_bits()),
            LdcValue::Long(v) => LdcData::Long(*v),
            LdcValue::Double(v) => LdcData::Double(v.to_bits()),
        } }),
        _ => None,
    }
}

/// Whether code attribute `k` of method `m` is a `StackMapTable`, and how many frames it
/// holds; `None` for every other attribute.
#[verifier::external_body]
pub(crate) fn code_attribute_frames(class: &DecodedClass, m: usize, k: usize) -> (frames: Option<usize>)
    requires
        m < decoded_model(class.source()).methods@.len(),
        k < decoded_model(class.source()).methods@[m as int].code_attributes@.len(),
    ensures
        match frames {
            Some(n) => decoded_model(class.source()).methods@[m as int].code_attributes@[k as int] is StackMapTable
                && frames_of(decoded_model(class.source()).methods@[m as int].code_attributes@[k as int]).len() == n,
            None => decoded_model(class.source()).methods@[m as int].code_attributes@[k as int] is Other,
        },
{
    match &class.node.methods[m].code_attributes[k] {
        AttributeInfo::StackMapTable { entries } => Some(entries.len()),
        _ => None,
    }
}

/// The shape of frame `f` of code attribute `k` of method `m`: its kind, offset delta and
/// chopped count, and how many locals and stack entries it lists.
///
/// Trusted: one arm per `StackMapFrame` variant.
#[verifier::external_body]
pub(crate) fn frame_shape_at(class: &DecodedClass, m: usize, k: usize, f: usize) -> (shape: Option<StackMapEntry<(), usize>>)
    requires
        m < decoded_model(class.source()).methods@.len(),
        k < decoded_model(class.source()).methods@[m as int].code_attributes@.len(),
        f < frames_of(decoded_model(class.source()).methods@[m as int].code_attributes@[k as int]).len(),
    ensures
        match shape {
            Some(x) => has_shape(x, frames_of(decoded_model(class.source()).methods@[m as int].code_attributes@[k as int])[f as int]),
            None => decoded_model(class.source()).methods@[m as int].code_attributes@[k as int] is Other,
        },
{
    match &class.node.methods[m].code_attributes[k] {
        AttributeInfo::StackMapTable { entries } => Some(match entries[f] {
            DecodedFrame::SameFrame { offset_delta } => StackMapEntry::SameFrame { offset_delta },
            DecodedFrame::SameLocals1StackItemFrame { offset_delta, .. } => StackMapEntry::SameLocals1StackItemFrame { offset_delta, stack: () },
            DecodedFrame::SameLocals1StackItemFrameExtended { offset_delta, .. } => StackMapEntry::SameLocals1StackItemFrameExtended { offset_delta, stack: () },
            DecodedFrame::ChopFrame { offset_delta, k } => StackMapEntry::ChopFrame { offset_delta, k },
            DecodedFrame::SameFrameExtended { offset_delta } => StackMapEntry::SameFrameExtended { offset_delta },
            DecodedFrame::AppendFrame { offset_delta, ref locals } => StackMapEntry::AppendFrame { offset_delta, locals: locals.len() },
            DecodedFrame::FullFrame { offset_delta, ref locals, ref stack } => StackMapEntry::FullFrame { offset_delta, locals: locals.len(), stack: stack.len() },
        }),
        _ => None,
    }
}

/// The single stack item of frame `f` of code attribute `k` of method `m`, for the two
/// same-locals-one-stack-item kinds; `None` for the others.
///
/// Trusted: one arm per listed `StackMapFrame` variant, one per `VerificationTypeInfo` variant.
#[verifier::external_body]
pub(crate) fn stack_item_at(class: &DecodedClass, m: usize, k: usize, f: usize) -> (item: Option<RawVerificationType>)
    requires
        m < decoded_model(class.source()).methods@.len(),
        k < decoded_model(class.source()).methods@[m as int].code_attributes@.len(),
        f < frames_of(decoded_model(class.source()).methods@[m as int].code_attributes@[k as int]).len(),
    ensures
        item == single_stack_item(frames_of(decoded_model(class.source()).methods@[m as int].code_attributes@[k as int])[f as int]),
{
    let value = match &class.node.methods[m].code_attributes[k] {
        AttributeInfo::StackMapTable { entries } => match &entries[f] {
            DecodedFrame::SameLocals1StackItemFrame { stack, .. } | DecodedFrame::SameLocals1StackItemFrameExtended { stack, .. } => stack,
            _ => return None,
        },
        _ => return None,
    };
    Some(match value {
        VerificationTypeInfo::Top => RawVerificationType::Top, VerificationTypeInfo::Integer => RawVerificationType::Integer, VerificationTypeInfo::Float => RawVerificationType::Float,
        VerificationTypeInfo::Long => RawVerificationType::Long, VerificationTypeInfo::Double => RawVerificationType::Double, VerificationTypeInfo::Null => RawVerificationType::Null,
        VerificationTypeInfo::UninitializedThis => RawVerificationType::UninitializedThis, VerificationTypeInfo::Object { cpool_index } => RawVerificationType::Object { cpool_index: *cpool_index },
        VerificationTypeInfo::Uninitialized { offset } => RawVerificationType::Uninitialized { offset: *offset },
    })
}

/// Local `t` listed by frame `f` of code attribute `k` of method `m`, for append and full
/// frames; `None` for the others.
///
/// Trusted: one arm per listed `StackMapFrame` variant, one per `VerificationTypeInfo` variant.
#[verifier::external_body]
pub(crate) fn local_item_at(class: &DecodedClass, m: usize, k: usize, f: usize, t: usize) -> (item: Option<RawVerificationType>)
    requires
        m < decoded_model(class.source()).methods@.len(),
        k < decoded_model(class.source()).methods@[m as int].code_attributes@.len(),
        f < frames_of(decoded_model(class.source()).methods@[m as int].code_attributes@[k as int]).len(),
        t < listed_locals(frames_of(decoded_model(class.source()).methods@[m as int].code_attributes@[k as int])[f as int]).len(),
    ensures
        item == Some(listed_locals(frames_of(decoded_model(class.source()).methods@[m as int].code_attributes@[k as int])[f as int])[t as int]),
{
    let value = match &class.node.methods[m].code_attributes[k] {
        AttributeInfo::StackMapTable { entries } => match &entries[f] {
            DecodedFrame::AppendFrame { locals, .. } | DecodedFrame::FullFrame { locals, .. } => &locals[t],
            _ => return None,
        },
        _ => return None,
    };
    Some(match value {
        VerificationTypeInfo::Top => RawVerificationType::Top, VerificationTypeInfo::Integer => RawVerificationType::Integer, VerificationTypeInfo::Float => RawVerificationType::Float,
        VerificationTypeInfo::Long => RawVerificationType::Long, VerificationTypeInfo::Double => RawVerificationType::Double, VerificationTypeInfo::Null => RawVerificationType::Null,
        VerificationTypeInfo::UninitializedThis => RawVerificationType::UninitializedThis, VerificationTypeInfo::Object { cpool_index } => RawVerificationType::Object { cpool_index: *cpool_index },
        VerificationTypeInfo::Uninitialized { offset } => RawVerificationType::Uninitialized { offset: *offset },
    })
}

/// Stack entry `t` listed by full frame `f` of code attribute `k` of method `m`; `None` for
/// the other kinds.
///
/// Trusted: one arm for `StackMapFrame::FullFrame`, one per `VerificationTypeInfo` variant.
#[verifier::external_body]
pub(crate) fn stack_entry_at(class: &DecodedClass, m: usize, k: usize, f: usize, t: usize) -> (item: Option<RawVerificationType>)
    requires
        m < decoded_model(class.source()).methods@.len(),
        k < decoded_model(class.source()).methods@[m as int].code_attributes@.len(),
        f < frames_of(decoded_model(class.source()).methods@[m as int].code_attributes@[k as int]).len(),
        t < listed_stack(frames_of(decoded_model(class.source()).methods@[m as int].code_attributes@[k as int])[f as int]).len(),
    ensures
        item == Some(listed_stack(frames_of(decoded_model(class.source()).methods@[m as int].code_attributes@[k as int])[f as int])[t as int]),
{
    let value = match &class.node.methods[m].code_attributes[k] {
        AttributeInfo::StackMapTable { entries } => match &entries[f] {
            DecodedFrame::FullFrame { stack, .. } => &stack[t],
            _ => return None,
        },
        _ => return None,
    };
    Some(match value {
        VerificationTypeInfo::Top => RawVerificationType::Top, VerificationTypeInfo::Integer => RawVerificationType::Integer, VerificationTypeInfo::Float => RawVerificationType::Float,
        VerificationTypeInfo::Long => RawVerificationType::Long, VerificationTypeInfo::Double => RawVerificationType::Double, VerificationTypeInfo::Null => RawVerificationType::Null,
        VerificationTypeInfo::UninitializedThis => RawVerificationType::UninitializedThis, VerificationTypeInfo::Object { cpool_index } => RawVerificationType::Object { cpool_index: *cpool_index },
        VerificationTypeInfo::Uninitialized { offset } => RawVerificationType::Uninitialized { offset: *offset },
    })
}

} // verus!
