//! Turning class-file bytes into the library's [`Class`] model with the decoder.

use vstd::prelude::*;


use crate::error::{DecodeError, FerroBabeError};
use crate::guard::decodes_in_range;
use crate::input::{be_u16, ClassHeader, MAX_CLASS_MAJOR_VERSION};
use crate::model::{
    Class, CodeAttribute, Constant, ExceptionEntry, Field, FrameData, InsnData, MethodInfo,
    RawVerificationType, StackMapEntry,
};
use crate::reader::{
    class_head, code_attribute_frames, compound_insn_of, decode_error_of, dynamic_constant_of,
    field_at, field_insn_of, frame_shape_at, handler_at, indexed_constant_of, ldc_insn_of,
    local_item_at, member_constant_of, method_head, method_insn_of, numeric_insn_of, read_class,
    stack_entry_at, stack_item_at, switch_insn_of, value_constant_of, DecodedClass,
};

verus! {

/// Whether the decoder accepts `bytes` as a class file: the outcome of
/// `ClassReader::new(bytes).to_class_node()`, which depends on `bytes` alone.
pub uninterp spec fn decoder_accepts(bytes: Seq<u8>) -> bool;

/// The class the decoder gives for `bytes`, in the library's model: what
/// `ClassReader::new(bytes).to_class_node()` returns, each part converted one for one. It
/// depends on `bytes` alone.
pub uninterp spec fn decoded_model(bytes: Seq<u8>) -> Class;

/// The failure the decoder reports for `bytes`, in the library's model: the kind and the
/// text of the error `to_class_node` returns. It depends on `bytes` alone.
pub uninterp spec fn decoder_failure(bytes: Seq<u8>) -> DecodeError;

/// Constant-pool slots that hold a value.
pub open spec fn is_value_constant(c: Constant) -> bool {
    c is Unusable || c is Utf8 || c is Integer || c is Float || c is Long || c is Double
}

/// Constant-pool slots that hold a single index.
pub open spec fn is_indexed_constant(c: Constant) -> bool {
    c is Class || c is String || c is MethodType || c is Module || c is Package
}

/// Member references and name-and-type slots.
pub open spec fn is_member_constant(c: Constant) -> bool {
    c is Fieldref || c is Methodref || c is InterfaceMethodref || c is NameAndType
}

/// Method handles and dynamically computed slots.
pub open spec fn is_dynamic_constant(c: Constant) -> bool {
    c is MethodHandle || c is Dynamic || c is InvokeDynamic
}

/// Instructions with no operand or one numeric operand.
pub open spec fn is_numeric_insn(x: InsnData) -> bool {
    x is Simple || x is Int || x is Var || x is Type || x is Jump
}

/// Increments, interface and dynamic invocations, and multi-dimensional arrays.
pub open spec fn is_compound_insn(x: InsnData) -> bool {
    x is Iinc || x is InvokeInterface || x is InvokeDynamic || x is MultiANewArray
}

/// Table and lookup switches.
pub open spec fn is_switch_insn(x: InsnData) -> bool {
    x is TableSwitch || x is LookupSwitch
}

/// The frames of a code attribute: those of a stack map table, none for any other.
pub open spec fn frames_of(attribute: CodeAttribute) -> Seq<FrameData> {
    match attribute {
        CodeAttribute::StackMapTable(frames) => frames@,
        CodeAttribute::Other => seq![],
    }
}

/// The single stack item of a frame of one of the two same-locals-one-stack-item kinds.
pub open spec fn single_stack_item(frame: FrameData) -> Option<RawVerificationType> {
    match frame {
        StackMapEntry::SameLocals1StackItemFrame { stack, .. } => Some(stack),
        StackMapEntry::SameLocals1StackItemFrameExtended { stack, .. } => Some(stack),
        _ => None,
    }
}

/// The locals a frame lists: those of an append or full frame, none for the others.
pub open spec fn listed_locals(frame: FrameData) -> Seq<RawVerificationType> {
    match frame {
        StackMapEntry::AppendFrame { locals, .. } => locals@,
        StackMapEntry::FullFrame { locals, .. } => locals@,
        _ => seq![],
    }
}

/// The stack entries a frame lists: those of a full frame, none for the others.
pub open spec fn listed_stack(frame: FrameData) -> Seq<RawVerificationType> {
    match frame {
        StackMapEntry::FullFrame { stack, .. } => stack@,
        _ => seq![],
    }
}

/// `shape` has the kind, offset delta and chopped count of `frame`, and says how many locals
/// and stack entries it lists.
pub open spec fn has_shape(shape: StackMapEntry<(), usize>, frame: FrameData) -> bool {
    &&& shape.spec_offset_delta() == frame.spec_offset_delta()
    &&& match shape {
        StackMapEntry::SameFrame { .. } => frame is SameFrame,
        StackMapEntry::SameLocals1StackItemFrame { .. } => frame is SameLocals1StackItemFrame,
        StackMapEntry::SameLocals1StackItemFrameExtended { .. } => frame is SameLocals1StackItemFrameExtended,
        StackMapEntry::ChopFrame { k, .. } => frame matches StackMapEntry::ChopFrame { k: chopped, .. } && chopped == k,
        StackMapEntry::SameFrameExtended { .. } => frame is SameFrameExtended,
        StackMapEntry::AppendFrame { locals, .. } => frame is AppendFrame && listed_locals(frame).len() == locals,
        StackMapEntry::FullFrame { locals, stack, .. } => frame is FullFrame && listed_locals(frame).len() == locals
            && listed_stack(frame).len() == stack,
    }
}

/// `mine` holds the decoded frame `decoded`: the same kind, offset delta and chopped count,
/// and the same verification types.
pub open spec fn holds_frame(mine: FrameData, decoded: FrameData) -> bool {
    &&& mine.spec_offset_delta() == decoded.spec_offset_delta()
    &&& single_stack_item(mine) == single_stack_item(decoded)
    &&& listed_locals(mine) == listed_locals(decoded)
    &&& listed_stack(mine) == listed_stack(decoded)
    &&& match decoded {
        StackMapEntry::SameFrame { .. } => mine is SameFrame,
        StackMapEntry::SameLocals1StackItemFrame { .. } => mine is SameLocals1StackItemFrame,
        StackMapEntry::SameLocals1StackItemFrameExtended { .. } => mine is SameLocals1StackItemFrameExtended,
        StackMapEntry::ChopFrame { k, .. } => mine matches StackMapEntry::ChopFrame { k: chopped, .. } && chopped == k,
        StackMapEntry::SameFrameExtended { .. } => mine is SameFrameExtended,
        StackMapEntry::AppendFrame { .. } => mine is AppendFrame,
        StackMapEntry::FullFrame { .. } => mine is FullFrame,
    }
}

/// `mine` holds the decoded code attribute `decoded`: both are stack map tables whose frames
/// each hold the decoded one, or neither is.
pub open spec fn holds_code_attribute(mine: CodeAttribute, decoded: CodeAttribute) -> bool {
    &&& (mine is StackMapTable <==> decoded is StackMapTable)
    &&& frames_of(mine).len() == frames_of(decoded).len()
    &&& forall|i: int|
        0 <= i < frames_of(mine).len() ==> holds_frame(#[trigger] frames_of(mine)[i], frames_of(decoded)[i])
}

/// `mine` holds the decoded method `decoded`: the same scalar parts, names, instructions,
/// instruction offsets and exception table, and each code attribute held as
/// [`holds_code_attribute`] says.
pub open spec fn holds_method(mine: MethodInfo, decoded: MethodInfo) -> bool {
    &&& mine.access_flags == decoded.access_flags
    &&& mine.name == decoded.name
    &&& mine.descriptor == decoded.descriptor
    &&& mine.has_code == decoded.has_code
    &&& mine.max_stack == decoded.max_stack
    &&& mine.max_locals == decoded.max_locals
    &&& mine.instructions@ == decoded.instructions@
    &&& mine.instruction_offsets@ == decoded.instruction_offsets@
    &&& mine.exception_table@ == decoded.exception_table@
    &&& mine.code_attributes@.len() == decoded.code_attributes@.len()
    &&& forall|k: int|
        0 <= k < mine.code_attributes@.len() ==> holds_code_attribute(
            #[trigger] mine.code_attributes@[k],
            decoded.code_attributes@[k],
        )
}

/// `class` holds the decoded class `decoded`, with the versions of `header`: the same flags,
/// names, interfaces, fields and constant pool, and each method held as [`holds_method`] says.
pub open spec fn holds_model(class: Class, decoded: Class, header: ClassHeader) -> bool {
    &&& class.minor_version == header.minor_version
    &&& class.major_version == header.major_version
    &&& class.access_flags == decoded.access_flags
    &&& class.name == decoded.name
    &&& class.super_name == decoded.super_name
    &&& class.source_file == decoded.source_file
    &&& class.interfaces@ == decoded.interfaces@
    &&& class.fields@ == decoded.fields@
    &&& class.constant_pool@ == decoded.constant_pool@
    &&& class.methods@.len() == decoded.methods@.len()
    &&& forall|i: int|
        0 <= i < class.methods@.len() ==> holds_method(
            #[trigger] class.methods@[i],
            decoded.methods@[i],
        )
}

/// The highest major version the decoder accepts.
pub const RUST_ASM_MAX_CLASS_MAJOR_VERSION: u16 = 69;

/// The bytes handed to the decoder: unchanged below the highest supported major version;
/// otherwise with the major version rewritten to the decoder's highest, big-endian.
pub open spec fn adjusted_for_reader(bytes: Seq<u8>, header: ClassHeader) -> Seq<u8> {
    if header.major_version < MAX_CLASS_MAJOR_VERSION {
        bytes
    } else {
        bytes.update(6, (RUST_ASM_MAX_CLASS_MAJOR_VERSION / 256) as u8).update(
            7,
            (RUST_ASM_MAX_CLASS_MAJOR_VERSION % 256) as u8,
        )
    }
}

/// The decoder is handed an input of the same length that differs from `bytes` at most
/// in the two major-version bytes, and not at all below the highest supported major version;
/// where it was rewritten, the major version it reads is the decoder's highest.
pub proof fn law_adjustment_only_rewrites_major(bytes: Seq<u8>, header: ClassHeader, i: int)
    requires
        bytes.len() >= 8,
    ensures
        adjusted_for_reader(bytes, header).len() == bytes.len(),
        0 <= i < bytes.len() && i != 6 && i != 7 ==> adjusted_for_reader(bytes, header)[i]
            == bytes[i],
        header.major_version < MAX_CLASS_MAJOR_VERSION ==> adjusted_for_reader(bytes, header)
            == bytes,
        header.major_version >= MAX_CLASS_MAJOR_VERSION ==> be_u16(
            adjusted_for_reader(bytes, header),
            6,
        ) == RUST_ASM_MAX_CLASS_MAJOR_VERSION,
{
}

/// Copies `bytes`, rewriting a major version the decoder does not know to one it does.
pub fn adjust_version_for_rust_asm(bytes: &[u8], header: ClassHeader) -> (adjusted: Vec<u8>)
    requires
        bytes@.len() >= 8,
    ensures
        adjusted@ == adjusted_for_reader(bytes@, header),
{
    let mut adjusted = vstd::slice::slice_to_vec(bytes);
    if header.major_version < MAX_CLASS_MAJOR_VERSION {
        return adjusted;
    }
    adjusted.set(6, (RUST_ASM_MAX_CLASS_MAJOR_VERSION / 256) as u8);
    adjusted.set(7, (RUST_ASM_MAX_CLASS_MAJOR_VERSION % 256) as u8);
    adjusted
}


/// Slot `i` of the decoded constant pool.
fn constant_from(class: &DecodedClass, i: usize) -> (constant: Constant)
    requires
        i < decoded_model(class.source()).constant_pool@.len(),
    ensures
        constant == decoded_model(class.source()).constant_pool@[i as int],
{
    if let Some(constant) = value_constant_of(class, i) {
        return constant;
    }
    if let Some(constant) = indexed_constant_of(class, i) {
        return constant;
    }
    if let Some(constant) = member_constant_of(class, i) {
        return constant;
    }
    match dynamic_constant_of(class, i) {
        Some(constant) => constant,
        None => {
            proof {
                let c = decoded_model(class.source()).constant_pool@[i as int];
                assert(is_value_constant(c) || is_indexed_constant(c) || is_member_constant(c)
                    || is_dynamic_constant(c));
            }
            Constant::Unusable
        },
    }
}

/// Instruction `i` of decoded method `m`.
fn instruction_from(class: &DecodedClass, m: usize, i: usize) -> (instruction: InsnData)
    requires
        m < decoded_model(class.source()).methods@.len(),
        i < decoded_model(class.source()).methods@[m as int].instructions@.len(),
    ensures
        instruction == decoded_model(class.source()).methods@[m as int].instructions@[i as int],
{
    if let Some(data) = numeric_insn_of(class, m, i) {
        return data;
    }
    if let Some(data) = compound_insn_of(class, m, i) {
        return data;
    }
    if let Some(data) = switch_insn_of(class, m, i) {
        return data;
    }
    if let Some(data) = field_insn_of(class, m, i) {
        return data;
    }
    if let Some(data) = method_insn_of(class, m, i) {
        return data;
    }
    match ldc_insn_of(class, m, i) {
        Some(data) => data,
        None => {
            proof {
                let x = decoded_model(class.source()).methods@[m as int].instructions@[i as int];
                assert(is_numeric_insn(x) || is_compound_insn(x) || is_switch_insn(x) || x is Field
                    || x is Method || x is Ldc);
            }
            InsnData::Simple { opcode: 0 }
        },
    }
}

/// The single stack item of decoded frame `f` of code attribute `k` of method `m`.
fn stack_item_from(class: &DecodedClass, m: usize, k: usize, f: usize) -> (item: RawVerificationType)
    requires
        m < decoded_model(class.source()).methods@.len(),
        k < decoded_model(class.source()).methods@[m as int].code_attributes@.len(),
        f < frames_of(decoded_model(class.source()).methods@[m as int].code_attributes@[k as int]).len(),
        single_stack_item(frames_of(decoded_model(class.source()).methods@[m as int].code_attributes@[k as int])[f as int]) is Some,
    ensures
        single_stack_item(frames_of(decoded_model(class.source()).methods@[m as int].code_attributes@[k as int])[f as int]) == Some(item),
{
    match stack_item_at(class, m, k, f) {
        Some(item) => item,
        None => {
            proof {
                assert(false);
            }
            RawVerificationType::Top
        },
    }
}

/// The locals listed by decoded frame `f` of code attribute `k` of method `m`, of which
/// there are `count`.
fn locals_from(class: &DecodedClass, m: usize, k: usize, f: usize, count: usize) -> (items: Vec<RawVerificationType>)
    requires
        m < decoded_model(class.source()).methods@.len(),
        k < decoded_model(class.source()).methods@[m as int].code_attributes@.len(),
        f < frames_of(decoded_model(class.source()).methods@[m as int].code_attributes@[k as int]).len(),
        count == listed_locals(frames_of(decoded_model(class.source()).methods@[m as int].code_attributes@[k as int])[f as int]).len(),
    ensures
        items@ == listed_locals(frames_of(decoded_model(class.source()).methods@[m as int].code_attributes@[k as int])[f as int]),
{
    let ghost listed = listed_locals(frames_of(decoded_model(class.source()).methods@[m as int].code_attributes@[k as int])[f as int]);
    let mut items: Vec<RawVerificationType> = Vec::new();
    let mut t: usize = 0;
    while t < count
        invariant
            m < decoded_model(class.source()).methods@.len(),
            k < decoded_model(class.source()).methods@[m as int].code_attributes@.len(),
            f < frames_of(decoded_model(class.source()).methods@[m as int].code_attributes@[k as int]).len(),
            listed == listed_locals(frames_of(decoded_model(class.source()).methods@[m as int].code_attributes@[k as int])[f as int]),
            count == listed.len(),
            t <= count,
            items@ == listed.subrange(0, t as int),
        decreases count - t,
    {
        let item = match local_item_at(class, m, k, f, t) {
            Some(item) => item,
            None => {
                proof {
                    assert(false);
                }
                RawVerificationType::Top
            },
        };
        items.push(item);
        assert(items@ =~= listed.subrange(0, t + 1));
        t = t + 1;
    }
    assert(items@ =~= listed);
    items
}

/// The stack entries listed by decoded frame `f` of code attribute `k` of method `m`, of
/// which there are `count`.
fn stack_from(class: &DecodedClass, m: usize, k: usize, f: usize, count: usize) -> (items: Vec<RawVerificationType>)
    requires
        m < decoded_model(class.source()).methods@.len(),
        k < decoded_model(class.source()).methods@[m as int].code_attributes@.len(),
        f < frames_of(decoded_model(class.source()).methods@[m as int].code_attributes@[k as int]).len(),
        count == listed_stack(frames_of(decoded_model(class.source()).methods@[m as int].code_attributes@[k as int])[f as int]).len(),
    ensures
        items@ == listed_stack(frames_of(decoded_model(class.source()).methods@[m as int].code_attributes@[k as int])[f as int]),
{
    let ghost listed = listed_stack(frames_of(decoded_model(class.source()).methods@[m as int].code_attributes@[k as int])[f as int]);
    let mut items: Vec<RawVerificationType> = Vec::new();
    let mut t: usize = 0;
    while t < count
        invariant
            m < decoded_model(class.source()).methods@.len(),
            k < decoded_model(class.source()).methods@[m as int].code_attributes@.len(),
            f < frames_of(decoded_model(class.source()).methods@[m as int].code_attributes@[k as int]).len(),
            listed == listed_stack(frames_of(decoded_model(class.source()).methods@[m as int].code_attributes@[k as int])[f as int]),
            count == listed.len(),
            t <= count,
            items@ == listed.subrange(0, t as int),
        decreases count - t,
    {
        let item = match stack_entry_at(class, m, k, f, t) {
            Some(item) => item,
            None => {
                proof {
                    assert(false);
                }
                RawVerificationType::Top
            },
        };
        items.push(item);
        assert(items@ =~= listed.subrange(0, t + 1));
        t = t + 1;
    }
    assert(items@ =~= listed);
    items
}

/// Decoded frame `f` of code attribute `k` of method `m`, in the library's model.
fn frame_from(class: &DecodedClass, m: usize, k: usize, f: usize) -> (data: FrameData)
    requires
        m < decoded_model(class.source()).methods@.len(),
        k < decoded_model(class.source()).methods@[m as int].code_attributes@.len(),
        f < frames_of(decoded_model(class.source()).methods@[m as int].code_attributes@[k as int]).len(),
    ensures
        holds_frame(data, frames_of(decoded_model(class.source()).methods@[m as int].code_attributes@[k as int])[f as int]),
{
    match frame_shape_at(class, m, k, f) {
        Some(StackMapEntry::SameFrame { offset_delta }) => StackMapEntry::SameFrame { offset_delta },
        Some(StackMapEntry::SameLocals1StackItemFrame { offset_delta, .. }) => {
            StackMapEntry::SameLocals1StackItemFrame { offset_delta, stack: stack_item_from(class, m, k, f) }
        },
        Some(StackMapEntry::SameLocals1StackItemFrameExtended { offset_delta, .. }) => {
            StackMapEntry::SameLocals1StackItemFrameExtended {
                offset_delta,
                stack: stack_item_from(class, m, k, f),
            }
        },
        Some(StackMapEntry::ChopFrame { offset_delta, k: chopped }) => StackMapEntry::ChopFrame {
            offset_delta,
            k: chopped,
        },
        Some(StackMapEntry::SameFrameExtended { offset_delta }) => StackMapEntry::SameFrameExtended {
            offset_delta,
        },
        Some(StackMapEntry::AppendFrame { offset_delta, locals }) => StackMapEntry::AppendFrame {
            offset_delta,
            locals: locals_from(class, m, k, f, locals),
        },
        Some(StackMapEntry::FullFrame { offset_delta, locals, stack }) => StackMapEntry::FullFrame {
            offset_delta,
            locals: locals_from(class, m, k, f, locals),
            stack: stack_from(class, m, k, f, stack),
        },
        None => {
            proof {
                assert(false);
            }
            StackMapEntry::SameFrame { offset_delta: 0 }
        },
    }
}

/// Decoded code attribute `k` of method `m`, in the library's model: a stack map table with
/// each of its frames, or any other attribute.
fn code_attribute_from(class: &DecodedClass, m: usize, k: usize) -> (data: CodeAttribute)
    requires
        m < decoded_model(class.source()).methods@.len(),
        k < decoded_model(class.source()).methods@[m as int].code_attributes@.len(),
    ensures
        holds_code_attribute(data, decoded_model(class.source()).methods@[m as int].code_attributes@[k as int]),
{
    let ghost decoded = decoded_model(class.source()).methods@[m as int].code_attributes@[k as int];
    match code_attribute_frames(class, m, k) {
        None => CodeAttribute::Other,
        Some(count) => {
            let mut entries: Vec<FrameData> = Vec::new();
            let mut f: usize = 0;
            while f < count
                invariant
                    m < decoded_model(class.source()).methods@.len(),
                    k < decoded_model(class.source()).methods@[m as int].code_attributes@.len(),
                    decoded == decoded_model(class.source()).methods@[m as int].code_attributes@[k as int],
                    count == frames_of(decoded).len(),
                    f <= count,
                    entries@.len() == f,
                    forall|i: int| 0 <= i < f ==> holds_frame(#[trigger] entries@[i], frames_of(decoded)[i]),
                decreases count - f,
            {
                entries.push(frame_from(class, m, k, f));
                f = f + 1;
            }
            CodeAttribute::StackMapTable(entries)
        },
    }
}

/// Decoded method `m`: its scalar parts, names and instruction offsets as they are, and its
/// instructions, handlers and code attributes converted one for one.
fn method_from(class: &DecodedClass, m: usize) -> (info: MethodInfo)
    requires
        m < decoded_model(class.source()).methods@.len(),
    ensures
        holds_method(info, decoded_model(class.source()).methods@[m as int]),
{
    let head = method_head(class, m);
    let ghost decoded = decoded_model(class.source()).methods@[m as int];
    let mut instructions: Vec<InsnData> = Vec::new();
    let mut i: usize = 0;
    while i < head.instructions
        invariant
            decoded == decoded_model(class.source()).methods@[m as int],
            m < decoded_model(class.source()).methods@.len(),
            head.instructions == decoded.instructions@.len(),
            i <= head.instructions,
            instructions@.len() == i,
            forall|j: int| 0 <= j < i ==> #[trigger] instructions@[j] == decoded.instructions@[j],
        decreases head.instructions - i,
    {
        instructions.push(instruction_from(class, m, i));
        i = i + 1;
    }
    assert(instructions@ =~= decoded.instructions@);
    let mut exception_table: Vec<ExceptionEntry> = Vec::new();
    let mut j: usize = 0;
    while j < head.handlers
        invariant
            decoded == decoded_model(class.source()).methods@[m as int],
            m < decoded_model(class.source()).methods@.len(),
            head.handlers == decoded.exception_table@.len(),
            j <= head.handlers,
            exception_table@.len() == j,
            forall|k: int| 0 <= k < j ==> #[trigger] exception_table@[k] == decoded.exception_table@[k],
        decreases head.handlers - j,
    {
        exception_table.push(handler_at(class, m, j));
        j = j + 1;
    }
    assert(exception_table@ =~= decoded.exception_table@);
    let mut code_attributes: Vec<CodeAttribute> = Vec::new();
    let mut k: usize = 0;
    while k < head.code_attributes
        invariant
            decoded == decoded_model(class.source()).methods@[m as int],
            m < decoded_model(class.source()).methods@.len(),
            head.code_attributes == decoded.code_attributes@.len(),
            k <= head.code_attributes,
            code_attributes@.len() == k,
            forall|j: int|
                0 <= j < k ==> holds_code_attribute(
                    #[trigger] code_attributes@[j],
                    decoded.code_attributes@[j],
                ),
        decreases head.code_attributes - k,
    {
        code_attributes.push(code_attribute_from(class, m, k));
        k = k + 1;
    }
    MethodInfo {
        access_flags: head.access_flags,
        name: head.name,
        descriptor: head.descriptor,
        has_code: head.has_code,
        max_stack: head.max_stack,
        max_locals: head.max_locals,
        instructions,
        instruction_offsets: head.instruction_offsets,
        exception_table,
        code_attributes,
    }
}

/// The library's model of a decoded class, with the versions read from the header.
fn class_from(class: &DecodedClass, header: ClassHeader) -> (model: Class)
    ensures
        holds_model(model, decoded_model(class.source()), header),
{
    let head = class_head(class);
    let ghost decoded = decoded_model(class.source());
    let mut constant_pool: Vec<Constant> = Vec::new();
    let mut i: usize = 0;
    while i < head.constants
        invariant
            decoded == decoded_model(class.source()),
            head.constants == decoded.constant_pool@.len(),
            i <= head.constants,
            constant_pool@.len() == i,
            forall|j: int| 0 <= j < i ==> #[trigger] constant_pool@[j] == decoded.constant_pool@[j],
        decreases head.constants - i,
    {
        constant_pool.push(constant_from(class, i));
        i = i + 1;
    }
    assert(constant_pool@ =~= decoded.constant_pool@);
    let mut fields: Vec<Field> = Vec::new();
    let mut j: usize = 0;
    while j < head.fields
        invariant
            decoded == decoded_model(class.source()),
            head.fields == decoded.fields@.len(),
            j <= head.fields,
            fields@.len() == j,
            forall|k: int| 0 <= k < j ==> #[trigger] fields@[k] == decoded.fields@[k],
        decreases head.fields - j,
    {
        fields.push(field_at(class, j));
        j = j + 1;
    }
    assert(fields@ =~= decoded.fields@);
    let mut methods: Vec<MethodInfo> = Vec::new();
    let mut k: usize = 0;
    while k < head.methods
        invariant
            decoded == decoded_model(class.source()),
            head.methods == decoded.methods@.len(),
            k <= head.methods,
            methods@.len() == k,
            forall|m: int| 0 <= m < k ==> holds_method(#[trigger] methods@[m], decoded.methods@[m]),
        decreases head.methods - k,
    {
        methods.push(method_from(class, k));
        k = k + 1;
    }
    Class {
        minor_version: header.minor_version,
        major_version: header.major_version,
        access_flags: head.access_flags,
        name: head.name,
        super_name: head.super_name,
        source_file: head.source_file,
        interfaces: head.interfaces,
        fields,
        methods,
        constant_pool,
    }
}

/// A class that holds a decoded class whose methods without code are empty has such
/// methods too.
proof fn lemma_held_methods_are_codeless(class: Class, decoded: Class, header: ClassHeader)
    requires
        holds_model(class, decoded, header),
        decoded.codeless_methods_are_empty(),
    ensures
        class.codeless_methods_are_empty(),
{
    assert forall|i: int| 0 <= i < class.methods@.len() implies #[trigger] class.methods@[i].codeless_is_empty() by {
        assert(holds_method(class.methods@[i], decoded.methods@[i]));
        assert(decoded.methods@[i].codeless_is_empty());
    }
}

/// Decodes the class file `bytes`, whose header has been read as `header`.
///
/// The decoder is handed [`adjusted_for_reader`] of `bytes`. The result is the decoded class
/// exactly when the decoder accepts those bytes, and otherwise the decoder's failure. The model
/// carries the versions from `header`, also where the decoder was handed a rewritten major
/// version.
pub fn decode_class(bytes: &[u8], header: ClassHeader) -> (class: Result<Class, FerroBabeError>)
    requires
        bytes@.len() >= 8,
        decodes_in_range(bytes@),
    ensures
        class is Ok == decoder_accepts(adjusted_for_reader(bytes@, header)),
        class matches Ok(c) ==> {
            &&& holds_model(c, decoded_model(adjusted_for_reader(bytes@, header)), header)
            &&& c.codeless_methods_are_empty()
            &&& c.constant_pool@.len() >= 1
            &&& c.constant_pool@[0] == Constant::Unusable
        },
        class matches Err(e) ==> e == (FerroBabeError::Decode {
            source: decoder_failure(adjusted_for_reader(bytes@, header)),
        }),
{
    let adjusted = adjust_version_for_rust_asm(bytes, header);
    assert(adjusted@.subrange(8, adjusted@.len() as int) =~= bytes@.subrange(8, bytes@.len() as int));
    match read_class(adjusted.as_slice()) {
        Ok(decoded) => {
            let class = class_from(&decoded, header);
            proof {
                lemma_held_methods_are_codeless(class, decoded_model(adjusted@), header);
            }
            Ok(class)
        },
        Err(refusal) => Err(FerroBabeError::Decode { source: decode_error_of(&refusal) }),
    }
}

} // verus!
