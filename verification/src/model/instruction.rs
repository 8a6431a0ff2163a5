use vstd::prelude::*;

use super::ConstantPoolIndex;

verus! {

/// An offset into a method's bytecode.
#[derive(Debug, Clone, Copy, PartialEq, Eq, Hash, Structural)]
pub struct ByteOffset(u16);

impl View for ByteOffset {
    type V = u16;

    closed spec fn view(&self) -> u16 {
        self.0
    }
}

impl ByteOffset {
    /// Wraps a raw bytecode offset.
    pub fn new(offset: u16) -> (result: Self)
        ensures
            result@ == offset,
    {
        ByteOffset(offset)
    }

    /// Returns the raw offset.
    #[must_use]
    pub fn get(self) -> (offset: u16)
        ensures
            offset == self@,
    {
        self.0
    }
}

/// A member named by an instruction: a constant-pool index or an owner, name and descriptor.
#[derive(Debug, Clone, PartialEq, Eq)]
pub enum MemberRefData {
    Index(u16),
    Symbolic { owner: String, name: String, descriptor: String },
}

/// The value loaded by an `ldc` instruction.
///
/// Floating-point values are kept as their IEEE 754 bit patterns.
#[derive(Debug, Clone, PartialEq, Eq)]
pub enum LdcData {
    Index(u16),
    String(String),
    Type,
    Int(i32),
    Float(u32),
    Long(i64),
    Double(u64),
}

/// One decoded bytecode instruction.
#[derive(Debug, Clone, PartialEq, Eq)]
pub enum InsnData {
    Simple { opcode: u8 },
    Int { opcode: u8, operand: i32 },
    Var { opcode: u8, var_index: u16 },
    Type { opcode: u8, type_index: u16 },
    Field { opcode: u8, field_ref: MemberRefData },
    Method { opcode: u8, method_ref: MemberRefData },
    InvokeInterface { opcode: u8, method_index: u16, count: u8 },
    InvokeDynamic { opcode: u8, method_index: u16 },
    Jump { opcode: u8, offset: i32 },
    Ldc { opcode: u8, value: LdcData },
    Iinc { opcode: u8, var_index: u16, increment: i16 },
    TableSwitch { opcode: u8, default_offset: i32, low: i32, high: i32, offsets: Vec<i32> },
    LookupSwitch { opcode: u8, default_offset: i32, pairs: Vec<(i32, i32)> },
    MultiANewArray { opcode: u8, type_index: u16, dimensions: u8 },
}

impl InsnData {
    /// The opcode byte of this instruction.
    pub open spec fn spec_opcode(self) -> u8 {
        match self {
            InsnData::Simple { opcode } => opcode,
            InsnData::Int { opcode, .. } => opcode,
            InsnData::Var { opcode, .. } => opcode,
            InsnData::Type { opcode, .. } => opcode,
            InsnData::Field { opcode, .. } => opcode,
            InsnData::Method { opcode, .. } => opcode,
            InsnData::InvokeInterface { opcode, .. } => opcode,
            InsnData::InvokeDynamic { opcode, .. } => opcode,
            InsnData::Jump { opcode, .. } => opcode,
            InsnData::Ldc { opcode, .. } => opcode,
            InsnData::Iinc { opcode, .. } => opcode,
            InsnData::TableSwitch { opcode, .. } => opcode,
            InsnData::LookupSwitch { opcode, .. } => opcode,
            InsnData::MultiANewArray { opcode, .. } => opcode,
        }
    }
}

/// The absolute target of a branch at `base` with displacement `relative`, wrapped to 32 bits.
pub open spec fn branch_target(base: u16, relative: i32) -> i32 {
    if base + relative > i32::MAX {
        (base + relative - 0x1_0000_0000) as i32
    } else {
        (base + relative) as i32
    }
}

/// A branch target is the plain sum of offset and displacement whenever that sum is a 32-bit
/// value.
pub proof fn law_branch_target_is_sum_in_range(base: u16, relative: i32)
    requires
        base + relative <= i32::MAX,
    ensures
        branch_target(base, relative) == base + relative,
{
}

/// Adds a bytecode offset and a displacement, wrapping to 32 bits.
pub fn add_displacement(base: u16, relative: i32) -> (target: i32)
    ensures
        target == branch_target(base, relative),
{
    let sum: i64 = base as i64 + relative as i64;
    if sum > i32::MAX as i64 {
        (sum - 0x1_0000_0000i64) as i32
    } else {
        sum as i32
    }
}

/// One instruction of a method, with its offset in the method's bytecode.
#[derive(Debug, Clone, Copy)]
pub struct Instruction<'a> {
    offset: ByteOffset,
    instruction: &'a InsnData,
}

impl<'a> Instruction<'a> {
    pub closed spec fn spec_offset(self) -> u16 {
        self.offset@
    }

    pub closed spec fn spec_insn(self) -> InsnData {
        *self.instruction
    }

    /// An instruction placed at `offset`.
    pub fn new(offset: u16, instruction: &'a InsnData) -> (result: Self)
        ensures
            result.spec_offset() == offset,
            result.spec_insn() == *instruction,
    {
        Instruction { offset: ByteOffset::new(offset), instruction }
    }

    /// Returns the instruction's offset in the method's bytecode.
    #[must_use]
    pub fn offset(&self) -> (offset: ByteOffset)
        ensures
            offset@ == self.spec_offset(),
    {
        self.offset
    }

    /// Returns the opcode byte.
    #[must_use]
    pub fn opcode(&self) -> (opcode: u8)
        ensures
            opcode == self.spec_insn().spec_opcode(),
    {
        opcode_of(self.instruction)
    }

    /// The operand of this instruction; branch and switch targets are resolved against its offset.
    #[must_use]
    pub fn operand(&self) -> (operand: InstructionOperand<'a>)
        ensures
            operand.describes(self.spec_insn(), self.spec_offset()),
    {
        let offset = self.offset.get();
        match self.instruction {
            InsnData::Simple { .. } => InstructionOperand::NoOperand,
            InsnData::Int { operand, .. } => InstructionOperand::Immediate(*operand),
            InsnData::Var { var_index, .. } => InstructionOperand::Local(*var_index),
            InsnData::Type { type_index, .. } => InstructionOperand::ConstantPool(
                ConstantPoolIndex::new(*type_index),
            ),
            InsnData::Field { field_ref, .. } => InstructionOperand::Member(
                MemberReference::from(field_ref),
            ),
            InsnData::Method { method_ref, .. } => InstructionOperand::Member(
                MemberReference::from(method_ref),
            ),
            InsnData::InvokeInterface { method_index, count, .. } => InstructionOperand::InvokeInterface {
                method: ConstantPoolIndex::new(*method_index),
                count: *count,
            },
            InsnData::InvokeDynamic { method_index, .. } => InstructionOperand::InvokeDynamic {
                call_site: ConstantPoolIndex::new(*method_index),
            },
            InsnData::Jump { offset: relative, .. } => InstructionOperand::Branch {
                relative: *relative,
                target: add_displacement(offset, *relative),
            },
            InsnData::Ldc { value, .. } => InstructionOperand::Ldc(LdcValueRef::from(value)),
            InsnData::Iinc { var_index, increment, .. } => InstructionOperand::Increment {
                local: *var_index,
                amount: *increment,
            },
            InsnData::TableSwitch { default_offset, low, high, offsets, .. } => InstructionOperand::TableSwitch {
                default: SwitchTarget::new(*default_offset, add_displacement(offset, *default_offset)),
                low: *low,
                high: *high,
                targets: offsets.as_slice(),
                base_offset: self.offset,
            },
            InsnData::LookupSwitch { default_offset, pairs, .. } => InstructionOperand::LookupSwitch {
                default: SwitchTarget::new(*default_offset, add_displacement(offset, *default_offset)),
                pairs: pairs.as_slice(),
                base_offset: self.offset,
            },
            InsnData::MultiANewArray { type_index, dimensions, .. } => InstructionOperand::MultiArray {
                class: ConstantPoolIndex::new(*type_index),
                dimensions: *dimensions,
            },
        }
    }
}

/// The operand of an instruction, resolved for inspection.
#[derive(Debug, Clone, Copy)]
pub enum InstructionOperand<'a> {
    NoOperand,
    Immediate(i32),
    Local(u16),
    ConstantPool(ConstantPoolIndex),
    Member(MemberReference<'a>),
    InvokeInterface { method: ConstantPoolIndex, count: u8 },
    InvokeDynamic { call_site: ConstantPoolIndex },
    Branch { relative: i32, target: i32 },
    Ldc(LdcValueRef<'a>),
    Increment { local: u16, amount: i16 },
    TableSwitch {
        default: SwitchTarget,
        low: i32,
        high: i32,
        targets: &'a [i32],
        base_offset: ByteOffset,
    },
    LookupSwitch { default: SwitchTarget, pairs: &'a [(i32, i32)], base_offset: ByteOffset },
    MultiArray { class: ConstantPoolIndex, dimensions: u8 },
}

impl<'a> InstructionOperand<'a> {
    /// This operand is the one of `insn` placed at bytecode offset `offset`.
    pub open spec fn describes(self, insn: InsnData, offset: u16) -> bool {
        match insn {
            InsnData::Simple { .. } => self is NoOperand,
            InsnData::Int { operand, .. } => self == InstructionOperand::Immediate(operand),
            InsnData::Var { var_index, .. } => self == InstructionOperand::Local(var_index),
            InsnData::Type { type_index, .. } => self matches InstructionOperand::ConstantPool(i)
                && i@ == type_index,
            InsnData::Field { field_ref, .. } => self matches InstructionOperand::Member(m)
                && m.shows(field_ref),
            InsnData::Method { method_ref, .. } => self matches InstructionOperand::Member(m)
                && m.shows(method_ref),
            InsnData::InvokeInterface { method_index, count, .. } => self matches InstructionOperand::InvokeInterface { method, count: c }
                && method@ == method_index && c == count,
            InsnData::InvokeDynamic { method_index, .. } => self matches InstructionOperand::InvokeDynamic { call_site }
                && call_site@ == method_index,
            InsnData::Jump { offset: relative, .. } => self == InstructionOperand::Branch {
                relative,
                target: branch_target(offset, relative),
            },
            InsnData::Ldc { value, .. } => self matches InstructionOperand::Ldc(v) && v.shows(
                value,
            ),
            InsnData::Iinc { var_index, increment, .. } => self == InstructionOperand::Increment {
                local: var_index,
                amount: increment,
            },
            InsnData::TableSwitch { default_offset, low, high, offsets, .. } => self matches InstructionOperand::TableSwitch {
                default,
                low: l,
                high: h,
                targets,
                base_offset,
            } && default@ == (default_offset, branch_target(offset, default_offset)) && l == low
                && h == high && targets@ == offsets@ && base_offset@ == offset,
            InsnData::LookupSwitch { default_offset, pairs, .. } => self matches InstructionOperand::LookupSwitch {
                default,
                pairs: p,
                base_offset,
            } && default@ == (default_offset, branch_target(offset, default_offset)) && p@
                == pairs@ && base_offset@ == offset,
            InsnData::MultiANewArray { type_index, dimensions, .. } => self matches InstructionOperand::MultiArray { class, dimensions: d }
                && class@ == type_index && d == dimensions,
        }
    }
}

/// A borrowed view of the member an instruction names.
#[derive(Debug, Clone, Copy)]
pub enum MemberReference<'a> {
    ConstantPool(ConstantPoolIndex),
    Symbolic { owner: &'a str, name: &'a str, descriptor: &'a str },
}

impl<'a> MemberReference<'a> {
    /// This view shows the stored member reference `m`.
    pub open spec fn shows(self, m: MemberRefData) -> bool {
        match m {
            MemberRefData::Index(index) => self matches MemberReference::ConstantPool(i) && i@
                == index,
            MemberRefData::Symbolic { owner, name, descriptor } => self matches MemberReference::Symbolic { owner: o, name: n, descriptor: d }
                && o@ == owner@ && n@ == name@ && d@ == descriptor@,
        }
    }

    /// Views a stored member reference.
    pub fn from(value: &'a MemberRefData) -> (view: Self)
        ensures
            view.shows(*value),
    {
        match value {
            MemberRefData::Index(index) => MemberReference::ConstantPool(ConstantPoolIndex::new(*index)),
            MemberRefData::Symbolic { owner, name, descriptor } => MemberReference::Symbolic {
                owner: owner.as_str(),
                name: name.as_str(),
                descriptor: descriptor.as_str(),
            },
        }
    }
}

/// A borrowed view of the value an `ldc` instruction loads.
///
/// `Float` and `Double` carry IEEE 754 bit patterns.
#[derive(Debug, Clone, Copy)]
pub enum LdcValueRef<'a> {
    ConstantPool(ConstantPoolIndex),
    String(&'a str),
    TypeDescriptor,
    Integer(i32),
    Float(u32),
    Long(i64),
    Double(u64),
}

impl<'a> LdcValueRef<'a> {
    /// This view shows the stored `ldc` value `v`.
    pub open spec fn shows(self, v: LdcData) -> bool {
        match v {
            LdcData::Index(index) => self matches LdcValueRef::ConstantPool(i) && i@ == index,
            LdcData::String(s) => self matches LdcValueRef::String(t) && t@ == s@,
            LdcData::Type => self is TypeDescriptor,
            LdcData::Int(x) => self == LdcValueRef::Integer(x),
            LdcData::Float(x) => self == LdcValueRef::Float(x),
            LdcData::Long(x) => self == LdcValueRef::Long(x),
            LdcData::Double(x) => self == LdcValueRef::Double(x),
        }
    }

    /// Views a stored `ldc` value.
    pub fn from(value: &'a LdcData) -> (view: Self)
        ensures
            view.shows(*value),
    {
        match value {
            LdcData::Index(index) => LdcValueRef::ConstantPool(ConstantPoolIndex::new(*index)),
            LdcData::String(value) => LdcValueRef::String(value.as_str()),
            LdcData::Type => LdcValueRef::TypeDescriptor,
            LdcData::Int(value) => LdcValueRef::Integer(*value),
            LdcData::Float(value) => LdcValueRef::Float(*value),
            LdcData::Long(value) => LdcValueRef::Long(*value),
            LdcData::Double(value) => LdcValueRef::Double(*value),
        }
    }
}

/// A switch target: its displacement and the absolute offset it reaches.
#[derive(Debug, Clone, Copy, PartialEq, Eq, Structural)]
pub struct SwitchTarget {
    relative: i32,
    target: i32,
}

impl View for SwitchTarget {
    /// The displacement, then the absolute target.
    type V = (i32, i32);

    closed spec fn view(&self) -> (i32, i32) {
        (self.relative, self.target)
    }
}

impl SwitchTarget {
    fn new(relative: i32, target: i32) -> (result: Self)
        ensures
            result@ == (relative, target),
    {
        SwitchTarget { relative, target }
    }

    /// Returns the displacement from the switch instruction.
    #[must_use]
    pub fn relative(self) -> (relative: i32)
        ensures
            relative == self@.0,
    {
        self.relative
    }

    /// Returns the absolute target offset.
    #[must_use]
    pub fn target(self) -> (target: i32)
        ensures
            target == self@.1,
    {
        self.target
    }
}

/// The opcode byte of a decoded instruction.
pub fn opcode_of(instruction: &InsnData) -> (opcode: u8)
    ensures
        opcode == instruction.spec_opcode(),
{
    match instruction {
        InsnData::Simple { opcode } => *opcode,
        InsnData::Int { opcode, .. } => *opcode,
        InsnData::Var { opcode, .. } => *opcode,
        InsnData::Type { opcode, .. } => *opcode,
        InsnData::Field { opcode, .. } => *opcode,
        InsnData::Method { opcode, .. } => *opcode,
        InsnData::InvokeInterface { opcode, .. } => *opcode,
        InsnData::InvokeDynamic { opcode, .. } => *opcode,
        InsnData::Jump { opcode, .. } => *opcode,
        InsnData::Ldc { opcode, .. } => *opcode,
        InsnData::Iinc { opcode, .. } => *opcode,
        InsnData::TableSwitch { opcode, .. } => *opcode,
        InsnData::LookupSwitch { opcode, .. } => *opcode,
        InsnData::MultiANewArray { opcode, .. } => *opcode,
    }
}

/// The default target of a switch keeps the displacement the class file stores, and its
/// target is the instruction's offset plus that displacement, wrapped to 32 bits; table and
/// lookup switches alike.
pub proof fn law_switch_default_keeps_displacement<'a>(
    operand: InstructionOperand<'a>,
    insn: InsnData,
    offset: u16,
)
    requires
        operand.describes(insn, offset),
    ensures
        insn matches InsnData::TableSwitch { default_offset, .. } ==> (
        operand matches InstructionOperand::TableSwitch { default, .. } && default@.0
            == default_offset && default@.1 == if offset + default_offset <= i32::MAX {
            offset + default_offset
        } else {
            offset + default_offset - 0x1_0000_0000
        }),
        insn matches InsnData::LookupSwitch { default_offset, .. } ==> (
        operand matches InstructionOperand::LookupSwitch { default, .. } && default@.0
            == default_offset && default@.1 == if offset + default_offset <= i32::MAX {
            offset + default_offset
        } else {
            offset + default_offset - 0x1_0000_0000
        }),
{
}

/// A jump's operand keeps the displacement the class file stores, and its target is the
/// instruction's offset plus that displacement, wrapped to 32 bits; a switch's operand keeps
/// its bounds, its stored displacements or key-displacement pairs, and the offset they are
/// relative to.
pub proof fn law_branch_operands_keep_their_displacements<'a>(
    operand: InstructionOperand<'a>,
    insn: InsnData,
    offset: u16,
)
    requires
        operand.describes(insn, offset),
    ensures
        insn matches InsnData::Jump { offset: relative, .. } ==> (operand matches InstructionOperand::Branch { relative: r, target }
            && r == relative && target == if offset + relative <= i32::MAX {
            offset + relative
        } else {
            offset + relative - 0x1_0000_0000
        }),
        insn matches InsnData::TableSwitch { low, high, offsets, .. } ==> (
        operand matches InstructionOperand::TableSwitch { low: l, high: h, targets, base_offset, .. }
            && l == low && h == high && targets@ == offsets@ && base_offset@ == offset),
        insn matches InsnData::LookupSwitch { pairs, .. } ==> (
        operand matches InstructionOperand::LookupSwitch { pairs: p, base_offset, .. } && p@
            == pairs@ && base_offset@ == offset),
{
}

} // verus!
