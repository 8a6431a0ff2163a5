//! The data decoded from a Java class file, and borrowed views over it.
//!
//! A [`Class`] owns everything that was decoded. Views returned from a class or a method borrow
//! from it and are valid only while the class is alive.

pub mod class;
pub mod constant;
pub mod instruction;
pub mod member;
pub mod stack_map;

pub use class::{Class, ClassVersion, Disassembly};
pub use constant::{Constant, ConstantPoolIndex, ConstantRef};
pub use instruction::{
    ByteOffset, InsnData, Instruction, InstructionOperand, LdcData, LdcValueRef, MemberRefData,
    MemberReference, SwitchTarget,
};
pub use member::{CodeAttribute, ExceptionEntry, ExceptionHandler, Field, Method, MethodInfo};
pub use stack_map::{
    FrameData, RawVerificationType, StackMapEntry, StackMapFrame, StackMapFrameKind,
    VerificationType, VerificationTypes,
};
