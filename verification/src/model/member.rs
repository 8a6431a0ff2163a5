use vstd::prelude::*;

use super::constant::{class_name, class_name_at, str_view, Constant};
use super::instruction::{ByteOffset, InsnData, Instruction};
use super::stack_map::{FrameData, StackMapFrame};

verus! {

/// A field declaration.
#[derive(Debug, Clone, PartialEq, Eq)]
pub struct Field {
    pub access_flags: u16,
    pub name: String,
    pub descriptor: String,
}

impl Field {
    /// Returns the raw field access-flag bitset.
    #[must_use]
    pub fn access_flags(&self) -> (flags: u16)
        ensures
            flags == self.access_flags,
    {
        self.access_flags
    }

    /// Returns the field name exactly as stored in the class file.
    #[must_use]
    pub fn name(&self) -> (name: &str)
        ensures
            name@ == self.name@,
    {
        self.name.as_str()
    }

    /// Returns the JVM field descriptor.
    #[must_use]
    pub fn descriptor(&self) -> (descriptor: &str)
        ensures
            descriptor@ == self.descriptor@,
    {
        self.descriptor.as_str()
    }
}

/// One raw entry of a method's exception table.
#[derive(Debug, Clone, Copy, PartialEq, Eq, Structural)]
pub struct ExceptionEntry {
    pub start_pc: u16,
    pub end_pc: u16,
    pub handler_pc: u16,
    pub catch_type: u16,
}

/// An attribute of a `Code` attribute, as far as this library reads it.
#[derive(Debug, Clone, PartialEq, Eq)]
pub enum CodeAttribute {
    StackMapTable(Vec<FrameData>),
    Other,
}

/// A method declaration and its code, as decoded.
#[derive(Debug, Clone, PartialEq, Eq)]
pub struct MethodInfo {
    pub access_flags: u16,
    pub name: String,
    pub descriptor: String,
    pub has_code: bool,
    pub max_stack: u16,
    pub max_locals: u16,
    pub instructions: Vec<InsnData>,
    pub instruction_offsets: Vec<u16>,
    pub exception_table: Vec<ExceptionEntry>,
    pub code_attributes: Vec<CodeAttribute>,
}

impl MethodInfo {
    /// A method without code has zero limits and no instructions, offsets, handlers or code
    /// attributes, as the decoder produces it.
    pub open spec fn codeless_is_empty(self) -> bool {
        !self.has_code ==> {
            &&& self.max_stack == 0
            &&& self.max_locals == 0
            &&& self.instructions@.len() == 0
            &&& self.instruction_offsets@.len() == 0
            &&& self.exception_table@.len() == 0
            &&& self.code_attributes@.len() == 0
        }
    }
}

/// The frames of the first `StackMapTable` among `attributes[from..]`.
pub open spec fn stack_map_table_from(attributes: Seq<CodeAttribute>, from: int) -> Option<
    Seq<FrameData>,
>
    decreases attributes.len() - from,
{
    if from < 0 || from >= attributes.len() {
        None
    } else {
        match attributes[from] {
            CodeAttribute::StackMapTable(frames) => Some(frames@),
            CodeAttribute::Other => stack_map_table_from(attributes, from + 1),
        }
    }
}

/// A borrowed view of a method declaration and its optional code.
#[derive(Debug, Clone, Copy)]
pub struct Method<'a> {
    inner: &'a MethodInfo,
    constant_pool: &'a [Constant],
}

impl<'a> Method<'a> {
    /// A method without code has zero limits and no instructions or handlers.
    #[verifier::type_invariant]
    spec fn codeless_stays_empty(self) -> bool {
        self.inner.codeless_is_empty()
    }

    pub closed spec fn spec_info(self) -> MethodInfo {
        *self.inner
    }

    pub closed spec fn spec_pool(self) -> Seq<Constant> {
        self.constant_pool@
    }

    /// A view of `inner` that resolves class names in `constant_pool`.
    pub(crate) fn new(inner: &'a MethodInfo, constant_pool: &'a [Constant]) -> (method: Self)
        requires
            inner.codeless_is_empty(),
        ensures
            method.spec_info() == *inner,
            method.spec_pool() == constant_pool@,
    {
        Method { inner, constant_pool }
    }

    /// Returns the raw method access-flag bitset.
    #[must_use]
    pub fn access_flags(&self) -> (flags: u16)
        ensures
            flags == self.spec_info().access_flags,
    {
        self.inner.access_flags
    }

    /// Returns the method name exactly as stored in the class file.
    #[must_use]
    pub fn name(&self) -> (name: &'a str)
        ensures
            name@ == self.spec_info().name@,
    {
        self.inner.name.as_str()
    }

    /// Returns the JVM method descriptor.
    #[must_use]
    pub fn descriptor(&self) -> (descriptor: &'a str)
        ensures
            descriptor@ == self.spec_info().descriptor@,
    {
        self.inner.descriptor.as_str()
    }

    /// Returns whether this method has a `Code` attribute.
    #[must_use]
    pub fn has_code(&self) -> (has_code: bool)
        ensures
            has_code == self.spec_info().has_code,
    {
        self.inner.has_code
    }

    /// Returns the `Code` attribute's declared maximum operand-stack depth.
    ///
    /// Returns zero for methods without code.
    #[must_use]
    pub fn max_stack(&self) -> (max_stack: u16)
        ensures
            max_stack == self.spec_info().max_stack,
            !self.spec_info().has_code ==> max_stack == 0,
    {
        proof {
            use_type_invariant(self);
        }
        self.inner.max_stack
    }

    /// Returns the `Code` attribute's declared maximum local-variable count.
    ///
    /// Returns zero for methods without code.
    #[must_use]
    pub fn max_locals(&self) -> (max_locals: u16)
        ensures
            max_locals == self.spec_info().max_locals,
            !self.spec_info().has_code ==> max_locals == 0,
    {
        proof {
            use_type_invariant(self);
        }
        self.inner.max_locals
    }

    /// The bytecode instructions in class-file order when code is present.
    ///
    /// Returns `None` for methods without a `Code` attribute. Each instruction is paired with
    /// the offset recorded for it; extra instructions or offsets beyond the shorter list are
    /// left out.
    pub fn instructions(&self) -> (instructions: Option<Vec<Instruction<'a>>>)
        ensures
            instructions is Some <==> self.spec_info().has_code,
            instructions matches Some(list) ==> {
                let info = self.spec_info();
                &&& list@.len() == if info.instructions@.len() <= info.instruction_offsets@.len() {
                    info.instructions@.len()
                } else {
                    info.instruction_offsets@.len()
                }
                &&& forall|i: int|
                    0 <= i < list@.len() ==> (#[trigger] list@[i]).spec_offset()
                        == info.instruction_offsets@[i] && list@[i].spec_insn()
                        == info.instructions@[i]
            },
    {
        if !self.inner.has_code {
            return None;
        }
        let insns = &self.inner.instructions;
        let offsets = &self.inner.instruction_offsets;
        let mut list: Vec<Instruction<'a>> = Vec::new();
        let mut i: usize = 0;
        while i < insns.len() && i < offsets.len()
            invariant
                insns == &self.inner.instructions,
                offsets == &self.inner.instruction_offsets,
                i <= insns@.len(),
                i <= offsets@.len(),
                list@.len() == i,
                forall|j: int|
                    0 <= j < i ==> (#[trigger] list@[j]).spec_offset() == offsets@[j]
                        && list@[j].spec_insn() == insns@[j],
            decreases insns@.len() - i,
        {
            list.push(Instruction::new(offsets[i], &insns[i]));
            i = i + 1;
        }
        Some(list)
    }

    /// The exception-table entries in class-file order; none for methods without code.
    pub fn exception_handlers(&self) -> (handlers: Vec<ExceptionHandler<'a>>)
        ensures
            handlers@.len() == self.spec_info().exception_table@.len(),
            !self.spec_info().has_code ==> handlers@.len() == 0,
            forall|i: int|
                0 <= i < handlers@.len() ==> (#[trigger] handlers@[i]).describes(
                    self.spec_info().exception_table@[i],
                    self.spec_pool(),
                ),
    {
        proof {
            use_type_invariant(self);
        }
        let table = &self.inner.exception_table;
        let mut handlers: Vec<ExceptionHandler<'a>> = Vec::new();
        let mut i: usize = 0;
        while i < table.len()
            invariant
                table == &self.inner.exception_table,
                i <= table@.len(),
                handlers@.len() == i,
                forall|j: int|
                    0 <= j < i ==> (#[trigger] handlers@[j]).describes(
                        table@[j],
                        self.constant_pool@,
                    ),
            decreases table@.len() - i,
        {
            handlers.push(ExceptionHandler::new(&table[i], self.constant_pool));
            i = i + 1;
        }
        handlers
    }

    /// The frames of the method's first `StackMapTable` attribute, if it has one.
    ///
    /// The class-file format stores frames as deltas from preceding frames. The
    /// returned views preserve that encoding and resolve object verification
    /// types against the method's constant pool.
    pub fn stack_map_frames(&self) -> (frames: Option<Vec<StackMapFrame<'a>>>)
        ensures
            !self.spec_info().has_code ==> frames is None,
            match stack_map_table_from(self.spec_info().code_attributes@, 0) {
                Some(table) => frames matches Some(list) && list@.len() == table.len() && forall|
                    i: int,
                |
                    0 <= i < list@.len() ==> (#[trigger] list@[i]).spec_frame() == table[i]
                        && list@[i].spec_pool() == self.spec_pool(),
                None => frames is None,
            },
    {
        proof {
            use_type_invariant(self);
        }
        let attributes = &self.inner.code_attributes;
        let mut k: usize = 0;
        while k < attributes.len()
            invariant
                attributes == &self.inner.code_attributes,
                self.inner.codeless_is_empty(),
                k <= attributes@.len(),
                stack_map_table_from(attributes@, 0) == stack_map_table_from(attributes@, k as int),
            decreases attributes@.len() - k,
        {
            match &attributes[k] {
                CodeAttribute::StackMapTable(entries) => {
                    let mut list: Vec<StackMapFrame<'a>> = Vec::new();
                    let mut i: usize = 0;
                    while i < entries.len()
                        invariant
                            i <= entries@.len(),
                            list@.len() == i,
                            forall|j: int|
                                0 <= j < i ==> (#[trigger] list@[j]).spec_frame() == entries@[j]
                                    && list@[j].spec_pool() == self.constant_pool@,
                        decreases entries@.len() - i,
                    {
                        list.push(StackMapFrame::new(&entries[i], self.constant_pool));
                        i = i + 1;
                    }
                    return Some(list);
                },
                CodeAttribute::Other => {},
            }
            k = k + 1;
        }
        None
    }
}

/// One protected bytecode range and its exception handler.
#[derive(Debug, Clone, Copy)]
pub struct ExceptionHandler<'a> {
    start: ByteOffset,
    end: ByteOffset,
    handler: ByteOffset,
    catch_type: Option<&'a str>,
}

impl<'a> ExceptionHandler<'a> {
    pub closed spec fn spec_start(self) -> u16 {
        self.start@
    }

    pub closed spec fn spec_end(self) -> u16 {
        self.end@
    }

    pub closed spec fn spec_handler(self) -> u16 {
        self.handler@
    }

    pub closed spec fn spec_catch_type(self) -> Option<Seq<char>> {
        str_view(self.catch_type)
    }

    /// This handler is `entry` with its caught class resolved in `pool`; index zero catches all.
    pub open spec fn describes(self, entry: ExceptionEntry, pool: Seq<Constant>) -> bool {
        &&& self.spec_start() == entry.start_pc
        &&& self.spec_end() == entry.end_pc
        &&& self.spec_handler() == entry.handler_pc
        &&& self.spec_catch_type() == if entry.catch_type == 0 {
            None
        } else {
            class_name_at(pool, entry.catch_type as int)
        }
    }

    fn new(entry: &ExceptionEntry, constant_pool: &'a [Constant]) -> (handler: Self)
        ensures
            handler.describes(*entry, constant_pool@),
    {
        let catch_type = if entry.catch_type != 0 {
            class_name(constant_pool, entry.catch_type)
        } else {
            None
        };
        ExceptionHandler {
            start: ByteOffset::new(entry.start_pc),
            end: ByteOffset::new(entry.end_pc),
            handler: ByteOffset::new(entry.handler_pc),
            catch_type,
        }
    }

    /// Returns the inclusive start offset of the protected range.
    #[must_use]
    pub fn start(&self) -> (start: ByteOffset)
        ensures
            start@ == self.spec_start(),
    {
        self.start
    }

    /// Returns the exclusive end offset of the protected range.
    #[must_use]
    pub fn end(&self) -> (end: ByteOffset)
        ensures
            end@ == self.spec_end(),
    {
        self.end
    }

    /// Returns the bytecode offset where the handler begins.
    #[must_use]
    pub fn handler(&self) -> (handler: ByteOffset)
        ensures
            handler@ == self.spec_handler(),
    {
        self.handler
    }

    /// Returns the caught exception's internal class name.
    ///
    /// Returns `None` for a catch-all handler or when the referenced class could not be resolved.
    #[must_use]
    pub fn catch_type(&self) -> (catch_type: Option<&'a str>)
        ensures
            str_view(catch_type) == self.spec_catch_type(),
    {
        self.catch_type
    }
}

} // verus!
