use vstd::prelude::*;

use super::constant::{class_name, class_name_at, str_view, Constant, ConstantPoolIndex};

verus! {

/// A verification type as a `StackMapTable` frame stores it.
#[derive(Debug, Clone, Copy, PartialEq, Eq, Structural)]
pub enum RawVerificationType {
    Top,
    Integer,
    Float,
    Long,
    Double,
    Null,
    UninitializedThis,
    Object { cpool_index: u16 },
    Uninitialized { offset: u16 },
}

/// One `StackMapTable` frame as the class file encodes it, generic over how a single
/// verification type (`T`) and a list of them (`L`) are held.
#[derive(Debug, Clone, PartialEq, Eq)]
#[allow(inconsistent_fields)]
pub enum StackMapEntry<T, L> {
    SameFrame { offset_delta: u16 },
    SameLocals1StackItemFrame { offset_delta: u16, stack: T },
    SameLocals1StackItemFrameExtended { offset_delta: u16, stack: T },
    ChopFrame { offset_delta: u16, k: u8 },
    SameFrameExtended { offset_delta: u16 },
    AppendFrame { offset_delta: u16, locals: L },
    FullFrame { offset_delta: u16, locals: L, stack: L },
}

/// A stored `StackMapTable` frame.
pub type FrameData = StackMapEntry<RawVerificationType, Vec<RawVerificationType>>;

impl<T, L> StackMapEntry<T, L> {
    /// The offset delta that every frame encoding carries.
    pub open spec fn spec_offset_delta(self) -> u16 {
        match self {
            StackMapEntry::SameFrame { offset_delta } => offset_delta,
            StackMapEntry::SameLocals1StackItemFrame { offset_delta, .. } => offset_delta,
            StackMapEntry::SameLocals1StackItemFrameExtended { offset_delta, .. } => offset_delta,
            StackMapEntry::ChopFrame { offset_delta, .. } => offset_delta,
            StackMapEntry::SameFrameExtended { offset_delta } => offset_delta,
            StackMapEntry::AppendFrame { offset_delta, .. } => offset_delta,
            StackMapEntry::FullFrame { offset_delta, .. } => offset_delta,
        }
    }
}

/// A borrowed view of one `StackMapTable` frame.
///
/// Frame offsets are encoded as deltas by the class-file format. Use
/// [`Self::offset_delta`] together with preceding frames to recover an absolute
/// bytecode offset.
#[derive(Debug, Clone, Copy)]
pub struct StackMapFrame<'a> {
    inner: &'a FrameData,
    constant_pool: &'a [Constant],
}

impl<'a> StackMapFrame<'a> {
    pub closed spec fn spec_frame(self) -> FrameData {
        *self.inner
    }

    pub closed spec fn spec_pool(self) -> Seq<Constant> {
        self.constant_pool@
    }

    /// A view of `inner` that resolves object types in `constant_pool`.
    pub fn new(inner: &'a FrameData, constant_pool: &'a [Constant]) -> (frame: Self)
        ensures
            frame.spec_frame() == *inner,
            frame.spec_pool() == constant_pool@,
    {
        StackMapFrame { inner, constant_pool }
    }

    /// Returns this frame's encoded offset delta.
    #[must_use]
    pub fn offset_delta(&self) -> (delta: u16)
        ensures
            delta == self.spec_frame().spec_offset_delta(),
    {
        match self.inner {
            StackMapEntry::SameFrame { offset_delta } => *offset_delta,
            StackMapEntry::SameLocals1StackItemFrame { offset_delta, .. } => *offset_delta,
            StackMapEntry::SameLocals1StackItemFrameExtended { offset_delta, .. } => *offset_delta,
            StackMapEntry::ChopFrame { offset_delta, .. } => *offset_delta,
            StackMapEntry::SameFrameExtended { offset_delta } => *offset_delta,
            StackMapEntry::AppendFrame { offset_delta, .. } => *offset_delta,
            StackMapEntry::FullFrame { offset_delta, .. } => *offset_delta,
        }
    }

    /// Returns the frame encoding kind.
    #[must_use]
    pub fn kind(&self) -> (kind: StackMapFrameKind)
        ensures
            kind == kind_of(self.spec_frame()),
    {
        match self.inner {
            StackMapEntry::SameFrame { .. } => StackMapFrameKind::Same,
            StackMapEntry::SameLocals1StackItemFrame { .. } => StackMapFrameKind::SameLocalsOneStackItem,
            StackMapEntry::SameLocals1StackItemFrameExtended { .. } => StackMapFrameKind::SameLocalsOneStackItem,
            StackMapEntry::ChopFrame { k, .. } => StackMapFrameKind::Chop { count: *k },
            StackMapEntry::SameFrameExtended { .. } => StackMapFrameKind::SameExtended,
            StackMapEntry::AppendFrame { .. } => StackMapFrameKind::Append,
            StackMapEntry::FullFrame { .. } => StackMapFrameKind::Full,
        }
    }

    /// Returns the local entries encoded by an append or full frame.
    ///
    /// Returns `None` for same and chop frames, whose locals are inherited from
    /// the preceding frame.
    #[must_use]
    pub fn locals(&self) -> (locals: Option<VerificationTypes<'a>>)
        ensures
            match frame_locals(self.spec_frame()) {
                Some(values) => locals matches Some(l) && l.spec_values() == values
                    && l.spec_pool() == self.spec_pool(),
                None => locals is None,
            },
    {
        match self.inner {
            StackMapEntry::AppendFrame { locals, .. } => Some(
                VerificationTypes::new(locals.as_slice(), self.constant_pool),
            ),
            StackMapEntry::FullFrame { locals, .. } => Some(
                VerificationTypes::new(locals.as_slice(), self.constant_pool),
            ),
            _ => None,
        }
    }

    /// Returns the stack entries encoded by this frame.
    ///
    /// Same, chop and append frames have an empty operand stack, so they return `None`.
    #[must_use]
    pub fn stack(&self) -> (stack: Option<VerificationTypes<'a>>)
        ensures
            match frame_stack(self.spec_frame()) {
                Some(values) => stack matches Some(s) && s.spec_values() == values
                    && s.spec_pool() == self.spec_pool(),
                None => stack is None,
            },
    {
        match self.inner {
            StackMapEntry::SameLocals1StackItemFrame { stack, .. } => Some(
                VerificationTypes::single(stack, self.constant_pool),
            ),
            StackMapEntry::SameLocals1StackItemFrameExtended { stack, .. } => Some(
                VerificationTypes::single(stack, self.constant_pool),
            ),
            StackMapEntry::FullFrame { stack, .. } => Some(
                VerificationTypes::new(stack.as_slice(), self.constant_pool),
            ),
            _ => None,
        }
    }
}

/// The local entries a stored frame encodes: those of an append or full frame.
pub open spec fn frame_locals(frame: FrameData) -> Option<Seq<RawVerificationType>> {
    match frame {
        StackMapEntry::AppendFrame { locals, .. } => Some(locals@),
        StackMapEntry::FullFrame { locals, .. } => Some(locals@),
        _ => None,
    }
}

/// The stack entries a stored frame encodes: one for a same-locals frame, all of a full frame.
pub open spec fn frame_stack(frame: FrameData) -> Option<Seq<RawVerificationType>> {
    match frame {
        StackMapEntry::SameLocals1StackItemFrame { stack, .. } => Some(seq![stack]),
        StackMapEntry::SameLocals1StackItemFrameExtended { stack, .. } => Some(seq![stack]),
        StackMapEntry::FullFrame { stack, .. } => Some(stack@),
        _ => None,
    }
}

/// Which entries a frame encodes follows from its kind: locals for append and full frames,
/// a stack for same-locals-one-stack-item and full frames, and neither for same and chop frames.
pub proof fn law_kind_decides_encoded_entries(frame: FrameData)
    ensures
        frame_locals(frame) is Some <==> (kind_of(frame) == StackMapFrameKind::Append || kind_of(
            frame,
        ) == StackMapFrameKind::Full),
        frame_stack(frame) is Some <==> (kind_of(frame) == StackMapFrameKind::SameLocalsOneStackItem
            || kind_of(frame) == StackMapFrameKind::Full),
        kind_of(frame) == StackMapFrameKind::SameLocalsOneStackItem ==> (frame_stack(
            frame,
        ) matches Some(stack) && stack.len() == 1),
{
}

/// The encoding kind of a stored frame.
pub open spec fn kind_of(frame: FrameData) -> StackMapFrameKind {
    match frame {
        StackMapEntry::SameFrame { .. } => StackMapFrameKind::Same,
        StackMapEntry::SameLocals1StackItemFrame { .. } => StackMapFrameKind::SameLocalsOneStackItem,
        StackMapEntry::SameLocals1StackItemFrameExtended { .. } => StackMapFrameKind::SameLocalsOneStackItem,
        StackMapEntry::ChopFrame { k, .. } => StackMapFrameKind::Chop { count: k },
        StackMapEntry::SameFrameExtended { .. } => StackMapFrameKind::SameExtended,
        StackMapEntry::AppendFrame { .. } => StackMapFrameKind::Append,
        StackMapEntry::FullFrame { .. } => StackMapFrameKind::Full,
    }
}

/// Encoding form of a [`StackMapFrame`].
#[derive(Debug, Clone, Copy, PartialEq, Eq, Structural)]
pub enum StackMapFrameKind {
    /// A compact frame with inherited locals and an empty operand stack.
    Same,
    /// A frame with inherited locals and one operand-stack entry.
    SameLocalsOneStackItem,
    /// A frame that removes local entries from the preceding frame.
    Chop {
        /// Number of local entries removed from the preceding frame.
        count: u8,
    },
    /// An extended same frame with a wider offset delta.
    SameExtended,
    /// A frame that appends local entries to the preceding frame.
    Append,
    /// A frame that supplies complete local and operand-stack entries.
    Full,
}

/// A borrowed sequence of verification types in a stack-map frame.
#[derive(Debug, Clone, Copy)]
pub struct VerificationTypes<'a> {
    values: &'a [RawVerificationType],
    constant_pool: &'a [Constant],
}

/// A slice holding exactly `value`.
///
/// Trusted: calls `std::slice::from_ref`, which std documents as converting a reference into a
/// slice of length one; the contract states just that.
#[verifier::external_body]
fn slice_of_one<T>(value: &T) -> (slice: &[T])
    ensures
        slice@ == seq![*value],
{
    std::slice::from_ref(value)
}

impl<'a> VerificationTypes<'a> {
    pub closed spec fn spec_values(self) -> Seq<RawVerificationType> {
        self.values@
    }

    pub closed spec fn spec_pool(self) -> Seq<Constant> {
        self.constant_pool@
    }

    fn new(values: &'a [RawVerificationType], constant_pool: &'a [Constant]) -> (types: Self)
        ensures
            types.spec_values() == values@,
            types.spec_pool() == constant_pool@,
    {
        VerificationTypes { values, constant_pool }
    }

    fn single(value: &'a RawVerificationType, constant_pool: &'a [Constant]) -> (types: Self)
        ensures
            types.spec_values() == seq![*value],
            types.spec_pool() == constant_pool@,
    {
        Self::new(slice_of_one(value), constant_pool)
    }

    /// Returns the number of verification-type entries.
    #[must_use]
    pub fn len(&self) -> (len: usize)
        ensures
            len == self.spec_values().len(),
    {
        self.values.len()
    }

    /// Returns whether this sequence has no entries.
    #[must_use]
    pub fn is_empty(&self) -> (empty: bool)
        ensures
            empty == (self.spec_values().len() == 0),
    {
        self.values.len() == 0
    }

    /// The verification types in class-file order, with object names resolved.
    pub fn iter(&self) -> (types: Vec<VerificationType<'a>>)
        ensures
            types@.len() == self.spec_values().len(),
            forall|i: int|
                0 <= i < types@.len() ==> #[trigger] types@[i].resolves(
                    self.spec_values()[i],
                    self.spec_pool(),
                ),
    {
        let mut types: Vec<VerificationType<'a>> = Vec::new();
        let mut i: usize = 0;
        while i < self.values.len()
            invariant
                i <= self.values@.len(),
                types@.len() == i,
                forall|j: int|
                    0 <= j < i ==> #[trigger] types@[j].resolves(
                        self.values@[j],
                        self.constant_pool@,
                    ),
            decreases self.values@.len() - i,
        {
            types.push(VerificationType::from_raw(&self.values[i], self.constant_pool));
            i = i + 1;
        }
        types
    }
}

/// A verification type stored in a `StackMapTable` frame.
#[derive(Debug, Clone, Copy, PartialEq, Eq)]
pub enum VerificationType<'a> {
    /// An unusable local-variable slot.
    Top,
    /// A category-one integral value.
    Integer,
    /// A category-one floating-point value.
    Float,
    /// A category-two integral value.
    Long,
    /// A category-two floating-point value.
    Double,
    /// The JVM `null` value.
    Null,
    /// The receiver in an instance constructor before initialization completes.
    UninitializedThis,
    /// A reference to a class or array type.
    Object {
        /// Resolved internal class name or array descriptor, when available.
        internal_name: Option<&'a str>,
        /// Raw constant-pool index of the class entry.
        constant_pool_index: ConstantPoolIndex,
    },
    /// An object allocated by `new` before constructor initialization completes.
    Uninitialized {
        /// Bytecode offset of the allocating `new` instruction.
        offset: u16,
    },
}

impl<'a> VerificationType<'a> {
    /// This is `raw` with an object's class name resolved in `pool`.
    pub open spec fn resolves(self, raw: RawVerificationType, pool: Seq<Constant>) -> bool {
        match raw {
            RawVerificationType::Top => self is Top,
            RawVerificationType::Integer => self is Integer,
            RawVerificationType::Float => self is Float,
            RawVerificationType::Long => self is Long,
            RawVerificationType::Double => self is Double,
            RawVerificationType::Null => self is Null,
            RawVerificationType::UninitializedThis => self is UninitializedThis,
            RawVerificationType::Object { cpool_index } => self matches VerificationType::Object {
                internal_name,
                constant_pool_index,
            } && str_view(internal_name) == class_name_at(pool, cpool_index as int)
                && constant_pool_index@ == cpool_index,
            RawVerificationType::Uninitialized { offset } => self == VerificationType::Uninitialized {
                offset,
            },
        }
    }

    fn from_raw(value: &RawVerificationType, constant_pool: &'a [Constant]) -> (resolved: Self)
        ensures
            resolved.resolves(*value, constant_pool@),
    {
        match value {
            RawVerificationType::Top => VerificationType::Top,
            RawVerificationType::Integer => VerificationType::Integer,
            RawVerificationType::Float => VerificationType::Float,
            RawVerificationType::Long => VerificationType::Long,
            RawVerificationType::Double => VerificationType::Double,
            RawVerificationType::Null => VerificationType::Null,
            RawVerificationType::UninitializedThis => VerificationType::UninitializedThis,
            RawVerificationType::Object { cpool_index } => VerificationType::Object {
                internal_name: class_name(constant_pool, *cpool_index),
                constant_pool_index: ConstantPoolIndex::new(*cpool_index),
            },
            RawVerificationType::Uninitialized { offset } => VerificationType::Uninitialized {
                offset: *offset,
            },
        }
    }
}

/// The kind of a chop frame carries how many locals it chops, and two chop frames have the same
/// kind exactly when they chop the same number of locals.
pub proof fn law_chop_kind_carries_its_count(frame: FrameData, other: FrameData)
    ensures
        frame matches StackMapEntry::ChopFrame { k, .. } ==> kind_of(frame) == (
        StackMapFrameKind::Chop { count: k }),
        frame is ChopFrame && other is ChopFrame ==> (kind_of(frame) == kind_of(other) <==> frame->k
            == other->k),
{
}

/// The kind of a frame names how it is encoded: a same frame is `Same`, both
/// same-locals-one-stack-item encodings are `SameLocalsOneStackItem`, an extended same frame
/// is `SameExtended`, an append frame `Append`, a full frame `Full`, and only a chop frame is a
/// `Chop`.
pub proof fn law_kind_names_the_encoding(frame: FrameData)
    ensures
        kind_of(frame) == StackMapFrameKind::Same <==> frame is SameFrame,
        kind_of(frame) == StackMapFrameKind::SameLocalsOneStackItem <==> (frame is SameLocals1StackItemFrame
            || frame is SameLocals1StackItemFrameExtended),
        kind_of(frame) == StackMapFrameKind::SameExtended <==> frame is SameFrameExtended,
        kind_of(frame) == StackMapFrameKind::Append <==> frame is AppendFrame,
        kind_of(frame) == StackMapFrameKind::Full <==> frame is FullFrame,
        kind_of(frame) is Chop <==> frame is ChopFrame,
{
}

} // verus!
