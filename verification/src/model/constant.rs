use vstd::prelude::*;

verus! {

/// A one-based index into a class file's constant pool.
#[derive(Debug, Clone, Copy, PartialEq, Eq, Hash, Structural)]
pub struct ConstantPoolIndex(u16);

impl View for ConstantPoolIndex {
    type V = u16;

    closed spec fn view(&self) -> u16 {
        self.0
    }
}

impl ConstantPoolIndex {
    /// Wraps a raw constant-pool index.
    pub fn new(index: u16) -> (result: Self)
        ensures
            result@ == index,
    {
        ConstantPoolIndex(index)
    }

    /// Returns the raw index.
    #[must_use]
    pub fn get(self) -> (index: u16)
        ensures
            index == self@,
    {
        self.0
    }
}

/// One decoded constant-pool slot, as the class file stores it.
///
/// Floating-point constants are kept as their IEEE 754 bit patterns.
#[derive(Debug, Clone, PartialEq, Eq)]
pub enum Constant {
    Unusable,
    Utf8(String),
    Integer(i32),
    Float(u32),
    Long(i64),
    Double(u64),
    Class { name_index: u16 },
    String { string_index: u16 },
    Fieldref { class_index: u16, name_and_type_index: u16 },
    Methodref { class_index: u16, name_and_type_index: u16 },
    InterfaceMethodref { class_index: u16, name_and_type_index: u16 },
    NameAndType { name_index: u16, descriptor_index: u16 },
    MethodHandle { reference_kind: u8, reference_index: u16 },
    MethodType { descriptor_index: u16 },
    Dynamic { bootstrap_method_attr_index: u16, name_and_type_index: u16 },
    InvokeDynamic { bootstrap_method_attr_index: u16, name_and_type_index: u16 },
    Module { name_index: u16 },
    Package { name_index: u16 },
}

/// A borrowed view of one constant-pool slot.
///
/// `Float` and `Double` carry the IEEE 754 bit patterns of the stored values.
#[derive(Debug, Clone, Copy)]
pub enum ConstantRef<'a> {
    Unusable,
    Utf8(&'a str),
    Integer(i32),
    Float(u32),
    Long(i64),
    Double(u64),
    Class { name: ConstantPoolIndex },
    String { value: ConstantPoolIndex },
    FieldReference { class: ConstantPoolIndex, name_and_type: ConstantPoolIndex },
    MethodReference { class: ConstantPoolIndex, name_and_type: ConstantPoolIndex },
    InterfaceMethodReference { class: ConstantPoolIndex, name_and_type: ConstantPoolIndex },
    NameAndType { name: ConstantPoolIndex, descriptor: ConstantPoolIndex },
    MethodHandle { reference_kind: u8, reference: ConstantPoolIndex },
    MethodType { descriptor: ConstantPoolIndex },
    Dynamic { bootstrap_method: u16, name_and_type: ConstantPoolIndex },
    InvokeDynamic { bootstrap_method: u16, name_and_type: ConstantPoolIndex },
    Module { name: ConstantPoolIndex },
    Package { name: ConstantPoolIndex },
}

impl<'a> ConstantRef<'a> {
    /// This view shows the slot `c`: same variant, same values, indices wrapped.
    pub open spec fn shows(self, c: Constant) -> bool {
        match c {
            Constant::Unusable => self is Unusable,
            Constant::Utf8(v) => self matches ConstantRef::Utf8(s) && s@ == v@,
            Constant::Integer(v) => self == ConstantRef::Integer(v),
            Constant::Float(v) => self == ConstantRef::Float(v),
            Constant::Long(v) => self == ConstantRef::Long(v),
            Constant::Double(v) => self == ConstantRef::Double(v),
            Constant::Class { name_index } => self matches ConstantRef::Class { name } && name@
                == name_index,
            Constant::String { string_index } => self matches ConstantRef::String { value }
                && value@ == string_index,
            Constant::Fieldref { class_index, name_and_type_index } => self matches ConstantRef::FieldReference { class, name_and_type }
                && class@ == class_index && name_and_type@ == name_and_type_index,
            Constant::Methodref { class_index, name_and_type_index } => self matches ConstantRef::MethodReference { class, name_and_type }
                && class@ == class_index && name_and_type@ == name_and_type_index,
            Constant::InterfaceMethodref { class_index, name_and_type_index } => self matches ConstantRef::InterfaceMethodReference { class, name_and_type }
                && class@ == class_index && name_and_type@ == name_and_type_index,
            Constant::NameAndType { name_index, descriptor_index } => self matches ConstantRef::NameAndType { name, descriptor }
                && name@ == name_index && descriptor@ == descriptor_index,
            Constant::MethodHandle { reference_kind, reference_index } => self matches ConstantRef::MethodHandle { reference_kind: kind, reference }
                && kind == reference_kind && reference@ == reference_index,
            Constant::MethodType { descriptor_index } => self matches ConstantRef::MethodType { descriptor }
                && descriptor@ == descriptor_index,
            Constant::Dynamic { bootstrap_method_attr_index, name_and_type_index } => self matches ConstantRef::Dynamic { bootstrap_method, name_and_type }
                && bootstrap_method == bootstrap_method_attr_index && name_and_type@
                == name_and_type_index,
            Constant::InvokeDynamic { bootstrap_method_attr_index, name_and_type_index } => self matches ConstantRef::InvokeDynamic { bootstrap_method, name_and_type }
                && bootstrap_method == bootstrap_method_attr_index && name_and_type@
                == name_and_type_index,
            Constant::Module { name_index } => self matches ConstantRef::Module { name } && name@
                == name_index,
            Constant::Package { name_index } => self matches ConstantRef::Package { name } && name@
                == name_index,
        }
    }

    /// Views a stored constant-pool slot.
    pub fn from(value: &'a Constant) -> (view: Self)
        ensures
            view.shows(*value),
    {
        match value {
            Constant::Unusable => ConstantRef::Unusable,
            Constant::Utf8(value) => ConstantRef::Utf8(value.as_str()),
            Constant::Integer(value) => ConstantRef::Integer(*value),
            Constant::Float(value) => ConstantRef::Float(*value),
            Constant::Long(value) => ConstantRef::Long(*value),
            Constant::Double(value) => ConstantRef::Double(*value),
            Constant::Class { name_index } => ConstantRef::Class {
                name: ConstantPoolIndex::new(*name_index),
            },
            Constant::String { string_index } => ConstantRef::String {
                value: ConstantPoolIndex::new(*string_index),
            },
            Constant::Fieldref { class_index, name_and_type_index } => ConstantRef::FieldReference {
                class: ConstantPoolIndex::new(*class_index),
                name_and_type: ConstantPoolIndex::new(*name_and_type_index),
            },
            Constant::Methodref { class_index, name_and_type_index } => ConstantRef::MethodReference {
                class: ConstantPoolIndex::new(*class_index),
                name_and_type: ConstantPoolIndex::new(*name_and_type_index),
            },
            Constant::InterfaceMethodref {
                class_index,
                name_and_type_index,
            } => ConstantRef::InterfaceMethodReference {
                class: ConstantPoolIndex::new(*class_index),
                name_and_type: ConstantPoolIndex::new(*name_and_type_index),
            },
            Constant::NameAndType { name_index, descriptor_index } => ConstantRef::NameAndType {
                name: ConstantPoolIndex::new(*name_index),
                descriptor: ConstantPoolIndex::new(*descriptor_index),
            },
            Constant::MethodHandle { reference_kind, reference_index } => ConstantRef::MethodHandle {
                reference_kind: *reference_kind,
                reference: ConstantPoolIndex::new(*reference_index),
            },
            Constant::MethodType { descriptor_index } => ConstantRef::MethodType {
                descriptor: ConstantPoolIndex::new(*descriptor_index),
            },
            Constant::Dynamic {
                bootstrap_method_attr_index,
                name_and_type_index,
            } => ConstantRef::Dynamic {
                bootstrap_method: *bootstrap_method_attr_index,
                name_and_type: ConstantPoolIndex::new(*name_and_type_index),
            },
            Constant::InvokeDynamic {
                bootstrap_method_attr_index,
                name_and_type_index,
            } => ConstantRef::InvokeDynamic {
                bootstrap_method: *bootstrap_method_attr_index,
                name_and_type: ConstantPoolIndex::new(*name_and_type_index),
            },
            Constant::Module { name_index } => ConstantRef::Module {
                name: ConstantPoolIndex::new(*name_index),
            },
            Constant::Package { name_index } => ConstantRef::Package {
                name: ConstantPoolIndex::new(*name_index),
            },
        }
    }
}

} // verus!

verus! {

/// The text of an optional borrowed string.
pub open spec fn str_view(s: Option<&str>) -> Option<Seq<char>> {
    match s {
        Some(s) => Some(s@),
        None => None,
    }
}

/// The text of the `Utf8` slot at `index`, if there is one.
pub open spec fn utf8_at(pool: Seq<Constant>, index: int) -> Option<Seq<char>> {
    if 0 <= index < pool.len() {
        match pool[index] {
            Constant::Utf8(text) => Some(text@),
            _ => None,
        }
    } else {
        None
    }
}

/// The name that the `Class` slot at `index` refers to, if the slot and its name resolve.
pub open spec fn class_name_at(pool: Seq<Constant>, index: int) -> Option<Seq<char>> {
    if 0 <= index < pool.len() {
        match pool[index] {
            Constant::Class { name_index } => utf8_at(pool, name_index as int),
            _ => None,
        }
    } else {
        None
    }
}

/// Looks up the text of a `Utf8` slot.
pub fn utf8_in(pool: &[Constant], index: u16) -> (text: Option<&str>)
    ensures
        str_view(text) == utf8_at(pool@, index as int),
{
    if (index as usize) < pool.len() {
        match &pool[index as usize] {
            Constant::Utf8(text) => Some(text.as_str()),
            _ => None,
        }
    } else {
        None
    }
}

/// Resolves a `Class` slot to the internal name it refers to.
pub fn class_name(pool: &[Constant], index: u16) -> (name: Option<&str>)
    ensures
        str_view(name) == class_name_at(pool@, index as int),
{
    if (index as usize) < pool.len() {
        match &pool[index as usize] {
            Constant::Class { name_index } => utf8_in(pool, *name_index),
            _ => None,
        }
    } else {
        None
    }
}

/// A view of a member-reference slot keeps the slot's kind and indices: a field reference is
/// viewed as a field reference, a method reference as a method reference and an interface
/// method reference as an interface method reference, never as one of the others.
pub proof fn law_member_slots_keep_their_kind<'a>(view: ConstantRef<'a>, slot: Constant)
    requires
        view.shows(slot),
    ensures
        slot matches Constant::Fieldref { class_index, name_and_type_index } ==> (
        view matches ConstantRef::FieldReference { class, name_and_type } && class@ == class_index
            && name_and_type@ == name_and_type_index),
        slot matches Constant::Methodref { class_index, name_and_type_index } ==> (
        view matches ConstantRef::MethodReference { class, name_and_type } && class@ == class_index
            && name_and_type@ == name_and_type_index),
        slot matches Constant::InterfaceMethodref { class_index, name_and_type_index } ==> (
        view matches ConstantRef::InterfaceMethodReference { class, name_and_type } && class@
            == class_index && name_and_type@ == name_and_type_index),
        slot is Fieldref ==> !(view is MethodReference) && !(view is InterfaceMethodReference),
        slot is Methodref ==> !(view is FieldReference) && !(view is InterfaceMethodReference),
        slot is InterfaceMethodref ==> !(view is FieldReference) && !(view is MethodReference),
{
}

/// The class-file tag of a constant-pool slot: 1 for UTF-8 text, 3 to 6 for integer, float,
/// long and double values, 7 class, 8 string, 9 field reference, 10 method reference, 11
/// interface method reference, 12 name-and-type, 15 method handle, 16 method type, 17 dynamic,
/// 18 invoke-dynamic, 19 module, 20 package; 0 for the unusable slot.
pub open spec fn slot_tag(slot: Constant) -> u8 {
    match slot {
        Constant::Unusable => 0,
        Constant::Utf8(..) => 1,
        Constant::Integer(..) => 3,
        Constant::Float(..) => 4,
        Constant::Long(..) => 5,
        Constant::Double(..) => 6,
        Constant::Class { .. } => 7,
        Constant::String { .. } => 8,
        Constant::Fieldref { .. } => 9,
        Constant::Methodref { .. } => 10,
        Constant::InterfaceMethodref { .. } => 11,
        Constant::NameAndType { .. } => 12,
        Constant::MethodHandle { .. } => 15,
        Constant::MethodType { .. } => 16,
        Constant::Dynamic { .. } => 17,
        Constant::InvokeDynamic { .. } => 18,
        Constant::Module { .. } => 19,
        Constant::Package { .. } => 20,
    }
}

/// The class-file tag of the kind of slot a view presents, numbered as [`slot_tag`] numbers them.
pub open spec fn view_tag<'a>(view: ConstantRef<'a>) -> u8 {
    match view {
        ConstantRef::Unusable => 0,
        ConstantRef::Utf8(..) => 1,
        ConstantRef::Integer(..) => 3,
        ConstantRef::Float(..) => 4,
        ConstantRef::Long(..) => 5,
        ConstantRef::Double(..) => 6,
        ConstantRef::Class { .. } => 7,
        ConstantRef::String { .. } => 8,
        ConstantRef::FieldReference { .. } => 9,
        ConstantRef::MethodReference { .. } => 10,
        ConstantRef::InterfaceMethodReference { .. } => 11,
        ConstantRef::NameAndType { .. } => 12,
        ConstantRef::MethodHandle { .. } => 15,
        ConstantRef::MethodType { .. } => 16,
        ConstantRef::Dynamic { .. } => 17,
        ConstantRef::InvokeDynamic { .. } => 18,
        ConstantRef::Module { .. } => 19,
        ConstantRef::Package { .. } => 20,
    }
}

/// A view presents a slot as its own kind: the view of a slot always has the slot's tag, so no
/// kind is ever shown as another (a field reference never as a method reference, a class never
/// as a string, and so on).
pub proof fn law_views_keep_the_slot_kind<'a>(view: ConstantRef<'a>, slot: Constant)
    requires
        view.shows(slot),
    ensures
        view_tag(view) == slot_tag(slot),
{
}

} // verus!
