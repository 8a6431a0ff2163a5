use vstd::prelude::*;

use super::constant::{Constant, ConstantPoolIndex, ConstantRef};
use super::member::{Field, Method, MethodInfo};
use crate::diagnostic::Diagnostic;

verus! {

/// The minor and major version numbers stored in a class-file header.
#[derive(Debug, Clone, Copy, PartialEq, Eq, Structural)]
pub struct ClassVersion {
    minor: u16,
    major: u16,
}

impl ClassVersion {
    pub closed spec fn spec_minor(self) -> u16 {
        self.minor
    }

    pub closed spec fn spec_major(self) -> u16 {
        self.major
    }

    /// A version from its minor and major numbers.
    pub fn new(minor: u16, major: u16) -> (version: Self)
        ensures
            version.spec_minor() == minor,
            version.spec_major() == major,
    {
        ClassVersion { minor, major }
    }

    /// Returns the class-file minor version.
    #[must_use]
    pub fn minor(self) -> (minor: u16)
        ensures
            minor == self.spec_minor(),
    {
        self.minor
    }

    /// Returns the class-file major version.
    #[must_use]
    pub fn major(self) -> (major: u16)
        ensures
            major == self.spec_major(),
    {
        self.major
    }
}

/// A complete, decoded Java class file.
///
/// Its member and constant-pool accessors return views that borrow from it; the listing
/// accessors collect those views into a new `Vec`.
#[derive(Debug, Clone, PartialEq, Eq)]
pub struct Class {
    pub minor_version: u16,
    pub major_version: u16,
    pub access_flags: u16,
    pub name: String,
    pub super_name: Option<String>,
    pub source_file: Option<String>,
    pub interfaces: Vec<String>,
    pub fields: Vec<Field>,
    pub methods: Vec<MethodInfo>,
    pub constant_pool: Vec<Constant>,
}

/// The text of an optional owned string.
pub open spec fn string_view(s: Option<String>) -> Option<Seq<char>> {
    match s {
        Some(s) => Some(s@),
        None => None,
    }
}

/// The text of an optional borrowed string.
pub open spec fn borrowed_view(s: Option<&str>) -> Option<Seq<char>> {
    match s {
        Some(s) => Some(s@),
        None => None,
    }
}

fn borrow_optional(s: &Option<String>) -> (borrowed: Option<&str>)
    ensures
        borrowed_view(borrowed) == string_view(*s),
{
    match s {
        Some(s) => Some(s.as_str()),
        None => None,
    }
}

impl Class {
    /// The constant-pool slot at `index`, if the decoded pool has one.
    pub open spec fn pool_entry(self, index: u16) -> Option<Constant> {
        if (index as int) < self.constant_pool@.len() {
            Some(self.constant_pool@[index as int])
        } else {
            None
        }
    }

    /// Every method without code has zero limits and no instructions or handlers.
    pub open spec fn codeless_methods_are_empty(self) -> bool {
        forall|i: int| 0 <= i < self.methods@.len() ==> (#[trigger] self.methods@[i]).codeless_is_empty()
    }

    /// Returns the class-file version recorded in the header.
    #[must_use]
    pub fn version(&self) -> (version: ClassVersion)
        ensures
            version.spec_minor() == self.minor_version,
            version.spec_major() == self.major_version,
    {
        ClassVersion::new(self.minor_version, self.major_version)
    }

    /// Returns the raw class access-flag bitset.
    #[must_use]
    pub fn access_flags(&self) -> (flags: u16)
        ensures
            flags == self.access_flags,
    {
        self.access_flags
    }

    /// Returns this class's internal JVM name, slash-separated and not normalized.
    #[must_use]
    pub fn name(&self) -> (name: &str)
        ensures
            name@ == self.name@,
    {
        self.name.as_str()
    }

    /// Returns the direct superclass internal name, if the class has one.
    ///
    /// `None` represents the `java/lang/Object` root class.
    #[must_use]
    pub fn super_name(&self) -> (super_name: Option<&str>)
        ensures
            borrowed_view(super_name) == string_view(self.super_name),
    {
        borrow_optional(&self.super_name)
    }

    /// Returns the `SourceFile` attribute value when present.
    #[must_use]
    pub fn source_file(&self) -> (source_file: Option<&str>)
        ensures
            borrowed_view(source_file) == string_view(self.source_file),
    {
        borrow_optional(&self.source_file)
    }

    /// The direct interface internal names in class-file order.
    pub fn interfaces(&self) -> (interfaces: Vec<&str>)
        ensures
            interfaces@.len() == self.interfaces@.len(),
            forall|i: int|
                0 <= i < interfaces@.len() ==> (#[trigger] interfaces@[i])@ == self.interfaces@[i]@,
    {
        let mut names: Vec<&str> = Vec::new();
        let mut i: usize = 0;
        while i < self.interfaces.len()
            invariant
                i <= self.interfaces@.len(),
                names@.len() == i,
                forall|j: int| 0 <= j < i ==> (#[trigger] names@[j])@ == self.interfaces@[j]@,
            decreases self.interfaces@.len() - i,
        {
            names.push(self.interfaces[i].as_str());
            i = i + 1;
        }
        names
    }

    /// The fields in class-file order.
    pub fn fields(&self) -> (fields: &[Field])
        ensures
            fields@ == self.fields@,
    {
        self.fields.as_slice()
    }

    /// The methods in class-file order; each can read the class constant pool.
    ///
    /// A decoded class has its methods without code empty, and so must a class built by hand.
    pub fn methods(&self) -> (methods: Vec<Method<'_>>)
        requires
            self.codeless_methods_are_empty(),
        ensures
            methods@.len() == self.methods@.len(),
            forall|i: int|
                0 <= i < methods@.len() ==> (#[trigger] methods@[i]).spec_info() == self.methods@[i]
                    && methods@[i].spec_pool() == self.constant_pool@,
    {
        let mut methods: Vec<Method<'_>> = Vec::new();
        let mut i: usize = 0;
        while i < self.methods.len()
            invariant
                self.codeless_methods_are_empty(),
                i <= self.methods@.len(),
                methods@.len() == i,
                forall|j: int|
                    0 <= j < i ==> (#[trigger] methods@[j]).spec_info() == self.methods@[j]
                        && methods@[j].spec_pool() == self.constant_pool@,
            decreases self.methods@.len() - i,
        {
            methods.push(Method::new(&self.methods[i], self.constant_pool.as_slice()));
            i = i + 1;
        }
        methods
    }

    /// Every constant-pool slot with its index, including unusable reserved slots.
    ///
    /// The slot at position `i` is reported with index `i` (truncated to 16 bits).
    pub fn constants(&self) -> (constants: Vec<(ConstantPoolIndex, ConstantRef<'_>)>)
        ensures
            constants@.len() == self.constant_pool@.len(),
            forall|i: int|
                0 <= i < constants@.len() ==> (#[trigger] constants@[i]).0@ == i as u16
                    && constants@[i].1.shows(self.constant_pool@[i]),
    {
        let mut constants: Vec<(ConstantPoolIndex, ConstantRef<'_>)> = Vec::new();
        let mut i: usize = 0;
        while i < self.constant_pool.len()
            invariant
                i <= self.constant_pool@.len(),
                constants@.len() == i,
                forall|j: int|
                    0 <= j < i ==> (#[trigger] constants@[j]).0@ == j as u16
                        && constants@[j].1.shows(self.constant_pool@[j]),
            decreases self.constant_pool@.len() - i,
        {
            let index = ConstantPoolIndex::new(i as u16);
            constants.push((index, ConstantRef::from(&self.constant_pool[i])));
            i = i + 1;
        }
        constants
    }

    /// Returns the constant-pool entry at `index`.
    ///
    /// Returns `None` when `index` is outside the decoded constant pool.
    #[must_use]
    pub fn constant(&self, index: ConstantPoolIndex) -> (constant: Option<ConstantRef<'_>>)
        ensures
            match self.pool_entry(index@) {
                Some(entry) => constant matches Some(c) && c.shows(entry),
                None => constant is None,
            },
    {
        let at = index.get() as usize;
        if at < self.constant_pool.len() {
            Some(ConstantRef::from(&self.constant_pool[at]))
        } else {
            None
        }
    }
}

/// The index that [`Class::constants`] reports at position `i` looks up, through
/// [`Class::constant`], the slot at position `i`, for every pool of at most 65536 slots.
pub proof fn law_constants_report_lookup_indices(class: Class, i: int)
    requires
        0 <= i < class.constant_pool@.len(),
        class.constant_pool@.len() <= 0x1_0000,
    ensures
        class.pool_entry(i as u16) == Some(class.constant_pool@[i]),
{
}

/// The outcome of parsing one class-file input.
///
/// A complete result contains a [`Class`]. Best-effort recovery returns a partial result when
/// only the class-file header was available; callers can inspect [`Self::version`] and
/// [`Self::diagnostics`] in that case.
#[derive(Debug)]
pub struct Disassembly {
    header: ClassVersion,
    class: Option<Class>,
    diagnostics: Vec<Diagnostic>,
}

impl Disassembly {
    #[verifier::type_invariant]
    spec fn complete_results_agree(self) -> bool {
        self.class matches Some(c) ==> {
            &&& self.header.spec_minor() == c.minor_version
            &&& self.header.spec_major() == c.major_version
            &&& self.diagnostics@.len() == 0
        }
    }

    pub closed spec fn spec_version(self) -> ClassVersion {
        self.header
    }

    pub closed spec fn spec_class(self) -> Option<Class> {
        self.class
    }

    pub closed spec fn spec_diagnostics(self) -> Seq<Diagnostic> {
        self.diagnostics@
    }

    /// A complete result holding `class`.
    pub fn complete(class: Class) -> (result: Self)
        ensures
            result.spec_class() == Some(class),
            result.spec_version().spec_minor() == class.minor_version,
            result.spec_version().spec_major() == class.major_version,
            result.spec_diagnostics().len() == 0,
    {
        Disassembly { header: class.version(), class: Some(class), diagnostics: Vec::new() }
    }

    /// A partial result: the header's version and what was noticed while decoding failed.
    pub fn partial(header: ClassVersion, diagnostics: Vec<Diagnostic>) -> (result: Self)
        ensures
            result.spec_class() is None,
            result.spec_version() == header,
            result.spec_diagnostics() == diagnostics@,
    {
        Disassembly { header, class: None, diagnostics }
    }

    /// Returns the class-file version read from the input header.
    ///
    /// This is available for both complete and partial results.
    #[must_use]
    pub fn version(&self) -> (version: ClassVersion)
        ensures
            version == self.spec_version(),
            self.spec_class() matches Some(c) ==> version.spec_minor() == c.minor_version
                && version.spec_major() == c.major_version,
    {
        proof {
            use_type_invariant(self);
        }
        self.header
    }

    /// Returns `true` when a complete [`Class`] model is available.
    #[must_use]
    pub fn is_complete(&self) -> (complete: bool)
        ensures
            complete == self.spec_class() is Some,
    {
        self.class.is_some()
    }

    /// Returns the complete parsed class, if decoding finished successfully.
    ///
    /// Returns `None` for a best-effort partial result.
    #[must_use]
    pub fn class(&self) -> (class: Option<&Class>)
        ensures
            match self.spec_class() {
                Some(c) => class matches Some(k) && *k == c,
                None => class is None,
            },
    {
        self.class.as_ref()
    }

    /// Returns diagnostics collected during best-effort recovery.
    ///
    /// Complete results return an empty slice.
    #[must_use]
    pub fn diagnostics(&self) -> (diagnostics: &[Diagnostic])
        ensures
            diagnostics@ == self.spec_diagnostics(),
            self.spec_class() is Some ==> diagnostics@.len() == 0,
    {
        proof {
            use_type_invariant(self);
        }
        self.diagnostics.as_slice()
    }
}

} // verus!
