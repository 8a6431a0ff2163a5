//! Reads Java class files into an inspectable model and formats them as text.

use vstd::prelude::*;

pub mod decode;
pub mod diagnostic;
pub mod error;
pub mod format;
pub mod guard;
pub mod input;
pub mod model;
pub mod options;
mod reader;

pub use diagnostic::{Diagnostic, DiagnosticSeverity, DiagnosticStage};
pub use error::{DecodeError, DecodeErrorKind, FerroBabeError};
pub use input::ClassHeader;
pub use model::{Class, ClassVersion, Disassembly};
pub use options::{DisassemblerBuilder, DisassemblerOptions, RecoveryMode};

use decode::{
    adjusted_for_reader, decode_class, decoded_model, decoder_accepts, decoder_failure, holds_model,
};
use model::Constant;
use guard::decodes_in_range;
use input::header_of;

verus! {

/// The stage that best-effort recovery reports for a decoding failure of kind `kind`.
pub open spec fn stage_of(kind: DecodeErrorKind) -> DiagnosticStage {
    match kind {
        DecodeErrorKind::UnexpectedEof => DiagnosticStage::Header,
        DecodeErrorKind::InvalidMagic(_) => DiagnosticStage::Header,
        DecodeErrorKind::InvalidClassVersion(_) => DiagnosticStage::Header,
        DecodeErrorKind::InvalidConstantPoolTag(_) => DiagnosticStage::ConstantPool,
        DecodeErrorKind::InvalidIndex(_) => DiagnosticStage::ConstantPool,
        DecodeErrorKind::Utf8Error => DiagnosticStage::ConstantPool,
        DecodeErrorKind::InvalidAttribute => DiagnosticStage::Attribute,
        DecodeErrorKind::InvalidOpcode { .. } => DiagnosticStage::Code,
    }
}

/// The bytecode offset that best-effort recovery reports for a decoding failure of kind `kind`.
pub open spec fn offset_of(kind: DecodeErrorKind) -> Option<usize> {
    match kind {
        DecodeErrorKind::InvalidOpcode { offset, .. } => Some(offset),
        _ => None,
    }
}

/// `diagnostic` reports the decoding failure `error`.
pub open spec fn reports(diagnostic: Diagnostic, error: DecodeError) -> bool {
    &&& diagnostic.spec_severity() == DiagnosticSeverity::Error
    &&& diagnostic.spec_stage() == stage_of(error.kind)
    &&& diagnostic.spec_offset() == offset_of(error.kind)
    &&& diagnostic.spec_message() == error.message@
}

/// The diagnostic that best-effort recovery reports for a decoding failure.
pub fn diagnostic_for(error: &DecodeError) -> (diagnostic: Diagnostic)
    ensures
        reports(diagnostic, *error),
{
    let stage = match error.kind {
        DecodeErrorKind::UnexpectedEof => DiagnosticStage::Header,
        DecodeErrorKind::InvalidMagic(_) => DiagnosticStage::Header,
        DecodeErrorKind::InvalidClassVersion(_) => DiagnosticStage::Header,
        DecodeErrorKind::InvalidConstantPoolTag(_) => DiagnosticStage::ConstantPool,
        DecodeErrorKind::InvalidIndex(_) => DiagnosticStage::ConstantPool,
        DecodeErrorKind::Utf8Error => DiagnosticStage::ConstantPool,
        DecodeErrorKind::InvalidAttribute => DiagnosticStage::Attribute,
        DecodeErrorKind::InvalidOpcode { .. } => DiagnosticStage::Code,
    };
    let offset = match error.kind {
        DecodeErrorKind::InvalidOpcode { offset, .. } => Some(offset),
        _ => None,
    };
    Diagnostic::new(DiagnosticSeverity::Error, stage, offset, error.message.clone())
}

/// `version` holds the versions of `header`.
pub open spec fn same_version(version: ClassVersion, header: ClassHeader) -> bool {
    version.spec_minor() == header.minor_version && version.spec_major() == header.major_version
}

/// `result` is complete: it holds `decoded` with the versions of `header`, and no
/// diagnostics; slot 0 of its constant pool is the unusable marker, and its methods without
/// code are empty.
pub open spec fn complete_with(
    result: Result<Disassembly, FerroBabeError>,
    decoded: Class,
    header: ClassHeader,
) -> bool {
    match result {
        Ok(d) => d.spec_diagnostics().len() == 0 && same_version(d.spec_version(), header) && match d.spec_class() {
            Some(c) => holds_model(c, decoded, header) && c.codeless_methods_are_empty()
                && c.constant_pool@.len() >= 1 && c.constant_pool@[0] == Constant::Unusable,
            None => false,
        },
        Err(_) => false,
    }
}

/// Reads Java class files into an inspectable model.
#[derive(Debug, Clone, Copy)]
pub struct Disassembler {
    options: DisassemblerOptions,
}

impl Default for Disassembler {
    fn default() -> (disassembler: Self)
        ensures
            disassembler.spec_options().spec_recovery() == RecoveryMode::BestEffort,
    {
        Disassembler { options: DisassemblerOptions::default() }
    }
}

impl Disassembler {
    /// The options this disassembler was built with.
    pub closed spec fn spec_options(self) -> DisassemblerOptions {
        self.options
    }

    /// What [`Self::assemble`] returns for a header and a decoding outcome.
    pub open spec fn assembled(
        self,
        header: ClassHeader,
        decoded: Result<Class, FerroBabeError>,
        result: Result<Disassembly, FerroBabeError>,
    ) -> bool {
        match decoded {
            Ok(class) => result matches Ok(d) && d.spec_class() == Some(class)
                && d.spec_diagnostics().len() == 0 && d.spec_version().spec_minor()
                == class.minor_version && d.spec_version().spec_major() == class.major_version,
            Err(FerroBabeError::Decode { source }) => if self.spec_options().spec_recovery()
                == RecoveryMode::BestEffort {
                result matches Ok(d) && d.spec_class() is None && same_version(
                    d.spec_version(),
                    header,
                ) && d.spec_diagnostics().len() == 1 && reports(d.spec_diagnostics()[0], source)
            } else {
                result == Err::<Disassembly, FerroBabeError>(FerroBabeError::Decode { source })
            },
            Err(other) => result == Err::<Disassembly, FerroBabeError>(other),
        }
    }

    /// A builder with best-effort recovery.
    #[must_use]
    pub fn builder() -> (builder: DisassemblerBuilder)
        ensures
            builder.spec_options().spec_recovery() == RecoveryMode::BestEffort,
    {
        DisassemblerBuilder::default()
    }

    /// A disassembler with the given options.
    #[must_use]
    pub fn new(options: DisassemblerOptions) -> (disassembler: Self)
        ensures
            disassembler.spec_options() == options,
    {
        Disassembler { options }
    }

    /// Returns the options this disassembler uses.
    #[must_use]
    pub fn options(&self) -> (options: &DisassemblerOptions)
        ensures
            *options == self.spec_options(),
    {
        &self.options
    }

    /// Turns a decoding outcome for a class whose header was `header` into a parse result.
    ///
    /// A decoded class becomes a complete result. A decoding failure becomes a partial result
    /// with one diagnostic under best-effort recovery, and stays an error under strict recovery.
    pub fn assemble(&self, header: ClassHeader, decoded: Result<Class, FerroBabeError>) -> (result:
        Result<Disassembly, FerroBabeError>)
        ensures
            self.assembled(header, decoded, result),
    {
        match decoded {
            Ok(class) => Ok(Disassembly::complete(class)),
            Err(FerroBabeError::Decode { source }) => {
                match self.options.recovery() {
                    RecoveryMode::BestEffort => {
                        let mut diagnostics: Vec<Diagnostic> = Vec::new();
                        diagnostics.push(diagnostic_for(&source));
                        let version = ClassVersion::new(header.minor_version, header.major_version);
                        Ok(Disassembly::partial(version, diagnostics))
                    },
                    RecoveryMode::Strict => Err(FerroBabeError::Decode { source }),
                }
            },
            Err(other) => Err(other),
        }
    }

    /// Parses one class file.
    ///
    /// Header failures are always errors. After a valid header, the decoder is handed the
    /// bytes with a major version it knows. When it accepts them the result is complete and
    /// holds the decoded class with the header's versions; when it refuses them, its failure
    /// gives a partial result under best-effort recovery and is returned under strict recovery.
    pub fn parse(&self, bytes: &[u8]) -> (result: Result<Disassembly, FerroBabeError>)
        requires
            header_of(bytes@) is Ok ==> decodes_in_range(bytes@),
        ensures
            match header_of(bytes@) {
                Err(e) => result == Err::<Disassembly, FerroBabeError>(e),
                Ok(header) => {
                    &&& decoder_accepts(adjusted_for_reader(bytes@, header)) ==> complete_with(
                        result,
                        decoded_model(adjusted_for_reader(bytes@, header)),
                        header,
                    )
                    &&& !decoder_accepts(adjusted_for_reader(bytes@, header)) ==> self.assembled(
                        header,
                        Err(
                            FerroBabeError::Decode {
                                source: decoder_failure(adjusted_for_reader(bytes@, header)),
                            },
                        ),
                        result,
                    )
                },
            },
    {
        let header = ClassHeader::read(bytes)?;
        let decoded = decode_class(bytes, header);
        let result = self.assemble(header, decoded);
        result
    }
}

/// Under best-effort recovery, a valid header always gives a result: the decoded class when
/// decoding succeeded, otherwise a partial result with the header's version and one
/// diagnostic.
pub proof fn law_best_effort_always_answers(
    disassembler: Disassembler,
    header: ClassHeader,
    decoded: Result<Class, FerroBabeError>,
    result: Result<Disassembly, FerroBabeError>,
)
    requires
        disassembler.spec_options().spec_recovery() == RecoveryMode::BestEffort,
        decoded matches Err(e) ==> e is Decode,
        disassembler.assembled(header, decoded, result),
    ensures
        result matches Ok(d) && (d.spec_class() is None ==> same_version(d.spec_version(), header)
            && d.spec_diagnostics().len() == 1),
{
}

/// The recovery mode changes nothing for a class that decoded: both modes give the same
/// complete result.
pub proof fn law_recovery_mode_irrelevant_for_decoded_classes(
    best_effort: Disassembler,
    strict: Disassembler,
    header: ClassHeader,
    class: Class,
    from_best_effort: Result<Disassembly, FerroBabeError>,
    from_strict: Result<Disassembly, FerroBabeError>,
)
    requires
        best_effort.spec_options().spec_recovery() == RecoveryMode::BestEffort,
        strict.spec_options().spec_recovery() == RecoveryMode::Strict,
        best_effort.assembled(header, Ok(class), from_best_effort),
        strict.assembled(header, Ok(class), from_strict),
    ensures
        from_best_effort matches Ok(a) && from_strict matches Ok(b) && a.spec_class() == b.spec_class()
            && a.spec_version().spec_minor() == b.spec_version().spec_minor()
            && a.spec_version().spec_major() == b.spec_version().spec_major()
            && a.spec_diagnostics().len() == 0 && b.spec_diagnostics().len() == 0,
{
}

/// Under strict recovery a decoding failure is returned as it came, and nothing else fails.
pub proof fn law_strict_returns_decoding_failures(
    disassembler: Disassembler,
    header: ClassHeader,
    decoded: Result<Class, FerroBabeError>,
    result: Result<Disassembly, FerroBabeError>,
)
    requires
        disassembler.spec_options().spec_recovery() == RecoveryMode::Strict,
        disassembler.assembled(header, decoded, result),
    ensures
        result is Err <==> decoded is Err,
        decoded matches Err(e) ==> result == Err::<Disassembly, FerroBabeError>(e),
{
}

} // verus!
