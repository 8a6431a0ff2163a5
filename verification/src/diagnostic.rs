use vstd::prelude::*;

verus! {

/// How serious a diagnostic is.
#[derive(Debug, Clone, Copy, PartialEq, Eq, Structural)]
pub enum DiagnosticSeverity {
    Warning,
    Error,
}

/// The decoding stage a diagnostic refers to.
#[derive(Debug, Clone, Copy, PartialEq, Eq, Structural)]
pub enum DiagnosticStage {
    Header,
    ConstantPool,
    Member,
    Attribute,
    Code,
}

/// A problem noticed while reading a class file.
#[derive(Debug, Clone, PartialEq, Eq)]
pub struct Diagnostic {
    severity: DiagnosticSeverity,
    stage: DiagnosticStage,
    offset: Option<usize>,
    message: String,
}

impl Diagnostic {
    /// Builds a diagnostic from its parts.
    pub(crate) fn new(
        severity: DiagnosticSeverity,
        stage: DiagnosticStage,
        offset: Option<usize>,
        message: String,
    ) -> (diagnostic: Self)
        ensures
            diagnostic.spec_severity() == severity,
            diagnostic.spec_stage() == stage,
            diagnostic.spec_offset() == offset,
            diagnostic.spec_message() == message@,
    {
        Diagnostic { severity, stage, offset, message }
    }

    pub closed spec fn spec_severity(self) -> DiagnosticSeverity {
        self.severity
    }

    pub closed spec fn spec_stage(self) -> DiagnosticStage {
        self.stage
    }

    pub closed spec fn spec_offset(self) -> Option<usize> {
        self.offset
    }

    pub closed spec fn spec_message(self) -> Seq<char> {
        self.message@
    }

    #[must_use]
    pub fn severity(&self) -> (severity: DiagnosticSeverity)
        ensures
            severity == self.spec_severity(),
    {
        self.severity
    }

    #[must_use]
    pub fn stage(&self) -> (stage: DiagnosticStage)
        ensures
            stage == self.spec_stage(),
    {
        self.stage
    }

    #[must_use]
    pub fn offset(&self) -> (offset: Option<usize>)
        ensures
            offset == self.spec_offset(),
    {
        self.offset
    }

    #[must_use]
    pub fn message(&self) -> (message: &str)
        ensures
            message@ == self.spec_message(),
    {
        self.message.as_str()
    }
}

} // verus!
