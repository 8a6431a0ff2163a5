use vstd::prelude::*;

use crate::Disassembler;

verus! {

/// Selects how the disassembler handles a decoding failure after the header.
#[derive(Debug, Clone, Copy, PartialEq, Eq, Structural)]
pub enum RecoveryMode {
    /// Return the readable header and a diagnostic instead of discarding all parse information.
    BestEffort,
    /// Return the decoding failure as an error.
    Strict,
}

impl Default for RecoveryMode {
    fn default() -> (mode: Self)
        ensures
            mode == RecoveryMode::BestEffort,
    {
        RecoveryMode::BestEffort
    }
}

/// Immutable configuration used to create a [`Disassembler`].
#[derive(Debug, Clone, Copy, PartialEq, Eq, Structural)]
pub struct DisassemblerOptions {
    recovery: RecoveryMode,
}

impl Default for DisassemblerOptions {
    fn default() -> (options: Self)
        ensures
            options.spec_recovery() == RecoveryMode::BestEffort,
    {
        DisassemblerOptions { recovery: RecoveryMode::BestEffort }
    }
}

impl DisassemblerOptions {
    /// The recovery mode these options hold.
    pub closed spec fn spec_recovery(self) -> RecoveryMode {
        self.recovery
    }

    /// Returns the configured recovery mode.
    #[must_use]
    pub fn recovery(&self) -> (mode: RecoveryMode)
        ensures
            mode == self.spec_recovery(),
    {
        self.recovery
    }
}

/// Configures a [`Disassembler`] before construction.
#[derive(Debug, Clone, Copy)]
pub struct DisassemblerBuilder {
    options: DisassemblerOptions,
}

impl Default for DisassemblerBuilder {
    fn default() -> (builder: Self)
        ensures
            builder.spec_options().spec_recovery() == RecoveryMode::BestEffort,
    {
        DisassemblerBuilder { options: DisassemblerOptions::default() }
    }
}

impl DisassemblerBuilder {
    /// The options that [`Self::build`] hands to the disassembler.
    pub closed spec fn spec_options(self) -> DisassemblerOptions {
        self.options
    }

    /// Sets the recovery mode used by the resulting disassembler.
    ///
    /// The supplied mode replaces the builder's previous recovery mode.
    #[must_use]
    pub fn recovery(self, recovery: RecoveryMode) -> (builder: Self)
        ensures
            builder.spec_options().spec_recovery() == recovery,
    {
        let mut builder = self;
        builder.options.recovery = recovery;
        builder
    }

    /// Builds a [`Disassembler`] from these options.
    #[must_use]
    pub fn build(self) -> (disassembler: Disassembler)
        ensures
            disassembler.spec_options() == self.spec_options(),
    {
        Disassembler::new(self.options)
    }
}

/// Options are fixed by their recovery mode: two options with the same mode are equal.
pub proof fn law_options_are_their_recovery_mode(a: DisassemblerOptions, b: DisassemblerOptions)
    requires
        a.spec_recovery() == b.spec_recovery(),
    ensures
        a == b,
{
}

/// A builder is fixed by the last recovery mode set on it: a mode set with
/// [`DisassemblerBuilder::recovery`] replaces every earlier one, so two builders whose modes
/// agree are equal and hand equal options to the disassemblers they build.
pub proof fn law_last_recovery_mode_wins(a: DisassemblerBuilder, b: DisassemblerBuilder)
    requires
        a.spec_options().spec_recovery() == b.spec_options().spec_recovery(),
    ensures
        a.spec_options() == b.spec_options(),
        a == b,
{
}

} // verus!
