use ferro_babe::model::ClassVersion;
use ferro_babe::{
    diagnostic_for, Class, DecodeError, DecodeErrorKind, DiagnosticSeverity, DiagnosticStage,
    Disassembler, DisassemblerBuilder, DisassemblerOptions, FerroBabeError, RecoveryMode,
};
use ferro_babe::ClassHeader;

fn empty_class(major: u16) -> Class {
    Class {
        minor_version: 0,
        major_version: major,
        access_flags: 0,
        name: "A".to_string(),
        super_name: None,
        source_file: None,
        interfaces: vec![],
        fields: vec![],
        methods: vec![],
        constant_pool: vec![],
    }
}

fn failure(kind: DecodeErrorKind) -> DecodeError {
    DecodeError { kind, message: "broken".to_string() }
}

#[test]
fn defaults_use_best_effort_recovery() {
    assert_eq!(RecoveryMode::default(), RecoveryMode::BestEffort);
    assert_eq!(DisassemblerOptions::default().recovery(), RecoveryMode::BestEffort);
    assert_eq!(Disassembler::default().options().recovery(), RecoveryMode::BestEffort);
    assert_eq!(Disassembler::builder().build().options().recovery(), RecoveryMode::BestEffort);
    assert_eq!(DisassemblerBuilder::default().build().options().recovery(), RecoveryMode::BestEffort);
}

#[test]
fn builder_recovery_replaces_the_previous_mode() {
    let strict = Disassembler::builder().recovery(RecoveryMode::Strict).build();
    assert_eq!(strict.options().recovery(), RecoveryMode::Strict);
    let back = Disassembler::builder()
        .recovery(RecoveryMode::Strict)
        .recovery(RecoveryMode::BestEffort)
        .build();
    assert_eq!(back.options().recovery(), RecoveryMode::BestEffort);
    let options = *strict.options();
    assert_eq!(Disassembler::new(options).options().recovery(), RecoveryMode::Strict);
}

#[test]
fn assemble_completes_decoded_classes_in_both_modes() {
    let header = ClassHeader { minor_version: 0, major_version: 61 };
    for mode in [RecoveryMode::BestEffort, RecoveryMode::Strict] {
        let disassembler = Disassembler::builder().recovery(mode).build();
        let result = disassembler.assemble(header, Ok(empty_class(61))).unwrap();
        assert!(result.is_complete());
        assert!(result.diagnostics().is_empty());
        assert_eq!(result.version(), ClassVersion::new(0, 61));
        assert_eq!(result.class().unwrap().name(), "A");
    }
}

#[test]
fn assemble_turns_failures_into_partial_results_under_best_effort() {
    let header = ClassHeader { minor_version: 2, major_version: 55 };
    let failed = Err(FerroBabeError::Decode {
        source: failure(DecodeErrorKind::InvalidOpcode { opcode: 0xcb, offset: 17 }),
    });
    let result = Disassembler::default().assemble(header, failed).unwrap();
    assert!(!result.is_complete());
    assert_eq!(result.version(), ClassVersion::new(2, 55));
    let diagnostics = result.diagnostics();
    assert_eq!(diagnostics.len(), 1);
    assert_eq!(diagnostics[0].severity(), DiagnosticSeverity::Error);
    assert_eq!(diagnostics[0].stage(), DiagnosticStage::Code);
    assert_eq!(diagnostics[0].offset(), Some(17));
    assert_eq!(diagnostics[0].message(), "broken");
}

#[test]
fn assemble_keeps_failures_under_strict_recovery() {
    let header = ClassHeader { minor_version: 0, major_version: 55 };
    let strict = Disassembler::builder().recovery(RecoveryMode::Strict).build();
    let error = FerroBabeError::Decode { source: failure(DecodeErrorKind::Utf8Error) };
    assert_eq!(strict.assemble(header, Err(error.clone())).err(), Some(error));
    let other = FerroBabeError::Format;
    assert_eq!(Disassembler::default().assemble(header, Err(other.clone())).err(), Some(other));
}

#[test]
fn diagnostics_name_the_failing_stage() {
    let stages = [
        (DecodeErrorKind::UnexpectedEof, DiagnosticStage::Header),
        (DecodeErrorKind::InvalidMagic(1), DiagnosticStage::Header),
        (DecodeErrorKind::InvalidClassVersion(99), DiagnosticStage::Header),
        (DecodeErrorKind::InvalidConstantPoolTag(2), DiagnosticStage::ConstantPool),
        (DecodeErrorKind::InvalidIndex(4), DiagnosticStage::ConstantPool),
        (DecodeErrorKind::Utf8Error, DiagnosticStage::ConstantPool),
        (DecodeErrorKind::InvalidAttribute, DiagnosticStage::Attribute),
    ];
    for (kind, stage) in stages {
        let diagnostic = diagnostic_for(&failure(kind));
        assert_eq!(diagnostic.stage(), stage);
        assert_eq!(diagnostic.offset(), None);
        assert_eq!(diagnostic.severity(), DiagnosticSeverity::Error);
    }
}

#[test]
fn error_messages_describe_each_error() {
    assert_eq!(
        FerroBabeError::InputTooShort { required: 8, actual: 3 }.message(),
        "class input is too short: expected at least 8 bytes, found 3"
    );
    assert_eq!(
        FerroBabeError::InvalidMagic { found: 0xBEEF }.message(),
        "input is not a Java class file: found magic 0x0000beef"
    );
    assert_eq!(
        FerroBabeError::UnsupportedVersion { major: 71, minor: 2 }.message(),
        "unsupported Java class-file version 71.2; FerroBabe supports 45.0 through 70.65535"
    );
    assert_eq!(
        FerroBabeError::Decode { source: failure(DecodeErrorKind::InvalidAttribute) }.message(),
        "class-file decoding failed: broken"
    );
    assert_eq!(FerroBabeError::Format.message(), "formatted output could not be written");
}

#[test]
fn last_recovery_mode_wins() {
    let replaced = Disassembler::builder()
        .recovery(RecoveryMode::Strict)
        .recovery(RecoveryMode::BestEffort)
        .build();
    let direct = Disassembler::builder().recovery(RecoveryMode::BestEffort).build();
    assert_eq!(replaced.options(), direct.options());
    assert_eq!(replaced.options().recovery(), RecoveryMode::BestEffort);
}
