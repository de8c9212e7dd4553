use bpfctl::bpf::ParseError;
use bpfctl::cli::CommandError;
use bpfctl::report::{get_separator, loaded_message, pulled_message, unloaded_message};
use bpfctl::table::TableError;
use bpfctl::text::{decimal_string, signed_decimal_string};

#[test]
fn parse_error_messages() {
    assert_eq!(
        ParseError::InvalidProgramType { program: 40 }.message(),
        "40 is not a valid program type"
    );
    assert_eq!(
        ParseError::InvalidProceedOnName { proceedon: "bogus".to_string() }.message(),
        "bogus is not a valid proceed-on value"
    );
    assert_eq!(
        ParseError::InvalidProceedOnValue { proceedon: -7 }.message(),
        "-7 is not a valid proceed-on value"
    );
    assert_eq!(
        ParseError::InvalidPullPolicyName { pull_policy: "Sometimes".to_string() }.message(),
        "Invalid bytecode image pull policy: Sometimes"
    );
    assert_eq!(
        ParseError::InvalidPullPolicyValue { pull_policy: 3 }.message(),
        "Invalid bytecode image pull policy: 3"
    );
}

#[test]
fn command_error_messages() {
    assert_eq!(
        CommandError::InvalidDirection { direction: "up".to_string() }.message(),
        "up is not a valid direction"
    );
    assert_eq!(
        CommandError::ProceedOn(ParseError::InvalidProceedOnName { proceedon: "x".to_string() }).message(),
        "error parsing proceed_on x is not a valid proceed-on value"
    );
    assert_eq!(CommandError::KprobeNamespaceUnsupported.message(), "kprobe namespace option not supported yet");
    assert_eq!(CommandError::UprobeNamespaceUnsupported.message(), "uprobe namespace option not supported yet");
    assert_eq!(CommandError::UnknownCommand.message(), "Unknown Command");
    assert_eq!(CommandError::UnknownAttachCommand.message(), "Unknown command");
    assert_eq!(
        CommandError::KretprobeOffsetUnsupported.message(),
        "kprobe offset option not allowed for kretprobes"
    );
    assert_eq!(
        CommandError::RegistryAuthNotBase64 { reason: "Invalid padding".to_string() }.message(),
        "Invalid padding"
    );
    assert_eq!(
        CommandError::RegistryAuthNotUtf8 { reason: "incomplete utf-8 byte sequence from index 0".to_string() }
            .message(),
        "incomplete utf-8 byte sequence from index 0"
    );
}

#[test]
fn success_messages() {
    assert_eq!(loaded_message(6213), "6213");
    assert_eq!(loaded_message(0), "0");
    assert_eq!(unloaded_message(4294967295), "Successfully unloaded program 4294967295");
    assert_eq!(pulled_message(), "Successfully downloaded bytecode");
    assert_eq!(get_separator(), "-------");
}

#[test]
fn decimal_rendering() {
    assert_eq!(decimal_string(0), "0");
    assert_eq!(decimal_string(10), "10");
    assert_eq!(decimal_string(18446744073709551615), "18446744073709551615");
    assert_eq!(signed_decimal_string(-1), "-1");
    assert_eq!(signed_decimal_string(0), "0");
    assert_eq!(signed_decimal_string(i64::MIN), "-9223372036854775808");
    assert_eq!(signed_decimal_string(i64::MAX), "9223372036854775807");
}

#[test]
fn table_error_messages() {
    assert_eq!(
        TableError::ProceedOn(ParseError::InvalidProceedOnValue { proceedon: 9 }).message(),
        "error parsing proceed_on 9 is not a valid proceed-on value"
    );
    assert_eq!(
        TableError::ProgramType(ParseError::InvalidProgramType { program: 99 }).message(),
        "99 is not a valid program type"
    );
}
