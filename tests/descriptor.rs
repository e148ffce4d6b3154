use rustc_probe::{
    attempt_invocation, field_of, first_attempt, next_step, parse_version, Attempt, ProbeStep,
    RunOutcome, Rustc, RustcError, Version,
};

const BANNER: &str = "rustc 1.0.0 (a59de37e9 2015-05-13) (built 2015-05-14)
binary: rustc
commit-hash: a59de37e99060162a2674e3ff45409ac73595c0
commit-date: 2015-05-13
host: x86_64-unknown-linux-gnu
release: 1.0.0
";

fn version(major: u64, minor: u64, patch: u64, pre: &str, build: &str) -> Version {
    Version { major, minor, patch, pre: pre.to_string(), build: build.to_string() }
}

fn describe(banner: &str) -> Result<Rustc, RustcError> {
    Rustc::new("/usr/bin/rustc", true, banner.as_bytes().to_vec())
}

#[test]
fn end_to_end_banner() {
    let d = describe(BANNER).unwrap();
    assert_eq!(d.host, "x86_64-unknown-linux-gnu");
    assert_eq!(d.compiler_version, version(1, 0, 0, "", ""));
    assert_eq!(d.rust_version, version(1, 0, 0, "", ""));
    assert_eq!(d.path, "/usr/bin/rustc");
    assert_eq!(d.verbose_version, BANNER);
    assert!(d.cap_lints);
}

#[test]
fn language_version_line_is_used() {
    let d = describe("host: aarch64-apple-darwin\nrelease: 1.80.1\nrust-version: 1.79.0\n").unwrap();
    assert_eq!(d.host, "aarch64-apple-darwin");
    assert_eq!(d.compiler_version, version(1, 80, 1, "", ""));
    assert_eq!(d.rust_version, version(1, 79, 0, "", ""));
}

#[test]
fn prerelease_and_build_are_kept() {
    let d = describe("release: 1.5.0-nightly.3+abc\nhost: h\n").unwrap();
    assert_eq!(d.compiler_version, version(1, 5, 0, "nightly.3", "abc"));
    assert_eq!(d.rust_version, version(1, 5, 0, "nightly.3", "abc"));
}

#[test]
fn missing_host_is_refused() {
    let r = describe("rustc 1.0.0\nrelease: 1.0.0\n");
    assert_eq!(r, Err(RustcError::MissingField { field: "host".to_string() }));
}

#[test]
fn missing_release_is_refused() {
    let r = describe("host: x86_64-unknown-linux-gnu\n");
    assert_eq!(r, Err(RustcError::MissingField { field: "release".to_string() }));
}

#[test]
fn malformed_release_is_refused() {
    let r = describe("host: x86_64-unknown-linux-gnu\nrelease: not-a-version\n");
    assert_eq!(
        r,
        Err(RustcError::MalformedField {
            field: "release".to_string(),
            value: "not-a-version".to_string(),
        })
    );
}

#[test]
fn malformed_language_version_is_refused() {
    let r = describe("host: h\nrelease: 1.2.3\nrust-version: 1.2\n");
    assert_eq!(
        r,
        Err(RustcError::MalformedField {
            field: "rust-version".to_string(),
            value: "1.2".to_string(),
        })
    );
}

#[test]
fn empty_release_is_malformed() {
    let r = describe("host: h\nrelease: \n");
    assert_eq!(
        r,
        Err(RustcError::MalformedField { field: "release".to_string(), value: String::new() })
    );
}

#[test]
fn host_is_checked_before_release() {
    let r = describe("release: nonsense\n");
    assert_eq!(r, Err(RustcError::MissingField { field: "host".to_string() }));
}

#[test]
fn output_that_is_not_utf8_is_refused() {
    let r = Rustc::new("rustc", false, vec![b'h', 0xff, 0xfe, b'\n']);
    assert_eq!(r, Err(RustcError::Decode));
}

#[test]
fn empty_output_lacks_host() {
    let r = Rustc::new("rustc", false, Vec::new());
    assert_eq!(r, Err(RustcError::MissingField { field: "host".to_string() }));
}

#[test]
fn version_get_reads_other_fields() {
    let banner = format!("{}LLVM version: 17.0.6\n", BANNER);
    let d = describe(&banner).unwrap();
    assert_eq!(d.version_get("LLVM version"), Some("17.0.6"));
    assert_eq!(d.version_get("commit-date"), Some("2015-05-13"));
    assert_eq!(d.version_get("binary"), Some("rustc"));
}

#[test]
fn version_get_host_matches_descriptor() {
    let d = describe(BANNER).unwrap();
    assert_eq!(d.version_get("host"), Some(d.host.as_str()));
}

#[test]
fn version_get_absent_key() {
    let d = describe(BANNER).unwrap();
    assert_eq!(d.version_get("edition"), None);
    assert_eq!(d.version_get("rust-version"), None);
}

#[test]
fn field_lookup_takes_first_line() {
    assert_eq!(field_of("host: a\nhost: b\n", "host"), Some("a"));
}

#[test]
fn field_lookup_needs_colon_and_space() {
    assert_eq!(field_of("host:a\nhost x\n", "host"), None);
    assert_eq!(field_of(" host: a\n", "host"), None);
    assert_eq!(field_of("hostname: a\nhost: b", "host"), Some("b"));
}

#[test]
fn field_lookup_value_may_be_empty_or_spaced() {
    assert_eq!(field_of("host: \n", "host"), Some(""));
    assert_eq!(field_of("host:  two words ", "host"), Some(" two words "));
}

#[test]
fn field_lookup_strips_crlf() {
    assert_eq!(field_of("binary: rustc\r\nhost: x86_64-pc-windows-msvc\r\n", "host"), Some("x86_64-pc-windows-msvc"));
    assert_eq!(field_of("host: a\r", "host"), Some("a\r"));
}

#[test]
fn field_lookup_last_line_without_newline() {
    assert_eq!(field_of("a: 1\nrelease: 2.0.0", "release"), Some("2.0.0"));
}

#[test]
fn field_lookup_in_empty_text() {
    assert_eq!(field_of("", "host"), None);
    assert_eq!(field_of("\n\n", "host"), None);
}

#[test]
fn field_lookup_non_ascii() {
    assert_eq!(field_of("clé: valeur é\nhost: ü\n", "clé"), Some("valeur é"));
    assert_eq!(field_of("clé: valeur é\nhost: ü\n", "host"), Some("ü"));
}

#[test]
fn probe_starts_with_cap_lints() {
    assert_eq!(first_attempt(), Attempt::CapLints);
}

#[test]
fn attempt_command_lines() {
    let inv = attempt_invocation("/opt/rustc", Attempt::CapLints);
    assert_eq!(inv.program, "/opt/rustc");
    assert_eq!(inv.args, vec!["-vV".to_string(), "--cap-lints".to_string(), "allow".to_string()]);
    let inv = attempt_invocation("/opt/rustc", Attempt::Plain);
    assert_eq!(inv.program, "/opt/rustc");
    assert_eq!(inv.args, vec!["-vV".to_string()]);
}

#[test]
fn cap_lints_accepted() {
    let step = next_step("rustc", Attempt::CapLints, RunOutcome::Output(BANNER.as_bytes().to_vec()));
    match step {
        ProbeStep::Done(Ok(d)) => {
            assert!(d.cap_lints);
            assert_eq!(d.host, "x86_64-unknown-linux-gnu");
        }
        other => panic!("unexpected step {:?}", other),
    }
}

#[test]
fn cap_lints_rejected_falls_back() {
    let step = next_step("rustc", Attempt::CapLints, RunOutcome::Failed("exit status: 1".to_string()));
    assert_eq!(step, ProbeStep::Run(Attempt::Plain));
    let plain = "host: i686-pc-windows-gnu\nrelease: 0.12.0\n";
    let step = next_step("rustc", Attempt::Plain, RunOutcome::Output(plain.as_bytes().to_vec()));
    match step {
        ProbeStep::Done(Ok(d)) => {
            assert!(!d.cap_lints);
            assert_eq!(d.host, "i686-pc-windows-gnu");
            assert_eq!(d.verbose_version, plain);
            assert_eq!(d.compiler_version, version(0, 12, 0, "", ""));
        }
        other => panic!("unexpected step {:?}", other),
    }
}

#[test]
fn both_attempts_failing_is_a_spawn_error() {
    let step = next_step("rustc", Attempt::Plain, RunOutcome::Failed("not found".to_string()));
    assert_eq!(step, ProbeStep::Done(Err(RustcError::Spawn { message: "not found".to_string() })));
}

#[test]
fn bad_output_ends_the_probe() {
    let step = next_step("rustc", Attempt::CapLints, RunOutcome::Output(b"release: 1.0.0\n".to_vec()));
    assert_eq!(step, ProbeStep::Done(Err(RustcError::MissingField { field: "host".to_string() })));
}

#[test]
fn probing_twice_agrees() {
    let a = describe(BANNER).unwrap();
    let b = describe(BANNER).unwrap();
    assert_eq!(a, b);
}

#[test]
fn process_targets_the_compiler() {
    let d = describe(BANNER).unwrap();
    let inv = d.process();
    assert_eq!(inv.program, "/usr/bin/rustc");
    assert!(inv.args.is_empty());
}

#[test]
fn parse_version_values() {
    assert_eq!(parse_version("1.2.3"), Some(version(1, 2, 3, "", "")));
    assert_eq!(parse_version("0.0.1-alpha+build.5"), Some(version(0, 0, 1, "alpha", "build.5")));
    assert_eq!(parse_version(""), None);
    assert_eq!(parse_version("1.0"), None);
    assert_eq!(parse_version("1.0.01"), None);
}

#[test]
fn from_versions_uses_given_versions() {
    let text = "host: riscv64gc-unknown-linux-gnu\nrelease: whatever\nrust-version: also\n".to_string();
    let d = Rustc::from_versions(
        "rc",
        false,
        text.clone(),
        Some(version(2, 1, 0, "", "")),
        Some(version(2, 0, 5, "beta", "")),
    )
    .unwrap();
    assert_eq!(d.host, "riscv64gc-unknown-linux-gnu");
    assert_eq!(d.compiler_version, version(2, 1, 0, "", ""));
    assert_eq!(d.rust_version, version(2, 0, 5, "beta", ""));
    assert_eq!(d.verbose_version, text);
    assert_eq!(d.path, "rc");
    assert!(!d.cap_lints);
}

#[test]
fn from_versions_defaults_language_to_release() {
    let text = "host: h\nrelease: x\n".to_string();
    let d = Rustc::from_versions("rc", true, text, Some(version(3, 0, 0, "", "")), Some(version(9, 9, 9, "", "")))
        .unwrap();
    assert_eq!(d.rust_version, version(3, 0, 0, "", ""));
}

#[test]
fn from_versions_reports_unparsed_lines() {
    let text = "host: h\nrelease: 1.0.0\nrust-version: bad\n".to_string();
    let r = Rustc::from_versions("rc", true, text.clone(), None, None);
    assert_eq!(
        r,
        Err(RustcError::MalformedField { field: "release".to_string(), value: "1.0.0".to_string() })
    );
    let r = Rustc::from_versions("rc", true, text, Some(version(1, 0, 0, "", "")), None);
    assert_eq!(
        r,
        Err(RustcError::MalformedField { field: "rust-version".to_string(), value: "bad".to_string() })
    );
}

#[test]
fn from_versions_needs_host_and_release_lines() {
    let r = Rustc::from_versions("rc", true, "release: 1.0.0\n".to_string(), Some(version(1, 0, 0, "", "")), None);
    assert_eq!(r, Err(RustcError::MissingField { field: "host".to_string() }));
    let r = Rustc::from_versions("rc", true, "host: h\n".to_string(), Some(version(1, 0, 0, "", "")), None);
    assert_eq!(r, Err(RustcError::MissingField { field: "release".to_string() }));
}
