//! The descriptor of a compiler: what its version banner says of it.
use vstd::prelude::*;
use vstd::utf8::{decode_utf8, valid_utf8};

use crate::banner::{field_of, field_value, is_field_line, lemma_first_field_none, lines};
use crate::version::{parse_version, semver_parse, Version, VersionSpec};

verus! {

/// The key of the banner line that names the host triple.
pub open spec fn host_key() -> Seq<char> {
    seq!['h', 'o', 's', 't']
}

/// The key of the banner line that gives the compiler's version.
pub open spec fn release_key() -> Seq<char> {
    seq!['r', 'e', 'l', 'e', 'a', 's', 'e']
}

/// The key of the banner line that gives the language version.
pub open spec fn rust_version_key() -> Seq<char> {
    seq!['r', 'u', 's', 't', '-', 'v', 'e', 'r', 's', 'i', 'o', 'n']
}

/// Why a compiler could not be described.
#[derive(Clone, Debug, PartialEq, Eq)]
pub enum RustcError {
    /// The compiler could not be run, with either set of flags.
    Spawn { message: String },
    /// The compiler's output is not UTF-8 text.
    Decode,
    /// The banner has no line for this field.
    MissingField { field: String },
    /// The banner's line for this field holds no valid value.
    MalformedField { field: String, value: String },
}

/// What a [`RustcError`] says, as mathematical values.
pub enum ProbeFault {
    Spawn(Seq<char>),
    Decode,
    Missing(Seq<char>),
    Malformed(Seq<char>, Seq<char>),
}

impl View for RustcError {
    type V = ProbeFault;

    open spec fn view(&self) -> ProbeFault {
        match self {
            RustcError::Spawn { message } => ProbeFault::Spawn(message@),
            RustcError::Decode => ProbeFault::Decode,
            RustcError::MissingField { field } => ProbeFault::Missing(field@),
            RustcError::MalformedField { field, value } => ProbeFault::Malformed(field@, value@),
        }
    }
}

/// The version that the SemVer grammar reads from the banner's line for
/// `key`, where it has one.
pub open spec fn parsed_field(text: Seq<char>, key: Seq<char>) -> Option<VersionSpec> {
    match field_value(text, key) {
        Some(v) => semver_parse(v),
        None => None,
    }
}

/// The first thing wrong with the banner `text`, given `release` and
/// `language`, the versions read from its release and language-version
/// lines. Checked in this order: a host line, a release line, a release
/// that is a version, and a language version that, where the banner gives
/// one, is a version.
pub open spec fn fields_fault(
    text: Seq<char>,
    release: Option<VersionSpec>,
    language: Option<VersionSpec>,
) -> Option<ProbeFault> {
    if field_value(text, host_key()) is None {
        Some(ProbeFault::Missing(host_key()))
    } else if field_value(text, release_key()) is None {
        Some(ProbeFault::Missing(release_key()))
    } else if release is None {
        Some(ProbeFault::Malformed(release_key(), field_value(text, release_key())->0))
    } else if field_value(text, rust_version_key()) is Some && language is None {
        Some(ProbeFault::Malformed(rust_version_key(), field_value(text, rust_version_key())->0))
    } else {
        None
    }
}

/// The first thing wrong with the banner `text`.
pub open spec fn banner_fault(text: Seq<char>) -> Option<ProbeFault> {
    fields_fault(text, parsed_field(text, release_key()), parsed_field(text, rust_version_key()))
}

/// The first thing wrong with a compiler's raw output `out`.
pub open spec fn output_fault(out: Seq<u8>) -> Option<ProbeFault> {
    if !valid_utf8(out) {
        Some(ProbeFault::Decode)
    } else {
        banner_fault(decode_utf8(out))
    }
}

/// The view of an optional version.
pub open spec fn opt_view(v: Option<Version>) -> Option<VersionSpec> {
    match v {
        Some(x) => Some(x@),
        None => None,
    }
}

/// A program and its arguments, ready to be run.
#[derive(Clone, Debug, PartialEq, Eq)]
pub struct Invocation {
    pub program: String,
    pub args: Vec<String>,
}

/// A compiler, as its verbose version banner describes it.
#[derive(Clone, Debug, PartialEq, Eq)]
pub struct Rustc {
    /// Where the compiler is.
    pub path: String,
    /// The whole banner, kept for lookups of other fields.
    pub verbose_version: String,
    /// The compiler's own version, from the `release` line.
    pub compiler_version: Version,
    /// The language version: the `rust-version` line, else the release.
    pub rust_version: Version,
    /// The host triple, from the `host` line.
    pub host: String,
    /// Whether the compiler accepted `--cap-lints`.
    pub cap_lints: bool,
}

/// What a [`Rustc`] holds, as mathematical values.
pub struct RustcSpec {
    pub path: Seq<char>,
    pub verbose_version: Seq<char>,
    pub compiler_version: VersionSpec,
    pub rust_version: VersionSpec,
    pub host: Seq<char>,
    pub cap_lints: bool,
}

impl View for Rustc {
    type V = RustcSpec;

    open spec fn view(&self) -> RustcSpec {
        RustcSpec {
            path: self.path@,
            verbose_version: self.verbose_version@,
            compiler_version: self.compiler_version@,
            rust_version: self.rust_version@,
            host: self.host@,
            cap_lints: self.cap_lints,
        }
    }
}

/// Relies on `String::from_utf8`: it accepts exactly the valid UTF-8 byte
/// sequences, and the string then holds the characters they encode.
#[verifier::external_body]
fn string_from_utf8(bytes: Vec<u8>) -> (r: Result<String, std::string::FromUtf8Error>)
    ensures
        match r {
            Ok(s) => valid_utf8(bytes@) && s@ == decode_utf8(bytes@),
            Err(_) => !valid_utf8(bytes@),
        },
{
    String::from_utf8(bytes)
}

/// The error of `String::from_utf8`, carried without a look inside.
#[verifier::external_type_specification]
#[verifier::external_body]
pub struct ExFromUtf8Error(std::string::FromUtf8Error);

impl Rustc {
    /// Whether the host and both versions are those that the banner gives.
    pub open spec fn wf(&self) -> bool {
        let text = self.verbose_version@;
        &&& field_value(text, host_key()) == Some(self.host@)
        &&& field_value(text, release_key()) is Some
        &&& semver_parse(field_value(text, release_key())->0) == Some(self.compiler_version@)
        &&& match field_value(text, rust_version_key()) {
            Some(w) => semver_parse(w) == Some(self.rust_version@),
            None => self.rust_version@ == self.compiler_version@,
        }
    }

    /// Describes the compiler at `path` from its banner `text`, given
    /// `release` and `language`, the versions read from the banner's release
    /// and language-version lines (`None` where a line is absent or holds no
    /// version). The language version defaults to the release.
    pub fn from_versions(
        path: &str,
        cap_lints: bool,
        text: String,
        release: Option<Version>,
        language: Option<Version>,
    ) -> (r: Result<Rustc, RustcError>)
        ensures
            match r {
                Ok(d) => {
                    &&& fields_fault(text@, opt_view(release), opt_view(language)) is None
                    &&& d.path@ == path@
                    &&& d.cap_lints == cap_lints
                    &&& d.verbose_version@ == text@
                    &&& d.host@ == field_value(text@, host_key())->0
                    &&& d.compiler_version@ == release->0@
                    &&& d.rust_version@ == if field_value(text@, rust_version_key()) is Some {
                        language->0@
                    } else {
                        release->0@
                    }
                },
                Err(e) => fields_fault(text@, opt_view(release), opt_view(language)) == Some(e@),
            },
    {
        proof {
            reveal_strlit("host");
            reveal_strlit("release");
            reveal_strlit("rust-version");
            assert("host"@ =~= host_key());
            assert("release"@ =~= release_key());
            assert("rust-version"@ =~= rust_version_key());
        }
        let host = match field_of(text.as_str(), "host") {
            Some(h) => h.to_owned(),
            None => return Err(RustcError::MissingField { field: "host".to_owned() }),
        };
        let compiler_version = match field_of(text.as_str(), "release") {
            None => return Err(RustcError::MissingField { field: "release".to_owned() }),
            Some(v) => match release {
                Some(rv) => rv,
                None => {
                    return Err(
                        RustcError::MalformedField {
                            field: "release".to_owned(),
                            value: v.to_owned(),
                        },
                    )
                },
            },
        };
        let rust_version = match field_of(text.as_str(), "rust-version") {
            Some(w) => match language {
                Some(lv) => lv,
                None => {
                    return Err(
                        RustcError::MalformedField {
                            field: "rust-version".to_owned(),
                            value: w.to_owned(),
                        },
                    )
                },
            },
            None => compiler_version.duplicate(),
        };
        Ok(
            Rustc {
                path: path.to_owned(),
                verbose_version: text,
                compiler_version,
                rust_version,
                host,
                cap_lints,
            },
        )
    }

    /// Describes the compiler at `path` from `output`, what it printed for a
    /// verbose version query; `cap_lints` tells whether that query carried
    /// `--cap-lints`. Fails where the output is no UTF-8 text, lacks a host
    /// or release line, or holds a version that does not parse.
    pub fn new(path: &str, cap_lints: bool, output: Vec<u8>) -> (r: Result<Rustc, RustcError>)
        ensures
            match r {
                Ok(d) => {
                    &&& output_fault(output@) is None
                    &&& d.wf()
                    &&& d.path@ == path@
                    &&& d.cap_lints == cap_lints
                    &&& d.verbose_version@ == decode_utf8(output@)
                },
                Err(e) => output_fault(output@) == Some(e@),
            },
    {
        let verbose_version = match string_from_utf8(output) {
            Ok(s) => s,
            Err(_) => return Err(RustcError::Decode),
        };
        proof {
            reveal_strlit("release");
            reveal_strlit("rust-version");
            assert("release"@ =~= release_key());
            assert("rust-version"@ =~= rust_version_key());
        }
        let release = match field_of(verbose_version.as_str(), "release") {
            Some(v) => parse_version(v),
            None => None,
        };
        let language = match field_of(verbose_version.as_str(), "rust-version") {
            Some(w) => parse_version(w),
            None => None,
        };
        Rustc::from_versions(path, cap_lints, verbose_version, release, language)
    }

    /// The value that the banner gives for `key`, if a line gives one.
    pub fn version_get<'a>(&'a self, key: &str) -> (r: Option<&'a str>)
        ensures
            match r {
                Some(v) => field_value(self.verbose_version@, key@) == Some(v@),
                None => field_value(self.verbose_version@, key@) is None,
            },
    {
        field_of(self.verbose_version.as_str(), key)
    }

    /// An invocation of this compiler, with no arguments yet.
    pub fn process(&self) -> (r: Invocation)
        ensures
            r.program@ == self.path@,
            r.args@.len() == 0,
    {
        Invocation { program: self.path.clone(), args: Vec::new() }
    }
}

/// A banner with a host line, and a release line and language-version line
/// (where there is one) that hold versions, has no fault; and every
/// descriptor of it reports that host, that release, and the language
/// version, or the release where the banner gives none.
pub proof fn lemma_banner_described(text: Seq<char>, h: Seq<char>, v: Seq<char>, pv: VersionSpec)
    requires
        field_value(text, host_key()) == Some(h),
        field_value(text, release_key()) == Some(v),
        semver_parse(v) == Some(pv),
        field_value(text, rust_version_key()) is Some ==> semver_parse(
            field_value(text, rust_version_key())->0,
        ) is Some,
    ensures
        banner_fault(text) is None,
        forall|d: Rustc|
            d.verbose_version@ == text && #[trigger] d.wf() ==> {
                &&& d.host@ == h
                &&& d.compiler_version@ == pv
                &&& d.rust_version@ == match field_value(text, rust_version_key()) {
                    Some(w) => semver_parse(w)->0,
                    None => pv,
                }
            },
{
}

/// A banner none of whose lines is a host line is refused for want of one.
pub proof fn lemma_missing_host(text: Seq<char>)
    requires
        forall|i: int| 0 <= i < lines(text).len() ==> !is_field_line(#[trigger] lines(text)[i], host_key()),
    ensures
        banner_fault(text) == Some(ProbeFault::Missing(host_key())),
{
    lemma_first_field_none(lines(text), host_key());
}

/// Looking up `host` in a descriptor's banner gives its host triple.
pub proof fn lemma_host_lookup(d: Rustc)
    requires
        d.wf(),
    ensures
        field_value(d.verbose_version@, host_key()) == Some(d.host@),
{
}

/// Two descriptors of one compiler, from one banner and one outcome of the
/// `--cap-lints` attempt, hold the same values.
pub proof fn lemma_descriptor_determined(d1: Rustc, d2: Rustc)
    requires
        d1.wf(),
        d2.wf(),
        d1.path@ == d2.path@,
        d1.verbose_version@ == d2.verbose_version@,
        d1.cap_lints == d2.cap_lints,
    ensures
        d1@ == d2@,
{
}

} // verus!
