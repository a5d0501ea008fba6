//! Drive the cargo toolchain as a subprocess to build binaries, examples and
//! test artifacts, and discover the runnable tests inside what was built.
//!
//! The crate models the toolchain's structured output with plain value types,
//! routes each decoded record into the accumulator of the request being
//! served, enforces the artifact-count rule of each request shape, classifies
//! failure text, and parses the terse listing a test binary prints.
//!
//! The subprocess work itself (spawning cargo or a built test binary and
//! draining its pipes) is left to the embedding application, which feeds the
//! stream here line by line and hands the collected outcome back in.

use cargo_metadata::diagnostic::DiagnosticLevel;
use vstd::prelude::*;

/// Compile binaries and examples (what `cargo run` can start).
pub mod bin;

verus! {

// ---------------------------------------------------------------------------
// The structured-output format flag
// ---------------------------------------------------------------------------
/// The argument that asks the toolchain for newline-delimited JSON records
/// whose rendered diagnostics keep their embedded ANSI colour codes.
pub open spec fn spec_msg_format() -> Seq<char> {
    "--message-format=json-diagnostic-rendered-ansi"@
}

/// The executable counterpart of [`spec_msg_format`].
pub fn msg_format() -> (r: String)
    ensures
        r@ == spec_msg_format(),
{
    "--message-format=json-diagnostic-rendered-ansi".to_owned()
}

// ---------------------------------------------------------------------------
// Plain models of what the toolchain reports
// ---------------------------------------------------------------------------
/// The target descriptor the toolchain reports for one compiled output.
#[derive(Debug, Clone, PartialEq, Eq)]
pub struct Target {
    /// Name as given in the manifest or generated from the file name.
    pub name: String,
    /// The kinds of the target (`bin`, `lib`, `example`, `test`, ...).
    pub kind: Vec<String>,
    /// Path to the main source file of the target.
    pub src_path: String,
}

/// The compilation profile the toolchain reports for one compiled output.
#[derive(Debug, Clone, PartialEq, Eq)]
pub struct ArtifactProfile {
    /// Optimization level; `"0"` is the baseline of a non-release build.
    pub opt_level: String,
    /// Whether the output was compiled in the test profile.
    pub test: bool,
}

/// One compiled output as the toolchain's structured stream reports it.
#[derive(Debug, Clone, PartialEq, Eq)]
pub struct BuildArtifact {
    /// The package this artifact belongs to.
    pub package_id: String,
    /// The target this artifact was compiled for.
    pub target: Target,
    /// The profile this artifact was compiled with.
    pub profile: ArtifactProfile,
    /// The enabled features for this artifact.
    pub features: Vec<String>,
    /// The full paths to the generated files.
    pub filenames: Vec<String>,
    /// Path to the executable file, absent for non-executable outputs.
    pub executable: Option<String>,
    /// True when the files were already generated by an earlier build.
    pub fresh: bool,
}

/// Like [`BuildArtifact`], but always has an executable.
#[derive(Debug, Clone, PartialEq, Eq)]
pub struct ExecutableArtifact {
    /// The package this artifact belongs to.
    pub package_id: String,
    /// The target this artifact was compiled for.
    pub target: Target,
    /// The profile this artifact was compiled with.
    pub profile: ArtifactProfile,
    /// The enabled features for this artifact.
    pub features: Vec<String>,
    /// The full paths to the generated files.
    pub filenames: Vec<String>,
    /// Path to the executable file.
    pub executable: String,
    /// True when the files were already generated by an earlier build.
    pub fresh: bool,
}

/// The [`ExecutableArtifact`] that stands for an executable-bearing
/// [`BuildArtifact`]: the same fields, with the executable path unwrapped.
pub open spec fn exec_of(a: BuildArtifact) -> ExecutableArtifact {
    ExecutableArtifact {
        package_id: a.package_id,
        target: a.target,
        profile: a.profile,
        features: a.features,
        filenames: a.filenames,
        executable: a.executable.unwrap(),
        fresh: a.fresh,
    }
}

impl ExecutableArtifact {
    /// Narrow a reported artifact to one that is guaranteed runnable; an
    /// artifact without an executable path is not representable and yields
    /// nothing.
    pub fn maybe_from(art: BuildArtifact) -> (r: Option<Self>)
        ensures
            match art.executable {
                Some(_) => r matches Some(x) && x == exec_of(art),
                None => r is None,
            },
    {
        let BuildArtifact { package_id, target, profile, features, filenames, executable, fresh } =
            art;
        match executable {
            Some(exe) => Some(
                ExecutableArtifact {
                    package_id,
                    target,
                    profile,
                    features,
                    filenames,
                    executable: exe,
                    fresh,
                },
            ),
            None => None,
        }
    }
}

/// The severity of one diagnostic, as the toolchain labels it.
#[derive(Debug, Clone, Copy, PartialEq, Eq)]
pub enum Severity {
    /// Internal compiler error.
    Ice,
    /// Error.
    Error,
    /// Warning.
    Warning,
    /// Failure note.
    FailureNote,
    /// Note.
    Note,
    /// Help.
    Help,
    /// A severity this crate does not recognise.
    Unknown,
}

/// One source span a diagnostic points at, as plain values.
#[derive(Debug, Clone, PartialEq, Eq)]
pub struct DiagnosticSpan {
    /// The file name or the macro name the diagnostic comes from.
    pub file_name: String,
    /// The byte offset in the file where the span starts.
    pub byte_start: u32,
    /// The byte offset in the file where the span ends.
    pub byte_end: u32,
    /// The first line of the span, 1-based.
    pub line_start: usize,
    /// The last line of the span, 1-based.
    pub line_end: usize,
    /// The first column of the span, 1-based, in characters.
    pub column_start: usize,
    /// The last column of the span, 1-based, in characters.
    pub column_end: usize,
    /// Whether this span is the point where the problem occurred.
    pub is_primary: bool,
    /// The label placed at this location, if any.
    pub label: Option<String>,
}

/// One diagnostic record of the toolchain — its severity, message text,
/// source spans and rendered form as plain values; the engine records it
/// without interpreting it.
#[derive(Debug, Clone, PartialEq, Eq)]
pub struct Diagnostic {
    /// The error message of the diagnostic.
    pub message: String,
    /// The severity the toolchain assigned.
    pub severity: Severity,
    /// The source spans the diagnostic points at.
    pub spans: Vec<DiagnosticSpan>,
    /// The fully rendered message, when the toolchain supplied one.
    pub rendered: Option<String>,
}

/// One record of the toolchain's structured output stream, sorted into the
/// envelopes the engine recognises.
#[derive(Debug, Clone, PartialEq, Eq)]
pub enum CargoMessage {
    /// The compiler wants to display a message.
    Diagnostic(Diagnostic),
    /// The compiler generated an artifact.
    Artifact(BuildArtifact),
    /// Any other envelope; ignored for forward compatibility.
    Other,
}

/// The diagnostics a message stream carries, in stream order.
pub open spec fn streamed_diagnostics(msgs: Seq<CargoMessage>) -> Seq<Diagnostic>
    decreases msgs.len(),
{
    if msgs.len() == 0 {
        Seq::empty()
    } else {
        let rest = streamed_diagnostics(msgs.drop_last());
        match msgs.last() {
            CargoMessage::Diagnostic(d) => rest.push(d),
            _ => rest,
        }
    }
}

// ---------------------------------------------------------------------------
// Decoding one line of the structured stream (trusted)
// ---------------------------------------------------------------------------
#[verifier::external_type_specification]
#[verifier::external_body]
pub struct ExCargoMessage(cargo_metadata::Message);

#[verifier::external_type_specification]
#[verifier::external_body]
pub struct ExCompilerMessage(cargo_metadata::CompilerMessage);

/// The record one line of the toolchain's structured stream decodes to: the
/// decode is a function of the line alone.
pub uninterp spec fn decoded_message(line: Seq<char>) -> CargoMessage;

/// Relies on `cargo_metadata::Message::parse_stream` to decode one line of
/// the toolchain's JSON stream; a line that decodes to nothing comes back
/// empty.
#[verifier::external_body]
fn read_message(line: &str) -> Option<cargo_metadata::Message> {
    match cargo_metadata::Message::parse_stream(line.as_bytes()).next() {
        Some(Ok(m)) => Some(m),
        _ => None,
    }
}

/// Relies on the field layout of `cargo_metadata::CompilerMessage`: copies
/// the severity, the message text, the source spans and the rendered form
/// into plain values, one for one.
#[verifier::external_body]
fn convert_diagnostic(m: cargo_metadata::CompilerMessage) -> Diagnostic {
    let severity = match m.message.level {
        DiagnosticLevel::Ice => Severity::Ice, DiagnosticLevel::Error => Severity::Error,
        DiagnosticLevel::Warning => Severity::Warning, DiagnosticLevel::Note => Severity::Note,
        DiagnosticLevel::FailureNote => Severity::FailureNote, DiagnosticLevel::Help => Severity::Help,
        _ => Severity::Unknown,
    };
    let spans = m.message.spans.into_iter().map(|s| DiagnosticSpan {
        file_name: s.file_name, byte_start: s.byte_start, byte_end: s.byte_end,
        line_start: s.line_start, line_end: s.line_end, column_start: s.column_start,
        column_end: s.column_end, is_primary: s.is_primary, label: s.label,
    }).collect();
    Diagnostic { message: m.message.message, severity, spans, rendered: m.message.rendered }
}

/// Relies on the field layout of `cargo_metadata::Message`: sorts the record
/// into the envelopes the engine recognises and copies every field the
/// engine reads into plain values, one for one.
#[verifier::external_body]
fn convert_message(msg: cargo_metadata::Message) -> CargoMessage {
    match msg {
        cargo_metadata::Message::CompilerArtifact(a) => CargoMessage::Artifact(BuildArtifact {
            package_id: a.package_id.repr,
            target: Target { name: a.target.name, kind: a.target.kind.iter().map(|k| k.to_string()).collect(), src_path: a.target.src_path.into_string() },
            profile: ArtifactProfile { opt_level: a.profile.opt_level, test: a.profile.test },
            features: a.features,
            filenames: a.filenames.into_iter().map(|p| p.into_string()).collect(),
            executable: a.executable.map(|p| p.into_string()),
            fresh: a.fresh,
        }),
        cargo_metadata::Message::CompilerMessage(m) => CargoMessage::Diagnostic(convert_diagnostic(m)),
        _ => CargoMessage::Other,
    }
}

/// Decode one line of the toolchain's structured stream; a line that is no
/// recognised envelope (or no JSON at all) stands as `Other`, as the stream
/// contract asks.
///
/// Relies on the decoding helpers above; their result depends on the line
/// alone and carries the name [`decoded_message`].
#[verifier::external_body]
pub(crate) fn parse_message_line(line: &str) -> (r: CargoMessage)
    ensures
        r == decoded_message(line@),
{
    match read_message(line) {
        Some(m) => convert_message(m),
        None => CargoMessage::Other,
    }
}

// ---------------------------------------------------------------------------
// Describing a package
// ---------------------------------------------------------------------------
/// Describe a package (what the package-selection argument names).
#[derive(Debug, Clone, PartialEq, Eq)]
pub enum PackageSpec {
    /// Any package in the workspace.
    Any,
    /// The name of a package in the workspace.
    Name(String),
    /// The full identifier of a package in the workspace.
    Id(String),
}

impl PackageSpec {
    /// The single token this selector passes to the package-selection
    /// argument; any-package is spelled `*`.
    pub open spec fn spec_repr(&self) -> Seq<char> {
        match self {
            PackageSpec::Any => "*"@,
            PackageSpec::Name(repr) => repr@,
            PackageSpec::Id(repr) => repr@,
        }
    }

    /// Helper for [`Self::Name`].
    pub fn name(name: &str) -> (r: Self)
        ensures
            r matches PackageSpec::Name(n) && n@ == name@,
    {
        PackageSpec::Name(name.to_owned())
    }

    /// What the package-selection argument is given.
    pub fn as_repr(&self) -> (r: &str)
        ensures
            r@ == self.spec_repr(),
    {
        match self {
            PackageSpec::Any => "*",
            PackageSpec::Name(repr) => repr.as_str(),
            PackageSpec::Id(repr) => repr.as_str(),
        }
    }

    /// What the package-selection argument is given, by value.
    pub fn into_repr(self) -> (r: String)
        ensures
            r@ == self.spec_repr(),
    {
        match self {
            PackageSpec::Any => "*".to_owned(),
            PackageSpec::Name(repr) => repr,
            PackageSpec::Id(repr) => repr,
        }
    }
}

// ---------------------------------------------------------------------------
// Describing a configuration of feature flags
// ---------------------------------------------------------------------------
/// Describe a configuration of feature flags.
#[derive(Debug, Clone, PartialEq, Eq)]
pub struct FeatureSpec(pub FeatureSpecInner);

/// The two shapes a feature selection can take.
#[derive(Debug, Clone, PartialEq, Eq)]
pub enum FeatureSpecInner {
    /// An explicit list of extra features, with or without the default set.
    Subset {
        /// Whether the toolchain's default feature set stays enabled.
        include_default: bool,
        /// The extra features to enable.
        features: Vec<String>,
    },
    /// Every feature the target declares.
    All,
}

/// The features joined into the single comma-separated token the feature
/// argument takes.
pub open spec fn spec_join_comma(parts: Seq<Seq<char>>) -> Seq<char>
    decreases parts.len(),
{
    if parts.len() == 0 {
        Seq::empty()
    } else if parts.len() == 1 {
        parts[0]
    } else {
        parts[0] + ","@ + spec_join_comma(parts.drop_first())
    }
}

proof fn lemma_join_comma_push(parts: Seq<Seq<char>>, x: Seq<char>)
    ensures
        spec_join_comma(parts.push(x)) == if parts.len() == 0 {
            x
        } else {
            spec_join_comma(parts) + ","@ + x
        },
    decreases parts.len(),
{
    let p = parts.push(x);
    if parts.len() == 0 {
        assert(p.len() == 1);
        assert(p[0] == x);
    } else {
        assert(p[0] == parts[0]);
        assert(p.drop_first() =~= parts.drop_first().push(x));
        lemma_join_comma_push(parts.drop_first(), x);
        if parts.len() == 1 {
            assert(spec_join_comma(parts) == parts[0]);
        }
    }
}

/// Join the features with commas, as the feature argument expects.
fn join_comma(parts: &Vec<String>) -> (r: String)
    ensures
        r@ == spec_join_comma(parts.deep_view()),
{
    let mut out = String::new();
    let mut i: usize = 0;
    while i < parts.len()
        invariant
            i <= parts.len(),
            out@ == spec_join_comma(parts.deep_view().take(i as int)),
        decreases parts.len() - i,
    {
        if i > 0 {
            out.append(",");
        }
        out.append(parts[i].as_str());
        proof {
            let dv = parts.deep_view();
            assert(dv.take(i + 1) =~= dv.take(i as int).push(dv[i as int]));
            lemma_join_comma_push(dv.take(i as int), dv[i as int]);
            assert(dv[i as int] == parts[i as int]@);
        }
        i = i + 1;
    }
    proof {
        assert(parts.deep_view().take(parts.len() as int) =~= parts.deep_view());
    }
    out
}

impl FeatureSpec {
    /// The argument slice this selection adds to a toolchain invocation.
    pub open spec fn spec_to_args(&self) -> Seq<Seq<char>> {
        match self.0 {
            FeatureSpecInner::All => seq!["--all-features"@],
            FeatureSpecInner::Subset { include_default, features } => (if features@.len() > 0 {
                seq!["--features"@, spec_join_comma(features.deep_view())]
            } else {
                Seq::empty()
            }) + (if !include_default {
                seq!["--no-default-features"@]
            } else {
                Seq::empty()
            }),
        }
    }

    /// `features`, on top of the default features.
    pub fn new(features: Vec<String>) -> (r: Self)
        ensures
            r.0 == (FeatureSpecInner::Subset { include_default: true, features }),
    {
        FeatureSpec(FeatureSpecInner::Subset { include_default: true, features })
    }

    /// Only `features`, with the default set switched off.
    pub fn new_no_default(features: Vec<String>) -> (r: Self)
        ensures
            r.0 == (FeatureSpecInner::Subset { include_default: false, features }),
    {
        FeatureSpec(FeatureSpecInner::Subset { include_default: false, features })
    }

    /// Every feature.
    pub fn all() -> (r: Self)
        ensures
            r.0 == FeatureSpecInner::All,
    {
        FeatureSpec(FeatureSpecInner::All)
    }

    /// Only the default features.
    pub fn default_only() -> (r: Self)
        ensures
            r.0 matches FeatureSpecInner::Subset { include_default, features } && include_default
                && features@.len() == 0,
    {
        Self::new(Vec::new())
    }

    /// No features at all.
    pub fn none() -> (r: Self)
        ensures
            r.0 matches FeatureSpecInner::Subset { include_default, features } && !include_default
                && features@.len() == 0,
    {
        Self::new_no_default(Vec::new())
    }

    /// Add a feature; a selection that already asks for every feature is left
    /// as it is.
    pub fn feature(&mut self, feature: String) -> (r: &mut Self)
        ensures
            match old(self).0 {
                FeatureSpecInner::Subset { include_default, features } => (*r).0 matches
                    FeatureSpecInner::Subset { include_default: d, features: f } && d
                    == include_default && f@ == features@.push(feature),
                FeatureSpecInner::All => *r == *old(self),
            },
            *final(self) == *final(r),
    {
        match &mut self.0 {
            FeatureSpecInner::Subset { features, .. } => {
                features.push(feature);
            },
            FeatureSpecInner::All => {},
        }
        self
    }

    /// The argument slice this selection adds to a toolchain invocation.
    pub fn to_args(&self) -> (r: Vec<String>)
        ensures
            r.deep_view() == self.spec_to_args(),
    {
        let mut args: Vec<String> = Vec::new();
        match &self.0 {
            FeatureSpecInner::All => {
                args.push("--all-features".to_owned());
            },
            FeatureSpecInner::Subset { include_default, features } => {
                if features.len() > 0 {
                    args.push("--features".to_owned());
                    args.push(join_comma(features));
                }
                if !*include_default {
                    args.push("--no-default-features".to_owned());
                }
            },
        }
        proof {
            assert(args.deep_view() =~= self.spec_to_args());
        }
        args
    }
}

/// An empty extra-feature list adds no feature argument at all when the
/// default set stays on, and only the flag that switches the default set off
/// when it does not: the toolchain is left to resolve exactly its default
/// feature set, or none.
pub proof fn lemma_empty_feature_subset(fs: FeatureSpec)
    requires
        fs.0 matches FeatureSpecInner::Subset { include_default, features } && features@.len()
            == 0,
    ensures
        fs.0 matches FeatureSpecInner::Subset { include_default, features } && (if include_default {
            fs.spec_to_args() =~= Seq::<Seq<char>>::empty()
        } else {
            fs.spec_to_args() =~= seq!["--no-default-features"@]
        }),
{
}

// ---------------------------------------------------------------------------
// Classifying a failed build
// ---------------------------------------------------------------------------
/// Failed to build.
#[derive(Debug, Clone, PartialEq, Eq)]
pub enum BuildError {
    /// Failed to run the toolchain at all; carries the reported reason.
    RunCargo(String),
    /// The named target was not found.
    NotFound(String),
    /// The package identifier matched no package.
    PackageNotFound(String),
    /// The toolchain failed for another reason; carries its stderr verbatim.
    Cargo(String),
}

/// The capture of the fixed "no such target named `...`" pattern on a
/// stderr text, when the pattern matches.
pub uninterp spec fn target_not_found_capture(stderr: Seq<char>) -> Option<Seq<char>>;

/// The capture of the fixed "package ID specification `...` did not match
/// any packages" pattern on a stderr text, when the pattern matches.
pub uninterp spec fn package_not_found_capture(stderr: Seq<char>) -> Option<Seq<char>>;

/// Relies on `regex::Regex::captures` with the fixed anchored pattern
/// ``error: no \w+ target named `(?P<n>.*?)` ``: whether and what it captures
/// depends on the text alone.
#[verifier::external_body]
fn capture_target_not_found(stderr: &str) -> (r: Option<String>)
    ensures
        (r is Some) <==> (target_not_found_capture(stderr@) is Some),
        r matches Some(n) ==> target_not_found_capture(stderr@) matches Some(c) && n@ == c,
{
    regex::Regex::new(r"error: no \w+ target named `(?P<n>.*?)`").ok().and_then(
        |re| re.captures(stderr).and_then(|caps| caps.name("n")).map(|m| m.as_str().to_owned()),
    )
}

/// Relies on `regex::Regex::captures` with the fixed pattern
/// ``error: package ID specification `(?P<p>.*?)` did not match any
/// packages``: whether and what it captures depends on the text alone.
#[verifier::external_body]
fn capture_package_not_found(stderr: &str) -> (r: Option<String>)
    ensures
        (r is Some) <==> (package_not_found_capture(stderr@) is Some),
        r matches Some(n) ==> package_not_found_capture(stderr@) matches Some(c) && n@ == c,
{
    regex::Regex::new(r"error: package ID specification `(?P<p>.*?)` did not match any packages")
        .ok().and_then(
        |re| re.captures(stderr).and_then(|caps| caps.name("p")).map(|m| m.as_str().to_owned()),
    )
}

/// How a failed build's stderr text is classified: the target-not-found
/// pattern is tried first, the package pattern second, and anything else is
/// the generic category carrying the raw text verbatim.
pub open spec fn stderr_classified(e: BuildError, stderr: Seq<char>) -> bool {
    match e {
        BuildError::NotFound(n) => target_not_found_capture(stderr) matches Some(c) && n@ == c,
        BuildError::PackageNotFound(n) => target_not_found_capture(stderr) is None && (
        package_not_found_capture(stderr) matches Some(c) && n@ == c),
        BuildError::Cargo(t) => target_not_found_capture(stderr) is None
            && package_not_found_capture(stderr) is None && t@ == stderr,
        BuildError::RunCargo(_) => false,
    }
}

impl BuildError {
    /// Classify the stderr text of a toolchain run that exited with failure.
    ///
    /// The two extraction patterns are best effort and deliberately coupled
    /// to the toolchain's present wording; an unrecognised shape keeps its
    /// raw text so nothing is lost.
    pub fn from_stderr(stderr: &str) -> (r: Self)
        ensures
            stderr_classified(r, stderr@),
    {
        match capture_target_not_found(stderr) {
            Some(name) => BuildError::NotFound(name),
            None => match capture_package_not_found(stderr) {
                Some(name) => BuildError::PackageNotFound(name),
                None => BuildError::Cargo(stderr.to_owned()),
            },
        }
    }
}

} // verus!
