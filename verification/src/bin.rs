//! Compile a binary or an example and correlate the one executable artifact
//! the toolchain must report for such a request.

use vstd::pervasive::unreached;
use vstd::prelude::*;

use crate::{
    decoded_message, exec_of, msg_format, parse_message_line, spec_msg_format, stderr_classified,
    streamed_diagnostics, BuildArtifact, BuildError, CargoMessage, Diagnostic, ExecutableArtifact,
    FeatureSpec, PackageSpec,
};

verus! {

/// Describe one binary or example to compile.
#[derive(Debug, Clone, PartialEq, Eq)]
pub struct Compiler {
    /// The directory to run the toolchain in; the current one by default.
    pub workspace: Option<String>,
    /// The package the executable is in.
    pub package: PackageSpec,
    /// The name of the binary or example.
    pub name: String,
    /// Whether the name names an example rather than a binary.
    pub is_example: bool,
    /// Where to put the build artifacts; the toolchain's default when absent.
    pub target_dir: Option<String>,
    /// The feature selection; the toolchain's default when absent.
    pub features: Option<FeatureSpec>,
    /// Whether to build in release mode.
    pub is_release: bool,
}

impl Compiler {
    /// The full argument vector this request passes to the toolchain, in
    /// order: subcommand, output format, package, features, release flag,
    /// target directory, and the binary or example selector.
    pub open spec fn spec_args(&self) -> Seq<Seq<char>> {
        seq!["build"@, spec_msg_format(), "--package"@, self.package.spec_repr()] + (
        match self.features {
            Some(f) => f.spec_to_args(),
            None => Seq::empty(),
        }) + (if self.is_release {
            seq!["--release"@]
        } else {
            Seq::empty()
        }) + (match self.target_dir {
            Some(d) => seq!["--target-dir"@, d@],
            None => Seq::empty(),
        }) + (if self.is_example {
            seq!["--example"@]
        } else {
            seq!["--bin"@]
        }) + seq![self.name@]
    }

    /// Whether a compiler still has every shared setting at its default.
    pub open spec fn is_default_context(&self) -> bool {
        &&& self.workspace is None
        &&& self.package == PackageSpec::Any
        &&& self.target_dir is None
        &&& self.features is None
        &&& !self.is_release
    }

    fn new(name: &str, is_example: bool) -> (r: Self)
        ensures
            r.is_default_context(),
            r.name@ == name@,
            r.is_example == is_example,
    {
        Compiler {
            workspace: None,
            package: PackageSpec::Any,
            name: name.to_owned(),
            is_example,
            target_dir: None,
            features: None,
            is_release: false,
        }
    }

    /// Compile a binary.
    ///
    /// Note: by default the default binary has the name of the crate.
    pub fn bin(name: &str) -> (r: Self)
        ensures
            r.is_default_context(),
            r.name@ == name@,
            !r.is_example,
    {
        Self::new(name, false)
    }

    /// Compile an example.
    pub fn example(name: &str) -> (r: Self)
        ensures
            r.is_default_context(),
            r.name@ == name@,
            r.is_example,
    {
        Self::new(name, true)
    }

    /// The directory to run the toolchain in.
    pub fn workspace(&mut self, path: &str) -> (r: &mut Self)
        ensures
            *r == (Compiler { workspace: (*r).workspace, ..*old(self) }),
            (*r).workspace matches Some(w) && w@ == path@,
            *final(self) == *final(r),
    {
        self.workspace = Some(path.to_owned());
        self
    }

    /// The package the executable is in.
    pub fn package(&mut self, package: PackageSpec) -> (r: &mut Self)
        ensures
            *r == (Compiler { package, ..*old(self) }),
            *final(self) == *final(r),
    {
        self.package = package;
        self
    }

    /// Where to put the build artifacts.
    pub fn target_dir(&mut self, target_dir: &str) -> (r: &mut Self)
        ensures
            *r == (Compiler { target_dir: (*r).target_dir, ..*old(self) }),
            (*r).target_dir matches Some(d) && d@ == target_dir@,
            *final(self) == *final(r),
    {
        self.target_dir = Some(target_dir.to_owned());
        self
    }

    /// Enable or disable feature flags.
    pub fn features(&mut self, features: FeatureSpec) -> (r: &mut Self)
        ensures
            *r == (Compiler { features: Some(features), ..*old(self) }),
            *final(self) == *final(r),
    {
        self.features = Some(features);
        self
    }

    /// Whether to build in release mode.
    pub fn release(&mut self, is_release: bool) -> (r: &mut Self)
        ensures
            *r == (Compiler { is_release, ..*old(self) }),
            *final(self) == *final(r),
    {
        self.is_release = is_release;
        self
    }

    /// The argument vector this request passes to the toolchain.
    pub fn args(&self) -> (r: Vec<String>)
        ensures
            r.deep_view() == self.spec_args(),
    {
        let mut args: Vec<String> = Vec::new();
        args.push("build".to_owned());
        args.push(msg_format());
        args.push("--package".to_owned());
        args.push(self.package.as_repr().to_owned());
        match &self.features {
            Some(f) => {
                let mut fargs = f.to_args();
                args.append(&mut fargs);
            },
            None => {},
        }
        if self.is_release {
            args.push("--release".to_owned());
        }
        match &self.target_dir {
            Some(d) => {
                args.push("--target-dir".to_owned());
                args.push(d.clone());
            },
            None => {},
        }
        if self.is_example {
            args.push("--example".to_owned());
        } else {
            args.push("--bin".to_owned());
        }
        args.push(self.name.clone());
        proof {
            assert(args.deep_view() =~= self.spec_args());
        }
        args
    }
}

/// Turning release mode on inserts exactly the release flag, right after the
/// feature arguments, and changes nothing else; a builder that never had the
/// flag set keeps it off, so an omitted flag and an explicitly disabled one
/// produce the same invocation.
pub proof fn lemma_release_flag(c: Compiler)
    ensures
        ({
            let on = Compiler { is_release: true, ..c };
            let off = Compiler { is_release: false, ..c };
            let k: int = 4 + (match c.features {
                Some(f) => f.spec_to_args().len() as int,
                None => 0,
            });
            &&& on.spec_args() =~= off.spec_args().take(k).push("--release"@)
                + off.spec_args().skip(k)
            &&& !c.is_release ==> c.spec_args() == off.spec_args()
        }),
{
}

// ---------------------------------------------------------------------------
// Collecting the structured output stream of a single-executable build
// ---------------------------------------------------------------------------
/// The executable-bearing artifacts a message stream carries for a
/// single-executable request, in stream order.
pub open spec fn collected_artifacts(msgs: Seq<CargoMessage>) -> Seq<BuildArtifact>
    decreases msgs.len(),
{
    if msgs.len() == 0 {
        Seq::empty()
    } else {
        let rest = collected_artifacts(msgs.drop_last());
        match msgs.last() {
            CargoMessage::Artifact(a) => if a.executable is Some {
                rest.push(a)
            } else {
                rest
            },
            _ => rest,
        }
    }
}

/// Accumulates the structured output of one `build` run: the
/// executable-bearing artifacts and every diagnostic, in stream order.
#[derive(Debug)]
pub struct Collector {
    /// The retained artifacts; each one carries an executable path.
    pub artifacts: Vec<BuildArtifact>,
    /// Every diagnostic seen so far, for the caller to drain.
    pub diagnostics: Vec<Diagnostic>,
}

impl Collector {
    /// Whether a record is retained for a single-executable request.
    pub open spec fn keeps(m: CargoMessage) -> bool {
        m matches CargoMessage::Artifact(a) && a.executable is Some
    }

    /// Every retained artifact carries an executable path.
    pub open spec fn wf(&self) -> bool {
        forall|i: int| 0 <= i < self.artifacts@.len() ==> self.artifacts@[i].executable is Some
    }

    /// How routing one record turns the collector `pre` into `post`: a
    /// diagnostic is recorded, an artifact is retained exactly when it
    /// carries an executable path, and any other envelope changes nothing.
    pub open spec fn routed(pre: Collector, m: CargoMessage, post: Collector) -> bool {
        match m {
            CargoMessage::Diagnostic(d) => post.artifacts@ == pre.artifacts@ && post.diagnostics@
                == pre.diagnostics@.push(d),
            CargoMessage::Artifact(a) => post.diagnostics@ == pre.diagnostics@ && post.artifacts@
                == (if Self::keeps(m) {
                pre.artifacts@.push(a)
            } else {
                pre.artifacts@
            }),
            CargoMessage::Other => post.artifacts@ == pre.artifacts@ && post.diagnostics@
                == pre.diagnostics@,
        }
    }

    /// An empty accumulator.
    pub fn new() -> (r: Self)
        ensures
            r.artifacts@ == Seq::<BuildArtifact>::empty(),
            r.diagnostics@ == Seq::<Diagnostic>::empty(),
            r.wf(),
    {
        Collector { artifacts: Vec::new(), diagnostics: Vec::new() }
    }

    /// Route one decoded record: a diagnostic is recorded, an artifact is
    /// retained exactly when it carries an executable path, and any other
    /// envelope is ignored.
    pub fn accept(&mut self, msg: CargoMessage)
        requires
            old(self).wf(),
        ensures
            final(self).wf(),
            Self::routed(*old(self), msg, *final(self)),
    {
        match msg {
            CargoMessage::Diagnostic(d) => {
                self.diagnostics.push(d);
            },
            CargoMessage::Artifact(a) => {
                if a.executable.is_some() {
                    self.artifacts.push(a);
                }
            },
            CargoMessage::Other => {},
        }
    }

    /// Route every record of a stream in order.
    pub fn accept_all(&mut self, msgs: Vec<CargoMessage>)
        requires
            old(self).wf(),
        ensures
            final(self).wf(),
            final(self).artifacts@ == old(self).artifacts@ + collected_artifacts(msgs@),
            final(self).diagnostics@ == old(self).diagnostics@ + streamed_diagnostics(msgs@),
    {
        proof {
            assert(msgs@.take(0) =~= Seq::<CargoMessage>::empty());
            assert(old(self).artifacts@ + collected_artifacts(msgs@.take(0))
                =~= old(self).artifacts@);
            assert(old(self).diagnostics@ + streamed_diagnostics(msgs@.take(0))
                =~= old(self).diagnostics@);
        }
        let ghost all = msgs@;
        let mut rest = msgs;
        while rest.len() > 0
            invariant
                self.wf(),
                rest@.len() <= all.len(),
                rest@ =~= all.skip(all.len() - rest@.len()),
                self.artifacts@ == old(self).artifacts@ + collected_artifacts(
                    all.take(all.len() - rest@.len()),
                ),
                self.diagnostics@ == old(self).diagnostics@ + streamed_diagnostics(
                    all.take(all.len() - rest@.len()),
                ),
            decreases rest@.len(),
        {
            let ghost i = all.len() - rest@.len();
            let msg = rest.remove(0);
            proof {
                assert(msg == all[i]);
                assert(all.take(i + 1).drop_last() =~= all.take(i));
                assert(all.take(i + 1).last() == all[i]);
                assert(rest@ =~= all.skip(i + 1));
            }
            self.accept(msg);
        }
        proof {
            assert(all.take(all.len() as int) =~= all);
        }
    }

    /// Decode one line of the stream and route it: the new state is the old
    /// one with exactly the line's decoded record routed, so nothing already
    /// collected is dropped or reordered, and one line adds at most one
    /// artifact and at most one diagnostic.
    pub fn accept_line(&mut self, line: &str)
        requires
            old(self).wf(),
        ensures
            final(self).wf(),
            Self::routed(*old(self), decoded_message(line@), *final(self)),
            old(self).artifacts@.is_prefix_of(final(self).artifacts@),
            old(self).diagnostics@.is_prefix_of(final(self).diagnostics@),
            final(self).artifacts@.len() <= old(self).artifacts@.len() + 1,
            final(self).diagnostics@.len() <= old(self).diagnostics@.len() + 1,
    {
        let msg = parse_message_line(line);
        self.accept(msg);
    }

    /// Correlate the collected stream with the exit status of the run.
    ///
    /// A successful single-executable build must have produced exactly one
    /// executable artifact — the caller checks that count before asking, as
    /// a shortfall or surplus signals a toolchain contract breach, not a
    /// recoverable condition. A failed run is classified from its stderr.
    pub fn finish(self, build_succeeded: bool, stderr: &str) -> (r: Result<
        ExecutableArtifact,
        BuildError,
    >)
        requires
            self.wf(),
            build_succeeded ==> self.artifacts@.len() == 1,
        ensures
            match r {
                Ok(art) => build_succeeded && art == exec_of(self.artifacts@[0]),
                Err(e) => !build_succeeded && stderr_classified(e, stderr@),
            },
    {
        if build_succeeded {
            let mut artifacts = self.artifacts;
            let art = artifacts.remove(0);
            match ExecutableArtifact::maybe_from(art) {
                Some(x) => Ok(x),
                None => unreached(),
            }
        } else {
            Err(BuildError::from_stderr(stderr))
        }
    }
}

/// A stream that carries exactly one executable-bearing artifact record
/// collects exactly that record: a successful single-executable build then
/// correlates to one executable artifact holding the toolchain's own
/// reported values — target name and source path included — and no other.
pub proof fn lemma_single_executable_artifact(msgs: Seq<CargoMessage>, i: int)
    requires
        0 <= i < msgs.len(),
        Collector::keeps(msgs[i]),
        forall|j: int| 0 <= j < msgs.len() && j != i ==> !Collector::keeps(msgs[j]),
    ensures
        msgs[i] matches CargoMessage::Artifact(a) && collected_artifacts(msgs) =~= seq![a],
    decreases msgs.len(),
{
    if i == msgs.len() - 1 {
        lemma_no_kept_artifacts(msgs.drop_last());
    } else {
        assert(msgs.drop_last()[i] == msgs[i]);
        lemma_single_executable_artifact(msgs.drop_last(), i);
    }
}

/// A stream without an executable-bearing artifact record collects nothing.
pub proof fn lemma_no_kept_artifacts(msgs: Seq<CargoMessage>)
    requires
        forall|j: int| 0 <= j < msgs.len() ==> !Collector::keeps(msgs[j]),
    ensures
        collected_artifacts(msgs) =~= Seq::<BuildArtifact>::empty(),
    decreases msgs.len(),
{
    if msgs.len() > 0 {
        lemma_no_kept_artifacts(msgs.drop_last());
    }
}

} // verus!
