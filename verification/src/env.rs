use vstd::prelude::*;
use vstd::pervasive::unreached;

verus! {

/// What happened when the `.env` file of the secrets directory was probed.
#[derive(Debug)]
pub enum SecretsProbe {
    /// No `.env` file is there.
    Missing,
    /// The file was there, readable, and loaded into the environment.
    Loaded,
    /// The file is there but may not be read: not fatal, the walk follows.
    PermissionDenied,
    /// The file could not be opened for another reason: fatal.
    OpenFailed { message: String },
    /// The file was opened but did not load or parse: fatal.
    LoadFailed { message: String },
}

/// What happened when one directory of the walk was probed for `.env`.
#[derive(Debug)]
pub enum DirProbe {
    /// No `.env` file is in this directory.
    Missing,
    /// The file was there and loaded into the environment.
    Loaded,
    /// The file was there but did not load or parse: fatal.
    LoadFailed { message: String },
}

/// How the search for an environment-override file ended.
#[derive(Debug, PartialEq)]
pub enum EnvResolution {
    /// A `.env` file in `dir` was loaded.
    Found { dir: String },
    /// No `.env` file exists anywhere along the search path; not an error.
    NotFound,
    /// A `.env` file in `dir` failed to open, load or parse.
    Failed { dir: String, message: String },
}

/// The next probe the resolver asks for.
#[derive(Debug, PartialEq)]
pub enum EnvRequest {
    /// Probe `dir/.env`, where `dir` is the secrets directory.
    ProbeSecrets { dir: String },
    /// Probe `dir/.env`, the next directory of the walk.
    ProbeDir { dir: String },
    /// The search is over; the outcome tells how.
    Finished,
}

/// The search for a `.env` override file, as a state machine: the caller
/// performs the filesystem probe that `next_request` names and reports what
/// happened; the resolver decides what to probe next. The secrets directory,
/// when one is configured, is probed first; then the working directory and
/// its parents, nearest first, until a file is found or the root is passed.
#[derive(Debug)]
pub struct EnvResolver {
    /// The secrets directory, until its probe has been answered.
    pub secrets: Option<String>,
    /// The walk: the working directory and its parents, nearest first.
    pub dirs: Vec<String>,
    /// The index of the next directory of the walk to probe.
    pub next: usize,
    /// The outcome, once the search is over.
    pub outcome: Option<EnvResolution>,
}

impl EnvResolver {
    /// The resolver's invariant: the walk index stays within the walk, an
    /// unfinished resolver has something left to probe, and the secrets
    /// probe comes before any step of the walk.
    pub open spec fn wf(self) -> bool {
        &&& self.next <= self.dirs@.len()
        &&& self.outcome is None ==> (self.secrets is Some || self.next < self.dirs@.len())
        &&& self.secrets is Some ==> self.next < self.dirs@.len()
    }

    /// A fresh search over a non-empty directory chain.
    pub fn new(secrets_dir: Option<String>, dirs: Vec<String>) -> (r: Self)
        requires
            dirs@.len() > 0,
        ensures
            r == (EnvResolver { secrets: secrets_dir, dirs, next: 0, outcome: None }),
            r.wf(),
    {
        EnvResolver { secrets: secrets_dir, dirs, next: 0, outcome: None }
    }

    /// What to probe next: the secrets directory while its answer is
    /// pending, then the walk, directory by directory.
    pub fn next_request(&self) -> (r: EnvRequest)
        requires
            self.wf(),
        ensures
            self.outcome is Some <==> r is Finished,
            self.outcome is None ==> match self.secrets {
                Some(d) => r matches EnvRequest::ProbeSecrets { dir } && dir == d,
                None => r matches EnvRequest::ProbeDir { dir } && dir == self.dirs@[
                    self.next as int
                ],
            },
    {
        if self.outcome.is_some() {
            EnvRequest::Finished
        } else {
            match &self.secrets {
                Some(d) => EnvRequest::ProbeSecrets { dir: d.clone() },
                None => EnvRequest::ProbeDir { dir: self.dirs[self.next].clone() },
            }
        }
    }
}

/// The state after the secrets probe has been answered: a loaded file ends
/// the search at once and the walk is never consulted; a missing file and a
/// permission error fall through to the walk; any other failure is fatal.
pub open spec fn secrets_step(s: EnvResolver, probe: SecretsProbe) -> EnvResolver {
    match s.secrets {
        None => s,
        Some(d) => match probe {
            SecretsProbe::Missing => EnvResolver { secrets: None, ..s },
            SecretsProbe::PermissionDenied => EnvResolver { secrets: None, ..s },
            SecretsProbe::Loaded => EnvResolver {
                secrets: None,
                outcome: Some(EnvResolution::Found { dir: d }),
                ..s
            },
            SecretsProbe::OpenFailed { message } => EnvResolver {
                secrets: None,
                outcome: Some(EnvResolution::Failed { dir: d, message }),
                ..s
            },
            SecretsProbe::LoadFailed { message } => EnvResolver {
                secrets: None,
                outcome: Some(EnvResolution::Failed { dir: d, message }),
                ..s
            },
        },
    }
}

/// The state after one directory of the walk has been probed: a missing file
/// moves to the parent, and past the last directory the search ends with
/// `NotFound`; a loaded file ends the search; a failing file is fatal.
pub open spec fn dir_step(s: EnvResolver, probe: DirProbe) -> EnvResolver {
    match probe {
        DirProbe::Missing => if s.next + 1 == s.dirs@.len() {
            EnvResolver {
                next: (s.next + 1) as usize,
                outcome: Some(EnvResolution::NotFound),
                ..s
            }
        } else {
            EnvResolver { next: (s.next + 1) as usize, ..s }
        },
        DirProbe::Loaded => EnvResolver {
            outcome: Some(EnvResolution::Found { dir: s.dirs@[s.next as int] }),
            ..s
        },
        DirProbe::LoadFailed { message } => EnvResolver {
            outcome: Some(EnvResolution::Failed { dir: s.dirs@[s.next as int], message }),
            ..s
        },
    }
}

impl EnvResolver {
    /// Answer the secrets probe.
    pub fn on_secrets_probe(&mut self, probe: SecretsProbe)
        requires
            old(self).wf(),
            old(self).outcome is None,
            old(self).secrets is Some,
        ensures
            *final(self) == secrets_step(*old(self), probe),
            final(self).wf(),
    {
        let dir = match &self.secrets {
            Some(d) => d.clone(),
            None => unreached(),
        };
        self.secrets = None;
        match probe {
            SecretsProbe::Missing => (),
            SecretsProbe::PermissionDenied => (),
            SecretsProbe::Loaded => {
                self.outcome = Some(EnvResolution::Found { dir });
            },
            SecretsProbe::OpenFailed { message } => {
                self.outcome = Some(EnvResolution::Failed { dir, message });
            },
            SecretsProbe::LoadFailed { message } => {
                self.outcome = Some(EnvResolution::Failed { dir, message });
            },
        }
    }

    /// Answer the probe of the walk's next directory.
    pub fn on_dir_probe(&mut self, probe: DirProbe)
        requires
            old(self).wf(),
            old(self).outcome is None,
            old(self).secrets is None,
        ensures
            *final(self) == dir_step(*old(self), probe),
            final(self).wf(),
    {
        match probe {
            DirProbe::Missing => {
                let n = self.dirs.len();
                self.next = self.next + 1;
                if self.next == n {
                    self.outcome = Some(EnvResolution::NotFound);
                }
            },
            DirProbe::Loaded => {
                self.outcome = Some(EnvResolution::Found { dir: self.dirs[self.next].clone() });
            },
            DirProbe::LoadFailed { message } => {
                self.outcome = Some(
                    EnvResolution::Failed { dir: self.dirs[self.next].clone(), message },
                );
            },
        }
    }
}

/// The walk run over a sequence of probe answers, stopping as soon as the
/// search is over.
pub open spec fn run_dir_probes(s: EnvResolver, probes: Seq<DirProbe>) -> EnvResolver
    decreases probes.len(),
{
    if probes.len() == 0 || s.outcome is Some {
        s
    } else {
        run_dir_probes(dir_step(s, probes[0]), probes.skip(1))
    }
}

/// A directory walk that sees a `.env` file nowhere ends with `NotFound`,
/// and not with an error.
pub proof fn lemma_walk_without_env_not_found(s: EnvResolver, probes: Seq<DirProbe>)
    requires
        s.wf(),
        s.outcome is None,
        s.secrets is None,
        probes.len() == s.dirs@.len() - s.next,
        forall|i: int| 0 <= i < probes.len() ==> probes[i] is Missing,
    ensures
        run_dir_probes(s, probes).outcome == Some(EnvResolution::NotFound),
    decreases probes.len(),
{
    assert(vstd::std_specs::vec::spec_vec_len(&s.dirs) == s.dirs@.len());
    let s1 = dir_step(s, probes[0]);
    if s.next + 1 == s.dirs@.len() {
        assert(run_dir_probes(s1, probes.skip(1)) == s1);
    } else {
        assert(forall|i: int|
            0 <= i < probes.skip(1).len() ==> probes.skip(1)[i] == probes[i + 1]);
        lemma_walk_without_env_not_found(s1, probes.skip(1));
    }
}

/// The walk loads the `.env` file of the first directory that has one, and
/// the directories past it are never consulted.
pub proof fn lemma_walk_finds_first(s: EnvResolver, probes: Seq<DirProbe>, j: int)
    requires
        s.wf(),
        s.outcome is None,
        s.secrets is None,
        probes.len() <= s.dirs@.len() - s.next,
        0 <= j < probes.len(),
        forall|i: int| 0 <= i < j ==> probes[i] is Missing,
        probes[j] is Loaded,
    ensures
        run_dir_probes(s, probes).outcome == Some(
            EnvResolution::Found { dir: s.dirs@[s.next + j] },
        ),
    decreases j,
{
    assert(vstd::std_specs::vec::spec_vec_len(&s.dirs) == s.dirs@.len());
    if j == 0 {
        let s1 = dir_step(s, probes[0]);
        assert(run_dir_probes(s1, probes.skip(1)) == s1);
    } else {
        let s1 = dir_step(s, probes[0]);
        assert(forall|i: int|
            0 <= i < probes.skip(1).len() ==> probes.skip(1)[i] == probes[i + 1]);
        lemma_walk_finds_first(s1, probes.skip(1), j - 1);
    }
}

/// A loaded secrets file ends the search at once: the outcome is fixed and
/// the walk has not moved, so no directory of the walk is ever probed.
pub proof fn lemma_secrets_short_circuit(s: EnvResolver)
    requires
        s.secrets matches Some(d),
    ensures
        secrets_step(s, SecretsProbe::Loaded).outcome matches Some(o) && o
            matches EnvResolution::Found { dir } && s.secrets == Some(dir),
        secrets_step(s, SecretsProbe::Loaded).next == s.next,
{
}

} // verus!
