//! The repository prober: a state machine that decides, for one repository
//! path and one sync direction, which git queries to run and how to resolve
//! their outputs into a [`RepoStatus`].
//!
//! The probe itself performs no I/O.  The surrounding application checks the
//! path on disk, runs each requested command, and feeds the captured output
//! back in; every decision in between is verified here.

use vstd::prelude::*;

use crate::action::{pull_action_of, push_action_of, RepoAction, SyncMode};
use crate::status::{Existence, RepoStatus};
use crate::text::{trim_of, trim_str};

verus! {

/// How the command runner must treat the exit code: a non-zero exit is
/// either fatal for the caller, or meaningful data (the staged-diff check,
/// where the exit code itself is the signal).
#[derive(Debug, Clone, Copy, PartialEq, Eq, Structural)]
pub enum GitCommandBehavior {
    AssertZeroExitCode,
    AllowNonZeroExitCode,
}

/// Whether the command runner echoes the command and its output lines to the
/// terminal as they stream, or stays quiet (used for probing queries).
#[derive(Debug, Clone, Copy, PartialEq, Eq, Structural)]
pub enum GitCommandVerbosity {
    Verbose,
    Quiet,
}

/// What one run of the external git command produced: both captured streams
/// and the exit code (`None` when the process was terminated by a signal).
#[derive(Debug)]
pub struct GitCommandOutput {
    pub stdout: String,
    pub stderr: String,
    pub status: Option<i32>,
}

impl GitCommandOutput {
    /// The command exited normally with code zero.
    pub open spec fn success(self) -> bool {
        self.status == Some(0i32)
    }

    /// Whether the command exited normally with code zero.
    pub fn is_success(&self) -> (r: bool)
        ensures
            r == self.success(),
    {
        match self.status {
            Some(c) => c == 0,
            None => false,
        }
    }
}

/// One command the library asks the runner to execute: the repository to run
/// it in, the argument list handed to git, and how exit code and output
/// streams are to be treated.
#[derive(Debug)]
pub struct GitCommandRequest {
    pub path: String,
    pub args: Vec<String>,
    pub behavior: GitCommandBehavior,
    pub verbosity: GitCommandVerbosity,
}

/// Where a probe stands in its fixed sequence of queries.
///
/// Both directions query the branch and the remote first.  The push
/// direction then inspects the working tree, the staged diff and the
/// commits ahead of upstream; the pull direction refreshes from the remote
/// and inspects the commits behind.
#[derive(Debug, Clone, Copy, PartialEq, Eq, Structural)]
pub enum ProbePhase {
    QueryBranch,
    QueryRemote,
    QueryWorktree,
    QueryStagedDiff,
    QueryAhead,
    QueryFetch,
    QueryBehind,
    Complete,
    Failed,
}

/// Why a probe was abandoned.  A probe failure is fatal for its own
/// repository only: the caller reports it and continues probing the others.
#[derive(Debug)]
pub enum ProbeError {
    /// A query that must succeed exited non-zero or died to a signal.
    CommandFailed { phase: ProbePhase, stderr: String },
    /// The staged-diff check exited with a code other than 0 (no staged
    /// diff) or 1 (a staged diff exists).
    UnexpectedStagedDiffCode { status: Option<i32>, stderr: String },
}

/// The outcome of examining a configured path on disk before any query
/// runs.
#[derive(Debug)]
pub enum ProbeStart {
    /// The path is absent from disk: a non-fatal skip, the repository is
    /// omitted from the run.
    Skip,
    /// The path exists but carries no git metadata: a configuration error
    /// the operator must fix.
    ConfigError,
    /// The path is a repository: probe it.
    Probe(ProbeSession),
}

/// The probe state machine for one repository.  Drive it by running
/// [`ProbeSession::next_request`] through the command runner and feeding the
/// output to [`ProbeSession::absorb`] until the phase is `Complete` or
/// `Failed`.
#[derive(Debug)]
pub struct ProbeSession {
    pub path: String,
    pub mode: SyncMode,
    pub phase: ProbePhase,
    pub branch: String,
    pub remote: String,
    pub unstaged: bool,
    pub staged: bool,
    pub action: RepoAction,
    pub fetch_warning: Option<String>,
}

impl ProbeSession {
    /// The phases only a push-direction probe passes through.
    pub open spec fn push_only_phase(ph: ProbePhase) -> bool {
        ph == ProbePhase::QueryWorktree || ph == ProbePhase::QueryStagedDiff || ph
            == ProbePhase::QueryAhead
    }

    /// The phases only a pull-direction probe passes through.
    pub open spec fn pull_only_phase(ph: ProbePhase) -> bool {
        ph == ProbePhase::QueryFetch || ph == ProbePhase::QueryBehind
    }

    /// Session well-formedness: direction-specific phases match the
    /// direction, and a completed probe holds an action valid for it.
    pub open spec fn wf(self) -> bool {
        &&& Self::push_only_phase(self.phase) ==> self.mode == SyncMode::Push
        &&& Self::pull_only_phase(self.phase) ==> self.mode == SyncMode::Pull
        &&& self.phase == ProbePhase::Complete ==> self.action.valid_for(self.mode)
    }

    /// Classifies a configured path from what the filesystem shows: absent
    /// paths are skipped, paths without git metadata are a configuration
    /// error, and real repositories start a probe at the branch query.
    pub fn start(path: String, mode: SyncMode, on_disk: bool, has_git_dir: bool) -> (r: ProbeStart)
        ensures
            !on_disk ==> r is Skip,
            on_disk && !has_git_dir ==> r is ConfigError,
            on_disk && has_git_dir ==> (r matches ProbeStart::Probe(s) && s.wf() && s.phase
                == ProbePhase::QueryBranch && s.path == path && s.mode == mode),
    {
        if !on_disk {
            ProbeStart::Skip
        } else if !has_git_dir {
            ProbeStart::ConfigError
        } else {
            ProbeStart::Probe(
                ProbeSession {
                    path,
                    mode,
                    phase: ProbePhase::QueryBranch,
                    branch: String::new(),
                    remote: String::new(),
                    unstaged: false,
                    staged: false,
                    action: RepoAction::UpToDate,
                    fetch_warning: None,
                },
            )
        }
    }

    /// The query the session wants run next, or `None` once the probe is
    /// complete or failed.  All probing queries are quiet; every one but the
    /// staged-diff check and the best-effort fetch must exit zero.
    pub fn next_request(&self) -> (r: Option<GitCommandRequest>)
        ensures
            ((self.phase == ProbePhase::Complete || self.phase == ProbePhase::Failed) <==> r
                is None),
            r matches Some(q) ==> q.path@ == self.path@ && q.verbosity
                == GitCommandVerbosity::Quiet,
            self.phase == ProbePhase::QueryBranch ==> (r matches Some(q) && q.behavior
                == GitCommandBehavior::AssertZeroExitCode && q.args@.len() == 3 && q.args@[0]@
                == "rev-parse"@ && q.args@[1]@ == "--abbrev-ref"@ && q.args@[2]@ == "HEAD"@),
            self.phase == ProbePhase::QueryRemote ==> (r matches Some(q) && q.behavior
                == GitCommandBehavior::AssertZeroExitCode && q.args@.len() == 3 && q.args@[0]@
                == "remote"@ && q.args@[1]@ == "get-url"@ && q.args@[2]@ == "origin"@),
            self.phase == ProbePhase::QueryWorktree ==> (r matches Some(q) && q.behavior
                == GitCommandBehavior::AssertZeroExitCode && q.args@.len() == 2 && q.args@[0]@
                == "status"@ && q.args@[1]@ == "--porcelain"@),
            self.phase == ProbePhase::QueryStagedDiff ==> (r matches Some(q) && q.behavior
                == GitCommandBehavior::AllowNonZeroExitCode && q.args@.len() == 3 && q.args@[0]@
                == "diff"@ && q.args@[1]@ == "--cached"@ && q.args@[2]@ == "--quiet"@),
            self.phase == ProbePhase::QueryAhead ==> (r matches Some(q) && q.behavior
                == GitCommandBehavior::AssertZeroExitCode && q.args@.len() == 2 && q.args@[0]@
                == "rev-list"@ && q.args@[1]@ == "@{u}..HEAD"@),
            self.phase == ProbePhase::QueryFetch ==> (r matches Some(q) && q.behavior
                == GitCommandBehavior::AllowNonZeroExitCode && q.args@.len() == 2 && q.args@[0]@
                == "fetch"@ && q.args@[1]@ == "--all"@),
            self.phase == ProbePhase::QueryBehind ==> (r matches Some(q) && q.behavior
                == GitCommandBehavior::AssertZeroExitCode && q.args@.len() == 2 && q.args@[0]@
                == "rev-list"@ && q.args@[1]@ == "HEAD..@{u}"@),
    {
        match self.phase {
            ProbePhase::QueryBranch => Some(
                self.quiet_request(
                    args3("rev-parse", "--abbrev-ref", "HEAD"),
                    GitCommandBehavior::AssertZeroExitCode,
                ),
            ),
            ProbePhase::QueryRemote => Some(
                self.quiet_request(
                    args3("remote", "get-url", "origin"),
                    GitCommandBehavior::AssertZeroExitCode,
                ),
            ),
            ProbePhase::QueryWorktree => Some(
                self.quiet_request(
                    args2("status", "--porcelain"),
                    GitCommandBehavior::AssertZeroExitCode,
                ),
            ),
            ProbePhase::QueryStagedDiff => Some(
                self.quiet_request(
                    args3("diff", "--cached", "--quiet"),
                    GitCommandBehavior::AllowNonZeroExitCode,
                ),
            ),
            ProbePhase::QueryAhead => Some(
                self.quiet_request(
                    args2("rev-list", "@{u}..HEAD"),
                    GitCommandBehavior::AssertZeroExitCode,
                ),
            ),
            ProbePhase::QueryFetch => Some(
                self.quiet_request(
                    args2("fetch", "--all"),
                    GitCommandBehavior::AllowNonZeroExitCode,
                ),
            ),
            ProbePhase::QueryBehind => Some(
                self.quiet_request(
                    args2("rev-list", "HEAD..@{u}"),
                    GitCommandBehavior::AssertZeroExitCode,
                ),
            ),
            ProbePhase::Complete => None,
            ProbePhase::Failed => None,
        }
    }

    fn quiet_request(&self, args: Vec<String>, behavior: GitCommandBehavior) -> (r:
        GitCommandRequest)
        ensures
            r.path@ == self.path@,
            r.args == args,
            r.behavior == behavior,
            r.verbosity == GitCommandVerbosity::Quiet,
    {
        GitCommandRequest {
            path: self.path.clone(),
            args,
            behavior,
            verbosity: GitCommandVerbosity::Quiet,
        }
    }

    /// Feeds one command's output into the session, advancing the phase and
    /// recording the probed fact, exactly as [`absorb_post`] describes.
    pub fn absorb(&mut self, out: GitCommandOutput) -> (r: Result<(), ProbeError>)
        requires
            old(self).wf(),
            old(self).phase != ProbePhase::Complete,
            old(self).phase != ProbePhase::Failed,
        ensures
            final(self).wf(),
            absorb_post(*old(self), out, *final(self), r),
    {
        let ph = self.phase;
        match ph {
            ProbePhase::QueryBranch => {
                if out.is_success() {
                    self.branch = trim_str(out.stdout.as_str());
                    self.phase = ProbePhase::QueryRemote;
                    Ok(())
                } else {
                    self.phase = ProbePhase::Failed;
                    Err(ProbeError::CommandFailed { phase: ph, stderr: out.stderr })
                }
            },
            ProbePhase::QueryRemote => {
                if out.is_success() {
                    self.remote = trim_str(out.stdout.as_str());
                    self.phase = if matches!(self.mode, SyncMode::Push) {
                        ProbePhase::QueryWorktree
                    } else {
                        ProbePhase::QueryFetch
                    };
                    Ok(())
                } else {
                    self.phase = ProbePhase::Failed;
                    Err(ProbeError::CommandFailed { phase: ph, stderr: out.stderr })
                }
            },
            ProbePhase::QueryWorktree => {
                if out.is_success() {
                    self.unstaged = out.stdout.as_str().unicode_len() > 0;
                    self.phase = ProbePhase::QueryStagedDiff;
                    Ok(())
                } else {
                    self.phase = ProbePhase::Failed;
                    Err(ProbeError::CommandFailed { phase: ph, stderr: out.stderr })
                }
            },
            ProbePhase::QueryStagedDiff => {
                match out.status {
                    Some(0) => {
                        self.staged = false;
                        self.phase = ProbePhase::QueryAhead;
                        Ok(())
                    },
                    Some(1) => {
                        self.staged = true;
                        self.phase = ProbePhase::QueryAhead;
                        Ok(())
                    },
                    _ => {
                        self.phase = ProbePhase::Failed;
                        Err(
                            ProbeError::UnexpectedStagedDiffCode {
                                status: out.status,
                                stderr: out.stderr,
                            },
                        )
                    },
                }
            },
            ProbePhase::QueryAhead => {
                if out.is_success() {
                    let ahead = trim_str(out.stdout.as_str()).as_str().unicode_len() > 0;
                    self.action = crate::action::derive_push_action(
                        self.unstaged,
                        self.staged,
                        ahead,
                    );
                    self.phase = ProbePhase::Complete;
                    Ok(())
                } else {
                    self.phase = ProbePhase::Failed;
                    Err(ProbeError::CommandFailed { phase: ph, stderr: out.stderr })
                }
            },
            ProbePhase::QueryFetch => {
                if out.stderr.as_str().unicode_len() > 0 {
                    self.fetch_warning = Some(out.stderr);
                }
                self.phase = ProbePhase::QueryBehind;
                Ok(())
            },
            ProbePhase::QueryBehind => {
                if out.is_success() {
                    let behind = trim_str(out.stdout.as_str()).as_str().unicode_len() > 0;
                    self.action = crate::action::derive_pull_action(behind);
                    self.phase = ProbePhase::Complete;
                    Ok(())
                } else {
                    self.phase = ProbePhase::Failed;
                    Err(ProbeError::CommandFailed { phase: ph, stderr: out.stderr })
                }
            },
            ProbePhase::Complete => Ok(()),  // unreachable under the requires
            ProbePhase::Failed => Ok(()),  // unreachable under the requires
        }
    }

    /// The completed probe's snapshot.  Every existing repository that
    /// finishes its probe carries exactly one action, valid for the probed
    /// direction.
    pub fn finish(self) -> (r: RepoStatus)
        requires
            self.wf(),
            self.phase == ProbePhase::Complete,
        ensures
            r.path == self.path,
            r.existence == Existence::Exists,
            r.branch == self.branch,
            r.remote == self.remote,
            r.action == self.action,
            r.action.valid_for(self.mode),
    {
        RepoStatus {
            path: self.path,
            existence: Existence::Exists,
            branch: self.branch,
            remote: self.remote,
            action: self.action,
        }
    }
}

/// The probe transition relation: how one command output moves the session
/// from `pre` to `post`.
///
/// Queries that must succeed fail the probe on a non-zero exit, carrying the
/// captured error stream.  The staged-diff check reads its exit code as
/// data: 1 means a staged diff exists, 0 means none, anything else fails the
/// probe.  The fetch is best-effort: its error stream is kept as a warning
/// and the probe continues regardless of its exit.
pub open spec fn absorb_post(
    pre: ProbeSession,
    out: GitCommandOutput,
    post: ProbeSession,
    r: Result<(), ProbeError>,
) -> bool {
    &&& post.path == pre.path
    &&& post.mode == pre.mode
    &&& match pre.phase {
        ProbePhase::QueryBranch => if out.success() {
            &&& r is Ok
            &&& post.phase == ProbePhase::QueryRemote
            &&& post.branch@ == trim_of(out.stdout@)
            &&& post.remote == pre.remote
            &&& post.unstaged == pre.unstaged
            &&& post.staged == pre.staged
            &&& post.action == pre.action
            &&& post.fetch_warning == pre.fetch_warning
        } else {
            probe_failed(pre, out, post, r)
        },
        ProbePhase::QueryRemote => if out.success() {
            &&& r is Ok
            &&& post.phase == (if pre.mode == SyncMode::Push {
                ProbePhase::QueryWorktree
            } else {
                ProbePhase::QueryFetch
            })
            &&& post.remote@ == trim_of(out.stdout@)
            &&& post.branch == pre.branch
            &&& post.unstaged == pre.unstaged
            &&& post.staged == pre.staged
            &&& post.action == pre.action
            &&& post.fetch_warning == pre.fetch_warning
        } else {
            probe_failed(pre, out, post, r)
        },
        ProbePhase::QueryWorktree => if out.success() {
            &&& r is Ok
            &&& post.phase == ProbePhase::QueryStagedDiff
            &&& post.unstaged == (out.stdout@.len() > 0)
            &&& post.branch == pre.branch
            &&& post.remote == pre.remote
            &&& post.staged == pre.staged
            &&& post.action == pre.action
            &&& post.fetch_warning == pre.fetch_warning
        } else {
            probe_failed(pre, out, post, r)
        },
        ProbePhase::QueryStagedDiff => if out.status == Some(0i32) || out.status == Some(1i32) {
            &&& r is Ok
            &&& post.phase == ProbePhase::QueryAhead
            &&& post.staged == (out.status == Some(1i32))
            &&& post.branch == pre.branch
            &&& post.remote == pre.remote
            &&& post.unstaged == pre.unstaged
            &&& post.action == pre.action
            &&& post.fetch_warning == pre.fetch_warning
        } else {
            &&& r == Err::<(), ProbeError>(
                ProbeError::UnexpectedStagedDiffCode { status: out.status, stderr: out.stderr },
            )
            &&& post.phase == ProbePhase::Failed
        },
        ProbePhase::QueryAhead => if out.success() {
            &&& r is Ok
            &&& post.phase == ProbePhase::Complete
            &&& post.action == push_action_of(
                pre.unstaged,
                pre.staged,
                trim_of(out.stdout@).len() > 0,
            )
            &&& post.branch == pre.branch
            &&& post.remote == pre.remote
            &&& post.unstaged == pre.unstaged
            &&& post.staged == pre.staged
            &&& post.fetch_warning == pre.fetch_warning
        } else {
            probe_failed(pre, out, post, r)
        },
        ProbePhase::QueryFetch => {
            &&& r is Ok
            &&& post.phase == ProbePhase::QueryBehind
            &&& post.fetch_warning == (if out.stderr@.len() > 0 {
                Some(out.stderr)
            } else {
                pre.fetch_warning
            })
            &&& post.branch == pre.branch
            &&& post.remote == pre.remote
            &&& post.unstaged == pre.unstaged
            &&& post.staged == pre.staged
            &&& post.action == pre.action
        },
        ProbePhase::QueryBehind => if out.success() {
            &&& r is Ok
            &&& post.phase == ProbePhase::Complete
            &&& post.action == pull_action_of(trim_of(out.stdout@).len() > 0)
            &&& post.branch == pre.branch
            &&& post.remote == pre.remote
            &&& post.unstaged == pre.unstaged
            &&& post.staged == pre.staged
            &&& post.fetch_warning == pre.fetch_warning
        } else {
            probe_failed(pre, out, post, r)
        },
        ProbePhase::Complete => true,
        ProbePhase::Failed => true,
    }
}

/// A must-succeed query did not succeed: the probe is abandoned with the
/// captured error stream, fatally for this repository alone.
pub open spec fn probe_failed(
    pre: ProbeSession,
    out: GitCommandOutput,
    post: ProbeSession,
    r: Result<(), ProbeError>,
) -> bool {
    &&& r == Err::<(), ProbeError>(
        ProbeError::CommandFailed { phase: pre.phase, stderr: out.stderr },
    )
    &&& post.phase == ProbePhase::Failed
}

fn args2(a: &str, b: &str) -> (r: Vec<String>)
    ensures
        r@.len() == 2,
        r@[0]@ == a@,
        r@[1]@ == b@,
{
    let mut v: Vec<String> = Vec::new();
    v.push(String::from_str(a));
    v.push(String::from_str(b));
    v
}

fn args3(a: &str, b: &str, c: &str) -> (r: Vec<String>)
    ensures
        r@.len() == 3,
        r@[0]@ == a@,
        r@[1]@ == b@,
        r@[2]@ == c@,
{
    let mut v: Vec<String> = Vec::new();
    v.push(String::from_str(a));
    v.push(String::from_str(b));
    v.push(String::from_str(c));
    v
}

} // verus!
