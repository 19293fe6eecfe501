//! The per-repository status snapshot a probe produces, and helpers over its
//! textual fields.

use vstd::prelude::*;

use crate::action::RepoAction;
use crate::text::{ends_with_seq, ends_with_str, str_eq};

verus! {

/// Whether a configured path names a directory that carries git metadata.
#[derive(Debug, Clone, Copy, PartialEq, Eq, Structural)]
pub enum Existence {
    Exists,
    DoesNotExist,
}

/// One probe's snapshot of a repository: where it lives, whether it exists,
/// which branch is checked out, which remote it pushes to, and the single
/// action the probe resolved for it.  Built once per sync invocation and
/// read-only afterwards.
#[derive(Debug)]
pub struct RepoStatus {
    pub path: String,
    pub existence: Existence,
    pub branch: String,
    pub remote: String,
    pub action: RepoAction,
}

/// The mathematical shape of a [`RepoStatus`]: every textual field as a
/// character sequence.
#[verifier::ext_equal]
pub struct RepoStatusView {
    pub path: Seq<char>,
    pub existence: Existence,
    pub branch: Seq<char>,
    pub remote: Seq<char>,
    pub action: RepoAction,
}

impl View for RepoStatus {
    type V = RepoStatusView;

    open spec fn view(&self) -> RepoStatusView {
        RepoStatusView {
            path: self.path@,
            existence: self.existence,
            branch: self.branch@,
            remote: self.remote@,
            action: self.action,
        }
    }
}

impl Clone for RepoStatus {
    /// Cloning preserves the snapshot exactly.
    fn clone(&self) -> (r: Self)
        ensures
            r@ == self@,
    {
        RepoStatus {
            path: self.path.clone(),
            existence: self.existence,
            branch: self.branch.clone(),
            remote: self.remote.clone(),
            action: self.action,
        }
    }
}

impl RepoStatus {
    /// True iff the checked-out branch is neither `main` nor `master`; the
    /// summary marks such repositories with a warning.
    pub fn off_main_branch(&self) -> (r: bool)
        ensures
            r == !(self.branch@ == "main"@ || self.branch@ == "master"@),
    {
        !(str_eq(self.branch.as_str(), "main") || str_eq(self.branch.as_str(), "master"))
    }

    /// The remote URL as the renderer displays it, with a trailing `.git`
    /// stripped.
    pub fn display_remote(&self) -> (r: String)
        ensures
            r@ == normal_url_of(self.remote@),
    {
        normalize_remote_url(self.remote.as_str())
    }
}

/// The display form of a remote URL: the same URL with one trailing `.git`
/// removed, if present.
pub open spec fn normal_url_of(u: Seq<char>) -> Seq<char> {
    if ends_with_seq(u, ".git"@) {
        u.subrange(0, u.len() - ".git"@.len())
    } else {
        u
    }
}

/// Normalizes a remote URL for display by stripping one trailing `.git`.
pub fn normalize_remote_url(u: &str) -> (r: String)
    ensures
        r@ == normal_url_of(u@),
{
    let suffix = ".git";
    if ends_with_str(u, suffix) {
        let n = u.unicode_len();
        let sl = suffix.unicode_len();
        let t = u.substring_char(0, n - sl);
        String::from_str(t)
    } else {
        String::from_str(u)
    }
}

/// Round-trip of remote URL normalization: a URL that does not already end
/// in `.git` normalizes to itself, and adding the suffix changes nothing
/// about the normal form.
pub proof fn lemma_url_normalization_round_trip(u: Seq<char>)
    requires
        !ends_with_seq(u, ".git"@),
    ensures
        normal_url_of(u) == u,
        normal_url_of(u + ".git"@) == u,
{
    let g = ".git"@;
    let w = u + g;
    assert(w.subrange(w.len() - g.len(), w.len() as int) =~= g);
    assert(ends_with_seq(w, g));
    assert(w.subrange(0, w.len() - g.len()) =~= u);
}

} // verus!
