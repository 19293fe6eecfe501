//! Parsing of the repository-list configuration text.
//!
//! One repository path per line; blank lines are skipped and `#` starts a
//! comment that runs to the end of the line.  Each surviving path is passed
//! through tilde expansion.  Reading the file from disk, and creating it
//! when missing, is the application's concern; the parsing itself is
//! verified here.

use vstd::prelude::*;

use crate::text::{trim_of, trim_str};

verus! {

/// The lines of `s`, split on `'\n'`.  Text without a newline is one line;
/// every newline ends a line, so text ending in a newline has a final empty
/// line (which parsing then skips as blank).
pub open spec fn split_lines(s: Seq<char>) -> Seq<Seq<char>>
    decreases s.len(),
{
    if s.len() == 0 {
        seq![Seq::<char>::empty()]
    } else if s[0] == '\n' {
        seq![Seq::<char>::empty()] + split_lines(s.drop_first())
    } else {
        let rest = split_lines(s.drop_first());
        seq![seq![s[0]] + rest[0]] + rest.drop_first()
    }
}

/// `l` up to (and excluding) its first `'#'`.
pub open spec fn comment_free(l: Seq<char>) -> Seq<char>
    decreases l.len(),
{
    if l.len() == 0 {
        l
    } else if l[0] == '#' {
        Seq::empty()
    } else {
        seq![l[0]] + comment_free(l.drop_first())
    }
}

/// The path one configuration line contributes: what stands before any
/// comment, trimmed.  Empty means the line contributes nothing.
pub open spec fn config_entry(l: Seq<char>) -> Seq<char> {
    trim_of(comment_free(l))
}

/// The non-empty entries of the given lines, in order.
pub open spec fn entries_of(lines: Seq<Seq<char>>) -> Seq<Seq<char>>
    decreases lines.len(),
{
    if lines.len() == 0 {
        Seq::empty()
    } else {
        (if config_entry(lines[0]).len() > 0 {
            seq![config_entry(lines[0])]
        } else {
            Seq::<Seq<char>>::empty()
        }) + entries_of(lines.drop_first())
    }
}

/// The raw repository paths the configuration text lists, in order, before
/// tilde expansion.
pub open spec fn config_paths(content: Seq<char>) -> Seq<Seq<char>> {
    entries_of(split_lines(content))
}

/// What tilde expansion may turn `raw` into: anything that does not begin
/// with a lone tilde is unchanged, and `~` or `~/…` either stays unchanged
/// (no home directory available) or has the tilde replaced by some prefix.
pub open spec fn tilde_expanded(raw: Seq<char>, out: Seq<char>) -> bool {
    &&& (raw.len() == 0 || raw[0] != '~') ==> out == raw
    &&& (raw.len() >= 2 && raw[0] == '~' && raw[1] != '/') ==> out == raw
    &&& (raw.len() >= 1 && raw[0] == '~' && (raw.len() == 1 || raw[1] == '/')) ==> (out == raw
        || exists|h: Seq<char>| out == #[trigger] (h + raw.skip(1)))
}

/// Relies on shellexpand::tilde: input not beginning with `~` is returned
/// unchanged, as is a `~user` form (`~` followed by anything but `/`); a
/// lone `~` or a `~/…` path comes back either unchanged (when no home
/// directory is available) or with the tilde replaced by the home
/// directory.
#[verifier::external_body]
fn expand_tilde(s: &str) -> (r: String)
    ensures
        tilde_expanded(s@, r@),
{
    shellexpand::tilde(s).into_owned()
}

/// Splitting at the first newline: if the first `m` characters of `t` are
/// not newlines and the character at `m` (if any) is one, the first line is
/// `t.take(m)` and the rest splits on its own.
proof fn lemma_split_lines_first(t: Seq<char>, m: int)
    requires
        0 <= m <= t.len(),
        forall|k: int| 0 <= k < m ==> (#[trigger] t[k]) != '\n',
        m == t.len() || t[m] == '\n',
    ensures
        m == t.len() ==> split_lines(t) == seq![t],
        m < t.len() ==> split_lines(t) == seq![t.take(m)] + split_lines(t.skip(m + 1)),
    decreases t.len(),
{
    if t.len() == 0 {
        assert(t =~= Seq::<char>::empty());
        assert(split_lines(t) =~= seq![t]);
    } else if m == 0 {
        if t[0] == '\n' {
            assert(t.take(0) =~= Seq::<char>::empty());
            assert(t.skip(1) =~= t.drop_first());
            assert(split_lines(t) =~= seq![t.take(0)] + split_lines(t.skip(1)));
        }
    } else {
        let td = t.drop_first();
        assert forall|k: int| 0 <= k < m - 1 implies (#[trigger] td[k]) != '\n' by {
            assert(td[k] == t[k + 1]);
        }
        if m - 1 < td.len() {
            assert(td[m - 1] == t[m]);
        }
        lemma_split_lines_first(td, m - 1);
        let rest = split_lines(td);
        if m == t.len() {
            assert(rest == seq![td]);
            assert(rest[0] == td);
            assert(rest.drop_first() =~= Seq::<Seq<char>>::empty());
            assert(seq![t[0]] + td =~= t);
            assert(split_lines(t) =~= seq![t]);
        } else {
            assert(rest == seq![td.take(m - 1)] + split_lines(td.skip(m)));
            assert(rest[0] == td.take(m - 1));
            assert(rest.drop_first() =~= split_lines(td.skip(m)));
            assert(seq![t[0]] + td.take(m - 1) =~= t.take(m));
            assert(td.skip(m) =~= t.skip(m + 1));
            assert(split_lines(t) =~= seq![t.take(m)] + split_lines(t.skip(m + 1)));
        }
    }
}

/// Cutting at the first `'#'`: if the first `h` characters of `l` are not
/// `'#'` and the character at `h` (if any) is one, the comment-free part is
/// `l.take(h)`.
proof fn lemma_comment_free_at(l: Seq<char>, h: int)
    requires
        0 <= h <= l.len(),
        forall|k: int| 0 <= k < h ==> (#[trigger] l[k]) != '#',
        h == l.len() || l[h] == '#',
    ensures
        comment_free(l) == l.take(h),
    decreases l.len(),
{
    if l.len() == 0 {
        assert(comment_free(l) =~= l.take(0));
    } else if h == 0 {
        if l[0] == '#' {
            assert(comment_free(l) =~= l.take(0));
        } else {
            assert(l.take(0) =~= Seq::<char>::empty());
        }
    } else {
        let ld = l.drop_first();
        assert forall|k: int| 0 <= k < h - 1 implies (#[trigger] ld[k]) != '#' by {
            assert(ld[k] == l[k + 1]);
        }
        if h - 1 < ld.len() {
            assert(ld[h - 1] == l[h]);
        }
        lemma_comment_free_at(ld, h - 1);
        assert(seq![l[0]] + ld.take(h - 1) =~= l.take(h));
    }
}

/// Parses the configuration text into the listed repository paths, in
/// order: one path per line, comments and blank lines skipped, each path
/// tilde-expanded.
pub fn parse_config_content(content: &str) -> (r: Vec<String>)
    ensures
        r@.len() == config_paths(content@).len(),
        forall|i: int|
            0 <= i < r@.len() ==> tilde_expanded(config_paths(content@)[i], (#[trigger] r@[i])@),
{
    let n = content.unicode_len();
    let mut out: Vec<String> = Vec::new();
    let ghost mut raws: Seq<Seq<char>> = Seq::empty();
    let mut i: usize = 0;
    let mut done = false;
    proof {
        assert(content@.skip(0) =~= content@);
        assert(raws + entries_of(split_lines(content@.skip(0))) =~= config_paths(content@));
    }
    while !done
        invariant
            i <= n,
            n == content@.len(),
            out@.len() == raws.len(),
            forall|k: int| 0 <= k < raws.len() ==> tilde_expanded(raws[k], (#[trigger] out@[k])@),
            !done ==> config_paths(content@) == raws + entries_of(
                split_lines(content@.skip(i as int)),
            ),
            done ==> config_paths(content@) == raws,
        decreases n - i + (if done { 0int } else { 1int }),
    {
        let mut j = i;
        while j < n && content.get_char(j) != '\n'
            invariant
                i <= j <= n,
                n == content@.len(),
                forall|k: int| i <= k < j ==> (#[trigger] content@[k]) != '\n',
            decreases n - j,
        {
            j += 1;
        }
        let mut h = i;
        while h < j && content.get_char(h) != '#'
            invariant
                i <= h <= j <= n,
                n == content@.len(),
                forall|k: int| i <= k < h ==> (#[trigger] content@[k]) != '#',
            decreases j - h,
        {
            h += 1;
        }
        let ghost t = content@.skip(i as int);
        let ghost lineseq = content@.subrange(i as int, j as int);
        proof {
            assert forall|k: int| 0 <= k < j - i implies (#[trigger] t[k]) != '\n' by {
                assert(t[k] == content@[i + k]);
            }
            if j - i < t.len() {
                assert(t[j - i] == content@[j as int]);
            }
            lemma_split_lines_first(t, j - i);
            assert(t.take(j - i) =~= lineseq);
            assert forall|k: int| 0 <= k < h - i implies (#[trigger] lineseq[k]) != '#' by {
                assert(lineseq[k] == content@[i + k]);
            }
            if h - i < lineseq.len() {
                assert(lineseq[h - i] == content@[h as int]);
            }
            lemma_comment_free_at(lineseq, h - i);
            assert(lineseq.take(h - i) =~= content@.subrange(i as int, h as int));
        }
        let line_prefix = content.substring_char(i, h);
        let entry = trim_str(line_prefix);
        proof {
            assert(entry@ == config_entry(lineseq));
        }
        let ghost raws0 = raws;
        if entry.as_str().unicode_len() > 0 {
            let expanded = expand_tilde(entry.as_str());
            out.push(expanded);
            proof {
                raws = raws.push(entry@);
                assert(raws =~= raws0 + seq![config_entry(lineseq)]);
            }
        } else {
            proof {
                assert(raws =~= raws0 + Seq::<Seq<char>>::empty());
            }
        }
        proof {
            // One line of the remainder has been consumed: its entry (if
            // any) moved from the remainder's entries into `raws`.
            let rest_lines = split_lines(t);
            if j == n {
                assert(rest_lines == seq![t]);
                assert(t.take(j - i) =~= t);
                assert(t == lineseq);
                assert(rest_lines.drop_first() =~= Seq::<Seq<char>>::empty());
                assert(entries_of(rest_lines) =~= (if config_entry(lineseq).len() > 0 {
                    seq![config_entry(lineseq)]
                } else {
                    Seq::<Seq<char>>::empty()
                }) + entries_of(rest_lines.drop_first()));
                assert(entries_of(Seq::<Seq<char>>::empty()) =~= Seq::<Seq<char>>::empty());
                assert(config_paths(content@) =~= raws);
            } else {
                let tail = split_lines(t.skip(j - i + 1));
                assert(rest_lines == seq![lineseq] + tail);
                assert(rest_lines[0] == lineseq);
                assert(rest_lines.drop_first() =~= tail);
                assert(entries_of(rest_lines) =~= (if config_entry(lineseq).len() > 0 {
                    seq![config_entry(lineseq)]
                } else {
                    Seq::<Seq<char>>::empty()
                }) + entries_of(tail));
                assert(t.skip(j - i + 1) =~= content@.skip(j + 1));
                assert(config_paths(content@) =~= raws + entries_of(
                    split_lines(content@.skip(j + 1)),
                ));
            }
        }
        if j == n {
            done = true;
        } else {
            i = j + 1;
        }
    }
    proof {
        assert(config_paths(content@).len() == raws.len());
    }
    out
}

} // verus!
