//! The check for a newer commit than the one this program was built from.
use crate::text;
use vstd::prelude::*;

verus! {

/// Where the program's source is kept.
pub const COMMIT_URL: &'static str =
    "https://api.github.com/repos/unclefroob/maraetai-tui-mac/commits/master";

pub const REPO_URL: &'static str = "https://github.com/unclefroob/maraetai-tui-mac.git";

/// How many lines of a failed install's output the user is shown.
pub const TAIL_LINES: usize = 6;

/// The latest commit, as far as the user is shown it.
#[derive(Debug, PartialEq, Eq)]
pub struct RemoteCommit {
    pub sha: String,
    pub date: String,
    /// The first line of the commit message.
    pub summary: String,
}

/// What a check has found.
#[derive(Debug, PartialEq, Eq)]
pub struct CheckResult {
    pub update_available: bool,
    pub remote: RemoteCommit,
}

/// What a [`RemoteCommit`] says.
#[verifier::ext_equal]
pub struct RemoteCommitView {
    pub sha: Seq<char>,
    pub date: Seq<char>,
    pub summary: Seq<char>,
}

impl View for RemoteCommit {
    type V = RemoteCommitView;

    open spec fn view(&self) -> RemoteCommitView {
        RemoteCommitView { sha: self.sha@, date: self.date@, summary: self.summary@ }
    }
}

/// Whether the remote commit is another than the one that the program was built
/// from, of which only the start of the hash is kept. A program that does not know
/// what it was built from has no update.
pub open spec fn newer(remote_sha: Seq<char>, built_from_hash: Seq<char>) -> bool {
    built_from_hash != "unknown"@ && !text::stands_at(remote_sha, built_from_hash, 0)
}

/// Whether there is an update, see [`newer`].
pub fn is_update_available(remote_sha: &str, built_from_hash: &str) -> (r: bool)
    ensures
        r == newer(remote_sha@, built_from_hash@),
{
    !text::same(built_from_hash, "unknown") && !text::starts_with(remote_sha, built_from_hash)
}

/// The first line of a text; empty where there is none.
pub open spec fn first_line(s: Seq<char>) -> Seq<char> {
    let lines = text::lines_of(s);
    if lines.len() > 0 {
        lines[0]
    } else {
        Seq::empty()
    }
}

/// The first line of a text; empty where there is none.
pub fn summary_of(message: &str) -> (line: String)
    ensures
        line@ == first_line(message@),
{
    let chars = text::chars_of(message);
    let lines = text::lines(chars.as_slice());
    if lines.len() > 0 {
        assert(text::views(lines@)[0] == lines@[0]@);
        text::string_of(lines[0].as_slice())
    } else {
        let none = String::new();
        assert(text::views(lines@).len() == 0);
        assert(none@ =~= Seq::<char>::empty());
        none
    }
}

/// A commit as the user is shown it, from its hash, its date and its message.
pub fn remote_commit(sha: String, date: String, message: &str) -> (c: RemoteCommit)
    ensures
        c@ == (RemoteCommitView { sha: sha@, date: date@, summary: first_line(message@) }),
{
    RemoteCommit { sha, date, summary: summary_of(message) }
}

/// What the latest commit means to a program that was built from `built_from_hash`.
pub fn check_for_update(remote: RemoteCommit, built_from_hash: &str) -> (r: CheckResult)
    ensures
        r.remote == remote,
        r.update_available == newer(remote.sha@, built_from_hash@),
{
    let update_available: bool = is_update_available(remote.sha.as_str(), built_from_hash);
    CheckResult { update_available, remote }
}

/// The last lines of a text, with line feeds between them.
pub open spec fn last_lines(lines: Seq<Seq<char>>, count: nat) -> Seq<char> {
    let kept = if lines.len() > count {
        lines.skip(lines.len() - count)
    } else {
        lines
    };
    joined_lines(kept)
}

/// Lines with line feeds between them.
pub open spec fn joined_lines(lines: Seq<Seq<char>>) -> Seq<char>
    decreases lines.len(),
{
    if lines.len() == 0 {
        Seq::empty()
    } else if lines.len() == 1 {
        lines[0]
    } else {
        joined_lines(lines.drop_last()) + "\n"@ + lines.last()
    }
}

/// What the user is told when a package does not install: its name and the end of
/// what the install printed.
pub fn install_failure(package: &str, stderr: &str) -> (message: String)
    ensures
        message@ == package@ + " failed to install:\n"@ + last_lines(
            text::lines_of(stderr@),
            TAIL_LINES as nat,
        ),
{
    let chars = text::chars_of(stderr);
    let lines = text::lines(chars.as_slice());
    let ghost all = text::views(lines@);
    let start: usize = if lines.len() > TAIL_LINES {
        lines.len() - TAIL_LINES
    } else {
        0
    };
    let ghost kept = all.skip(start as int);
    assert(start == 0 ==> kept =~= all);
    let mut tail = String::new();
    let mut i: usize = start;
    assert(joined_lines(kept.take(0)) =~= Seq::<char>::empty());
    while i < lines.len()
        invariant
            start <= i <= lines.len(),
            all == text::views(lines@),
            kept == all.skip(start as int),
            tail@ == joined_lines(kept.take(i - start)),
        decreases lines.len() - i,
    {
        if i > start {
            tail.append("\n");
        }
        let line: String = text::string_of(lines[i].as_slice());
        tail.append(line.as_str());
        proof {
            let now = kept.take(i + 1 - start);
            assert(now.drop_last() =~= kept.take(i - start));
            assert(now.last() == lines@[i as int]@);
            if i == start {
                assert(tail@ =~= now[0]);
            }
        }
        i = i + 1;
    }
    assert(kept.take(i - start) =~= kept);
    package.to_owned().concat(" failed to install:\n").concat(tail.as_str())
}

/// A commit whose hash begins with the one built from is no update; any other is, unless
/// it is not known what was built from.
pub proof fn same_commit_is_no_update(sha: Seq<char>, built: Seq<char>)
    ensures
        !newer(built + sha, built),
        !newer(sha, "unknown"@),
        built != "unknown"@ && !built.is_prefix_of(sha) ==> newer(sha, built),
{
    assert((built + sha).subrange(0, built.len() as int) =~= built);
    if text::stands_at(sha, built, 0) {
        assert(sha.subrange(0, built.len() as int) =~= built);
    }
}

/// The summary of a commit is the first line of its message.
pub proof fn summary_is_the_first_line(line: Seq<char>, rest: Seq<char>)
    requires
        !line.contains('\n'),
        line.len() > 0,
        line.last() != '\r',
    ensures
        first_line(line + seq!['\n'] + rest) == line,
        first_line(line) == line,
{
    text::lines_are_read_one_by_one(line, rest);
}

/// The last lines are those at the end, in order, and all where there are not so many.
pub proof fn last_lines_are_at_the_end(before: Seq<Seq<char>>, last: Seq<Seq<char>>)
    ensures
        last_lines(before + last, last.len()) == joined_lines(last),
        last_lines(last, last.len() + before.len()) == joined_lines(last),
{
    let all = before + last;
    if all.len() > last.len() {
        assert(all.skip(all.len() - last.len()) =~= last);
    } else {
        assert(all =~= last);
    }
}

/// Joined lines follow each other with a line feed between them.
pub proof fn lines_are_joined_in_order(lines: Seq<Seq<char>>, line: Seq<char>)
    ensures
        lines.len() > 0 ==> joined_lines(lines.push(line)) == joined_lines(lines) + "\n"@ + line,
        lines.len() == 0 ==> joined_lines(lines.push(line)) == line,
{
    assert(lines.push(line).drop_last() =~= lines);
}

} // verus!
