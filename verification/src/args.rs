use vstd::prelude::*;

verus! {

/// Whose names or dates the viewer shows: the commit's author's or its
/// committer's.
#[derive(Clone, Copy, Debug, PartialEq, Eq, Structural)]
pub enum UserType {
    Author,
    Committer,
}

/// The options that the viewer runs with.
pub struct Args {
    /// The file whose history is shown.
    pub file_path: String,
    /// Show full commit hashes instead of abbreviated ones.
    pub should_use_full_commit_hash: bool,
    /// Let the view scroll beyond the last line.
    pub beyond_last_line: bool,
    /// Emphasize the parts of lines that differ.
    pub should_emphasize_diff: bool,
    /// Show the names of authors or of committers.
    pub user_for_name: UserType,
    /// Show the dates of authors or of committers.
    pub user_for_date: UserType,
    /// The format of dates.
    pub date_format: String,
    /// What a tab character is shown as.
    pub tab_spaces: String,
}

/// `n` space characters.
pub open spec fn spaces(n: nat) -> Seq<char> {
    Seq::new(n, |i: int| ' ')
}

/// A string of `n` spaces.
pub fn spaces_string(n: usize) -> (r: String)
    ensures
        r@ == spaces(n as nat),
{
    let mut r = String::new();
    let mut i: usize = 0;
    proof {
        reveal_strlit(" ");
    }
    while i < n
        invariant
            i <= n,
            r@ == spaces(i as nat),
            " "@ == seq![' '],
        decreases n - i,
    {
        r.append(" ");
        i = i + 1;
        assert(r@ =~= spaces(i as nat));
    }
    r
}

impl Args {
    /// The options from the values given on the command line: a tab is shown
    /// as `tab_size` spaces.
    pub fn load(
        file_path: String,
        should_use_full_commit_hash: bool,
        beyond_last_line: bool,
        should_emphasize_diff: bool,
        user_for_name: UserType,
        user_for_date: UserType,
        date_format: String,
        tab_size: usize,
    ) -> (r: Args)
        ensures
            r.file_path@ == file_path@,
            r.should_use_full_commit_hash == should_use_full_commit_hash,
            r.beyond_last_line == beyond_last_line,
            r.should_emphasize_diff == should_emphasize_diff,
            r.user_for_name == user_for_name,
            r.user_for_date == user_for_date,
            r.date_format@ == date_format@,
            r.tab_spaces@ == spaces(tab_size as nat),
    {
        Args {
            file_path,
            should_use_full_commit_hash,
            beyond_last_line,
            should_emphasize_diff,
            user_for_name,
            user_for_date,
            date_format,
            tab_spaces: spaces_string(tab_size),
        }
    }
}

} // verus!
