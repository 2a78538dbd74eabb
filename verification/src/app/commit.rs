use vstd::prelude::*;

verus! {

/// The abstract content of a [`CommitInfo`]: its object id and its summary line.
pub struct CommitInfoView {
    pub id: Seq<u8>,
    pub summary: Option<Seq<char>>,
}

/// A commit of the history, held as plain values: the raw bytes of its object
/// id and its summary line, when it has one.
pub struct CommitInfo {
    id: Vec<u8>,
    summary: Option<String>,
}

pub open spec fn opt_string_view(s: Option<String>) -> Option<Seq<char>> {
    match s {
        Some(t) => Some(t@),
        None => None,
    }
}

impl View for CommitInfo {
    type V = CommitInfoView;

    closed spec fn view(&self) -> CommitInfoView {
        CommitInfoView { id: self.id@, summary: opt_string_view(self.summary) }
    }
}

/// Copies an optional string.
pub fn copy_opt_string(s: &Option<String>) -> (r: Option<String>)
    ensures
        opt_string_view(r) == opt_string_view(*s),
{
    match s {
        Some(t) => Some(t.clone()),
        None => None,
    }
}

/// Copies a byte vector.
pub fn copy_bytes(v: &Vec<u8>) -> (r: Vec<u8>)
    ensures
        r@ == v@,
{
    let mut r: Vec<u8> = Vec::new();
    let mut i: usize = 0;
    while i < v.len()
        invariant
            i <= v.len(),
            r@ == v@.subrange(0, i as int),
        decreases v.len() - i,
    {
        r.push(v[i]);
        i = i + 1;
        assert(r@ =~= v@.subrange(0, i as int));
    }
    assert(v@.subrange(0, v.len() as int) =~= v@);
    r
}

impl CommitInfo {
    /// A commit with the given object id and summary.
    pub fn new(id: Vec<u8>, summary: Option<String>) -> (c: CommitInfo)
        ensures
            c@ == (CommitInfoView { id: id@, summary: opt_string_view(summary) }),
    {
        CommitInfo { id, summary }
    }

    /// The raw bytes of the commit's object id.
    pub fn id(&self) -> (r: &Vec<u8>)
        ensures
            r@ == self@.id,
    {
        &self.id
    }

    /// The summary line of the commit message, when there is one.
    pub fn summary(&self) -> (r: Option<&str>)
        ensures
            match r {
                Some(s) => self@.summary == Some(s@),
                None => self@.summary is None,
            },
    {
        match &self.summary {
            Some(s) => Some(s.as_str()),
            None => None,
        }
    }

    /// A copy of the commit.
    pub fn copy(&self) -> (r: CommitInfo)
        ensures
            r@ == self@,
    {
        CommitInfo { id: copy_bytes(&self.id), summary: copy_opt_string(&self.summary) }
    }
}

} // verus!
