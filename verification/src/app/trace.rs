use vstd::prelude::*;
use crate::app::commit::CommitInfo;
use crate::app::diff::{Change, ChangeView, FileSide, FileSideView};
use crate::app::history::{is_history, placed, EmptyHistory, History, TurningPoint, TurningPointView};

verus! {

/// The changes that one commit made to the files of the repository.
pub struct CommitChanges {
    pub commit: CommitInfo,
    pub changes: Vec<Change>,
}

pub open spec fn change_views(s: Seq<Change>) -> Seq<ChangeView> {
    s.map_values(|d: Change| d@)
}

pub open spec fn changes_views(s: Seq<CommitChanges>) -> Seq<Seq<ChangeView>> {
    s.map_values(|c: CommitChanges| change_views(c.changes@))
}

/// The change `d` produced the file version `file`: it left a file at that
/// path with that content.
pub open spec fn produces(d: ChangeView, file: FileSideView) -> bool {
    &&& file.path is Some
    &&& d.new_file.path == file.path
    &&& d.new_file.id == file.id
}

/// `j` is the first change of `cs` that produced `file`.
pub open spec fn is_first_producer(cs: Seq<ChangeView>, file: FileSideView, j: int) -> bool {
    &&& 0 <= j < cs.len()
    &&& produces(cs[j], file)
    &&& forall|k: int| 0 <= k < j ==> !produces(#[trigger] cs[k], file)
}

/// The position of the first change of `cs` that produced `file`, if any.
pub open spec fn first_producer(cs: Seq<ChangeView>, file: FileSideView) -> Option<int> {
    if exists|j: int| is_first_producer(cs, file, j) {
        Some(choose|j: int| is_first_producer(cs, file, j))
    } else {
        None
    }
}

/// The version of the file that is followed once the `k` newest commits of
/// `steps` have been read, starting from `latest`: each commit whose change
/// produced the followed version moves it to what that change started from.
#[verifier::opaque]
pub open spec fn file_before(steps: Seq<Seq<ChangeView>>, latest: FileSideView, k: nat) -> FileSideView
    decreases k,
{
    if k == 0 {
        latest
    } else {
        let prev = file_before(steps, latest, (k - 1) as nat);
        match first_producer(steps[k - 1], prev) {
            Some(j) => steps[k - 1][j].old_file,
            None => prev,
        }
    }
}

/// The turning points among the `k` newest commits of `steps`, as pairs of a
/// commit position and the position of the change that commit made to the
/// followed file, newest first.
#[verifier::opaque]
pub open spec fn turning_changes(steps: Seq<Seq<ChangeView>>, latest: FileSideView, k: nat) -> Seq<
    (int, int),
>
    decreases k,
{
    if k == 0 {
        Seq::empty()
    } else {
        let prev = turning_changes(steps, latest, (k - 1) as nat);
        match first_producer(steps[k - 1], file_before(steps, latest, (k - 1) as nat)) {
            Some(j) => prev.push(((k - 1) as int, j)),
            None => prev,
        }
    }
}

pub open spec fn pair_views(s: Seq<(usize, usize)>) -> Seq<(int, int)> {
    s.map_values(|p: (usize, usize)| (p.0 as int, p.1 as int))
}

/// The turning change at `i + 1` comes from an older commit than the one at
/// `i` and produced the version that the one at `i` started from.
pub open spec fn linked_at(steps: Seq<Seq<ChangeView>>, t: Seq<(int, int)>, i: int) -> bool {
    &&& t[i].0 < t[i + 1].0
    &&& change_at(steps, t[i + 1]).new_file == change_at(steps, t[i]).old_file
}

/// In `h`, the point at `i + 1` made the version of the file that the point
/// at `i` changed.
pub open spec fn continues(h: Seq<TurningPointView>, i: int) -> bool {
    h[i + 1].diff.new_file == h[i].diff.old_file
}

/// `h` holds, in order, the turning changes of `steps` for the file whose
/// latest version is `latest`.
pub open spec fn traces(h: Seq<TurningPointView>, steps: Seq<Seq<ChangeView>>, latest: FileSideView) -> bool {
    let t = turning_changes(steps, latest, steps.len());
    &&& h.len() == t.len()
    &&& forall|i: int| 0 <= i < h.len() ==> (#[trigger] h[i]).diff == change_at(steps, t[i])
}

/// The change that a pair of positions designates.
pub open spec fn change_at(steps: Seq<Seq<ChangeView>>, p: (int, int)) -> ChangeView {
    steps[p.0][p.1]
}

/// At most one position is the first producer of a file.
pub proof fn lemma_first_producer_unique(cs: Seq<ChangeView>, file: FileSideView, j: int)
    requires
        is_first_producer(cs, file, j),
    ensures
        first_producer(cs, file) == Some(j),
{
    let c = choose|i: int| is_first_producer(cs, file, i);
    assert(is_first_producer(cs, file, c));
    if c < j {
        assert(!produces(cs[c], file));
    } else if j < c {
        assert(!produces(cs[j], file));
    }
}

/// The turning changes of a history link up: each designates a change of its
/// own commit, commits come newest first, the newest turning change produced
/// the latest version of the file, each older turning change produced the
/// version that the next newer one started from, and the version followed
/// after them all is what the oldest of them started from.
pub proof fn lemma_turning_changes_link(steps: Seq<Seq<ChangeView>>, latest: FileSideView, k: nat)
    requires
        k <= steps.len(),
    ensures
        ({
            let t = turning_changes(steps, latest, k);
            &&& forall|i: int|
                0 <= i < t.len() ==> 0 <= (#[trigger] t[i]).0 < k && 0 <= t[i].1 < steps[t[i].0].len()
            &&& forall|i: int|
                0 <= i < t.len() ==> produces(
                    #[trigger] change_at(steps, t[i]),
                    file_before(steps, latest, t[i].0 as nat),
                )
            &&& t.len() > 0 ==> change_at(steps, t[0]).new_file == latest
            &&& forall|i: int| 0 <= i < t.len() - 1 ==> #[trigger] linked_at(steps, t, i)
            &&& file_before(steps, latest, k) == (if t.len() == 0 {
                latest
            } else {
                change_at(steps, t[t.len() - 1]).old_file
            })
        }),
    decreases k,
{
    reveal(turning_changes);
    reveal(file_before);
    if k > 0 {
        let km = (k - 1) as nat;
        lemma_turning_changes_link(steps, latest, km);
        let prev = turning_changes(steps, latest, km);
        let f = file_before(steps, latest, km);
        match first_producer(steps[km as int], f) {
            Some(j) => {
                let cs = steps[km as int];
                assert(is_first_producer(cs, f, j));
                let t = prev.push((km as int, j));
                assert(t[t.len() - 1] == (km as int, j));
                assert forall|i: int| 0 <= i < prev.len() implies #[trigger] t[i] == prev[i] by {}
                assert(change_at(steps, (km as int, j)).new_file == f);
                assert forall|i: int| 0 <= i < t.len() - 1 implies #[trigger] linked_at(steps, t, i) by {
                    if i < prev.len() - 1 {
                        assert(linked_at(steps, prev, i));
                    }
                }
            },
            None => {},
        }
    }
}

/// The turning changes of the `m` newest commits stay, in place, at the front
/// of those of the `n` newest commits (`m <= n`); those that come after them
/// belong to commits older than the `m` newest.
pub proof fn lemma_turning_changes_grow(steps: Seq<Seq<ChangeView>>, latest: FileSideView, m: nat, n: nat)
    requires
        m <= n,
    ensures
        turning_changes(steps, latest, m).len() <= turning_changes(steps, latest, n).len(),
        forall|i: int|
            0 <= i < turning_changes(steps, latest, m).len() ==> #[trigger] turning_changes(
                steps,
                latest,
                n,
            )[i] == turning_changes(steps, latest, m)[i],
        forall|i: int|
            turning_changes(steps, latest, m).len() <= i < turning_changes(steps, latest, n).len()
                ==> #[trigger] turning_changes(steps, latest, n)[i].0 >= m,
    decreases n,
{
    reveal(turning_changes);
    if n > m {
        lemma_turning_changes_grow(steps, latest, m, (n - 1) as nat);
    }
}

/// Completeness of the trace: when a change of commit `k` produced the
/// version of the file followed after the `k` newer commits, whatever its
/// status and whether or not it renamed the file, commit `k` is a turning
/// point with the first such change, and the file is followed on from what
/// that change started from (its old id and old path).
pub proof fn lemma_trace_complete(steps: Seq<Seq<ChangeView>>, latest: FileSideView, k: nat, j: int)
    requires
        k < steps.len(),
        0 <= j < steps[k as int].len(),
        produces(steps[k as int][j], file_before(steps, latest, k)),
        forall|i: int| 0 <= i < j ==> !produces(#[trigger] steps[k as int][i], file_before(steps, latest, k)),
    ensures
        turning_changes(steps, latest, steps.len()).contains((k as int, j)),
        file_before(steps, latest, k + 1) == steps[k as int][j].old_file,
{
    let f = file_before(steps, latest, k);
    assert(is_first_producer(steps[k as int], f, j));
    lemma_first_producer_unique(steps[k as int], f, j);
    reveal(turning_changes);
    reveal(file_before);
    assert(file_before(steps, latest, k + 1) == steps[k as int][j].old_file);
    let t = turning_changes(steps, latest, k + 1);
    assert(t == turning_changes(steps, latest, k).push((k as int, j)));
    let i = t.len() - 1;
    assert(t[i] == (k as int, j));
    lemma_turning_changes_grow(steps, latest, k + 1, steps.len());
    assert(turning_changes(steps, latest, steps.len())[i] == (k as int, j));
}

/// When no change of commit `k` produced the version of the file followed
/// after the `k` newer commits, commit `k` is no turning point and the same
/// version is followed on.
pub proof fn lemma_trace_skips(steps: Seq<Seq<ChangeView>>, latest: FileSideView, k: nat)
    requires
        k < steps.len(),
        forall|j: int|
            0 <= j < steps[k as int].len() ==> !produces(
                #[trigger] steps[k as int][j],
                file_before(steps, latest, k),
            ),
    ensures
        file_before(steps, latest, k + 1) == file_before(steps, latest, k),
        forall|i: int|
            0 <= i < turning_changes(steps, latest, steps.len()).len() ==> (#[trigger] turning_changes(
                steps,
                latest,
                steps.len(),
            )[i]).0 != k,
{
    let f = file_before(steps, latest, k);
    assert(!exists|j: int| is_first_producer(steps[k as int], f, j));
    reveal(turning_changes);
    reveal(file_before);
    assert(turning_changes(steps, latest, k + 1) == turning_changes(steps, latest, k));
    lemma_turning_changes_link(steps, latest, k);
    lemma_turning_changes_grow(steps, latest, k, steps.len());
    let t = turning_changes(steps, latest, steps.len());
    let tk = turning_changes(steps, latest, k);
    assert forall|i: int| 0 <= i < t.len() implies (#[trigger] t[i]).0 != k by {
        if i < tk.len() {
            assert(t[i] == tk[i]);
            assert(tk[i].0 < k);
        } else {
            lemma_turning_changes_grow(steps, latest, k + 1, steps.len());
            assert(t[i].0 >= k + 1);
        }
    }
}

/// Whether the change `d` produced the file version `file`.
pub fn produces_file(d: &Change, file: &FileSide) -> (r: bool)
    ensures
        r == produces(d@, file@),
{
    match (&d.new_file.path, &file.path) {
        (Some(p), Some(q)) => bytes_equal(p, q) && bytes_equal(&d.new_file.id, &file.id),
        _ => false,
    }
}

/// Whether two byte strings are equal.
pub fn bytes_equal(a: &Vec<u8>, b: &Vec<u8>) -> (r: bool)
    ensures
        r == (a@ == b@),
{
    if a.len() != b.len() {
        return false;
    }
    let mut i: usize = 0;
    while i < a.len()
        invariant
            i <= a.len(),
            a.len() == b.len(),
            forall|k: int| 0 <= k < i ==> a@[k] == b@[k],
        decreases a.len() - i,
    {
        if a[i] != b[i] {
            return false;
        }
        i = i + 1;
    }
    assert(a@ =~= b@);
    true
}

/// The position of the first change of `changes` that produced `file`, if any.
pub fn find_producer(changes: &Vec<Change>, file: &FileSide) -> (r: Option<usize>)
    ensures
        match r {
            Some(j) => first_producer(change_views(changes@), file@) == Some(j as int),
            None => first_producer(change_views(changes@), file@) is None,
        },
{
    let ghost cs = change_views(changes@);
    let mut j: usize = 0;
    while j < changes.len()
        invariant
            j <= changes.len(),
            cs == change_views(changes@),
            forall|k: int| 0 <= k < j ==> !produces(#[trigger] cs[k], file@),
        decreases changes.len() - j,
    {
        if produces_file(&changes[j], file) {
            proof {
                lemma_first_producer_unique(cs, file@, j as int);
            }
            return Some(j);
        }
        j = j + 1;
    }
    assert(!exists|i: int| is_first_producer(cs, file@, i));
    None
}

/// The turning changes among `steps`, newest first, following the file from
/// its `latest` version back through the commits.
pub fn trace_changes(steps: &Vec<CommitChanges>, latest: &FileSide) -> (r: Vec<(usize, usize)>)
    ensures
        pair_views(r@) == turning_changes(changes_views(steps@), latest@, steps@.len()),
{
    let ghost all = changes_views(steps@);
    let mut followed = latest.copy();
    let mut found: Vec<(usize, usize)> = Vec::new();
    let mut k: usize = 0;
    proof {
        reveal(turning_changes);
        reveal(file_before);
        assert(pair_views(found@) =~= Seq::empty());
    }
    while k < steps.len()
        invariant
            k <= steps.len(),
            all == changes_views(steps@),
            followed@ == file_before(all, latest@, k as nat),
            pair_views(found@) == turning_changes(all, latest@, k as nat),
        decreases steps.len() - k,
    {
        reveal(turning_changes);
        reveal(file_before);
        let changes = &steps[k].changes;
        assert(all[k as int] == change_views(changes@));
        let ghost before = found@;
        match find_producer(changes, &followed) {
            Some(j) => {
                let next = changes[j].old_file.copy();
                followed = next;
                found.push((k, j));
                assert(pair_views(found@) =~= pair_views(before).push((k as int, j as int)));
            },
            None => {},
        }
        k = k + 1;
    }
    found
}

/// The turning points that the pairs of `found` designate, unplaced.
fn collect_points(steps: &Vec<CommitChanges>, found: &Vec<(usize, usize)>) -> (r: Vec<TurningPoint>)
    requires
        forall|m: int|
            0 <= m < found@.len() ==> (#[trigger] found@[m]).0 < steps@.len() && found@[m].1
                < steps@[found@[m].0 as int].changes@.len(),
    ensures
        r@.len() == found@.len(),
        forall|m: int|
            0 <= m < r@.len() ==> {
                &&& (#[trigger] r@[m])@.commit == steps@[found@[m].0 as int].commit@
                &&& r@[m]@.diff == steps@[found@[m].0 as int].changes@[found@[m].1 as int]@
            },
{
    let mut points: Vec<TurningPoint> = Vec::new();
    let mut i: usize = 0;
    while i < found.len()
        invariant
            i <= found.len(),
            forall|m: int|
                0 <= m < found@.len() ==> (#[trigger] found@[m]).0 < steps@.len() && found@[m].1
                    < steps@[found@[m].0 as int].changes@.len(),
            points@.len() == i,
            forall|m: int|
                0 <= m < i ==> {
                    &&& (#[trigger] points@[m])@.commit == steps@[found@[m].0 as int].commit@
                    &&& points@[m]@.diff == steps@[found@[m].0 as int].changes@[found@[
                        m
                    ].1 as int]@
                },
        decreases found.len() - i,
    {
        let (c, j) = found[i];
        let step = &steps[c];
        let p = TurningPoint::new(step.commit.copy(), step.changes[j].copy());
        points.push(p);
        i = i + 1;
    }
    points
}

/// The history of a file from the changes of the commits, newest first,
/// starting from the file's `latest` version: each commit whose change
/// produced the followed version is a turning point, with that change.
/// Refused when no commit changed the file.
pub fn history_from_changes(steps: &Vec<CommitChanges>, latest: &FileSide) -> (r: Result<
    History,
    EmptyHistory,
>)
    ensures
        ({
            let all = changes_views(steps@);
            let t = turning_changes(all, latest@, steps@.len());
            match r {
                Ok(h) => {
                    &&& t.len() > 0
                    &&& is_history(h@)
                    &&& h@.len() == t.len()
                    &&& forall|i: int|
                        0 <= i < h@.len() ==> {
                            &&& (#[trigger] h@[i]).commit == steps@[t[i].0].commit@
                            &&& h@[i].diff == all[t[i].0][t[i].1]
                        }
                    &&& h@[0].diff.new_file == latest@
                    &&& forall|i: int| 0 <= i < h@.len() - 1 ==> #[trigger] continues(h@, i)
                    &&& traces(h@, all, latest@)
                },
                Err(_) => t.len() == 0,
            }
        }),
{
    let ghost all = changes_views(steps@);
    let found = trace_changes(steps, latest);
    let ghost t = turning_changes(all, latest@, steps@.len());
    proof {
        lemma_turning_changes_link(all, latest@, steps@.len());
        assert forall|m: int| 0 <= m < found@.len() implies (#[trigger] found@[m]).0 < steps@.len()
            && found@[m].1 < steps@[found@[m].0 as int].changes@.len() by {
            assert(t[m] == (found@[m].0 as int, found@[m].1 as int));
            assert(all[t[m].0] == change_views(steps@[t[m].0].changes@));
        }
    }
    let points = collect_points(steps, &found);
    let ghost given = points@;
    let r = History::new(points);
    proof {
        if let Ok(h) = &r {
            lemma_history_from_points(steps@, latest@, found@, given, h@);
        }
    }
    r
}

/// What the points collected for the turning changes, once placed, say of
/// the history.
proof fn lemma_history_from_points(
    steps: Seq<CommitChanges>,
    latest: FileSideView,
    found: Seq<(usize, usize)>,
    given: Seq<TurningPoint>,
    h: Seq<TurningPointView>,
)
    requires
        pair_views(found) == turning_changes(changes_views(steps), latest, steps.len()),
        given.len() == found.len(),
        forall|m: int|
            0 <= m < given.len() ==> {
                &&& (#[trigger] given[m])@.commit == steps[found[m].0 as int].commit@
                &&& given[m]@.diff == steps[found[m].0 as int].changes@[found[m].1 as int]@
            },
        given.len() > 0,
        h.len() == given.len(),
        forall|i: int|
            0 <= i < h.len() ==> #[trigger] h[i] == placed(given[i]@, i as nat, given.len()),
    ensures
        ({
            let all = changes_views(steps);
            let t = turning_changes(all, latest, steps.len());
            &&& forall|i: int|
                0 <= i < h.len() ==> {
                    &&& (#[trigger] h[i]).commit == steps[t[i].0].commit@
                    &&& h[i].diff == all[t[i].0][t[i].1]
                }
            &&& h[0].diff.new_file == latest
            &&& forall|i: int| 0 <= i < h.len() - 1 ==> #[trigger] continues(h, i)
        }),
{
    let all = changes_views(steps);
    let t = turning_changes(all, latest, steps.len());
    lemma_turning_changes_link(all, latest, steps.len());
    assert forall|i: int| 0 <= i < h.len() implies {
        &&& (#[trigger] h[i]).commit == steps[t[i].0].commit@
        &&& h[i].diff == all[t[i].0][t[i].1]
    } by {
        assert(h[i] == placed(given[i]@, i as nat, given.len()));
        assert(t[i] == (found[i].0 as int, found[i].1 as int));
        assert(all[t[i].0] == change_views(steps[t[i].0].changes@));
    }
    assert(h[0].diff == change_at(all, t[0]));
    assert forall|i: int| 0 <= i < h.len() - 1 implies #[trigger] continues(h, i) by {
        assert(linked_at(all, t, i));
        assert(h[i + 1].diff == change_at(all, t[i + 1]));
        assert(h[i].diff == change_at(all, t[i]));
    }
}

} // verus!
