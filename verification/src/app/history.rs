use vstd::prelude::*;
use crate::app::commit::{CommitInfo, CommitInfoView};
use crate::app::diff::{Change, ChangeView};

verus! {

/// The abstract content of a [`TurningPoint`].
pub struct TurningPointView {
    pub commit: CommitInfoView,
    pub diff: ChangeView,
    pub is_latest: bool,
    pub is_earliest: bool,
    pub index: nat,
}

/// A commit that changed the file, with the change it made, and its place in
/// the history (`index` 0 is the latest).
pub struct TurningPoint {
    commit: CommitInfo,
    diff: Change,
    is_latest: bool,
    is_earliest: bool,
    index_of_history: usize,
}

impl View for TurningPoint {
    type V = TurningPointView;

    closed spec fn view(&self) -> TurningPointView {
        TurningPointView {
            commit: self.commit@,
            diff: self.diff@,
            is_latest: self.is_latest,
            is_earliest: self.is_earliest,
            index: self.index_of_history as nat,
        }
    }
}

impl TurningPoint {
    /// A turning point that is not yet placed in a history.
    pub fn new(commit: CommitInfo, diff: Change) -> (p: TurningPoint)
        ensures
            p@ == (TurningPointView {
                commit: commit@,
                diff: diff@,
                is_latest: false,
                is_earliest: false,
                index: 0,
            }),
    {
        TurningPoint { commit, diff, is_latest: false, is_earliest: false, index_of_history: 0 }
    }

    /// Whether this is the latest turning point of its history.
    pub fn is_latest(&self) -> (r: bool)
        ensures
            r == self@.is_latest,
    {
        self.is_latest
    }

    /// Whether this is the earliest turning point of its history.
    pub fn is_earliest(&self) -> (r: bool)
        ensures
            r == self@.is_earliest,
    {
        self.is_earliest
    }

    /// The commit of this turning point.
    pub fn commit(&self) -> (r: &CommitInfo)
        ensures
            r@ == self@.commit,
    {
        &self.commit
    }

    /// The change that the commit made to the file.
    pub fn diff(&self) -> (r: &Change)
        ensures
            r@ == self@.diff,
    {
        &self.diff
    }
}

/// The refusal of [`History::new`]: a history needs at least one turning point.
pub struct EmptyHistory;

impl EmptyHistory {
    /// The text that explains the refusal.
    pub fn message(&self) -> (r: String)
        ensures
            r@ == "No changes found for this file in the commit history"@,
    {
        String::from_str("No changes found for this file in the commit history")
    }
}

/// The turning point `p` placed at position `i` of a history of `len` points.
pub open spec fn placed(p: TurningPointView, i: nat, len: nat) -> TurningPointView {
    TurningPointView { index: i, is_latest: i == 0, is_earliest: i + 1 == len, ..p }
}

/// A sequence of turning points is a history: it is not empty, each point
/// knows its position, the first is the only latest one and the last the
/// only earliest one.
pub open spec fn is_history(s: Seq<TurningPointView>) -> bool {
    &&& s.len() > 0
    &&& forall|i: int|
        0 <= i < s.len() ==> #[trigger] s[i] == placed(s[i], i as nat, s.len())
}

/// The point one step older than `p` in `h`, if any.
pub open spec fn older(h: Seq<TurningPointView>, p: TurningPointView) -> Option<TurningPointView> {
    if p.index + 1 < h.len() {
        Some(h[p.index + 1 as int])
    } else {
        None
    }
}

/// The point one step newer than `p` in `h`, if any.
pub open spec fn newer(h: Seq<TurningPointView>, p: TurningPointView) -> Option<TurningPointView> {
    if 1 <= p.index && p.index - 1 < h.len() {
        Some(h[p.index - 1 as int])
    } else {
        None
    }
}

/// The views of an optional turning point.
pub open spec fn viewed(r: Option<&TurningPoint>) -> Option<TurningPointView> {
    match r {
        Some(p) => Some(p@),
        None => None,
    }
}

/// The point reached from `p` after `k` steps towards older points.
pub open spec fn steps_back(h: Seq<TurningPointView>, p: TurningPointView, k: nat) -> Option<
    TurningPointView,
>
    decreases k,
{
    if k == 0 {
        Some(p)
    } else {
        match steps_back(h, p, (k - 1) as nat) {
            Some(q) => older(h, q),
            None => None,
        }
    }
}

/// The turning points of a file, latest first.
pub struct History {
    points: Vec<TurningPoint>,
}

impl View for History {
    type V = Seq<TurningPointView>;

    closed spec fn view(&self) -> Seq<TurningPointView> {
        self.points@.map_values(|p: TurningPoint| p@)
    }
}

impl History {
    /// Places the given turning points, latest first, in a history: each gets
    /// its position, the first is marked latest and the last earliest.
    /// Refused when there is no point.
    pub fn new(points: Vec<TurningPoint>) -> (r: Result<History, EmptyHistory>)
        ensures
            match r {
                Ok(h) => {
                    &&& points@.len() > 0
                    &&& h@.len() == points@.len()
                    &&& forall|i: int|
                        0 <= i < h@.len() ==> #[trigger] h@[i] == placed(
                            points@[i]@,
                            i as nat,
                            points@.len(),
                        )
                    &&& is_history(h@)
                },
                Err(_) => points@.len() == 0,
            },
    {
        let ghost given = points@;
        let n = points.len();
        if n == 0 {
            return Err(EmptyHistory);
        }
        let mut rest = points;
        let mut reversed: Vec<TurningPoint> = Vec::new();
        while rest.len() > 0
            invariant
                rest@.len() + reversed@.len() == n,
                n == given.len(),
                rest@ == given.subrange(0, rest@.len() as int),
                forall|k: int|
                    0 <= k < reversed@.len() ==> #[trigger] reversed@[k] == given[n - 1 - k],
            decreases rest@.len(),
        {
            let p = rest.pop().unwrap();
            reversed.push(p);
        }
        let mut placed_points: Vec<TurningPoint> = Vec::new();
        let mut i: usize = 0;
        while i < n
            invariant
                i <= n,
                n == given.len(),
                reversed@.len() == n - i,
                placed_points@.len() == i,
                forall|k: int|
                    0 <= k < reversed@.len() ==> #[trigger] reversed@[k] == given[n - 1 - k],
                forall|k: int|
                    0 <= k < i ==> #[trigger] placed_points@[k]@ == placed(
                        given[k]@,
                        k as nat,
                        n as nat,
                    ),
            decreases n - i,
        {
            let mut p = reversed.pop().unwrap();
            assert(p == given[i as int]);
            p.index_of_history = i;
            p.is_latest = i == 0;
            p.is_earliest = i + 1 == n;
            placed_points.push(p);
            i = i + 1;
        }
        let ghost views = placed_points@.map_values(|p: TurningPoint| p@);
        assert forall|k: int| 0 <= k < views.len() implies #[trigger] views[k] == placed(
            views[k],
            k as nat,
            views.len(),
        ) by {
            assert(views[k] == placed_points@[k]@);
        }
        assert(is_history(views));
        let h = History { points: placed_points };
        assert(h@ == views);
        Ok(h)
    }

    /// A history holds at least one turning point, and each is placed at its
    /// position.
    #[verifier::type_invariant]
    spec fn is_placed(self) -> bool {
        is_history(self.points@.map_values(|p: TurningPoint| p@))
    }

    /// The latest turning point. A history always has one.
    pub fn latest(&self) -> (r: Option<&TurningPoint>)
        ensures
            is_history(self@),
            viewed(r) == Some(self@[0]),
    {
        proof {
            use_type_invariant(self);
        }
        if self.points.len() > 0 {
            Some(&self.points[0])
        } else {
            None
        }
    }

    /// The turning point one step older than `point`, if any.
    pub fn backward(&self, point: &TurningPoint) -> (r: Option<&TurningPoint>)
        ensures
            viewed(r) == older(self@, point@),
    {
        let len = self.points.len();
        match point.index_of_history.checked_add(1) {
            Some(i) => {
                if i < len {
                    Some(&self.points[i])
                } else {
                    None
                }
            },
            None => None,
        }
    }

    /// The turning point one step newer than `point`, if any.
    pub fn forward(&self, point: &TurningPoint) -> (r: Option<&TurningPoint>)
        ensures
            viewed(r) == newer(self@, point@),
    {
        match point.index_of_history.checked_sub(1) {
            Some(i) => {
                if i < self.points.len() {
                    Some(&self.points[i])
                } else {
                    None
                }
            },
            None => None,
        }
    }
}

/// In a history, going one step older and then one step newer comes back to
/// the point one started from, and so does going newer and then older.
pub proof fn lemma_backward_forward_roundtrip(h: History, i: int)
    requires
        is_history(h@),
        0 <= i < h@.len(),
    ensures
        older(h@, h@[i]) matches Some(q) ==> newer(h@, q) == Some(h@[i]),
        newer(h@, h@[i]) matches Some(q) ==> older(h@, q) == Some(h@[i]),
{
    let s = h@;
    assert(s[i] == placed(s[i], i as nat, s.len()));
    if i + 1 < s.len() {
        assert(s[i + 1] == placed(s[i + 1], (i + 1) as nat, s.len()));
    }
    if i >= 1 {
        assert(s[i - 1] == placed(s[i - 1], (i - 1) as nat, s.len()));
    }
}

/// In a history, a point is the latest exactly when it has no newer point,
/// and the earliest exactly when it has no older point.
pub proof fn lemma_ends_of_history(h: History, i: int)
    requires
        is_history(h@),
        0 <= i < h@.len(),
    ensures
        h@[i].is_latest <==> newer(h@, h@[i]) is None,
        h@[i].is_earliest <==> older(h@, h@[i]) is None,
{
    let s = h@;
    assert(s[i] == placed(s[i], i as nat, s.len()));
}

/// In a history, walking `k` steps back from the latest point reaches the
/// point at position `k`; after `len - 1` steps it is the earliest point, and
/// one more step finds nothing.
pub proof fn lemma_walk_from_latest(h: History, k: nat)
    requires
        is_history(h@),
    ensures
        k < h@.len() ==> steps_back(h@, h@[0], k) == Some(h@[k as int]),
        k < h@.len() ==> (steps_back(h@, h@[0], k)->0.is_earliest <==> k + 1 == h@.len()),
        k >= h@.len() ==> steps_back(h@, h@[0], k) is None,
    decreases k,
{
    let s = h@;
    if k == 0 {
        assert(s[0] == placed(s[0], 0, s.len()));
    } else {
        lemma_walk_from_latest(h, (k - 1) as nat);
        if k - 1 < s.len() {
            assert(s[k - 1] == placed(s[k - 1], (k - 1) as nat, s.len()));
            if k < s.len() {
                assert(s[k as int] == placed(s[k as int], k, s.len()));
            }
        }
    }
}

} // verus!
