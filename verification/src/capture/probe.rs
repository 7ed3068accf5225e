//! Watching what happens after a keystroke goes through: which apps come
//! to the front or open windows, and whether the input source changed.
//!
//! The caller polls the system (frontmost app, on-screen windows, input
//! source) and hands each observation to [`WatchState::observe`]; the
//! decisions of what counts as a reaction, and in what order reactions
//! are reported, are made here.

use vstd::prelude::*;

use super::Captured;
use crate::text::str_eq;

verus! {

/// What a probe observed after letting the key through.
#[derive(Debug, Clone, PartialEq, Eq)]
pub struct Probe {
    pub captured: Captured,
    /// Apps that came to the front, then apps that opened windows.
    pub reactions: Vec<Reaction>,
    /// The input source before and after, when it changed.
    pub input_source_change: Option<(String, String)>,
}

/// One app that reacted to the key.
#[derive(Debug, Clone, PartialEq, Eq)]
pub struct Reaction {
    pub pid: i32,
    pub app_name: Option<String>,
    pub bundle_id: Option<String>,
    pub kind: ReactionKind,
}

#[derive(Debug, Clone, Copy, PartialEq, Eq, Structural)]
pub enum ReactionKind {
    /// The app came to the front.
    Activated,
    /// The app opened this many windows.
    NewWindows(usize),
}

/// Whether `baseline` has a window with this number.
pub open spec fn has_window(baseline: Seq<(u32, i32)>, window: u32) -> bool {
    exists|i: int| 0 <= i < baseline.len() && (#[trigger] baseline[i]).0 == window
}

/// Add one to the count of `pid`, or start it at one.
pub open spec fn bump(counts: Seq<(i32, nat)>, pid: i32) -> Seq<(i32, nat)> {
    if exists|i: int| 0 <= i < counts.len() && (#[trigger] counts[i]).0 == pid {
        let i = choose|i: int| 0 <= i < counts.len() && (#[trigger] counts[i]).0 == pid;
        counts.update(i, (pid, counts[i].1 + 1))
    } else {
        counts.push((pid, 1))
    }
}

/// Windows of `now` that were not in `baseline`, counted per owning pid
/// in order of first appearance. Windows of `own_pid` never count.
pub open spec fn spec_new_windows(baseline: Seq<(u32, i32)>, now: Seq<(u32, i32)>, own_pid: i32) -> Seq<(i32, nat)>
    decreases now.len(),
{
    if now.len() == 0 {
        Seq::empty()
    } else {
        let prev = spec_new_windows(baseline, now.drop_last(), own_pid);
        let (window, pid) = now.last();
        if pid == own_pid || has_window(baseline, window) {
            prev
        } else {
            bump(prev, pid)
        }
    }
}

pub open spec fn counts_view(v: Seq<(i32, usize)>) -> Seq<(i32, nat)> {
    v.map_values(|p: (i32, usize)| (p.0, p.1 as nat))
}

/// Each pid at most once.
pub open spec fn unique_pids(counts: Seq<(i32, nat)>) -> bool {
    forall|i: int, j: int| 0 <= i < j < counts.len() ==> (#[trigger] counts[i]).0 != (#[trigger] counts[j]).0
}

proof fn lemma_new_windows_facts(baseline: Seq<(u32, i32)>, now: Seq<(u32, i32)>, own_pid: i32)
    ensures
        unique_pids(spec_new_windows(baseline, now, own_pid)),
        spec_new_windows(baseline, now, own_pid).len() <= now.len(),
        forall|i: int| 0 <= i < spec_new_windows(baseline, now, own_pid).len()
            ==> (#[trigger] spec_new_windows(baseline, now, own_pid)[i]).1 <= now.len(),
    decreases now.len(),
{
    if now.len() > 0 {
        lemma_new_windows_facts(baseline, now.drop_last(), own_pid);
    }
}

/// Windows present now that were not in `baseline`, counted per owning
/// pid; windows are `(window number, owning pid)` pairs.
pub fn new_windows(baseline: &Vec<(u32, i32)>, now: &Vec<(u32, i32)>, own_pid: i32) -> (counts: Vec<(i32, usize)>)
    ensures
        counts_view(counts@) == spec_new_windows(baseline@, now@, own_pid),
{
    let mut counts: Vec<(i32, usize)> = Vec::new();
    let mut i: usize = 0;
    while i < now.len()
        invariant
            i <= now@.len(),
            counts_view(counts@) == spec_new_windows(baseline@, now@.take(i as int), own_pid),
        decreases now@.len() - i,
    {
        proof {
            lemma_new_windows_facts(baseline@, now@.take(i as int), own_pid);
        }
        assert(now@.take(i + 1).drop_last() =~= now@.take(i as int));
        assert(now@.take(i + 1).last() == now@[i as int]);
        let (window, pid) = now[i];
        if pid != own_pid {
            let mut seen = false;
            let mut k: usize = 0;
            while k < baseline.len()
                invariant
                    k <= baseline@.len(),
                    seen == exists|q: int| 0 <= q < k && (#[trigger] baseline@[q]).0 == window,
                decreases baseline@.len() - k,
            {
                if baseline[k].0 == window {
                    seen = true;
                }
                k = k + 1;
            }
            if !seen {
                let ghost prev = counts_view(counts@);
                let mut j: usize = 0;
                while j < counts.len() && counts[j].0 != pid
                    invariant
                        j <= counts@.len(),
                        prev == counts_view(counts@),
                        forall|q: int| 0 <= q < j ==> (#[trigger] counts@[q]).0 != pid,
                    decreases counts@.len() - j,
                {
                    j = j + 1;
                }
                if j < counts.len() {
                    proof {
                        assert(prev[j as int].0 == pid);
                        let c = choose|q: int| 0 <= q < prev.len() && (#[trigger] prev[q]).0 == pid;
                        if c != j as int {
                            assert(prev[c].0 == prev[j as int].0);
                        }
                        assert(prev[j as int].1 <= i);
                    }
                    let n = counts[j].1;
                    counts.set(j, (pid, n + 1));
                    assert(counts_view(counts@) =~= bump(prev, pid));
                } else {
                    assert(forall|q: int| 0 <= q < prev.len() ==> (#[trigger] prev[q]).0 != pid);
                    counts.push((pid, 1));
                    assert(counts_view(counts@) =~= bump(prev, pid));
                }
            }
        }
        i = i + 1;
    }
    assert(now@.take(now@.len() as int) =~= now@);
    counts
}

/// The larger count per pid: a pid seen with `count` new windows keeps
/// the highest count any observation gave it.
pub open spec fn keep_max(opened: Seq<(i32, nat)>, pid: i32, count: nat) -> Seq<(i32, nat)> {
    if exists|i: int| 0 <= i < opened.len() && (#[trigger] opened[i]).0 == pid {
        let i = choose|i: int| 0 <= i < opened.len() && (#[trigger] opened[i]).0 == pid;
        opened.update(i, (pid, if opened[i].1 >= count { opened[i].1 } else { count }))
    } else {
        opened.push((pid, count))
    }
}

pub open spec fn merge_counts(opened: Seq<(i32, nat)>, counts: Seq<(i32, nat)>) -> Seq<(i32, nat)>
    decreases counts.len(),
{
    if counts.len() == 0 {
        opened
    } else {
        let prev = merge_counts(opened, counts.drop_last());
        keep_max(prev, counts.last().0, counts.last().1)
    }
}

/// What the watch has seen so far.
#[derive(Debug, Clone)]
pub struct WatchState {
    /// Apps that came to the front, in order, each once.
    pub activated: Vec<i32>,
    /// Per app, the most new windows any observation showed.
    pub opened: Vec<(i32, usize)>,
}

/// The activations after seeing `front` at the front: an app that was
/// not at the front before the key, is not ourselves, and was not seen
/// yet is added.
pub open spec fn spec_activate(activated: Seq<i32>, before: Option<i32>, front: Option<i32>, own_pid: i32) -> Seq<i32> {
    match front {
        Some(f) => if Some(f) != before && f != own_pid && !activated.contains(f) {
            activated.push(f)
        } else {
            activated
        },
        None => activated,
    }
}

impl WatchState {
    /// Each app has at most one window count.
    pub open spec fn wf(&self) -> bool {
        unique_pids(counts_view(self.opened@))
    }

    /// Nothing seen yet.
    pub fn new() -> (s: WatchState)
        ensures
            s.wf(),
            s.activated@.len() == 0,
            s.opened@.len() == 0,
    {
        WatchState { activated: Vec::new(), opened: Vec::new() }
    }

    /// Take in one observation: the frontmost app now, and the windows
    /// on screen now, against the frontmost app and windows before the
    /// key.
    pub fn observe(
        &mut self,
        before_front: Option<i32>,
        baseline: &Vec<(u32, i32)>,
        front: Option<i32>,
        now: &Vec<(u32, i32)>,
        own_pid: i32,
    )
        requires
            old(self).wf(),
        ensures
            final(self).wf(),
            final(self).activated@ == spec_activate(old(self).activated@, before_front, front, own_pid),
            counts_view(final(self).opened@) == merge_counts(
                counts_view(old(self).opened@),
                spec_new_windows(baseline@, now@, own_pid),
            ),
    {
        if let Some(f) = front {
            let mut seen = false;
            let mut k: usize = 0;
            while k < self.activated.len()
                invariant
                    k <= self.activated@.len(),
                    self.activated@ == old(self).activated@,
                    self.opened@ == old(self).opened@,
                    seen == exists|q: int| 0 <= q < k && self.activated@[q] == f,
                decreases self.activated@.len() - k,
            {
                if self.activated[k] == f {
                    seen = true;
                }
                k = k + 1;
            }
            let was_front = match before_front {
                Some(b) => b == f,
                None => false,
            };
            if !was_front && f != own_pid && !seen {
                self.activated.push(f);
            }
        }
        assert(self.activated@ == spec_activate(old(self).activated@, before_front, front, own_pid));
        let ghost acts = self.activated@;
        let counts = new_windows(baseline, now, own_pid);
        let ghost base = counts_view(self.opened@);
        let mut i: usize = 0;
        while i < counts.len()
            invariant
                i <= counts@.len(),
                self.activated@ == acts,
                unique_pids(counts_view(self.opened@)),
                counts_view(self.opened@) == merge_counts(base, counts_view(counts@).take(i as int)),
            decreases counts@.len() - i,
        {
            assert(counts_view(counts@).take(i + 1).drop_last() =~= counts_view(counts@).take(i as int));
            let (pid, count) = counts[i];
            let ghost prev = counts_view(self.opened@);
            let mut j: usize = 0;
            while j < self.opened.len() && self.opened[j].0 != pid
                invariant
                    j <= self.opened@.len(),
                    self.activated@ == acts,
                    prev == counts_view(self.opened@),
                    forall|q: int| 0 <= q < j ==> (#[trigger] self.opened@[q]).0 != pid,
                decreases self.opened@.len() - j,
            {
                j = j + 1;
            }
            if j < self.opened.len() {
                let n = self.opened[j].1;
                let m = if n >= count { n } else { count };
                proof {
                    assert(prev[j as int].0 == pid);
                    let c = choose|q: int| 0 <= q < prev.len() && (#[trigger] prev[q]).0 == pid;
                    if c != j as int {
                        assert(prev[c].0 == prev[j as int].0);
                    }
                }
                self.opened.set(j, (pid, m));
                assert(counts_view(self.opened@) =~= keep_max(prev, pid, count as nat));
            } else {
                assert(forall|q: int| 0 <= q < prev.len() ==> (#[trigger] prev[q]).0 != pid);
                self.opened.push((pid, count));
                assert(counts_view(self.opened@) =~= keep_max(prev, pid, count as nat));
            }
            i = i + 1;
        }
        assert(counts_view(counts@).take(counts@.len() as int) =~= counts_view(counts@));
    }
}

/// Orders reactions by most windows first, then by pid.
pub open spec fn windows_first(a: (i32, nat), b: (i32, nat)) -> bool {
    a.1 > b.1 || (a.1 == b.1 && a.0 <= b.0)
}

/// The reactions to report: the apps that came to the front, in the
/// order they did, then the apps that opened windows, most windows
/// first and by pid among equals.
pub fn reaction_order(activated: &Vec<i32>, opened: &Vec<(i32, usize)>) -> (r: Vec<(i32, ReactionKind)>)
    requires
        unique_pids(counts_view(opened@)),
    ensures
        r@.len() == activated@.len() + opened@.len(),
        forall|k: int|
            0 <= k < opened@.len() ==> #[trigger] r@.subrange(activated@.len() as int, r@.len() as int).contains(
                (opened@[k].0, ReactionKind::NewWindows(opened@[k].1)),
            ),
        forall|i: int| 0 <= i < activated@.len() ==> (#[trigger] r@[i]) == (activated@[i], ReactionKind::Activated),
        forall|i: int|
            activated@.len() <= i < r@.len() ==> ((#[trigger] r@[i]).1 matches ReactionKind::NewWindows(n)
                && opened@.contains((r@[i].0, n))),
        forall|i: int, j: int|
            activated@.len() <= i < j < r@.len() ==> windows_first(
                ((#[trigger] r@[i]).0, r@[i].1->NewWindows_0 as nat),
                ((#[trigger] r@[j]).0, r@[j].1->NewWindows_0 as nat),
            ),
{
    let mut sorted: Vec<(i32, usize)> = Vec::new();
    let mut i: usize = 0;
    while i < opened.len()
        invariant
            i <= opened@.len(),
            sorted@.len() == i,
            forall|q: int| 0 <= q < sorted@.len() ==> opened@.contains(#[trigger] sorted@[q]),
            forall|k: int| 0 <= k < i ==> sorted@.contains(#[trigger] opened@[k]),
            forall|p: int, q: int|
                0 <= p < q < sorted@.len() ==> windows_first(
                    ((#[trigger] sorted@[p]).0, sorted@[p].1 as nat),
                    ((#[trigger] sorted@[q]).0, sorted@[q].1 as nat),
                ),
        decreases opened@.len() - i,
    {
        let x = opened[i];
        let mut j: usize = 0;
        while j < sorted.len() && (sorted[j].1 > x.1 || (sorted[j].1 == x.1 && sorted[j].0 <= x.0))
            invariant
                j <= sorted@.len(),
                forall|q: int| 0 <= q < j ==> windows_first(((#[trigger] sorted@[q]).0, sorted@[q].1 as nat), (x.0, x.1 as nat)),
            decreases sorted@.len() - j,
        {
            j = j + 1;
        }
        let ghost before = sorted@;
        assert(opened@[i as int] == x);
        sorted.insert(j, x);
        assert forall|k: int| 0 <= k < i + 1 implies sorted@.contains(#[trigger] opened@[k]) by {
            if k < i {
                let q = choose|q: int| 0 <= q < before.len() && before[q] == opened@[k];
                if q < j {
                    assert(sorted@[q] == before[q]);
                } else {
                    assert(sorted@[q + 1] == before[q]);
                }
            } else {
                assert(sorted@[j as int] == x);
            }
        }
        assert forall|q: int| 0 <= q < sorted@.len() implies opened@.contains(#[trigger] sorted@[q]) by {
            if q < j {
                assert(sorted@[q] == before[q]);
            } else if q > j {
                assert(sorted@[q] == before[q - 1]);
            }
        }
        assert forall|p: int, q: int| 0 <= p < q < sorted@.len() implies windows_first(
            ((#[trigger] sorted@[p]).0, sorted@[p].1 as nat),
            ((#[trigger] sorted@[q]).0, sorted@[q].1 as nat),
        ) by {
            if q < j {
                assert(sorted@[p] == before[p] && sorted@[q] == before[q]);
            } else if q == j {
                assert(sorted@[p] == before[p]);
            } else if p == j {
                assert(sorted@[q] == before[q - 1]);
                if j < before.len() {
                    assert(!windows_first((before[j as int].0, before[j as int].1 as nat), (x.0, x.1 as nat)));
                    if q - 1 > j {
                        assert(windows_first((before[j as int].0, before[j as int].1 as nat), (before[q - 1].0, before[q - 1].1 as nat)));
                    }
                }
            } else if p < j {
                assert(sorted@[p] == before[p] && sorted@[q] == before[q - 1]);
            } else {
                assert(sorted@[p] == before[p - 1] && sorted@[q] == before[q - 1]);
            }
        }
        i = i + 1;
    }
    let mut r: Vec<(i32, ReactionKind)> = Vec::new();
    let mut k: usize = 0;
    while k < activated.len()
        invariant
            k <= activated@.len(),
            r@.len() == k,
            forall|q: int| 0 <= q < k ==> (#[trigger] r@[q]) == (activated@[q], ReactionKind::Activated),
        decreases activated@.len() - k,
    {
        r.push((activated[k], ReactionKind::Activated));
        k = k + 1;
    }
    let mut m: usize = 0;
    while m < sorted.len()
        invariant
            m <= sorted@.len(),
            sorted@.len() == opened@.len(),
            r@.len() == activated@.len() + m,
            forall|q: int| 0 <= q < activated@.len() ==> (#[trigger] r@[q]) == (activated@[q], ReactionKind::Activated),
            forall|q: int| 0 <= q < m ==> (#[trigger] r@[activated@.len() + q]) == (sorted@[q].0, ReactionKind::NewWindows(sorted@[q].1)),
        decreases sorted@.len() - m,
    {
        r.push((sorted[m].0, ReactionKind::NewWindows(sorted[m].1)));
        m = m + 1;
    }
    assert forall|i: int| activated@.len() <= i < r@.len() implies ((#[trigger] r@[i]).1 matches ReactionKind::NewWindows(n)
        && opened@.contains((r@[i].0, n))) by {
        assert(r@[activated@.len() + (i - activated@.len())] == r@[i]);
    }
    let ghost tail = r@.subrange(activated@.len() as int, r@.len() as int);
    assert forall|k: int| 0 <= k < opened@.len() implies #[trigger] tail.contains(
        (opened@[k].0, ReactionKind::NewWindows(opened@[k].1)),
    ) by {
        assert(sorted@.contains(opened@[k]));
        let q = choose|q: int| 0 <= q < sorted@.len() && sorted@[q] == opened@[k];
        assert(r@[activated@.len() + q] == (sorted@[q].0, ReactionKind::NewWindows(sorted@[q].1)));
        assert(tail[q] == r@[activated@.len() + q]);
    }
    assert forall|i: int, j: int| activated@.len() <= i < j < r@.len() implies windows_first(
        ((#[trigger] r@[i]).0, r@[i].1->NewWindows_0 as nat),
        ((#[trigger] r@[j]).0, r@[j].1->NewWindows_0 as nat),
    ) by {
        let a = i - activated@.len();
        let b = j - activated@.len();
        assert(r@[activated@.len() + a] == r@[i]);
        assert(r@[activated@.len() + b] == r@[j]);
        assert(windows_first((sorted@[a].0, sorted@[a].1 as nat), (sorted@[b].0, sorted@[b].1 as nat)));
    }
    r
}

/// The input source change, when there was one: both readings present
/// and different.
pub fn input_source_change(before: &Option<String>, after: Option<String>) -> (r: Option<(String, String)>)
    ensures
        match (before, after) {
            (Some(b), Some(a)) => if b@ != a@ {
                r matches Some((x, y)) && x@ == b@ && y@ == a@
            } else {
                r is None
            },
            _ => r is None,
        },
{
    match (before, after) {
        (Some(b), Some(a)) => {
            if str_eq(b.as_str(), a.as_str()) {
                None
            } else {
                Some((b.clone(), a))
            }
        },
        _ => None,
    }
}

} // verus!
