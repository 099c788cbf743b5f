//! Fan control plans: what a caller asks of each fan, and the schedule of
//! controller writes that carries a plan out.
use vstd::prelude::*;

verus! {

/// One request for one fan.
#[derive(Clone, Copy, Debug, PartialEq, Eq, Structural)]
pub enum FanControlAction {
    /// Give the fan back to the system's automatic control.
    Auto { fan_index: usize },
    /// Drive the fan at a fixed target speed.
    SetTargetRpm { fan_index: usize, rpm: u32 },
}

impl FanControlAction {
    /// The fan that the action is about.
    pub open spec fn index_of(self) -> usize {
        match self {
            FanControlAction::Auto { fan_index } => fan_index,
            FanControlAction::SetTargetRpm { fan_index, .. } => fan_index,
        }
    }

    pub fn fan_index(&self) -> (r: usize)
        ensures
            r == self.index_of(),
    {
        match *self {
            FanControlAction::Auto { fan_index } => fan_index,
            FanControlAction::SetTargetRpm { fan_index, .. } => fan_index,
        }
    }
}

/// The last action that `actions` holds for fan `k`, if any.
pub open spec fn last_action_for(actions: Seq<FanControlAction>, k: usize) -> Option<
    FanControlAction,
>
    decreases actions.len(),
{
    if actions.len() == 0 {
        None
    } else if actions.last().index_of() == k {
        Some(actions.last())
    } else {
        last_action_for(actions.drop_last(), k)
    }
}

/// The fan indices of a sequence of actions.
pub open spec fn indices_of(r: Seq<FanControlAction>) -> Seq<usize> {
    r.map_values(|a: FanControlAction| a.index_of())
}

/// The fan indices rise strictly along the sequence.
pub open spec fn strictly_increasing(s: Seq<usize>) -> bool {
    forall|i: int, j: int| 0 <= i < j < s.len() ==> s[i] < s[j]
}

/// `r` holds, in increasing order of fan index, exactly one action per fan
/// that `actions` speaks of: the last one that `actions` gives for it.
pub open spec fn is_normalization(actions: Seq<FanControlAction>, r: Seq<FanControlAction>) -> bool {
    &&& strictly_increasing(indices_of(r))
    &&& forall|i: int| 0 <= i < r.len() ==> last_action_for(actions, #[trigger] r[i].index_of()) == Some(r[i])
    &&& forall|k: usize| #[trigger] last_action_for(actions, k) is Some ==> indices_of(r).contains(k)
}

/// The normalization of `actions` (see `is_normalization`; it exists and is unique).
pub open spec fn normalized(actions: Seq<FanControlAction>) -> Seq<FanControlAction> {
    choose|r: Seq<FanControlAction>| is_normalization(actions, r)
}

/// The fan indices of the actions in `n` that set a target speed, in order.
pub open spec fn manual_indices_of(n: Seq<FanControlAction>) -> Seq<usize>
    decreases n.len(),
{
    if n.len() == 0 {
        Seq::empty()
    } else {
        let rest = manual_indices_of(n.drop_last());
        match n.last() {
            FanControlAction::SetTargetRpm { fan_index, .. } => rest.push(fan_index),
            FanControlAction::Auto { .. } => rest,
        }
    }
}

/// Two strictly increasing sequences with the same elements are equal.
pub proof fn lemma_increasing_same_elements(s1: Seq<usize>, s2: Seq<usize>)
    requires
        strictly_increasing(s1),
        strictly_increasing(s2),
        forall|x: usize| s1.contains(x) <==> s2.contains(x),
    ensures
        s1 == s2,
    decreases s1.len(),
{
    if s1.len() == 0 {
        if s2.len() > 0 {
            assert(s2.contains(s2[0]));
        }
        assert(s1 =~= s2);
    } else {
        assert(s1.contains(s1[0]));
        assert(s2.len() > 0);
        assert(s2.contains(s2[0]));
        let j1 = choose|j: int| 0 <= j < s2.len() && s2[j] == s1[0];
        let j2 = choose|j: int| 0 <= j < s1.len() && s1[j] == s2[0];
        assert(s1[0] == s2[0]) by {
            if j1 > 0 {
                assert(s2[0] < s2[j1]);
            }
            if j2 > 0 {
                assert(s1[0] < s1[j2]);
            }
        }
        let t1 = s1.drop_first();
        let t2 = s2.drop_first();
        assert forall|x: usize| t1.contains(x) <==> t2.contains(x) by {
            if t1.contains(x) {
                let i = choose|i: int| 0 <= i < t1.len() && t1[i] == x;
                assert(s1[i + 1] == x);
                assert(s1[0] < s1[i + 1]);
                assert(s1.contains(x));
                let k = choose|k: int| 0 <= k < s2.len() && s2[k] == x;
                assert(k != 0);
                assert(t2[k - 1] == x);
            }
            if t2.contains(x) {
                let i = choose|i: int| 0 <= i < t2.len() && t2[i] == x;
                assert(s2[i + 1] == x);
                assert(s2[0] < s2[i + 1]);
                assert(s2.contains(x));
                let k = choose|k: int| 0 <= k < s1.len() && s1[k] == x;
                assert(k != 0);
                assert(t1[k - 1] == x);
            }
        }
        lemma_increasing_same_elements(t1, t2);
        assert(s1 =~= s2) by {
            assert forall|i: int| 0 <= i < s1.len() implies s1[i] == s2[i] by {
                if i > 0 {
                    assert(s1[i] == t1[i - 1]);
                    assert(s2[i] == t2[i - 1]);
                }
            }
        }
    }
}

/// A sequence of actions has only one normalization.
pub proof fn lemma_normalization_unique(
    actions: Seq<FanControlAction>,
    r1: Seq<FanControlAction>,
    r2: Seq<FanControlAction>,
)
    requires
        is_normalization(actions, r1),
        is_normalization(actions, r2),
    ensures
        r1 == r2,
{
    let k1 = indices_of(r1);
    let k2 = indices_of(r2);
    assert forall|x: usize| k1.contains(x) <==> k2.contains(x) by {
        if k1.contains(x) {
            let i = choose|i: int| 0 <= i < k1.len() && k1[i] == x;
            assert(last_action_for(actions, r1[i].index_of()) == Some(r1[i]));
        }
        if k2.contains(x) {
            let i = choose|i: int| 0 <= i < k2.len() && k2[i] == x;
            assert(last_action_for(actions, r2[i].index_of()) == Some(r2[i]));
        }
    }
    lemma_increasing_same_elements(k1, k2);
    assert(r1.len() == k1.len());
    assert(r2.len() == k2.len());
    assert forall|i: int| 0 <= i < r1.len() implies r1[i] == r2[i] by {
        assert(k1[i] == k2[i]);
        assert(last_action_for(actions, r1[i].index_of()) == Some(r1[i]));
        assert(last_action_for(actions, r2[i].index_of()) == Some(r2[i]));
    }
    assert(r1 =~= r2);
}


/// In a sequence with strictly increasing fan indices, `manual_indices_of`
/// rises strictly and holds exactly the fans whose action sets a speed.
pub proof fn lemma_manual_indices(n: Seq<FanControlAction>)
    requires
        strictly_increasing(indices_of(n)),
    ensures
        strictly_increasing(manual_indices_of(n)),
        forall|x: usize| #![trigger manual_indices_of(n).contains(x)]
            manual_indices_of(n).contains(x) <==> exists|i: int|
                0 <= i < n.len() && n[i].index_of() == x && (#[trigger] n[i] is SetTargetRpm),
        forall|j: int| 0 <= j < manual_indices_of(n).len() ==> indices_of(n).contains(
            #[trigger] manual_indices_of(n)[j],
        ),
    decreases n.len(),
{
    if n.len() > 0 {
        let m = n.drop_last();
        assert(indices_of(m) =~= indices_of(n).drop_last());
        lemma_manual_indices(m);
        let rest = manual_indices_of(m);
        let last = n.last();
        assert forall|j: int| 0 <= j < rest.len() implies rest[j] < last.index_of() by {
            assert(indices_of(m).contains(rest[j]));
            let q = choose|q: int| 0 <= q < indices_of(m).len() && indices_of(m)[q] == rest[j];
            assert(indices_of(n)[q] < indices_of(n)[n.len() - 1]);
        }
        assert forall|x: usize| #![trigger manual_indices_of(n).contains(x)]
            manual_indices_of(n).contains(x) <==> exists|i: int|
                0 <= i < n.len() && n[i].index_of() == x && (#[trigger] n[i] is SetTargetRpm) by {
            if manual_indices_of(n).contains(x) {
                let j = choose|j: int| 0 <= j < manual_indices_of(n).len() && manual_indices_of(n)[j] == x;
                if j < rest.len() {
                    assert(rest.contains(x));
                    let i = choose|i: int| 0 <= i < m.len() && m[i].index_of() == x && (#[trigger] m[i] is SetTargetRpm);
                    assert(n[i] == m[i]);
                } else {
                    assert(n[n.len() - 1] is SetTargetRpm);
                }
            }
            if exists|i: int| 0 <= i < n.len() && n[i].index_of() == x && (#[trigger] n[i] is SetTargetRpm) {
                let i = choose|i: int| 0 <= i < n.len() && n[i].index_of() == x && (#[trigger] n[i] is SetTargetRpm);
                if i < n.len() - 1 {
                    assert(m[i] == n[i]);
                    assert(rest.contains(x));
                    let j = choose|j: int| 0 <= j < rest.len() && rest[j] == x;
                    assert(manual_indices_of(n)[j] == x);
                } else {
                    assert(manual_indices_of(n)[manual_indices_of(n).len() - 1] == x);
                }
            }
        }
        assert forall|j: int| 0 <= j < manual_indices_of(n).len() implies indices_of(n).contains(
            #[trigger] manual_indices_of(n)[j]) by {
            if j < rest.len() {
                assert(indices_of(m).contains(rest[j]));
                let q = choose|q: int| 0 <= q < indices_of(m).len() && indices_of(m)[q] == rest[j];
                assert(indices_of(n)[q] == rest[j]);
            } else {
                assert(indices_of(n)[n.len() - 1] == manual_indices_of(n)[j]);
            }
        }
    }
}

/// In a sequence whose fan indices rise strictly, the last action for the fan
/// of an element is that element.
pub proof fn lemma_last_action_distinct(s: Seq<FanControlAction>, i: int)
    requires
        strictly_increasing(indices_of(s)),
        0 <= i < s.len(),
    ensures
        last_action_for(s, s[i].index_of()) == Some(s[i]),
    decreases s.len(),
{
    if i < s.len() - 1 {
        let m = s.drop_last();
        assert(indices_of(m) =~= indices_of(s).drop_last());
        assert(indices_of(s)[i] < indices_of(s)[s.len() - 1]);
        lemma_last_action_distinct(m, i);
    }
}

/// Where `last_action_for` finds an action, the fan index occurs in the sequence.
pub proof fn lemma_last_action_found(s: Seq<FanControlAction>, k: usize)
    requires
        last_action_for(s, k) is Some,
    ensures
        indices_of(s).contains(k),
    decreases s.len(),
{
    if s.last().index_of() == k {
        assert(indices_of(s)[s.len() - 1] == k);
    } else {
        let m = s.drop_last();
        lemma_last_action_found(m, k);
        let q = choose|q: int| 0 <= q < indices_of(m).len() && indices_of(m)[q] == k;
        assert(indices_of(s)[q] == k);
    }
}

/// Normalizing is idempotent: a normalized sequence of actions is its own
/// normalization.
pub proof fn lemma_normalized_is_fixed_point(actions: Seq<FanControlAction>, r: Seq<FanControlAction>)
    requires
        is_normalization(actions, r),
    ensures
        is_normalization(r, r),
        normalized(r) == r,
{
    assert forall|i: int| 0 <= i < r.len() implies last_action_for(r, #[trigger] r[i].index_of()) == Some(r[i]) by {
        lemma_last_action_distinct(r, i);
    }
    assert forall|k: usize| #[trigger] last_action_for(r, k) is Some implies indices_of(r).contains(k) by {
        lemma_last_action_found(r, k);
    }
    assert(is_normalization(r, r));
    lemma_normalization_unique(r, r, normalized(r));
}

/// The fans of a plan that are to be driven at a fixed speed.
pub open spec fn manual_fans(actions: Seq<FanControlAction>) -> Seq<usize> {
    manual_indices_of(normalized(actions))
}

/// The controller writes that carry out a plan: first unlock manual control of
/// `unlock_fans` (skipped when it is empty), then apply `writes` in order, then,
/// when `release_test_mode` is set, leave the controller's test mode.
pub struct DirectSchedule {
    pub unlock_fans: Vec<usize>,
    pub writes: Vec<FanControlAction>,
    pub release_test_mode: bool,
}

/// A plan of fan actions, in the order the caller gave them.
pub struct FanControlPlan {
    pub actions: Vec<FanControlAction>,
}

impl FanControlPlan {
    pub fn new(actions: Vec<FanControlAction>) -> (r: Self)
        ensures
            r.actions@ == actions@,
    {
        FanControlPlan { actions }
    }

    /// A plan that drives each of `fans` at the speed at the same position of
    /// `rpms`.
    pub fn set_target_rpms(fans: &[usize], rpms: &[u32]) -> (r: Self)
        requires
            fans@.len() == rpms@.len(),
        ensures
            r.actions@.len() == fans@.len(),
            forall|i: int| 0 <= i < fans@.len() ==> #[trigger] r.actions@[i]
                == (FanControlAction::SetTargetRpm { fan_index: fans@[i], rpm: rpms@[i] }),
    {
        let mut actions: Vec<FanControlAction> = Vec::new();
        let mut i: usize = 0;
        while i < fans.len()
            invariant
                i <= fans.len() == rpms.len(),
                actions@.len() == i,
                forall|k: int| 0 <= k < i ==> #[trigger] actions@[k]
                    == (FanControlAction::SetTargetRpm { fan_index: fans@[k], rpm: rpms@[k] }),
            decreases fans.len() - i,
        {
            actions.push(FanControlAction::SetTargetRpm { fan_index: fans[i], rpm: rpms[i] });
            i = i + 1;
        }
        FanControlPlan { actions }
    }

    /// A plan that gives each of `fans` back to automatic control.
    pub fn auto_for(fans: &[usize]) -> (r: Self)
        ensures
            r.actions@.len() == fans@.len(),
            forall|i: int| 0 <= i < fans@.len() ==> #[trigger] r.actions@[i]
                == (FanControlAction::Auto { fan_index: fans@[i] }),
    {
        let mut actions: Vec<FanControlAction> = Vec::new();
        let mut i: usize = 0;
        while i < fans.len()
            invariant
                i <= fans.len(),
                actions@.len() == i,
                forall|k: int| 0 <= k < i ==> #[trigger] actions@[k]
                    == (FanControlAction::Auto { fan_index: fans@[k] }),
            decreases fans.len() - i,
        {
            actions.push(FanControlAction::Auto { fan_index: fans[i] });
            i = i + 1;
        }
        FanControlPlan { actions }
    }

    pub fn is_empty(&self) -> (r: bool)
        ensures
            r == (self.actions@.len() == 0),
    {
        self.actions.len() == 0
    }

    /// One action per fan, the last one given for it, in increasing order of
    /// fan index.
    pub fn normalized_actions(&self) -> (r: Vec<FanControlAction>)
        ensures
            is_normalization(self.actions@, r@),
            r@ == normalized(self.actions@),
    {
        let mut r: Vec<FanControlAction> = Vec::new();
        let n = self.actions.len();
        let mut i: usize = 0;
        while i < n
            invariant
                i <= n,
                n == self.actions@.len(),
                is_normalization(self.actions@.take(i as int), r@),
            decreases n - i,
        {
            let ghost pre = self.actions@.take(i as int);
            let ghost post = self.actions@.take(i + 1);
            let ghost old_r = r@;
            let a = self.actions[i];
            let key = a.fan_index();
            assert(post.drop_last() == pre);
            assert(post.last() == a);
            assert forall|k: usize|
                #[trigger] last_action_for(post, k) == (if k == key {
                    Some(a)
                } else {
                    last_action_for(pre, k)
                }) by {}
            let mut p: usize = 0;
            while p < r.len() && r[p].fan_index() < key
                invariant
                    p <= r.len(),
                    r@ == old_r,
                    forall|q: int| 0 <= q < p ==> (#[trigger] r@[q]).index_of() < key,
                decreases r.len() - p,
            {
                p = p + 1;
            }
            if p < r.len() && r[p].fan_index() == key {
                r.set(p, a);
                assert(indices_of(r@) =~= indices_of(old_r));
                assert forall|j: int| 0 <= j < r@.len() implies last_action_for(
                    post,
                    #[trigger] r@[j].index_of(),
                ) == Some(r@[j]) by {
                    if j != p {
                        assert(indices_of(old_r)[j] != indices_of(old_r)[p as int]);
                        assert(last_action_for(pre, old_r[j].index_of()) == Some(old_r[j]));
                    }
                }
                assert forall|k: usize| #[trigger]
                    last_action_for(post, k) is Some implies indices_of(r@).contains(k) by {
                    if k == key {
                        assert(indices_of(r@)[p as int] == k);
                    } else {
                        assert(last_action_for(pre, k) is Some);
                        assert(indices_of(old_r).contains(k));
                    }
                }
            } else {
                r.insert(p, a);
                assert forall|q: int| 0 <= q < old_r.len() implies (#[trigger] old_r[q]).index_of()
                    != key by {
                    if q >= p {
                        assert(p < old_r.len());
                        assert(old_r[p as int].index_of() > key);
                        if q > p {
                            assert(indices_of(old_r)[p as int] < indices_of(old_r)[q]);
                        }
                    }
                }
                assert forall|x: int, y: int|
                    0 <= x < y < r@.len() implies indices_of(r@)[x] < indices_of(r@)[y] by {
                    if y < p {
                        assert(indices_of(old_r)[x] < indices_of(old_r)[y]);
                    } else if y == p {
                        assert(r@[x] == old_r[x]);
                    } else if x < p {
                        assert(r@[x] == old_r[x]);
                        assert(r@[y] == old_r[y - 1]);
                        assert(old_r[p as int].index_of() > key);
                        if y - 1 > p {
                            assert(indices_of(old_r)[p as int] < indices_of(old_r)[y - 1]);
                        }
                    } else if x == p {
                        assert(r@[y] == old_r[y - 1]);
                        assert(old_r[p as int].index_of() > key);
                        if y - 1 > p {
                            assert(indices_of(old_r)[p as int] < indices_of(old_r)[y - 1]);
                        }
                    } else {
                        assert(r@[x] == old_r[x - 1]);
                        assert(r@[y] == old_r[y - 1]);
                        assert(indices_of(old_r)[x - 1] < indices_of(old_r)[y - 1]);
                    }
                }
                assert forall|j: int| 0 <= j < r@.len() implies last_action_for(
                    post,
                    #[trigger] r@[j].index_of(),
                ) == Some(r@[j]) by {
                    if j < p {
                        assert(r@[j] == old_r[j]);
                        assert(last_action_for(pre, old_r[j].index_of()) == Some(old_r[j]));
                    } else if j > p {
                        assert(r@[j] == old_r[j - 1]);
                        assert(last_action_for(pre, old_r[j - 1].index_of()) == Some(old_r[j - 1]));
                    }
                }
                assert forall|k: usize| #[trigger]
                    last_action_for(post, k) is Some implies indices_of(r@).contains(k) by {
                    if k == key {
                        assert(indices_of(r@)[p as int] == k);
                    } else {
                        assert(last_action_for(pre, k) is Some);
                        assert(indices_of(old_r).contains(k));
                        let q = choose|q: int| 0 <= q < old_r.len() && indices_of(old_r)[q] == k;
                        if q < p {
                            assert(indices_of(r@)[q] == k);
                        } else {
                            assert(indices_of(r@)[q + 1] == k);
                        }
                    }
                }
            }
            i = i + 1;
        }
        assert(self.actions@.take(n as int) == self.actions@);
        proof {
            lemma_normalization_unique(self.actions@, r@, normalized(self.actions@));
        }
        r
    }

    /// The fans whose last action sets a target speed, in increasing order.
    pub fn manual_fan_indices(&self) -> (r: Vec<usize>)
        ensures
            r@ == manual_fans(self.actions@),
            strictly_increasing(r@),
            forall|x: usize| #[trigger] r@.contains(x) <==> (last_action_for(self.actions@, x) matches Some(
                FanControlAction::SetTargetRpm { .. },
            )),
    {
        let n = self.normalized_actions();
        let r = Self::manual_indices(&n);
        proof {
            lemma_manual_indices(n@);
            assert forall|x: usize| #[trigger] r@.contains(x) <==> (last_action_for(self.actions@, x) matches Some(
                FanControlAction::SetTargetRpm { .. },
            )) by {
                if r@.contains(x) {
                    let i = choose|i: int|
                        0 <= i < n@.len() && n@[i].index_of() == x && (#[trigger] n@[i] is SetTargetRpm);
                    assert(last_action_for(self.actions@, n@[i].index_of()) == Some(n@[i]));
                }
                if last_action_for(self.actions@, x) matches Some(FanControlAction::SetTargetRpm { .. }) {
                    assert(indices_of(n@).contains(x));
                    let i = choose|i: int| 0 <= i < indices_of(n@).len() && indices_of(n@)[i] == x;
                    assert(last_action_for(self.actions@, n@[i].index_of()) == Some(n@[i]));
                    assert(n@[i] is SetTargetRpm);
                }
            }
        }
        r
    }

    fn manual_indices(n: &Vec<FanControlAction>) -> (r: Vec<usize>)
        ensures
            r@ == manual_indices_of(n@),
    {
        let mut r: Vec<usize> = Vec::new();
        let mut i: usize = 0;
        while i < n.len()
            invariant
                i <= n.len(),
                r@ == manual_indices_of(n@.take(i as int)),
            decreases n.len() - i,
        {
            assert(n@.take(i + 1).drop_last() == n@.take(i as int));
            match n[i] {
                FanControlAction::SetTargetRpm { fan_index, .. } => {
                    r.push(fan_index);
                },
                FanControlAction::Auto { .. } => {},
            }
            i = i + 1;
        }
        assert(n@.take(n.len() as int) == n@);
        r
    }

    /// The schedule of controller writes that applies this plan directly:
    /// nothing for a plan without actions; otherwise manual control is
    /// unlocked for the fans that get a target speed, every normalized action
    /// is written, and test mode is released when no fan stays manual.
    pub fn direct_schedule(&self) -> (r: DirectSchedule)
        ensures
            r.writes@ == normalized(self.actions@),
            r.unlock_fans@ == manual_fans(self.actions@),
            r.release_test_mode == (r.writes@.len() > 0 && r.unlock_fans@.len() == 0),
            r.writes@.len() == 0 <==> self.actions@.len() == 0,
    {
        let writes = self.normalized_actions();
        let unlock_fans = Self::manual_indices(&writes);
        proof {
            if self.actions@.len() > 0 {
                let k = self.actions@.last().index_of();
                assert(self.actions@.drop_last() =~= self.actions@.take(self.actions@.len() - 1));
                assert(last_action_for(self.actions@, k) is Some);
                assert(indices_of(writes@).contains(k));
            }
            if writes@.len() > 0 {
                assert(last_action_for(self.actions@, writes@[0].index_of()) == Some(writes@[0]));
                if self.actions@.len() == 0 {
                    assert(last_action_for(self.actions@, writes@[0].index_of()) is None);
                }
            }
        }
        let release_test_mode = writes.len() > 0 && unlock_fans.len() == 0;
        DirectSchedule { unlock_fans, writes, release_test_mode }
    }
}

} // verus!
