//! The state store: the last-known status per unit name, and the delta
//! between consecutive polls.
//!
//! The store is modelled as a mapping from unit names to statuses. Applying
//! a snapshot emits a change for every unit that is new or whose status
//! differs from the stored one, and never evicts entries for units missing
//! from the snapshot.

use vstd::prelude::*;

use crate::status::UnitStatus;
use crate::status::UnitStatusView;
use crate::status::unit_status_views;

verus! {

/// Holds the information about a change between two states.
/// Namely, the old and new states. `old` is `None` on the first-ever
/// observation of a unit name.
#[derive(Debug, Eq, Hash)]
pub struct ChangedUnitStatus {
    pub old: Option<UnitStatus>,
    pub new: UnitStatus,
}

/// The mathematical value of a [`ChangedUnitStatus`].
#[verifier::ext_equal]
pub struct ChangedUnitStatusView {
    pub old: Option<UnitStatusView>,
    pub new: UnitStatusView,
}

impl View for ChangedUnitStatus {
    type V = ChangedUnitStatusView;

    open spec fn view(&self) -> ChangedUnitStatusView {
        ChangedUnitStatusView {
            old: match self.old {
                Some(s) => Some(s@),
                None => None,
            },
            new: self.new@,
        }
    }
}

impl Clone for ChangedUnitStatus {
    fn clone(&self) -> (r: Self)
        ensures
            r@ == self@,
    {
        ChangedUnitStatus {
            old: match &self.old {
                Some(s) => Some(s.clone()),
                None => None,
            },
            new: self.new.clone(),
        }
    }
}

impl PartialEq for ChangedUnitStatus {
    fn eq(&self, other: &Self) -> (r: bool) {
        let old_eq = match (&self.old, &other.old) {
            (Some(a), Some(b)) => *a == *b,
            (None, None) => true,
            _ => false,
        };
        old_eq && self.new == other.new
    }
}

impl vstd::std_specs::cmp::PartialEqSpecImpl for ChangedUnitStatus {
    open spec fn obeys_eq_spec() -> bool {
        true
    }

    open spec fn eq_spec(&self, other: &Self) -> bool {
        self@ == other@
    }
}

/// The views of a sequence of changes.
pub open spec fn changed_views(s: Seq<ChangedUnitStatus>) -> Seq<ChangedUnitStatusView> {
    s.map_values(|c: ChangedUnitStatus| c@)
}

/// Whether no two statuses in the sequence share a unit name.
pub open spec fn unique_names(s: Seq<UnitStatusView>) -> bool {
    forall|i: int, j: int|
        0 <= i < s.len() && 0 <= j < s.len() && i != j ==> #[trigger] s[i].name != #[trigger] s[j].name
}

/// The name-to-status mapping a sequence of stored statuses stands for.
pub open spec fn seq_to_map(s: Seq<UnitStatusView>) -> Map<Seq<char>, UnitStatusView>
    decreases s.len(),
{
    if s.len() == 0 {
        Map::empty()
    } else {
        seq_to_map(s.drop_last()).insert(s.last().name, s.last())
    }
}

/// The store's mapping after a snapshot has been applied to it: every
/// incoming status overwrites the entry of its name, in order.
pub open spec fn spec_apply_map(
    m: Map<Seq<char>, UnitStatusView>,
    s: Seq<UnitStatusView>,
) -> Map<Seq<char>, UnitStatusView>
    decreases s.len(),
{
    if s.len() == 0 {
        m
    } else {
        spec_apply_map(m.insert(s[0].name, s[0]), s.drop_first())
    }
}

/// The change emitted for one incoming status against the store mapping
/// `m`: a first sighting, a differing status, or nothing.
pub open spec fn spec_change_for(
    m: Map<Seq<char>, UnitStatusView>,
    u: UnitStatusView,
) -> Seq<ChangedUnitStatusView> {
    if !m.contains_key(u.name) {
        seq![ChangedUnitStatusView { old: None, new: u }]
    } else if m[u.name] != u {
        seq![ChangedUnitStatusView { old: Some(m[u.name]), new: u }]
    } else {
        Seq::empty()
    }
}

/// The changes emitted while a snapshot is applied to the store mapping
/// `m`, in snapshot order.
pub open spec fn spec_apply_changes(
    m: Map<Seq<char>, UnitStatusView>,
    s: Seq<UnitStatusView>,
) -> Seq<ChangedUnitStatusView>
    decreases s.len(),
{
    if s.len() == 0 {
        Seq::empty()
    } else {
        spec_change_for(m, s[0]) + spec_apply_changes(m.insert(s[0].name, s[0]), s.drop_first())
    }
}

/// A store of the last-known status per unit name.
///
/// Applying a new snapshot returns the changes compared to the existing
/// state, calculated by unit name; once a status for a unit name was saved,
/// it is never forgotten, even if a later snapshot does not contain the
/// name any more.
pub trait SystemdState: Sized {
    /// The name-to-status mapping the store currently holds.
    spec fn state_map(&self) -> Map<Seq<char>, UnitStatusView>;

    /// The store's internal well-formedness.
    spec fn inv(&self) -> bool;

    /// Applies the new state and returns a list of changes compared to the
    /// existing state.
    fn apply_new_status(&mut self, new_status: Vec<UnitStatus>) -> (changes: Vec<
        ChangedUnitStatus,
    >)
        requires
            old(self).inv(),
        ensures
            final(self).inv(),
            final(self).state_map() == spec_apply_map(
                old(self).state_map(),
                unit_status_views(new_status@),
            ),
            changed_views(changes@) == spec_apply_changes(
                old(self).state_map(),
                unit_status_views(new_status@),
            ),
    ;
}

/// The in-memory state store.
pub struct SystemdStateImpl {
    systemd_state: Vec<UnitStatus>,
}

/// Returns the position of the first stored status carrying the given unit
/// name, if any.
fn find_index(v: &Vec<UnitStatus>, name: &String) -> (r: Option<usize>)
    ensures
        match r {
            Some(j) => 0 <= j < v@.len() && v@[j as int]@.name == name@,
            None => forall|i: int| 0 <= i < v@.len() ==> #[trigger] v@[i]@.name != name@,
        },
{
    let mut k: usize = 0;
    while k < v.len()
        invariant
            0 <= k <= v@.len(),
            forall|i: int| 0 <= i < k ==> #[trigger] v@[i]@.name != name@,
        decreases v@.len() - k,
    {
        if v[k].name == *name {
            return Some(k);
        }
        k = k + 1;
    }
    None
}

impl SystemdStateImpl {
    /// Creates an empty store.
    pub fn new() -> (r: Self)
        ensures
            r.inv(),
            r.state_map() == Map::<Seq<char>, UnitStatusView>::empty(),
    {
        SystemdStateImpl { systemd_state: Vec::new() }
    }

    /// Creates a store already holding the given statuses, as if they had
    /// been applied to an empty store. Duplicate names keep the last
    /// occurrence.
    pub fn from_snapshot(entries: Vec<UnitStatus>) -> (r: Self)
        ensures
            r.inv(),
            r.state_map() == spec_apply_map(
                Map::<Seq<char>, UnitStatusView>::empty(),
                unit_status_views(entries@),
            ),
    {
        let mut store = SystemdStateImpl::new();
        let _ = store.apply_new_status(entries);
        store
    }

    /// The statuses the store currently holds, one per unit name.
    pub fn units(&self) -> (r: &Vec<UnitStatus>)
        requires
            self.inv(),
        ensures
            unique_names(unit_status_views(r@)),
            seq_to_map(unit_status_views(r@)) == self.state_map(),
    {
        &self.systemd_state
    }
}

impl SystemdState for SystemdStateImpl {
    closed spec fn state_map(&self) -> Map<Seq<char>, UnitStatusView> {
        seq_to_map(unit_status_views(self.systemd_state@))
    }

    closed spec fn inv(&self) -> bool {
        unique_names(unit_status_views(self.systemd_state@))
    }

    fn apply_new_status(&mut self, new_status: Vec<UnitStatus>) -> (changes: Vec<
        ChangedUnitStatus,
    >) {
        let ghost m0 = self.state_map();
        let ghost views = unit_status_views(new_status@);
        let mut changes: Vec<ChangedUnitStatus> = Vec::new();
        let mut i: usize = 0;
        while i < new_status.len()
            invariant
                0 <= i <= new_status.len(),
                views == unit_status_views(new_status@),
                self.inv(),
                self.state_map() == spec_apply_map(m0, views.take(i as int)),
                changed_views(changes@) == spec_apply_changes(m0, views.take(i as int)),
            decreases new_status.len() - i,
        {
            let status = &new_status[i];
            let ghost cur = unit_status_views(self.systemd_state@);
            let ghost mi = self.state_map();
            proof {
                assert(views.take(i + 1) =~= views.take(i as int).push(views[i as int]));
                assert(views[i as int] == status@);
                lemma_apply_map_snoc(m0, views.take(i as int), status@);
                lemma_apply_changes_snoc(m0, views.take(i as int), status@);
            }
            match find_index(&self.systemd_state, &status.name) {
                Some(j) => {
                    proof {
                        lemma_seq_to_map_at(cur, j as int);
                    }
                    if self.systemd_state[j] != *status {
                        let previous = self.systemd_state[j].clone();
                        changes.push(
                            ChangedUnitStatus { old: Some(previous), new: status.clone() },
                        );
                        self.systemd_state.set(j, status.clone());
                        proof {
                            lemma_seq_to_map_update(cur, j as int, status@);
                            assert(unit_status_views(self.systemd_state@) =~= cur.update(
                                j as int,
                                status@,
                            ));
                            assert(self.state_map() =~= spec_apply_map(
                                m0,
                                views.take(i + 1),
                            ));
                            assert(changed_views(changes@) =~= spec_apply_changes(
                                m0,
                                views.take(i + 1),
                            ));
                        }
                    } else {
                        proof {
                            assert(spec_change_for(mi, status@) =~= Seq::<
                                ChangedUnitStatusView,
                            >::empty());
                            assert(mi.insert(status@.name, status@) =~= mi);
                            assert(changed_views(changes@) =~= spec_apply_changes(
                                m0,
                                views.take(i + 1),
                            ));
                        }
                    }
                },
                None => {
                    changes.push(ChangedUnitStatus { old: None, new: status.clone() });
                    self.systemd_state.push(status.clone());
                    proof {
                        assert(!mi.contains_key(status@.name)) by {
                            lemma_seq_to_map_domain(cur, status@.name);
                        }
                        assert(unit_status_views(self.systemd_state@) =~= cur.push(status@));
                        lemma_seq_to_map_push(cur, status@);
                        assert(self.state_map() =~= spec_apply_map(m0, views.take(i + 1)));
                        assert(changed_views(changes@) =~= spec_apply_changes(
                            m0,
                            views.take(i + 1),
                        ));
                    }
                },
            }
            i = i + 1;
        }
        proof {
            assert(views.take(new_status@.len() as int) =~= views);
        }
        changes
    }
}

/// The mapping's domain is exactly the names stored in the sequence.
proof fn lemma_seq_to_map_domain(s: Seq<UnitStatusView>, k: Seq<char>)
    ensures
        seq_to_map(s).contains_key(k) <==> exists|i: int| 0 <= i < s.len() && #[trigger] s[i].name == k,
    decreases s.len(),
{
    if s.len() > 0 {
        lemma_seq_to_map_domain(s.drop_last(), k);
        if s.last().name == k {
            assert(s[s.len() - 1].name == k);
        } else {
            if seq_to_map(s).contains_key(k) {
                let i = choose|i: int| 0 <= i < s.drop_last().len() && #[trigger] s.drop_last()[i].name == k;
                assert(s[i].name == k);
            }
            if exists|i: int| 0 <= i < s.len() && #[trigger] s[i].name == k {
                let i = choose|i: int| 0 <= i < s.len() && #[trigger] s[i].name == k;
                assert(s.drop_last()[i].name == k);
            }
        }
    }
}

/// With unique names, each stored status is the mapping's entry for its
/// name.
proof fn lemma_seq_to_map_at(s: Seq<UnitStatusView>, i: int)
    requires
        unique_names(s),
        0 <= i < s.len(),
    ensures
        seq_to_map(s).contains_key(s[i].name),
        seq_to_map(s)[s[i].name] == s[i],
    decreases s.len(),
{
    if i == s.len() - 1 {
    } else {
        assert(unique_names(s.drop_last())) by {
            assert(forall|x: int, y: int|
                0 <= x < s.drop_last().len() && 0 <= y < s.drop_last().len() && x != y
                    ==> #[trigger] s.drop_last()[x].name != #[trigger] s.drop_last()[y].name) by {
                assert(forall|x: int| 0 <= x < s.drop_last().len() ==> #[trigger] s.drop_last()[x]
                    == s[x]);
            }
        }
        lemma_seq_to_map_at(s.drop_last(), i);
        assert(s.drop_last()[i] == s[i]);
        assert(s[i].name != s.last().name);
    }
}

/// Overwriting the status at a position whose name matches updates the
/// mapping at that name and keeps the names unique.
proof fn lemma_seq_to_map_update(s: Seq<UnitStatusView>, j: int, u: UnitStatusView)
    requires
        unique_names(s),
        0 <= j < s.len(),
        u.name == s[j].name,
    ensures
        unique_names(s.update(j, u)),
        seq_to_map(s.update(j, u)) == seq_to_map(s).insert(u.name, u),
    decreases s.len(),
{
    assert(forall|x: int| 0 <= x < s.len() ==> #[trigger] s.update(j, u)[x].name == s[x].name);
    if j == s.len() - 1 {
        assert(s.update(j, u).drop_last() =~= s.drop_last());
        assert(s.update(j, u).last() == u);
        assert(seq_to_map(s.update(j, u)) =~= seq_to_map(s).insert(u.name, u));
    } else {
        assert(unique_names(s.drop_last())) by {
            assert(forall|x: int| 0 <= x < s.drop_last().len() ==> #[trigger] s.drop_last()[x]
                == s[x]);
        }
        lemma_seq_to_map_update(s.drop_last(), j, u);
        assert(s.update(j, u).drop_last() =~= s.drop_last().update(j, u));
        assert(s.update(j, u).last() == s.last());
        assert(u.name != s.last().name);
        assert(seq_to_map(s.update(j, u)) =~= seq_to_map(s).insert(u.name, u));
    }
}

/// Appending a status with a fresh name inserts it into the mapping and
/// keeps the names unique.
proof fn lemma_seq_to_map_push(s: Seq<UnitStatusView>, u: UnitStatusView)
    requires
        unique_names(s),
        forall|i: int| 0 <= i < s.len() ==> #[trigger] s[i].name != u.name,
    ensures
        unique_names(s.push(u)),
        seq_to_map(s.push(u)) == seq_to_map(s).insert(u.name, u),
{
    assert(s.push(u).drop_last() =~= s);
    assert(forall|x: int| 0 <= x < s.len() ==> #[trigger] s.push(u)[x] == s[x]);
    assert(s.push(u)[s.len() as int] == u);
}

/// Applying one more status at the end overwrites its name in the mapping.
proof fn lemma_apply_map_snoc(
    m: Map<Seq<char>, UnitStatusView>,
    s: Seq<UnitStatusView>,
    u: UnitStatusView,
)
    ensures
        spec_apply_map(m, s.push(u)) == spec_apply_map(m, s).insert(u.name, u),
    decreases s.len(),
{
    if s.len() == 0 {
        reveal_with_fuel(spec_apply_map, 2);
        assert(s.push(u).drop_first() =~= s);
        assert(s.push(u)[0] == u);
        assert(spec_apply_map(m, s.push(u)) =~= spec_apply_map(m, s).insert(u.name, u));
    } else {
        assert(s.push(u)[0] == s[0]);
        assert(s.push(u).drop_first() =~= s.drop_first().push(u));
        lemma_apply_map_snoc(m.insert(s[0].name, s[0]), s.drop_first(), u);
    }
}

/// Applying one more status at the end appends its change, decided against
/// the mapping the earlier statuses produced.
proof fn lemma_apply_changes_snoc(
    m: Map<Seq<char>, UnitStatusView>,
    s: Seq<UnitStatusView>,
    u: UnitStatusView,
)
    ensures
        spec_apply_changes(m, s.push(u)) == spec_apply_changes(m, s) + spec_change_for(
            spec_apply_map(m, s),
            u,
        ),
    decreases s.len(),
{
    if s.len() == 0 {
        reveal_with_fuel(spec_apply_changes, 2);
        reveal_with_fuel(spec_apply_map, 2);
        assert(s.push(u).drop_first() =~= s);
        assert(s.push(u)[0] == u);
        assert(spec_apply_changes(m, s.push(u)) =~= spec_apply_changes(m, s) + spec_change_for(
            spec_apply_map(m, s),
            u,
        ));
    } else {
        assert(s.push(u)[0] == s[0]);
        assert(s.push(u).drop_first() =~= s.drop_first().push(u));
        lemma_apply_changes_snoc(m.insert(s[0].name, s[0]), s.drop_first(), u);
        assert(spec_apply_changes(m, s.push(u)) =~= spec_apply_changes(m, s) + spec_change_for(
            spec_apply_map(m, s),
            u,
        ));
    }
}

/// A name carried by no status of the snapshot keeps its entry, or its
/// absence, through an apply.
proof fn lemma_apply_map_unlisted(
    m: Map<Seq<char>, UnitStatusView>,
    s: Seq<UnitStatusView>,
    k: Seq<char>,
)
    requires
        forall|i: int| 0 <= i < s.len() ==> #[trigger] s[i].name != k,
    ensures
        spec_apply_map(m, s).contains_key(k) == m.contains_key(k),
        m.contains_key(k) ==> spec_apply_map(m, s)[k] == m[k],
    decreases s.len(),
{
    if s.len() > 0 {
        assert(forall|i: int|
            0 <= i < s.drop_first().len() ==> #[trigger] s.drop_first()[i].name != k) by {
            assert(forall|i: int|
                0 <= i < s.drop_first().len() ==> #[trigger] s.drop_first()[i] == s[i + 1]);
        }
        lemma_apply_map_unlisted(m.insert(s[0].name, s[0]), s.drop_first(), k);
    }
}

/// With unique names, after an apply the mapping holds each snapshot
/// status under its name.
proof fn lemma_apply_map_records(
    m: Map<Seq<char>, UnitStatusView>,
    s: Seq<UnitStatusView>,
    i: int,
)
    requires
        unique_names(s),
        0 <= i < s.len(),
    ensures
        spec_apply_map(m, s).contains_key(s[i].name),
        spec_apply_map(m, s)[s[i].name] == s[i],
    decreases s.len(),
{
    assert(forall|x: int| 0 <= x < s.drop_first().len() ==> #[trigger] s.drop_first()[x] == s[x
        + 1]);
    if i == 0 {
        assert(forall|x: int|
            0 <= x < s.drop_first().len() ==> #[trigger] s.drop_first()[x].name != s[0].name);
        lemma_apply_map_unlisted(m.insert(s[0].name, s[0]), s.drop_first(), s[0].name);
    } else {
        assert(unique_names(s.drop_first()));
        lemma_apply_map_records(m.insert(s[0].name, s[0]), s.drop_first(), i - 1);
        assert(s.drop_first()[i - 1] == s[i]);
    }
}

/// Replaying statuses the mapping already agrees with emits no changes.
proof fn lemma_replay_no_changes(m: Map<Seq<char>, UnitStatusView>, s: Seq<UnitStatusView>)
    requires
        forall|i: int|
            0 <= i < s.len() ==> m.contains_key(#[trigger] s[i].name) && m[s[i].name] == s[i],
    ensures
        spec_apply_changes(m, s) == Seq::<ChangedUnitStatusView>::empty(),
    decreases s.len(),
{
    if s.len() > 0 {
        assert(spec_change_for(m, s[0]) =~= Seq::<ChangedUnitStatusView>::empty());
        assert(m.insert(s[0].name, s[0]) =~= m);
        assert(forall|i: int|
            0 <= i < s.drop_first().len() ==> #[trigger] s.drop_first()[i] == s[i + 1]);
        lemma_replay_no_changes(m, s.drop_first());
        assert(spec_apply_changes(m, s) =~= Seq::<ChangedUnitStatusView>::empty());
    }
}

/// Law (idempotence): applying a snapshot with pairwise-distinct unit
/// names and then applying the identical snapshot again yields no changes
/// the second time, whatever the store held before.
pub proof fn lemma_apply_idempotent(m: Map<Seq<char>, UnitStatusView>, s: Seq<UnitStatusView>)
    requires
        unique_names(s),
    ensures
        spec_apply_changes(spec_apply_map(m, s), s) == Seq::<ChangedUnitStatusView>::empty(),
{
    let m1 = spec_apply_map(m, s);
    assert forall|i: int| 0 <= i < s.len() implies m1.contains_key(#[trigger] s[i].name)
        && m1[s[i].name] == s[i] by {
        lemma_apply_map_records(m, s, i);
    }
    lemma_replay_no_changes(m1, s);
}

/// Law (monotonic growth, one apply): a unit name present in the store is
/// still present after any snapshot is applied, even one not carrying the
/// name.
pub proof fn lemma_apply_monotonic(
    m: Map<Seq<char>, UnitStatusView>,
    s: Seq<UnitStatusView>,
    k: Seq<char>,
)
    requires
        m.contains_key(k),
    ensures
        spec_apply_map(m, s).contains_key(k),
    decreases s.len(),
{
    if s.len() > 0 {
        lemma_apply_monotonic(m.insert(s[0].name, s[0]), s.drop_first(), k);
    }
}

/// The store's mapping after a whole sequence of snapshots has been
/// applied, one after the other.
pub open spec fn spec_apply_map_all(
    m: Map<Seq<char>, UnitStatusView>,
    snaps: Seq<Seq<UnitStatusView>>,
) -> Map<Seq<char>, UnitStatusView>
    decreases snaps.len(),
{
    if snaps.len() == 0 {
        m
    } else {
        spec_apply_map_all(spec_apply_map(m, snaps[0]), snaps.drop_first())
    }
}

/// Law (monotonic growth): a unit name once present in the store is
/// present in all subsequent states, for any sequence of applies.
pub proof fn lemma_store_monotonic(
    m: Map<Seq<char>, UnitStatusView>,
    snaps: Seq<Seq<UnitStatusView>>,
    k: Seq<char>,
)
    requires
        m.contains_key(k),
    ensures
        spec_apply_map_all(m, snaps).contains_key(k),
    decreases snaps.len(),
{
    if snaps.len() > 0 {
        lemma_apply_monotonic(m, snaps[0], k);
        lemma_store_monotonic(spec_apply_map(m, snaps[0]), snaps.drop_first(), k);
    }
}

/// Law (first-seen semantics): applying a single status to the empty store
/// yields exactly one change, with no old status, and stores the status
/// under its name.
pub proof fn lemma_first_seen(u: UnitStatusView)
    ensures
        spec_apply_changes(Map::<Seq<char>, UnitStatusView>::empty(), seq![u]) == seq![
            ChangedUnitStatusView { old: None, new: u },
        ],
        spec_apply_map(Map::<Seq<char>, UnitStatusView>::empty(), seq![u]) == Map::<
            Seq<char>,
            UnitStatusView,
        >::empty().insert(u.name, u),
{
    reveal_with_fuel(spec_apply_changes, 2);
    reveal_with_fuel(spec_apply_map, 2);
    let e = Map::<Seq<char>, UnitStatusView>::empty();
    assert(seq![u].drop_first() =~= Seq::<UnitStatusView>::empty());
    assert(seq![u][0] == u);
    assert(!e.contains_key(u.name));
    assert(spec_apply_changes(e, seq![u]) =~= seq![ChangedUnitStatusView { old: None, new: u }]);
}

/// Law (change on difference only): once a status has been applied for a
/// name, applying another status for the same name yields exactly one
/// change pairing the two if any field differs, and no change if the two
/// are equal.
pub proof fn lemma_change_on_difference(
    m: Map<Seq<char>, UnitStatusView>,
    u1: UnitStatusView,
    u2: UnitStatusView,
)
    requires
        u1.name == u2.name,
    ensures
        u1 != u2 ==> spec_apply_changes(spec_apply_map(m, seq![u1]), seq![u2]) == seq![
            ChangedUnitStatusView { old: Some(u1), new: u2 },
        ],
        u1 == u2 ==> spec_apply_changes(spec_apply_map(m, seq![u1]), seq![u2]) == Seq::<
            ChangedUnitStatusView,
        >::empty(),
{
    reveal_with_fuel(spec_apply_changes, 2);
    reveal_with_fuel(spec_apply_map, 2);
    assert(seq![u1].drop_first() =~= Seq::<UnitStatusView>::empty());
    assert(seq![u2].drop_first() =~= Seq::<UnitStatusView>::empty());
    let m1 = spec_apply_map(m, seq![u1]);
    assert(m1 == m.insert(u1.name, u1));
    assert(m1.contains_key(u2.name));
    assert(m1[u2.name] == u1);
    if u1 != u2 {
        assert(spec_apply_changes(m1, seq![u2]) =~= seq![
            ChangedUnitStatusView { old: Some(u1), new: u2 },
        ]);
    } else {
        assert(spec_apply_changes(m1, seq![u2]) =~= Seq::<ChangedUnitStatusView>::empty());
    }
}

} // verus!

