use vstd::prelude::*;

use crate::errors::GameInitError;
use crate::setup::PlayerInfo;
use crate::slots::{EnginePlayer, PlayerEntry, name_bytes, STORM_ID_BOUND_LIMIT};

verus! {

/// The values of a player table.
pub open spec fn entries(t: Seq<EnginePlayer>) -> Seq<PlayerEntry> {
    t.map_values(|e: EnginePlayer| e@)
}

/// Whether a zero-terminated name field holds exactly the bytes `b`.
pub open spec fn field_holds_name(field: Seq<u8>, b: Seq<u8>) -> bool {
    b.len() < field.len() && field[b.len() as int] == 0u8 && forall|i: int|
        0 <= i < b.len() ==> field[i] == b[i] && b[i] != 0u8
}

/// The first slot, from position `from` on, whose name is `name`.
pub open spec fn first_slot_named(slots: Seq<PlayerInfo>, name: Seq<char>, from: int) -> Option<
    int,
>
    decreases slots.len() - from,
{
    if from < 0 || from >= slots.len() {
        None
    } else if slots[from].name@ == name {
        Some(from)
    } else {
        first_slot_named(slots, name, from + 1)
    }
}

/// The first table entry, from index `from` on, whose name field holds `b`.
pub open spec fn first_entry_named(t: Seq<PlayerEntry>, b: Seq<u8>, from: int) -> Option<int>
    decreases t.len() - from,
{
    if from < 0 || from >= t.len() {
        None
    } else if field_holds_name(t[from].name, b) {
        Some(from)
    } else {
        first_entry_named(t, b, from + 1)
    }
}

/// One step of reconciliation: the participant at session id `id`, if any.
///
/// A name that no slot requests, or whose slot has no table entry, is an
/// unexpected participant. An observer is noted and takes no entry. Otherwise
/// the entry takes the session id, unless it is already bound to another one.
pub open spec fn reconcile_one(
    slots: Seq<PlayerInfo>,
    t: Seq<PlayerEntry>,
    name: Option<String>,
    id: int,
) -> Result<Seq<PlayerEntry>, GameInitError> {
    match name {
        None => Ok(t),
        Some(s) => match first_slot_named(slots, s@, 0) {
            None => Err(GameInitError::UnexpectedPlayer(s)),
            Some(j) => if slots[j].spec_is_observer() {
                Ok(t)
            } else {
                match first_entry_named(t, name_bytes(s@), 0) {
                    None => Err(GameInitError::UnexpectedPlayer(s)),
                    Some(k) => if t[k].storm_id < STORM_ID_BOUND_LIMIT && t[k].storm_id != id as u32 {
                        Err(GameInitError::StormIdChanged(s))
                    } else {
                        Ok(t.update(k, PlayerEntry { storm_id: id as u32, ..t[k] }))
                    },
                }
            },
        },
    }
}

/// Reconciliation of the first `n` known names, in session-id order; the first
/// failure ends it.
pub open spec fn reconcile_upto(
    slots: Seq<PlayerInfo>,
    names: Seq<Option<String>>,
    t: Seq<PlayerEntry>,
    n: int,
) -> Result<Seq<PlayerEntry>, GameInitError>
    decreases n,
{
    if n <= 0 {
        Ok(t)
    } else {
        match reconcile_upto(slots, names, t, n - 1) {
            Err(e) => Err(e),
            Ok(t2) => reconcile_one(slots, t2, names[n - 1], n - 1),
        }
    }
}

/// Reconciliation of all known present names against a table.
pub open spec fn reconcile(
    slots: Seq<PlayerInfo>,
    names: Seq<Option<String>>,
    t: Seq<PlayerEntry>,
) -> Result<Seq<PlayerEntry>, GameInitError> {
    reconcile_upto(slots, names, t, names.len() as int)
}

/// Whether some known present name is `name`.
pub open spec fn is_present(names: Seq<Option<String>>, name: Seq<char>) -> bool {
    exists|i: int| 0 <= i < names.len() && #[trigger] names[i] is Some && names[i]->Some_0@ == name
}

/// Whether every slot that must be present is.
pub open spec fn all_present(slots: Seq<PlayerInfo>, names: Seq<Option<String>>) -> bool {
    forall|j: int|
        0 <= j < slots.len() && (#[trigger] slots[j]).spec_is_awaited() ==> is_present(
            names,
            slots[j].name@,
        )
}

/// The first session id whose known name is `name`.
pub open spec fn first_session_named(names: Seq<Option<String>>, name: Seq<char>, from: int) -> Option<
    int,
>
    decreases names.len() - from,
{
    if from < 0 || from >= names.len() {
        None
    } else if names[from] is Some && names[from]->Some_0@ == name {
        Some(from)
    } else {
        first_session_named(names, name, from + 1)
    }
}

/// A copy of a table entry.
pub fn copy_entry(e: &EnginePlayer) -> (r: EnginePlayer)
    ensures
        r@ == e@,
{
    let name = e.name.clone();
    assert(name@ =~= e.name@);
    EnginePlayer {
        player_id: e.player_id,
        storm_id: e.storm_id,
        player_type: e.player_type,
        race: e.race,
        team: e.team,
        name,
    }
}

/// Whether a zero-terminated name field holds exactly the bytes `b`.
pub fn field_has_name(field: &Vec<u8>, b: &[u8]) -> (r: bool)
    ensures
        r == field_holds_name(field@, b@),
{
    if b.len() >= field.len() {
        return false;
    }
    let mut i: usize = 0;
    while i < b.len()
        invariant
            i <= b@.len(),
            b@.len() < field@.len(),
            forall|j: int| 0 <= j < i ==> field@[j] == b@[j] && b@[j] != 0u8,
        decreases b@.len() - i,
    {
        if field[i] != b[i] || b[i] == 0u8 {
            return false;
        }
        i = i + 1;
    }
    field[b.len()] == 0u8
}

/// The first slot whose name is `name`.
pub fn find_slot(slots: &Vec<PlayerInfo>, name: &String) -> (r: Option<usize>)
    ensures
        match r {
            Some(j) => j < slots@.len() && first_slot_named(slots@, name@, 0) == Some(j as int),
            None => first_slot_named(slots@, name@, 0) is None,
        },
{
    let mut i: usize = 0;
    while i < slots.len()
        invariant
            i <= slots@.len(),
            first_slot_named(slots@, name@, 0) == first_slot_named(slots@, name@, i as int),
        decreases slots@.len() - i,
    {
        if slots[i].name == *name {
            return Some(i);
        }
        i = i + 1;
    }
    None
}

/// The first table entry whose name field holds `b`.
fn find_entry(table: &Vec<EnginePlayer>, b: &[u8]) -> (r: Option<usize>)
    ensures
        match r {
            Some(k) => k < table@.len() && first_entry_named(entries(table@), b@, 0) == Some(
                k as int,
            ),
            None => first_entry_named(entries(table@), b@, 0) is None,
        },
{
    let mut i: usize = 0;
    while i < table.len()
        invariant
            i <= table@.len(),
            first_entry_named(entries(table@), b@, 0) == first_entry_named(
                entries(table@),
                b@,
                i as int,
            ),
        decreases table@.len() - i,
    {
        if field_has_name(&table[i].name, b) {
            return Some(i);
        }
        i = i + 1;
    }
    None
}

/// Once reconciliation fails on some name, it fails with that error whatever
/// names come after.
pub proof fn lemma_reconcile_failure_sticks(
    slots: Seq<PlayerInfo>,
    names: Seq<Option<String>>,
    t: Seq<PlayerEntry>,
    m: int,
    n: int,
)
    requires
        0 <= m <= n,
        reconcile_upto(slots, names, t, m) is Err,
    ensures
        reconcile_upto(slots, names, t, n) == reconcile_upto(slots, names, t, m),
    decreases n - m,
{
    if m < n {
        lemma_reconcile_failure_sticks(slots, names, t, m, n - 1);
    }
}

proof fn lemma_first_entry_in_range(t: Seq<PlayerEntry>, b: Seq<u8>, from: int)
    requires
        first_entry_named(t, b, from) is Some,
    ensures
        from <= first_entry_named(t, b, from)->Some_0 < t.len(),
    decreases t.len() - from,
{
    if 0 <= from < t.len() && !field_holds_name(t[from].name, b) {
        lemma_first_entry_in_range(t, b, from + 1);
    }
}

proof fn lemma_no_slot_named(slots: Seq<PlayerInfo>, name: Seq<char>, from: int)
    requires
        forall|j: int| 0 <= j < slots.len() ==> (#[trigger] slots[j]).name@ != name,
    ensures
        first_slot_named(slots, name, from) is None,
    decreases slots.len() - from,
{
    if 0 <= from < slots.len() {
        lemma_no_slot_named(slots, name, from + 1);
    }
}

proof fn lemma_bound_kept_upto(
    slots: Seq<PlayerInfo>,
    names: Seq<Option<String>>,
    t: Seq<PlayerEntry>,
    k: int,
    n: int,
)
    requires
        0 <= n <= names.len(),
        0 <= k < t.len(),
        t[k].storm_id < STORM_ID_BOUND_LIMIT,
        reconcile_upto(slots, names, t, n) is Ok,
    ensures
        reconcile_upto(slots, names, t, n)->Ok_0.len() == t.len(),
        reconcile_upto(slots, names, t, n)->Ok_0[k].storm_id == t[k].storm_id,
    decreases n,
{
    if n > 0 {
        if reconcile_upto(slots, names, t, n - 1) is Err {
            lemma_reconcile_failure_sticks(slots, names, t, n - 1, n);
        } else {
            lemma_bound_kept_upto(slots, names, t, k, n - 1);
            let t2 = reconcile_upto(slots, names, t, n - 1)->Ok_0;
            match names[n - 1] {
                None => {},
                Some(s) => {
                    let b = name_bytes(s@);
                    if first_entry_named(t2, b, 0) is Some {
                        lemma_first_entry_in_range(t2, b, 0);
                    }
                },
            }
        }
    }
}

/// A session id, once bound in an entry, stays: a reconciliation pass that
/// succeeds leaves every bound entry's session id as it was (a pass that would
/// move it fails instead).
pub proof fn lemma_bound_session_ids_kept(
    slots: Seq<PlayerInfo>,
    names: Seq<Option<String>>,
    t: Seq<PlayerEntry>,
    k: int,
)
    requires
        0 <= k < t.len(),
        t[k].storm_id < STORM_ID_BOUND_LIMIT,
        reconcile(slots, names, t) is Ok,
    ensures
        reconcile(slots, names, t)->Ok_0.len() == t.len(),
        reconcile(slots, names, t)->Ok_0[k].storm_id == t[k].storm_id,
{
    lemma_bound_kept_upto(slots, names, t, k, names.len() as int);
}

/// A present name that matches no requested slot always makes reconciliation fail.
pub proof fn lemma_unexpected_name_fails(
    slots: Seq<PlayerInfo>,
    names: Seq<Option<String>>,
    t: Seq<PlayerEntry>,
    i: int,
)
    requires
        0 <= i < names.len(),
        names[i] is Some,
        forall|j: int| 0 <= j < slots.len() ==> (#[trigger] slots[j]).name@ != names[i]->Some_0@,
    ensures
        reconcile(slots, names, t) is Err,
{
    lemma_no_slot_named(slots, names[i]->Some_0@, 0);
    assert(reconcile_upto(slots, names, t, i + 1) is Err);
    lemma_reconcile_failure_sticks(slots, names, t, i + 1, names.len() as int);
}

/// Brings a player table up to date with the known present names (index =
/// session id). On success the new table is returned; on failure the error of
/// the first name that fails, and the given table is left as it was.
pub fn update_bw_slots(
    slots: &Vec<PlayerInfo>,
    storm_names: &Vec<Option<String>>,
    table: &Vec<EnginePlayer>,
) -> (r: Result<Vec<EnginePlayer>, GameInitError>)
    requires
        storm_names@.len() <= u32::MAX,
    ensures
        match r {
            Ok(t) => reconcile(slots@, storm_names@, entries(table@)) == Ok::<
                Seq<PlayerEntry>,
                GameInitError,
            >(entries(t@)),
            Err(e) => reconcile(slots@, storm_names@, entries(table@)) == Err::<
                Seq<PlayerEntry>,
                GameInitError,
            >(e),
        },
{
    let mut cur: Vec<EnginePlayer> = Vec::new();
    let mut k: usize = 0;
    while k < table.len()
        invariant
            k <= table@.len(),
            cur@.len() == k,
            forall|j: int| 0 <= j < k ==> (#[trigger] cur@[j])@ == table@[j]@,
        decreases table@.len() - k,
    {
        cur.push(copy_entry(&table[k]));
        k = k + 1;
    }
    assert(entries(cur@) =~= entries(table@));
    let mut i: usize = 0;
    while i < storm_names.len()
        invariant
            i <= storm_names@.len(),
            storm_names@.len() <= u32::MAX,
            reconcile_upto(slots@, storm_names@, entries(table@), i as int) == Ok::<
                Seq<PlayerEntry>,
                GameInitError,
            >(entries(cur@)),
        decreases storm_names@.len() - i,
    {
        let storm_id = i as u32;
        let mut failure: Option<GameInitError> = None;
        match &storm_names[i] {
            None => {},
            Some(name) => match find_slot(slots, name) {
                None => {
                    failure = Some(GameInitError::UnexpectedPlayer(name.clone()));
                },
                Some(j) => {
                    if !slots[j].is_observer() {
                        let b: &[u8] = name.as_str().as_bytes();
                        match find_entry(&cur, b) {
                            None => {
                                failure = Some(GameInitError::UnexpectedPlayer(name.clone()));
                            },
                            Some(k) => {
                                if cur[k].storm_id < STORM_ID_BOUND_LIMIT && cur[k].storm_id
                                    != storm_id {
                                    failure = Some(GameInitError::StormIdChanged(name.clone()));
                                } else {
                                    let ghost before = cur@;
                                    let mut e = copy_entry(&cur[k]);
                                    e.storm_id = storm_id;
                                    cur.set(k, e);
                                    assert(entries(cur@) =~= entries(before).update(
                                        k as int,
                                        PlayerEntry { storm_id: storm_id, ..entries(before)[k as int] },
                                    ));
                                }
                            },
                        }
                    }
                },
            },
        }
        if let Some(e) = failure {
            proof {
                lemma_reconcile_failure_sticks(
                    slots@,
                    storm_names@,
                    entries(table@),
                    i + 1,
                    storm_names@.len() as int,
                );
            }
            return Err(e);
        }
        i = i + 1;
    }
    Ok(cur)
}

/// Whether every human and observer slot's name is among the known present names.
pub fn has_all_players(slots: &Vec<PlayerInfo>, storm_names: &Vec<Option<String>>) -> (r: bool)
    ensures
        r == all_present(slots@, storm_names@),
{
    let mut j: usize = 0;
    while j < slots.len()
        invariant
            j <= slots@.len(),
            forall|a: int|
                0 <= a < j && (#[trigger] slots@[a]).spec_is_awaited() ==> is_present(
                    storm_names@,
                    slots@[a].name@,
                ),
        decreases slots@.len() - j,
    {
        let slot = &slots[j];
        if slot.is_human() || slot.is_observer() {
            match session_id_of(storm_names, &slot.name) {
                None => {
                    assert(!is_present(storm_names@, slot.name@)) by {
                        lemma_first_session_none(storm_names@, slot.name@, 0);
                    }
                    return false;
                },
                Some(i) => {},
            }
        }
        j = j + 1;
    }
    true
}

/// Where no session id from `from` on is found for `name`, none holds it.
pub proof fn lemma_first_session_none(names: Seq<Option<String>>, name: Seq<char>, from: int)
    requires
        0 <= from,
        first_session_named(names, name, from) is None,
    ensures
        forall|a: int| from <= a < names.len() ==> !(names[a] is Some && names[a]->Some_0@ == name),
    decreases names.len() - from,
{
    if from < names.len() {
        lemma_first_session_none(names, name, from + 1);
    }
}

/// The first session id whose known name is `name`, if any.
pub fn session_id_of(storm_names: &Vec<Option<String>>, name: &String) -> (r: Option<usize>)
    ensures
        match r {
            Some(i) => first_session_named(storm_names@, name@, 0) == Some(i as int),
            None => first_session_named(storm_names@, name@, 0) is None,
        },
        r is Some <==> is_present(storm_names@, name@),
{
    let mut i: usize = 0;
    while i < storm_names.len()
        invariant
            i <= storm_names@.len(),
            first_session_named(storm_names@, name@, 0) == first_session_named(
                storm_names@,
                name@,
                i as int,
            ),
            forall|a: int|
                0 <= a < i ==> !(storm_names@[a] is Some && storm_names@[a]->Some_0@ == name@),
        decreases storm_names@.len() - i,
    {
        match &storm_names[i] {
            Some(n) => {
                if *n == *name {
                    return Some(i);
                }
            },
            None => {},
        }
        i = i + 1;
    }
    None
}

} // verus!
