//! Keeping board markers and token visuals in step with the battle.
//!
//! Marker sets are reconciled: every frame the expected markers are derived
//! from the battle, stale or duplicate markers are removed and missing ones
//! spawned, so the board always shows exactly the expected set.
use vstd::prelude::*;
use crate::model::{
    BattleFacts, Faction, GridPos, IntentFacts, PrimaryObjective, Reaction, UnitFacts, UnitId,
    WeaponShape,
};
use crate::text::{signed_dec, signed_decimal};
use crate::theme::ThemeColor;

verus! {

/// Identity of one board marker.
#[derive(Clone, Copy, Debug, PartialEq, Eq, Structural)]
pub enum MarkerKey {
    /// One cell of a committed enemy footprint.
    Telegraph { attacker: UnitId, cell: GridPos },
    /// The unit a committed attack aims at.
    IntentTarget { attacker: UnitId, target: UnitId },
    /// The guide from an attacker to its footprint's first cell.
    IntentLine { attacker: UnitId, origin: GridPos, center: GridPos },
    /// A player's chosen reaction.
    Reaction { unit: UnitId, reaction: Reaction },
    /// The intercept mission's escape cell.
    Extraction { cell: GridPos },
}

pub open spec fn tele(attacker: UnitId, cell: GridPos) -> MarkerKey {
    MarkerKey::Telegraph { attacker, cell }
}

pub open spec fn no_duplicates(s: Seq<MarkerKey>) -> bool {
    forall|i: int, j: int| 0 <= i < j < s.len() ==> s[i] != s[j]
}

/// Which existing markers to remove and which expected ones to add.
#[derive(Clone, Debug)]
pub struct ReconcilePlan {
    /// Indices into the existing markers, ascending.
    pub despawn: Vec<usize>,
    pub spawn: Vec<MarkerKey>,
}

/// Whether existing marker `i` stays: it is expected and no earlier
/// existing marker has the same key.
pub open spec fn kept(expected: Seq<MarkerKey>, existing: Seq<MarkerKey>, i: int) -> bool {
    expected.contains(existing[i]) && forall|j: int| 0 <= j < i ==> existing[j] != existing[i]
}

fn contains_key(keys: &Vec<MarkerKey>, k: MarkerKey, upto: usize) -> (b: bool)
    requires
        upto <= keys@.len(),
    ensures
        b == (exists|j: int| 0 <= j < upto && keys@[j] == k),
{
    let mut j: usize = 0;
    while j < upto
        invariant
            upto <= keys@.len(),
            j <= upto,
            forall|m: int| 0 <= m < j ==> keys@[m] != k,
        decreases upto - j,
    {
        if keys[j] == k {
            return true;
        }
        j = j + 1;
    }
    false
}

/// Plans one reconciliation of `existing` markers against `expected`.
pub fn reconcile_markers(expected: &Vec<MarkerKey>, existing: &Vec<MarkerKey>) -> (p: ReconcilePlan)
    ensures
        forall|i: int|
            0 <= i < existing@.len() ==> (p.despawn@.contains(i as usize) <==> !kept(
                expected@,
                existing@,
                i,
            )),
        forall|k: int| 0 <= k < p.despawn@.len() ==> (#[trigger] p.despawn@[k]) < existing@.len(),
        forall|k: int| 0 <= k < p.spawn@.len() ==> expected@.contains(#[trigger] p.spawn@[k])
            && !existing@.contains(p.spawn@[k]),
        forall|e: MarkerKey|
            expected@.contains(e) && !existing@.contains(e) ==> p.spawn@.contains(e),
        no_duplicates(expected@) ==> no_duplicates(p.spawn@),
{
    let mut despawn: Vec<usize> = Vec::new();
    let mut i: usize = 0;
    while i < existing.len()
        invariant
            i <= existing@.len(),
            forall|k: int| 0 <= k < despawn@.len() ==> (#[trigger] despawn@[k]) < i,
            forall|m: int|
                0 <= m < i ==> (despawn@.contains(m as usize) <==> !kept(
                    expected@,
                    existing@,
                    m,
                )),
        decreases existing@.len() - i,
    {
        let key = existing[i];
        let wanted = contains_key(expected, key, expected.len());
        let seen = contains_key(existing, key, i);
        let ghost before = despawn@;
        if !wanted || seen {
            despawn.push(i);
        }
        proof {
            assert(wanted == expected@.contains(key)) by {
                if expected@.contains(key) {
                    let j = choose|j: int| 0 <= j < expected@.len() && expected@[j] == key;
                }
            }
            assert(!kept(expected@, existing@, i as int) == (!wanted || seen));
            assert forall|m: int|
                0 <= m < i + 1 implies (despawn@.contains(m as usize) <==> !kept(
                expected@,
                existing@,
                m,
            )) by {
                if !wanted || seen {
                    assert(despawn@ == before.push(i));
                    if m == i {
                        assert(despawn@[before.len() as int] == i);
                    } else {
                        if despawn@.contains(m as usize) {
                            let k = choose|k: int| 0 <= k < despawn@.len() && despawn@[k] == m as usize;
                            if k < before.len() {
                                assert(before[k] == m as usize);
                            }
                        }
                        if before.contains(m as usize) {
                            let k = choose|k: int| 0 <= k < before.len() && before[k] == m as usize;
                            assert(despawn@[k] == m as usize);
                        }
                    }
                } else {
                    assert(despawn@ == before);
                    if m == i && despawn@.contains(m as usize) {
                        let k = choose|k: int| 0 <= k < despawn@.len() && despawn@[k] == m as usize;
                        assert(despawn@[k] < i);
                    }
                }
            }
        }
        i = i + 1;
    }
    let mut spawn: Vec<MarkerKey> = Vec::new();
    let mut j: usize = 0;
    while j < expected.len()
        invariant
            j <= expected@.len(),
            forall|k: int| 0 <= k < spawn@.len() ==> expected@.contains(#[trigger] spawn@[k])
                && !existing@.contains(spawn@[k]),
            forall|k: int|
                #![trigger spawn@[k]]
                0 <= k < spawn@.len() ==> exists|m: int| 0 <= m < j && expected@[m] == spawn@[k],
            forall|m: int|
                0 <= m < j && !existing@.contains(expected@[m]) ==> spawn@.contains(
                    #[trigger] expected@[m],
                ),
            no_duplicates(expected@) ==> no_duplicates(spawn@),
        decreases expected@.len() - j,
    {
        let key = expected[j];
        let present = contains_key(existing, key, existing.len());
        let ghost before = spawn@;
        if !present {
            spawn.push(key);
            proof {
                assert(expected@.contains(key)) by {
                    assert(expected@[j as int] == key);
                }
                assert(!existing@.contains(key)) by {
                    if existing@.contains(key) {
                        let m = choose|m: int| 0 <= m < existing@.len() && existing@[m] == key;
                    }
                }
                assert(spawn@[before.len() as int] == key);
                if no_duplicates(expected@) {
                    assert forall|a: int, b: int| 0 <= a < b < spawn@.len() implies spawn@[a]
                        != spawn@[b] by {
                        if b == before.len() {
                            let m = choose|m: int| 0 <= m < j && expected@[m] == before[a];
                            assert(expected@[m] != expected@[j as int]);
                        } else {
                            assert(before[a] != before[b]);
                        }
                    }
                }
                assert forall|k: int| #![trigger spawn@[k]] 0 <= k < spawn@.len() implies exists|m: int|
                    0 <= m < j + 1 && expected@[m] == spawn@[k] by {
                    if k == before.len() {
                        assert(expected@[j as int] == spawn@[k]);
                    } else {
                        assert(spawn@[k] == before[k]);
                    }
                }
                assert forall|m: int|
                    0 <= m < j + 1 && !existing@.contains(expected@[m]) implies spawn@.contains(
                    #[trigger] expected@[m],
                ) by {
                    if m < j {
                        let k = choose|k: int| 0 <= k < before.len() && before[k] == expected@[m];
                        assert(spawn@[k] == expected@[m]);
                    }
                }
            }
        } else {
            proof {
                assert(existing@.contains(key)) by {
                    let m = choose|m: int| 0 <= m < existing@.len() && existing@[m] == key;
                }
            }
        }
        j = j + 1;
    }
    proof {
        assert forall|e: MarkerKey|
            expected@.contains(e) && !existing@.contains(e) implies spawn@.contains(e) by {
            let m = choose|m: int| 0 <= m < expected@.len() && expected@[m] == e;
        }
    }
    ReconcilePlan { despawn, spawn }
}

/// After applying a plan the board shows every expected marker exactly
/// once and nothing else.
pub proof fn law_reconcile_restores_expected_set(
    expected: Seq<MarkerKey>,
    existing: Seq<MarkerKey>,
    spawn: Seq<MarkerKey>,
    key: MarkerKey,
)
    requires
        forall|k: int| 0 <= k < spawn.len() ==> expected.contains(#[trigger] spawn[k])
            && !existing.contains(spawn[k]),
        forall|e: MarkerKey| expected.contains(e) && !existing.contains(e) ==> spawn.contains(e),
        no_duplicates(spawn),
    ensures
        expected.contains(key) <==> ((exists|i: int|
            0 <= i < existing.len() && existing[i] == key && kept(expected, existing, i))
            || spawn.contains(key)),
        (exists|i: int| 0 <= i < existing.len() && existing[i] == key && kept(expected, existing, i))
            ==> !spawn.contains(key),
        forall|i: int, j: int|
            0 <= i < j < existing.len() && existing[i] == key && existing[j] == key ==> !kept(
                expected,
                existing,
                j,
            ),
{
    if expected.contains(key) && existing.contains(key) {
        let i0 = choose|i: int| 0 <= i < existing.len() && existing[i] == key;
        let first = choose|i: int|
            0 <= i <= i0 && existing[i] == key && forall|j: int|
                0 <= j < i ==> existing[j] != key;
        lemma_first_occurrence(existing, key, i0);
    }
    if spawn.contains(key) {
        let k = choose|k: int| 0 <= k < spawn.len() && spawn[k] == key;
    }
}

proof fn lemma_first_occurrence(s: Seq<MarkerKey>, key: MarkerKey, i0: int)
    requires
        0 <= i0 < s.len(),
        s[i0] == key,
    ensures
        exists|i: int| 0 <= i <= i0 && s[i] == key && forall|j: int| 0 <= j < i ==> s[j] != key,
    decreases i0,
{
    if exists|j: int| 0 <= j < i0 && s[j] == key {
        let j = choose|j: int| 0 <= j < i0 && s[j] == key;
        lemma_first_occurrence(s, key, j);
    } else {
        assert(forall|j: int| 0 <= j < i0 ==> s[j] != key);
    }
}

fn push_unique(keys: &mut Vec<MarkerKey>, k: MarkerKey)
    ensures
        final(keys)@ == (if old(keys)@.contains(k) {
            old(keys)@
        } else {
            old(keys)@.push(k)
        }),
        no_duplicates(old(keys)@) ==> no_duplicates(final(keys)@),
{
    let n = keys.len();
    if contains_key(keys, k, n) {
        proof {
            let j = choose|j: int| 0 <= j < n && keys@[j] == k;
            assert(old(keys)@.contains(k));
        }
    } else {
        proof {
            assert(!old(keys)@.contains(k)) by {
                if old(keys)@.contains(k) {
                    let j = choose|j: int| 0 <= j < old(keys)@.len() && old(keys)@[j] == k;
                }
            }
        }
        keys.push(k);
        proof {
            if no_duplicates(old(keys)@) {
                assert forall|a: int, b: int| 0 <= a < b < keys@.len() implies keys@[a]
                    != keys@[b] by {
                    if b == n {
                        assert(keys@[a] == old(keys)@[a]);
                    }
                }
            }
        }
    }
}

/// Telegraph keys of one intent: its footprint cells.
pub open spec fn intent_covers(b: BattleFacts, i: IntentFacts, k: MarkerKey) -> bool {
    b.weapon_of(i.weapon).is_some() && match k {
        MarkerKey::Telegraph { attacker, cell } => attacker == i.attacker && i.footprint@.contains(
            cell,
        ),
        _ => false,
    }
}

/// One telegraph marker per committed (attacker, footprint cell) pair whose
/// weapon the battle knows.
pub fn telegraph_keys(battle: &BattleFacts) -> (keys: Vec<MarkerKey>)
    ensures
        no_duplicates(keys@),
        forall|k: MarkerKey|
            keys@.contains(k) <==> exists|i: int|
                0 <= i < battle.intents@.len() && intent_covers(*battle, battle.intents@[i], k),
{
    let mut keys: Vec<MarkerKey> = Vec::new();
    let mut i: usize = 0;
    while i < battle.intents.len()
        invariant
            i <= battle.intents@.len(),
            no_duplicates(keys@),
            forall|k: MarkerKey|
                keys@.contains(k) <==> exists|m: int|
                    0 <= m < i && intent_covers(*battle, battle.intents@[m], k),
        decreases battle.intents@.len() - i,
    {
        let intent = &battle.intents[i];
        if battle.weapon(intent.weapon).is_some() {
            let mut c: usize = 0;
            while c < intent.footprint.len()
                invariant
                    i < battle.intents@.len(),
                    *intent == battle.intents@[i as int],
                    battle.weapon_of(intent.weapon).is_some(),
                    c <= intent.footprint@.len(),
                    no_duplicates(keys@),
                    forall|k: MarkerKey|
                        keys@.contains(k) <==> (exists|m: int|
                            0 <= m < i && intent_covers(*battle, battle.intents@[m], k)) || (
                        exists|f: int|
                            0 <= f < c && k == tele(intent.attacker, intent.footprint@[f])),
                decreases intent.footprint@.len() - c,
            {
                let k = MarkerKey::Telegraph { attacker: intent.attacker, cell: intent.footprint[c] };
                let ghost before = keys@;
                push_unique(&mut keys, k);
                proof {
                    assert forall|x: MarkerKey| keys@.contains(x) <==> (exists|m: int|
                        0 <= m < i && intent_covers(*battle, battle.intents@[m], x)) || (exists|
                        f: int,
                    |
                        0 <= f < c + 1 && x == tele(intent.attacker, intent.footprint@[f])) by {
                        if keys@.contains(x) && !before.contains(x) {
                            let q = choose|q: int| 0 <= q < keys@.len() && keys@[q] == x;
                            assert(q == before.len());
                        }
                        if before.contains(x) {
                            let q = choose|q: int| 0 <= q < before.len() && before[q] == x;
                            if !before.contains(k) {
                                assert(keys@[q] == x);
                            }
                        }
                        if x == k && !before.contains(k) {
                            assert(keys@[before.len() as int] == x);
                        }
                    }
                }
                c = c + 1;
            }
            proof {
                assert forall|x: MarkerKey| keys@.contains(x) <==> exists|m: int|
                    0 <= m < i + 1 && intent_covers(*battle, battle.intents@[m], x) by {
                    if exists|f: int|
                        0 <= f < intent.footprint@.len() && x == tele(intent.attacker, intent.footprint@[f]) {
                        let f = choose|f: int|
                            0 <= f < intent.footprint@.len() && x == tele(intent.attacker, intent.footprint@[f]);
                        assert(intent_covers(*battle, battle.intents@[i as int], x));
                    }
                    if intent_covers(*battle, battle.intents@[i as int], x) {
                        match x {
                            MarkerKey::Telegraph { attacker, cell } => {
                                let f = choose|f: int|
                                    0 <= f < intent.footprint@.len() && intent.footprint@[f]
                                        == cell;
                            },
                            _ => {},
                        }
                    }
                }
            }
        } else {
            proof {
                assert forall|x: MarkerKey| keys@.contains(x) <==> exists|m: int|
                    0 <= m < i + 1 && intent_covers(*battle, battle.intents@[m], x) by {
                    assert(!intent_covers(*battle, battle.intents@[i as int], x));
                }
            }
        }
        i = i + 1;
    }
    keys
}

/// The glyph shape of a telegraph: that of the last committed intent that
/// covers it.
pub fn telegraph_shape(battle: &BattleFacts, attacker: UnitId, cell: GridPos) -> (s: Option<
    WeaponShape,
>)
    ensures
        match s {
            Some(shape) => exists|i: int|
                0 <= i < battle.intents@.len() && intent_covers(
                    *battle,
                    battle.intents@[i],
                    tele(attacker, cell),
                ) && battle.weapon_of(battle.intents@[i].weapon).unwrap().shape == shape && forall|
                    j: int,
                |
                    i < j < battle.intents@.len() ==> !intent_covers(
                        *battle,
                        #[trigger] battle.intents@[j],
                        tele(attacker, cell),
                    ),
            None => forall|i: int|
                0 <= i < battle.intents@.len() ==> !intent_covers(
                    *battle,
                    #[trigger] battle.intents@[i],
                    tele(attacker, cell),
                ),
        },
{
    let key = MarkerKey::Telegraph { attacker, cell };
    let n = battle.intents.len();
    let mut i: usize = n;
    while i > 0
        invariant
            n == battle.intents@.len(),
            key == tele(attacker, cell),
            i <= n,
            forall|j: int|
                i <= j < n ==> !intent_covers(*battle, #[trigger] battle.intents@[j], key),
        decreases i,
    {
        i = i - 1;
        let intent = &battle.intents[i];
        if intent.attacker == attacker {
            match battle.weapon(intent.weapon) {
                Some(w) => {
                    let mut c: usize = 0;
                    while c < intent.footprint.len()
                        invariant
                            n == battle.intents@.len(),
                            key == tele(attacker, cell),
                            i < n,
                            *intent == battle.intents@[i as int],
                            intent.attacker == attacker,
                            battle.weapon_of(intent.weapon) == Some(*w),
                            c <= intent.footprint@.len(),
                            forall|f: int| 0 <= f < c ==> intent.footprint@[f] != cell,
                            forall|j: int|
                                i < j < n ==> !intent_covers(
                                    *battle,
                                    #[trigger] battle.intents@[j],
                                    key,
                                ),
                        decreases intent.footprint@.len() - c,
                    {
                        if intent.footprint[c] == cell {
                            proof {
                                assert(intent.footprint@[c as int] == cell);
                                assert(intent_covers(*battle, battle.intents@[i as int], key));
                            }
                            return Some(w.shape);
                        }
                        c = c + 1;
                    }
                    proof {
                        if intent.footprint@.contains(cell) {
                            let f = choose|f: int|
                                0 <= f < intent.footprint@.len() && intent.footprint@[f] == cell;
                        }
                        assert(!intent_covers(*battle, battle.intents@[i as int], key));
                    }
                },
                None => {},
            }
        }
    }
    None
}

pub open spec fn target_expected(b: BattleFacts, i: IntentFacts, k: MarkerKey) -> bool {
    match i.intended_occupant {
        Some(t) => match b.unit_of(t) {
            Some(u) => !u.knocked_out && k == MarkerKey::IntentTarget {
                attacker: i.attacker,
                target: t,
            },
            None => false,
        },
        None => false,
    }
}

/// One target ring per committed attack whose intended unit still stands.
pub fn intent_target_keys(battle: &BattleFacts) -> (keys: Vec<MarkerKey>)
    ensures
        no_duplicates(keys@),
        forall|k: MarkerKey|
            keys@.contains(k) <==> exists|i: int|
                0 <= i < battle.intents@.len() && target_expected(*battle, battle.intents@[i], k),
{
    let mut keys: Vec<MarkerKey> = Vec::new();
    let mut i: usize = 0;
    while i < battle.intents.len()
        invariant
            i <= battle.intents@.len(),
            no_duplicates(keys@),
            forall|k: MarkerKey|
                keys@.contains(k) <==> exists|m: int|
                    0 <= m < i && target_expected(*battle, battle.intents@[m], k),
        decreases battle.intents@.len() - i,
    {
        let intent = &battle.intents[i];
        let ghost before = keys@;
        let mut added: Option<MarkerKey> = None;
        if let Some(t) = intent.intended_occupant {
            if let Some(u) = battle.unit(t) {
                if !u.knocked_out {
                    let k = MarkerKey::IntentTarget { attacker: intent.attacker, target: t };
                    push_unique(&mut keys, k);
                    added = Some(k);
                }
            }
        }
        proof {
            assert forall|x: MarkerKey| keys@.contains(x) <==> exists|m: int|
                0 <= m < i + 1 && target_expected(*battle, battle.intents@[m], x) by {
                assert(target_expected(*battle, battle.intents@[i as int], x) <==> added == Some(
                    x,
                ));
                match added {
                    Some(k) => {
                        if keys@.contains(x) && !before.contains(x) {
                            let q = choose|q: int| 0 <= q < keys@.len() && keys@[q] == x;
                            assert(q == before.len());
                        }
                        if before.contains(x) {
                            let q = choose|q: int| 0 <= q < before.len() && before[q] == x;
                            if !before.contains(k) {
                                assert(keys@[q] == x);
                            }
                        }
                        if x == k && !before.contains(k) {
                            assert(keys@[before.len() as int] == x);
                        }
                    },
                    None => {},
                }
            }
        }
        i = i + 1;
    }
    keys
}

/// Whether intent `i` is the last one of its attacker with a footprint.
pub open spec fn last_line_intent(intents: Seq<IntentFacts>, i: int) -> bool {
    0 <= i < intents.len() && intents[i].footprint@.len() > 0 && forall|j: int|
        i < j < intents.len() ==> !(#[trigger] intents[j].attacker == intents[i].attacker
            && intents[j].footprint@.len() > 0)
}

/// The attacker whose guide line a marker is (`None` for other markers).
pub open spec fn line_attacker(k: MarkerKey) -> Option<UnitId> {
    match k {
        MarkerKey::IntentLine { attacker, .. } => Some(attacker),
        _ => None,
    }
}

pub open spec fn line_of(i: IntentFacts) -> MarkerKey {
    MarkerKey::IntentLine { attacker: i.attacker, origin: i.origin, center: i.footprint@[0] }
}

/// Whether `k` is the guide line of some attacker's last intent.
pub open spec fn is_expected_line(intents: Seq<IntentFacts>, k: MarkerKey) -> bool {
    exists|i: int| #![trigger last_line_intent(intents, i)] last_line_intent(intents, i) && k == line_of(intents[i])
}

/// One guide line per attacker, from its latest committed intent with a
/// footprint.
pub fn intent_line_keys(battle: &BattleFacts) -> (keys: Vec<MarkerKey>)
    ensures
        forall|k: int| 0 <= k < keys@.len() ==> is_expected_line(battle.intents@, #[trigger] keys@[k]),
        forall|i: int|
            last_line_intent(battle.intents@, i) ==> keys@.contains(line_of(battle.intents@[i])),
        forall|a: int, b: int|
            0 <= a < b < keys@.len() ==> line_attacker(#[trigger] keys@[a]) != line_attacker(
                #[trigger] keys@[b],
            ),
{
    let mut keys: Vec<MarkerKey> = Vec::new();
    let ghost mut idxs: Seq<int> = Seq::empty();
    let n = battle.intents.len();
    let mut i: usize = 0;
    while i < n
        invariant
            n == battle.intents@.len(),
            i <= n,
            forall|k: int| 0 <= k < keys@.len() ==> is_expected_line(battle.intents@, #[trigger] keys@[k]),
            forall|m: int|
                0 <= m < i && last_line_intent(battle.intents@, m) ==> keys@.contains(
                    line_of(battle.intents@[m]),
                ),
            idxs.len() == keys@.len(),
            forall|q: int|
                0 <= q < idxs.len() ==> 0 <= #[trigger] idxs[q] < i && last_line_intent(
                    battle.intents@,
                    idxs[q],
                ) && keys@[q] == line_of(battle.intents@[idxs[q]]),
            forall|a: int, b: int| 0 <= a < b < idxs.len() ==> idxs[a] < idxs[b],
        decreases n - i,
    {
        let intent = &battle.intents[i];
        if intent.footprint.len() > 0 {
            let mut later = false;
            let mut j: usize = i + 1;
            while j < n
                invariant
                    n == battle.intents@.len(),
                    i < j <= n,
                    *intent == battle.intents@[i as int],
                    !later ==> forall|m: int|
                        i < m < j ==> !(#[trigger] battle.intents@[m].attacker == intent.attacker
                            && battle.intents@[m].footprint@.len() > 0),
                    later ==> exists|m: int|
                        i < m < n && #[trigger] battle.intents@[m].attacker == intent.attacker
                            && battle.intents@[m].footprint@.len() > 0,
                decreases n - j,
            {
                if battle.intents[j].attacker == intent.attacker && battle.intents[j].footprint.len()
                    > 0 {
                    later = true;
                }
                j = j + 1;
            }
            if !later {
                let k = MarkerKey::IntentLine {
                    attacker: intent.attacker,
                    origin: intent.origin,
                    center: intent.footprint[0],
                };
                let ghost before = keys@;
                let ghost before_idxs = idxs;
                keys.push(k);
                proof {
                    idxs = idxs.push(i as int);
                    assert forall|q: int| 0 <= q < before_idxs.len() implies idxs[q] == before_idxs[q] by {}
                    assert(last_line_intent(battle.intents@, i as int));
                    assert(k == line_of(battle.intents@[i as int]));
                    assert(keys@[before.len() as int] == k);
                    assert forall|q: int| 0 <= q < keys@.len() implies is_expected_line(
                        battle.intents@,
                        #[trigger] keys@[q],
                    ) by {
                        if q < before.len() {
                            assert(keys@[q] == before[q]);
                        }
                    }
                    assert forall|m: int|
                        0 <= m < i + 1 && last_line_intent(battle.intents@, m) implies keys@.contains(
                        line_of(battle.intents@[m]),
                    ) by {
                        if m < i {
                            let q = choose|q: int|
                                0 <= q < before.len() && before[q] == line_of(battle.intents@[m]);
                            assert(keys@[q] == before[q]);
                        }
                    }
                }
            } else {
                proof {
                    let m = choose|m: int|
                        i < m < n && #[trigger] battle.intents@[m].attacker == intent.attacker
                            && battle.intents@[m].footprint@.len() > 0;
                    assert(!last_line_intent(battle.intents@, i as int));
                }
            }
        }
        i = i + 1;
    }
    proof {
        assert forall|a: int, b: int|
            0 <= a < b < keys@.len() implies line_attacker(#[trigger] keys@[a]) != line_attacker(
            #[trigger] keys@[b],
        ) by {
            let ia = idxs[a];
            let ib = idxs[b];
            assert(ia < ib);
            assert(last_line_intent(battle.intents@, ia));
            assert(last_line_intent(battle.intents@, ib));
            assert(!(battle.intents@[ib].attacker == battle.intents@[ia].attacker
                && battle.intents@[ib].footprint@.len() > 0));
        }
    }
    keys
}

pub open spec fn reaction_expected(u: UnitFacts, k: MarkerKey) -> bool {
    u.faction == Faction::Player && !u.knocked_out && match u.reaction {
        Some(r) => k == MarkerKey::Reaction { unit: u.id, reaction: r },
        None => false,
    }
}

/// One reaction badge per standing player unit that chose a reaction.
pub fn reaction_keys(battle: &BattleFacts) -> (keys: Vec<MarkerKey>)
    ensures
        no_duplicates(keys@),
        forall|k: MarkerKey|
            keys@.contains(k) <==> exists|i: int|
                0 <= i < battle.units@.len() && reaction_expected(battle.units@[i], k),
{
    let mut keys: Vec<MarkerKey> = Vec::new();
    let mut i: usize = 0;
    while i < battle.units.len()
        invariant
            i <= battle.units@.len(),
            no_duplicates(keys@),
            forall|k: MarkerKey|
                keys@.contains(k) <==> exists|m: int|
                    0 <= m < i && reaction_expected(battle.units@[m], k),
        decreases battle.units@.len() - i,
    {
        let u = &battle.units[i];
        let ghost before = keys@;
        let mut added: Option<MarkerKey> = None;
        if u.faction == Faction::Player && !u.knocked_out {
            if let Some(r) = u.reaction {
                let k = MarkerKey::Reaction { unit: u.id, reaction: r };
                push_unique(&mut keys, k);
                added = Some(k);
            }
        }
        proof {
            assert forall|x: MarkerKey| keys@.contains(x) <==> exists|m: int|
                0 <= m < i + 1 && reaction_expected(battle.units@[m], x) by {
                assert(reaction_expected(battle.units@[i as int], x) <==> added == Some(x));
                match added {
                    Some(k) => {
                        if keys@.contains(x) && !before.contains(x) {
                            let q = choose|q: int| 0 <= q < keys@.len() && keys@[q] == x;
                            assert(q == before.len());
                        }
                        if before.contains(x) {
                            let q = choose|q: int| 0 <= q < before.len() && before[q] == x;
                            if !before.contains(k) {
                                assert(keys@[q] == x);
                            }
                        }
                        if x == k && !before.contains(k) {
                            assert(keys@[before.len() as int] == x);
                        }
                    },
                    None => {},
                }
            }
        }
        i = i + 1;
    }
    keys
}

/// The escape cell marker exists only while the primary is an intercept.
pub fn extraction_key(battle: &BattleFacts) -> (k: Option<MarkerKey>)
    ensures
        k == match battle.primary {
            PrimaryObjective::InterceptBeforeEscape { escape, .. } => Some(
                MarkerKey::Extraction { cell: escape },
            ),
            _ => None,
        },
{
    match battle.primary {
        PrimaryObjective::InterceptBeforeEscape { escape, .. } => Some(
            MarkerKey::Extraction { cell: escape },
        ),
        _ => None,
    }
}

/// Tint of the diamond under a token: the active unit is selected, an
/// inspected one marked; knocked-out units show none.
pub fn selection_tint(battle: &BattleFacts, unit: &UnitFacts, inspected: Option<UnitId>) -> (t:
    Option<ThemeColor>)
    ensures
        t == (if unit.knocked_out {
            None
        } else if battle.active_unit == Some(unit.id) {
            Some(ThemeColor::BoardSelected)
        } else if inspected == Some(unit.id) {
            Some(ThemeColor::BoardInspected)
        } else {
            None
        }),
{
    if unit.knocked_out {
        None
    } else if battle.active_unit == Some(unit.id) {
        Some(ThemeColor::BoardSelected)
    } else if inspected == Some(unit.id) {
        Some(ThemeColor::BoardInspected)
    } else {
        None
    }
}

/// How a token card is drawn.
#[derive(Clone, Copy, Debug, PartialEq, Eq, Structural)]
pub struct TokenCardView {
    pub player: bool,
    /// A finished player pilot's card is dimmed.
    pub dimmed: bool,
    /// The gold "awaiting orders" badge.
    pub awaiting: bool,
    pub visible: bool,
}

pub fn token_card_view(unit: &UnitFacts) -> (v: TokenCardView)
    ensures
        v.player == (unit.faction == Faction::Player),
        v.dimmed == (unit.finished && unit.faction == Faction::Player),
        v.awaiting == (unit.faction == Faction::Player && !unit.finished),
        v.visible == !unit.knocked_out,
{
    let player = unit.faction == Faction::Player;
    TokenCardView {
        player,
        dimmed: unit.finished && player,
        awaiting: player && !unit.finished,
        visible: !unit.knocked_out,
    }
}

/// Outer stroke and inset fill of one board cell.
#[derive(Clone, Copy, Debug, PartialEq, Eq, Structural)]
pub struct CellTint {
    pub stroke: ThemeColor,
    pub inset: ThemeColor,
}

/// Attack previews win, then the hovered cell and the reachable set, then
/// the checkerboard.
pub fn cell_tint(cell: GridPos, in_preview: bool, hovered: Option<GridPos>, reachable: bool) -> (t:
    CellTint)
    ensures
        t == (if in_preview {
            CellTint { stroke: ThemeColor::BoardAttack, inset: ThemeColor::BoardAttackInset }
        } else if hovered == Some(cell) || reachable {
            CellTint { stroke: ThemeColor::BoardSelected, inset: ThemeColor::BoardReachable }
        } else if (cell.x + cell.y) % 2 == 0 {
            CellTint { stroke: ThemeColor::BoardStroke, inset: ThemeColor::BoardLight }
        } else {
            CellTint { stroke: ThemeColor::BoardStroke, inset: ThemeColor::BoardDark }
        }),
{
    if in_preview {
        CellTint { stroke: ThemeColor::BoardAttack, inset: ThemeColor::BoardAttackInset }
    } else if hovered == Some(cell) || reachable {
        CellTint { stroke: ThemeColor::BoardSelected, inset: ThemeColor::BoardReachable }
    } else if (cell.x as u16 + cell.y as u16) % 2 == 0 {
        CellTint { stroke: ThemeColor::BoardStroke, inset: ThemeColor::BoardLight }
    } else {
        CellTint { stroke: ThemeColor::BoardStroke, inset: ThemeColor::BoardDark }
    }
}

/// The player unit whose reachable cells are highlighted: the inspected unit,
/// else the player unit under the hovered cell (`hovered_occupant`).
pub fn highlight_unit(battle: &BattleFacts, inspected: Option<UnitId>, hovered_occupant: Option<UnitId>) -> (u:
    Option<UnitId>)
    ensures
        ({
            let candidate = match inspected {
                Some(i) => Some(i),
                None => match hovered_occupant {
                    Some(h) => match battle.unit_of(h) {
                        Some(x) => if x.faction == Faction::Player {
                            Some(x.id)
                        } else {
                            None
                        },
                        None => None,
                    },
                    None => None,
                },
            };
            u == match candidate {
                Some(c) => match battle.unit_of(c) {
                    Some(x) => if x.faction == Faction::Player {
                        Some(c)
                    } else {
                        None
                    },
                    None => None,
                },
                None => None,
            }
        }),
{
    let candidate = match inspected {
        Some(i) => Some(i),
        None => match hovered_occupant {
            Some(h) => match battle.unit(h) {
                Some(x) => if x.faction == Faction::Player {
                    Some(x.id)
                } else {
                    None
                },
                None => None,
            },
            None => None,
        },
    };
    match candidate {
        Some(c) => match battle.unit(c) {
            Some(x) => if x.faction == Faction::Player {
                Some(c)
            } else {
                None
            },
            None => None,
        },
        None => None,
    }
}

pub open spec fn living_player(u: UnitFacts) -> bool {
    u.faction == Faction::Player && !u.knocked_out
}

/// The unit the regional map view centres on: the active unit, else the
/// inspected one, when the battle knows it.
pub open spec fn spec_focus_unit(battle: BattleFacts, inspected: Option<UnitId>) -> Option<UnitFacts> {
    match battle.active_unit {
        Some(a) => battle.unit_of(a),
        None => match inspected {
            Some(i) => battle.unit_of(i),
            None => None,
        },
    }
}

/// Cell the map view focuses: that of the active or inspected unit, else of
/// the first standing player unit in the engine's order.
pub fn focus_cell(battle: &BattleFacts, inspected: Option<UnitId>) -> (c: Option<GridPos>)
    ensures
        match spec_focus_unit(*battle, inspected) {
            Some(u) => c == Some(u.position),
            None => match c {
                Some(p) => exists|i: int|
                    0 <= i < battle.units@.len() && living_player(battle.units@[i])
                        && battle.units@[i].position == p && forall|j: int|
                        0 <= j < i ==> !living_player(#[trigger] battle.units@[j]),
                None => forall|i: int|
                    0 <= i < battle.units@.len() ==> !living_player(#[trigger] battle.units@[i]),
            },
        },
{
    let id = match battle.active_unit {
        Some(a) => Some(a),
        None => inspected,
    };
    match id {
        Some(i) => match battle.unit(i) {
            Some(u) => {
                return Some(u.position);
            },
            None => {},
        },
        None => {},
    }
    let mut k: usize = 0;
    while k < battle.units.len()
        invariant
            k <= battle.units@.len(),
            spec_focus_unit(*battle, inspected).is_none(),
            forall|j: int| 0 <= j < k ==> !living_player(#[trigger] battle.units@[j]),
        decreases battle.units@.len() - k,
    {
        let u = &battle.units[k];
        if u.faction == Faction::Player && !u.knocked_out {
            return Some(u.position);
        }
        k = k + 1;
    }
    None
}

/// The token's HP readout.
pub fn token_hp_text(unit: &UnitFacts) -> (s: String)
    ensures
        s@ == signed_dec(unit.hp as int),
{
    signed_decimal(unit.hp as i64)
}

/// The token's HP bar as a fraction: HP (negative shows empty) over max HP
/// (at least 1).
pub fn token_hp_fill(unit: &UnitFacts) -> (f: (i16, i16))
    ensures
        f.0 == (if unit.hp > 0 { unit.hp } else { 0 }),
        f.1 == (if unit.max_hp > 1 { unit.max_hp } else { 1 }),
{
    (if unit.hp > 0 { unit.hp } else { 0 }, if unit.max_hp > 1 { unit.max_hp } else { 1 })
}

/// Where a regional map view opens: on the first standing player unit in
/// the engine's order, else on the corner cell.
pub fn opening_focus(battle: &BattleFacts) -> (c: GridPos)
    ensures
        (exists|i: int|
            0 <= i < battle.units@.len() && living_player(battle.units@[i])
                && battle.units@[i].position == c && forall|j: int|
                0 <= j < i ==> !living_player(#[trigger] battle.units@[j])) || (c == GridPos {
            x: 0,
            y: 0,
        } && forall|i: int|
            0 <= i < battle.units@.len() ==> !living_player(#[trigger] battle.units@[i])),
{
    let mut k: usize = 0;
    while k < battle.units.len()
        invariant
            k <= battle.units@.len(),
            forall|j: int| 0 <= j < k ==> !living_player(#[trigger] battle.units@[j]),
        decreases battle.units@.len() - k,
    {
        let u = &battle.units[k];
        if u.faction == Faction::Player && !u.knocked_out {
            return u.position;
        }
        k = k + 1;
    }
    GridPos { x: 0, y: 0 }
}

/// Which board-cell visuals to remove and which cells to add so that the
/// visible cells all have one: visuals of cells no longer visible go;
/// visible cells without a visual get one, once.
#[derive(Clone, Debug)]
pub struct CellPlan {
    /// Indices into the existing visuals, ascending.
    pub despawn: Vec<usize>,
    pub spawn: Vec<GridPos>,
}

fn contains_cell(cells: &Vec<GridPos>, c: GridPos) -> (b: bool)
    ensures
        b == cells@.contains(c),
{
    let mut j: usize = 0;
    while j < cells.len()
        invariant
            j <= cells@.len(),
            forall|m: int| 0 <= m < j ==> cells@[m] != c,
        decreases cells@.len() - j,
    {
        if cells[j] == c {
            assert(cells@[j as int] == c);
            return true;
        }
        j = j + 1;
    }
    false
}

pub fn reconcile_cells(visible: &Vec<GridPos>, existing: &Vec<GridPos>) -> (p: CellPlan)
    ensures
        forall|i: int|
            0 <= i < existing@.len() ==> (p.despawn@.contains(i as usize) <==> !visible@.contains(
                existing@[i],
            )),
        forall|k: int| 0 <= k < p.despawn@.len() ==> (#[trigger] p.despawn@[k]) < existing@.len(),
        forall|k: int, m: int| 0 <= k < m < p.despawn@.len() ==> p.despawn@[k] < p.despawn@[m],
        forall|c: GridPos|
            p.spawn@.contains(c) <==> (visible@.contains(c) && !existing@.contains(c)),
        forall|a: int, b: int| 0 <= a < b < p.spawn@.len() ==> p.spawn@[a] != p.spawn@[b],
{
    let mut despawn: Vec<usize> = Vec::new();
    let mut i: usize = 0;
    while i < existing.len()
        invariant
            i <= existing@.len(),
            forall|k: int| 0 <= k < despawn@.len() ==> (#[trigger] despawn@[k]) < i,
            forall|k: int, m: int| 0 <= k < m < despawn@.len() ==> despawn@[k] < despawn@[m],
            forall|m: int|
                0 <= m < i ==> (despawn@.contains(m as usize) <==> !visible@.contains(
                    existing@[m],
                )),
        decreases existing@.len() - i,
    {
        let ghost before = despawn@;
        let keep = contains_cell(visible, existing[i]);
        if !keep {
            despawn.push(i);
        }
        proof {
            assert forall|m: int|
                0 <= m < i + 1 implies (despawn@.contains(m as usize) <==> !visible@.contains(
                existing@[m],
            )) by {
                if despawn@.contains(m as usize) && m < i {
                    let q = choose|q: int| 0 <= q < despawn@.len() && despawn@[q] == m as usize;
                    if q < before.len() {
                        assert(before[q] == m as usize);
                    }
                }
                if before.contains(m as usize) {
                    let q = choose|q: int| 0 <= q < before.len() && before[q] == m as usize;
                    assert(despawn@[q] == m as usize);
                }
                if m == i && despawn@.contains(m as usize) && keep {
                    let q = choose|q: int| 0 <= q < despawn@.len() && despawn@[q] == m as usize;
                    assert(despawn@[q] < i);
                }
                if m == i && !keep {
                    assert(despawn@[before.len() as int] == i);
                }
            }
        }
        i = i + 1;
    }
    let mut spawn: Vec<GridPos> = Vec::new();
    let mut v: usize = 0;
    while v < visible.len()
        invariant
            v <= visible@.len(),
            forall|c: GridPos|
                spawn@.contains(c) <==> (exists|m: int| 0 <= m < v && visible@[m] == c)
                    && !existing@.contains(c),
            forall|a: int, b: int| 0 <= a < b < spawn@.len() ==> spawn@[a] != spawn@[b],
        decreases visible@.len() - v,
    {
        let c = visible[v];
        let ghost before = spawn@;
        let present = contains_cell(existing, c);
        let already = contains_cell(&spawn, c);
        if !present && !already {
            spawn.push(c);
        }
        proof {
            assert forall|x: GridPos|
                spawn@.contains(x) <==> (exists|m: int| 0 <= m < v + 1 && visible@[m] == x)
                    && !existing@.contains(x) by {
                if spawn@.contains(x) {
                    let q = choose|q: int| 0 <= q < spawn@.len() && spawn@[q] == x;
                    if q < before.len() {
                        assert(before.contains(x));
                    } else {
                        assert(x == c);
                        assert(visible@[v as int] == x);
                    }
                }
                if (exists|m: int| 0 <= m < v + 1 && visible@[m] == x) && !existing@.contains(x) {
                    let m = choose|m: int| 0 <= m < v + 1 && visible@[m] == x;
                    if m < v {
                        assert(before.contains(x));
                        let q = choose|q: int| 0 <= q < before.len() && before[q] == x;
                        assert(spawn@[q] == x);
                    } else {
                        if already {
                            assert(before.contains(x));
                            let q = choose|q: int| 0 <= q < before.len() && before[q] == x;
                            assert(spawn@[q] == x);
                        } else {
                            assert(spawn@[before.len() as int] == x);
                        }
                    }
                }
            }
            assert forall|a: int, b: int| 0 <= a < b < spawn@.len() implies spawn@[a] != spawn@[b] by {
                if b == before.len() && !present && !already {
                    assert(spawn@[a] == before[a]);
                    assert(before.contains(spawn@[a]));
                }
            }
        }
        v = v + 1;
    }
    assert forall|c: GridPos|
        spawn@.contains(c) <==> (visible@.contains(c) && !existing@.contains(c)) by {
        if visible@.contains(c) {
            let m = choose|m: int| 0 <= m < visible@.len() && visible@[m] == c;
        }
    }
    CellPlan { despawn, spawn }
}

} // verus!
