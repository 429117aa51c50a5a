use vstd::prelude::*;
use vstd::utf8::encode_utf8;

use crate::game_type::{GameType, PRIMARY_UMS};
use crate::setup::{
    PlayerInfo, bw_player_type_of, bw_race_of, race_view, PLAYER_TYPE_NONE, PLAYER_TYPE_OPEN,
    RACE_RANDOM,
};

verus! {

/// The engine's player table has this many entries.
pub const PLAYER_SLOTS: usize = 8;
/// Bytes of an entry's name field, terminator included.
pub const NAME_FIELD_LEN: usize = 25;
/// Bytes of a name that the field keeps.
pub const NAME_MAX_BYTES: usize = 24;
/// Session id of an entry that nobody holds.
pub const STORM_ID_NONE: u32 = 255;
/// Session id of a human entry whose participant has not shown up yet.
pub const STORM_ID_HUMAN_PENDING: u32 = 27;
/// Session ids below this one are bound to a participant.
pub const STORM_ID_BOUND_LIMIT: u32 = 8;

/// One entry of the engine's player table, as plain values.
#[derive(Clone, PartialEq, Eq, Debug)]
pub struct EnginePlayer {
    pub player_id: u32,
    pub storm_id: u32,
    pub player_type: u8,
    pub race: u8,
    pub team: u8,
    /// `NAME_FIELD_LEN` bytes: the name, then zeros.
    pub name: Vec<u8>,
}

/// The mathematical value of a table entry.
pub struct PlayerEntry {
    pub player_id: u32,
    pub storm_id: u32,
    pub player_type: u8,
    pub race: u8,
    pub team: u8,
    pub name: Seq<u8>,
}

impl View for EnginePlayer {
    type V = PlayerEntry;

    open spec fn view(&self) -> PlayerEntry {
        PlayerEntry {
            player_id: self.player_id,
            storm_id: self.storm_id,
            player_type: self.player_type,
            race: self.race,
            team: self.team,
            name: self.name@,
        }
    }
}

/// The bytes of a name in the engine's encoding.
pub open spec fn name_bytes(s: Seq<char>) -> Seq<u8> {
    encode_utf8(s)
}

/// A name field holding the first `NAME_MAX_BYTES` bytes of `b`, then zeros.
pub open spec fn name_field(b: Seq<u8>) -> Seq<u8> {
    Seq::new(
        NAME_FIELD_LEN as nat,
        |i: int|
            if i < NAME_MAX_BYTES && i < b.len() {
                b[i]
            } else {
                0u8
            },
    )
}

/// The table index that the slot at position `pos` of the request goes to.
pub open spec fn target_index(slot: PlayerInfo, pos: int, gt: GameType) -> int {
    if gt.primary == PRIMARY_UMS {
        match slot.player_id {
            Some(id) => id as int,
            None => 0,
        }
    } else {
        pos
    }
}

/// The team of a slot. The engine forces team 0 on "use map settings" slots of
/// native type 1 or 2, and so does this table.
pub open spec fn team_of(slot: PlayerInfo, gt: GameType) -> u8 {
    if gt.primary != PRIMARY_UMS || (slot.player_type_id != 1 && slot.player_type_id != 2) {
        match slot.team_id {
            Some(t) => t,
            None => 0,
        }
    } else {
        0
    }
}

/// The engine player type of a slot: "use map settings" maps set their own
/// computers' types, which pass through unchanged.
pub open spec fn engine_type_of(slot: PlayerInfo, gt: GameType) -> u8 {
    if gt.primary == PRIMARY_UMS && !slot.spec_is_human() {
        slot.player_type_id
    } else {
        bw_player_type_of(slot.player_type@)
    }
}

/// The entry that a slot writes at table index `k`.
pub open spec fn slot_entry(slot: PlayerInfo, k: int, gt: GameType) -> PlayerEntry {
    PlayerEntry {
        player_id: k as u32,
        storm_id: if slot.spec_is_human() {
            STORM_ID_HUMAN_PENDING
        } else {
            STORM_ID_NONE
        },
        player_type: engine_type_of(slot, gt),
        race: bw_race_of(race_view(slot.race)),
        team: team_of(slot, gt),
        name: name_field(name_bytes(slot.name@)),
    }
}

/// The entry at index `k` before any slot is written, for a request of `n` slots.
pub open spec fn default_entry(k: int, n: int) -> PlayerEntry {
    PlayerEntry {
        player_id: k as u32,
        storm_id: STORM_ID_NONE,
        player_type: if n < k {
            PLAYER_TYPE_OPEN
        } else {
            PLAYER_TYPE_NONE
        },
        race: RACE_RANDOM,
        team: 0,
        name: Seq::new(NAME_FIELD_LEN as nat, |i: int| 0u8),
    }
}

/// Entry `k` of the table once the first `n` slots are written in order: the
/// last non-observer slot aimed at `k` wins.
pub open spec fn table_entry(slots: Seq<PlayerInfo>, gt: GameType, k: int, n: int) -> PlayerEntry
    decreases n,
{
    if n <= 0 {
        default_entry(k, slots.len() as int)
    } else if !slots[n - 1].spec_is_observer() && target_index(slots[n - 1], n - 1, gt) == k {
        slot_entry(slots[n - 1], k, gt)
    } else {
        table_entry(slots, gt, k, n - 1)
    }
}

/// Every slot that takes a table entry aims inside the table.
pub open spec fn slots_fit(slots: Seq<PlayerInfo>, gt: GameType) -> bool {
    forall|i: int|
        0 <= i < slots.len() && !(#[trigger] slots[i]).spec_is_observer() ==> 0 <= target_index(
            slots[i],
            i,
            gt,
        ) < PLAYER_SLOTS
}

/// The player table that a slot list sets up.
pub open spec fn slot_table(slots: Seq<PlayerInfo>, gt: GameType, k: int) -> PlayerEntry {
    table_entry(slots, gt, k, slots.len() as int)
}

/// Slot population is a function of the slot list and game type: two tables
/// that both hold what `setup_slots` promises are equal. Every entry is either
/// its untouched default or the entry of a non-observer slot aimed at it, so no
/// observer takes an entry; and a name field keeps a name's first
/// `NAME_MAX_BYTES` bytes, a longer name being cut rather than refused.
pub proof fn lemma_slot_population(
    slots: Seq<PlayerInfo>,
    gt: GameType,
    t1: Seq<PlayerEntry>,
    t2: Seq<PlayerEntry>,
)
    requires
        t1.len() == PLAYER_SLOTS,
        t2.len() == PLAYER_SLOTS,
        forall|k: int| 0 <= k < PLAYER_SLOTS ==> #[trigger] t1[k] == slot_table(slots, gt, k),
        forall|k: int| 0 <= k < PLAYER_SLOTS ==> #[trigger] t2[k] == slot_table(slots, gt, k),
    ensures
        t1 == t2,
        forall|k: int|
            0 <= k < PLAYER_SLOTS ==> #[trigger] t1[k] == default_entry(k, slots.len() as int)
                || exists|j: int|
                0 <= j < slots.len() && !slots[j].spec_is_observer() && target_index(
                    slots[j],
                    j,
                    gt,
                ) == k && t1[k] == slot_entry(#[trigger] slots[j], k, gt),
{
    assert(t1 =~= t2);
    assert forall|k: int| 0 <= k < PLAYER_SLOTS implies #[trigger] t1[k] == default_entry(
        k,
        slots.len() as int,
    ) || exists|j: int|
        0 <= j < slots.len() && !slots[j].spec_is_observer() && target_index(slots[j], j, gt) == k
            && t1[k] == slot_entry(#[trigger] slots[j], k, gt) by {
        lemma_table_entry_origin(slots, gt, k, slots.len() as int);
    }
}

/// Where entry `k` of a partly written table comes from.
proof fn lemma_table_entry_origin(slots: Seq<PlayerInfo>, gt: GameType, k: int, n: int)
    requires
        n <= slots.len(),
    ensures
        table_entry(slots, gt, k, n) == default_entry(k, slots.len() as int) || exists|j: int|
            0 <= j < n && !slots[j].spec_is_observer() && target_index(slots[j], j, gt) == k
                && table_entry(slots, gt, k, n) == slot_entry(#[trigger] slots[j], k, gt),
    decreases n,
{
    if n > 0 {
        lemma_table_entry_origin(slots, gt, k, n - 1);
    }
}

/// A name field is `NAME_FIELD_LEN` bytes: the name's first bytes, up to
/// `NAME_MAX_BYTES`, then zeros; a longer name is cut there.
pub proof fn lemma_name_field_truncates(b: Seq<u8>)
    ensures
        name_field(b).len() == NAME_FIELD_LEN,
        forall|i: int| 0 <= i < b.len() && i < NAME_MAX_BYTES ==> #[trigger] name_field(b)[i] == b[i],
        forall|i: int| b.len() <= i < NAME_FIELD_LEN ==> #[trigger] name_field(b)[i] == 0u8,
        name_field(b)[NAME_MAX_BYTES as int] == 0u8,
        b.len() > NAME_MAX_BYTES ==> name_field(b).take(NAME_MAX_BYTES as int) == b.take(
            NAME_MAX_BYTES as int,
        ),
{
    if b.len() > NAME_MAX_BYTES {
        assert(name_field(b).take(NAME_MAX_BYTES as int) =~= b.take(NAME_MAX_BYTES as int));
    }
}

/// A name field for `s`: its first `NAME_MAX_BYTES` bytes, longer names cut.
pub fn make_name_field(s: &String) -> (r: Vec<u8>)
    ensures
        r@ == name_field(name_bytes(s@)),
{
    let b: &[u8] = s.as_str().as_bytes();
    let mut r: Vec<u8> = Vec::new();
    let mut i: usize = 0;
    while i < NAME_FIELD_LEN
        invariant
            b@ == name_bytes(s@),
            i <= NAME_FIELD_LEN,
            r@.len() == i,
            forall|j: int| 0 <= j < i ==> r@[j] == name_field(b@)[j],
        decreases NAME_FIELD_LEN - i,
    {
        if i < NAME_MAX_BYTES && i < b.len() {
            r.push(b[i]);
        } else {
            r.push(0u8);
        }
        i = i + 1;
    }
    assert(r@ =~= name_field(b@));
    r
}

/// The entry that `slot` writes at table index `k`.
fn make_slot_entry(slot: &PlayerInfo, k: usize, gt: GameType) -> (r: EnginePlayer)
    requires
        k < PLAYER_SLOTS,
    ensures
        r@ == slot_entry(*slot, k as int, gt),
{
    let is_ums = gt.is_ums();
    let human = slot.is_human();
    let team = if !is_ums || (slot.player_type_id != 1 && slot.player_type_id != 2) {
        match slot.team_id {
            Some(t) => t,
            None => 0,
        }
    } else {
        0
    };
    let player_type = if is_ums && !human {
        slot.player_type_id
    } else {
        slot.bw_player_type()
    };
    EnginePlayer {
        player_id: k as u32,
        storm_id: if human {
            STORM_ID_HUMAN_PENDING
        } else {
            STORM_ID_NONE
        },
        player_type,
        race: slot.bw_race(),
        team,
        name: make_name_field(&slot.name),
    }
}

/// Builds the engine's player table for a slot list. Observers take no entry;
/// the others go, in order, to their own player id in "use map settings" games
/// and to their position in the list otherwise.
pub fn setup_slots(slots: &Vec<PlayerInfo>, game_type: GameType) -> (r: Vec<EnginePlayer>)
    requires
        slots_fit(slots@, game_type),
    ensures
        r@.len() == PLAYER_SLOTS,
        forall|k: int| 0 <= k < PLAYER_SLOTS ==> (#[trigger] r@[k])@ == slot_table(slots@, game_type, k),
{
    let mut table: Vec<EnginePlayer> = Vec::new();
    let mut k: usize = 0;
    while k < PLAYER_SLOTS
        invariant
            k <= PLAYER_SLOTS,
            table@.len() == k,
            forall|j: int| 0 <= j < k ==> (#[trigger] table@[j])@ == table_entry(slots@, game_type, j, 0),
        decreases PLAYER_SLOTS - k,
    {
        let mut name: Vec<u8> = Vec::new();
        let mut n: usize = 0;
        while n < NAME_FIELD_LEN
            invariant
                n <= NAME_FIELD_LEN,
                name@.len() == n,
                forall|j: int| 0 <= j < n ==> name@[j] == 0u8,
            decreases NAME_FIELD_LEN - n,
        {
            name.push(0u8);
            n = n + 1;
        }
        let entry = EnginePlayer {
            player_id: k as u32,
            storm_id: STORM_ID_NONE,
            player_type: if slots.len() < k {
                PLAYER_TYPE_OPEN
            } else {
                PLAYER_TYPE_NONE
            },
            race: RACE_RANDOM,
            team: 0,
            name,
        };
        assert(entry@.name =~= default_entry(k as int, slots@.len() as int).name);
        table.push(entry);
        k = k + 1;
    }
    let is_ums = game_type.is_ums();
    let mut i: usize = 0;
    while i < slots.len()
        invariant
            i <= slots@.len(),
            slots_fit(slots@, game_type),
            is_ums == (game_type.primary == PRIMARY_UMS),
            table@.len() == PLAYER_SLOTS,
            forall|j: int| 0 <= j < PLAYER_SLOTS ==> (#[trigger] table@[j])@ == table_entry(slots@, game_type, j, i as int),
        decreases slots@.len() - i,
    {
        let slot = &slots[i];
        if !slot.is_observer() {
            let slot_id: usize = if is_ums {
                match slot.player_id {
                    Some(id) => id as usize,
                    None => 0,
                }
            } else {
                i
            };
            assert(!slots@[i as int].spec_is_observer());
            assert(slot_id == target_index(slots@[i as int], i as int, game_type));
            let entry = make_slot_entry(slot, slot_id, game_type);
            table[slot_id] = entry;
        }
        i = i + 1;
    }
    table
}

} // verus!
