//! The game-side data model: units, perks, equipment, move options, the
//! symbolic inventory address space, and the packets exchanged with the
//! server.
//!
//! All fractional quantities of the game (hit points, stats, money) are
//! carried as unsigned fixed-point integers in thousandths, so the logic
//! that compares and combines them is exact.

use vstd::prelude::*;

verus! {

/// Upper bound on any stat or money value, in thousandths.  Keeping every
/// such value under this bound keeps all derived products inside `i64`.
pub const STAT_BOUND: u64 = 0x1_0000_0000;

/// Upper bound on description and name lengths, so vertex counts derived
/// from them stay small.
pub const TEXT_BOUND: usize = 4096;

/// Upper bound on the length of any unit, equipment or option collection.
pub const LIST_BOUND: usize = 1024;

#[derive(Clone, Copy, Debug, PartialEq, Eq, Structural)]
pub enum Class {
    Melee,
    Ranged,
}

#[derive(Clone, Copy, Debug, PartialEq, Eq, Structural)]
pub enum Element {
    Red,
    Green,
    Blue,
}

/// A cosmetic and mechanical modifier carried by a unit.  Immutable once
/// received; replaced wholesale with each snapshot.
#[derive(Clone, Debug)]
pub struct Perk {
    /// Red, green, blue channels in thousandths.
    pub color: [u32; 3],
    /// Display text, word-wrapped before display.
    pub desc: String,
}

impl Perk {
    pub open spec fn wf(self) -> bool {
        self.desc@.len() <= TEXT_BOUND
    }
}

/// Which of a unit's four equipment slots an item sits in.
#[derive(Clone, Copy, Debug, PartialEq, Eq, Structural)]
pub enum EquipType {
    Weapon,
    Armor,
    Charm,
    Relic,
}

impl EquipType {
    /// The slot index this slot kind occupies, left to right.
    pub open spec fn spec_idx(self) -> int {
        match self {
            EquipType::Weapon => 0,
            EquipType::Armor => 1,
            EquipType::Charm => 2,
            EquipType::Relic => 3,
        }
    }

    pub fn idx(self) -> (r: usize)
        ensures
            r == self.spec_idx(),
    {
        match self {
            EquipType::Weapon => 0,
            EquipType::Armor => 1,
            EquipType::Charm => 2,
            EquipType::Relic => 3,
        }
    }

    /// The slot kind at index `i`, left to right.
    pub open spec fn spec_from_idx(i: int) -> EquipType {
        if i == 0 {
            EquipType::Weapon
        } else if i == 1 {
            EquipType::Armor
        } else if i == 2 {
            EquipType::Charm
        } else {
            EquipType::Relic
        }
    }

    pub fn from_idx(i: usize) -> (r: EquipType)
        requires
            i < 4,
        ensures
            r.spec_idx() == i,
            r == EquipType::spec_from_idx(i as int),
    {
        if i == 0 {
            EquipType::Weapon
        } else if i == 1 {
            EquipType::Armor
        } else if i == 2 {
            EquipType::Charm
        } else {
            EquipType::Relic
        }
    }
}

/// The stat a line of an equipment description speaks of.
#[derive(Clone, Copy, Debug, PartialEq, Eq, Structural)]
pub enum StatKind {
    Attack,
    Armor,
    Block,
    Regen,
}

impl StatKind {
    pub fn name(self) -> (r: &'static str)
        ensures
            r@ == self.spec_name(),
    {
        match self {
            StatKind::Attack => "attack",
            StatKind::Armor => "armor",
            StatKind::Block => "block",
            StatKind::Regen => "regen",
        }
    }

    pub open spec fn spec_name(self) -> Seq<char> {
        match self {
            StatKind::Attack => "attack"@,
            StatKind::Armor => "armor"@,
            StatKind::Block => "block"@,
            StatKind::Regen => "regen"@,
        }
    }
}

/// One stat slot of an equipment: a primary value and an optional
/// secondary value, each in thousandths.
#[derive(Clone, Copy, Debug)]
pub struct StatLine {
    pub kind: StatKind,
    pub value: u64,
    pub secondary: Option<(StatKind, u64)>,
}

impl StatLine {
    pub open spec fn wf(self) -> bool {
        &&& self.value <= STAT_BOUND
        &&& match self.secondary {
            Some((_, v)) => v <= STAT_BOUND,
            None => true,
        }
    }
}

/// An item.  It lives in exactly one of: a unit's equipment slot, the
/// carried storage list, or the safe-zone storage list.
#[derive(Clone, Debug)]
pub struct Equipment {
    pub color: [u32; 3],
    /// Cost to repair one point of durability, in thousandths.
    pub repair_cost: u64,
    /// Remaining durability, in thousandths.
    pub durability: u64,
    pub stat1: StatLine,
    pub stat2: StatLine,
    pub desc: String,
}

impl Equipment {
    pub open spec fn wf(self) -> bool {
        &&& self.repair_cost <= STAT_BOUND
        &&& self.durability <= STAT_BOUND
        &&& self.stat1.wf()
        &&& self.stat2.wf()
        &&& self.desc@.len() <= TEXT_BOUND
    }
}

/// A member of the player's team or of unit storage.
#[derive(Clone, Debug)]
pub struct Unit {
    /// Current hit points, in thousandths.
    pub hp: u64,
    /// Maximum hit points, in thousandths.
    pub max_hp: u64,
    /// Healing cap, in thousandths.
    pub hp_lim: u64,
    pub class: Class,
    pub element: Element,
    pub attack: u64,
    pub armor: u64,
    pub block: u64,
    pub regen: u64,
    pub perks: Vec<Perk>,
    /// Pending level-up choice; present only while the server offers one,
    /// and never empty when present.
    pub perk_choice: Option<Vec<Perk>>,
    /// Exactly four slots, each possibly empty.
    pub equipment: [Option<Equipment>; 4],
}

impl Unit {
    pub open spec fn wf(self) -> bool {
        &&& 0 < self.max_hp <= STAT_BOUND
        &&& self.hp <= self.max_hp
        &&& self.hp_lim <= self.max_hp
        &&& self.attack <= STAT_BOUND
        &&& self.armor <= STAT_BOUND
        &&& self.block <= STAT_BOUND
        &&& self.regen <= STAT_BOUND
        &&& self.perks@.len() <= LIST_BOUND
        &&& forall|i: int| 0 <= i < self.perks@.len() ==> (#[trigger] self.perks@[i]).wf()
        &&& match self.perk_choice {
            Some(ps) => 0 < ps@.len() <= LIST_BOUND && forall|i: int|
                0 <= i < ps@.len() ==> (#[trigger] ps@[i]).wf(),
            None => true,
        }
        &&& forall|i: int| 0 <= i < 4 ==> match #[trigger] self.equipment@[i] {
            Some(e) => e.wf(),
            None => true,
        }
    }
}

/// A redacted projection of an opponent's or partially scouted unit:
/// each revealable attribute carries a flag saying whether it may be
/// shown.
#[derive(Clone, Debug)]
pub struct UnitView {
    pub unit: Unit,
    pub class_revealed: bool,
    pub element_revealed: bool,
    pub frac_hp_revealed: bool,
}

impl UnitView {
    pub open spec fn wf(self) -> bool {
        self.unit.wf()
    }
}

/// A server-offered destination, echoed back by index in a move request.
#[derive(Clone, Debug)]
pub struct MoveOption {
    pub name: String,
    /// Largest team allowed to take this option, when constrained.
    pub max_group_size: Option<usize>,
}

impl MoveOption {
    pub open spec fn wf(self) -> bool {
        self.name@.len() <= TEXT_BOUND
    }
}

/// Symbolic address of where an item lives: the vocabulary shared by the
/// drag-and-drop resolver and the network protocol.
#[derive(Clone, Copy, Debug, PartialEq, Eq, Structural)]
pub enum InventoryType {
    /// A team member, by position.
    Team(usize),
    /// A stored unit in the safe zone, by position.
    UnitStorage(usize),
    /// A stored equipment; the flag says whether it lies in the safe-zone
    /// list rather than the carried list.
    EquipmentStorage(bool, usize),
    /// A specific equipment slot of a unit in the team or in storage.
    Unit { in_team: bool, uidx: usize, eidx: EquipType },
}

/// One recorded frame of a fight: the two sides at a point in simulated
/// combat time.
#[derive(Clone, Debug)]
pub struct Snapshot {
    pub team: Vec<Unit>,
    pub opponent: Vec<UnitView>,
}

impl Snapshot {
    pub open spec fn wf(self) -> bool {
        &&& self.team@.len() <= LIST_BOUND
        &&& forall|i: int| 0 <= i < self.team@.len() ==> (#[trigger] self.team@[i]).wf()
        &&& self.opponent@.len() <= LIST_BOUND
        &&& forall|i: int| 0 <= i < self.opponent@.len() ==> (#[trigger] self.opponent@[i]).wf()
    }
}

/// An ordered, indexable, replayable sequence of fight snapshots plus the
/// outcome.  Never empty.
#[derive(Clone, Debug)]
pub struct FightRecording {
    pub snapshots: Vec<Snapshot>,
    pub won: bool,
}

impl FightRecording {
    pub open spec fn wf(self) -> bool {
        &&& 0 < self.snapshots@.len() <= LIST_BOUND
        &&& forall|i: int| 0 <= i < self.snapshots@.len() ==> (#[trigger] self.snapshots@[i]).wf()
    }

    pub fn get(&self, i: usize) -> (r: &Snapshot)
        requires
            i < self.snapshots@.len(),
        ensures
            *r == self.snapshots@[i as int],
    {
        &self.snapshots[i]
    }
}

/// An intent sent to the server.
#[derive(Clone, Debug, PartialEq, Eq, Structural)]
pub enum ClientPacket {
    /// Index 0 buys a unit; index i+1 heals team member i.
    Purchase(usize),
    /// Choose perk `1` for team member `0` at a level-up.
    PerkChoice(usize, usize),
    /// Take move option `0`; while looting, 0/1/2 mean up/stay/down.
    Move(usize),
    Fight(bool),
    /// Repair the addressed item up to the target durability (thousandths).
    Repair(u64, InventoryType),
    /// Convert the addressed item to currency.
    Juice(InventoryType),
    /// Move an item between two resolved addresses.
    Transfer(InventoryType, InventoryType),
}

/// An authoritative event received from the server.
#[derive(Clone, Debug)]
pub enum ServerPacket {
    Message(String),
    /// Move options, stored units, stored equipment, currency.
    SafeZoneInfo(Vec<MoveOption>, Vec<Unit>, Vec<Equipment>, u64),
    /// Team, depth, gold, carried equipment.
    Team(Vec<Unit>, usize, u64, Vec<Equipment>),
    /// The revealed enemy team and its owner's name.
    Opponent(Vec<UnitView>, String),
    FightResult(FightRecording, String),
    Loot,
}

pub open spec fn units_wf(v: Seq<Unit>) -> bool {
    &&& v.len() <= LIST_BOUND
    &&& forall|i: int| 0 <= i < v.len() ==> (#[trigger] v[i]).wf()
}

pub open spec fn views_wf(v: Seq<UnitView>) -> bool {
    &&& v.len() <= LIST_BOUND
    &&& forall|i: int| 0 <= i < v.len() ==> (#[trigger] v[i]).wf()
}

pub open spec fn equips_wf(v: Seq<Equipment>) -> bool {
    &&& v.len() <= LIST_BOUND
    &&& forall|i: int| 0 <= i < v.len() ==> (#[trigger] v[i]).wf()
}

pub open spec fn options_wf(v: Seq<MoveOption>) -> bool {
    &&& v.len() <= LIST_BOUND
    &&& forall|i: int| 0 <= i < v.len() ==> (#[trigger] v[i]).wf()
}

impl ServerPacket {
    /// What a fully decoded inbound packet must satisfy before any
    /// mutation is applied; a packet that fails this is a protocol error
    /// fatal to that single message.
    pub open spec fn wf(self) -> bool {
        match self {
            ServerPacket::Message(m) => m@.len() <= TEXT_BOUND,
            ServerPacket::SafeZoneInfo(mo, us, es, j) => options_wf(mo@) && units_wf(us@)
                && equips_wf(es@) && j <= STAT_BOUND,
            ServerPacket::Team(t, d, g, e) => units_wf(t@) && d < usize::MAX && g <= STAT_BOUND
                && equips_wf(e@),
            ServerPacket::Opponent(o, n) => views_wf(o@) && n@.len() <= TEXT_BOUND,
            ServerPacket::FightResult(r, n) => r.wf() && n@.len() <= TEXT_BOUND,
            ServerPacket::Loot => true,
        }
    }
}

} // verus!
