//! The client session: the state machine gating which widgets exist,
//! the shared state every handler works on, and the application of
//! inbound server packets.  State transitions are driven exclusively by
//! packets; local input only sends intents and makes optimistic
//! adjustments that the next authoritative update corrects.

use vstd::prelude::*;
use crate::geom::{bounded, V2, MOUSE_BOUND};
use crate::message::{messages_wf, tick_spec, Message, MESSAGE_DURATION};
use crate::model::{
    equips_wf, options_wf, units_wf, views_wf, Equipment, FightRecording, InventoryType,
    MoveOption, ServerPacket, Unit, UnitView, STAT_BOUND, TEXT_BOUND,
};
use crate::widget::Detail;
use crate::wrap::{
    equips_wrapped, units_wrapped, views_wrapped, wrap_equips, wrap_units, wrap_views,
};
use crate::fmt::fixed3;

verus! {

/// The single tagged client state.  Only the safe zone carries nested
/// collections; the other states are views layered on the always
/// present team.
#[derive(Debug)]
pub enum State {
    /// Stored units and stored equipment, available only here.
    SafeZone(Vec<Unit>, Vec<Equipment>),
    Looting,
    InQueue,
    InFight(bool),
}

impl State {
    pub open spec fn wf(self) -> bool {
        match self {
            State::SafeZone(us, es) => units_wf(us@) && equips_wf(es@),
            _ => true,
        }
    }

    pub fn is_safe_zone(&self) -> (r: bool)
        ensures
            r == (self is SafeZone),
    {
        if let State::SafeZone(_, _) = self {
            true
        } else {
            false
        }
    }

    pub fn is_looting(&self) -> (r: bool)
        ensures
            r == (self is Looting),
    {
        if let State::Looting = self {
            true
        } else {
            false
        }
    }

    pub fn is_in_queue(&self) -> (r: bool)
        ensures
            r == (self is InQueue),
    {
        if let State::InQueue = self {
            true
        } else {
            false
        }
    }

    pub fn is_in_fight(&self) -> (r: bool)
        ensures
            r == (self is InFight),
    {
        if let State::InFight(_) = self {
            true
        } else {
            false
        }
    }

    /// The safe zone's storages, when open.
    pub fn storage(&self) -> (r: Option<(&Vec<Unit>, &Vec<Equipment>)>)
        ensures
            match r {
                Some(p) => *self matches State::SafeZone(us, es) && *p.0 == us && *p.1 == es,
                None => !(*self is SafeZone),
            },
    {
        if let State::SafeZone(u, e) = self {
            Some((u, e))
        } else {
            None
        }
    }
}

/// An active fight replay: the recording, the snapshot being shown, and
/// whether playback is paused.
#[derive(Debug)]
pub struct Replay {
    pub rec: FightRecording,
    pub idx: usize,
    pub paused: bool,
}

impl Replay {
    pub open spec fn wf(self) -> bool {
        &&& self.rec.wf()
        &&& self.idx < self.rec.snapshots@.len()
    }
}

/// Everything the event handlers and the renderer share: the session's
/// whole mutable state, held by the host and passed by exclusive
/// borrow into one handler at a time.
#[derive(Debug)]
pub struct World {
    pub state: State,
    pub team: Vec<Unit>,
    /// Carried equipment.
    pub equipment: Vec<Equipment>,
    pub opponent: Vec<UnitView>,
    pub opponent_name: String,
    pub move_options: Vec<MoveOption>,
    pub depth: usize,
    /// Money, in thousandths.
    pub gold: u64,
    /// Distillable currency, in thousandths.
    pub juice: u64,
    pub messages: Vec<Message>,
    pub recording: Option<Replay>,
    /// The floating detail panel, with the address it inspects when it
    /// shows one of the player's own units.
    pub selected: Option<(Detail, Option<InventoryType>)>,
    /// Target durability for repair requests, in thousandths.
    pub repair_target: u64,
    /// Whether the repair button is armed for keyboard input.
    pub repair_selected: bool,
    /// The text typed into the repair button so far.
    pub repair_text: String,
    /// Whether the gesture that just ended was a click rather than a
    /// drag.
    pub next_click: bool,
    /// The screen coordinate recorded at pointer-down, if a button is
    /// held.
    pub drag: Option<V2>,
    pub frame_num: u64,
}

/// Addresses the detail panel can inspect: only the player's own units
/// are ever selected by address.
pub open spec fn sel_addr_wf(a: Option<InventoryType>) -> bool {
    match a {
        Some(InventoryType::Team(_)) => true,
        Some(InventoryType::UnitStorage(_)) => true,
        Some(_) => false,
        None => true,
    }
}

impl World {
    pub open spec fn wf(self) -> bool {
        &&& self.state.wf()
        &&& units_wf(self.team@)
        &&& equips_wf(self.equipment@)
        &&& views_wf(self.opponent@)
        &&& self.opponent_name@.len() <= TEXT_BOUND
        &&& options_wf(self.move_options@)
        &&& self.gold <= STAT_BOUND
        &&& self.juice <= STAT_BOUND
        &&& messages_wf(self.messages@)
        &&& match self.recording {
            Some(rp) => rp.wf(),
            None => true,
        }
        &&& match self.selected {
            Some((d, a)) => d.wf() && sel_addr_wf(a),
            None => true,
        }
        &&& self.repair_target <= STAT_BOUND
        &&& self.repair_text@.len() <= TEXT_BOUND
        &&& match self.drag {
            Some(d) => bounded(d, MOUSE_BOUND as int),
            None => true,
        }
    }

    /// A fresh session: queued, with nothing yet received from the
    /// server and the repair target at its default.
    pub fn new() -> (r: World)
        ensures
            r.state is InQueue,
            r.team@.len() == 0,
            r.equipment@.len() == 0,
            r.opponent@.len() == 0,
            r.opponent_name@.len() == 0,
            r.move_options@.len() == 0,
            r.depth == 0,
            r.gold == 0,
            r.juice == 0,
            r.messages@.len() == 0,
            r.recording is None,
            r.selected is None,
            r.repair_target == 5000,
            !r.repair_selected,
            r.repair_text@ == fixed3(5000),
            !r.next_click,
            r.drag is None,
            r.frame_num == 0,
            r.wf(),
    {
        proof {
            crate::fmt::lemma_fixed3_len(5000);
        }
        World {
            state: State::InQueue,
            team: Vec::new(),
            equipment: Vec::new(),
            opponent: Vec::new(),
            opponent_name: String::new(),
            move_options: Vec::new(),
            depth: 0,
            gold: 0,
            juice: 0,
            messages: Vec::new(),
            recording: None,
            selected: None,
            repair_target: 5000,
            repair_selected: false,
            repair_text: crate::fmt::milli_3(5000),
            next_click: false,
            drag: None,
            frame_num: 0,
        }
    }
}

/// The detail panel refreshed against the state `w` now holds: a panel
/// addressing one of the player's units is rebuilt from that unit's new
/// snapshot; anything else is left as it stood (`pre`).
pub open spec fn selection_refreshed(
    pre: Option<(Detail, Option<InventoryType>)>,
    w: World,
) -> bool {
    match pre {
        None => w.selected is None,
        Some((d0, a0)) => match a0 {
            Some(InventoryType::Team(i)) => if i < w.team@.len() {
                match w.selected {
                    Some((d, a)) => a == Some(InventoryType::Team(i)) && d.perks@
                        == w.team@[i as int].perks@ && d.equipment@ == w.team@[i as int].equipment@,
                    None => false,
                }
            } else {
                w.selected == pre
            },
            Some(InventoryType::UnitStorage(i)) => match w.state {
                State::SafeZone(us, _) => if i < us@.len() {
                    match w.selected {
                        Some((d, a)) => a == Some(InventoryType::UnitStorage(i)) && d.perks@
                            == us@[i as int].perks@ && d.equipment@ == us@[i as int].equipment@,
                        None => false,
                    }
                } else {
                    w.selected == pre
                },
                _ => w.selected == pre,
            },
            _ => w.selected == pre,
        },
    }
}

/// Rebuild the detail panel from the unit it addresses, if that unit
/// still exists in the freshly replaced state.
fn refresh_selection(w: &mut World)
    requires
        old(w).wf(),
    ensures
        *old(w) == (World { selected: old(w).selected, ..*final(w) }),
        selection_refreshed(old(w).selected, *final(w)),
        final(w).wf(),
{
    let addr: Option<InventoryType> = match &w.selected {
        Some((_, Some(a))) => Some(*a),
        _ => None,
    };
    match addr {
        Some(InventoryType::Team(i)) => {
            if i < w.team.len() {
                let d = w.team[i].select(false);
                if let Some(d) = d {
                    w.selected = Some((d, Some(InventoryType::Team(i))));
                }
            }
        },
        Some(InventoryType::UnitStorage(i)) => {
            let d = match &w.state {
                State::SafeZone(us, _) => if i < us.len() {
                    us[i].select(false)
                } else {
                    None
                },
                _ => None,
            };
            if let Some(d) = d {
                w.selected = Some((d, Some(InventoryType::UnitStorage(i))));
            }
        },
        _ => {},
    }
}

/// Apply one fully decoded inbound packet: replace the affected state
/// wholesale, never patch it in place, then refresh the detail panel
/// against what now exists.  Descriptions are word-wrapped for display
/// as they arrive.
pub fn apply_packet(w: &mut World, p: ServerPacket)
    requires
        old(w).wf(),
        p.wf(),
    ensures
        final(w).wf(),
        selection_refreshed(old(w).selected, *final(w)),
        match p {
            ServerPacket::Message(m) => {
                &&& *old(w) == (World {
                    messages: old(w).messages,
                    selected: old(w).selected,
                    ..*final(w)
                })
                &&& final(w).messages@.len() == old(w).messages@.len() + 1
                &&& final(w).messages@.take(old(w).messages@.len() as int) == old(w).messages@
                &&& final(w).messages@.last().text == m
                &&& final(w).messages@.last().life == MESSAGE_DURATION
            },
            ServerPacket::SafeZoneInfo(mo, us, es, j) => {
                &&& *old(w) == (World {
                    move_options: old(w).move_options,
                    juice: old(w).juice,
                    state: old(w).state,
                    selected: old(w).selected,
                    ..*final(w)
                })
                &&& final(w).move_options == mo
                &&& final(w).juice == j
                &&& match final(w).state {
                    State::SafeZone(us2, es2) => units_wrapped(us@, us2@) && equips_wrapped(
                        es@,
                        es2@,
                    ),
                    _ => false,
                }
            },
            ServerPacket::Team(t, d, g, e) => {
                &&& *old(w) == (World {
                    team: old(w).team,
                    depth: old(w).depth,
                    gold: old(w).gold,
                    equipment: old(w).equipment,
                    selected: old(w).selected,
                    ..*final(w)
                })
                &&& units_wrapped(t@, final(w).team@)
                &&& final(w).depth == d + 1
                &&& final(w).gold == g
                &&& equips_wrapped(e@, final(w).equipment@)
            },
            ServerPacket::Opponent(o, n) => {
                &&& *old(w) == (World {
                    opponent: old(w).opponent,
                    opponent_name: old(w).opponent_name,
                    state: old(w).state,
                    selected: old(w).selected,
                    ..*final(w)
                })
                &&& views_wrapped(o@, final(w).opponent@)
                &&& final(w).opponent_name == n
                &&& final(w).state == State::InFight(false)
            },
            ServerPacket::FightResult(rec, n) => {
                &&& *old(w) == (World {
                    opponent_name: old(w).opponent_name,
                    messages: old(w).messages,
                    state: old(w).state,
                    recording: old(w).recording,
                    selected: old(w).selected,
                    ..*final(w)
                })
                &&& final(w).opponent_name == n
                &&& final(w).state is Looting
                &&& match final(w).recording {
                    Some(rp) => rp.rec == rec && rp.idx == 0 && !rp.paused,
                    None => false,
                }
                &&& final(w).messages@.len() == old(w).messages@.len() + 1
                &&& final(w).messages@.take(old(w).messages@.len() as int) == old(w).messages@
                &&& final(w).messages@.last().text@ == (if rec.won {
                    "won fight"@
                } else {
                    "lost fight"@
                })
                &&& final(w).messages@.last().life == MESSAGE_DURATION
            },
            ServerPacket::Loot => {
                &&& *old(w) == (World {
                    state: old(w).state,
                    selected: old(w).selected,
                    ..*final(w)
                })
                &&& final(w).state is Looting
            },
        },
{
    match p {
        ServerPacket::Message(m) => {
            w.messages.push(Message { text: m, life: MESSAGE_DURATION });
        },
        ServerPacket::SafeZoneInfo(mo, us, es, j) => {
            let us2 = wrap_units(&us);
            let es2 = wrap_equips(&es);
            w.move_options = mo;
            w.juice = j;
            w.state = State::SafeZone(us2, es2);
        },
        ServerPacket::Team(t, d, g, e) => {
            w.team = wrap_units(&t);
            w.depth = d + 1;
            w.gold = g;
            w.equipment = wrap_equips(&e);
        },
        ServerPacket::Opponent(o, n) => {
            w.opponent = wrap_views(&o);
            w.opponent_name = n;
            w.state = State::InFight(false);
        },
        ServerPacket::FightResult(rec, n) => {
            proof {
                reveal_strlit("won fight");
                reveal_strlit("lost fight");
            }
            w.opponent_name = n;
            let text = if rec.won {
                String::from_str("won fight")
            } else {
                String::from_str("lost fight")
            };
            w.messages.push(Message { text, life: MESSAGE_DURATION });
            w.state = State::Looting;
            w.recording = Some(Replay { rec, idx: 0, paused: false });
        },
        ServerPacket::Loot => {
            w.state = State::Looting;
        },
    }
    refresh_selection(w);
}

/// One animation tick's worth of state progression: age and cull the
/// transient messages, and, while a replay is active, advance it one
/// snapshot unless paused, dropping it when it runs off the end.
pub fn tick(w: &mut World)
    requires
        old(w).wf(),
    ensures
        final(w).wf(),
        *old(w) == (World {
            messages: old(w).messages,
            recording: old(w).recording,
            frame_num: old(w).frame_num,
            ..*final(w)
        }),
        final(w).messages@ == tick_spec(old(w).messages@),
        match old(w).recording {
            None => final(w).recording == old(w).recording && final(w).frame_num == old(
                w,
            ).frame_num,
            Some(rp) => {
                &&& final(w).frame_num == vstd::wrapping::u64_specs::wrapping_add(
                    old(w).frame_num,
                    1,
                )
                &&& if rp.paused {
                    final(w).recording == old(w).recording
                } else {
                    if rp.idx + 1 < rp.rec.snapshots@.len() {
                        match final(w).recording {
                            Some(rp2) => rp2.rec == rp.rec && rp2.idx == rp.idx + 1 && rp2.paused
                                == rp.paused,
                            None => false,
                        }
                    } else {
                        final(w).recording is None
                    }
                }
            },
        },
{
    crate::message::tick_messages(&mut w.messages);
    let advance = match &w.recording {
        Some(rp) => {
            w.frame_num = w.frame_num.wrapping_add(1);
            !rp.paused
        },
        None => false,
    };
    if advance {
        let done = match &mut w.recording {
            Some(rp) => {
                rp.idx = rp.idx + 1;
                rp.idx >= rp.rec.snapshots.len()
            },
            None => false,
        };
        if done {
            w.recording = None;
        }
    }
}

} // verus!
