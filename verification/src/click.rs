//! The click dispatcher: a released gesture classified as a click acts
//! on region ids — a widget body selects, affordance regions send
//! intents — and never performs a transfer.

use vstd::prelude::*;
use crate::geom::{rect, V2};
use crate::input::{storage_row_hit, team_slot_x};
use crate::layout::team_unit_pos;
use crate::model::{units_wf, views_wf, ClientPacket, InventoryType, MoveOption, Unit, UnitView, LIST_BOUND};
use crate::session::{State, World};
use crate::view::ViewCtx;
use crate::widget::{in_rect_i, unit_hit, Detail};

verus! {

/// First team member, at or after `i`, any of whose regions the point
/// hits, with the region id.
pub open spec fn team_click_hit(team: Seq<Unit>, m: V2, heal: bool, i: int) -> Option<(int, int)>
    decreases team.len() - i,
{
    if i >= team.len() {
        None
    } else {
        let pos = V2 { x: team_slot_x(team.len() as int, i) as i64, y: -12000i64 };
        match unit_hit(team[i], m, pos, (V2 { x: 1000, y: 1000 }), heal) {
            Some(x) => Some((i, x)),
            None => team_click_hit(team, m, heal, i + 1),
        }
    }
}

pub proof fn lemma_team_click_hit_range(team: Seq<Unit>, m: V2, heal: bool, i: int)
    requires
        units_wf(team),
        0 <= i,
    ensures
        match team_click_hit(team, m, heal, i) {
            Some((j, x)) => i <= j < team.len() && 0 <= x <= LIST_BOUND + 2,
            None => true,
        },
    decreases team.len() - i,
{
    if i < team.len() {
        let pos = V2 { x: team_slot_x(team.len() as int, i) as i64, y: -12000i64 };
        assert(team[i].wf());
        match unit_hit(team[i], m, pos, (V2 { x: 1000, y: 1000 }), heal) {
            Some(x) => {
                crate::widget::lemma_row_hit_props(
                    m,
                    pos.x as int,
                    pos.y - crate::widget::perk_size_s((V2 { x: 1000, y: 1000 })).1 * 11 / 10,
                    crate::widget::perk_size_s((V2 { x: 1000, y: 1000 })).0 * 11 / 10,
                    crate::widget::perk_size_s((V2 { x: 1000, y: 1000 })).0,
                    crate::widget::perk_size_s((V2 { x: 1000, y: 1000 })).1,
                    0,
                    match team[i].perk_choice {
                        Some(ps) => ps@.len() as int,
                        None => 0,
                    },
                );
            },
            None => {
                lemma_team_click_hit_range(team, m, heal, i + 1);
            },
        }
    }
}

/// First opponent unit, at or after `i`, any of whose regions the point
/// hits.
pub open spec fn opp_click_hit(o: Seq<UnitView>, m: V2, i: int) -> Option<int>
    decreases o.len() - i,
{
    if i >= o.len() {
        None
    } else {
        let pos = V2 { x: team_slot_x(o.len() as int, i) as i64, y: 4800i64 };
        if unit_hit(o[i].unit, m, pos, (V2 { x: 1000, y: 1000 }), false) is Some {
            Some(i)
        } else {
            opp_click_hit(o, m, i + 1)
        }
    }
}

pub proof fn lemma_opp_click_hit_range(o: Seq<UnitView>, m: V2, i: int)
    ensures
        match opp_click_hit(o, m, i) {
            Some(j) => i <= j < o.len(),
            None => true,
        },
    decreases o.len() - i,
{
    if i < o.len() {
        let pos = V2 { x: team_slot_x(o.len() as int, i) as i64, y: 4800i64 };
        if !(unit_hit(o[i].unit, m, pos, (V2 { x: 1000, y: 1000 }), false) is Some) {
            lemma_opp_click_hit_range(o, m, i + 1);
        }
    }
}

/// Where move option `i` of `n` sits: a grid wrapping after ten
/// columns, descending row by row from a start that rises with the row
/// count.
pub open spec fn option_slot(n: int, i: int) -> (int, int) {
    (-26160 + (i % 10) * 5280, (n / 10) * 880 + 800 - (i / 10) * 1760)
}

/// First move option the point hits whose constraint the team meets:
/// the team must be non-empty and no larger than the option's group
/// cap.
pub open spec fn option_click_hit(mo: Seq<MoveOption>, tlen: int, m: V2, i: int) -> Option<int>
    decreases mo.len() - i,
{
    if i >= mo.len() {
        None
    } else {
        let cap_ok = match mo[i].max_group_size {
            Some(c) => tlen <= c,
            None => true,
        };
        if in_rect_i(m, option_slot(mo.len() as int, i).0, option_slot(mo.len() as int, i).1, 4800, 1600)
            && cap_ok && tlen > 0 {
            Some(i)
        } else {
            option_click_hit(mo, tlen, m, i + 1)
        }
    }
}

pub proof fn lemma_option_click_hit_range(mo: Seq<MoveOption>, tlen: int, m: V2, i: int)
    ensures
        match option_click_hit(mo, tlen, m, i) {
            Some(j) => i <= j < mo.len(),
            None => true,
        },
    decreases mo.len() - i,
{
    if i < mo.len() && option_click_hit(mo, tlen, m, i) != Some(i) {
        lemma_option_click_hit_range(mo, tlen, m, i + 1);
    }
}

/// Probe a unit row's members in order, full region set.
fn team_click(team: &Vec<Unit>, m: V2, heal: bool) -> (r: Option<(usize, usize)>)
    requires
        units_wf(team@),
    ensures
        r == match team_click_hit(team@, m, heal, 0) {
            Some((i, x)) => Some((i as usize, x as usize)),
            None => None::<(usize, usize)>,
        },
{
    let n = team.len();
    let size = V2 { x: 4800, y: 7200 };
    let mut i: usize = 0;
    while i < n
        invariant
            units_wf(team@),
            n == team@.len(),
            i <= n,
            size == (V2 { x: 4800i64, y: 7200i64 }),
            team_click_hit(team@, m, heal, 0) == team_click_hit(team@, m, heal, i as int),
        decreases n - i,
    {
        let pos = team_unit_pos(n, i, size);
        proof {
            assert(pos.x == team_slot_x(n as int, i as int));
            lemma_team_click_hit_range(team@, m, heal, i as int);
        }
        if let Some(x) = team[i].collides(m, pos, V2 { x: 1000, y: 1000 }, heal) {
            return Some((i, x));
        }
        i += 1;
    }
    None
}

/// Probe an opponent row's members in order.
fn opp_click(o: &Vec<UnitView>, m: V2) -> (r: Option<usize>)
    requires
        views_wf(o@),
    ensures
        r == crate::widget::opt_usize(opp_click_hit(o@, m, 0)),
{
    let n = o.len();
    let size = V2 { x: 4800, y: 7200 };
    let mut i: usize = 0;
    while i < n
        invariant
            views_wf(o@),
            n == o@.len(),
            i <= n,
            size == (V2 { x: 4800i64, y: 7200i64 }),
            opp_click_hit(o@, m, 0) == opp_click_hit(o@, m, i as int),
        decreases n - i,
    {
        let pos = crate::layout::opponent_unit_pos(n, i, size);
        proof {
            assert(pos.x == team_slot_x(n as int, i as int));
        }
        if o[i].collides(m, pos, V2 { x: 1000, y: 1000 }, false).is_some() {
            return Some(i);
        }
        i += 1;
    }
    None
}

/// Probe the move-option grid in order, honoring each option's group
/// cap.
fn option_click(mo: &Vec<MoveOption>, tlen: usize, m: V2) -> (r: Option<usize>)
    requires
        mo@.len() <= LIST_BOUND,
        tlen <= LIST_BOUND,
    ensures
        r == crate::widget::opt_usize(option_click_hit(mo@, tlen as int, m, 0)),
{
    let n = mo.len();
    let mut i: usize = 0;
    while i < n
        invariant
            n == mo@.len() <= LIST_BOUND,
            tlen <= LIST_BOUND,
            i <= n,
            option_click_hit(mo@, tlen as int, m, 0) == option_click_hit(
                mo@,
                tlen as int,
                m,
                i as int,
            ),
        decreases n - i,
    {
        let col = (i as i64) % 10;
        let row = (i as i64) / 10;
        let pos = V2 {
            x: -26160 + col * 5280,
            y: ((n as i64) / 10) * 880 + 800 - row * 1760,
        };
        proof {
            assert(pos.x == option_slot(n as int, i as int).0);
            assert(pos.y == option_slot(n as int, i as int).1);
        }
        if rect(m, pos, V2 { x: 4800, y: 1600 }) {
            let cap_ok = match mo[i].max_group_size {
                Some(c) => tlen <= c,
                None => true,
            };
            if cap_ok && tlen > 0 {
                return Some(i);
            }
        }
        i += 1;
    }
    None
}

/// The detail panel holds unit `u`'s perks and slots, addressed by
/// `addr`.
pub open spec fn sel_detail(
    sel: Option<(Detail, Option<InventoryType>)>,
    u: Unit,
    addr: Option<InventoryType>,
) -> bool {
    match sel {
        Some((d, a)) => a == addr && d.perks@ == u.perks@ && d.equipment@ == u.equipment@,
        None => false,
    }
}

/// The intents a heal-all click sends: one heal per team member, in
/// order.
pub open spec fn heal_all_packets(n: int) -> Seq<ClientPacket>
    decreases n,
{
    if n <= 0 {
        Seq::empty()
    } else {
        heal_all_packets(n - 1).push(ClientPacket::Purchase(n as usize))
    }
}

/// The intents a hit on a team member's regions sends: its heal
/// affordance (id 1) heals it, a pending perk region (2 and up) picks
/// that perk, its body (0) only selects.
pub open spec fn team_part_packets(th: Option<(int, int)>) -> Seq<ClientPacket> {
    match th {
        Some((i, x)) => if x == 1 {
            seq![ClientPacket::Purchase((i + 1) as usize)]
        } else if x >= 2 {
            seq![ClientPacket::PerkChoice(i as usize, (x - 2) as usize)]
        } else {
            Seq::empty()
        },
        None => Seq::empty(),
    }
}

/// A click on a team member's body selects that member and sends no
/// intent for the hit itself: in every replay-free state, when the
/// point lies on member `i`'s body region and no opponent stands under
/// it, the dispatch leaves member `i`'s perks-and-equipment composite
/// selected under its team address, and the team row contributes no
/// packet.
pub proof fn lemma_body_click_selects(w0: World, w1: World, m: V2, ctx: ViewCtx, r: Seq<ClientPacket>, i: int)
    requires
        w0.recording is None,
        live_click_ok(w0, w1, m, ctx, r),
        team_click_hit(
            w0.team@,
            m,
            w0.state is SafeZone && option_click_hit(
                w0.move_options@,
                w0.team@.len() as int,
                m,
                0,
            ) is None,
            0,
        ) == Some((i, 0int)),
        opp_click_hit(w0.opponent@, m, 0) is None,
    ensures
        0 <= i < w0.team@.len(),
        sel_detail(w1.selected, w0.team@[i], Some(InventoryType::Team(i as usize))),
        team_part_packets(Some((i, 0int))) == Seq::<ClientPacket>::empty(),
{
    let heal = w0.state is SafeZone && option_click_hit(
        w0.move_options@,
        w0.team@.len() as int,
        m,
        0,
    ) is None;
    lemma_team_click_hit_range_weak(w0.team@, m, heal, 0);
}

/// The index of a team hit is in range, without assuming the team well
/// formed.
proof fn lemma_team_click_hit_range_weak(team: Seq<Unit>, m: V2, heal: bool, i: int)
    requires
        0 <= i,
    ensures
        match team_click_hit(team, m, heal, i) {
            Some((j, x)) => i <= j < team.len(),
            None => true,
        },
    decreases team.len() - i,
{
    if i < team.len() {
        let pos = V2 { x: team_slot_x(team.len() as int, i) as i64, y: -12000i64 };
        if unit_hit(team[i], m, pos, (V2 { x: 1000, y: 1000 }), heal) is None {
            lemma_team_click_hit_range_weak(team, m, heal, i + 1);
        }
    }
}

pub open spec fn skip_rect(m: V2) -> bool {
    in_rect_i(m, 960, -800, 1600, 1600)
}

pub open spec fn pause_rect(m: V2) -> bool {
    in_rect_i(m, -800, -800, 1600, 1600)
}

pub open spec fn rewind_rect(m: V2) -> bool {
    in_rect_i(m, -2560, -800, 1600, 1600)
}

pub open spec fn fight_rect(m: V2) -> bool {
    in_rect_i(m, -14000, -1200, 12000, 2400)
}

pub open spec fn do_not_rect(m: V2) -> bool {
    in_rect_i(m, 2000, -1200, 12000, 2400)
}

pub open spec fn up_rect(m: V2) -> bool {
    in_rect_i(m, -6000, 1600, 12000, 2400)
}

pub open spec fn stay_rect(m: V2) -> bool {
    in_rect_i(m, -6000, -1200, 12000, 2400)
}

pub open spec fn down_rect(m: V2) -> bool {
    in_rect_i(m, -6000, -4000, 12000, 2400)
}

pub open spec fn purchase_rect(m: V2) -> bool {
    in_rect_i(m, -6000, -15680, 12000, 1600)
}

pub open spec fn heal_all_rect(m: V2) -> bool {
    in_rect_i(m, -3600, -1520, 7200, 2400)
}

/// What clicking at `m` leaves selected and sends, while a replay is
/// shown and the skip button was not hit.
pub open spec fn replay_click_ok(w0: World, w1: World, m: V2, r: Seq<ClientPacket>) -> bool {
    match w0.recording {
        Some(rp) => {
            let pause = pause_rect(m);
            let rew = !pause && rewind_rect(m);
            let idx2: int = if rew {
                0
            } else {
                rp.idx as int
            };
            let snap = rp.rec.snapshots@[idx2];
            let th = team_click_hit(snap.team@, m, w0.state is SafeZone, 0);
            let oh = opp_click_hit(snap.opponent@, m, 0);
            &&& match w1.recording {
                Some(rp2) => rp2.rec == rp.rec && rp2.idx == idx2 && rp2.paused == (if pause {
                    !rp.paused
                } else {
                    rp.paused
                }),
                None => false,
            }
            &&& r == team_part_packets(th)
            &&& if oh is Some {
                sel_detail(w1.selected, snap.opponent@[oh->0].unit, None)
            } else {
                match th {
                    Some((i, x)) => if x == 0 {
                        sel_detail(w1.selected, snap.team@[i], Some(InventoryType::Team(i as usize)))
                    } else {
                        w1.selected == w0.selected
                    },
                    None => if pause || rew {
                        w1.selected == w0.selected
                    } else {
                        w1.selected is None
                    },
                }
            }
            &&& w1.state == w0.state
            &&& w1.move_options == w0.move_options
            &&& w1.gold == w0.gold
            &&& w1.depth == w0.depth
        },
        None => false,
    }
}

/// What clicking at `m` does with no replay shown: the state-gated
/// affordances act first, then the team row and the opponent row.
pub open spec fn live_click_ok(w0: World, w1: World, m: V2, ctx: ViewCtx, r: Seq<ClientPacket>) -> bool {
    match w0.state {
        State::SafeZone(us, es) => {
            let arm = crate::input::repair_hit(m, ctx);
            let sh = storage_row_hit(us@.len() as int, m, ctx.aspect as int, 0);
            let oh = option_click_hit(w0.move_options@, w0.team@.len() as int, m, 0);
            let pur = purchase_rect(m);
            let ha = heal_all_rect(m);
            let th = team_click_hit(w0.team@, m, oh is None, 0);
            let oph = opp_click_hit(w0.opponent@, m, 0);
            &&& w1.repair_selected == arm
            &&& w1.repair_text@ == (if arm {
                Seq::<char>::empty()
            } else {
                crate::fmt::fixed3(w0.repair_target as int)
            })
            &&& r == (match oh {
                Some(i) => seq![ClientPacket::Move(i as usize)],
                None => Seq::empty(),
            }) + (if pur {
                seq![ClientPacket::Purchase(0usize)]
            } else {
                Seq::empty()
            }) + (if ha {
                heal_all_packets(w0.team@.len() as int)
            } else {
                Seq::empty()
            }) + team_part_packets(th)
            &&& if oh is Some {
                w1.state is InQueue && w1.move_options@.len() == 0 && w1.gold == 0 && w1.depth == 1
            } else {
                w1.state == w0.state && w1.move_options == w0.move_options && w1.gold == w0.gold
                    && w1.depth == w0.depth
            }
            &&& if oph is Some {
                sel_detail(w1.selected, w0.opponent@[oph->0].unit, None)
            } else {
                match th {
                    Some((i, x)) => if x == 0 {
                        sel_detail(w1.selected, w0.team@[i], Some(InventoryType::Team(i as usize)))
                    } else {
                        match sh {
                            Some(k) => sel_detail(
                                w1.selected,
                                us@[k],
                                Some(InventoryType::UnitStorage(k as usize)),
                            ),
                            None => w1.selected == w0.selected,
                        }
                    },
                    None => match sh {
                        Some(k) => sel_detail(
                            w1.selected,
                            us@[k],
                            Some(InventoryType::UnitStorage(k as usize)),
                        ),
                        None => if oh is Some || pur || ha {
                            w1.selected == w0.selected
                        } else {
                            w1.selected is None
                        },
                    },
                }
            }
            &&& w1.recording is None
        },
        State::Looting => {
            let u = up_rect(m);
            let st = !u && stay_rect(m);
            let dn = !u && !st && down_rect(m);
            let th = team_click_hit(w0.team@, m, false, 0);
            let oph = opp_click_hit(w0.opponent@, m, 0);
            &&& !w1.repair_selected
            &&& w1.repair_text@ == crate::fmt::fixed3(w0.repair_target as int)
            &&& r == (if u {
                seq![ClientPacket::Move(0usize)]
            } else if st {
                seq![ClientPacket::Move(1usize)]
            } else if dn {
                seq![ClientPacket::Move(2usize)]
            } else {
                Seq::empty()
            }) + team_part_packets(th)
            &&& w1.depth == (if u {
                if w0.depth > 0 {
                    (w0.depth - 1) as usize
                } else {
                    0usize
                }
            } else if dn {
                if w0.depth < usize::MAX {
                    (w0.depth + 1) as usize
                } else {
                    w0.depth
                }
            } else {
                w0.depth
            })
            &&& w1.state == (if u || st || dn {
                State::InQueue
            } else {
                w0.state
            })
            &&& if oph is Some {
                sel_detail(w1.selected, w0.opponent@[oph->0].unit, None)
            } else {
                match th {
                    Some((i, x)) => if x == 0 {
                        sel_detail(w1.selected, w0.team@[i], Some(InventoryType::Team(i as usize)))
                    } else {
                        w1.selected == w0.selected
                    },
                    None => if u || st || dn {
                        w1.selected == w0.selected
                    } else {
                        w1.selected is None
                    },
                }
            }
            &&& w1.move_options == w0.move_options
            &&& w1.gold == w0.gold
            &&& w1.recording is None
        },
        State::InQueue => {
            let th = team_click_hit(w0.team@, m, false, 0);
            let oph = opp_click_hit(w0.opponent@, m, 0);
            &&& !w1.repair_selected
            &&& w1.repair_text@ == crate::fmt::fixed3(w0.repair_target as int)
            &&& r == team_part_packets(th)
            &&& w1.state == w0.state
            &&& if oph is Some {
                sel_detail(w1.selected, w0.opponent@[oph->0].unit, None)
            } else {
                match th {
                    Some((i, x)) => if x == 0 {
                        sel_detail(w1.selected, w0.team@[i], Some(InventoryType::Team(i as usize)))
                    } else {
                        w1.selected == w0.selected
                    },
                    None => w1.selected is None,
                }
            }
            &&& w1.move_options == w0.move_options
            &&& w1.gold == w0.gold
            &&& w1.depth == w0.depth
            &&& w1.recording is None
        },
        State::InFight(chosen) => {
            let f = !chosen && fight_rect(m);
            let dnf = !chosen && !fight_rect(m) && do_not_rect(m);
            let th = team_click_hit(w0.team@, m, false, 0);
            let oph = opp_click_hit(w0.opponent@, m, 0);
            &&& !w1.repair_selected
            &&& w1.repair_text@ == crate::fmt::fixed3(w0.repair_target as int)
            &&& r == (if f {
                seq![ClientPacket::Fight(true)]
            } else if dnf {
                seq![ClientPacket::Fight(false)]
            } else {
                Seq::empty()
            }) + team_part_packets(th)
            &&& w1.state == (if dnf {
                State::InFight(true)
            } else {
                w0.state
            })
            &&& if oph is Some {
                sel_detail(w1.selected, w0.opponent@[oph->0].unit, None)
            } else {
                match th {
                    Some((i, x)) => if x == 0 {
                        sel_detail(w1.selected, w0.team@[i], Some(InventoryType::Team(i as usize)))
                    } else {
                        w1.selected == w0.selected
                    },
                    None => if f || dnf {
                        w1.selected == w0.selected
                    } else {
                        w1.selected is None
                    },
                }
            }
            &&& w1.move_options == w0.move_options
            &&& w1.gold == w0.gold
            &&& w1.depth == w0.depth
            &&& w1.recording is None
        },
    }
}

/// Dispatch a click: only region ids act — widget bodies select,
/// affordances send intents — and no click ever performs a transfer.
/// The returned packets are what the host must send, in order.
#[verifier::rlimit(100)]
#[verifier::spinoff_prover]
pub fn handle_click(w: &mut World, m: V2, ctx: ViewCtx) -> (r: Vec<ClientPacket>)
    requires
        old(w).wf(),
        ctx.wf(),
    ensures
        final(w).wf(),
        final(w).next_click,
        *old(w) == (World {
            next_click: old(w).next_click,
            repair_selected: old(w).repair_selected,
            repair_text: old(w).repair_text,
            recording: old(w).recording,
            selected: old(w).selected,
            move_options: old(w).move_options,
            gold: old(w).gold,
            depth: old(w).depth,
            state: old(w).state,
            ..*final(w)
        }),
        !old(w).next_click ==> {
            &&& r@.len() == 0
            &&& !final(w).repair_selected
            &&& final(w).repair_text@ == crate::fmt::fixed3(old(w).repair_target as int)
            &&& final(w).recording == old(w).recording
            &&& final(w).selected == old(w).selected
            &&& final(w).move_options == old(w).move_options
            &&& final(w).gold == old(w).gold
            &&& final(w).depth == old(w).depth
            &&& final(w).state == old(w).state
        },
        old(w).next_click ==> match old(w).recording {
            Some(rp) => if skip_rect(m) {
                &&& r@.len() == 0
                &&& !final(w).repair_selected
                &&& final(w).repair_text@ == crate::fmt::fixed3(old(w).repair_target as int)
                &&& final(w).recording is None
                &&& final(w).selected == old(w).selected
                &&& final(w).move_options == old(w).move_options
                &&& final(w).gold == old(w).gold
                &&& final(w).depth == old(w).depth
                &&& final(w).state == old(w).state
            } else {
                &&& !final(w).repair_selected
                &&& final(w).repair_text@ == crate::fmt::fixed3(old(w).repair_target as int)
                &&& replay_click_ok(*old(w), *final(w), m, r@)
            },
            None => live_click_ok(*old(w), *final(w), m, ctx, r@),
        },
{
    proof {
        crate::fmt::lemma_fixed3_len(old(w).repair_target as int);
    }
    w.repair_selected = false;
    w.repair_text = crate::fmt::milli_3(w.repair_target);
    let was = w.next_click;
    w.next_click = true;
    let mut r: Vec<ClientPacket> = Vec::new();
    if !was {
        return r;
    }
    if w.recording.is_some() {
        let skip = crate::buttons::skip_button();
        if skip.collides(m, ctx).is_some() {
            w.recording = None;
            return r;
        }
        let pause_b = crate::buttons::pause_button(false);
        let pause = pause_b.collides(m, ctx).is_some();
        let rewind_b = crate::buttons::rewind_button();
        let rew = !pause && rewind_b.collides(m, ctx).is_some();
        if let Some(rp) = &mut w.recording {
            if pause {
                rp.paused = !rp.paused;
            } else if rew {
                rp.idx = 0;
            }
        }
        proof {
            let rp0 = old(w).recording->0;
            assert(match w.recording {
                Some(rp1) => rp1.rec == rp0.rec && rp1.idx == (if rew {
                    0int
                } else {
                    rp0.idx as int
                }) && rp1.paused == (if pause {
                    !rp0.paused
                } else {
                    rp0.paused
                }),
                None => false,
            });
        }
        let heal = w.state.is_safe_zone();
        let (th, oh) = match &w.recording {
            Some(rp) => {
                let snap = rp.rec.get(rp.idx);
                proof {
                    lemma_team_click_hit_range(
                        rp.rec.snapshots@[rp.idx as int].team@,
                        m,
                        heal,
                        0,
                    );
                    lemma_opp_click_hit_range(rp.rec.snapshots@[rp.idx as int].opponent@, m, 0);
                }
                (team_click(&snap.team, m, heal), opp_click(&snap.opponent, m))
            },
            None => (None, None),
        };
        match th {
            Some((i, x)) => {
                if x == 0 {
                    let sel = match &w.recording {
                        Some(rp) => {
                            proof {
                                lemma_team_click_hit_range(
                                    rp.rec.snapshots@[rp.idx as int].team@,
                                    m,
                                    heal,
                                    0,
                                );
                            }
                            rp.rec.get(rp.idx).team[i].select(false)
                        },
                        None => None,
                    };
                    if let Some(d) = sel {
                        w.selected = Some((d, Some(InventoryType::Team(i))));
                    }
                } else if x == 1 {
                    r.push(ClientPacket::Purchase(i + 1));
                } else {
                    r.push(ClientPacket::PerkChoice(i, x - 2));
                }
            },
            None => {},
        }
        match oh {
            Some(j) => {
                let sel = match &w.recording {
                    Some(rp) => {
                        proof {
                            lemma_opp_click_hit_range(
                                rp.rec.snapshots@[rp.idx as int].opponent@,
                                m,
                                0,
                            );
                        }
                        rp.rec.get(rp.idx).opponent[j].select(false)
                    },
                    None => None,
                };
                if let Some(d) = sel {
                    w.selected = Some((d, None));
                }
            },
            None => {},
        }
        if !(pause || rew || th.is_some() || oh.is_some()) {
            w.selected = None;
        }
        proof {
            let rp0 = old(w).recording->0;
            let idx2: int = if rew {
                0
            } else {
                rp0.idx as int
            };
            let snap = rp0.rec.snapshots@[idx2];
            let th_g = team_click_hit(snap.team@, m, old(w).state is SafeZone, 0);
            assert(th == (match th_g {
                Some((i2, x2)) => Some((i2 as usize, x2 as usize)),
                None => None::<(usize, usize)>,
            }));
            match th_g {
                Some((i2, x2)) => {
                    if x2 == 0 {
                        assert(r@ =~= Seq::<ClientPacket>::empty());
                    } else if x2 == 1 {
                        assert(r@ =~= seq![ClientPacket::Purchase((i2 + 1) as usize)]);
                    } else {
                        assert(r@ =~= seq![
                            ClientPacket::PerkChoice(i2 as usize, (x2 - 2) as usize),
                        ]);
                    }
                },
                None => {
                    assert(r@ =~= Seq::<ClientPacket>::empty());
                },
            }
            assert(r@ =~= team_part_packets(th_g));
        }
        return r;
    }
    let mut clicked = false;
    let mut arm = false;
    let mut st_found: Option<(Detail, usize)> = None;
    if let State::SafeZone(us, _) = &w.state {
        let repair_b = crate::buttons::repair_button(w.repair_target, false);
        arm = repair_b.collides(m, ctx).is_some();
        if let Some(i) = crate::input::hit_storage_row(us.len(), m, ctx) {
            proof {
                crate::input::lemma_storage_row_hit_range(
                    us@.len() as int,
                    m,
                    ctx.aspect as int,
                    0,
                );
            }
            if let Some(d) = us[i].select(false) {
                st_found = Some((d, i));
            }
        }
    }
    if arm {
        w.repair_selected = true;
        w.repair_text = String::new();
    }
    if let Some((d, i)) = st_found {
        clicked = true;
        w.selected = Some((d, Some(InventoryType::UnitStorage(i))));
    }
    if let State::SafeZone(_, _) = &w.state {
        let oh = option_click(&w.move_options, w.team.len(), m);
        if let Some(i) = oh {
            clicked = true;
            r.push(ClientPacket::Move(i));
            w.gold = 0;
            w.depth = 1;
            w.move_options = Vec::new();
            w.state = State::InQueue;
        }
        let pur = crate::buttons::purchase_unit_button();
        if pur.collides(m, ctx).is_some() {
            clicked = true;
            r.push(ClientPacket::Purchase(0));
        }
        let ha = crate::buttons::heal_all_button();
        if ha.collides(m, ctx).is_some() {
            clicked = true;
            let ghost r_pre = r@;
            let n = w.team.len();
            let mut k: usize = 0;
            proof {
                assert(r@ =~= r_pre + heal_all_packets(0));
            }
            while k < n
                invariant
                    k <= n <= LIST_BOUND,
                    n == old(w).team@.len(),
                    r@ == r_pre + heal_all_packets(k as int),
                decreases n - k,
            {
                r.push(ClientPacket::Purchase(k + 1));
                proof {
                    assert(r@ =~= r_pre + heal_all_packets(k + 1));
                }
                k += 1;
            }
        }
    } else if let State::Looting = &w.state {
        let up = crate::buttons::up_button();
        let stay = crate::buttons::stay_button();
        let down = crate::buttons::down_button();
        if up.collides(m, ctx).is_some() {
            clicked = true;
            r.push(ClientPacket::Move(0));
            w.depth = if w.depth > 0 {
                w.depth - 1
            } else {
                0
            };
            w.state = State::InQueue;
        } else if stay.collides(m, ctx).is_some() {
            clicked = true;
            r.push(ClientPacket::Move(1));
            w.state = State::InQueue;
        } else if down.collides(m, ctx).is_some() {
            clicked = true;
            r.push(ClientPacket::Move(2));
            w.depth = if w.depth < usize::MAX {
                w.depth + 1
            } else {
                w.depth
            };
            w.state = State::InQueue;
        }
    } else {
        let fight_open = match &w.state {
            State::InFight(c) => !*c,
            _ => false,
        };
        if fight_open {
            let fight = crate::buttons::fight_button();
            let do_not = crate::buttons::do_not_button();
            if fight.collides(m, ctx).is_some() {
                clicked = true;
                r.push(ClientPacket::Fight(true));
            } else if do_not.collides(m, ctx).is_some() {
                clicked = true;
                r.push(ClientPacket::Fight(false));
                w.state = State::InFight(true);
            }
        }
    }
    let heal2 = w.state.is_safe_zone();
    let th = team_click(&w.team, m, heal2);
    match th {
        Some((i, x)) => {
            clicked = true;
            proof {
                lemma_team_click_hit_range(w.team@, m, heal2, 0);
            }
            if x == 0 {
                let sel = w.team[i].select(false);
                if let Some(d) = sel {
                    w.selected = Some((d, Some(InventoryType::Team(i))));
                }
            } else if x == 1 {
                r.push(ClientPacket::Purchase(i + 1));
            } else {
                r.push(ClientPacket::PerkChoice(i, x - 2));
            }
        },
        None => {},
    }
    let oph = opp_click(&w.opponent, m);
    match oph {
        Some(j) => {
            clicked = true;
            proof {
                lemma_opp_click_hit_range(w.opponent@, m, 0);
            }
            let sel = w.opponent[j].select(false);
            if let Some(d) = sel {
                w.selected = Some((d, None));
            }
        },
        None => {},
    }
    if !clicked {
        w.selected = None;
    }
    proof {
        match old(w).state {
            State::SafeZone(us, es) => {
                let oh_g = option_click_hit(
                    old(w).move_options@,
                    old(w).team@.len() as int,
                    m,
                    0,
                );
                let p1 = match oh_g {
                    Some(i) => seq![ClientPacket::Move(i as usize)],
                    None => Seq::<ClientPacket>::empty(),
                };
                let p2 = if purchase_rect(m) {
                    seq![ClientPacket::Purchase(0usize)]
                } else {
                    Seq::<ClientPacket>::empty()
                };
                let p3 = if heal_all_rect(m) {
                    heal_all_packets(old(w).team@.len() as int)
                } else {
                    Seq::<ClientPacket>::empty()
                };
                let th_g = team_click_hit(old(w).team@, m, oh_g is None, 0);
                assert(r@ =~= p1 + p2 + p3 + team_part_packets(th_g));
            },
            State::Looting => {
                let u = up_rect(m);
                let st = !u && stay_rect(m);
                let dn = !u && !st && down_rect(m);
                let p1 = if u {
                    seq![ClientPacket::Move(0usize)]
                } else if st {
                    seq![ClientPacket::Move(1usize)]
                } else if dn {
                    seq![ClientPacket::Move(2usize)]
                } else {
                    Seq::<ClientPacket>::empty()
                };
                let th_g = team_click_hit(old(w).team@, m, false, 0);
                assert(r@ =~= p1 + team_part_packets(th_g));
            },
            State::InQueue => {
                let th_g = team_click_hit(old(w).team@, m, false, 0);
                assert(r@ =~= team_part_packets(th_g));
            },
            State::InFight(chosen) => {
                let f = !chosen && fight_rect(m);
                let dnf = !chosen && !fight_rect(m) && do_not_rect(m);
                let p1 = if f {
                    seq![ClientPacket::Fight(true)]
                } else if dnf {
                    seq![ClientPacket::Fight(false)]
                } else {
                    Seq::<ClientPacket>::empty()
                };
                let th_g = team_click_hit(old(w).team@, m, false, 0);
                assert(r@ =~= p1 + team_part_packets(th_g));
            },
        }
    }
    r
}

} // verus!
