use looter_client::auth::{hash, login_request, AuthError};
use looter_client::click::handle_click;
use looter_client::fmt::{milli_2, milli_3, u64_string};
use looter_client::geom::V2;
use looter_client::input::{handle_mouse_down, handle_mouse_up, resolve_addr};
use looter_client::keyboard::{handle_key, parse_milli};
use looter_client::message::{tick_messages, Message, MESSAGE_DURATION};
use looter_client::model::{
    Class, ClientPacket, Element, Equipment, FightRecording, InventoryType, MoveOption, Perk,
    ServerPacket, Snapshot, StatKind, StatLine, Unit, UnitView,
};
use looter_client::scene::{build_frame, concat_passes};
use looter_client::session::{apply_packet, tick, State, World};
use looter_client::vertex::{glyph_index_exec, make_quad, Rgba, Tex};
use looter_client::view::ViewCtx;
use looter_client::widget::{heal_cost, Detail};
use looter_client::wrap::{splittify, wrap_text};

fn ctx() -> ViewCtx {
    ViewCtx { aspect: 24000 }
}

fn unit() -> Unit {
    Unit {
        hp: 3000,
        max_hp: 4000,
        hp_lim: 3500,
        class: Class::Melee,
        element: Element::Red,
        attack: 1200,
        armor: 800,
        block: 500,
        regen: 250,
        perks: Vec::new(),
        perk_choice: None,
        equipment: [None, None, None, None],
    }
}

fn equipment() -> Equipment {
    Equipment {
        color: [500, 500, 500],
        repair_cost: 1500,
        durability: 2500,
        stat1: StatLine { kind: StatKind::Attack, value: 700, secondary: None },
        stat2: StatLine { kind: StatKind::Armor, value: 300, secondary: None },
        desc: String::from("sharp"),
    }
}

fn world() -> World {
    World::new()
}

// Hit-testing: the body region answers exactly the measured rectangle,
// lower edges inclusive, upper exclusive.
#[test]
fn unit_body_hit_matches_measure() {
    let u = unit();
    let s = V2 { x: 1000, y: 1000 };
    let origin = V2 { x: 0, y: 0 };
    assert_eq!(u.collides(V2 { x: 0, y: 0 }, origin, s, false), Some(0));
    assert_eq!(u.collides(V2 { x: 4799, y: 7199 }, origin, s, false), Some(0));
    assert_eq!(u.collides(V2 { x: 4800, y: 0 }, origin, s, false), None);
    assert_eq!(u.collides(V2 { x: 0, y: 7200 }, origin, s, false), None);
    assert_eq!(u.collides(V2 { x: -1, y: 0 }, origin, s, false), None);
}

// A composite's non-zero region ids come from real children: a pending
// perk region reports the perk whose square the point lies in.
#[test]
fn unit_perk_choice_regions() {
    let mut u = unit();
    let p = Perk { color: [900, 100, 100], desc: String::from("bold") };
    u.perk_choice = Some(vec![p.clone(), p.clone()]);
    let s = V2 { x: 1000, y: 1000 };
    let origin = V2 { x: 0, y: 0 };
    // perk row sits above the body: perk i occupies [i*1650, i*1650+1500).
    assert_eq!(u.collides(V2 { x: 100, y: -1000 }, origin, s, false), Some(2));
    assert_eq!(u.collides(V2 { x: 2000, y: -1000 }, origin, s, false), Some(3));
    // between the squares nothing answers.
    assert_eq!(u.collides(V2 { x: 1600, y: -1000 }, origin, s, false), None);
}

#[test]
fn unit_heal_region_only_when_active() {
    let u = unit();
    let s = V2 { x: 1000, y: 1000 };
    let origin = V2 { x: 0, y: 0 };
    let in_heal = V2 { x: 100, y: 7200 + 1600 + 100 };
    assert_eq!(u.collides(in_heal, origin, s, true), Some(1));
    assert_eq!(u.collides(in_heal, origin, s, false), None);
}

#[test]
fn detail_slot_regions() {
    let mut slots = [None, None, None, None];
    slots[1] = Some(equipment());
    let d = Detail { perks: Vec::new(), equipment: slots };
    let s = V2 { x: 1000, y: 1000 };
    let origin = V2 { x: 0, y: 0 };
    // slot 1's item rectangle: x in [160+3520, 160+3520+2880).
    assert_eq!(d.collides(V2 { x: 4000, y: 2000 }, origin, s, false), Some(1));
    // an empty slot only counts when empty slots are probed.
    assert_eq!(d.collides(V2 { x: 400, y: 2000 }, origin, s, false), None);
    assert_eq!(d.collides(V2 { x: 400, y: 2000 }, origin, s, true), Some(0));
}

// Drag resolution idempotence: a release within epsilon of the press is
// a click and sends nothing, whatever lies under the point.
#[test]
fn click_within_epsilon_never_transfers() {
    let mut w = world();
    w.team = vec![unit()];
    w.state = State::SafeZone(vec![unit()], Vec::new());
    let press = V2 { x: 0, y: -10000 };
    handle_mouse_down(&mut w, press);
    let release = V2 { x: 100, y: -10000 };
    let sent = handle_mouse_up(&mut w, release, ctx());
    assert_eq!(sent, None);
    assert!(w.next_click);
    assert_eq!(w.drag, None);
}

// Transfer symmetry: a recognized source dropped on a recognized
// destination yields exactly one transfer of the two addresses.
#[test]
fn drag_team_unit_into_storage() {
    let mut w = world();
    w.team = vec![unit()];
    w.state = State::SafeZone(vec![unit()], Vec::new());
    // press inside team member 0, release inside storage slot 0.
    handle_mouse_down(&mut w, V2 { x: 0, y: -10000 });
    let sent = handle_mouse_up(&mut w, V2 { x: -22500, y: 13600 }, ctx());
    assert_eq!(
        sent,
        Some(ClientPacket::Transfer(InventoryType::Team(0), InventoryType::UnitStorage(0)))
    );
    assert!(!w.next_click);
}

// Dropping a stored unit between team members computes the insertion
// index from the release x-coordinate.
#[test]
fn drag_storage_unit_between_team_members() {
    let mut w = world();
    w.team = vec![unit(), unit(), unit(), unit()];
    w.state = State::SafeZone(vec![unit(), unit(), unit()], Vec::new());
    // press inside unit-storage slot 2.
    handle_mouse_down(&mut w, V2 { x: -20850, y: 13600 });
    // release in the gap between team members 1 and 2: insertion index 2.
    let sent = handle_mouse_up(&mut w, V2 { x: 240, y: -10000 }, ctx());
    assert_eq!(
        sent,
        Some(ClientPacket::Transfer(InventoryType::UnitStorage(2), InventoryType::Team(2)))
    );
}

// A release on the repair button with no resolvable target sends
// nothing.
#[test]
fn repair_without_target_sends_nothing() {
    let mut w = world();
    w.state = State::SafeZone(Vec::new(), Vec::new());
    handle_mouse_down(&mut w, V2 { x: 18000, y: -1000 });
    let sent = handle_mouse_up(&mut w, V2 { x: 18200, y: 500 }, ctx());
    assert_eq!(sent, None);
}

// The selected detail panel's slots override plain resolution.
#[test]
fn detail_panel_overrides_resolution() {
    let mut w = world();
    w.team = vec![unit()];
    let mut slots = [None, None, None, None];
    slots[0] = Some(equipment());
    w.selected = Some((
        Detail { perks: Vec::new(), equipment: slots },
        Some(InventoryType::Team(0)),
    ));
    // the panel sits at the lower-left corner; slot 0's item rectangle
    // is [-24000+160, +2880) x [-16000+1810, +2880).
    let p = V2 { x: -23000, y: -13500 };
    let got = resolve_addr(&w, p, ctx(), false);
    match got {
        Some(InventoryType::Unit { in_team, uidx, .. }) => {
            assert!(in_team);
            assert_eq!(uidx, 0);
        }
        other => panic!("resolved {:?}", other),
    }
}

// Message lifetime: every survivor is one frame older, spent messages
// leave, and the rest keep their order.
#[test]
fn message_tick_ages_and_culls() {
    let mut q = vec![
        Message { text: String::from("a"), life: 3 },
        Message { text: String::from("b"), life: 0 },
        Message { text: String::from("c"), life: 1 },
    ];
    tick_messages(&mut q);
    assert_eq!(q.len(), 2);
    assert_eq!(q[0].text, "a");
    assert_eq!(q[0].life, 2);
    assert_eq!(q[1].text, "c");
    assert_eq!(q[1].life, 0);
    tick_messages(&mut q);
    assert_eq!(q.len(), 1);
    assert_eq!(q[0].text, "a");
    assert_eq!(q[0].life, 1);
}

// Concrete scenario: a click inside a team member's body selects its
// perks-and-equipment composite under its team address.
#[test]
fn click_selects_team_member() {
    let mut w = world();
    w.team = vec![unit(), unit(), unit()];
    w.next_click = true;
    let sent = handle_click(&mut w, V2 { x: 0, y: -10000 }, ctx());
    assert!(sent.is_empty());
    match &w.selected {
        Some((_, Some(InventoryType::Team(1)))) => {}
        other => panic!("selected {:?}", other.as_ref().map(|(_, a)| *a)),
    }
}

#[test]
fn click_on_empty_space_clears_selection() {
    let mut w = world();
    w.team = vec![unit()];
    w.selected = Some((
        Detail { perks: Vec::new(), equipment: [None, None, None, None] },
        Some(InventoryType::Team(0)),
    ));
    w.next_click = true;
    let sent = handle_click(&mut w, V2 { x: 20000, y: 15000 }, ctx());
    assert!(sent.is_empty());
    assert!(w.selected.is_none());
}

#[test]
fn first_click_after_drag_is_swallowed() {
    let mut w = world();
    w.team = vec![unit()];
    w.next_click = false;
    let sent = handle_click(&mut w, V2 { x: 0, y: -10000 }, ctx());
    assert!(sent.is_empty());
    assert!(w.selected.is_none());
    assert!(w.next_click);
}

// State machine: loot choices adjust the depth optimistically and move
// the client back into the queue.
#[test]
fn loot_buttons_transition_to_queue() {
    let mut w = world();
    w.state = State::Looting;
    w.depth = 5;
    w.next_click = true;
    // the up button spans [-6000, 6000) x [1600, 4000).
    let sent = handle_click(&mut w, V2 { x: 0, y: 2000 }, ctx());
    assert_eq!(sent, vec![ClientPacket::Move(0)]);
    assert_eq!(w.depth, 4);
    assert!(matches!(w.state, State::InQueue));
}

#[test]
fn declining_a_fight_is_remembered() {
    let mut w = world();
    w.state = State::InFight(false);
    w.next_click = true;
    // the decline button spans [2000, 14000) x [-1200, 1200).
    let sent = handle_click(&mut w, V2 { x: 3000, y: 0 }, ctx());
    assert_eq!(sent, vec![ClientPacket::Fight(false)]);
    assert!(matches!(w.state, State::InFight(true)));
}

// Concrete scenario: a fight result while in a fight attaches a replay
// at its first snapshot, unpaused, and the client goes looting.
#[test]
fn fight_result_attaches_recording() {
    let mut w = world();
    w.state = State::InFight(false);
    let rec = FightRecording {
        snapshots: vec![Snapshot { team: vec![unit()], opponent: Vec::new() }],
        won: true,
    };
    apply_packet(&mut w, ServerPacket::FightResult(rec, String::from("foe")));
    assert!(matches!(w.state, State::Looting));
    let rp = w.recording.as_ref().expect("recording attached");
    assert_eq!(rp.idx, 0);
    assert!(!rp.paused);
    assert_eq!(w.opponent_name, "foe");
    assert_eq!(w.messages.len(), 1);
    assert_eq!(w.messages[0].text, "won fight");
    assert_eq!(w.messages[0].life, MESSAGE_DURATION);
}

#[test]
fn team_update_wraps_descriptions_and_bumps_depth() {
    let mut w = world();
    let mut u = unit();
    u.perks = vec![Perk {
        color: [100, 100, 100],
        desc: String::from("a very long perk description here"),
    }];
    apply_packet(&mut w, ServerPacket::Team(vec![u], 3, 2500, Vec::new()));
    assert_eq!(w.depth, 4);
    assert_eq!(w.gold, 2500);
    assert_eq!(w.team[0].perks[0].desc, "a very long perk\ndescription here");
    assert!(matches!(w.state, State::InQueue));
}

#[test]
fn safe_zone_info_replaces_state() {
    let mut w = world();
    apply_packet(
        &mut w,
        ServerPacket::SafeZoneInfo(
            vec![MoveOption { name: String::from("mine"), max_group_size: Some(3) }],
            vec![unit()],
            Vec::new(),
            700,
        ),
    );
    assert_eq!(w.juice, 700);
    assert_eq!(w.move_options.len(), 1);
    match &w.state {
        State::SafeZone(us, es) => {
            assert_eq!(us.len(), 1);
            assert!(es.is_empty());
        }
        other => panic!("state {:?}", other),
    }
}

#[test]
fn selection_refreshes_with_team_update() {
    let mut w = world();
    w.team = vec![unit()];
    w.selected = Some((
        Detail { perks: Vec::new(), equipment: [None, None, None, None] },
        Some(InventoryType::Team(0)),
    ));
    let mut u = unit();
    u.perks = vec![Perk { color: [1, 2, 3], desc: String::from("new") }];
    apply_packet(&mut w, ServerPacket::Team(vec![u], 0, 0, Vec::new()));
    let (d, a) = w.selected.as_ref().expect("still selected");
    assert_eq!(*a, Some(InventoryType::Team(0)));
    assert_eq!(d.perks.len(), 1);
    assert_eq!(d.perks[0].desc, "new");
}

// Replay playback advances one snapshot per tick and drops off the end.
#[test]
fn replay_advances_and_ends() {
    let mut w = world();
    w.state = State::Looting;
    let rec = FightRecording {
        snapshots: vec![
            Snapshot { team: Vec::new(), opponent: Vec::new() },
            Snapshot { team: Vec::new(), opponent: Vec::new() },
        ],
        won: false,
    };
    apply_packet(&mut w, ServerPacket::FightResult(rec, String::new()));
    tick(&mut w);
    assert_eq!(w.recording.as_ref().unwrap().idx, 1);
    tick(&mut w);
    assert!(w.recording.is_none());
}

#[test]
fn skip_click_abandons_replay() {
    let mut w = world();
    let rec = FightRecording {
        snapshots: vec![Snapshot { team: Vec::new(), opponent: Vec::new() }],
        won: false,
    };
    apply_packet(&mut w, ServerPacket::FightResult(rec, String::new()));
    w.next_click = true;
    // the skip button spans [960, 2560) x [-800, 800).
    let sent = handle_click(&mut w, V2 { x: 1000, y: 0 }, ctx());
    assert!(sent.is_empty());
    assert!(w.recording.is_none());
}

// Formatting: exact decimal renderings of fixed-point values.
#[test]
fn decimal_renderings() {
    assert_eq!(u64_string(0), "0");
    assert_eq!(u64_string(10750), "10750");
    assert_eq!(milli_3(5000), "5.000");
    assert_eq!(milli_3(12), "0.012");
    assert_eq!(milli_2(12345), "12.35");
    assert_eq!(milli_2(12344), "12.34");
    assert_eq!(milli_2(0), "0.00");
}

#[test]
fn word_wrap_breaks_at_spaces() {
    let mut cs: Vec<char> = "aaa bbb ccc".chars().collect();
    splittify(&mut cs, 4);
    let s: String = cs.iter().collect();
    assert_eq!(s, "aaa\nbbb\nccc");
    assert_eq!(
        wrap_text(&String::from("a very long perk description here")),
        "a very long perk\ndescription here"
    );
}

// A line with no usable space breaks mid-word: no newline-free run
// ever exceeds the column width, even when the only space lies before
// the latest break.
#[test]
fn word_wrap_breaks_mid_word() {
    let mut cs: Vec<char> = "a bcdefg".chars().collect();
    splittify(&mut cs, 3);
    let s: String = cs.iter().collect();
    assert_eq!(s, "a\nbc\nef\n");
    for run in s.split('\n') {
        assert!(run.chars().count() <= 3);
    }
    let mut long: Vec<char> = "abcdefgh".chars().collect();
    splittify(&mut long, 3);
    let t: String = long.iter().collect();
    for run in t.split('\n') {
        assert!(run.chars().count() <= 3);
    }
}

#[test]
fn word_wrap_leaves_short_text() {
    let mut cs: Vec<char> = "short".chars().collect();
    splittify(&mut cs, 20);
    let s: String = cs.iter().collect();
    assert_eq!(s, "short");
}

// Parsing a typed repair target.
#[test]
fn repair_target_parsing() {
    assert_eq!(parse_milli("5"), Some(5000));
    assert_eq!(parse_milli("5.25"), Some(5250));
    assert_eq!(parse_milli("5."), Some(5000));
    assert_eq!(parse_milli("0.125"), Some(125));
    assert_eq!(parse_milli(".5"), None);
    assert_eq!(parse_milli(""), None);
    assert_eq!(parse_milli("12a"), None);
    assert_eq!(parse_milli("1.2.3"), None);
    assert_eq!(parse_milli("4294967"), Some(4294967000));
    assert_eq!(parse_milli("4294968"), None);
}

#[test]
fn typing_updates_repair_target() {
    let mut w = world();
    w.repair_selected = true;
    w.repair_text = String::new();
    handle_key(&mut w, "7");
    assert_eq!(w.repair_target, 7000);
    handle_key(&mut w, ".");
    handle_key(&mut w, "5");
    assert_eq!(w.repair_target, 7500);
    handle_key(&mut w, "x");
    assert_eq!(w.repair_target, 7500);
}

#[test]
fn typing_without_armed_button_does_nothing() {
    let mut w = world();
    let before = w.repair_target;
    handle_key(&mut w, "9");
    assert_eq!(w.repair_target, before);
}

// The healing price follows the missing-health formula exactly.
#[test]
fn heal_cost_formula() {
    let mut u = unit();
    // (4000 - 3000) * 1000 * (0 + 5 + 0) / (5 * 4000) = 250.
    assert_eq!(heal_cost(&u), 250);
    u.hp = u.max_hp;
    assert_eq!(heal_cost(&u), 0);
}

// The digest wrapper really hashes: a known SHA3-256 vector.
#[test]
fn sha3_known_vector() {
    let digest = hash(b"abc");
    let expected: [u8; 32] = [
        0x3a, 0x98, 0x5d, 0xa7, 0x4f, 0xe2, 0x25, 0xb2, 0x04, 0x5c, 0x17, 0x2d, 0x6b, 0xd3, 0x90,
        0xbd, 0x85, 0x5f, 0x08, 0x6e, 0x3e, 0x9d, 0x52, 0x5b, 0x46, 0xbf, 0xe2, 0x45, 0x11, 0x43,
        0x15, 0x32,
    ];
    assert_eq!(digest.as_slice(), &expected);
}

#[test]
fn login_rejects_bad_names() {
    assert_eq!(login_request("", "pw", false).unwrap_err(), AuthError::EmptyField);
    assert_eq!(login_request("al", "", false).unwrap_err(), AuthError::EmptyField);
    let long = "abcdefghijklmnopqrstuvwxyz0123456"; // 33 characters
    assert_eq!(login_request(long, "pw", false).unwrap_err(), AuthError::NameTooLong);
    let q = login_request("al", "pw", true).unwrap();
    assert!(q.create_new);
    assert_eq!(q.name, "al");
    assert_eq!(q.pass_hash.len(), 32);
    // the digest is of the framed password, never the cleartext.
    assert_ne!(q.pass_hash.as_slice(), b"pw");
}

#[test]
fn login_accepts_any_utf8_password_and_caps_name_bytes() {
    // a password outside ASCII still hashes.
    let q = login_request("al", "pä¥", false).unwrap();
    assert_eq!(q.pass_hash.len(), 32);
    // the name cap counts encoded bytes: seventeen two-byte characters
    // are 34 bytes, over the cap of 32, though only 17 characters.
    let wide: String = std::iter::repeat('ä').take(17).collect();
    assert_eq!(
        login_request(&wide, "pw", false).unwrap_err(),
        AuthError::NameTooLong
    );
    // sixteen of them are 32 bytes: accepted.
    let ok: String = std::iter::repeat('ä').take(16).collect();
    assert_eq!(login_request(&ok, "pw", false).unwrap().name, ok);
}

// The vertex batcher: one quad is six vertices, negative extents flip
// around the origin, and unmapped characters fall back to the space
// glyph.
#[test]
fn quad_flips_negative_extent() {
    let q = make_quad(
        looter_client::geom::V3 { x: 100, y: 200, z: 1 },
        V2 { x: -50, y: 30 },
        Tex::Color(Rgba { r: 1000, g: 0, b: 0, a: 1000 }),
    );
    assert_eq!(q.len(), 6);
    assert_eq!(q[0].pos.x, 50);
    assert_eq!(q[0].pos.y, 200);
    assert_eq!(q[2].pos.x, 100);
    assert_eq!(q[2].pos.y, 230);
}

#[test]
fn glyph_table_maps_and_falls_back() {
    assert_eq!(glyph_index_exec(' '), 0);
    assert_eq!(glyph_index_exec('0'), 1);
    assert_eq!(glyph_index_exec('9'), 10);
    assert_eq!(glyph_index_exec('a'), 11);
    assert_eq!(glyph_index_exec('z'), 36);
    assert_eq!(glyph_index_exec(','), 42);
    assert_eq!(glyph_index_exec('*'), 0);
    assert_eq!(glyph_index_exec('A'), 0);
}

// The frame builder emits both passes and the flush order puts the
// overlay strictly after the opaque pass.
#[test]
fn frame_overlay_paints_after_opaque() {
    let mut w = world();
    w.team = vec![unit()];
    w.state = State::InQueue;
    w.depth = 2;
    let (v, v2) = build_frame(&w, V2 { x: 0, y: 0 }, ctx());
    let opaque = v.len();
    let overlay = v2.len();
    assert!(opaque > 0);
    assert!(overlay > 0);
    let all = concat_passes(v, v2);
    assert_eq!(all.len(), opaque + overlay);
}

// A redacted attribute renders grey and exposes no health bar.
#[test]
fn redacted_view_shows_grey() {
    let uv = UnitView {
        unit: unit(),
        class_revealed: false,
        element_revealed: true,
        frac_hp_revealed: false,
    };
    let mut v = Vec::new();
    let mut v2 = Vec::new();
    uv.draw(
        &mut v,
        &mut v2,
        V2 { x: 0, y: 0 },
        V2 { x: 1000, y: 1000 },
        V2 { x: 30000, y: 30000 },
        None,
        false,
        ctx(),
    );
    // three bands, no bars: exactly 18 opaque vertices.
    assert_eq!(v.len(), 18);
    assert_eq!(v[0].col, Rgba { r: 500, g: 500, b: 500, a: 1000 });
    // the element is revealed: pure red.
    assert_eq!(v[6].col, Rgba { r: 1000, g: 0, b: 0, a: 1000 });
}

#[test]
fn revealed_view_shows_bars() {
    let uv = UnitView {
        unit: unit(),
        class_revealed: true,
        element_revealed: true,
        frac_hp_revealed: true,
    };
    let mut v = Vec::new();
    let mut v2 = Vec::new();
    uv.draw(
        &mut v,
        &mut v2,
        V2 { x: 0, y: 0 },
        V2 { x: 1000, y: 1000 },
        V2 { x: 30000, y: 30000 },
        None,
        false,
        ctx(),
    );
    // three bands plus the healing-cap and health bars.
    assert_eq!(v.len(), 30);
    // the health bar is three quarters of the body width: 3600 of 4800.
    assert_eq!(v[25].pos.x - v[24].pos.x, 3600);
}

#[test]
fn move_option_caps_gate_moves() {
    let mut w = world();
    w.team = vec![unit(), unit()];
    w.state = State::SafeZone(Vec::new(), Vec::new());
    w.move_options = vec![MoveOption { name: String::from("gate"), max_group_size: Some(1) }];
    w.next_click = true;
    // option 0 sits at [-26160, -21360) x [800, 2400).
    let sent = handle_click(&mut w, V2 { x: -25000, y: 1000 }, ctx());
    // the team exceeds the cap: no move is sent.
    assert!(sent.is_empty());
    assert!(matches!(w.state, State::SafeZone(_, _)));

    w.move_options = vec![MoveOption { name: String::from("gate"), max_group_size: Some(2) }];
    w.next_click = true;
    let sent = handle_click(&mut w, V2 { x: -25000, y: 1000 }, ctx());
    assert_eq!(sent, vec![ClientPacket::Move(0)]);
    assert!(matches!(w.state, State::InQueue));
    assert_eq!(w.gold, 0);
    assert_eq!(w.depth, 1);
    assert!(w.move_options.is_empty());
}

// A release in a panel's open space appends to that panel; the source
// itself leaving the panel is accounted for.  An equal source and
// destination are still sent: the server does no-op detection.
#[test]
fn drop_in_carried_panel_open_space_appends() {
    let mut w = world();
    w.equipment = vec![equipment()];
    // press on the carried item (top-left cell of the panel).
    handle_mouse_down(&mut w, V2 { x: 10200, y: -3400 });
    // release in the panel's open space below it.
    let sent = handle_mouse_up(&mut w, V2 { x: 20000, y: -10000 }, ctx());
    assert_eq!(
        sent,
        Some(ClientPacket::Transfer(
            InventoryType::EquipmentStorage(false, 0),
            InventoryType::EquipmentStorage(false, 0)
        ))
    );
}

// The juice button intercepts the release point and converts the
// resolved source instead of transferring it.
#[test]
fn juice_button_intercepts_release() {
    let mut w = world();
    w.state = State::SafeZone(Vec::new(), Vec::new());
    w.equipment = vec![equipment()];
    handle_mouse_down(&mut w, V2 { x: 10200, y: -3400 });
    let sent = handle_mouse_up(&mut w, V2 { x: 21000, y: 0 }, ctx());
    assert_eq!(
        sent,
        Some(ClientPacket::Juice(InventoryType::EquipmentStorage(false, 0)))
    );
}

#[test]
fn release_without_press_does_nothing() {
    let mut w = world();
    w.team = vec![unit()];
    let sent = handle_mouse_up(&mut w, V2 { x: 0, y: -10000 }, ctx());
    assert_eq!(sent, None);
    assert!(!w.next_click);
}

// An opponent reveal replaces the enemy view and opens the fight
// decision.
#[test]
fn opponent_reveal_enters_fight() {
    let mut w = world();
    w.state = State::Looting;
    let view = UnitView {
        unit: unit(),
        class_revealed: true,
        element_revealed: false,
        frac_hp_revealed: false,
    };
    apply_packet(&mut w, ServerPacket::Opponent(vec![view], String::from("rival")));
    assert!(matches!(w.state, State::InFight(false)));
    assert_eq!(w.opponent.len(), 1);
    assert_eq!(w.opponent_name, "rival");
}

#[test]
fn loot_packet_opens_looting() {
    let mut w = world();
    apply_packet(&mut w, ServerPacket::Loot);
    assert!(matches!(w.state, State::Looting));
}

#[test]
fn heal_all_heals_each_member() {
    let mut w = world();
    let mut hurt = unit();
    hurt.hp = 1000;
    w.team = vec![hurt.clone(), hurt];
    w.state = State::SafeZone(Vec::new(), Vec::new());
    w.next_click = true;
    // the heal-all button spans [-3600, 3600) x [-1520, 880); pick a
    // point outside every team body.
    let sent = handle_click(&mut w, V2 { x: 0, y: 0 }, ctx());
    assert_eq!(sent, vec![ClientPacket::Purchase(1), ClientPacket::Purchase(2)]);
}
