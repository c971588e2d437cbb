//! Word wrapping of description text to a fixed column width before
//! display: the most recent space of an overlong line is replaced in
//! place by a line break.

use vstd::prelude::*;
use crate::model::{Equipment, Perk, Unit, UnitView, TEXT_BOUND};
use crate::widget::DESC_WIDTH;

verus! {

/// Whether the window of `mw + 1` consecutive characters starting at
/// `j` contains a line break.
pub open spec fn window_has_break(s: Seq<char>, mw: int, j: int) -> bool {
    exists|k: int| j <= k <= j + mw && s[k] == '\n'
}

/// No newline-free run of the text is longer than `mw`: every stretch
/// of `mw + 1` consecutive characters contains a line break.
pub open spec fn line_bounded(s: Seq<char>, mw: int) -> bool {
    forall|j: int| 0 <= j && j + mw < s.len() ==> #[trigger] window_has_break(s, mw, j)
}

/// One pass of the wrapper from position `i` with the scan state it has
/// built so far: `last_nl` is the position of the latest line break,
/// `last_space` the latest space seen since that break, if any.  When a
/// run grows past the width, the break lands on that space, or — with
/// no space to use — right here, mid-word.
pub open spec fn wrap_from(s: Seq<char>, mw: int, i: int, last_nl: int, last_space: Option<int>) -> Seq<char>
    decreases s.len() - i,
{
    if i < 0 || i >= s.len() {
        s
    } else {
        let nl1 = if s[i] == '\n' {
            i
        } else {
            last_nl
        };
        let sp1 = if s[i] == '\n' {
            None
        } else if s[i] == ' ' {
            Some(i)
        } else {
            last_space
        };
        if nl1 + mw <= i {
            let b0 = match sp1 {
                Some(sp) => sp,
                None => i,
            };
            let b = if 0 <= b0 < s.len() {
                b0
            } else {
                i
            };
            wrap_from(s.update(b, '\n'), mw, i + 1, b, None)
        } else {
            wrap_from(s, mw, i + 1, nl1, sp1)
        }
    }
}

/// What wrapping a text to width `mw` produces.
pub open spec fn wrapped(s: Seq<char>, mw: int) -> Seq<char> {
    wrap_from(s, mw, 0, 0, None)
}

/// Break lines longer than `max_width` in place: the line's latest
/// space becomes a line break, or the line breaks mid-word when it has
/// no space.  Afterwards no newline-free run exceeds `max_width`.
pub fn splittify(s: &mut Vec<char>, max_width: usize)
    requires
        1 <= max_width <= 1024,
        old(s)@.len() <= TEXT_BOUND,
    ensures
        final(s)@ == wrapped(old(s)@, max_width as int),
        final(s)@.len() == old(s)@.len(),
        line_bounded(final(s)@, max_width as int),
{
    let ghost mw = max_width as int;
    let mut i: usize = 0;
    let mut last_nl: usize = 0;
    let mut last_space: Option<usize> = None;
    while i < s.len()
        invariant
            1 <= max_width <= 1024,
            mw == max_width as int,
            s@.len() == old(s)@.len() <= TEXT_BOUND,
            i <= s@.len(),
            last_nl <= i,
            last_nl == 0 || (last_nl < s@.len() && s@[last_nl as int] == '\n'),
            match last_space {
                Some(sp) => last_nl <= sp <= i && sp < s@.len() && sp + max_width >= i,
                None => true,
            },
            forall|j: int| 0 <= j && j + mw < i ==> #[trigger] window_has_break(s@, mw, j),
            wrapped(old(s)@, mw) == wrap_from(
                s@,
                mw,
                i as int,
                last_nl as int,
                match last_space {
                    Some(sp) => Some(sp as int),
                    None => None,
                },
            ),
        decreases s@.len() - i,
    {
        let c = s[i];
        if c == '\n' {
            last_nl = i;
            last_space = None;
        } else if c == ' ' {
            last_space = Some(i);
        }
        if last_nl + max_width <= i {
            let b = match last_space {
                Some(sp) => sp,
                None => i,
            };
            let ghost s_pre = s@;
            s.set(b, '\n');
            proof {
                assert forall|j: int| 0 <= j && j + mw < i + 1 implies #[trigger] window_has_break(
                    s@,
                    mw,
                    j,
                ) by {
                    if j + mw < i {
                        assert(window_has_break(s_pre, mw, j));
                        let k = choose|k: int| j <= k <= j + mw && s_pre[k] == '\n';
                        assert(s@[k] == '\n');
                    } else {
                        assert(s@[b as int] == '\n');
                        assert(j <= b <= j + mw);
                    }
                }
            }
            last_nl = b;
            last_space = None;
        } else {
            proof {
                assert forall|j: int| 0 <= j && j + mw < i + 1 implies #[trigger] window_has_break(
                    s@,
                    mw,
                    j,
                ) by {
                    if j + mw < i {
                        assert(window_has_break(s@, mw, j));
                    } else {
                        if c == '\n' {
                            assert(s@[i as int] == '\n');
                        } else {
                            assert(s@[last_nl as int] == '\n');
                        }
                    }
                }
            }
        }
        i += 1;
    }
}

/// The characters of a string, as a vector.
pub fn string_chars(s: &str) -> (r: Vec<char>)
    ensures
        r@ == s@,
{
    let n = s.unicode_len();
    let mut r: Vec<char> = Vec::new();
    let mut i: usize = 0;
    while i < n
        invariant
            n == s@.len(),
            i <= n,
            r@ == s@.take(i as int),
        decreases n - i,
    {
        r.push(s.get_char(i));
        proof {
            assert(s@.take(i as int).push(s@[i as int]) =~= s@.take(i + 1));
        }
        i += 1;
    }
    proof {
        assert(s@.take(n as int) =~= s@);
    }
    r
}

/// Relies on `String`'s `FromIterator` over characters: collecting a
/// character vector yields the string of exactly those characters.
#[verifier::external_body]
pub fn chars_to_string(v: &Vec<char>) -> (r: String)
    ensures
        r@ == v@,
{
    v.iter().collect()
}

/// A wrapped text with a trailing line break, if any, removed: how
/// equipment descriptions are normalized.
pub open spec fn wrapped_trim(s: Seq<char>, mw: int) -> Seq<char> {
    let w = wrapped(s, mw);
    if w.len() > 0 && w.last() == '\n' {
        w.drop_last()
    } else {
        w
    }
}

/// A description wrapped to the display column width.
pub fn wrap_text(s: &String) -> (r: String)
    requires
        s@.len() <= TEXT_BOUND,
    ensures
        r@ == wrapped(s@, DESC_WIDTH as int),
        r@.len() == s@.len(),
        line_bounded(r@, DESC_WIDTH as int),
{
    let mut cs = string_chars(s.as_str());
    splittify(&mut cs, DESC_WIDTH);
    chars_to_string(&cs)
}

/// A description wrapped to the display column width, with a trailing
/// line break removed.
pub fn wrap_text_trim(s: &String) -> (r: String)
    requires
        s@.len() <= TEXT_BOUND,
    ensures
        r@ == wrapped_trim(s@, DESC_WIDTH as int),
        r@.len() <= s@.len(),
        line_bounded(r@, DESC_WIDTH as int),
{
    let mut cs = string_chars(s.as_str());
    splittify(&mut cs, DESC_WIDTH);
    let ghost full = cs@;
    if cs.len() > 0 && cs[cs.len() - 1] == '\n' {
        cs.pop();
    }
    proof {
        assert forall|j: int| 0 <= j && j + DESC_WIDTH < cs@.len() implies #[trigger] window_has_break(
            cs@,
            DESC_WIDTH as int,
            j,
        ) by {
            assert(window_has_break(full, DESC_WIDTH as int, j));
            let k = choose|k: int| j <= k <= j + DESC_WIDTH && full[k] == '\n';
            assert(cs@[k] == '\n');
        }
    }
    chars_to_string(&cs)
}

/// `b` is `a` with its description wrapped, every line within the
/// display column width.
pub open spec fn perk_wrapped(a: Perk, b: Perk) -> bool {
    &&& b.color == a.color
    &&& b.desc@ == wrapped(a.desc@, DESC_WIDTH as int)
    &&& b.desc@.len() == a.desc@.len()
    &&& line_bounded(b.desc@, DESC_WIDTH as int)
}

/// `b` is `a` with its description wrapped and trimmed.
pub open spec fn equip_wrapped(a: Equipment, b: Equipment) -> bool {
    &&& b.color == a.color
    &&& b.repair_cost == a.repair_cost
    &&& b.durability == a.durability
    &&& b.stat1 == a.stat1
    &&& b.stat2 == a.stat2
    &&& b.desc@ == wrapped_trim(a.desc@, DESC_WIDTH as int)
    &&& b.desc@.len() <= a.desc@.len()
    &&& line_bounded(b.desc@, DESC_WIDTH as int)
}

pub open spec fn slot_wrapped(a: Option<Equipment>, b: Option<Equipment>) -> bool {
    match (a, b) {
        (Some(ae), Some(be)) => equip_wrapped(ae, be),
        (None, None) => true,
        _ => false,
    }
}

pub open spec fn perks_wrapped(a: Seq<Perk>, b: Seq<Perk>) -> bool {
    &&& b.len() == a.len()
    &&& forall|i: int| 0 <= i < a.len() ==> perk_wrapped(a[i], #[trigger] b[i])
}

/// `b` is `a` with every description it carries wrapped for display.
pub open spec fn unit_wrapped(a: Unit, b: Unit) -> bool {
    &&& b.hp == a.hp
    &&& b.max_hp == a.max_hp
    &&& b.hp_lim == a.hp_lim
    &&& b.class == a.class
    &&& b.element == a.element
    &&& b.attack == a.attack
    &&& b.armor == a.armor
    &&& b.block == a.block
    &&& b.regen == a.regen
    &&& perks_wrapped(a.perks@, b.perks@)
    &&& match (a.perk_choice, b.perk_choice) {
        (Some(ap), Some(bp)) => perks_wrapped(ap@, bp@),
        (None, None) => true,
        _ => false,
    }
    &&& forall|i: int| 0 <= i < 4 ==> slot_wrapped(a.equipment@[i], #[trigger] b.equipment@[i])
}

/// `b` is `a` with perks and equipment wrapped; a redacted unit's
/// pending choice, if any, is left untouched.
pub open spec fn view_wrapped(a: UnitView, b: UnitView) -> bool {
    &&& b.class_revealed == a.class_revealed
    &&& b.element_revealed == a.element_revealed
    &&& b.frac_hp_revealed == a.frac_hp_revealed
    &&& b.unit.hp == a.unit.hp
    &&& b.unit.max_hp == a.unit.max_hp
    &&& b.unit.hp_lim == a.unit.hp_lim
    &&& b.unit.class == a.unit.class
    &&& b.unit.element == a.unit.element
    &&& b.unit.attack == a.unit.attack
    &&& b.unit.armor == a.unit.armor
    &&& b.unit.block == a.unit.block
    &&& b.unit.regen == a.unit.regen
    &&& perks_wrapped(a.unit.perks@, b.unit.perks@)
    &&& match (a.unit.perk_choice, b.unit.perk_choice) {
        (Some(ap), Some(bp)) => bp@ == ap@,
        (None, None) => true,
        _ => false,
    }
    &&& forall|i: int| 0 <= i < 4 ==> slot_wrapped(
        a.unit.equipment@[i],
        #[trigger] b.unit.equipment@[i],
    )
}

pub open spec fn units_wrapped(a: Seq<Unit>, b: Seq<Unit>) -> bool {
    &&& b.len() == a.len()
    &&& forall|i: int| 0 <= i < a.len() ==> unit_wrapped(a[i], #[trigger] b[i])
}

pub open spec fn views_wrapped(a: Seq<UnitView>, b: Seq<UnitView>) -> bool {
    &&& b.len() == a.len()
    &&& forall|i: int| 0 <= i < a.len() ==> view_wrapped(a[i], #[trigger] b[i])
}

pub open spec fn equips_wrapped(a: Seq<Equipment>, b: Seq<Equipment>) -> bool {
    &&& b.len() == a.len()
    &&& forall|i: int| 0 <= i < a.len() ==> equip_wrapped(a[i], #[trigger] b[i])
}

/// A perk with its description wrapped.
pub fn wrap_perk(p: &Perk) -> (r: Perk)
    requires
        p.wf(),
    ensures
        perk_wrapped(*p, r),
        r.wf(),
{
    Perk { color: p.color, desc: wrap_text(&p.desc) }
}

/// An equipment with its description wrapped and trimmed.
pub fn wrap_equipment(e: &Equipment) -> (r: Equipment)
    requires
        e.wf(),
    ensures
        equip_wrapped(*e, r),
        r.wf(),
{
    Equipment {
        color: e.color,
        repair_cost: e.repair_cost,
        durability: e.durability,
        stat1: e.stat1,
        stat2: e.stat2,
        desc: wrap_text_trim(&e.desc),
    }
}

fn wrap_perk_vec(v: &Vec<Perk>) -> (r: Vec<Perk>)
    requires
        forall|i: int| 0 <= i < v@.len() ==> (#[trigger] v@[i]).wf(),
    ensures
        perks_wrapped(v@, r@),
        forall|i: int| 0 <= i < r@.len() ==> (#[trigger] r@[i]).wf(),
{
    let mut r: Vec<Perk> = Vec::new();
    let mut i: usize = 0;
    while i < v.len()
        invariant
            forall|k: int| 0 <= k < v@.len() ==> (#[trigger] v@[k]).wf(),
            i <= v@.len(),
            r@.len() == i,
            forall|k: int| 0 <= k < i ==> perk_wrapped(v@[k], #[trigger] r@[k]),
            forall|k: int| 0 <= k < i ==> (#[trigger] r@[k]).wf(),
        decreases v@.len() - i,
    {
        r.push(wrap_perk(&v[i]));
        i += 1;
    }
    r
}

fn wrap_slot(o: &Option<Equipment>) -> (r: Option<Equipment>)
    requires
        match o {
            Some(e) => e.wf(),
            None => true,
        },
    ensures
        slot_wrapped(*o, r),
        match r {
            Some(e) => e.wf(),
            None => true,
        },
{
    match o {
        Some(e) => Some(wrap_equipment(e)),
        None => None,
    }
}

/// A unit with every description it carries wrapped for display.
pub fn wrap_unit(u: &Unit) -> (r: Unit)
    requires
        u.wf(),
    ensures
        unit_wrapped(*u, r),
        r.wf(),
{
    let perks = wrap_perk_vec(&u.perks);
    let perk_choice = match &u.perk_choice {
        Some(ps) => Some(wrap_perk_vec(ps)),
        None => None,
    };
    let equipment = [
        wrap_slot(&u.equipment[0]),
        wrap_slot(&u.equipment[1]),
        wrap_slot(&u.equipment[2]),
        wrap_slot(&u.equipment[3]),
    ];
    Unit {
        hp: u.hp,
        max_hp: u.max_hp,
        hp_lim: u.hp_lim,
        class: u.class,
        element: u.element,
        attack: u.attack,
        armor: u.armor,
        block: u.block,
        regen: u.regen,
        perks,
        perk_choice,
        equipment,
    }
}

/// A redacted unit with its perks and equipment wrapped for display.
pub fn wrap_view(v: &UnitView) -> (r: UnitView)
    requires
        v.wf(),
    ensures
        view_wrapped(*v, r),
        r.wf(),
{
    let perks = wrap_perk_vec(&v.unit.perks);
    let equipment = [
        wrap_slot(&v.unit.equipment[0]),
        wrap_slot(&v.unit.equipment[1]),
        wrap_slot(&v.unit.equipment[2]),
        wrap_slot(&v.unit.equipment[3]),
    ];
    let perk_choice = match &v.unit.perk_choice {
        Some(ps) => Some(crate::widget::dup_perks(ps)),
        None => None,
    };
    UnitView {
        unit: Unit {
            hp: v.unit.hp,
            max_hp: v.unit.max_hp,
            hp_lim: v.unit.hp_lim,
            class: v.unit.class,
            element: v.unit.element,
            attack: v.unit.attack,
            armor: v.unit.armor,
            block: v.unit.block,
            regen: v.unit.regen,
            perks,
            perk_choice,
            equipment,
        },
        class_revealed: v.class_revealed,
        element_revealed: v.element_revealed,
        frac_hp_revealed: v.frac_hp_revealed,
    }
}

/// A unit list with every description wrapped.
pub fn wrap_units(v: &Vec<Unit>) -> (r: Vec<Unit>)
    requires
        forall|i: int| 0 <= i < v@.len() ==> (#[trigger] v@[i]).wf(),
    ensures
        units_wrapped(v@, r@),
        forall|i: int| 0 <= i < r@.len() ==> (#[trigger] r@[i]).wf(),
{
    let mut r: Vec<Unit> = Vec::new();
    let mut i: usize = 0;
    while i < v.len()
        invariant
            forall|k: int| 0 <= k < v@.len() ==> (#[trigger] v@[k]).wf(),
            i <= v@.len(),
            r@.len() == i,
            forall|k: int| 0 <= k < i ==> unit_wrapped(v@[k], #[trigger] r@[k]),
            forall|k: int| 0 <= k < i ==> (#[trigger] r@[k]).wf(),
        decreases v@.len() - i,
    {
        r.push(wrap_unit(&v[i]));
        i += 1;
    }
    r
}

/// A redacted-unit list with every description wrapped.
pub fn wrap_views(v: &Vec<UnitView>) -> (r: Vec<UnitView>)
    requires
        forall|i: int| 0 <= i < v@.len() ==> (#[trigger] v@[i]).wf(),
    ensures
        views_wrapped(v@, r@),
        forall|i: int| 0 <= i < r@.len() ==> (#[trigger] r@[i]).wf(),
{
    let mut r: Vec<UnitView> = Vec::new();
    let mut i: usize = 0;
    while i < v.len()
        invariant
            forall|k: int| 0 <= k < v@.len() ==> (#[trigger] v@[k]).wf(),
            i <= v@.len(),
            r@.len() == i,
            forall|k: int| 0 <= k < i ==> view_wrapped(v@[k], #[trigger] r@[k]),
            forall|k: int| 0 <= k < i ==> (#[trigger] r@[k]).wf(),
        decreases v@.len() - i,
    {
        r.push(wrap_view(&v[i]));
        i += 1;
    }
    r
}

/// An equipment list with every description wrapped and trimmed.
pub fn wrap_equips(v: &Vec<Equipment>) -> (r: Vec<Equipment>)
    requires
        forall|i: int| 0 <= i < v@.len() ==> (#[trigger] v@[i]).wf(),
    ensures
        equips_wrapped(v@, r@),
        forall|i: int| 0 <= i < r@.len() ==> (#[trigger] r@[i]).wf(),
{
    let mut r: Vec<Equipment> = Vec::new();
    let mut i: usize = 0;
    while i < v.len()
        invariant
            forall|k: int| 0 <= k < v@.len() ==> (#[trigger] v@[k]).wf(),
            i <= v@.len(),
            r@.len() == i,
            forall|k: int| 0 <= k < i ==> equip_wrapped(v@[k], #[trigger] r@[k]),
            forall|k: int| 0 <= k < i ==> (#[trigger] r@[k]).wf(),
        decreases v@.len() - i,
    {
        r.push(wrap_equipment(&v[i]));
        i += 1;
    }
    r
}

} // verus!
