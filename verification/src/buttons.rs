//! The fixed buttons of the interface, built fresh each frame from the
//! view context and the state they display.

use vstd::prelude::*;
use crate::geom::V2;
use crate::vertex::{Rgba, Tex};
use crate::view::ViewCtx;
use crate::widget::{Button, UNIT_COST};
use crate::fmt::{fixed2, fixed3, labelled, milli_2, milli_3};
use crate::model::STAT_BOUND;

verus! {

/// Accept the offered fight.
pub fn fight_button() -> (r: Button)
    ensures
        r.name@ == "fight"@,
        r.pos == (V2 { x: -14000i64, y: -1200i64 }),
        r.size == (V2 { x: 12000, y: 2400 }),
        r.tex == Tex::Color(Rgba { r: 1000, g: 0, b: 0, a: 1000 }),
        r.edge is None,
        r.wf(),
{
    proof {
        reveal_strlit("fight");
    }
    Button {
        name: String::from_str("fight"),
        pos: V2 { x: -14000, y: -1200 },
        size: V2 { x: 12000, y: 2400 },
        tex: Tex::Color(Rgba { r: 1000, g: 0, b: 0, a: 1000 }),
        edge: None,
    }
}

/// Decline the offered fight.
pub fn do_not_button() -> (r: Button)
    ensures
        r.name@ == "do not"@,
        r.pos == (V2 { x: 2000i64, y: -1200i64 }),
        r.size == (V2 { x: 12000, y: 2400 }),
        r.tex == Tex::Color(Rgba { r: 0, g: 1000, b: 0, a: 1000 }),
        r.edge is None,
        r.wf(),
{
    proof {
        reveal_strlit("do not");
    }
    Button {
        name: String::from_str("do not"),
        pos: V2 { x: 2000, y: -1200 },
        size: V2 { x: 12000, y: 2400 },
        tex: Tex::Color(Rgba { r: 0, g: 1000, b: 0, a: 1000 }),
        edge: None,
    }
}

/// Move one depth level up after looting.
pub fn up_button() -> (r: Button)
    ensures
        r.name@ == "up"@,
        r.pos == (V2 { x: -6000i64, y: 1600i64 }),
        r.size == (V2 { x: 12000, y: 2400 }),
        r.tex == Tex::Color(Rgba { r: 1000, g: 1000, b: 0, a: 1000 }),
        r.edge is None,
        r.wf(),
{
    proof {
        reveal_strlit("up");
    }
    Button {
        name: String::from_str("up"),
        pos: V2 { x: -6000, y: 1600 },
        size: V2 { x: 12000, y: 2400 },
        tex: Tex::Color(Rgba { r: 1000, g: 1000, b: 0, a: 1000 }),
        edge: None,
    }
}

/// Stay at the current depth after looting.
pub fn stay_button() -> (r: Button)
    ensures
        r.name@ == "stay"@,
        r.pos == (V2 { x: -6000i64, y: -1200i64 }),
        r.size == (V2 { x: 12000, y: 2400 }),
        r.tex == Tex::Color(Rgba { r: 300, g: 300, b: 300, a: 1000 }),
        r.edge is None,
        r.wf(),
{
    proof {
        reveal_strlit("stay");
    }
    Button {
        name: String::from_str("stay"),
        pos: V2 { x: -6000, y: -1200 },
        size: V2 { x: 12000, y: 2400 },
        tex: Tex::Color(Rgba { r: 300, g: 300, b: 300, a: 1000 }),
        edge: None,
    }
}

/// Move one depth level down after looting.
pub fn down_button() -> (r: Button)
    ensures
        r.name@ == "down"@,
        r.pos == (V2 { x: -6000i64, y: -4000i64 }),
        r.size == (V2 { x: 12000, y: 2400 }),
        r.tex == Tex::Color(Rgba { r: 1000, g: 0, b: 1000, a: 1000 }),
        r.edge is None,
        r.wf(),
{
    proof {
        reveal_strlit("down");
    }
    Button {
        name: String::from_str("down"),
        pos: V2 { x: -6000, y: -4000 },
        size: V2 { x: 12000, y: 2400 },
        tex: Tex::Color(Rgba { r: 1000, g: 0, b: 1000, a: 1000 }),
        edge: None,
    }
}

/// Buy a new unit for the fixed price, shown on the label.
pub fn purchase_unit_button() -> (r: Button)
    ensures
        r.name@ == "purchase unit: "@ + fixed2(UNIT_COST as int),
        r.pos == (V2 { x: -6000i64, y: -15680i64 }),
        r.size == (V2 { x: 12000, y: 1600 }),
        r.tex == Tex::Color(Rgba { r: 0, g: 800, b: 800, a: 1000 }),
        r.edge is None,
        r.wf(),
{
    proof {
        reveal_strlit("purchase unit: ");
        crate::fmt::lemma_fixed2_len(UNIT_COST as int);
    }
    Button {
        name: labelled("purchase unit: ", milli_2(UNIT_COST)),
        pos: V2 { x: -6000, y: -15680 },
        size: V2 { x: 12000, y: 1600 },
        tex: Tex::Color(Rgba { r: 0, g: 800, b: 800, a: 1000 }),
        edge: None,
    }
}

/// Pause or resume replay playback; shown dimmed while paused.
pub fn pause_button(paused: bool) -> (r: Button)
    ensures
        r.name@ == "pause"@,
        r.pos == (V2 { x: -800i64, y: -800i64 }),
        r.size == (V2 { x: 1600, y: 1600 }),
        r.tex == Tex::Color(
            if paused {
                Rgba { r: 50, g: 240, b: 60, a: 1000 }
            } else {
                Rgba { r: 0, g: 1000, b: 0, a: 1000 }
            },
        ),
        r.edge is None,
        r.wf(),
{
    proof {
        reveal_strlit("pause");
    }
    Button {
        name: String::from_str("pause"),
        pos: V2 { x: -800, y: -800 },
        size: V2 { x: 1600, y: 1600 },
        tex: Tex::Color(
            if paused {
                Rgba { r: 50, g: 240, b: 60, a: 1000 }
            } else {
                Rgba { r: 0, g: 1000, b: 0, a: 1000 }
            },
        ),
        edge: None,
    }
}

/// Restart replay playback from the first snapshot.
pub fn rewind_button() -> (r: Button)
    ensures
        r.name@ == "rewind"@,
        r.pos == (V2 { x: -2560i64, y: -800i64 }),
        r.size == (V2 { x: 1600, y: 1600 }),
        r.tex == Tex::Color(Rgba { r: 1000, g: 0, b: 0, a: 1000 }),
        r.edge is None,
        r.wf(),
{
    proof {
        reveal_strlit("rewind");
    }
    Button {
        name: String::from_str("rewind"),
        pos: V2 { x: -2560, y: -800 },
        size: V2 { x: 1600, y: 1600 },
        tex: Tex::Color(Rgba { r: 1000, g: 0, b: 0, a: 1000 }),
        edge: None,
    }
}

/// Abandon replay playback.
pub fn skip_button() -> (r: Button)
    ensures
        r.name@ == "skip"@,
        r.pos == (V2 { x: 960i64, y: -800i64 }),
        r.size == (V2 { x: 1600, y: 1600 }),
        r.tex == Tex::Color(Rgba { r: 0, g: 0, b: 1000, a: 1000 }),
        r.edge is None,
        r.wf(),
{
    proof {
        reveal_strlit("skip");
    }
    Button {
        name: String::from_str("skip"),
        pos: V2 { x: 960, y: -800 },
        size: V2 { x: 1600, y: 1600 },
        tex: Tex::Color(Rgba { r: 0, g: 0, b: 1000, a: 1000 }),
        edge: None,
    }
}

/// Heal every hurt team member at once.
pub fn heal_all_button() -> (r: Button)
    ensures
        r.name@ == "heal all"@,
        r.pos == (V2 { x: -3600i64, y: -1520i64 }),
        r.size == (V2 { x: 7200, y: 2400 }),
        r.tex == Tex::Color(Rgba { r: 0, g: 1000, b: 0, a: 1000 }),
        r.edge is None,
        r.wf(),
{
    proof {
        reveal_strlit("heal all");
    }
    Button {
        name: String::from_str("heal all"),
        pos: V2 { x: -3600, y: -1520 },
        size: V2 { x: 7200, y: 2400 },
        tex: Tex::Color(Rgba { r: 0, g: 1000, b: 0, a: 1000 }),
        edge: None,
    }
}

/// The repair button at the corner of the carried-equipment panel.  Its
/// label shows the repair target durability; while selected for typing
/// it brightens and clears its label.
pub fn repair_button(target: u64, selected: bool) -> (r: Button)
    requires
        target <= STAT_BOUND,
    ensures
        r.name@ == (if selected {
            Seq::<char>::empty()
        } else {
            fixed3(target as int)
        }),
        r.pos == (V2 { x: -6080i64, y: -1792i64 }),
        r.size == (V2 { x: 2400, y: 2400 }),
        r.tex == Tex::Color(
            if selected {
                Rgba { r: 0, g: 880, b: 880, a: 1000 }
            } else {
                Rgba { r: 0, g: 800, b: 800, a: 1000 }
            },
        ),
        r.edge == Some(false),
        r.wf(),
{
    proof {
        crate::fmt::lemma_fixed3_len(target as int);
    }
    let name = if selected {
        String::new()
    } else {
        milli_3(target)
    };
    Button {
        name,
        pos: V2 { x: -6080, y: -1792 },
        size: V2 { x: 2400, y: 2400 },
        tex: Tex::Color(
            if selected {
                Rgba { r: 0, g: 880, b: 880, a: 1000 }
            } else {
                Rgba { r: 0, g: 800, b: 800, a: 1000 }
            },
        ),
        edge: Some(false),
    }
}

/// The juice button beside the repair button: converts an item to
/// currency.
pub fn juice_button() -> (r: Button)
    ensures
        r.name@ == "juice"@,
        r.pos == (V2 { x: -3360i64, y: -1792i64 }),
        r.size == (V2 { x: 2400, y: 2400 }),
        r.tex == Tex::Color(Rgba { r: 1000, g: 0, b: 0, a: 1000 }),
        r.edge == Some(false),
        r.wf(),
{
    proof {
        reveal_strlit("juice");
    }
    Button {
        name: String::from_str("juice"),
        pos: V2 { x: -3360, y: -1792 },
        size: V2 { x: 2400, y: 2400 },
        tex: Tex::Color(Rgba { r: 1000, g: 0, b: 0, a: 1000 }),
        edge: Some(false),
    }
}

} // verus!
