//! Formation templates: the elliptical flight paths that small groups of
//! enemies share, and the generator that hands them out.

use vstd::prelude::*;
use crate::geometry::{Point, COORD_LIMIT, trunc_rem};
use crate::random::{coin, uniform};

verus! {

/// Most enemies that may fly one formation.
pub const MAX_FORMATION_MEMBERS: u32 = 2;

/// Largest width or height of a playfield, in position units.
pub const WINDOW_LIMIT: i64 = 0x1_0000_0000;

/// Margin kept free above and below the band in which formations start.
pub const VERTICAL_MARGIN: i64 = 100_000;

/// Bounds of the sampled horizontal semi-axis of an orbit.
pub const RADIUS_X_MIN: i64 = 80_000;

pub const RADIUS_X_MAX: i64 = 150_000;

/// The vertical semi-axis of every orbit.
pub const RADIUS_Y: i64 = 100_000;

/// One full turn, in microradians.
pub const FULL_TURN: i64 = 6_283_185;

/// Width and height of the playfield, in position units.
#[derive(Clone, Copy, Debug, PartialEq, Eq, Structural)]
pub struct WinSize {
    pub w: i64,
    pub h: i64,
}

impl WinSize {
    /// Half the height less the margin: formations start within this distance of the middle.
    pub open spec fn h_span(self) -> int {
        self.h / 2 - VERTICAL_MARGIN
    }

    /// A quarter of the width: orbit centres lie within this distance of the middle.
    pub open spec fn w_span(self) -> int {
        self.w / 4
    }

    /// The playfield is large enough to hold a formation and small enough to compute with.
    pub open spec fn valid(self) -> bool {
        &&& 4 <= self.w <= WINDOW_LIMIT
        &&& 2 * VERTICAL_MARGIN + 2 <= self.h <= WINDOW_LIMIT
    }

    /// A playfield of the given size, if it is a valid one.
    pub fn new(w: i64, h: i64) -> (win: Option<WinSize>)
        ensures
            win == (if (WinSize { w, h }).valid() {
                Some(WinSize { w, h })
            } else {
                None
            }),
    {
        if 4 <= w && w <= WINDOW_LIMIT && 2 * VERTICAL_MARGIN + 2 <= h && h <= WINDOW_LIMIT {
            Some(WinSize { w, h })
        } else {
            None
        }
    }

    /// Decides `valid`.
    pub fn is_valid(&self) -> (ok: bool)
        ensures
            ok == self.valid(),
    {
        4 <= self.w && self.w <= WINDOW_LIMIT && 2 * VERTICAL_MARGIN + 2 <= self.h && self.h
            <= WINDOW_LIMIT
    }
}

/// An elliptical orbit with centre `offset` and semi-axes `radius`, entered
/// from `start`; `angle` is the phase, in microradians, that the group has reached.
#[derive(Clone, Copy, Debug, PartialEq, Eq, Structural)]
pub struct Formation {
    pub start: Point,
    pub radius: Point,
    pub offset: Point,
    pub angle: i64,
    pub group_id: u32,
}

/// An angle brought within one turn of zero, keeping its sign.
pub open spec fn normalized_angle(raw: int) -> int {
    trunc_rem(raw, FULL_TURN as int)
}

/// Brings an angle in microradians within one turn of zero.
pub fn normalize_angle(raw: i64) -> (angle: i64)
    ensures
        angle == normalized_angle(raw as int),
        -FULL_TURN < angle < FULL_TURN,
{
    raw % FULL_TURN
}

/// The vertical argument of the initial heading: how far the start lies
/// above the orbit centre.
pub open spec fn heading_rise(start: Point, offset: Point) -> int {
    start.y - offset.y
}

/// The horizontal argument of the initial heading: how far the start lies
/// to the right of the orbit centre.
pub open spec fn heading_run(start: Point, offset: Point) -> int {
    start.x - offset.x
}

/// The geometry of an orbit that the motion law accepts: the start and
/// the whole ellipse lie within coordinate bounds, and the semi-axes are positive.
pub open spec fn orbit_fits(start: Point, offset: Point, radius: Point) -> bool {
    &&& start.in_bounds()
    &&& 1 <= radius.x
    &&& 1 <= radius.y
    &&& -COORD_LIMIT <= offset.x - radius.x
    &&& offset.x + radius.x <= COORD_LIMIT
    &&& -COORD_LIMIT <= offset.y - radius.y
    &&& offset.y + radius.y <= COORD_LIMIT
}

impl Formation {
    /// The orbit fits, and the phase is within one turn of zero.
    pub open spec fn valid(self) -> bool {
        &&& orbit_fits(self.start, self.offset, self.radius)
        &&& -FULL_TURN < self.angle < FULL_TURN
    }

    /// The geometry is one that the generator may sample for the playfield `win`.
    pub open spec fn placed_in(self, win: WinSize) -> bool {
        &&& self.start.x == win.w || self.start.x == -win.w
        &&& -win.h_span() <= self.start.y < win.h_span()
        &&& -win.w_span() <= self.offset.x < win.w_span()
        &&& 0 <= self.offset.y < win.h_span()
        &&& RADIUS_X_MIN <= self.radius.x < RADIUS_X_MAX
        &&& self.radius.y == RADIUS_Y
    }

    /// Decides `valid`.
    pub fn is_valid(&self) -> (ok: bool)
        ensures
            ok == self.valid(),
    {
        self.start.is_in_bounds() && 1 <= self.radius.x && 1 <= self.radius.y
            && self.radius.x <= COORD_LIMIT && self.radius.y <= COORD_LIMIT
            && -COORD_LIMIT <= self.offset.x && self.offset.x <= COORD_LIMIT
            && -COORD_LIMIT <= self.offset.y && self.offset.y <= COORD_LIMIT
            && -COORD_LIMIT <= self.offset.x - self.radius.x
            && self.offset.x + self.radius.x <= COORD_LIMIT
            && -COORD_LIMIT <= self.offset.y - self.radius.y
            && self.offset.y + self.radius.y <= COORD_LIMIT
            && -FULL_TURN < self.angle && self.angle < FULL_TURN
    }
}

/// Hands out formation templates, each to at most `MAX_FORMATION_MEMBERS` enemies.
#[derive(Clone, Copy, Debug, PartialEq, Eq)]
pub struct FormationMaker {
    /// The identifier of the last template generated; 0 before the first.
    pub group_seq: u32,
    /// The template being handed out.
    pub current_formation: Option<Formation>,
    /// How many times the current template has been handed out.
    pub current_formation_members: u32,
}

impl FormationMaker {
    /// The current template, if any, carries the last identifier generated
    /// and has been handed out at least once and not too often.
    pub open spec fn counted(self) -> bool {
        match self.current_formation {
            None => true,
            Some(f) => {
                &&& f.group_id == self.group_seq
                &&& 1 <= self.current_formation_members <= MAX_FORMATION_MEMBERS
            },
        }
    }

    /// The counters are in order and the current template, if any, is a valid orbit.
    pub open spec fn valid(self) -> bool {
        &&& self.counted()
        &&& self.current_formation is Some ==> self.current_formation.unwrap().valid()
    }

    /// The next request is served with a copy of the current template.
    pub open spec fn reuses(self) -> bool {
        self.current_formation is Some && self.current_formation_members < MAX_FORMATION_MEMBERS
    }

    /// A request can be served: a template can be reused, or an identifier is left for a new one.
    pub open spec fn can_make(self) -> bool {
        self.reuses() || self.group_seq < u32::MAX
    }

    /// The generator after it has handed out its current template once more.
    pub open spec fn after_reuse(self) -> FormationMaker {
        FormationMaker {
            current_formation_members: (self.current_formation_members + 1) as u32,
            ..self
        }
    }

    /// The generator after it has generated and handed out `f`.
    pub open spec fn after_issue(self, f: Formation) -> FormationMaker {
        FormationMaker {
            group_seq: f.group_id,
            current_formation: Some(f),
            current_formation_members: 1,
        }
    }

    /// The template that a new generation with the given geometry produces.
    pub open spec fn minted(self, start: Point, offset: Point, radius: Point, raw_angle: i64) -> Formation {
        Formation {
            start,
            radius,
            offset,
            angle: normalized_angle(raw_angle as int) as i64,
            group_id: (self.group_seq + 1) as u32,
        }
    }

    /// One request: `post` and `f` are a possible outcome of `make` on `pre`.
    ///
    /// Either the current template is handed out again, or a template with
    /// the next identifier becomes current and is handed out for the first time.
    pub open spec fn serves(pre: FormationMaker, f: Formation, post: FormationMaker) -> bool {
        if pre.reuses() {
            &&& pre.current_formation == Some(f)
            &&& post == pre.after_reuse()
        } else {
            &&& pre.group_seq < u32::MAX
            &&& f.group_id == pre.group_seq + 1
            &&& post == pre.after_issue(f)
        }
    }

    /// A generator that has not handed out anything yet.
    pub fn new() -> (maker: FormationMaker)
        ensures
            maker == (FormationMaker {
                group_seq: 0,
                current_formation: None,
                current_formation_members: 0,
            }),
            maker.valid(),
            maker.can_make(),
    {
        FormationMaker { group_seq: 0, current_formation: None, current_formation_members: 0 }
    }

    /// Decides `valid`.
    pub fn is_valid(&self) -> (ok: bool)
        ensures
            ok == self.valid(),
    {
        match &self.current_formation {
            None => true,
            Some(f) => f.is_valid() && f.group_id == self.group_seq && 1
                <= self.current_formation_members && self.current_formation_members
                <= MAX_FORMATION_MEMBERS,
        }
    }

    /// Decides `reuses`.
    pub fn will_reuse(&self) -> (reuse: bool)
        ensures
            reuse == self.reuses(),
    {
        self.current_formation.is_some() && self.current_formation_members
            < MAX_FORMATION_MEMBERS
    }

    /// Decides `can_make`.
    pub fn is_ready(&self) -> (ready: bool)
        ensures
            ready == self.can_make(),
    {
        self.will_reuse() || self.group_seq < u32::MAX
    }

    /// Starts a new generation with the given geometry and hands its template out.
    ///
    /// `raw_angle` is the initial heading in microradians; it is stored
    /// within one turn of zero.
    pub fn issue(
        &mut self,
        start: Point,
        offset: Point,
        radius: Point,
        raw_angle: i64,
    ) -> (f: Formation)
        requires
            old(self).group_seq < u32::MAX,
        ensures
            f == old(self).minted(start, offset, radius, raw_angle),
            *final(self) == old(self).after_issue(f),
            orbit_fits(start, offset, radius) ==> f.valid(),
            orbit_fits(start, offset, radius) ==> final(self).valid(),
    {
        self.group_seq = self.group_seq + 1;
        let f = Formation {
            start,
            radius,
            offset,
            angle: normalize_angle(raw_angle),
            group_id: self.group_seq,
        };
        self.current_formation = Some(f);
        self.current_formation_members = 1;
        f
    }

    /// Serves one request for a formation.
    ///
    /// While the current template has room, a copy of it is returned.
    /// Otherwise a new template is generated for the playfield `win`: the
    /// side, the start height, the orbit centre and the horizontal semi-axis
    /// are drawn from `rng`, and `heading` gives the initial angle, in
    /// microradians, for the arguments `heading_rise` and `heading_run`.
    pub fn make<H: Fn(i64, i64) -> i64>(
        &mut self,
        win: &WinSize,
        rng: &mut rand::rngs::StdRng,
        heading: &H,
    ) -> (f: Formation)
        requires
            old(self).valid(),
            old(self).can_make(),
            win.valid(),
            forall|rise: i64, run: i64| heading.requires((rise, run)),
        ensures
            makes(*old(self), *win, *heading, f, *final(self)),
    {
        if self.will_reuse() {
            let f = self.current_formation.unwrap();
            self.current_formation_members = self.current_formation_members + 1;
            f
        } else {
            let h_span: i64 = win.h / 2 - VERTICAL_MARGIN;
            let w_span: i64 = win.w / 4;
            let x: i64 = if coin(rng) {
                win.w
            } else {
                -win.w
            };
            let y: i64 = uniform(rng, -h_span, h_span);
            let start = Point { x, y };
            let offset_x: i64 = uniform(rng, -w_span, w_span);
            let offset_y: i64 = uniform(rng, 0, h_span);
            let offset = Point { x: offset_x, y: offset_y };
            let radius_x: i64 = uniform(rng, RADIUS_X_MIN, RADIUS_X_MAX);
            let radius = Point { x: radius_x, y: RADIUS_Y };
            let raw: i64 = heading(y - offset_y, x - offset_x);
            let f = self.issue(start, offset, radius, raw);
            assert(heading.ensures(
                (heading_rise(f.start, f.offset) as i64, heading_run(f.start, f.offset) as i64),
                raw,
            ));
            f
        }
    }
}

/// `f` and `post` are a possible outcome of `make` on the generator `pre`
/// for the playfield `win`.
///
/// The request is served as `serves` says and leaves a valid generator. A
/// new template lies in the bands of the playfield, and its angle is a
/// result of `heading`, brought within one turn of zero.
pub open spec fn makes<H: Fn(i64, i64) -> i64>(
    pre: FormationMaker,
    win: WinSize,
    heading: H,
    f: Formation,
    post: FormationMaker,
) -> bool {
    &&& FormationMaker::serves(pre, f, post)
    &&& f.valid()
    &&& post.valid()
    &&& !pre.reuses() ==> f.placed_in(win)
    &&& !pre.reuses() ==> exists|raw: i64|
        {
            &&& heading.ensures(
                (heading_rise(f.start, f.offset) as i64, heading_run(f.start, f.offset) as i64),
                raw,
            )
            &&& f.angle == normalized_angle(raw as int)
        }
}

/// How many formations of `handed` carry the identifier `group`.
pub open spec fn members_of(handed: Seq<Formation>, group: u32) -> nat
    decreases handed.len(),
{
    if handed.len() == 0 {
        0
    } else {
        members_of(handed.drop_last(), group) + if handed.last().group_id == group {
            1nat
        } else {
            0nat
        }
    }
}

/// `makers` are the states of a generator before and after each of the
/// requests that returned `handed`, in order.
pub open spec fn is_history(makers: Seq<FormationMaker>, handed: Seq<Formation>) -> bool {
    &&& makers.len() == handed.len() + 1
    &&& forall|i: int|
        0 <= i < handed.len() ==> FormationMaker::serves(
            #[trigger] makers[i],
            handed[i],
            makers[i + 1],
        )
}

/// How often the identifier `group` can still be handed out from the state `maker`.
pub open spec fn room_for(maker: FormationMaker, group: u32) -> nat {
    if maker.current_formation is Some && group == maker.group_seq {
        (MAX_FORMATION_MEMBERS - maker.current_formation_members) as nat
    } else if group > maker.group_seq {
        MAX_FORMATION_MEMBERS as nat
    } else {
        0
    }
}

/// Over any run of requests, an identifier is handed out no more often than
/// the generator had room for it at the start of the run.
pub proof fn lemma_history_respects_room(
    makers: Seq<FormationMaker>,
    handed: Seq<Formation>,
    group: u32,
)
    requires
        is_history(makers, handed),
        makers[0].counted(),
    ensures
        makers.last().counted(),
        makers.last().group_seq >= makers[0].group_seq,
        members_of(handed, group) + room_for(makers.last(), group) <= room_for(makers[0], group),
    decreases handed.len(),
{
    if handed.len() > 0 {
        let before = makers.drop_last();
        let earlier = handed.drop_last();
        assert(is_history(before, earlier)) by {
            assert forall|i: int| 0 <= i < earlier.len() implies FormationMaker::serves(
                #[trigger] before[i],
                earlier[i],
                before[i + 1],
            ) by {
                assert(FormationMaker::serves(makers[i], handed[i], makers[i + 1]));
            }
        }
        lemma_history_respects_room(before, earlier, group);
        let n = handed.len() as int;
        assert(before.last() == makers[n - 1]);
        assert(FormationMaker::serves(makers[n - 1], handed[n - 1], makers[n]));
    }
}

} // verus!
