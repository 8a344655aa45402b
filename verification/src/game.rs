//! Session configuration, per-session clock state, input latching, and the
//! game orchestrator.

use vstd::prelude::*;
use crate::enemy::Enemy;
use crate::flare::Flare;
use crate::frame::PolarFrame;
use crate::high_score::HighScore;
use crate::object::{collision, objects_collide, Object, Part, Point};
use crate::player::Player;
use crate::rng::{rand_below, rng_from_seed};
use crate::sun::Sun;
use crate::{ANG_FULL, DT_MAX, RADIAL_MAX_CAP, T_MAX, UNIT, VEL_CAP, WAIT_CAP};

verus! {

/// Immutable configuration of one session: tunnel length, where the player
/// starts, how wide the player is, and whether the play field is a bounded
/// cylindrical corridor.
#[derive(Clone, Copy, PartialEq, Eq, Structural, Debug)]
pub struct GameSetup {
    pub radial_max: i64,
    pub player_start: Point,
    pub player_width: Point,
    pub tunnel_mode: bool,
}

/// The default session configuration: tunnel length 8 units, player starting
/// at radius 4 and angle 0.75 with width (0.02, 0.01), tunnel mode on.
pub open spec fn default_setup() -> GameSetup {
    GameSetup {
        radial_max: 8_000_000,
        player_start: Point { x: 4_000_000, y: 750_000 },
        player_width: Point { x: 20_000, y: 10_000 },
        tunnel_mode: true,
    }
}

impl GameSetup {
    /// A configuration is well-formed when the tunnel has positive bounded
    /// length and the player starts inside it with a positive width of at
    /// most one unit on each axis.
    pub open spec fn wf(self) -> bool {
        &&& 0 < self.radial_max <= RADIAL_MAX_CAP
        &&& 0 <= self.player_start.x <= self.radial_max
        &&& 0 <= self.player_start.y < ANG_FULL
        &&& 0 < self.player_width.x <= UNIT
        &&& 0 < self.player_width.y <= UNIT
    }
}

impl Default for GameSetup {
    /// Returns the default session configuration.
    fn default() -> (s: GameSetup)
        ensures
            s == default_setup(),
            s.wf(),
    {
        GameSetup {
            radial_max: 8_000_000,
            player_start: Point { x: 4_000_000, y: 750_000 },
            player_width: Point { x: 20_000, y: 10_000 },
            tunnel_mode: true,
        }
    }
}

/// Input-derived state for the current tick: the two jump axes (micro-units
/// per millisecond), the level-triggered reset flag, the pause state, and
/// the latch that keeps a held pause key from toggling every tick.
#[derive(Clone, Copy, PartialEq, Eq, Structural, Debug)]
pub struct InputKeys {
    pub jump_angle: i64,
    pub jump_radial: i64,
    pub reset: bool,
    pub pause: bool,
    pub pause_lock: bool,
}

impl InputKeys {
    /// One tick of the pause latch: a fresh press toggles the pause state
    /// and engages the latch; releasing the key disengages it; a held key
    /// changes nothing while the latch is engaged.
    pub open spec fn pause_stepped(self, pressed: bool) -> InputKeys {
        if pressed && !self.pause && !self.pause_lock {
            InputKeys { pause: true, pause_lock: true, ..self }
        } else if !pressed && self.pause && self.pause_lock {
            InputKeys { pause_lock: false, ..self }
        } else if pressed && self.pause && !self.pause_lock {
            InputKeys { pause: false, pause_lock: true, ..self }
        } else if !pressed && !self.pause && self.pause_lock {
            InputKeys { pause_lock: false, ..self }
        } else {
            self
        }
    }
}

impl Default for InputKeys {
    /// Returns the idle input state: no motion, nothing pressed or latched.
    fn default() -> (k: InputKeys)
        ensures
            k == (InputKeys {
                jump_angle: 0,
                jump_radial: 0,
                reset: false,
                pause: false,
                pause_lock: false,
            }),
    {
        InputKeys { jump_angle: 0, jump_radial: 0, reset: false, pause: false, pause_lock: false }
    }
}

/// The input state after the pause key has been held down for `n`
/// consecutive ticks.
pub open spec fn pause_held(k: InputKeys, n: nat) -> InputKeys
    decreases n,
{
    if n == 0 {
        k
    } else {
        pause_held(k, (n - 1) as nat).pause_stepped(true)
    }
}

/// A single press-and-hold of the pause key toggles the pause state exactly
/// once: after any positive number of held ticks starting from a released
/// latch, the pause state is flipped once and the latch stays engaged.
pub proof fn lemma_press_and_hold_toggles_once(k: InputKeys, n: nat)
    requires
        !k.pause_lock,
        n >= 1,
    ensures
        pause_held(k, n).pause == !k.pause,
        pause_held(k, n).pause_lock,
    decreases n,
{
    if n == 1 {
        assert(pause_held(k, 0) == k);
        assert(pause_held(k, 1) == k.pause_stepped(true));
    } else {
        lemma_press_and_hold_toggles_once(k, (n - 1) as nat);
    }
}

/// Aggregate survival state published to callers.
#[derive(Clone, Copy, PartialEq, Eq, Structural, Debug)]
pub struct GameState {
    pub player_death: bool,
    pub survival_time: i64,
}

impl GameState {
    /// Fresh survival state: alive, no time survived.
    pub fn new() -> (s: GameState)
        ensures
            s == (GameState { player_death: false, survival_time: 0 }),
    {
        GameState { player_death: false, survival_time: 0 }
    }
}

/// The per-millisecond spawn probability at elapsed survival time
/// `elapsed_rel` (milliseconds since session start), in micro-units (one
/// million means certainty): the discrete-time rendering of an arrival rate
/// of `10 + elapsed_rel / 1000` flares per second, clamped at certainty.
pub open spec fn spawn_prob(elapsed_rel: int) -> int {
    if 10_000 + elapsed_rel > 1_000_000 {
        1_000_000
    } else {
        10_000 + elapsed_rel
    }
}

/// The number of failed trials before the first draw below `p` in the draw
/// sequence `us`; the length of `us` when no draw succeeds.
pub open spec fn first_success(us: Seq<u64>, p: int) -> int
    decreases us.len(),
{
    if us.len() == 0 {
        0
    } else if us[0] < p {
        0
    } else {
        1 + first_success(us.drop_first(), p)
    }
}

proof fn lemma_first_success_all_fail(us: Seq<u64>, p: int)
    requires
        forall|i: int| 0 <= i < us.len() ==> us[i] >= p,
    ensures
        first_success(us, p) == us.len(),
    decreases us.len(),
{
    if us.len() > 0 {
        lemma_first_success_all_fail(us.drop_first(), p);
    }
}

proof fn lemma_first_success_found(us: Seq<u64>, p: int)
    requires
        us.len() >= 1,
        forall|i: int| 0 <= i < us.len() - 1 ==> us[i] >= p,
        us[us.len() - 1] < p,
    ensures
        first_success(us, p) == us.len() - 1,
    decreases us.len(),
{
    if us.len() > 1 {
        lemma_first_success_found(us.drop_first(), p);
    }
}

/// A waiting time is never negative, and never longer than the sequence of
/// draws that produced it.
pub proof fn lemma_first_success_bounds(us: Seq<u64>, p: int)
    ensures
        0 <= first_success(us, p) <= us.len(),
    decreases us.len(),
{
    if us.len() > 0 && !(us[0] < p) {
        lemma_first_success_bounds(us.drop_first(), p);
    }
}

/// With the same sequence of uniform draws, a higher spawn probability never
/// waits longer for its first success: draw for draw, inter-arrival times
/// shrink as the spawn probability grows.
pub proof fn lemma_first_success_antitone(us: Seq<u64>, p_low: int, p_high: int)
    requires
        p_low <= p_high,
    ensures
        first_success(us, p_high) <= first_success(us, p_low),
    decreases us.len(),
{
    lemma_first_success_bounds(us, p_low);
    if us.len() > 0 && us[0] >= p_high {
        lemma_first_success_antitone(us.drop_first(), p_low, p_high);
    }
}

/// Under the same sequence of uniform draws, the waiting time until the next
/// flare does not grow as the elapsed survival time grows: later in a run,
/// hazards arrive at least as densely.
pub proof fn lemma_spawn_wait_antitone(us: Seq<u64>, e1: int, e2: int)
    requires
        0 <= e1 <= e2,
    ensures
        first_success(us, spawn_prob(e2)) <= first_success(us, spawn_prob(e1)),
{
    lemma_first_success_antitone(us, spawn_prob(e1), spawn_prob(e2));
}

/// Draws a waiting time in milliseconds: the count of independent
/// per-millisecond trials, each succeeding with probability
/// `p_num / 1_000_000`, before the first success — a geometric draw, the
/// discrete-time rendering of an exponential waiting time with rate
/// `p_num / 1_000_000` per millisecond. Capped at `WAIT_CAP` so that the
/// draw always terminates. Returns the waiting time together with the
/// sequence of uniform draws it consumed.
#[verifier::loop_isolation(false)]
pub fn draw_wait(rng: &mut rand::rngs::StdRng, p_num: u64) -> (res: (i64, Ghost<Seq<u64>>))
    requires
        1 <= p_num <= 1_000_000,
    ensures
        0 <= res.0 <= WAIT_CAP,
        res.0 == first_success(res.1@, p_num as int),
{
    let mut t: i64 = 0;
    let ghost mut us: Seq<u64> = Seq::empty();
    while t < WAIT_CAP
        invariant
            0 <= t <= WAIT_CAP,
            us.len() == t,
            forall|i: int| 0 <= i < us.len() ==> us[i] >= p_num,
        decreases WAIT_CAP - t,
    {
        let u = rand_below(rng, 1_000_000);
        proof {
            us = us.push(u);
        }
        if u < p_num {
            proof {
                lemma_first_success_found(us, p_num as int);
            }
            return (t, Ghost(us));
        }
        t = t + 1;
    }
    proof {
        lemma_first_success_all_fail(us, p_num as int);
    }
    (t, Ghost(us))
}

/// Draws the waiting time until the next flare is spawned, at elapsed
/// survival time `elapsed_rel`: a geometric draw at the spawn probability
/// for that time, returned together with the uniform draws it consumed.
/// Under the same draws, the wait shrinks as the run goes on
/// (`lemma_spawn_wait_antitone`).
pub fn draw_til_flare(rng: &mut rand::rngs::StdRng, elapsed_rel: i64) -> (res: (
    i64,
    Ghost<Seq<u64>>,
))
    requires
        0 <= elapsed_rel <= T_MAX,
    ensures
        0 <= res.0 <= WAIT_CAP,
        res.0 == first_success(res.1@, spawn_prob(elapsed_rel as int)),
{
    let p: u64 = if 10_000 + (elapsed_rel as u64) > 1_000_000 {
        1_000_000
    } else {
        10_000 + (elapsed_rel as u64)
    };
    proof {
        assert(p == spawn_prob(elapsed_rel as int));
    }
    draw_wait(rng, p)
}

/// Per-session clock state: the session's start time, the monotonic elapsed
/// simulation time, the time of the last flare spawn, and the sampled
/// waiting time until the next spawn.
#[derive(Clone, Copy, PartialEq, Eq, Structural, Debug)]
pub struct Times {
    pub til_flare: i64,
    pub previous_flare: i64,
    pub start: i64,
    pub elapsed: i64,
}

impl Times {
    /// Clock state is well-formed when the clocks are ordered and bounded
    /// and the waiting time is non-negative.
    pub open spec fn wf(self) -> bool {
        &&& 0 <= self.start <= self.previous_flare <= self.elapsed <= T_MAX
        &&& 0 <= self.til_flare <= WAIT_CAP
    }

    /// Fresh per-session clock state: every clock at `start_time`, with the
    /// first waiting time drawn at a rate of one arrival per second (mean
    /// one second).
    pub fn new(start_time: i64, rng: &mut rand::rngs::StdRng) -> (t: Times)
        requires
            0 <= start_time <= T_MAX,
        ensures
            t.wf(),
            t.start == start_time,
            t.previous_flare == start_time,
            t.elapsed == start_time,
    {
        let (til, _us) = draw_wait(rng, 1_000);
        Times { til_flare: til, previous_flare: start_time, start: start_time, elapsed: start_time }
    }
}

} // verus!

verus! {

/// Camera parameters published each tick for a renderer: a pure function of
/// the player's position.
#[derive(Clone, Copy, PartialEq, Eq, Structural, Debug)]
pub struct ViewDetails {
    pub radial_shift: i64,
    pub rotation_angle: i64,
    pub length_total: i64,
}

/// The camera parameters derived from a player: the view trails the player
/// radially by three quarters of a unit, rotates to a quarter turn past the
/// player's centre line, and extends a quarter unit beyond the player, never
/// less than one unit.
pub open spec fn view_of(p: Player) -> ViewDetails {
    ViewDetails {
        radial_shift: (p.position.x - 750_000) as i64,
        rotation_angle: (p.position.y + 250_000 + p.width.y / 2) as i64,
        length_total: if p.position.x + 250_000 > 1_000_000 {
            (p.position.x + 250_000) as i64
        } else {
            1_000_000
        },
    }
}

/// One tick's already-debounced device state, as plain values: the four
/// directional keys, the pause and reset keys, and the two gamepad axes in
/// micro-units of full deflection.
#[derive(Clone, Copy, PartialEq, Eq, Structural, Debug)]
pub struct ExternalInput {
    pub up: bool,
    pub down: bool,
    pub left: bool,
    pub right: bool,
    pub pause_key: bool,
    pub reset_key: bool,
    pub joy_x: i64,
    pub joy_y: i64,
}

/// Halves a bounded value, rounding toward the smaller number (the Euclidean
/// quotient by two).
pub fn half_floor(v: i64) -> (h: i64)
    requires
        -1_000_000 <= v <= 1_000_000,
    ensures
        h == v as int / 2,
{
    if v >= 0 {
        let h: u64 = (v as u64) / 2;
        h as i64
    } else {
        let n: u64 = (-v) as u64;
        let h: u64 = (n + 1) / 2;
        proof {
            vstd::arithmetic::div_mod::lemma_fundamental_div_mod((n + 1) as int, 2);
            vstd::arithmetic::div_mod::lemma_fundamental_div_mod_converse(
                v as int,
                2,
                -((n + 1) as int / 2),
                if n % 2 == 0 { 0int } else { 1int },
            );
        }
        -(h as i64)
    }
}

/// A gamepad axis deflection (micro-units, full deflection one million)
/// scaled to a jump speed of at most 0.3 units per second, rounding toward
/// zero.
pub open spec fn axis_scaled(a: int) -> int {
    if a >= 0 {
        3 * a / 10_000
    } else {
        -(3 * -a / 10_000)
    }
}

/// Scales a gamepad axis deflection to a jump speed.
pub fn scale_axis(a: i64) -> (r: i64)
    requires
        -1_000_000 <= a <= 1_000_000,
    ensures
        r == axis_scaled(a as int),
        -300 <= r <= 300,
{
    if a >= 0 {
        let m: u64 = 3 * (a as u64);
        let q: u64 = m / 10_000;
        proof {
            assert(3 * a as int / 10_000 <= 300) by (nonlinear_arith)
                requires
                    0 <= a <= 1_000_000,
            ;
            assert(3 * a as int / 10_000 >= 0) by (nonlinear_arith)
                requires
                    0 <= a,
            ;
        }
        q as i64
    } else {
        let m: u64 = 3 * ((-a) as u64);
        let q: u64 = m / 10_000;
        proof {
            assert(3 * (-a as int) / 10_000 <= 300) by (nonlinear_arith)
                requires
                    0 <= -a as int <= 1_000_000,
            ;
            assert(3 * (-a as int) / 10_000 >= 0) by (nonlinear_arith)
                requires
                    0 <= -a as int,
            ;
        }
        -(q as i64)
    }
}

/// The keyboard's contribution to an axis: plus one for the positive key,
/// minus one for the negative key.
pub open spec fn kbd_axis(pos_key: bool, neg_key: bool) -> int {
    (if pos_key {
        1int
    } else {
        0int
    }) - (if neg_key {
        1int
    } else {
        0int
    })
}

/// The input state after one tick of device polling: each jump axis follows
/// the gamepad when it is deflected past a tenth, else the keyboard keys at
/// 0.3 units per second; the pause latch advances by one tick; the reset
/// flag follows its key level.
pub open spec fn keys_updated(k: InputKeys, inp: ExternalInput) -> InputKeys {
    let jr = if inp.joy_y > 100_000 || inp.joy_y < -100_000 {
        axis_scaled(inp.joy_y as int)
    } else {
        300 * kbd_axis(inp.up, inp.down)
    };
    let ja = if inp.joy_x > 100_000 || inp.joy_x < -100_000 {
        axis_scaled(inp.joy_x as int)
    } else {
        300 * kbd_axis(inp.right, inp.left)
    };
    let latched = k.pause_stepped(inp.pause_key);
    InputKeys {
        jump_radial: jr as i64,
        jump_angle: ja as i64,
        reset: inp.reset_key,
        pause: latched.pause,
        pause_lock: latched.pause_lock,
    }
}

/// The input-derived motion for one tick: the radial axis moves at
/// `jump_radial`, the angular axis at half of `jump_angle`.
pub open spec fn shift_of(k: InputKeys) -> Point {
    Point { x: k.jump_radial, y: (k.jump_angle as int / 2) as i64 }
}

/// The flare's radial position lies inside the closed band
/// `[bound.x, bound.y]`.
pub open spec fn in_band(f: Flare, bound: Point) -> bool {
    bound.x <= f.position.x <= bound.y
}

/// The subsequence of `s` whose flares lie inside the band, in order: what
/// survives the end-of-tick cull.
pub open spec fn culled(s: Seq<Flare>, bound: Point) -> Seq<Flare>
    decreases s.len(),
{
    if s.len() == 0 {
        Seq::empty()
    } else {
        let rest = culled(s.drop_last(), bound);
        if in_band(s.last(), bound) {
            rest.push(s.last())
        } else {
            rest
        }
    }
}

/// A flare survives the cull exactly when it was active and its radial
/// position lay inside the band: culling removes a flare if and only if it
/// has left `[bound.x, bound.y]`.
pub proof fn lemma_culled_membership(s: Seq<Flare>, bound: Point, f: Flare)
    ensures
        culled(s, bound).contains(f) <==> (s.contains(f) && in_band(f, bound)),
    decreases s.len(),
{
    if s.len() > 0 {
        let init = s.drop_last();
        let l = s.last();
        lemma_culled_membership(init, bound, f);
        let c = culled(s, bound);
        let ci = culled(init, bound);
        if c.contains(f) {
            let i = choose|i: int| 0 <= i < c.len() && c[i] == f;
            if in_band(l, bound) {
                if i < ci.len() {
                    assert(ci[i] == f);
                    assert(ci.contains(f));
                } else {
                    assert(f == l);
                    assert(s[s.len() - 1] == f);
                    assert(s.contains(f));
                }
            } else {
                assert(ci[i] == f);
                assert(ci.contains(f));
            }
            if ci.contains(f) {
                let j = choose|j: int| 0 <= j < init.len() && init[j] == f;
                assert(s[j] == f);
                assert(s.contains(f));
            }
        }
        if s.contains(f) && in_band(f, bound) {
            let i = choose|i: int| 0 <= i < s.len() && s[i] == f;
            if i < s.len() - 1 {
                assert(init[i] == f);
                assert(init.contains(f));
                let j = choose|j: int| 0 <= j < ci.len() && ci[j] == f;
                assert(c[j] == f);
                assert(c.contains(f));
            } else {
                assert(f == l);
                assert(c[c.len() - 1] == f);
                assert(c.contains(f));
            }
        }
    }
}

/// Culling never keeps more flares than it was given, and any property that
/// held of every flare before the cull holds of every flare after it; every
/// survivor lies inside the band.
pub proof fn lemma_culled_all(s: Seq<Flare>, bound: Point, p: spec_fn(Flare) -> bool)
    requires
        forall|i: int| 0 <= i < s.len() ==> p(#[trigger] s[i]),
    ensures
        culled(s, bound).len() <= s.len(),
        forall|i: int|
            0 <= i < culled(s, bound).len() ==> p(#[trigger] culled(s, bound)[i]) && in_band(
                culled(s, bound)[i],
                bound,
            ),
    decreases s.len(),
{
    if s.len() > 0 {
        assert(forall|i: int| 0 <= i < s.drop_last().len() ==> p(#[trigger] s.drop_last()[i]));
        lemma_culled_all(s.drop_last(), bound, p);
    }
}

} // verus!

verus! {

/// The game orchestrator: owns the player, the hazards, the static
/// geometry, the clocks, the score and the session's random stream, and
/// advances them once per logic tick.
pub struct PolarGame {
    pub player: Player,
    pub flares: Vec<Flare>,
    pub sun: Sun,
    pub input_keys: InputKeys,
    pub frame: PolarFrame,
    pub setup: GameSetup,
    pub time: Times,
    pub state: GameState,
    pub view_details: ViewDetails,
    pub high_score: HighScore,
    pub rng: rand::rngs::StdRng,
}

impl PolarGame {
    /// The flare-culling band for this session: a flare whose radial
    /// position leaves `[-1, radial_max + 2]` units is culled.
    pub open spec fn cull_bound(self) -> Point {
        Point { x: (-UNIT) as i64, y: (self.setup.radial_max + 2 * UNIT) as i64 }
    }

    /// An active flare is well-formed, has a positive bounded velocity, and
    /// sits inside the culling band.
    pub open spec fn flare_ok(self, f: Flare) -> bool {
        &&& f.obj_wf()
        &&& 0 < f.velocity <= VEL_CAP
        &&& in_band(f, self.cull_bound())
    }

    /// The orchestrator's invariant: configuration, player, hazards, clocks
    /// and score are all well-formed and mutually consistent. Established by
    /// `new` and preserved by every tick.
    pub open spec fn wf(self) -> bool {
        &&& self.setup.wf()
        &&& self.player.obj_wf()
        &&& self.player.position.x <= self.setup.radial_max
        &&& self.player.width == self.setup.player_width
        &&& self.sun.obj_wf()
        &&& self.frame.wf()
        &&& self.time.wf()
        &&& self.high_score.wf()
        &&& self.high_score.current_score <= self.time.elapsed - self.time.start
        &&& forall|i: int| 0 <= i < self.flares@.len() ==> self.flare_ok(#[trigger] self.flares@[i])
        &&& -VEL_CAP <= self.input_keys.jump_radial <= VEL_CAP
        &&& -VEL_CAP <= self.input_keys.jump_angle <= VEL_CAP
    }

    /// The player after this tick's input-derived motion.
    pub open spec fn moved_player(self, dt: int) -> Player {
        self.player.stepped(shift_of(self.input_keys), dt, self.setup)
    }

    /// The active flares after this tick's motion, in order.
    pub open spec fn moved_flares(self, dt: int) -> Seq<Flare> {
        self.flares@.map_values(|f: Flare| f.stepped(dt))
    }

    /// Flare `j`, after this tick's motion, overlaps the moved player.
    pub open spec fn flare_hit(self, dt: int, j: int) -> bool {
        objects_collide(self.moved_flares(dt)[j].parts_view(), self.moved_player(dt).parts_view())
    }

    /// Some flare among the first `k`, after this tick's motion, overlaps
    /// the moved player.
    pub open spec fn flare_hits_upto(self, dt: int, k: int) -> bool {
        exists|j: int| 0 <= j < k && #[trigger] self.flare_hit(dt, j)
    }

    /// Some moved flare overlaps the moved player this tick.
    pub open spec fn flare_hits(self, dt: int) -> bool {
        self.flare_hits_upto(dt, self.flares@.len() as int)
    }

    /// The sun overlaps the moved player this tick.
    pub open spec fn sun_hit(self, dt: int) -> bool {
        objects_collide(self.sun.parts_view(), self.moved_player(dt).parts_view())
    }

    /// The flares that survive this tick: everything still inside the
    /// culling band after moving, in order.
    pub open spec fn kept_flares(self, dt: int) -> Seq<Flare> {
        culled(self.moved_flares(dt), self.cull_bound())
    }

    /// The spawn clock fires this tick: the time since the last spawn
    /// exceeds the sampled waiting time.
    pub open spec fn spawn_due(self, dt: int) -> bool {
        self.time.elapsed + dt - self.time.previous_flare > self.time.til_flare
    }

    /// A new session from the given configuration, the persisted record
    /// handed in by the caller, and a seed for the session's random stream.
    pub fn new(setup: GameSetup, record: i64, seed: u64) -> (g: PolarGame)
        requires
            setup.wf(),
            0 <= record <= T_MAX,
        ensures
            g.wf(),
            g.setup == setup,
            g.player == (Player {
                position: setup.player_start,
                width: setup.player_width,
                destroyed: false,
            }),
            g.flares@ =~= Seq::<Flare>::empty(),
            g.sun == (Sun { radius: UNIT }),
            g.input_keys == (InputKeys {
                jump_angle: 0,
                jump_radial: 0,
                reset: false,
                pause: false,
                pause_lock: false,
            }),
            g.frame == (PolarFrame {
                wall_thickness: 500_000,
                margin: 50_000,
                corner_size: Point { x: 10_000, y: 20_000 },
                radial_max: setup.radial_max,
            }),
            g.time.start == 0 && g.time.elapsed == 0 && g.time.previous_flare == 0,
            0 <= g.time.til_flare <= WAIT_CAP,
            g.state == (GameState { player_death: false, survival_time: 0 }),
            g.high_score == (HighScore { current_score: 0, record: record }),
            g.view_details == (ViewDetails { radial_shift: 0, rotation_angle: 0, length_total: 0 }),
    {
        let mut rng = rng_from_seed(seed);
        let time = Times::new(0, &mut rng);
        PolarGame {
            player: Player::new(setup.player_start, setup.player_width),
            flares: Vec::new(),
            sun: Sun::new(UNIT),
            input_keys: InputKeys::default(),
            frame: PolarFrame::new(500_000, 50_000, Point { x: 10_000, y: 20_000 }, setup.radial_max),
            setup: setup,
            time: time,
            state: GameState::new(),
            view_details: ViewDetails { radial_shift: 0, rotation_angle: 0, length_total: 0 },
            high_score: HighScore::new(record),
            rng: rng,
        }
    }

    /// Starts the session over: the player returns to its starting state,
    /// the current score clears while the record survives, the clocks
    /// restart, a fresh waiting time is drawn and the active flares vanish.
    /// Configuration, sun, frame, input, camera and published state stay as
    /// they were.
    pub fn reset(&mut self)
        requires
            old(self).wf(),
        ensures
            final(self).wf(),
            final(self).player == (Player {
                position: old(self).setup.player_start,
                width: old(self).setup.player_width,
                destroyed: false,
            }),
            final(self).high_score == (HighScore {
                current_score: 0,
                record: old(self).high_score.record,
            }),
            final(self).time.start == 0,
            final(self).time.elapsed == 0,
            final(self).time.previous_flare == 0,
            0 <= final(self).time.til_flare <= WAIT_CAP,
            final(self).flares@ =~= Seq::<Flare>::empty(),
            final(self).setup == old(self).setup,
            final(self).sun == old(self).sun,
            final(self).frame == old(self).frame,
            final(self).input_keys == old(self).input_keys,
            final(self).state == old(self).state,
            final(self).view_details == old(self).view_details,
    {
        self.player = Player::new(self.setup.player_start, self.setup.player_width);
        self.high_score.reset();
        self.time = Times::new(0, &mut self.rng);
        self.flares = Vec::new();
    }

    /// Begins a session: restarts the clocks and clears the current score.
    /// Unlike `reset`, the player and the active flares are left alone.
    pub fn init(&mut self)
        requires
            old(self).wf(),
        ensures
            final(self).wf(),
            final(self).time.start == 0,
            final(self).time.elapsed == 0,
            final(self).time.previous_flare == 0,
            0 <= final(self).time.til_flare <= WAIT_CAP,
            final(self).high_score == (HighScore {
                current_score: 0,
                record: old(self).high_score.record,
            }),
            final(self).player == old(self).player,
            final(self).flares@ == old(self).flares@,
            final(self).setup == old(self).setup,
            final(self).sun == old(self).sun,
            final(self).frame == old(self).frame,
            final(self).input_keys == old(self).input_keys,
            final(self).state == old(self).state,
            final(self).view_details == old(self).view_details,
    {
        self.time = Times::new(0, &mut self.rng);
        self.high_score.reset();
    }

    /// Recomputes the published camera parameters from the player position.
    pub fn update_view_details(&mut self)
        requires
            old(self).player.obj_wf(),
        ensures
            *final(self) == (PolarGame { view_details: view_of(old(self).player), ..*old(self) }),
    {
        let half_w: i64 = half_floor(self.player.width.y);
        let x: i64 = self.player.position.x;
        let rot: i64 = self.player.position.y + 250_000 + half_w;
        let lt: i64 = if x + 250_000 > 1_000_000 {
            x + 250_000
        } else {
            1_000_000
        };
        self.view_details = ViewDetails {
            radial_shift: x - 750_000,
            rotation_angle: rot,
            length_total: lt,
        };
    }

    /// Returns the current camera parameters.
    pub fn get_view(&self) -> (v: ViewDetails)
        ensures
            v == self.view_details,
    {
        self.view_details
    }

    /// Folds one tick of device state into the input keys: each jump axis
    /// follows the gamepad past a tenth of deflection, else the keyboard;
    /// the pause latch advances one tick; the reset flag follows its key.
    /// Nothing else changes.
    pub fn update_input(&mut self, inp: ExternalInput)
        requires
            -UNIT <= inp.joy_x <= UNIT,
            -UNIT <= inp.joy_y <= UNIT,
        ensures
            *final(self) == (PolarGame {
                input_keys: keys_updated(old(self).input_keys, inp),
                ..*old(self)
            }),
            old(self).wf() ==> final(self).wf(),
    {
        let jr: i64 = if inp.joy_y > 100_000 || inp.joy_y < -100_000 {
            scale_axis(inp.joy_y)
        } else {
            let up: i64 = if inp.up {
                1
            } else {
                0
            };
            let down: i64 = if inp.down {
                1
            } else {
                0
            };
            300 * (up - down)
        };
        let ja: i64 = if inp.joy_x > 100_000 || inp.joy_x < -100_000 {
            scale_axis(inp.joy_x)
        } else {
            let right: i64 = if inp.right {
                1
            } else {
                0
            };
            let left: i64 = if inp.left {
                1
            } else {
                0
            };
            300 * (right - left)
        };
        let p = inp.pause_key;
        let pause = self.input_keys.pause;
        let lock = self.input_keys.pause_lock;
        if p && !pause && !lock {
            self.input_keys.pause = true;
            self.input_keys.pause_lock = true;
        } else if !p && pause && lock {
            self.input_keys.pause_lock = false;
        } else if p && pause && !lock {
            self.input_keys.pause = false;
            self.input_keys.pause_lock = true;
        } else if !p && !pause && lock {
            self.input_keys.pause_lock = false;
        }
        self.input_keys.jump_radial = jr;
        self.input_keys.jump_angle = ja;
        self.input_keys.reset = inp.reset_key;
    }
}

} // verus!

verus! {

/// Extending the scanned prefix by one flare adds exactly that flare's own
/// overlap test to the "some flare hit the player" disjunction.
proof fn lemma_hits_extend(g: PolarGame, dt: int, k: int)
    requires
        0 <= k,
    ensures
        g.flare_hits_upto(dt, k + 1) == (g.flare_hits_upto(dt, k) || g.flare_hit(dt, k)),
{
    if g.flare_hits_upto(dt, k + 1) {
        let j = choose|j: int| 0 <= j < k + 1 && #[trigger] g.flare_hit(dt, j);
        if j < k {
            assert(g.flare_hits_upto(dt, k));
        }
    }
    if g.flare_hits_upto(dt, k) {
        let j = choose|j: int| 0 <= j < k && #[trigger] g.flare_hit(dt, j);
        assert(0 <= j < k + 1 && g.flare_hit(dt, j));
    }
    if g.flare_hit(dt, k) {
        assert(0 <= k < k + 1 && g.flare_hit(dt, k));
    }
}

impl PolarGame {
    /// Advances the simulation by one tick of `t_step` milliseconds, in
    /// order: a requested reset — honoured from the paused state too —
    /// starts the session over and returns the game to running; otherwise a
    /// paused game does nothing; otherwise the clock advances, the player
    /// moves by the input-derived shift, every flare drifts and is tested
    /// against the player, the sun is tested against the player, flares
    /// outside the culling band are removed, the spawn clock may inject one
    /// new flare and redraw its waiting time, the score accrues while the
    /// player is alive, and the camera parameters are recomputed.
    #[verifier::loop_isolation(false)]
    pub fn update_logic(&mut self, t_step: i64)
        requires
            old(self).wf(),
            0 <= t_step <= DT_MAX,
            old(self).time.elapsed + t_step <= T_MAX,
        ensures
            final(self).wf(),
            final(self).setup == old(self).setup,
            final(self).sun == old(self).sun,
            final(self).frame == old(self).frame,
            final(self).state == old(self).state,
            old(self).input_keys.reset ==> ({
                &&& final(self).player == (Player {
                    position: old(self).setup.player_start,
                    width: old(self).setup.player_width,
                    destroyed: false,
                })
                &&& final(self).flares@ =~= Seq::<Flare>::empty()
                &&& final(self).high_score == (HighScore {
                    current_score: 0,
                    record: old(self).high_score.record,
                })
                &&& final(self).time.start == 0
                &&& final(self).time.elapsed == 0
                &&& final(self).time.previous_flare == 0
                &&& final(self).view_details == old(self).view_details
                &&& final(self).input_keys == (InputKeys {
                    pause: false,
                    ..old(self).input_keys
                })
            }),
            !old(self).input_keys.reset && old(self).input_keys.pause ==> *final(self) == *old(
                self,
            ),
            !old(self).input_keys.pause && !old(self).input_keys.reset ==> ({
                let g0 = *old(self);
                let dt = t_step as int;
                &&& final(self).time.elapsed == g0.time.elapsed + t_step
                &&& final(self).time.start == g0.time.start
                &&& final(self).player.position == g0.moved_player(dt).position
                &&& final(self).player.width == g0.player.width
                &&& final(self).player.destroyed == (g0.player.destroyed || g0.flare_hits(dt)
                    || g0.sun_hit(dt))
                &&& (g0.spawn_due(dt) ==> {
                    &&& final(self).flares@.len() == g0.kept_flares(dt).len() + 1
                    &&& final(self).flares@.subrange(0, g0.kept_flares(dt).len() as int)
                        =~= g0.kept_flares(dt)
                    &&& final(self).flares@.last().position.x == 0
                    &&& 0 <= final(self).flares@.last().position.y < ANG_FULL
                    &&& 20_000 <= final(self).flares@.last().size.x < 70_000
                    &&& 5_000 <= final(self).flares@.last().size.y < 25_000
                    &&& 100 <= final(self).flares@.last().velocity < 600
                    &&& final(self).time.previous_flare == g0.time.elapsed + t_step
                })
                &&& (!g0.spawn_due(dt) ==> {
                    &&& final(self).flares@ =~= g0.kept_flares(dt)
                    &&& final(self).time.previous_flare == g0.time.previous_flare
                    &&& final(self).time.til_flare == g0.time.til_flare
                })
                &&& final(self).high_score.current_score == g0.high_score.current_score + (
                if final(self).player.destroyed {
                    0int
                } else {
                    t_step as int
                })
                &&& final(self).high_score.record == (
                if final(self).high_score.current_score > g0.high_score.record {
                    final(self).high_score.current_score as int
                } else {
                    g0.high_score.record as int
                })
                &&& final(self).view_details == view_of(final(self).player)
                &&& final(self).input_keys == old(self).input_keys
            }),
    {
        if self.input_keys.reset {
            self.reset();
            self.input_keys.pause = false;
            return ;
        }
        if self.input_keys.pause {
            return ;
        }
        let ghost g0 = *self;
        let ghost dt = t_step as int;
        let shift = Point {
            x: self.input_keys.jump_radial,
            y: half_floor(self.input_keys.jump_angle),
        };
        proof {
            assert(shift == shift_of(g0.input_keys));
            assert(-VEL_CAP <= shift.y <= VEL_CAP);
        }
        self.time.elapsed = self.time.elapsed + t_step;
        self.player.update_position(shift, t_step, self.setup);
        proof {
            assert(self.player == g0.moved_player(dt));
            assert(self.player.obj_wf());
        }
        let ghost mp = self.player;

        // Advance every flare and test it against the player.
        let n = self.flares.len();
        let mut moved: Vec<Flare> = Vec::new();
        let mut i: usize = 0;
        while i < n
            invariant
                i <= n,
                moved@.len() == i,
                self.flares@ == g0.flares@,
                self.sun == g0.sun,
                self.setup == g0.setup,
                self.frame == g0.frame,
                self.input_keys == g0.input_keys,
                self.state == g0.state,
                self.high_score == g0.high_score,
                self.view_details == g0.view_details,
                self.time.elapsed == g0.time.elapsed + t_step,
                self.time.start == g0.time.start,
                self.time.previous_flare == g0.time.previous_flare,
                self.time.til_flare == g0.time.til_flare,
                self.player.position == mp.position,
                self.player.width == mp.width,
                self.player.destroyed == (g0.player.destroyed || g0.flare_hits_upto(dt, i as int)),
                forall|j: int| 0 <= j < i ==> moved@[j] == g0.moved_flares(dt)[j],
                forall|j: int|
                    0 <= j < i ==> (#[trigger] moved@[j]).obj_wf() && 0 < moved@[j].velocity
                        <= VEL_CAP,
            decreases n - i,
        {
            let mut f = self.flares[i];
            proof {
                assert(g0.flare_ok(g0.flares@[i as int]));
                assert(f.can_step(dt));
                assert(0 <= f.velocity * dt <= 10_000_000_000) by (nonlinear_arith)
                    requires
                        0 <= f.velocity <= VEL_CAP,
                        0 <= dt <= DT_MAX,
                ;
            }
            f.update_position(t_step, &self.player);
            proof {
                assert(f == g0.moved_flares(dt)[i as int]);
                assert(f.obj_wf());
                assert(self.player.player_part() == mp.player_part());
                assert(self.player.parts_view() =~= mp.parts_view());
            }
            let hit = collision(&f, &self.player);
            proof {
                assert(hit == g0.flare_hit(dt, i as int));
                lemma_hits_extend(g0, dt, i as int);
            }
            if hit {
                self.player.collide();
            }
            moved.push(f);
            i = i + 1;
        }
        proof {
            assert(moved@ =~= g0.moved_flares(dt));
            assert(g0.flare_hits_upto(dt, n as int) == g0.flare_hits(dt));
        }
        self.flares = moved;

        // Test the sun against the player.
        proof {
            assert(self.player.player_part() == mp.player_part());
            assert(self.player.parts_view() =~= mp.parts_view());
        }
        let sun_c = collision(&self.sun, &self.player);
        proof {
            assert(sun_c == g0.sun_hit(dt));
        }
        if sun_c {
            self.player.collide();
        }

        // Cull the flares that left the valid radial band.
        let bound = Point { x: -UNIT, y: self.setup.radial_max + 2 * UNIT };
        proof {
            assert(bound == g0.cull_bound());
        }
        let mut kept: Vec<Flare> = Vec::new();
        let mut k: usize = 0;
        while k < n
            invariant
                k <= n,
                n == self.flares@.len(),
                self.flares@ == g0.moved_flares(dt),
                kept@ == culled(g0.moved_flares(dt).take(k as int), bound),
            decreases n - k,
        {
            let f = self.flares[k];
            let term = f.terminate_flag(bound);
            proof {
                let mf = g0.moved_flares(dt);
                assert(mf.take(k as int + 1).drop_last() =~= mf.take(k as int));
                assert(mf.take(k as int + 1).last() == f);
                assert(!term == in_band(f, bound));
            }
            if !term {
                kept.push(f);
            }
            k = k + 1;
        }
        proof {
            assert(g0.moved_flares(dt).take(n as int) =~= g0.moved_flares(dt));
            assert(kept@ == g0.kept_flares(dt));
            lemma_culled_all(
                g0.moved_flares(dt),
                bound,
                |f: Flare| f.obj_wf() && 0 < f.velocity <= VEL_CAP,
            );
        }
        self.flares = kept;

        // Spawn a new flare once the waiting time has run out.
        if self.time.elapsed - self.time.previous_flare > self.time.til_flare {
            let sa64 = rand_below(&mut self.rng, 1_000_000);
            let u_r = rand_below(&mut self.rng, 1_000_000);
            let u_a = rand_below(&mut self.rng, 1_000_000);
            let u_v = rand_below(&mut self.rng, 1_000_000);
            proof {
                vstd::arithmetic::div_mod::lemma_fundamental_div_mod(u_r as int, 20);
                vstd::arithmetic::div_mod::lemma_fundamental_div_mod(u_a as int, 50);
                vstd::arithmetic::div_mod::lemma_fundamental_div_mod(u_v as int, 2_000);
            }
            let r_size: i64 = (u_r / 20 + 20_000) as i64;
            let a_size: i64 = (u_a / 50 + 5_000) as i64;
            let vel: i64 = (u_v / 2_000 + 100) as i64;
            let new_flare = Flare::new(Point { x: r_size, y: a_size }, sa64 as i64, vel);
            let ghost before_push = self.flares@;
            self.flares.push(new_flare);
            proof {
                assert(self.flares@.subrange(0, before_push.len() as int) =~= before_push);
            }
            self.time.previous_flare = self.time.elapsed;
            let elapsed_rel: i64 = self.time.elapsed - self.time.start;
            let (til, _draws) = draw_til_flare(&mut self.rng, elapsed_rel);
            self.time.til_flare = til;
        }

        // Accrue score while the player is alive.
        if !self.player.destroyed {
            self.high_score.update(t_step);
        }

        self.update_view_details();
    }
}

} // verus!

verus! {

impl PolarGame {
    /// Emits everything to draw this tick: the frame's walls, then the
    /// player, then every active flare, then the sun.
    #[verifier::loop_isolation(false)]
    pub fn get_render_parts(&self) -> (v: Vec<Part>)
        requires
            self.wf(),
        ensures
            v@ =~= self.frame.parts_view() + self.player.parts_view() + self.flares@.map_values(
                |f: Flare| f.flare_part(),
            ) + seq![self.sun.sun_part()],
    {
        let mut v: Vec<Part> = Vec::new();
        let mut fr = self.frame.get_render_parts();
        v.append(&mut fr);
        let mut pl = self.player.get_render_parts();
        v.append(&mut pl);
        let n = self.flares.len();
        let mut i: usize = 0;
        while i < n
            invariant
                i <= n,
                v@ == self.frame.parts_view() + self.player.parts_view() + self.flares@.take(
                    i as int,
                ).map_values(|f: Flare| f.flare_part()),
            decreases n - i,
        {
            let f = self.flares[i];
            let ps = f.get_render_parts();
            let part = ps[0];
            v.push(part);
            proof {
                assert(self.flares@.take(i as int + 1).map_values(|f: Flare| f.flare_part())
                    =~= self.flares@.take(i as int).map_values(|f: Flare| f.flare_part()).push(
                    f.flare_part(),
                ));
            }
            i = i + 1;
        }
        let mut su = self.sun.get_render_parts();
        v.append(&mut su);
        proof {
            assert(self.flares@.take(n as int) =~= self.flares@);
        }
        v
    }

    /// The active flares, in spawn order.
    pub fn get_flares(&self) -> (fs: &Vec<Flare>)
        ensures
            fs@ == self.flares@,
    {
        &self.flares
    }

    /// The player.
    pub fn get_player(&self) -> (p: &Player)
        ensures
            *p == self.player,
    {
        &self.player
    }

    /// The session clocks.
    pub fn get_time(&self) -> (t: Times)
        ensures
            t == self.time,
    {
        self.time
    }

    /// The survival score and record.
    pub fn get_high_score(&self) -> (h: HighScore)
        ensures
            h == self.high_score,
    {
        self.high_score
    }
}

} // verus!
