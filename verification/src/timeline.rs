//! The beat clock and the rule table that maps elapsed time to overlays.

use vstd::prelude::*;

verus! {

/// Beat period of the soundtrack the stock timeline is cut to, in milliseconds.
pub const DEMO_BEAT_PERIOD_MS: u64 = 469;

/// How many beats a camera preset stays active in the stock timeline.
pub const DEMO_BEATS_PER_CAMERA: u64 = 32;

/// Number of message frames in the overlay catalogue.
pub const MESSAGE_FRAMES: u8 = 12;

/// Number of greeting frames in the overlay catalogue.
pub const GREET_FRAMES: u8 = 15;

/// Number of refrain frames in the overlay catalogue.
pub const REFRAIN_FRAMES: u8 = 4;

/// Number of credits frames in the overlay catalogue.
pub const CREDITS_FRAMES: u8 = 7;

/// Total number of overlay textures in the catalogue.
pub const OVERLAY_SLOTS: usize = 39;

/// Whole milliseconds contained in `t_us` microseconds.
pub open spec fn millis_of(t_us: u64) -> int {
    t_us as int / 1000
}

/// A pulse that recurs every `every_ms` milliseconds and stays open for the
/// first `decay_ms` milliseconds (inclusive) of each recurrence. A pulse with
/// no period is never open.
pub open spec fn pulse_open(t_ms: int, every_ms: int, decay_ms: int) -> bool {
    every_ms > 0 && t_ms % every_ms <= decay_ms
}

/// Executable form of [`pulse_open`].
pub fn pulse(t_ms: u64, every_ms: u64, decay_ms: u64) -> (open: bool)
    ensures
        open == pulse_open(t_ms as int, every_ms as int, decay_ms as int),
{
    every_ms > 0 && t_ms % every_ms <= decay_ms
}

/// One texture of the overlay catalogue.
#[derive(Clone, Copy, Debug, PartialEq, Eq, Structural)]
pub enum OverlayTexture {
    Logo,
    Message(u8),
    Greet(u8),
    Refrain(u8),
    Credits(u8),
}

impl OverlayTexture {
    /// The texture names a frame that the catalogue holds.
    pub open spec fn in_catalogue(self) -> bool {
        match self {
            OverlayTexture::Logo => true,
            OverlayTexture::Message(k) => k < MESSAGE_FRAMES,
            OverlayTexture::Greet(k) => k < GREET_FRAMES,
            OverlayTexture::Refrain(k) => k < REFRAIN_FRAMES,
            OverlayTexture::Credits(k) => k < CREDITS_FRAMES,
        }
    }

    /// Position of the texture in a dense table of the whole catalogue:
    /// the logo, then the message, greeting, refrain and credits frames.
    pub open spec fn slot_of(self) -> int {
        match self {
            OverlayTexture::Logo => 0,
            OverlayTexture::Message(k) => 1 + k,
            OverlayTexture::Greet(k) => 1 + MESSAGE_FRAMES + k,
            OverlayTexture::Refrain(k) => 1 + MESSAGE_FRAMES + GREET_FRAMES + k,
            OverlayTexture::Credits(k) => 1 + MESSAGE_FRAMES + GREET_FRAMES + REFRAIN_FRAMES + k,
        }
    }

    /// Executable form of [`Self::in_catalogue`].
    pub fn is_in_catalogue(&self) -> (held: bool)
        ensures
            held == self.in_catalogue(),
    {
        match *self {
            OverlayTexture::Logo => true,
            OverlayTexture::Message(k) => k < MESSAGE_FRAMES,
            OverlayTexture::Greet(k) => k < GREET_FRAMES,
            OverlayTexture::Refrain(k) => k < REFRAIN_FRAMES,
            OverlayTexture::Credits(k) => k < CREDITS_FRAMES,
        }
    }

    /// Dense table index of a catalogued texture, `None` for a frame number
    /// the catalogue does not hold.
    pub fn slot(&self) -> (slot: Option<usize>)
        ensures
            slot.is_some() == self.in_catalogue(),
            slot matches Some(s) ==> s == self.slot_of() && s < OVERLAY_SLOTS,
    {
        if !self.is_in_catalogue() {
            return None;
        }
        let s: usize = match *self {
            OverlayTexture::Logo => 0,
            OverlayTexture::Message(k) => 1 + k as usize,
            OverlayTexture::Greet(k) => 13 + k as usize,
            OverlayTexture::Refrain(k) => 28 + k as usize,
            OverlayTexture::Credits(k) => 32 + k as usize,
        };
        Some(s)
    }

    /// The catalogued texture stored at `slot`, `None` past the end.
    pub fn from_slot(slot: usize) -> (texture: Option<OverlayTexture>)
        ensures
            texture.is_some() == (slot < OVERLAY_SLOTS),
            texture matches Some(t) ==> t.in_catalogue() && t.slot_of() == slot,
    {
        if slot == 0 {
            Some(OverlayTexture::Logo)
        } else if slot < 13 {
            Some(OverlayTexture::Message((slot - 1) as u8))
        } else if slot < 28 {
            Some(OverlayTexture::Greet((slot - 13) as u8))
        } else if slot < 32 {
            Some(OverlayTexture::Refrain((slot - 28) as u8))
        } else if slot < 39 {
            Some(OverlayTexture::Credits((slot - 32) as u8))
        } else {
            None
        }
    }
}

/// Two catalogued textures share a slot only if they are the same texture.
pub proof fn lemma_slots_are_distinct(a: OverlayTexture, b: OverlayTexture)
    requires
        a.in_catalogue(),
        b.in_catalogue(),
        a.slot_of() == b.slot_of(),
    ensures
        a == b,
{
}


/// The tempo of the soundtrack: how long one beat lasts.
#[derive(Clone, Copy, Debug)]
pub struct Tempo {
    beat_period_ms: u64,
}

impl Tempo {
    /// A beat takes time.
    #[verifier::type_invariant]
    spec fn positive(self) -> bool {
        self.beat_period_ms > 0
    }

    /// Length of one beat in milliseconds; never zero.
    pub closed spec fn period(self) -> int {
        self.beat_period_ms as int
    }

    /// Index of the beat that is running at `t_us`: `floor(t_ms / period)`.
    pub open spec fn beat_index_at(self, t_us: u64) -> int {
        millis_of(t_us) / self.period()
    }

    /// Index counted in double-length beats: `floor(t_ms / (2 * period))`.
    pub open spec fn beat_index_2x_at(self, t_us: u64) -> int {
        millis_of(t_us) / (2 * self.period())
    }

    /// The per-beat flash: open during the first `decay_ms` milliseconds of
    /// every beat.
    pub open spec fn beat_flash_at(self, t_us: u64, decay_ms: u64) -> bool {
        pulse_open(millis_of(t_us), self.period(), decay_ms as int)
    }

    /// The half-rate flash: open during the first `decay_ms` milliseconds of
    /// every second beat.
    pub open spec fn half_flash_at(self, t_us: u64, decay_ms: u64) -> bool {
        pulse_open(millis_of(t_us), 2 * self.period(), decay_ms as int)
    }

    /// The fast flash that paces mesh animation: it recurs every quarter of a
    /// beat (in whole milliseconds) and is open for `decay_ms` milliseconds.
    pub open spec fn x2_flash_at(self, t_us: u64, decay_ms: u64) -> bool {
        pulse_open(millis_of(t_us), self.period() / 4, decay_ms as int)
    }

    /// A tempo with the given beat period; `None` exactly for a period of zero.
    pub fn new(beat_period_ms: u64) -> (tempo: Option<Tempo>)
        ensures
            tempo.is_some() == (beat_period_ms > 0),
            tempo matches Some(t) ==> t.period() == beat_period_ms,
    {
        if beat_period_ms == 0 {
            None
        } else {
            Some(Tempo { beat_period_ms })
        }
    }

    /// The tempo of the stock soundtrack.
    pub fn demo() -> (tempo: Tempo)
        ensures
            tempo.period() == DEMO_BEAT_PERIOD_MS,
    {
        Tempo { beat_period_ms: DEMO_BEAT_PERIOD_MS }
    }

    /// Length of one beat in milliseconds.
    pub fn beat_period_ms(&self) -> (period: u64)
        ensures
            period == self.period(),
            period > 0,
    {
        proof {
            use_type_invariant(self);
        }
        self.beat_period_ms
    }

    /// Index of the beat that is running at `t_us`.
    pub fn beat_index(&self, t_us: u64) -> (index: u64)
        ensures
            index == self.beat_index_at(t_us),
    {
        proof {
            use_type_invariant(self);
        }
        (t_us / 1000) / self.beat_period_ms
    }

    /// Index counted in double-length beats.
    pub fn beat_index_2x(&self, t_us: u64) -> (index: u64)
        ensures
            index == self.beat_index_2x_at(t_us),
    {
        let beats = self.beat_index(t_us);
        proof {
            use_type_invariant(self);
            lemma_nested_division(millis_of(t_us), self.period(), 2);
        }
        beats / 2
    }

    /// Whether the per-beat flash is open at `t_us`.
    pub fn is_beat(&self, t_us: u64, decay_ms: u64) -> (open: bool)
        ensures
            open == self.beat_flash_at(t_us, decay_ms),
    {
        pulse(t_us / 1000, self.beat_period_ms, decay_ms)
    }

    /// Whether the half-rate flash is open at `t_us`.
    pub fn is_beat_half(&self, t_us: u64, decay_ms: u64) -> (open: bool)
        ensures
            open == self.half_flash_at(t_us, decay_ms),
    {
        proof {
            use_type_invariant(self);
        }
        let t_ms: u64 = t_us / 1000;
        if self.beat_period_ms > u64::MAX / 2 {
            proof {
                vstd::arithmetic::div_mod::lemma_small_mod(t_ms as nat, (2 * self.period()) as nat);
            }
            t_ms <= decay_ms
        } else {
            pulse(t_ms, 2 * self.beat_period_ms, decay_ms)
        }
    }

    /// Whether the fast flash that paces mesh animation is open at `t_us`.
    pub fn is_beat_x2(&self, t_us: u64, decay_ms: u64) -> (open: bool)
        ensures
            open == self.x2_flash_at(t_us, decay_ms),
    {
        pulse(t_us / 1000, self.beat_period_ms / 4, decay_ms)
    }
}

/// Dividing by `a` and then by `b` is dividing by `a * b`.
pub proof fn lemma_nested_division(x: int, a: int, b: int)
    requires
        0 <= x,
        0 < a,
        0 < b,
    ensures
        (x / a) / b == x / (a * b),
        (x / a) / b == x / (b * a),
{
    vstd::arithmetic::div_mod::lemma_div_denominator(x, a, b);
    assert(b * a == a * b) by (nonlinear_arith);
}


/// When a rule is live, as a half-open interval.
#[derive(Clone, Copy, Debug, PartialEq, Eq, Structural)]
pub enum Window {
    /// Elapsed time in `[start_us, end_us)`, in microseconds.
    Clock { start_us: u64, end_us: u64 },
    /// Beat index in `[start, end)`.
    Beats { start: u64, end: u64 },
    /// Beat index at or after `start`, without an end.
    BeatsFrom { start: u64 },
}

/// What further narrows a rule inside its window.
#[derive(Clone, Copy, Debug, PartialEq, Eq, Structural)]
pub enum Shutter {
    /// The rule is live throughout its window.
    Always,
    /// The rule is live only while a flash is open that recurs every `beats`
    /// beats and lasts `decay_ms` milliseconds.
    Flash { beats: u64, decay_ms: u64 },
}

/// One line of the timeline: while `window` and `shutter` hold, draw `overlay`.
#[derive(Clone, Copy, Debug, PartialEq, Eq, Structural)]
pub struct Rule {
    pub window: Window,
    pub shutter: Shutter,
    pub overlay: OverlayTexture,
}

/// One of the four fly-through paths of the camera.
#[derive(Clone, Copy, Debug, PartialEq, Eq, Structural)]
pub enum CameraPreset {
    Drift,
    Rear,
    Shake,
    Sweep,
}

impl CameraPreset {
    /// The preset with the given number, counted modulo four.
    pub open spec fn from_index(index: int) -> CameraPreset {
        let k = index % 4;
        if k == 0 {
            CameraPreset::Drift
        } else if k == 1 {
            CameraPreset::Rear
        } else if k == 2 {
            CameraPreset::Shake
        } else {
            CameraPreset::Sweep
        }
    }

    /// Number of the preset, from 0 to 3.
    pub open spec fn index_of(self) -> int {
        match self {
            CameraPreset::Drift => 0,
            CameraPreset::Rear => 1,
            CameraPreset::Shake => 2,
            CameraPreset::Sweep => 3,
        }
    }

    /// Number of the preset, from 0 to 3.
    pub fn index(&self) -> (index: u8)
        ensures
            index == self.index_of(),
    {
        match *self {
            CameraPreset::Drift => 0,
            CameraPreset::Rear => 1,
            CameraPreset::Shake => 2,
            CameraPreset::Sweep => 3,
        }
    }
}

impl Window {
    /// The window contains the instant `t_us` under `tempo`.
    pub open spec fn holds(self, tempo: Tempo, t_us: u64) -> bool {
        match self {
            Window::Clock { start_us, end_us } => start_us <= t_us < end_us,
            Window::Beats { start, end } => start <= tempo.beat_index_at(t_us) < end,
            Window::BeatsFrom { start } => start <= tempo.beat_index_at(t_us),
        }
    }

    /// Executable form of [`Self::holds`].
    pub fn contains(&self, tempo: &Tempo, t_us: u64) -> (inside: bool)
        ensures
            inside == self.holds(*tempo, t_us),
    {
        match *self {
            Window::Clock { start_us, end_us } => start_us <= t_us && t_us < end_us,
            Window::Beats { start, end } => {
                let b = tempo.beat_index(t_us);
                start <= b && b < end
            },
            Window::BeatsFrom { start } => start <= tempo.beat_index(t_us),
        }
    }
}

impl Shutter {
    /// The shutter lets a rule through at the instant `t_us` under `tempo`.
    pub open spec fn open_at(self, tempo: Tempo, t_us: u64) -> bool {
        match self {
            Shutter::Always => true,
            Shutter::Flash { beats, decay_ms } => pulse_open(
                millis_of(t_us),
                beats * tempo.period(),
                decay_ms as int,
            ),
        }
    }

    /// Executable form of [`Self::open_at`].
    pub fn is_open(&self, tempo: &Tempo, t_us: u64) -> (open: bool)
        ensures
            open == self.open_at(*tempo, t_us),
    {
        match *self {
            Shutter::Always => true,
            Shutter::Flash { beats, decay_ms } => {
                let period = tempo.beat_period_ms();
                let t_ms: u64 = t_us / 1000;
                if beats == 0 {
                    assert(beats * tempo.period() == 0);
                    false
                } else if period > u64::MAX / beats {
                    proof {
                        lemma_product_exceeds(beats as int, period as int, u64::MAX as int);
                        vstd::arithmetic::div_mod::lemma_small_mod(
                            t_ms as nat,
                            (beats * tempo.period()) as nat,
                        );
                    }
                    t_ms <= decay_ms
                } else {
                    proof {
                        lemma_product_fits(beats as int, period as int, u64::MAX as int);
                    }
                    pulse(t_ms, beats * period, decay_ms)
                }
            },
        }
    }
}

/// With `b > limit / a` the product `a * b` lies above `limit`.
proof fn lemma_product_exceeds(a: int, b: int, limit: int)
    requires
        0 < a,
        0 <= limit,
        b > limit / a,
    ensures
        a * b > limit,
{
    vstd::arithmetic::div_mod::lemma_fundamental_div_mod(limit, a);
    vstd::arithmetic::div_mod::lemma_mod_bound(limit, a);
    assert(a * b >= a * (limit / a + 1)) by (nonlinear_arith)
        requires
            0 < a,
            b >= limit / a + 1,
    ;
    assert(a * (limit / a + 1) == a * (limit / a) + a) by (nonlinear_arith);
}

/// With `b <= limit / a` the product `a * b` stays within `limit`.
proof fn lemma_product_fits(a: int, b: int, limit: int)
    requires
        0 < a,
        0 <= b,
        0 <= limit,
        b <= limit / a,
    ensures
        0 <= a * b <= limit,
{
    vstd::arithmetic::div_mod::lemma_fundamental_div_mod(limit, a);
    vstd::arithmetic::div_mod::lemma_mod_bound(limit, a);
    assert(a * b <= a * (limit / a)) by (nonlinear_arith)
        requires
            0 < a,
            b <= limit / a,
    ;
    assert(0 <= a * b) by (nonlinear_arith)
        requires
            0 < a,
            0 <= b,
    ;
}

impl Rule {
    /// The rule fires at the instant `t_us` under `tempo`.
    pub open spec fn live(self, tempo: Tempo, t_us: u64) -> bool {
        self.window.holds(tempo, t_us) && self.shutter.open_at(tempo, t_us)
    }

    /// Executable form of [`Self::live`].
    pub fn is_live(&self, tempo: &Tempo, t_us: u64) -> (fires: bool)
        ensures
            fires == self.live(*tempo, t_us),
    {
        self.window.contains(tempo, t_us) && self.shutter.is_open(tempo, t_us)
    }
}

/// The overlays of all rules that fire at `t_us`, in table order. Rules are
/// not exclusive: every rule that fires contributes its overlay.
pub open spec fn selected(rules: Seq<Rule>, tempo: Tempo, t_us: u64) -> Seq<OverlayTexture>
    decreases rules.len(),
{
    if rules.len() == 0 {
        Seq::empty()
    } else {
        let earlier = selected(rules.drop_last(), tempo, t_us);
        if rules.last().live(tempo, t_us) {
            earlier.push(rules.last().overlay)
        } else {
            earlier
        }
    }
}

/// Every rule of the table names a catalogued texture.
pub open spec fn all_catalogued(rules: Seq<Rule>) -> bool {
    forall|i: int| 0 <= i < rules.len() ==> (#[trigger] rules[i]).overlay.in_catalogue()
}

/// Selection over a concatenated table is the concatenation of selections.
pub proof fn lemma_selected_concat(a: Seq<Rule>, b: Seq<Rule>, tempo: Tempo, t_us: u64)
    ensures
        selected(a + b, tempo, t_us) == selected(a, tempo, t_us) + selected(b, tempo, t_us),
    decreases b.len(),
{
    if b.len() == 0 {
        assert(a + b =~= a);
        assert(selected(a, tempo, t_us) + selected(b, tempo, t_us) =~= selected(a, tempo, t_us));
    } else {
        assert((a + b).drop_last() =~= a + b.drop_last());
        assert((a + b).last() == b.last());
        lemma_selected_concat(a, b.drop_last(), tempo, t_us);
        let sa = selected(a, tempo, t_us);
        let sb = selected(b.drop_last(), tempo, t_us);
        assert((sa + sb).push(b.last().overlay) =~= sa + sb.push(b.last().overlay));
    }
}

/// A table in which no rule fires selects nothing.
pub proof fn lemma_selected_none(rules: Seq<Rule>, tempo: Tempo, t_us: u64)
    requires
        forall|i: int| 0 <= i < rules.len() ==> !(#[trigger] rules[i]).live(tempo, t_us),
    ensures
        selected(rules, tempo, t_us) == Seq::<OverlayTexture>::empty(),
    decreases rules.len(),
{
    if rules.len() > 0 {
        assert(!rules[rules.len() - 1].live(tempo, t_us));
        assert forall|i: int| 0 <= i < rules.drop_last().len() implies !(
        #[trigger] rules.drop_last()[i]).live(tempo, t_us) by {
            assert(rules.drop_last()[i] == rules[i]);
        }
        lemma_selected_none(rules.drop_last(), tempo, t_us);
    }
}

/// A table in which exactly the rule at `k` fires selects that rule's overlay
/// and nothing else.
pub proof fn lemma_selected_one(rules: Seq<Rule>, tempo: Tempo, t_us: u64, k: int)
    requires
        0 <= k < rules.len(),
        forall|i: int| 0 <= i < rules.len() ==> ((#[trigger] rules[i]).live(tempo, t_us) <==> i == k),
    ensures
        selected(rules, tempo, t_us) == seq![rules[k].overlay],
    decreases rules.len(),
{
    let front = rules.drop_last();
    assert forall|i: int| 0 <= i < front.len() implies ((#[trigger] front[i]).live(tempo, t_us) <==> i
        == k) by {
        assert(front[i] == rules[i]);
    }
    assert(rules[rules.len() - 1].live(tempo, t_us) <==> rules.len() - 1 == k);
    if k == rules.len() - 1 {
        lemma_selected_none(front, tempo, t_us);
        assert(Seq::<OverlayTexture>::empty().push(rules[k].overlay) =~= seq![rules[k].overlay]);
    } else {
        lemma_selected_one(front, tempo, t_us, k);
    }
}

/// Whatever a table selects comes from one of its rules that fires.
pub proof fn lemma_selected_members(rules: Seq<Rule>, tempo: Tempo, t_us: u64)
    ensures
        selected(rules, tempo, t_us).len() <= rules.len(),
        forall|j: int|
            0 <= j < selected(rules, tempo, t_us).len() ==> exists|i: int|
                0 <= i < rules.len() && rules[i].live(tempo, t_us) && rules[i].overlay
                    == #[trigger] selected(rules, tempo, t_us)[j],
    decreases rules.len(),
{
    if rules.len() > 0 {
        let front = rules.drop_last();
        lemma_selected_members(front, tempo, t_us);
        let chosen = selected(rules, tempo, t_us);
        assert forall|j: int| 0 <= j < chosen.len() implies exists|i: int|
            0 <= i < rules.len() && rules[i].live(tempo, t_us) && rules[i].overlay
                == #[trigger] chosen[j] by {
            if j < selected(front, tempo, t_us).len() {
                let i = choose|i: int|
                    0 <= i < front.len() && front[i].live(tempo, t_us) && front[i].overlay
                        == selected(front, tempo, t_us)[j];
                assert(front[i] == rules[i]);
            } else {
                let i = rules.len() - 1;
                assert(rules[i].live(tempo, t_us) && rules[i].overlay == chosen[j]);
            }
        }
    }
}


/// A rule table together with the tempo it is read against.
#[derive(Debug)]
pub struct Timeline {
    tempo: Tempo,
    beats_per_camera: u64,
    rules: Vec<Rule>,
}

impl Timeline {
    /// Every rule names a texture the catalogue holds.
    #[verifier::type_invariant]
    spec fn catalogued(self) -> bool {
        all_catalogued(self.rules@)
    }

    /// The tempo the table is read against.
    pub closed spec fn tempo_of(self) -> Tempo {
        self.tempo
    }

    /// Number of beats after which the camera moves on to its next preset;
    /// zero keeps the camera on its first preset.
    pub closed spec fn camera_beats(self) -> int {
        self.beats_per_camera as int
    }

    /// The rules, in evaluation order.
    pub closed spec fn rules_of(self) -> Seq<Rule> {
        self.rules@
    }

    /// The overlays to draw at `t_us`, in drawing order.
    pub open spec fn overlays_at(self, t_us: u64) -> Seq<OverlayTexture> {
        selected(self.rules_of(), self.tempo_of(), t_us)
    }

    /// The camera preset in force at `t_us`: presets follow one another every
    /// `camera_beats` beats and start over after the fourth.
    pub open spec fn camera_at(self, t_us: u64) -> CameraPreset {
        if self.camera_beats() > 0 {
            CameraPreset::from_index(self.tempo_of().beat_index_at(t_us) / self.camera_beats())
        } else {
            CameraPreset::Drift
        }
    }

    /// A timeline over `rules`; `None` exactly when some rule names a texture
    /// outside the catalogue.
    pub fn new(tempo: Tempo, beats_per_camera: u64, rules: Vec<Rule>) -> (timeline: Option<Timeline>)
        ensures
            timeline.is_some() == all_catalogued(rules@),
            timeline matches Some(t) ==> t.tempo_of() == tempo && t.camera_beats()
                == beats_per_camera && t.rules_of() == rules@,
    {
        let mut i: usize = 0;
        while i < rules.len()
            invariant
                i <= rules.len(),
                forall|j: int| 0 <= j < i ==> (#[trigger] rules@[j]).overlay.in_catalogue(),
            decreases rules.len() - i,
        {
            if !rules[i].overlay.is_in_catalogue() {
                return None;
            }
            i += 1;
        }
        Some(Timeline { tempo, beats_per_camera, rules })
    }

    /// The tempo the table is read against.
    pub fn tempo(&self) -> (tempo: Tempo)
        ensures
            tempo == self.tempo_of(),
    {
        self.tempo
    }

    /// Number of rules in the table.
    pub fn rule_count(&self) -> (count: usize)
        ensures
            count == self.rules_of().len(),
    {
        self.rules.len()
    }

    /// The rule at `index`, `None` past the end of the table.
    pub fn rule(&self, index: usize) -> (rule: Option<Rule>)
        ensures
            rule == if index < self.rules_of().len() {
                Some(self.rules_of()[index as int])
            } else {
                None
            },
    {
        if index < self.rules.len() {
            Some(self.rules[index])
        } else {
            None
        }
    }

    /// Evaluates the table at `t_us`: the overlay of every rule that fires,
    /// in table order. Each of them is a catalogued texture.
    pub fn evaluate(&self, t_us: u64) -> (overlays: Vec<OverlayTexture>)
        ensures
            overlays@ == self.overlays_at(t_us),
            forall|j: int| 0 <= j < overlays@.len() ==> (#[trigger] overlays@[j]).in_catalogue(),
    {
        proof {
            use_type_invariant(self);
        }
        let mut overlays: Vec<OverlayTexture> = Vec::new();
        let mut i: usize = 0;
        while i < self.rules.len()
            invariant
                i <= self.rules.len(),
                all_catalogued(self.rules@),
                overlays@ == selected(self.rules@.take(i as int), self.tempo, t_us),
                forall|j: int| 0 <= j < overlays@.len() ==> (#[trigger] overlays@[j]).in_catalogue(),
            decreases self.rules.len() - i,
        {
            let rule = self.rules[i];
            proof {
                let next = self.rules@.take(i + 1);
                assert(next.drop_last() =~= self.rules@.take(i as int));
                assert(next.last() == rule);
                assert(self.rules@[i as int].overlay.in_catalogue());
            }
            if rule.is_live(&self.tempo, t_us) {
                overlays.push(rule.overlay);
            }
            i += 1;
        }
        proof {
            assert(self.rules@.take(i as int) =~= self.rules@);
        }
        overlays
    }

    /// The camera preset in force at `t_us`.
    pub fn camera_preset(&self, t_us: u64) -> (preset: CameraPreset)
        ensures
            preset == self.camera_at(t_us),
    {
        if self.beats_per_camera == 0 {
            return CameraPreset::Drift;
        }
        let turn: u64 = self.tempo.beat_index(t_us) / self.beats_per_camera;
        let k: u64 = turn % 4;
        if k == 0 {
            CameraPreset::Drift
        } else if k == 1 {
            CameraPreset::Rear
        } else if k == 2 {
            CameraPreset::Shake
        } else {
            CameraPreset::Sweep
        }
    }
}

} // verus!
