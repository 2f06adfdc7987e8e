//! The stock timeline: the rule table the composition ships with, and what it
//! selects at every instant, in closed form.

use crate::timeline::{
    lemma_nested_division, lemma_selected_concat, lemma_selected_none, lemma_selected_one,
    millis_of, selected, all_catalogued, Shutter, OverlayTexture, Rule, Tempo, Timeline, Window,
    CREDITS_FRAMES, DEMO_BEATS_PER_CAMERA, DEMO_BEAT_PERIOD_MS, GREET_FRAMES, MESSAGE_FRAMES,
};
use vstd::prelude::*;

verus! {

/// End of the logo window, in microseconds.
pub const LOGO_END_US: u64 = 7_000_000;

/// How long the logo flash stays open, in milliseconds.
pub const LOGO_DECAY_MS: u64 = 350;

/// First beat of the greetings.
pub const GREET_FIRST_BEAT: u64 = 64;

/// First beat of the refrain.
pub const REFRAIN_FIRST_BEAT: u64 = 120;

/// Number of two-beat refrain windows.
pub const REFRAIN_WINDOWS: u64 = 16;

/// First beat of the credits.
pub const CREDITS_FIRST_BEAT: u64 = 160;

/// Number of beats each credits frame but the last is shown.
pub const CREDITS_BEATS_PER_FRAME: u64 = 4;

/// The instants at which the message changes, in microseconds. Message `k`
/// is shown strictly between cut `k` and cut `k + 1`.
pub open spec fn message_cut_us(k: int) -> int {
    if k <= 0 {
        7_582_000
    } else if k == 1 {
        7_869_000
    } else if k == 2 {
        8_777_000
    } else if k == 3 {
        9_339_000
    } else if k == 4 {
        10_293_000
    } else if k == 5 {
        10_670_000
    } else if k == 6 {
        12_161_000
    } else if k == 7 {
        12_763_000
    } else if k == 8 {
        13_349_000
    } else if k == 9 {
        13_634_000
    } else if k == 10 {
        13_832_000
    } else if k == 11 {
        14_150_000
    } else {
        15_000_000
    }
}

/// Executable form of [`message_cut_us`].
pub fn message_cut(k: u8) -> (cut: u64)
    ensures
        cut == message_cut_us(k as int),
{
    if k == 0 {
        7_582_000
    } else if k == 1 {
        7_869_000
    } else if k == 2 {
        8_777_000
    } else if k == 3 {
        9_339_000
    } else if k == 4 {
        10_293_000
    } else if k == 5 {
        10_670_000
    } else if k == 6 {
        12_161_000
    } else if k == 7 {
        12_763_000
    } else if k == 8 {
        13_349_000
    } else if k == 9 {
        13_634_000
    } else if k == 10 {
        13_832_000
    } else if k == 11 {
        14_150_000
    } else {
        15_000_000
    }
}

/// The logo rule: after the start and before the seventh second, the logo
/// flashes on every second beat.
pub open spec fn logo_rule() -> Rule {
    Rule {
        window: Window::Clock { start_us: 1, end_us: LOGO_END_US },
        shutter: Shutter::Flash { beats: 2, decay_ms: LOGO_DECAY_MS },
        overlay: OverlayTexture::Logo,
    }
}

/// Greeting `k` is shown during beat `64 + k`.
pub open spec fn greet_rule(k: int) -> Rule {
    Rule {
        window: Window::Beats {
            start: (GREET_FIRST_BEAT + k) as u64,
            end: (GREET_FIRST_BEAT + k + 1) as u64,
        },
        shutter: Shutter::Always,
        overlay: OverlayTexture::Greet(k as u8),
    }
}

/// The refrain advances every second beat and starts over after four frames.
pub open spec fn refrain_rule(j: int) -> Rule {
    Rule {
        window: Window::Beats {
            start: (REFRAIN_FIRST_BEAT + 2 * j) as u64,
            end: (REFRAIN_FIRST_BEAT + 2 * j + 2) as u64,
        },
        shutter: Shutter::Always,
        overlay: OverlayTexture::Refrain((j % 4) as u8),
    }
}

/// Credits frame `k` is shown for four beats; the last one stays.
pub open spec fn credits_rule(k: int) -> Rule {
    Rule {
        window: if k + 1 < CREDITS_FRAMES {
            Window::Beats {
                start: (CREDITS_FIRST_BEAT + CREDITS_BEATS_PER_FRAME * k) as u64,
                end: (CREDITS_FIRST_BEAT + CREDITS_BEATS_PER_FRAME * (k + 1)) as u64,
            }
        } else {
            Window::BeatsFrom {
                start: (CREDITS_FIRST_BEAT + CREDITS_BEATS_PER_FRAME * k) as u64,
            }
        },
        shutter: Shutter::Always,
        overlay: OverlayTexture::Credits(k as u8),
    }
}

/// Message `k` is shown strictly between cut `k` and cut `k + 1`.
pub open spec fn message_rule(k: int) -> Rule {
    Rule {
        window: Window::Clock {
            start_us: (message_cut_us(k) + 1) as u64,
            end_us: message_cut_us(k + 1) as u64,
        },
        shutter: Shutter::Always,
        overlay: OverlayTexture::Message(k as u8),
    }
}

/// The fifteen greeting rules, one beat each.
pub open spec fn greet_rules() -> Seq<Rule> {
    Seq::new(GREET_FRAMES as nat, |k: int| greet_rule(k))
}

/// The sixteen refrain rules, two beats each.
pub open spec fn refrain_rules() -> Seq<Rule> {
    Seq::new(REFRAIN_WINDOWS as nat, |j: int| refrain_rule(j))
}

/// The seven credits rules: six of four beats each, and the last without
/// end.
pub open spec fn credits_rules() -> Seq<Rule> {
    Seq::new(CREDITS_FRAMES as nat, |k: int| credits_rule(k))
}

/// The twelve message rules, each between two cuts.
pub open spec fn message_rules() -> Seq<Rule> {
    Seq::new(MESSAGE_FRAMES as nat, |k: int| message_rule(k))
}

/// The stock table: the logo, then greetings, refrain, credits and messages.
/// This is also the order in which simultaneous overlays are layered.
pub open spec fn stock_rules() -> Seq<Rule> {
    seq![logo_rule()] + greet_rules() + refrain_rules() + credits_rules() + message_rules()
}

/// A timeline is the stock one: stock tempo, stock camera pace, stock table.
pub open spec fn is_stock(timeline: Timeline) -> bool {
    &&& timeline.tempo_of().period() == DEMO_BEAT_PERIOD_MS
    &&& timeline.camera_beats() == DEMO_BEATS_PER_CAMERA
    &&& timeline.rules_of() == stock_rules()
}

/// Beat index under the stock tempo.
pub open spec fn stock_beat(t_us: u64) -> int {
    millis_of(t_us) / (DEMO_BEAT_PERIOD_MS as int)
}

/// Whether the stock table shows the logo at `t_us`.
pub open spec fn stock_logo_at(t_us: u64) -> bool {
    0 < t_us < LOGO_END_US && millis_of(t_us) % (2 * DEMO_BEAT_PERIOD_MS) <= LOGO_DECAY_MS
}

/// The greeting the stock table shows at `t_us`, if any.
pub open spec fn stock_greet_at(t_us: u64) -> Option<u8> {
    let b = stock_beat(t_us);
    if GREET_FIRST_BEAT <= b < GREET_FIRST_BEAT + GREET_FRAMES {
        Some((b - GREET_FIRST_BEAT) as u8)
    } else {
        None
    }
}

/// The refrain frame the stock table shows at `t_us`, if any.
pub open spec fn stock_refrain_at(t_us: u64) -> Option<u8> {
    let b = stock_beat(t_us);
    if REFRAIN_FIRST_BEAT <= b < REFRAIN_FIRST_BEAT + 2 * REFRAIN_WINDOWS {
        Some(((millis_of(t_us) / (2 * DEMO_BEAT_PERIOD_MS)) % 4) as u8)
    } else {
        None
    }
}

/// The credits frame the stock table shows at `t_us`, if any: one frame per
/// four beats from beat 160 on, the last frame for good.
pub open spec fn stock_credits_at(t_us: u64) -> Option<u8> {
    let b = stock_beat(t_us);
    if b < CREDITS_FIRST_BEAT {
        None
    } else if (b - CREDITS_FIRST_BEAT) / (CREDITS_BEATS_PER_FRAME as int) < CREDITS_FRAMES - 1 {
        Some(((b - CREDITS_FIRST_BEAT) / (CREDITS_BEATS_PER_FRAME as int)) as u8)
    } else {
        Some((CREDITS_FRAMES - 1) as u8)
    }
}

/// Message `k` is on screen at `t_us`.
pub open spec fn message_shown(k: int, t_us: u64) -> bool {
    message_cut_us(k) < t_us < message_cut_us(k + 1)
}

/// The message the stock table shows at `t_us`, if any.
pub open spec fn stock_message_at(t_us: u64) -> Option<u8> {
    if message_shown(0, t_us) {
        Some(0)
    } else if message_shown(1, t_us) {
        Some(1)
    } else if message_shown(2, t_us) {
        Some(2)
    } else if message_shown(3, t_us) {
        Some(3)
    } else if message_shown(4, t_us) {
        Some(4)
    } else if message_shown(5, t_us) {
        Some(5)
    } else if message_shown(6, t_us) {
        Some(6)
    } else if message_shown(7, t_us) {
        Some(7)
    } else if message_shown(8, t_us) {
        Some(8)
    } else if message_shown(9, t_us) {
        Some(9)
    } else if message_shown(10, t_us) {
        Some(10)
    } else if message_shown(11, t_us) {
        Some(11)
    } else {
        None
    }
}

/// The overlay made from `frame` by `make`, or nothing.
pub open spec fn one_or_none(
    frame: Option<u8>,
    make: spec_fn(u8) -> OverlayTexture,
) -> Seq<OverlayTexture> {
    match frame {
        Some(k) => seq![make(k)],
        None => Seq::empty(),
    }
}

/// What the stock timeline draws at `t_us`, in closed form.
pub open spec fn stock_overlays_at(t_us: u64) -> Seq<OverlayTexture> {
    (if stock_logo_at(t_us) {
        seq![OverlayTexture::Logo]
    } else {
        Seq::empty()
    }) + one_or_none(stock_greet_at(t_us), |k: u8| OverlayTexture::Greet(k)) + one_or_none(
        stock_refrain_at(t_us),
        |k: u8| OverlayTexture::Refrain(k),
    ) + one_or_none(stock_credits_at(t_us), |k: u8| OverlayTexture::Credits(k)) + one_or_none(
        stock_message_at(t_us),
        |k: u8| OverlayTexture::Message(k),
    )
}


/// What the logo rule selects.
proof fn lemma_logo_group(tempo: Tempo, t_us: u64)
    requires
        tempo.period() == DEMO_BEAT_PERIOD_MS,
    ensures
        selected(seq![logo_rule()], tempo, t_us) == if stock_logo_at(t_us) {
            seq![OverlayTexture::Logo]
        } else {
            Seq::empty()
        },
{
    let rules = seq![logo_rule()];
    assert(rules[0] == logo_rule());
    assert(logo_rule().live(tempo, t_us) == stock_logo_at(t_us));
    if stock_logo_at(t_us) {
        lemma_selected_one(rules, tempo, t_us, 0);
    } else {
        lemma_selected_none(rules, tempo, t_us);
    }
}

/// What the greeting rules select: at most one fires at a time.
proof fn lemma_greet_group(tempo: Tempo, t_us: u64)
    requires
        tempo.period() == DEMO_BEAT_PERIOD_MS,
    ensures
        selected(greet_rules(), tempo, t_us) == one_or_none(
            stock_greet_at(t_us),
            |k: u8| OverlayTexture::Greet(k),
        ),
{
    let rules = greet_rules();
    let b = stock_beat(t_us);
    assert forall|i: int| 0 <= i < rules.len() implies ((#[trigger] rules[i]).live(tempo, t_us) <==> b
        == GREET_FIRST_BEAT + i) by {
        assert(rules[i] == greet_rule(i));
    }
    match stock_greet_at(t_us) {
        Some(k) => {
            lemma_selected_one(rules, tempo, t_us, k as int);
            assert(rules[k as int] == greet_rule(k as int));
        },
        None => {
            lemma_selected_none(rules, tempo, t_us);
        },
    }
}

/// What the refrain rules select: at most one fires at a time.
proof fn lemma_refrain_group(tempo: Tempo, t_us: u64)
    requires
        tempo.period() == DEMO_BEAT_PERIOD_MS,
    ensures
        selected(refrain_rules(), tempo, t_us) == one_or_none(
            stock_refrain_at(t_us),
            |k: u8| OverlayTexture::Refrain(k),
        ),
{
    let rules = refrain_rules();
    let b = stock_beat(t_us);
    lemma_nested_division(millis_of(t_us), DEMO_BEAT_PERIOD_MS as int, 2);
    assert(millis_of(t_us) / (2 * DEMO_BEAT_PERIOD_MS) == b / 2);
    assert forall|i: int| 0 <= i < rules.len() implies ((#[trigger] rules[i]).live(tempo, t_us) <==> (
    REFRAIN_FIRST_BEAT + 2 * i <= b < REFRAIN_FIRST_BEAT + 2 * i + 2)) by {
        assert(rules[i] == refrain_rule(i));
    }
    match stock_refrain_at(t_us) {
        Some(k) => {
            let j = (b - REFRAIN_FIRST_BEAT) / 2;
            assert(0 <= j < REFRAIN_WINDOWS);
            assert(b / 2 == 60 + j);
            assert((b / 2) % 4 == j % 4);
            lemma_selected_one(rules, tempo, t_us, j);
            assert(rules[j] == refrain_rule(j));
        },
        None => {
            lemma_selected_none(rules, tempo, t_us);
        },
    }
}

/// What the credits rules select: at most one fires at a time.
proof fn lemma_credits_group(tempo: Tempo, t_us: u64)
    requires
        tempo.period() == DEMO_BEAT_PERIOD_MS,
    ensures
        selected(credits_rules(), tempo, t_us) == one_or_none(
            stock_credits_at(t_us),
            |k: u8| OverlayTexture::Credits(k),
        ),
{
    let rules = credits_rules();
    let b = stock_beat(t_us);
    assert forall|i: int| 0 <= i < rules.len() implies ((#[trigger] rules[i]).live(tempo, t_us) <==> (
    CREDITS_FIRST_BEAT + 4 * i <= b && (i < 6 ==> b < CREDITS_FIRST_BEAT + 4 * i + 4))) by {
        assert(rules[i] == credits_rule(i));
    }
    match stock_credits_at(t_us) {
        Some(k) => {
            lemma_selected_one(rules, tempo, t_us, k as int);
            assert(rules[k as int] == credits_rule(k as int));
        },
        None => {
            lemma_selected_none(rules, tempo, t_us);
        },
    }
}

/// What the message rules select: at most one fires at a time.
proof fn lemma_message_group(tempo: Tempo, t_us: u64)
    ensures
        selected(message_rules(), tempo, t_us) == one_or_none(
            stock_message_at(t_us),
            |k: u8| OverlayTexture::Message(k),
        ),
{
    let rules = message_rules();
    assert forall|i: int| 0 <= i < rules.len() implies ((#[trigger] rules[i]).live(tempo, t_us)
        <==> message_shown(i, t_us)) by {
        assert(rules[i] == message_rule(i));
    }
    match stock_message_at(t_us) {
        Some(k) => {
            lemma_selected_one(rules, tempo, t_us, k as int);
            assert(rules[k as int] == message_rule(k as int));
        },
        None => {
            lemma_selected_none(rules, tempo, t_us);
        },
    }
}

/// At every instant the stock table selects exactly what the closed form
/// says: the selection is a function of the elapsed time alone.
pub proof fn lemma_stock_selection(tempo: Tempo, t_us: u64)
    requires
        tempo.period() == DEMO_BEAT_PERIOD_MS,
    ensures
        selected(stock_rules(), tempo, t_us) == stock_overlays_at(t_us),
{
    let logo = seq![logo_rule()];
    lemma_logo_group(tempo, t_us);
    lemma_greet_group(tempo, t_us);
    lemma_refrain_group(tempo, t_us);
    lemma_credits_group(tempo, t_us);
    lemma_message_group(tempo, t_us);
    lemma_selected_concat(logo, greet_rules(), tempo, t_us);
    lemma_selected_concat(logo + greet_rules(), refrain_rules(), tempo, t_us);
    lemma_selected_concat(logo + greet_rules() + refrain_rules(), credits_rules(), tempo, t_us);
    lemma_selected_concat(
        logo + greet_rules() + refrain_rules() + credits_rules(),
        message_rules(),
        tempo,
        t_us,
    );
}

/// Every rule of the stock table names a catalogued texture.
pub proof fn lemma_stock_rules_catalogued()
    ensures
        all_catalogued(stock_rules()),
        stock_rules().len() == 51,
{
    let rules = stock_rules();
    assert forall|i: int| 0 <= i < rules.len() implies (#[trigger] rules[i]).overlay.in_catalogue() by {
        if i < 1 {
            assert(rules[i] == logo_rule());
        } else if i < 16 {
            assert(rules[i] == greet_rule(i - 1));
        } else if i < 32 {
            assert(rules[i] == refrain_rule(i - 16));
        } else if i < 39 {
            assert(rules[i] == credits_rule(i - 32));
        } else {
            assert(rules[i] == message_rule(i - 39));
        }
    }
}


/// From beat 160 on the stock table selects exactly one credits frame: the
/// frame `(beat - 160) / 4`, capped at the last one. Before beat 160 it
/// selects none.
pub proof fn lemma_one_credits_frame(tempo: Tempo, t_us: u64)
    requires
        tempo.period() == DEMO_BEAT_PERIOD_MS,
    ensures
        stock_beat(t_us) < CREDITS_FIRST_BEAT ==> forall|i: int|
            0 <= i < selected(stock_rules(), tempo, t_us).len() ==> !(#[trigger] selected(
                stock_rules(),
                tempo,
                t_us,
            )[i] is Credits),
        stock_beat(t_us) >= CREDITS_FIRST_BEAT ==> exists|j: int|
            {
                &&& 0 <= j < selected(stock_rules(), tempo, t_us).len()
                &&& #[trigger] selected(stock_rules(), tempo, t_us)[j] == OverlayTexture::Credits(
                    stock_credits_at(t_us).unwrap(),
                )
                &&& forall|i: int|
                    0 <= i < selected(stock_rules(), tempo, t_us).len() && i != j ==> !(
                    #[trigger] selected(stock_rules(), tempo, t_us)[i] is Credits)
            },
{
    lemma_stock_selection(tempo, t_us);
    let sel = selected(stock_rules(), tempo, t_us);
    let logo: Seq<OverlayTexture> = if stock_logo_at(t_us) {
        seq![OverlayTexture::Logo]
    } else {
        Seq::empty()
    };
    let greet = one_or_none(stock_greet_at(t_us), |k: u8| OverlayTexture::Greet(k));
    let refrain = one_or_none(stock_refrain_at(t_us), |k: u8| OverlayTexture::Refrain(k));
    let credits = one_or_none(stock_credits_at(t_us), |k: u8| OverlayTexture::Credits(k));
    let message = one_or_none(stock_message_at(t_us), |k: u8| OverlayTexture::Message(k));
    assert(sel == logo + greet + refrain + credits + message);
    let before = logo.len() + greet.len() + refrain.len();
    assert forall|i: int| 0 <= i < sel.len() && sel[i] is Credits implies before <= i < before
        + credits.len() by {
        if i < logo.len() {
            assert(sel[i] == logo[i]);
        } else if i < logo.len() + greet.len() {
            assert(sel[i] == greet[i - logo.len()]);
        } else if i < before {
            assert(sel[i] == refrain[i - logo.len() - greet.len()]);
        } else if i >= before + credits.len() {
            assert(sel[i] == message[i - before - credits.len()]);
        }
    }
    if stock_beat(t_us) >= CREDITS_FIRST_BEAT {
        assert(credits.len() == 1);
        assert(sel[before as int] == credits[0]);
    }
}

/// Inside the credits, instants whose beats lie in different four-beat
/// windows select different frames, until the last frame is reached.
pub proof fn lemma_credits_change_at_boundaries(t1_us: u64, t2_us: u64)
    requires
        CREDITS_FIRST_BEAT <= stock_beat(t1_us) < stock_beat(t2_us),
        stock_beat(t1_us) < CREDITS_FIRST_BEAT + CREDITS_BEATS_PER_FRAME * (CREDITS_FRAMES - 1),
        stock_beat(t1_us) / (CREDITS_BEATS_PER_FRAME as int) != stock_beat(t2_us) / (
        CREDITS_BEATS_PER_FRAME as int),
    ensures
        stock_credits_at(t1_us) != stock_credits_at(t2_us),
{
}

/// Nothing is selected at the very start of the stock timeline.
pub proof fn lemma_stock_starts_blank(tempo: Tempo)
    requires
        tempo.period() == DEMO_BEAT_PERIOD_MS,
    ensures
        selected(stock_rules(), tempo, 0) == Seq::<OverlayTexture>::empty(),
{
    lemma_stock_selection(tempo, 0);
    assert(stock_overlays_at(0) =~= Seq::<OverlayTexture>::empty());
}

/// Builds the stock timeline.
pub fn stock_timeline() -> (timeline: Timeline)
    ensures
        is_stock(timeline),
{
    let mut rules: Vec<Rule> = Vec::new();
    rules.push(
        Rule {
            window: Window::Clock { start_us: 1, end_us: LOGO_END_US },
            shutter: Shutter::Flash { beats: 2, decay_ms: LOGO_DECAY_MS },
            overlay: OverlayTexture::Logo,
        },
    );
    assert(rules@ =~= seq![logo_rule()]);
    let mut k: u8 = 0;
    while k < GREET_FRAMES
        invariant
            k <= GREET_FRAMES,
            rules@ == seq![logo_rule()] + greet_rules().take(k as int),
        decreases GREET_FRAMES - k,
    {
        rules.push(
            Rule {
                window: Window::Beats {
                    start: GREET_FIRST_BEAT + k as u64,
                    end: GREET_FIRST_BEAT + k as u64 + 1,
                },
                shutter: Shutter::Always,
                overlay: OverlayTexture::Greet(k),
            },
        );
        assert(rules@ =~= seq![logo_rule()] + greet_rules().take(k + 1));
        k += 1;
    }
    assert(greet_rules().take(k as int) =~= greet_rules());
    let ghost upto_greet = seq![logo_rule()] + greet_rules();
    let mut j: u64 = 0;
    while j < REFRAIN_WINDOWS
        invariant
            j <= REFRAIN_WINDOWS,
            upto_greet == seq![logo_rule()] + greet_rules(),
            rules@ == upto_greet + refrain_rules().take(j as int),
        decreases REFRAIN_WINDOWS - j,
    {
        rules.push(
            Rule {
                window: Window::Beats {
                    start: REFRAIN_FIRST_BEAT + 2 * j,
                    end: REFRAIN_FIRST_BEAT + 2 * j + 2,
                },
                shutter: Shutter::Always,
                overlay: OverlayTexture::Refrain((j % 4) as u8),
            },
        );
        assert(rules@ =~= upto_greet + refrain_rules().take(j + 1));
        j += 1;
    }
    assert(refrain_rules().take(j as int) =~= refrain_rules());
    let ghost upto_refrain = upto_greet + refrain_rules();
    let mut k: u8 = 0;
    while k < CREDITS_FRAMES
        invariant
            k <= CREDITS_FRAMES,
            upto_refrain == seq![logo_rule()] + greet_rules() + refrain_rules(),
            rules@ == upto_refrain + credits_rules().take(k as int),
        decreases CREDITS_FRAMES - k,
    {
        let start: u64 = CREDITS_FIRST_BEAT + CREDITS_BEATS_PER_FRAME * k as u64;
        let window = if k + 1 < CREDITS_FRAMES {
            Window::Beats { start, end: start + CREDITS_BEATS_PER_FRAME }
        } else {
            Window::BeatsFrom { start }
        };
        rules.push(Rule { window, shutter: Shutter::Always, overlay: OverlayTexture::Credits(k) });
        assert(rules@ =~= upto_refrain + credits_rules().take(k + 1));
        k += 1;
    }
    assert(credits_rules().take(k as int) =~= credits_rules());
    let ghost upto_credits = upto_refrain + credits_rules();
    let mut k: u8 = 0;
    while k < MESSAGE_FRAMES
        invariant
            k <= MESSAGE_FRAMES,
            upto_credits == seq![logo_rule()] + greet_rules() + refrain_rules() + credits_rules(),
            rules@ == upto_credits + message_rules().take(k as int),
        decreases MESSAGE_FRAMES - k,
    {
        rules.push(
            Rule {
                window: Window::Clock {
                    start_us: message_cut(k) + 1,
                    end_us: message_cut(k + 1),
                },
                shutter: Shutter::Always,
                overlay: OverlayTexture::Message(k),
            },
        );
        assert(rules@ =~= upto_credits + message_rules().take(k + 1));
        k += 1;
    }
    assert(message_rules().take(k as int) =~= message_rules());
    proof {
        lemma_stock_rules_catalogued();
    }
    Timeline::new(Tempo::demo(), DEMO_BEATS_PER_CAMERA, rules).unwrap()
}

} // verus!
