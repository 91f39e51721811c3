//! Click rates and the decisions that the clicking thread makes.

use vstd::prelude::*;
use crate::text;
use crate::config;

verus! {

/// How fast the clicker clicks.
#[derive(Clone, Copy, Debug, PartialEq, Eq, Structural)]
pub enum ClickRate {
    Slow,
    Normal,
    Fast,
    Rapid,
    Turbo,
    Extreme,
    Maximum,
    Fps,
}

impl ClickRate {
    /// The rates offered in the rate menu, in menu order (the per-frame
    /// rate is not offered there).
    pub const ALL: [ClickRate; 7] = [
        ClickRate::Slow,
        ClickRate::Normal,
        ClickRate::Fast,
        ClickRate::Rapid,
        ClickRate::Turbo,
        ClickRate::Extreme,
        ClickRate::Maximum,
    ];

    pub open spec fn label_text(self) -> Seq<char> {
        match self {
            ClickRate::Slow => "Slow \u{2014} 1/s"@,
            ClickRate::Normal => "Normal \u{2014} 6/s"@,
            ClickRate::Fast => "Fast \u{2014} 15/s"@,
            ClickRate::Rapid => "Rapid \u{2014} 30/s"@,
            ClickRate::Turbo => "Turbo \u{2014} 60/s"@,
            ClickRate::Extreme => "Extreme \u{2014} 120/s"@,
            ClickRate::Maximum => "Maximum \u{2014} \u{221E}/s"@,
            ClickRate::Fps => "FPS \u{2014} 1 per frame"@,
        }
    }

    pub open spec fn compact_label_text(self) -> Seq<char> {
        match self {
            ClickRate::Slow => "Slow (1/s)"@,
            ClickRate::Normal => "Normal (6/s)"@,
            ClickRate::Fast => "Fast (15/s)"@,
            ClickRate::Rapid => "Rapid (30/s)"@,
            ClickRate::Turbo => "Turbo (60/s)"@,
            ClickRate::Extreme => "Extreme (120/s)"@,
            ClickRate::Maximum => "Maximum (\u{221E})"@,
            ClickRate::Fps => "FPS (1/frame)"@,
        }
    }

    /// The word that names the rate in the settings file.
    pub open spec fn config_name(self) -> Seq<char> {
        match self {
            ClickRate::Slow => "slow"@,
            ClickRate::Normal => "normal"@,
            ClickRate::Fast => "fast"@,
            ClickRate::Rapid => "rapid"@,
            ClickRate::Turbo => "turbo"@,
            ClickRate::Extreme => "extreme"@,
            ClickRate::Maximum => "maximum"@,
            ClickRate::Fps => "fps"@,
        }
    }

    /// The rate that a settings value names: the value is trimmed and
    /// compared without regard to ASCII case; two older words are accepted
    /// as well.
    pub open spec fn parse_config_name(value: Seq<char>) -> Option<ClickRate> {
        let t = text::ascii_lower(text::trim(value));
        if t == "slow"@ {
            Some(ClickRate::Slow)
        } else if t == "normal"@ {
            Some(ClickRate::Normal)
        } else if t == "fast"@ {
            Some(ClickRate::Fast)
        } else if t == "rapid"@ || t == "very_fast"@ {
            Some(ClickRate::Rapid)
        } else if t == "turbo"@ {
            Some(ClickRate::Turbo)
        } else if t == "extreme"@ {
            Some(ClickRate::Extreme)
        } else if t == "maximum"@ || t == "unsafe"@ {
            Some(ClickRate::Maximum)
        } else if t == "fps"@ {
            Some(ClickRate::Fps)
        } else {
            None
        }
    }

    /// Clicks per second of the rates that have a fixed pace.
    pub open spec fn clicks_per_second(self) -> Option<u32> {
        match self {
            ClickRate::Slow => Some(1),
            ClickRate::Normal => Some(6),
            ClickRate::Fast => Some(15),
            ClickRate::Rapid => Some(30),
            ClickRate::Turbo => Some(60),
            ClickRate::Extreme => Some(120),
            ClickRate::Maximum => None,
            ClickRate::Fps => None,
        }
    }

    /// The number under which the clicking thread shares the rate.
    pub open spec fn code(self) -> u8 {
        match self {
            ClickRate::Slow => 0,
            ClickRate::Normal => 1,
            ClickRate::Fast => 2,
            ClickRate::Rapid => 3,
            ClickRate::Turbo => 4,
            ClickRate::Extreme => 5,
            ClickRate::Maximum => 6,
            ClickRate::Fps => 7,
        }
    }

    /// The rate that a shared number stands for; an unknown number stands
    /// for the normal rate.
    pub open spec fn from_code(value: u8) -> ClickRate {
        if value == 0 {
            ClickRate::Slow
        } else if value == 1 {
            ClickRate::Normal
        } else if value == 2 {
            ClickRate::Fast
        } else if value == 3 {
            ClickRate::Rapid
        } else if value == 4 {
            ClickRate::Turbo
        } else if value == 5 {
            ClickRate::Extreme
        } else if value == 6 {
            ClickRate::Maximum
        } else if value == 7 {
            ClickRate::Fps
        } else {
            ClickRate::Normal
        }
    }

    pub fn label(self) -> (r: &'static str)
        ensures
            r@ == self.label_text(),
    {
        match self {
            ClickRate::Slow => "Slow \u{2014} 1/s",
            ClickRate::Normal => "Normal \u{2014} 6/s",
            ClickRate::Fast => "Fast \u{2014} 15/s",
            ClickRate::Rapid => "Rapid \u{2014} 30/s",
            ClickRate::Turbo => "Turbo \u{2014} 60/s",
            ClickRate::Extreme => "Extreme \u{2014} 120/s",
            ClickRate::Maximum => "Maximum \u{2014} \u{221E}/s",
            ClickRate::Fps => "FPS \u{2014} 1 per frame",
        }
    }

    pub fn compact_label(self) -> (r: &'static str)
        ensures
            r@ == self.compact_label_text(),
    {
        match self {
            ClickRate::Slow => "Slow (1/s)",
            ClickRate::Normal => "Normal (6/s)",
            ClickRate::Fast => "Fast (15/s)",
            ClickRate::Rapid => "Rapid (30/s)",
            ClickRate::Turbo => "Turbo (60/s)",
            ClickRate::Extreme => "Extreme (120/s)",
            ClickRate::Maximum => "Maximum (\u{221E})",
            ClickRate::Fps => "FPS (1/frame)",
        }
    }

    pub fn as_config_value(self) -> (r: &'static str)
        ensures
            r@ == self.config_name(),
    {
        match self {
            ClickRate::Slow => "slow",
            ClickRate::Normal => "normal",
            ClickRate::Fast => "fast",
            ClickRate::Rapid => "rapid",
            ClickRate::Turbo => "turbo",
            ClickRate::Extreme => "extreme",
            ClickRate::Maximum => "maximum",
            ClickRate::Fps => "fps",
        }
    }

    pub fn from_config_value(value: &str) -> (r: Option<ClickRate>)
        ensures
            r == ClickRate::parse_config_name(value@),
    {
        let chars = text::str_chars(value);
        let trimmed = text::trim_chars(&chars);
        let t = text::lower_chars(&trimmed);
        if text::chars_eq_str(&t, "slow") {
            Some(ClickRate::Slow)
        } else if text::chars_eq_str(&t, "normal") {
            Some(ClickRate::Normal)
        } else if text::chars_eq_str(&t, "fast") {
            Some(ClickRate::Fast)
        } else if text::chars_eq_str(&t, "rapid") || text::chars_eq_str(&t, "very_fast") {
            Some(ClickRate::Rapid)
        } else if text::chars_eq_str(&t, "turbo") {
            Some(ClickRate::Turbo)
        } else if text::chars_eq_str(&t, "extreme") {
            Some(ClickRate::Extreme)
        } else if text::chars_eq_str(&t, "maximum") || text::chars_eq_str(&t, "unsafe") {
            Some(ClickRate::Maximum)
        } else if text::chars_eq_str(&t, "fps") {
            Some(ClickRate::Fps)
        } else {
            None
        }
    }

    /// Clicks per second of a rate with a fixed pace; the thread's period is
    /// the reciprocal.
    pub fn fixed_clicks_per_second(self) -> (r: Option<u32>)
        ensures
            r == self.clicks_per_second(),
    {
        match self {
            ClickRate::Slow => Some(1),
            ClickRate::Normal => Some(6),
            ClickRate::Fast => Some(15),
            ClickRate::Rapid => Some(30),
            ClickRate::Turbo => Some(60),
            ClickRate::Extreme => Some(120),
            ClickRate::Maximum | ClickRate::Fps => None,
        }
    }

    pub fn as_u8(self) -> (r: u8)
        ensures
            r == self.code(),
    {
        match self {
            ClickRate::Slow => 0,
            ClickRate::Normal => 1,
            ClickRate::Fast => 2,
            ClickRate::Rapid => 3,
            ClickRate::Turbo => 4,
            ClickRate::Extreme => 5,
            ClickRate::Maximum => 6,
            ClickRate::Fps => 7,
        }
    }

    pub fn from_u8(value: u8) -> (r: ClickRate)
        ensures
            r == ClickRate::from_code(value),
    {
        match value {
            0 => ClickRate::Slow,
            1 => ClickRate::Normal,
            2 => ClickRate::Fast,
            3 => ClickRate::Rapid,
            4 => ClickRate::Turbo,
            5 => ClickRate::Extreme,
            6 => ClickRate::Maximum,
            7 => ClickRate::Fps,
            _ => ClickRate::Normal,
        }
    }
}

/// A rate survives the trip through the number that the clicking thread
/// shares, and distinct rates get distinct numbers below eight.
pub proof fn lemma_rate_code_round_trip(r: ClickRate)
    ensures
        ClickRate::from_code(r.code()) == r,
        r.code() < 8,
{
}

/// A rate written to the settings file is read back as the same rate.
pub proof fn lemma_rate_config_round_trip(r: ClickRate)
    ensures
        ClickRate::parse_config_name(r.config_name()) == Some(r),
{
    reveal_strlit("slow");
    reveal_strlit("normal");
    reveal_strlit("fast");
    reveal_strlit("rapid");
    reveal_strlit("very_fast");
    reveal_strlit("turbo");
    reveal_strlit("extreme");
    reveal_strlit("maximum");
    reveal_strlit("unsafe");
    reveal_strlit("fps");
    let n = r.config_name();
    text::lemma_trim_fixed(n);
    assert(text::ascii_lower(n) =~= n);
    match r {
        ClickRate::Fps => {
            assert(n[1] != "fast"@[1]);
        },
        ClickRate::Fast => {},
        _ => {
            assert(n[0] != "fast"@[0]);
        },
    }
}

/// A rate's settings value is read the same after trimming and lower-casing
/// it: only surrounding white space and ASCII case are ignored.
pub proof fn lemma_rate_name_normalized(value: Seq<char>)
    ensures
        ClickRate::parse_config_name(value) == ClickRate::parse_config_name(
            text::ascii_lower(text::trim(value)),
        ),
{
    text::lemma_lower_trim_idempotent(value);
}

/// The settings words that name a rate: its own word, and for two rates an
/// older word besides; every rate is named by at least its own word.
pub proof fn lemma_rate_names_accepted(value: Seq<char>, r: ClickRate)
    ensures
        ClickRate::parse_config_name(value) == Some(r) <==> ({
            let t = text::ascii_lower(text::trim(value));
            ||| t == r.config_name()
            ||| r == ClickRate::Rapid && t == "very_fast"@
            ||| r == ClickRate::Maximum && t == "unsafe"@
        }),
        ClickRate::parse_config_name(r.config_name()) == Some(r),
{
    lemma_rate_config_round_trip(r);
    reveal_strlit("slow");
    reveal_strlit("normal");
    reveal_strlit("fast");
    reveal_strlit("rapid");
    reveal_strlit("very_fast");
    reveal_strlit("turbo");
    reveal_strlit("extreme");
    reveal_strlit("maximum");
    reveal_strlit("unsafe");
    reveal_strlit("fps");
    assert("slow"@ != "fast"@ && "normal"@ != "unsafe"@) by {
        assert("slow"@[0] != "fast"@[0] && "normal"@[0] != "unsafe"@[0]);
    }
    assert("rapid"@ != "turbo"@ && "extreme"@ != "maximum"@) by {
        assert("rapid"@[0] != "turbo"@[0] && "extreme"@[0] != "maximum"@[0]);
    }
    let t = text::ascii_lower(text::trim(value));
    if ClickRate::parse_config_name(value) == Some(r) {
        assert(t == r.config_name() || (r == ClickRate::Rapid && t == "very_fast"@) || (r
            == ClickRate::Maximum && t == "unsafe"@));
    }
    if t == r.config_name() {
        assert(ClickRate::parse_config_name(value) == Some(r));
    }
}

/// The word that begins both labels of a rate.
pub open spec fn rate_word(r: ClickRate) -> Seq<char> {
    match r {
        ClickRate::Slow => "Slow"@,
        ClickRate::Normal => "Normal"@,
        ClickRate::Fast => "Fast"@,
        ClickRate::Rapid => "Rapid"@,
        ClickRate::Turbo => "Turbo"@,
        ClickRate::Extreme => "Extreme"@,
        ClickRate::Maximum => "Maximum"@,
        ClickRate::Fps => "FPS"@,
    }
}

/// Both labels of a rate begin with the same word and a space; a rate with a
/// fixed pace shows its clicks per second as `<word> \u{2014} <n>/s` and
/// `<word> (<n>/s)`.
pub proof fn lemma_labels_agree(r: ClickRate)
    ensures
        r.label_text().len() > rate_word(r).len(),
        r.label_text().take(rate_word(r).len() as int + 1) == rate_word(r).push(' '),
        r.compact_label_text().len() > rate_word(r).len(),
        r.compact_label_text().take(rate_word(r).len() as int + 1) == rate_word(r).push(' '),
        r.clicks_per_second() matches Some(c) ==> r.label_text() == rate_word(r)
            + " \u{2014} "@ + text::decimal(c as nat) + "/s"@,
        r.clicks_per_second() matches Some(c) ==> r.compact_label_text() == rate_word(r) + " ("@
            + text::decimal(c as nat) + "/s)"@,
{
    reveal_strlit("Slow \u{2014} 1/s");
    reveal_strlit("Normal \u{2014} 6/s");
    reveal_strlit("Fast \u{2014} 15/s");
    reveal_strlit("Rapid \u{2014} 30/s");
    reveal_strlit("Turbo \u{2014} 60/s");
    reveal_strlit("Extreme \u{2014} 120/s");
    reveal_strlit("Maximum \u{2014} \u{221E}/s");
    reveal_strlit("FPS \u{2014} 1 per frame");
    reveal_strlit("Slow (1/s)");
    reveal_strlit("Normal (6/s)");
    reveal_strlit("Fast (15/s)");
    reveal_strlit("Rapid (30/s)");
    reveal_strlit("Turbo (60/s)");
    reveal_strlit("Extreme (120/s)");
    reveal_strlit("Maximum (\u{221E})");
    reveal_strlit("FPS (1/frame)");
    reveal_strlit("Slow");
    reveal_strlit("Normal");
    reveal_strlit("Fast");
    reveal_strlit("Rapid");
    reveal_strlit("Turbo");
    reveal_strlit("Extreme");
    reveal_strlit("Maximum");
    reveal_strlit("FPS");
    reveal_strlit(" \u{2014} ");
    reveal_strlit("/s");
    reveal_strlit(" (");
    reveal_strlit("/s)");
    let w = rate_word(r);
    assert(r.label_text().take(w.len() as int + 1) =~= w.push(' '));
    assert(r.compact_label_text().take(w.len() as int + 1) =~= w.push(' '));
    if let Some(c) = r.clicks_per_second() {
        reveal_with_fuel(text::decimal, 3);
        assert(r.label_text() =~= w + " \u{2014} "@ + text::decimal(c as nat) + "/s"@);
        assert(r.compact_label_text() =~= w + " ("@ + text::decimal(c as nat) + "/s)"@);
    }
}

/// A rate's settings word is the first word of its label, lower-cased, and
/// that word is read back as the same rate: the word written for a rate names
/// the rate that the menu shows under it.
pub proof fn lemma_config_name_is_label_word(r: ClickRate)
    ensures
        r.config_name().len() < r.label_text().len(),
        r.label_text()[r.config_name().len() as int] == ' ',
        r.config_name() == text::ascii_lower(r.label_text().take(r.config_name().len() as int)),
        r.config_name() == text::ascii_lower(r.compact_label_text().take(
            r.config_name().len() as int,
        )),
        ClickRate::parse_config_name(text::ascii_lower(r.label_text().take(
            r.config_name().len() as int,
        ))) == Some(r),
{
    lemma_labels_agree(r);
    lemma_rate_config_round_trip(r);
    reveal_strlit("slow");
    reveal_strlit("normal");
    reveal_strlit("fast");
    reveal_strlit("rapid");
    reveal_strlit("turbo");
    reveal_strlit("extreme");
    reveal_strlit("maximum");
    reveal_strlit("fps");
    reveal_strlit("Slow");
    reveal_strlit("Normal");
    reveal_strlit("Fast");
    reveal_strlit("Rapid");
    reveal_strlit("Turbo");
    reveal_strlit("Extreme");
    reveal_strlit("Maximum");
    reveal_strlit("FPS");
    let w = rate_word(r);
    let n = r.config_name();
    assert(n.len() == w.len());
    assert(r.label_text().take(n.len() as int) =~= w);
    assert(r.compact_label_text().take(n.len() as int) =~= w);
    assert(r.label_text()[n.len() as int] == r.label_text().take(n.len() as int + 1)[n.len() as int]);
    assert(text::ascii_lower(w) =~= n);
}

/// Distinct rates have distinct labels and distinct compact labels.
pub proof fn lemma_labels_distinct(a: ClickRate, b: ClickRate)
    ensures
        a.label_text() == b.label_text() ==> a == b,
        a.compact_label_text() == b.compact_label_text() ==> a == b,
{
    lemma_labels_agree(a);
    lemma_labels_agree(b);
    lemma_word_initials_distinct(a, b);
    lemma_word_initials_distinct(b, a);
    let wa = rate_word(a);
    let wb = rate_word(b);
    assert(wa.len() >= 2 && wb.len() >= 2);
    assert(wa.push(' ')[0] == wa[0] && wa.push(' ')[1] == wa[1]);
    assert(wb.push(' ')[0] == wb[0] && wb.push(' ')[1] == wb[1]);
    if a.label_text() == b.label_text() {
        let la = a.label_text();
        assert(la.take(wa.len() as int + 1)[0] == la[0]);
        assert(la.take(wa.len() as int + 1)[1] == la[1]);
        assert(la.take(wb.len() as int + 1)[0] == la[0]);
        assert(la.take(wb.len() as int + 1)[1] == la[1]);
    }
    if a.compact_label_text() == b.compact_label_text() {
        let ca = a.compact_label_text();
        assert(ca.take(wa.len() as int + 1)[0] == ca[0]);
        assert(ca.take(wa.len() as int + 1)[1] == ca[1]);
        assert(ca.take(wb.len() as int + 1)[0] == ca[0]);
        assert(ca.take(wb.len() as int + 1)[1] == ca[1]);
    }
}

/// The first two letters of a rate's word tell the rate.
proof fn lemma_word_initials_distinct(a: ClickRate, b: ClickRate)
    ensures
        rate_word(a).len() >= 2,
        rate_word(a)[0] == rate_word(b)[0] && rate_word(a)[1] == rate_word(b)[1] ==> a == b,
{
    reveal_strlit("Slow");
    reveal_strlit("Normal");
    reveal_strlit("Fast");
    reveal_strlit("Rapid");
    reveal_strlit("Turbo");
    reveal_strlit("Extreme");
    reveal_strlit("Maximum");
    reveal_strlit("FPS");
}

// ---------------------------------------------------------------------------
// The clicking loop
// ---------------------------------------------------------------------------

/// The number of clicks per cycle of the maximum rate, within its range.
pub fn clamp_burst(burst: u8) -> (r: u8)
    ensures
        r == config::clamp_spec(burst, config::MIN_BURST, config::MAX_BURST),
{
    config::clamp_u8(burst, config::MIN_BURST, config::MAX_BURST)
}

/// Every how many frames the per-frame rate reads the monitor's refresh rate
/// again.
pub const REFRESH_POLL_FRAMES: u32 = 300;

/// What the clicking thread does next.
#[derive(Clone, Copy, Debug, PartialEq, Eq, Structural)]
pub enum LoopStep {
    /// Not running: forget the pacing and the cursor jitter, then sleep
    /// briefly.
    Idle,
    /// The maximum rate: forget the delay randomization, then click in
    /// bursts until the rate or the running state changes.
    Burst,
    /// One paced click at `rate`. `restart_pacing` asks to forget the pacing
    /// and the delay randomization first (the rate has changed);
    /// `refresh_monitor` asks to read the monitor's refresh rate again.
    Paced { rate: ClickRate, restart_pacing: bool, refresh_monitor: bool },
}

/// What the clicking thread remembers between steps.
#[derive(Clone, Copy, Debug, PartialEq, Eq, Structural)]
pub struct LoopState {
    pub last_rate: Option<ClickRate>,
    pub frame_ticks: u32,
}

impl LoopState {
    pub fn new() -> (r: LoopState)
        ensures
            r.last_rate is None,
            r.frame_ticks == 0,
    {
        LoopState { last_rate: None, frame_ticks: 0 }
    }

    /// The next step for the shared running flag and rate number.
    pub fn next_step(&mut self, running: bool, rate_code: u8) -> (step: LoopStep)
        ensures
            !running ==> step == LoopStep::Idle && *final(self) == *old(self),
            running && rate_code == ClickRate::Maximum.code() ==> step == LoopStep::Burst
                && final(self).last_rate == Some(ClickRate::Maximum) && final(self).frame_ticks
                == old(self).frame_ticks,
            running && rate_code != ClickRate::Maximum.code() ==> ({
                let rate = ClickRate::from_code(rate_code);
                let is_frame_rate = rate == ClickRate::Fps;
                &&& step == LoopStep::Paced {
                    rate,
                    restart_pacing: old(self).last_rate != Some(rate),
                    refresh_monitor: is_frame_rate && old(self).frame_ticks % REFRESH_POLL_FRAMES
                        == 0,
                }
                &&& final(self).last_rate == Some(rate)
                &&& final(self).frame_ticks == if is_frame_rate {
                    (old(self).frame_ticks + 1) % 0x1_0000_0000
                } else {
                    old(self).frame_ticks as int
                }
            }),
    {
        if !running {
            return LoopStep::Idle;
        }
        if rate_code == ClickRate::Maximum.as_u8() {
            self.last_rate = Some(ClickRate::Maximum);
            return LoopStep::Burst;
        }
        let rate = ClickRate::from_u8(rate_code);
        let restart_pacing = match self.last_rate {
            Some(last) => last != rate,
            None => true,
        };
        self.last_rate = Some(rate);
        match rate {
            ClickRate::Fps => {
                let refresh_monitor = self.frame_ticks % REFRESH_POLL_FRAMES == 0;
                self.frame_ticks = self.frame_ticks.wrapping_add(1);
                LoopStep::Paced { rate, restart_pacing, refresh_monitor }
            },
            _ => LoopStep::Paced { rate, restart_pacing, refresh_monitor: false },
        }
    }
}

/// Whether the clicking thread keeps going.
pub fn keeps_running(shutdown: bool, running: bool) -> (r: bool)
    ensures
        r == (!shutdown && running),
{
    !shutdown && running
}

/// Every how many burst cycles the thread yields its time slice.
pub const BURST_YIELD_STRIDE: u32 = 8192;

/// Every how many burst cycles the thread looks at the cursor and the
/// shared state.
pub const BURST_POLL_STRIDE: u32 = 64;

/// What follows one cycle of the maximum rate.
#[derive(Clone, Copy, Debug, PartialEq, Eq, Structural)]
pub struct BurstTick {
    pub yield_now: bool,
    pub poll: bool,
}

/// The cycle counters of the maximum rate.
#[derive(Clone, Copy, Debug, PartialEq, Eq, Structural)]
pub struct BurstCounter {
    /// Cycles since the thread started, wrapping.
    pub cycles: u32,
    /// Cycles since the last look at the cursor and the shared state.
    pub since_poll: u32,
}

impl BurstCounter {
    pub fn new() -> (r: BurstCounter)
        ensures
            r.cycles == 0,
            r.since_poll == 0,
    {
        BurstCounter { cycles: 0, since_poll: 0 }
    }

    /// Entering the maximum rate: the poll count starts over.
    pub fn enter(&mut self)
        ensures
            final(self).cycles == old(self).cycles,
            final(self).since_poll == 0,
    {
        self.since_poll = 0;
    }

    /// Counts one cycle.
    pub fn count_cycle(&mut self) -> (tick: BurstTick)
        ensures
            final(self).cycles == (old(self).cycles + 1) % 0x1_0000_0000,
            tick.yield_now == (final(self).cycles % BURST_YIELD_STRIDE == 0),
            tick.poll == ((old(self).since_poll + 1) % 0x1_0000_0000 >= BURST_POLL_STRIDE),
            final(self).since_poll == if tick.poll {
                0
            } else {
                (old(self).since_poll + 1) % 0x1_0000_0000
            },
    {
        self.cycles = self.cycles.wrapping_add(1);
        let since = self.since_poll.wrapping_add(1);
        let poll = since >= BURST_POLL_STRIDE;
        self.since_poll = if poll {
            0
        } else {
            since
        };
        BurstTick { yield_now: self.cycles % BURST_YIELD_STRIDE == 0, poll }
    }
}

/// Whether the maximum rate goes on after a look at the shared state.
pub fn burst_continues(shutdown: bool, running: bool, rate_code: u8) -> (r: bool)
    ensures
        r == (!shutdown && running && rate_code == ClickRate::Maximum.code()),
{
    !shutdown && running && rate_code == ClickRate::Maximum.as_u8()
}

/// How to wait for a deadline that is `remaining_ns` away.
#[derive(Clone, Copy, Debug, PartialEq, Eq, Structural)]
pub enum WaitAction {
    /// The deadline has come.
    Done,
    /// Sleep this many nanoseconds, waking a millisecond early.
    Sleep(u64),
    /// Yield the time slice.
    Yield,
    /// Spin once.
    Spin,
}

/// The longest wait that sleeps, yields, and spins; a wait longer than
/// `SLEEP_ABOVE_NS` sleeps for all but `SLEEP_MARGIN_NS` of it.
pub const SLEEP_ABOVE_NS: u64 = 2_000_000;
pub const SLEEP_MARGIN_NS: u64 = 1_000_000;
pub const YIELD_ABOVE_NS: u64 = 200_000;

/// The next move towards a deadline, the clock reading `now_ns`.
pub fn wait_action(now_ns: u64, deadline_ns: u64) -> (r: WaitAction)
    ensures
        now_ns >= deadline_ns ==> r == WaitAction::Done,
        now_ns < deadline_ns ==> ({
            let remaining = deadline_ns - now_ns;
            if remaining > SLEEP_ABOVE_NS {
                r == WaitAction::Sleep((remaining - SLEEP_MARGIN_NS) as u64)
            } else if remaining > YIELD_ABOVE_NS {
                r == WaitAction::Yield
            } else {
                r == WaitAction::Spin
            }
        }),
{
    if now_ns >= deadline_ns {
        return WaitAction::Done;
    }
    let remaining = deadline_ns - now_ns;
    if remaining > SLEEP_ABOVE_NS {
        WaitAction::Sleep(remaining - SLEEP_MARGIN_NS)
    } else if remaining > YIELD_ABOVE_NS {
        WaitAction::Yield
    } else {
        WaitAction::Spin
    }
}

} // verus!
