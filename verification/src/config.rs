//! The settings file: an INI-like text of `key=value` lines, read leniently
//! (unknown keys and unreadable values keep the default) and written in a
//! fixed order.

use vstd::prelude::*;
use crate::hotkey;
use crate::hotkey::{HotkeyBinding, HotkeyModifiers, KeyCode};
use crate::text;
use crate::worker;
use crate::worker::ClickRate;

verus! {

/// The settings of the clicker.
#[derive(Clone, Copy, Debug, PartialEq, Eq, Structural)]
pub struct AppConfig {
    pub click_rate: ClickRate,
    pub hotkey: HotkeyBinding,
    pub pinned: bool,
    pub background_opacity: u8,
    pub humanize_random_delay: bool,
    pub humanize_cursor_jitter: bool,
    pub maximum_burst: u8,
    pub window_x: Option<i32>,
    pub window_y: Option<i32>,
}

/// The lowest and highest background opacity, in percent.
pub const MIN_OPACITY: u8 = 15;
pub const MAX_OPACITY: u8 = 100;

/// The fewest and most clicks sent per cycle of the maximum rate.
pub const MIN_BURST: u8 = 1;
pub const MAX_BURST: u8 = 5;

/// `u8::clamp`.
pub open spec fn clamp_spec(v: u8, lo: u8, hi: u8) -> u8 {
    if v < lo {
        lo
    } else if v > hi {
        hi
    } else {
        v
    }
}

/// Clamping lands in the range, leaves a value in the range as it is, and
/// keeps the order of values.
pub proof fn lemma_clamp_laws(v: u8, w: u8, lo: u8, hi: u8)
    requires
        lo <= hi,
    ensures
        lo <= clamp_spec(v, lo, hi) <= hi,
        lo <= v <= hi ==> clamp_spec(v, lo, hi) == v,
        v <= w ==> clamp_spec(v, lo, hi) <= clamp_spec(w, lo, hi),
        v < lo ==> clamp_spec(v, lo, hi) == lo,
        hi < v ==> clamp_spec(v, lo, hi) == hi,
{
}

/// `v.clamp(lo, hi)`.
pub fn clamp_u8(v: u8, lo: u8, hi: u8) -> (r: u8)
    requires
        lo <= hi,
    ensures
        r == clamp_spec(v, lo, hi),
{
    if v < lo {
        lo
    } else if v > hi {
        hi
    } else {
        v
    }
}

/// A settings value that switches an option on: `1`, `true`, `yes` or `on`,
/// in any ASCII case.
pub open spec fn is_truthy(value: Seq<char>) -> bool {
    let v = text::ascii_lower(value);
    v == "1"@ || v == "true"@ || v == "yes"@ || v == "on"@
}

/// How a switch is written.
pub open spec fn bool_word(b: bool) -> Seq<char> {
    if b {
        "true"@
    } else {
        "false"@
    }
}

impl AppConfig {
    /// The settings used where the file says nothing.
    pub open spec fn defaults() -> AppConfig {
        AppConfig {
            click_rate: ClickRate::Normal,
            hotkey: HotkeyBinding { modifiers: HotkeyModifiers::none(), code: KeyCode::F8 },
            pinned: false,
            background_opacity: 95,
            humanize_random_delay: false,
            humanize_cursor_jitter: false,
            maximum_burst: 1,
            window_x: None,
            window_y: None,
        }
    }

    /// Opacity and burst size within their ranges.
    pub open spec fn well_formed(self) -> bool {
        &&& MIN_OPACITY <= self.background_opacity <= MAX_OPACITY
        &&& MIN_BURST <= self.maximum_burst <= MAX_BURST
    }
}

/// The effect of one `key=value` setting whose key is already trimmed and
/// lower-cased and whose value is trimmed. A value that cannot be read
/// leaves the setting as it was.
pub open spec fn apply_value(c: AppConfig, key: Seq<char>, value: Seq<char>) -> AppConfig {
    if key == "click_rate"@ {
        match ClickRate::parse_config_name(value) {
            Some(r) => AppConfig { click_rate: r, ..c },
            None => c,
        }
    } else if key == "hotkey"@ {
        match hotkey::parse_binding(value) {
            Some(h) => AppConfig { hotkey: h, ..c },
            None => c,
        }
    } else if key == "pinned"@ {
        AppConfig { pinned: is_truthy(value), ..c }
    } else if key == "background_opacity"@ || key == "bg_opacity_percent"@ {
        match text::parse_u8_text(value) {
            Some(p) => AppConfig { background_opacity: clamp_spec(p, MIN_OPACITY, MAX_OPACITY), ..c },
            None => c,
        }
    } else if key == "humanize_random_delay"@ {
        AppConfig { humanize_random_delay: is_truthy(value), ..c }
    } else if key == "humanize_cursor_jitter"@ {
        AppConfig { humanize_cursor_jitter: is_truthy(value), ..c }
    } else if key == "maximum_burst"@ {
        match text::parse_u8_text(value) {
            Some(b) => AppConfig { maximum_burst: clamp_spec(b, MIN_BURST, MAX_BURST), ..c },
            None => c,
        }
    } else if key == "window_x"@ {
        match text::parse_i32_text(value) {
            Some(x) => AppConfig { window_x: Some(x), ..c },
            None => c,
        }
    } else if key == "window_y"@ {
        match text::parse_i32_text(value) {
            Some(y) => AppConfig { window_y: Some(y), ..c },
            None => c,
        }
    } else {
        c
    }
}

/// The effect of one line of the settings file: blank lines, comments
/// (`;`, `#`), section headers (`[`) and lines without `=` are skipped.
pub open spec fn apply_line(c: AppConfig, raw: Seq<char>) -> AppConfig {
    let line = text::trim(raw);
    if line.len() == 0 || line[0] == ';' || line[0] == '#' || line[0] == '[' {
        c
    } else {
        match text::split_once(line, '=') {
            Some(kv) => apply_value(c, text::ascii_lower(text::trim(kv.0)), text::trim(kv.1)),
            None => c,
        }
    }
}

pub open spec fn line_reader() -> spec_fn(AppConfig, Seq<char>) -> AppConfig {
    |c: AppConfig, line: Seq<char>| apply_line(c, line)
}

/// The settings that a settings text describes: the defaults, changed by
/// each line in turn.
pub open spec fn read_config(contents: Seq<char>) -> AppConfig {
    text::fold_parts(text::split_on(contents, '\n'), AppConfig::defaults(), line_reader())
}

/// One `key=value` line, ended by a line feed.
pub open spec fn setting_line(key: Seq<char>, value: Seq<char>) -> Seq<char> {
    key + seq!['='] + value + seq!['\n']
}

pub open spec fn optional_line(key: Seq<char>, value: Option<i32>) -> Seq<char> {
    match value {
        Some(v) => setting_line(key, text::signed_decimal(v as int)),
        None => Seq::<char>::empty(),
    }
}

/// The settings text that is written for `c`.
pub open spec fn config_text(c: AppConfig) -> Seq<char> {
    "[hermes]"@.push('\n') + setting_line("click_rate"@, c.click_rate.config_name())
        + setting_line("hotkey"@, hotkey::binding_text(c.hotkey)) + setting_line(
        "pinned"@,
        bool_word(c.pinned),
    ) + setting_line("background_opacity"@, text::decimal(c.background_opacity as nat))
        + setting_line("humanize_random_delay"@, bool_word(c.humanize_random_delay))
        + setting_line("humanize_cursor_jitter"@, bool_word(c.humanize_cursor_jitter))
        + setting_line("maximum_burst"@, text::decimal(c.maximum_burst as nat)) + optional_line(
        "window_x"@,
        c.window_x,
    ) + optional_line("window_y"@, c.window_y)
}

/// Whether a trimmed value switches an option on.
fn truthy(value: &Vec<char>) -> (r: bool)
    ensures
        r == is_truthy(value@),
{
    let v = text::lower_chars(value);
    text::chars_eq_str(&v, "1") || text::chars_eq_str(&v, "true") || text::chars_eq_str(&v, "yes")
        || text::chars_eq_str(&v, "on")
}

/// Applies one `key=value` setting.
fn apply_setting(c: &mut AppConfig, key: &Vec<char>, value: &Vec<char>)
    ensures
        *final(c) == apply_value(*old(c), key@, value@),
{
    if text::chars_eq_str(key, "click_rate") {
        let v = text::chars_to_string(value);
        if let Some(r) = ClickRate::from_config_value(v.as_str()) {
            c.click_rate = r;
        }
    } else if text::chars_eq_str(key, "hotkey") {
        let v = text::chars_to_string(value);
        if let Some(h) = HotkeyBinding::parse(v.as_str()) {
            c.hotkey = h;
        }
    } else if text::chars_eq_str(key, "pinned") {
        c.pinned = truthy(value);
    } else if text::chars_eq_str(key, "background_opacity") || text::chars_eq_str(
        key,
        "bg_opacity_percent",
    ) {
        if let Some(p) = text::parse_u8_chars(value) {
            c.background_opacity = clamp_u8(p, MIN_OPACITY, MAX_OPACITY);
        }
    } else if text::chars_eq_str(key, "humanize_random_delay") {
        c.humanize_random_delay = truthy(value);
    } else if text::chars_eq_str(key, "humanize_cursor_jitter") {
        c.humanize_cursor_jitter = truthy(value);
    } else if text::chars_eq_str(key, "maximum_burst") {
        if let Some(b) = text::parse_u8_chars(value) {
            c.maximum_burst = clamp_u8(b, MIN_BURST, MAX_BURST);
        }
    } else if text::chars_eq_str(key, "window_x") {
        if let Some(x) = text::parse_i32_chars(value) {
            c.window_x = Some(x);
        }
    } else if text::chars_eq_str(key, "window_y") {
        if let Some(y) = text::parse_i32_chars(value) {
            c.window_y = Some(y);
        }
    }
}

/// Applies one line of the settings file.
fn read_line(c: &mut AppConfig, raw: &Vec<char>)
    ensures
        *final(c) == apply_line(*old(c), raw@),
{
    let line = text::trim_chars(raw);
    if line.len() == 0 || line[0] == ';' || line[0] == '#' || line[0] == '[' {
        return;
    }
    match text::split_once_chars(&line, '=') {
        Some((k, v)) => {
            let key = text::lower_chars(&text::trim_chars(&k));
            let value = text::trim_chars(&v);
            apply_setting(c, &key, &value);
        },
        None => {},
    }
}

impl Default for AppConfig {
    fn default() -> (r: AppConfig)
        ensures
            r == AppConfig::defaults(),
    {
        AppConfig {
            click_rate: ClickRate::Normal,
            hotkey: HotkeyBinding::default(),
            pinned: false,
            background_opacity: 95,
            humanize_random_delay: false,
            humanize_cursor_jitter: false,
            maximum_burst: 1,
            window_x: None,
            window_y: None,
        }
    }
}

impl AppConfig {
    /// The settings that a settings text describes.
    pub fn from_config_text(contents: &str) -> (r: AppConfig)
        ensures
            r == read_config(contents@),
            r.well_formed(),
    {
        let chars = text::str_chars(contents);
        let ghost v = chars@;
        let ghost f = line_reader();
        let mut cfg = AppConfig::default();
        let mut cur: Vec<char> = Vec::new();
        let mut i: usize = 0;
        proof {
            assert(v.take(0) =~= Seq::<char>::empty());
        }
        while i < chars.len()
            invariant
                v == chars@,
                f == line_reader(),
                i <= v.len(),
                text::split_on(v.take(i as int), '\n').len() >= 1,
                cfg == text::fold_parts(
                    text::split_on(v.take(i as int), '\n').drop_last(),
                    AppConfig::defaults(),
                    f,
                ),
                cur@ == text::split_on(v.take(i as int), '\n').last(),
            decreases chars.len() - i,
        {
            let c = chars[i];
            let ghost parts = text::split_on(v.take(i as int), '\n');
            proof {
                assert(v.take(i + 1).drop_last() =~= v.take(i as int));
                assert(v.take(i + 1).last() == c);
                text::lemma_split_nonempty(v.take(i + 1), '\n');
            }
            if c == '\n' {
                proof {
                    assert(text::split_on(v.take(i + 1), '\n') == parts.push(Seq::<char>::empty()));
                    assert(parts.push(Seq::<char>::empty()).drop_last() =~= parts);
                    assert(text::fold_parts(parts, AppConfig::defaults(), f) == f(
                        text::fold_parts(parts.drop_last(), AppConfig::defaults(), f),
                        parts.last(),
                    ));
                    assert(f(cfg, cur@) == apply_line(cfg, cur@));
                }
                read_line(&mut cfg, &cur);
                cur = Vec::new();
            } else {
                cur.push(c);
                proof {
                    let np = parts.drop_last().push(parts.last().push(c));
                    assert(text::split_on(v.take(i + 1), '\n') == np);
                    assert(np.drop_last() =~= parts.drop_last());
                }
            }
            i = i + 1;
        }
        proof {
            let parts = text::split_on(v.take(i as int), '\n');
            assert(f(cfg, cur@) == apply_line(cfg, cur@));
            assert(text::fold_parts(parts, AppConfig::defaults(), f) == f(
                text::fold_parts(parts.drop_last(), AppConfig::defaults(), f),
                parts.last(),
            ));
        }
        read_line(&mut cfg, &cur);
        proof {
            assert(v.take(v.len() as int) =~= v);
            lemma_read_config_well_formed(contents@);
        }
        cfg
    }

    /// The settings text for these settings.
    pub fn to_config_text(&self) -> (r: String)
        ensures
            r@ == config_text(*self),
    {
        let mut out = String::new();
        text::push_str(&mut out, "[hermes]");
        text::push_char(&mut out, '\n');
        let ghost l0 = out@;
        push_line_str(&mut out, "click_rate", self.click_rate.as_config_value());
        let ghost l1 = out@;
        let hotkey_text = self.hotkey.display_text();
        push_line_str(&mut out, "hotkey", hotkey_text.as_str());
        let ghost l2 = out@;
        push_line_str(&mut out, "pinned", bool_text(self.pinned));
        let ghost l3 = out@;
        push_line_number(&mut out, "background_opacity", self.background_opacity);
        let ghost l4 = out@;
        push_line_str(&mut out, "humanize_random_delay", bool_text(self.humanize_random_delay));
        let ghost l5 = out@;
        push_line_str(&mut out, "humanize_cursor_jitter", bool_text(self.humanize_cursor_jitter));
        let ghost l6 = out@;
        push_line_number(&mut out, "maximum_burst", self.maximum_burst);
        let ghost l7 = out@;
        if let Some(x) = self.window_x {
            push_line_signed(&mut out, "window_x", x);
        }
        let ghost l8 = out@;
        if let Some(y) = self.window_y {
            push_line_signed(&mut out, "window_y", y);
        }
        proof {
            let c = *self;
            assert(l0 =~= "[hermes]"@.push('\n'));
            assert(l8 =~= l7 + optional_line("window_x"@, c.window_x));
            assert(out@ =~= l8 + optional_line("window_y"@, c.window_y));
        }
        out
    }
}

fn bool_text(b: bool) -> (r: &'static str)
    ensures
        r@ == bool_word(b),
{
    if b {
        "true"
    } else {
        "false"
    }
}

fn push_line_str(out: &mut String, key: &str, value: &str)
    ensures
        final(out)@ == old(out)@ + setting_line(key@, value@),
{
    text::push_str(out, key);
    text::push_char(out, '=');
    text::push_str(out, value);
    text::push_char(out, '\n');
    proof {
        assert(final(out)@ =~= old(out)@ + setting_line(key@, value@));
    }
}

fn push_line_number(out: &mut String, key: &str, value: u8)
    ensures
        final(out)@ == old(out)@ + setting_line(key@, text::decimal(value as nat)),
{
    text::push_str(out, key);
    text::push_char(out, '=');
    text::push_decimal(out, value as u32);
    text::push_char(out, '\n');
    proof {
        assert(final(out)@ =~= old(out)@ + setting_line(key@, text::decimal(value as nat)));
    }
}

fn push_line_signed(out: &mut String, key: &str, value: i32)
    ensures
        final(out)@ == old(out)@ + setting_line(key@, text::signed_decimal(value as int)),
{
    text::push_str(out, key);
    text::push_char(out, '=');
    text::push_signed_decimal(out, value);
    text::push_char(out, '\n');
    proof {
        assert(final(out)@ =~= old(out)@ + setting_line(key@, text::signed_decimal(value as int)));
    }
}

/// Each line keeps the settings well formed.
pub proof fn lemma_apply_line_well_formed(c: AppConfig, raw: Seq<char>)
    requires
        c.well_formed(),
    ensures
        apply_line(c, raw).well_formed(),
{
}

/// Whatever the settings text holds, the settings read from it are well
/// formed: the opacity and the burst size lie within their ranges.
pub proof fn lemma_read_config_well_formed(contents: Seq<char>)
    ensures
        read_config(contents).well_formed(),
{
    lemma_fold_well_formed(text::split_on(contents, '\n'));
}

proof fn lemma_fold_well_formed(parts: Seq<Seq<char>>)
    ensures
        text::fold_parts(parts, AppConfig::defaults(), line_reader()).well_formed(),
    decreases parts.len(),
{
    if parts.len() > 0 {
        lemma_fold_well_formed(parts.drop_last());
        lemma_apply_line_well_formed(
            text::fold_parts(parts.drop_last(), AppConfig::defaults(), line_reader()),
            parts.last(),
        );
    }
}

/// A settings key as written: nonempty, lower-case, without spaces at its
/// ends, not starting a comment or section, without `=` or line break.
pub open spec fn plain_key(k: Seq<char>) -> bool {
    &&& k.len() > 0
    &&& !text::is_space(k[0])
    &&& !text::is_space(k.last())
    &&& k[0] != ';' && k[0] != '#' && k[0] != '['
    &&& !k.contains('=')
    &&& !k.contains('\n')
    &&& text::ascii_lower(k) == k
}

/// A settings value as written: nonempty, without spaces at its ends and
/// without line break.
pub open spec fn plain_value(v: Seq<char>) -> bool {
    &&& v.len() > 0
    &&& !text::is_space(v[0])
    &&& !text::is_space(v.last())
    &&& !v.contains('\n')
}

proof fn lemma_plain_key(k: Seq<char>)
    requires
        k.len() > 0,
        forall|i: int| 0 <= i < k.len() ==> ('a' <= #[trigger] k[i] <= 'z' || k[i] == '_'),
    ensures
        plain_key(k),
{
    assert(text::ascii_lower(k) =~= k);
}

proof fn lemma_keys_plain()
    ensures
        plain_key("click_rate"@),
        plain_key("hotkey"@),
        plain_key("pinned"@),
        plain_key("background_opacity"@),
        plain_key("humanize_random_delay"@),
        plain_key("humanize_cursor_jitter"@),
        plain_key("maximum_burst"@),
        plain_key("window_x"@),
        plain_key("window_y"@),
{
    reveal_strlit("click_rate");
    reveal_strlit("hotkey");
    reveal_strlit("pinned");
    reveal_strlit("background_opacity");
    reveal_strlit("humanize_random_delay");
    reveal_strlit("humanize_cursor_jitter");
    reveal_strlit("maximum_burst");
    reveal_strlit("window_x");
    reveal_strlit("window_y");
    lemma_plain_key("click_rate"@);
    lemma_plain_key("hotkey"@);
    lemma_plain_key("pinned"@);
    lemma_plain_key("background_opacity"@);
    lemma_plain_key("humanize_random_delay"@);
    lemma_plain_key("humanize_cursor_jitter"@);
    lemma_plain_key("maximum_burst"@);
    lemma_plain_key("window_x"@);
    lemma_plain_key("window_y"@);
}

proof fn lemma_plain_digits(v: Seq<char>)
    requires
        v.len() > 0,
        text::all_digits(v),
    ensures
        plain_value(v),
{
    assert(v.last() == v[v.len() - 1]);
    assert(!v.contains('\n')) by {
        if v.contains('\n') {
            let k = choose|k: int| 0 <= k < v.len() && v[k] == '\n';
            assert(text::is_digit(v[k]));
        }
    }
}

proof fn lemma_values_plain(c: AppConfig)
    ensures
        plain_value(c.click_rate.config_name()),
        plain_value(hotkey::binding_text(c.hotkey)),
        plain_value(bool_word(c.pinned)),
        plain_value(bool_word(c.humanize_random_delay)),
        plain_value(bool_word(c.humanize_cursor_jitter)),
        plain_value(text::decimal(c.background_opacity as nat)),
        plain_value(text::decimal(c.maximum_burst as nat)),
        forall|x: i32| plain_value(#[trigger] text::signed_decimal(x as int)),
{
    reveal_strlit("slow");
    reveal_strlit("normal");
    reveal_strlit("fast");
    reveal_strlit("rapid");
    reveal_strlit("turbo");
    reveal_strlit("extreme");
    reveal_strlit("maximum");
    reveal_strlit("fps");
    reveal_strlit("true");
    reveal_strlit("false");
    hotkey::lemma_binding_text_plain(c.hotkey);
    text::lemma_decimal_digits(c.background_opacity as nat);
    lemma_plain_digits(text::decimal(c.background_opacity as nat));
    text::lemma_decimal_digits(c.maximum_burst as nat);
    lemma_plain_digits(text::decimal(c.maximum_burst as nat));
    assert forall|x: i32| plain_value(#[trigger] text::signed_decimal(x as int)) by {
        let s = text::signed_decimal(x as int);
        if x < 0 {
            let d = text::decimal((0 - x) as nat);
            text::lemma_decimal_digits((0 - x) as nat);
            lemma_plain_digits(d);
            assert(s.last() == d.last());
            assert(!s.contains('\n')) by {
                if s.contains('\n') {
                    let k = choose|k: int| 0 <= k < s.len() && s[k] == '\n';
                    if k > 0 {
                        assert(s[k] == d[k - 1]);
                    }
                }
            }
        } else {
            text::lemma_decimal_digits(x as nat);
            lemma_plain_digits(s);
        }
    }
}

/// An empty line changes nothing.
proof fn lemma_empty_line(c: AppConfig)
    ensures
        apply_line(c, Seq::<char>::empty()) == c,
{
    assert(text::trim(Seq::<char>::empty()) =~= Seq::<char>::empty());
}

/// A written `key=value` line, read after the lines before it.
proof fn lemma_line_step(s: Seq<char>, key: Seq<char>, value: Seq<char>, before: AppConfig)
    requires
        plain_key(key),
        plain_value(value),
        text::split_on(s, '\n').last() == Seq::<char>::empty(),
        text::fold_parts(text::split_on(s, '\n'), AppConfig::defaults(), line_reader()) == before,
    ensures
        text::split_on(s + setting_line(key, value), '\n').last() == Seq::<char>::empty(),
        text::fold_parts(text::split_on(s + setting_line(key, value), '\n'), AppConfig::defaults(), line_reader())
            == apply_value(before, key, value),
{
    let f = line_reader();
    let w = key + seq!['='] + value;
    assert forall|st: AppConfig| #[trigger] f(st, Seq::<char>::empty()) == st by {
        lemma_empty_line(st);
    }
    assert(!w.contains('\n')) by {
        if w.contains('\n') {
            let k = choose|k: int| 0 <= k < w.len() && w[k] == '\n';
            if k < key.len() {
                assert(key[k] == '\n');
            } else if k > key.len() {
                assert(value[k - key.len() - 1] == '\n');
            }
        }
    }
    assert(s + setting_line(key, value) =~= s + w + seq!['\n']);
    text::lemma_fold_piece_then_sep(s, w, '\n', AppConfig::defaults(), f);
    assert(w[0] == key[0]);
    assert(w.last() == value.last());
    text::lemma_trim_fixed(w);
    text::lemma_split_once_at(key, value, '=');
    text::lemma_trim_fixed(key);
    text::lemma_trim_fixed(value);
    assert(f(before, w) == apply_line(before, w));
}

proof fn lemma_read_switch(b: bool)
    ensures
        is_truthy(bool_word(b)) == b,
{
    reveal_strlit("1");
    reveal_strlit("true");
    reveal_strlit("yes");
    reveal_strlit("on");
    reveal_strlit("false");
    assert(text::ascii_lower("true"@) =~= "true"@);
    assert(text::ascii_lower("false"@) =~= "false"@);
}

proof fn reveal_keys()
    ensures
        "click_rate"@.len() == 10,
        "hotkey"@.len() == 6,
        "pinned"@.len() == 6,
        "background_opacity"@.len() == 18,
        "bg_opacity_percent"@.len() == 18,
        "humanize_random_delay"@.len() == 21,
        "humanize_cursor_jitter"@.len() == 22,
        "maximum_burst"@.len() == 13,
        "window_x"@.len() == 8,
        "window_y"@.len() == 8,
        "pinned"@ != "hotkey"@,
        "window_y"@ != "window_x"@,
{
    reveal_strlit("click_rate");
    reveal_strlit("hotkey");
    reveal_strlit("pinned");
    reveal_strlit("background_opacity");
    reveal_strlit("bg_opacity_percent");
    reveal_strlit("humanize_random_delay");
    reveal_strlit("humanize_cursor_jitter");
    reveal_strlit("maximum_burst");
    reveal_strlit("window_x");
    reveal_strlit("window_y");
    assert("pinned"@[0] != "hotkey"@[0]);
    assert("window_y"@[7] != "window_x"@[7]);
}

/// Each written setting is read back into its own field.
proof fn lemma_read_values(st: AppConfig, c: AppConfig)
    requires
        c.well_formed(),
    ensures
        apply_value(st, "click_rate"@, c.click_rate.config_name()) == (AppConfig { click_rate: c.click_rate, ..st }),
        apply_value(st, "hotkey"@, hotkey::binding_text(c.hotkey)) == (AppConfig { hotkey: c.hotkey, ..st }),
        apply_value(st, "pinned"@, bool_word(c.pinned)) == (AppConfig { pinned: c.pinned, ..st }),
        apply_value(st, "background_opacity"@, text::decimal(c.background_opacity as nat)) == (AppConfig {
            background_opacity: c.background_opacity,
            ..st
        }),
        apply_value(st, "humanize_random_delay"@, bool_word(c.humanize_random_delay)) == (AppConfig {
            humanize_random_delay: c.humanize_random_delay,
            ..st
        }),
        apply_value(st, "humanize_cursor_jitter"@, bool_word(c.humanize_cursor_jitter)) == (AppConfig {
            humanize_cursor_jitter: c.humanize_cursor_jitter,
            ..st
        }),
        apply_value(st, "maximum_burst"@, text::decimal(c.maximum_burst as nat)) == (AppConfig {
            maximum_burst: c.maximum_burst,
            ..st
        }),
        forall|x: i32|
            apply_value(st, "window_x"@, #[trigger] text::signed_decimal(x as int)) == (AppConfig {
                window_x: Some(x),
                ..st
            }),
        forall|y: i32|
            apply_value(st, "window_y"@, #[trigger] text::signed_decimal(y as int)) == (AppConfig {
                window_y: Some(y),
                ..st
            }),
{
    reveal_keys();
    lemma_read_rate(st, c.click_rate);
    lemma_read_hotkey(st, c.hotkey);
    lemma_read_pinned(st, c.pinned);
    lemma_read_opacity(st, c.background_opacity);
    lemma_read_delay(st, c.humanize_random_delay);
    lemma_read_jitter(st, c.humanize_cursor_jitter);
    lemma_read_burst(st, c.maximum_burst);
    assert forall|x: i32|
        apply_value(st, "window_x"@, #[trigger] text::signed_decimal(x as int)) == (AppConfig {
            window_x: Some(x),
            ..st
        }) by {
        lemma_read_window_x(st, x);
    }
    assert forall|y: i32|
        apply_value(st, "window_y"@, #[trigger] text::signed_decimal(y as int)) == (AppConfig {
            window_y: Some(y),
            ..st
        }) by {
        lemma_read_window_y(st, y);
    }
}

proof fn lemma_read_rate(st: AppConfig, r: ClickRate)
    ensures
        apply_value(st, "click_rate"@, r.config_name()) == (AppConfig { click_rate: r, ..st }),
{
    worker::lemma_rate_config_round_trip(r);
}

proof fn lemma_read_hotkey(st: AppConfig, h: HotkeyBinding)
    ensures
        apply_value(st, "hotkey"@, hotkey::binding_text(h)) == (AppConfig { hotkey: h, ..st }),
{
    reveal_keys();
    hotkey::lemma_binding_text_round_trip(h);
}

proof fn lemma_read_pinned(st: AppConfig, b: bool)
    ensures
        apply_value(st, "pinned"@, bool_word(b)) == (AppConfig { pinned: b, ..st }),
{
    reveal_keys();
    lemma_read_switch(b);
}

proof fn lemma_read_opacity(st: AppConfig, p: u8)
    requires
        MIN_OPACITY <= p <= MAX_OPACITY,
    ensures
        apply_value(st, "background_opacity"@, text::decimal(p as nat)) == (AppConfig {
            background_opacity: p,
            ..st
        }),
{
    reveal_keys();
    text::lemma_parse_u8_decimal(p);
}

proof fn lemma_read_delay(st: AppConfig, b: bool)
    ensures
        apply_value(st, "humanize_random_delay"@, bool_word(b)) == (AppConfig {
            humanize_random_delay: b,
            ..st
        }),
{
    reveal_keys();
    lemma_read_switch(b);
}

proof fn lemma_read_jitter(st: AppConfig, b: bool)
    ensures
        apply_value(st, "humanize_cursor_jitter"@, bool_word(b)) == (AppConfig {
            humanize_cursor_jitter: b,
            ..st
        }),
{
    reveal_keys();
    lemma_read_switch(b);
}

proof fn lemma_read_burst(st: AppConfig, b: u8)
    requires
        MIN_BURST <= b <= MAX_BURST,
    ensures
        apply_value(st, "maximum_burst"@, text::decimal(b as nat)) == (AppConfig {
            maximum_burst: b,
            ..st
        }),
{
    reveal_keys();
    text::lemma_parse_u8_decimal(b);
}

proof fn lemma_read_window_x(st: AppConfig, x: i32)
    ensures
        apply_value(st, "window_x"@, text::signed_decimal(x as int)) == (AppConfig {
            window_x: Some(x),
            ..st
        }),
{
    reveal_keys();
    text::lemma_parse_i32_decimal(x);
}

proof fn lemma_read_window_y(st: AppConfig, y: i32)
    ensures
        apply_value(st, "window_y"@, text::signed_decimal(y as int)) == (AppConfig {
            window_y: Some(y),
            ..st
        }),
{
    reveal_keys();
    text::lemma_parse_i32_decimal(y);
}

/// Settings written to text and read back are the settings written, as long
/// as opacity and burst size lie within their ranges (as every read or
/// default settings do).
pub proof fn lemma_config_text_round_trip(c: AppConfig)
    requires
        c.well_formed(),
    ensures
        read_config(config_text(c)) == c,
{
    let f = line_reader();
    let d = AppConfig::defaults();
    let e = Seq::<char>::empty();
    lemma_keys_plain();
    lemma_values_plain(c);
    reveal_strlit("[hermes]");
    // The header line.
    let h = "[hermes]"@;
    let s0 = h.push('\n');
    assert(!h.contains('\n'));
    assert forall|st: AppConfig| #[trigger] f(st, e) == st by {
        lemma_empty_line(st);
    }
    assert(text::split_on(e, '\n') == seq![e]);
    assert(seq![e].drop_last() =~= Seq::<Seq<char>>::empty());
    assert(text::fold_parts(Seq::<Seq<char>>::empty(), d, f) == d);
    assert(seq![e].last() == e);
    assert(text::fold_parts(seq![e], d, f) == f(d, e));
    assert(e + h + seq!['\n'] =~= s0);
    text::lemma_fold_piece_then_sep(e, h, '\n', d, f);
    assert(text::trim(h) == h) by {
        text::lemma_trim_fixed(h);
    }
    assert(f(d, h) == apply_line(d, h));
    assert(apply_line(d, h) == d);

    let st1 = AppConfig { click_rate: c.click_rate, ..d };
    lemma_read_values(d, c);
    lemma_line_step(s0, "click_rate"@, c.click_rate.config_name(), d);
    let s1 = s0 + setting_line("click_rate"@, c.click_rate.config_name());

    let st2 = AppConfig { hotkey: c.hotkey, ..st1 };
    lemma_read_values(st1, c);
    lemma_line_step(s1, "hotkey"@, hotkey::binding_text(c.hotkey), st1);
    let s2 = s1 + setting_line("hotkey"@, hotkey::binding_text(c.hotkey));

    let st3 = AppConfig { pinned: c.pinned, ..st2 };
    lemma_read_values(st2, c);
    lemma_line_step(s2, "pinned"@, bool_word(c.pinned), st2);
    let s3 = s2 + setting_line("pinned"@, bool_word(c.pinned));

    let st4 = AppConfig { background_opacity: c.background_opacity, ..st3 };
    lemma_read_values(st3, c);
    lemma_line_step(s3, "background_opacity"@, text::decimal(c.background_opacity as nat), st3);
    let s4 = s3 + setting_line("background_opacity"@, text::decimal(c.background_opacity as nat));

    let st5 = AppConfig { humanize_random_delay: c.humanize_random_delay, ..st4 };
    lemma_read_values(st4, c);
    lemma_line_step(s4, "humanize_random_delay"@, bool_word(c.humanize_random_delay), st4);
    let s5 = s4 + setting_line("humanize_random_delay"@, bool_word(c.humanize_random_delay));

    let st6 = AppConfig { humanize_cursor_jitter: c.humanize_cursor_jitter, ..st5 };
    lemma_read_values(st5, c);
    lemma_line_step(s5, "humanize_cursor_jitter"@, bool_word(c.humanize_cursor_jitter), st5);
    let s6 = s5 + setting_line("humanize_cursor_jitter"@, bool_word(c.humanize_cursor_jitter));

    let st7 = AppConfig { maximum_burst: c.maximum_burst, ..st6 };
    lemma_read_values(st6, c);
    lemma_line_step(s6, "maximum_burst"@, text::decimal(c.maximum_burst as nat), st6);
    let s7 = s6 + setting_line("maximum_burst"@, text::decimal(c.maximum_burst as nat));

    let st8 = AppConfig { window_x: c.window_x, ..st7 };
    lemma_read_values(st7, c);
    let s8 = s7 + optional_line("window_x"@, c.window_x);
    if let Some(x) = c.window_x {
        lemma_line_step(s7, "window_x"@, text::signed_decimal(x as int), st7);
    } else {
        assert(s8 =~= s7);
    }

    let st9 = AppConfig { window_y: c.window_y, ..st8 };
    lemma_read_values(st8, c);
    let s9 = s8 + optional_line("window_y"@, c.window_y);
    if let Some(y) = c.window_y {
        lemma_line_step(s8, "window_y"@, text::signed_decimal(y as int), st8);
    } else {
        assert(s9 =~= s8);
    }
    assert(st9 == c);
    assert(config_text(c) =~= s9);
}

/// Reading the settings back after writing what was read gives the same
/// settings: saving at start-up does not change what the file says.
pub proof fn lemma_reread_config(contents: Seq<char>)
    ensures
        read_config(config_text(read_config(contents))) == read_config(contents),
{
    lemma_read_config_well_formed(contents);
    lemma_config_text_round_trip(read_config(contents));
}

} // verus!
