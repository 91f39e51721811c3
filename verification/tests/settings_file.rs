use hermes_clicker::config::AppConfig;
use hermes_clicker::hotkey::{HotkeyBinding, HotkeyModifiers, KeyCode};
use hermes_clicker::worker::ClickRate;

#[test]
fn defaults() {
    let c = AppConfig::default();
    assert_eq!(c.click_rate, ClickRate::Normal);
    assert_eq!(c.hotkey, HotkeyBinding::default());
    assert!(!c.pinned);
    assert_eq!(c.background_opacity, 95);
    assert!(!c.humanize_random_delay);
    assert!(!c.humanize_cursor_jitter);
    assert_eq!(c.maximum_burst, 1);
    assert_eq!(c.window_x, None);
    assert_eq!(c.window_y, None);
}

#[test]
fn empty_text_gives_defaults() {
    assert_eq!(AppConfig::from_config_text(""), AppConfig::default());
    assert_eq!(AppConfig::from_config_text("\n\n  \r\n"), AppConfig::default());
}

#[test]
fn writes_default_settings() {
    let text = AppConfig::default().to_config_text();
    assert_eq!(
        text,
        "[hermes]\nclick_rate=normal\nhotkey=F8\npinned=false\nbackground_opacity=95\n\
         humanize_random_delay=false\nhumanize_cursor_jitter=false\nmaximum_burst=1\n"
    );
}

#[test]
fn writes_window_position_when_known() {
    let mut c = AppConfig::default();
    c.window_x = Some(-1280);
    c.window_y = Some(40);
    let text = c.to_config_text();
    assert!(text.ends_with("maximum_burst=1\nwindow_x=-1280\nwindow_y=40\n"));
}

#[test]
fn reads_every_setting() {
    let text = "[hermes]\r\n\
                click_rate = Turbo\r\n\
                hotkey = Ctrl+Alt+K\r\n\
                pinned = YES\r\n\
                background_opacity = 60\r\n\
                humanize_random_delay = on\r\n\
                humanize_cursor_jitter = 1\r\n\
                maximum_burst = 3\r\n\
                window_x = -20\r\n\
                window_y = +300\r\n";
    let c = AppConfig::from_config_text(text);
    assert_eq!(c.click_rate, ClickRate::Turbo);
    assert_eq!(
        c.hotkey,
        HotkeyBinding {
            modifiers: HotkeyModifiers { control: true, alt: true, shift: false, super_key: false },
            code: KeyCode::KeyK,
        }
    );
    assert!(c.pinned);
    assert_eq!(c.background_opacity, 60);
    assert!(c.humanize_random_delay);
    assert!(c.humanize_cursor_jitter);
    assert_eq!(c.maximum_burst, 3);
    assert_eq!(c.window_x, Some(-20));
    assert_eq!(c.window_y, Some(300));
}

#[test]
fn skips_comments_sections_and_unknown_keys() {
    let text = "; pinned=true\n# click_rate=slow\n[click_rate=fast]\nunknown=1\nno equals sign\n";
    assert_eq!(AppConfig::from_config_text(text), AppConfig::default());
}

#[test]
fn keys_ignore_case() {
    let c = AppConfig::from_config_text("Click_Rate=slow\nPINNED=true");
    assert_eq!(c.click_rate, ClickRate::Slow);
    assert!(c.pinned);
}

#[test]
fn unreadable_values_keep_the_setting() {
    let text = "click_rate=warp\nhotkey=Ctrl+\nbackground_opacity=-5\nmaximum_burst=x\nwindow_x=2147483648\n";
    assert_eq!(AppConfig::from_config_text(text), AppConfig::default());
}

#[test]
fn later_lines_win() {
    let c = AppConfig::from_config_text("maximum_burst=2\nmaximum_burst=4\n");
    assert_eq!(c.maximum_burst, 4);
}

#[test]
fn other_words_switch_off() {
    let c = AppConfig::from_config_text("pinned=true\npinned=maybe");
    assert!(!c.pinned);
}

#[test]
fn opacity_and_burst_are_clamped() {
    let c = AppConfig::from_config_text("background_opacity=3\nmaximum_burst=9");
    assert_eq!(c.background_opacity, 15);
    assert_eq!(c.maximum_burst, 5);
    let c = AppConfig::from_config_text("bg_opacity_percent=255\nmaximum_burst=0");
    assert_eq!(c.background_opacity, 100);
    assert_eq!(c.maximum_burst, 1);
    let c = AppConfig::from_config_text("background_opacity=256");
    assert_eq!(c.background_opacity, 95);
}

#[test]
fn only_first_equals_sign_splits() {
    // The value is "=F2", which names no key.
    let c = AppConfig::from_config_text("hotkey==F2");
    assert_eq!(c.hotkey.code, KeyCode::F8);
    let c = AppConfig::from_config_text("hotkey =F2=");
    assert_eq!(c.hotkey.code, KeyCode::F8);
    let c = AppConfig::from_config_text("hotkey = F2 ");
    assert_eq!(c.hotkey.code, KeyCode::F2);
}

#[test]
fn window_extremes() {
    let c = AppConfig::from_config_text("window_x=-2147483648\nwindow_y=2147483647");
    assert_eq!(c.window_x, Some(i32::MIN));
    assert_eq!(c.window_y, Some(i32::MAX));
}

#[test]
fn written_settings_read_back() {
    let c = AppConfig {
        click_rate: ClickRate::Fps,
        hotkey: HotkeyBinding {
            modifiers: HotkeyModifiers { control: false, alt: true, shift: true, super_key: true },
            code: KeyCode::Delete,
        },
        pinned: true,
        background_opacity: 15,
        humanize_random_delay: true,
        humanize_cursor_jitter: false,
        maximum_burst: 5,
        window_x: Some(i32::MIN),
        window_y: None,
    };
    assert_eq!(AppConfig::from_config_text(&c.to_config_text()), c);
    let d = AppConfig::default();
    assert_eq!(AppConfig::from_config_text(&d.to_config_text()), d);
}
