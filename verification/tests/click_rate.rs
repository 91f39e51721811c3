use hermes_clicker::worker::ClickRate;

const ALL_RATES: [ClickRate; 8] = [
    ClickRate::Slow,
    ClickRate::Normal,
    ClickRate::Fast,
    ClickRate::Rapid,
    ClickRate::Turbo,
    ClickRate::Extreme,
    ClickRate::Maximum,
    ClickRate::Fps,
];

#[test]
fn labels_name_each_rate() {
    assert_eq!(ClickRate::Slow.label(), "Slow \u{2014} 1/s");
    assert_eq!(ClickRate::Extreme.label(), "Extreme \u{2014} 120/s");
    assert_eq!(ClickRate::Maximum.label(), "Maximum \u{2014} \u{221E}/s");
    assert_eq!(ClickRate::Fps.label(), "FPS \u{2014} 1 per frame");
}

#[test]
fn compact_labels_name_each_rate() {
    assert_eq!(ClickRate::Normal.compact_label(), "Normal (6/s)");
    assert_eq!(ClickRate::Turbo.compact_label(), "Turbo (60/s)");
    assert_eq!(ClickRate::Maximum.compact_label(), "Maximum (\u{221E})");
    assert_eq!(ClickRate::Fps.compact_label(), "FPS (1/frame)");
}

#[test]
fn config_words_read_back() {
    for rate in ALL_RATES {
        assert_eq!(ClickRate::from_config_value(rate.as_config_value()), Some(rate));
    }
}

#[test]
fn config_words_ignore_case_and_spaces() {
    assert_eq!(ClickRate::from_config_value("  TuRbO \t"), Some(ClickRate::Turbo));
    assert_eq!(ClickRate::from_config_value("FPS"), Some(ClickRate::Fps));
}

#[test]
fn older_config_words_are_accepted() {
    assert_eq!(ClickRate::from_config_value("very_fast"), Some(ClickRate::Rapid));
    assert_eq!(ClickRate::from_config_value("Unsafe"), Some(ClickRate::Maximum));
}

#[test]
fn unknown_config_words_are_refused() {
    assert_eq!(ClickRate::from_config_value(""), None);
    assert_eq!(ClickRate::from_config_value("very fast"), None);
    assert_eq!(ClickRate::from_config_value("slowest"), None);
}

#[test]
fn rate_numbers_round_trip() {
    for rate in ALL_RATES {
        assert!(rate.as_u8() < 8);
        assert_eq!(ClickRate::from_u8(rate.as_u8()), rate);
    }
    assert_eq!(ClickRate::Slow.as_u8(), 0);
    assert_eq!(ClickRate::Fps.as_u8(), 7);
}

#[test]
fn unknown_rate_numbers_mean_normal() {
    assert_eq!(ClickRate::from_u8(8), ClickRate::Normal);
    assert_eq!(ClickRate::from_u8(255), ClickRate::Normal);
}

#[test]
fn fixed_rates_have_clicks_per_second() {
    assert_eq!(ClickRate::Slow.fixed_clicks_per_second(), Some(1));
    assert_eq!(ClickRate::Rapid.fixed_clicks_per_second(), Some(30));
    assert_eq!(ClickRate::Extreme.fixed_clicks_per_second(), Some(120));
    assert_eq!(ClickRate::Maximum.fixed_clicks_per_second(), None);
    assert_eq!(ClickRate::Fps.fixed_clicks_per_second(), None);
}

#[test]
fn menu_offers_every_rate_but_per_frame() {
    assert_eq!(ClickRate::ALL.len(), 7);
    assert_eq!(ClickRate::ALL[0], ClickRate::Slow);
    assert_eq!(ClickRate::ALL[6], ClickRate::Maximum);
    assert!(!ClickRate::ALL.contains(&ClickRate::Fps));
}

#[test]
fn labels_agree_with_each_other_and_the_pace() {
    for (i, a) in ALL_RATES.iter().enumerate() {
        let word = a.label().split(' ').next().unwrap();
        assert_eq!(a.compact_label().split(' ').next().unwrap(), word);
        if let Some(c) = a.fixed_clicks_per_second() {
            assert!(a.label().ends_with(&format!(" {}/s", c)));
            assert!(a.compact_label().ends_with(&format!("({}/s)", c)));
        }
        for b in ALL_RATES.iter().skip(i + 1) {
            assert_ne!(a.label(), b.label());
            assert_ne!(a.compact_label(), b.compact_label());
        }
    }
}
