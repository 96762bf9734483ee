use discord_bot::supervisor::Supervisor;
use discord_bot::tasks::audio_task::audio_amplitude;
use discord_bot::tasks::display_task::{bar_height, bar_rect, mic_label, BarRect};
use discord_bot::text::{str_eq, trim_str};

#[test]
fn amplitude_is_peak_to_peak() {
    assert_eq!(audio_amplitude(&vec![Some(100), Some(300), Some(250)]), 200);
    assert_eq!(audio_amplitude(&vec![Some(100), None, Some(300)]), 300);
    assert_eq!(audio_amplitude(&vec![Some(2000); 100]), 0);
    assert_eq!(audio_amplitude(&vec![]), 0);
    assert_eq!(audio_amplitude(&vec![Some(5000)]), 905);
}

#[test]
fn bar_scales_and_clamps() {
    assert_eq!(bar_height(0), 1);
    assert_eq!(bar_height(63), 1);
    assert_eq!(bar_height(64), 1);
    assert_eq!(bar_height(128), 2);
    assert_eq!(bar_height(2048), 32);
    assert_eq!(bar_height(4095), 64);
    assert_eq!(bar_height(u16::MAX), 64);
    for level in 0..=u16::MAX {
        let h = bar_height(level);
        assert!((1..=64).contains(&h));
        if level > 0 {
            assert!(bar_height(level - 1) <= h);
        }
    }
}

#[test]
fn bar_is_bottom_aligned() {
    assert_eq!(bar_rect(4095), BarRect { x: 54, y: 0, width: 20, height: 64 });
    assert_eq!(bar_rect(0), BarRect { x: 54, y: 63, width: 20, height: 1 });
    assert_eq!(bar_rect(2048), BarRect { x: 54, y: 32, width: 20, height: 32 });
}

#[test]
fn label_shows_level() {
    assert_eq!(mic_label(0), "MIC: 0");
    assert_eq!(mic_label(4095), "MIC: 4095");
    assert_eq!(mic_label(65535), "MIC: 65535");
}

#[test]
fn statistics_every_twentieth_round() {
    let mut s = Supervisor::new();
    let reports: Vec<bool> = (0..60).map(|_| s.tick()).collect();
    for (i, r) in reports.iter().enumerate() {
        assert_eq!(*r, (i + 1) % 20 == 0, "round {}", i + 1);
    }
}

#[test]
fn bot_runs_only_when_connected() {
    let mut s = Supervisor::new();
    assert!(!s.is_bot_active());
    s.connect_finished(false);
    assert!(!s.is_bot_active());
    s.connect_finished(true);
    assert!(s.is_bot_active());
    s.connect_started();
    assert!(!s.is_bot_active());
    s.connect_finished(false);
    assert!(!s.is_bot_active());
    s.connect_finished(true);
    assert!(s.is_bot_active());
}

#[test]
fn trimming_uses_unicode_whitespace() {
    assert_eq!(trim_str("  hi there \n\t"), "hi there");
    assert_eq!(trim_str("\u{3000}\u{a0}x\u{2029}"), "x");
    assert_eq!(trim_str(" \t\n "), "");
    assert_eq!(trim_str(""), "");
    assert_eq!(trim_str("\u{200b}x"), "\u{200b}x");
    for c in ['\u{85}', '\u{1680}', '\u{2000}', '\u{200a}', '\u{2028}', '\u{202f}', '\u{205f}', '\u{b}', '\u{c}', '\r'] {
        assert!(c.is_whitespace());
        assert_eq!(trim_str(&format!("{c}a{c}")), "a");
    }
    assert_eq!(trim_str("\u{180e}a"), "\u{180e}a".trim());
}

#[test]
fn string_equality() {
    assert!(str_eq("abc", "abc"));
    assert!(!str_eq("abc", "abd"));
    assert!(!str_eq("abc", "ab"));
    assert!(str_eq("", ""));
}

#[test]
fn amplitude_is_largest_minus_smallest() {
    assert_eq!(audio_amplitude(&vec![Some(4095), Some(0), Some(17)]), 4095);
    assert_eq!(audio_amplitude(&vec![Some(12)]), 0);
}
