use jorik_cli::decimal::push_decimal;
use jorik_cli::filters::{
    get_filters_for_style, preset_for_name, AudioFilters, EqualizerBand, Hundredths,
    KaraokeOptions, LowPassOptions, RotationOptions, TimescaleOptions, TremoloOptions,
    VibratoOptions,
};
use jorik_cli::html::escape_html;
use jorik_cli::text::{chars_of, contains_chars, contains_text};

fn decimal(n: u64) -> String {
    let mut out = Vec::new();
    push_decimal(&mut out, n);
    String::from_utf8(out).unwrap()
}

fn is_off(filters: &AudioFilters) -> bool {
    filters.equalizer.is_none()
        && filters.low_pass.is_none()
        && filters.timescale.is_none()
        && filters.rotation.is_none()
        && filters.tremolo.is_none()
        && filters.vibrato.is_none()
        && filters.karaoke.is_none()
}

#[test]
fn decimal_exact_values() {
    assert_eq!(decimal(0), "0");
    assert_eq!(decimal(7), "7");
    assert_eq!(decimal(9), "9");
    assert_eq!(decimal(10), "10");
    assert_eq!(decimal(99), "99");
    assert_eq!(decimal(100), "100");
    assert_eq!(decimal(16384), "16384");
    assert_eq!(decimal(4294967295), "4294967295");
    assert_eq!(decimal(u64::MAX), "18446744073709551615");
}

#[test]
fn decimal_is_appended_to_what_is_there() {
    let mut out = vec![b's', b'='];
    push_decimal(&mut out, 4096);
    push_decimal(&mut out, 0);
    assert_eq!(out, b"s=40960".to_vec());
}

#[test]
fn chars_of_gives_the_characters_in_order() {
    assert_eq!(chars_of(""), Vec::<char>::new());
    assert_eq!(chars_of("abc"), vec!['a', 'b', 'c']);
    assert_eq!(chars_of("a\u{e9}\u{1f600}z"), vec!['a', '\u{e9}', '\u{1f600}', 'z']);
}

#[test]
fn contains_text_finds_a_part_anywhere() {
    assert!(contains_text("xterm-kitty", "kitty"));
    assert!(contains_text("kitty", "kitty"));
    assert!(contains_text("kitty-xterm", "kitty"));
    assert!(contains_text("a-kitty-b", "kitty"));
    assert!(contains_text("kkitty", "kitty"));
    assert!(contains_text("kitkitty", "kitty"));
    assert!(!contains_text("kitt", "kitty"));
    assert!(!contains_text("kitt-y", "kitty"));
    assert!(!contains_text("", "kitty"));
    assert!(!contains_text("KITTY", "kitty"));
}

#[test]
fn contains_text_finds_the_empty_text_everywhere() {
    assert!(contains_text("", ""));
    assert!(contains_text("abc", ""));
    assert!(contains_chars(&vec![], &vec![]));
}

#[test]
fn contains_text_compares_characters_not_bytes() {
    assert!(contains_text("caf\u{e9} au lait", "f\u{e9} a"));
    assert!(!contains_text("caf\u{e9}", "cafe"));
    assert!(contains_chars(&vec!['a', 'b', 'a', 'b', 'c'], &vec!['a', 'b', 'c']));
    assert!(!contains_chars(&vec!['a', 'b', 'a', 'b'], &vec!['a', 'b', 'c']));
}

#[test]
fn escape_html_replaces_the_four_characters() {
    assert_eq!(escape_html("&"), "&amp;");
    assert_eq!(escape_html("<"), "&lt;");
    assert_eq!(escape_html(">"), "&gt;");
    assert_eq!(escape_html("\""), "&quot;");
    assert_eq!(
        escape_html("<a href=\"x\">Tom & Jerry</a>"),
        "&lt;a href=&quot;x&quot;&gt;Tom &amp; Jerry&lt;/a&gt;"
    );
}

#[test]
fn escape_html_keeps_every_other_character() {
    assert_eq!(escape_html(""), "");
    assert_eq!(escape_html("plain text 123"), "plain text 123");
    assert_eq!(escape_html("it's"), "it's");
    assert_eq!(escape_html("na\u{ef}ve \u{1f600}"), "na\u{ef}ve \u{1f600}");
}

#[test]
fn escape_html_escapes_what_is_already_escaped() {
    assert_eq!(escape_html("&amp;"), "&amp;amp;");
    assert_eq!(escape_html("&lt;&gt;"), "&amp;lt;&amp;gt;");
}

#[test]
fn filters_clear_and_unknown_styles_switch_everything_off() {
    assert!(is_off(&AudioFilters::off()));
    for style in ["clear", "CLEAR", "", "rock", "bass boost", "bassboost ", "8D audio"] {
        assert!(is_off(&get_filters_for_style(style)));
    }
}

#[test]
fn filters_bassboost_raises_the_low_bands() {
    let filters = get_filters_for_style("bassboost");
    assert_eq!(
        filters.equalizer,
        Some(vec![
            EqualizerBand { band: 0, gain: Hundredths(20) },
            EqualizerBand { band: 1, gain: Hundredths(15) },
            EqualizerBand { band: 2, gain: Hundredths(10) },
            EqualizerBand { band: 3, gain: Hundredths(5) },
            EqualizerBand { band: 4, gain: Hundredths(0) },
            EqualizerBand { band: 5, gain: Hundredths(-5) },
        ])
    );
    assert!(is_off(&AudioFilters { equalizer: None, ..filters }));
}

#[test]
fn filters_soft_smooths() {
    let filters = get_filters_for_style("soft");
    assert_eq!(filters.low_pass, Some(LowPassOptions { smoothing: Some(Hundredths(2000)) }));
    assert!(is_off(&AudioFilters { low_pass: None, ..filters }));
}

#[test]
fn filters_nightcore_and_vaporwave_change_the_timescale() {
    let filters = get_filters_for_style("nightcore");
    assert_eq!(
        filters.timescale,
        Some(TimescaleOptions {
            speed: Some(Hundredths(110)),
            pitch: Some(Hundredths(110)),
            rate: Some(Hundredths(100)),
        })
    );
    assert!(is_off(&AudioFilters { timescale: None, ..filters }));
    let filters = get_filters_for_style("vaporwave");
    assert_eq!(
        filters.timescale,
        Some(TimescaleOptions {
            speed: Some(Hundredths(85)),
            pitch: Some(Hundredths(80)),
            rate: Some(Hundredths(100)),
        })
    );
    assert!(is_off(&AudioFilters { timescale: None, ..filters }));
}

#[test]
fn filters_8d_rotates() {
    let filters = get_filters_for_style("8d");
    assert_eq!(filters.rotation, Some(RotationOptions { rotation_hz: Some(Hundredths(20)) }));
    assert!(is_off(&AudioFilters { rotation: None, ..filters }));
}

#[test]
fn filters_tremolo_and_vibrato() {
    let filters = get_filters_for_style("tremolo");
    assert_eq!(
        filters.tremolo,
        Some(TremoloOptions { frequency: Some(Hundredths(200)), depth: Some(Hundredths(50)) })
    );
    assert!(is_off(&AudioFilters { tremolo: None, ..filters }));
    let filters = get_filters_for_style("vibrato");
    assert_eq!(
        filters.vibrato,
        Some(VibratoOptions { frequency: Some(Hundredths(200)), depth: Some(Hundredths(50)) })
    );
    assert!(is_off(&AudioFilters { vibrato: None, ..filters }));
}

#[test]
fn filters_karaoke() {
    let filters = get_filters_for_style("karaoke");
    assert_eq!(
        filters.karaoke,
        Some(KaraokeOptions {
            level: Some(Hundredths(100)),
            mono_level: Some(Hundredths(100)),
            filter_band: Some(Hundredths(22000)),
            filter_width: Some(Hundredths(10000)),
        })
    );
    assert!(is_off(&AudioFilters { karaoke: None, ..filters }));
}

#[test]
fn filters_style_is_named_in_any_case() {
    assert!(get_filters_for_style("BassBoost").equalizer.is_some());
    assert!(get_filters_for_style("SOFT").low_pass.is_some());
    assert!(get_filters_for_style("8D").rotation.is_some());
    assert!(get_filters_for_style("\u{212A}araoke").karaoke.is_some());
}

#[test]
fn filters_preset_name_is_matched_as_given() {
    assert!(preset_for_name("soft").low_pass.is_some());
    assert!(is_off(&preset_for_name("Soft")));
    assert!(is_off(&preset_for_name("SOFT")));
}
