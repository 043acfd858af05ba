use service_registry::directory::{
    find_text, render_directory, render_sections, GRAMMAR_HEAD, GRAMMAR_TAIL, SPELLER_HEAD,
    TTS_HEAD, TTS_TAIL,
};
use service_registry::model::{Gender, LanguageEntry, Registry, TtsEntry, VoiceEntry};
use service_registry::tag_map::TagMap;

fn grammar_only() -> Registry {
    let mut reg = Registry::new(6000);
    reg.grammar.insert("sme".to_string(), LanguageEntry { name: "North Sámi".to_string(), port: 5001 });
    reg
}

#[test]
fn template_without_marker_is_unchanged() {
    let reg = grammar_only();
    let template = "<html><body><section><h2>Other</h2></section></body></html>";
    assert_eq!(render_directory(&reg, template), template);
    assert_eq!(render_directory(&reg, ""), "");
}

#[test]
fn sections_go_before_closing_tag_after_marker() {
    let reg = grammar_only();
    let template = "<section>a</section><section><h2>Endpoints</h2><p>x</p></section>end";
    let page = render_directory(&reg, template);
    let item = "                <li><a href=\"/grammar/sme\"><code>sme</code></a> - North Sámi</li>";
    let expected = format!(
        "<section>a</section><section><h2>Endpoints</h2><p>x</p>\n{}{}{}\n</section>end",
        GRAMMAR_HEAD, item, GRAMMAR_TAIL
    );
    assert_eq!(page, expected);
}

#[test]
fn marker_without_closing_tag_inserts_at_marker() {
    let reg = Registry::new(1);
    let template = "ab<h2>Endpoints</h2>cd";
    assert_eq!(render_directory(&reg, template), "ab\n\n<h2>Endpoints</h2>cd");
}

#[test]
fn empty_categories_have_no_section() {
    let reg = Registry::new(1);
    assert!(render_sections(&reg).is_empty());
    let reg = grammar_only();
    let sections = render_sections(&reg);
    assert_eq!(sections.len(), 1);
    assert!(sections[0].starts_with(GRAMMAR_HEAD));
    assert!(!sections[0].contains(SPELLER_HEAD));
}

#[test]
fn hyphenation_has_no_section() {
    let mut reg = Registry::new(1);
    reg.hyphenation.insert("sme".to_string(), LanguageEntry { name: "North Sámi".to_string(), port: 2 });
    assert!(render_sections(&reg).is_empty());
}

#[test]
fn tts_section_lists_voices_with_glyphs() {
    let mut reg = Registry::new(6000);
    let mut voices = TagMap::new();
    voices.insert(
        "v2".to_string(),
        VoiceEntry { name: "Biret".to_string(), gender: Gender::Other, model: "m2".to_string(), speaker: None, language: None },
    );
    voices.insert(
        "v1".to_string(),
        VoiceEntry { name: "Anna".to_string(), gender: Gender::Female, model: "m1".to_string(), speaker: Some(2), language: None },
    );
    reg.add_tts("sme".to_string(), TtsEntry { name: "North Sámi".to_string(), voices });
    let sections = render_sections(&reg);
    assert_eq!(sections.len(), 1);
    let item = "                <li><code>sme</code> - North Sámi (voices: <code>v1</code> <a href=\"/tts/sme/v1\">Anna \u{2640}</a>, <code>v2</code> <a href=\"/tts/sme/v2\">Biret \u{2642}</a>)</li>";
    assert_eq!(sections[0], format!("{}{}{}", TTS_HEAD, item, TTS_TAIL));
}

#[test]
fn sections_joined_with_blank_line() {
    let mut reg = grammar_only();
    reg.speller.insert("sme".to_string(), LanguageEntry { name: "North Sámi".to_string(), port: 5002 });
    let page = render_directory(&reg, "<h2>Endpoints</h2></section>");
    let sections = render_sections(&reg);
    assert_eq!(sections.len(), 2);
    assert_eq!(page, format!("<h2>Endpoints</h2>\n{}\n\n{}\n</section>", sections[0], sections[1]));
}

#[test]
fn rendering_twice_gives_same_page() {
    let reg = grammar_only();
    let t = "<h2>Endpoints</h2></section>";
    assert_eq!(render_directory(&reg, t), render_directory(&reg, t));
}

#[test]
fn find_text_positions() {
    assert_eq!(find_text("abcabc", "bc", 0), Some(1));
    assert_eq!(find_text("abcabc", "bc", 2), Some(4));
    assert_eq!(find_text("abcabc", "x", 0), None);
    assert_eq!(find_text("ábc", "c", 0), Some(2));
    assert_eq!(find_text("ab", "", 1), Some(1));
}
