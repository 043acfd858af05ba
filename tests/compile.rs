use service_registry::model::{Gender, LanguageEntry, Registry, ServiceCategory, TtsEntry, VoiceEntry};
use service_registry::proxy::{
    generate_location_block, generate_nginx_config, generate_proxy_headers_config,
    query_suffix_text, render_routes, PROXY_HEADERS,
};
use service_registry::routes::{compile_routes, voice_query_pairs};
use service_registry::tag_map::TagMap;

fn lang(name: &str, port: u16) -> LanguageEntry {
    LanguageEntry { name: name.to_string(), port }
}

fn voice(name: &str, gender: Gender, model: &str, speaker: Option<u32>, language: Option<u32>) -> VoiceEntry {
    VoiceEntry { name: name.to_string(), gender, model: model.to_string(), speaker, language }
}

fn sample() -> Registry {
    let mut reg = Registry::new(6000);
    assert!(reg.grammar.insert("sme".to_string(), lang("North Sámi", 5001)));
    assert!(reg.grammar.insert("fin".to_string(), lang("Finnish", 5002)));
    assert!(reg.speller.insert("smj".to_string(), lang("Lule Sámi", 5101)));
    assert!(reg.hyphenation.insert("sma".to_string(), lang("South Sámi", 5201)));
    let mut voices = TagMap::new();
    assert!(voices.insert("v2".to_string(), voice("Biret", Gender::Male, "m2", None, Some(1))));
    assert!(voices.insert("v1".to_string(), voice("Anna", Gender::Female, "m1", Some(2), None)));
    assert!(reg.add_tts("sme".to_string(), TtsEntry { name: "North Sámi".to_string(), voices }));
    reg
}

#[test]
fn grammar_entry_gives_one_route() {
    let mut reg = Registry::new(6000);
    reg.grammar.insert("sme".to_string(), lang("North Sámi", 5001));
    let routes = compile_routes(&reg);
    assert_eq!(routes.len(), 1);
    assert_eq!(routes[0].category, ServiceCategory::Grammar);
    assert_eq!(routes[0].public_path, "/grammar/sme");
    assert_eq!(routes[0].backend_port, 5001);
    assert_eq!(routes[0].backend_subpath, "");
    assert!(routes[0].query.is_empty());
    assert_eq!(
        generate_nginx_config(&reg),
        "location /grammar/sme {\n    proxy_pass http://127.0.0.1:5001/;\n    include proxy-headers.conf;\n}"
    );
}

#[test]
fn tts_voice_fans_out_to_route() {
    let mut reg = Registry::new(6000);
    let mut voices = TagMap::new();
    voices.insert("v1".to_string(), voice("Anna", Gender::Female, "m1", Some(2), None));
    assert!(reg.add_tts("sme".to_string(), TtsEntry { name: "North Sámi".to_string(), voices }));
    let routes = compile_routes(&reg);
    assert_eq!(routes.len(), 1);
    assert_eq!(routes[0].category, ServiceCategory::TextToSpeech);
    assert_eq!(routes[0].public_path, "/tts/sme/v1");
    assert_eq!(routes[0].backend_port, 6000);
    assert_eq!(routes[0].backend_subpath, "m1");
    assert_eq!(routes[0].query, vec![("speaker".to_string(), "2".to_string())]);
    assert_eq!(
        generate_nginx_config(&reg),
        "location /tts/sme/v1 {\n    proxy_pass http://127.0.0.1:6000/m1?speaker=2;\n    include proxy-headers.conf;\n}"
    );
}

#[test]
fn query_puts_language_before_speaker() {
    let v = voice("Anna", Gender::Female, "m1", Some(3), Some(7));
    let q = voice_query_pairs(&v);
    assert_eq!(
        q,
        vec![("language".to_string(), "7".to_string()), ("speaker".to_string(), "3".to_string())]
    );
    assert_eq!(query_suffix_text(&q), "?language=7&speaker=3");
}

#[test]
fn query_of_voice_without_ids_is_empty() {
    let v = voice("Anna", Gender::Other, "m1", None, None);
    let q = voice_query_pairs(&v);
    assert!(q.is_empty());
    assert_eq!(query_suffix_text(&q), "");
}

#[test]
fn location_block_shape() {
    let q = vec![("a".to_string(), "1".to_string()), ("b".to_string(), "22".to_string())];
    assert_eq!(
        generate_location_block("/x/y", 65535, "model", &q),
        "location /x/y {\n    proxy_pass http://127.0.0.1:65535/model?a=1&b=22;\n    include proxy-headers.conf;\n}"
    );
    assert_eq!(
        generate_location_block("/p", 0, "", &vec![("k".to_string(), "v".to_string())]),
        "location /p {\n    proxy_pass http://127.0.0.1:0/?k=v;\n    include proxy-headers.conf;\n}"
    );
}

#[test]
fn routes_follow_category_and_tag_order() {
    let reg = sample();
    let paths: Vec<String> = compile_routes(&reg).into_iter().map(|r| r.public_path).collect();
    assert_eq!(
        paths,
        vec![
            "/grammar/fin",
            "/grammar/sme",
            "/speller/smj",
            "/hyphenation/sma",
            "/tts/sme/v1",
            "/tts/sme/v2",
        ]
    );
}

#[test]
fn route_counts_per_category() {
    let reg = sample();
    let routes = compile_routes(&reg);
    let count = |c: ServiceCategory| routes.iter().filter(|r| r.category == c).count();
    assert_eq!(count(ServiceCategory::Grammar), 2);
    assert_eq!(count(ServiceCategory::Speller), 1);
    assert_eq!(count(ServiceCategory::Hyphenation), 1);
    assert_eq!(count(ServiceCategory::TextToSpeech), 2);
}

#[test]
fn empty_registry_gives_no_routes() {
    let reg = Registry::new(6000);
    assert!(compile_routes(&reg).is_empty());
    assert_eq!(generate_nginx_config(&reg), "");
}

#[test]
fn tts_language_without_voices_gives_no_routes() {
    let mut reg = Registry::new(6000);
    assert!(reg.add_tts("sme".to_string(), TtsEntry { name: "North Sámi".to_string(), voices: TagMap::new() }));
    assert!(compile_routes(&reg).is_empty());
}

#[test]
fn compiling_twice_gives_same_output() {
    let reg = sample();
    let a = compile_routes(&reg);
    let b = compile_routes(&reg);
    assert_eq!(render_routes(&a), render_routes(&b));
    assert_eq!(generate_nginx_config(&reg), generate_nginx_config(&reg));
}

#[test]
fn nginx_config_joins_blocks_with_blank_line() {
    let mut reg = Registry::new(6000);
    reg.speller.insert("b".to_string(), lang("B", 2));
    reg.speller.insert("a".to_string(), lang("A", 1));
    assert_eq!(
        generate_nginx_config(&reg),
        "location /speller/a {\n    proxy_pass http://127.0.0.1:1/;\n    include proxy-headers.conf;\n}\n\nlocation /speller/b {\n    proxy_pass http://127.0.0.1:2/;\n    include proxy-headers.conf;\n}"
    );
}

#[test]
fn proxy_headers_are_fixed() {
    let h = generate_proxy_headers_config();
    assert_eq!(h, PROXY_HEADERS);
    assert!(h.starts_with("proxy_http_version 1.1;\n"));
    assert!(h.ends_with("proxy_set_header X-Forwarded-Proto $scheme;"));
    assert_eq!(h, generate_proxy_headers_config());
}
