//! Properties of the compiled routes and rendered pages that hold for every registry.
use vstd::prelude::*;

use crate::directory::{directory_page, directory_sections};
use crate::model::{Registry, ServiceCategory, TtsEntry, VoiceEntry};
use crate::order::text_lt;
use crate::proxy::{proxy_config_text, query_suffix};
use crate::routes::{
    category_prefix, language_routes, registry_routes, tts_routes, voice_query, voice_routes,
    RouteModel,
};
use crate::text::decimal;

verus! {

/// How many of `rs` belong to category `c`.
pub open spec fn count_category(rs: Seq<RouteModel>, c: ServiceCategory) -> nat
    decreases rs.len(),
{
    if rs.len() == 0 {
        0
    } else {
        count_category(rs.drop_last(), c) + if rs.last().category == c {
            1nat
        } else {
            0nat
        }
    }
}

/// The number of voices over all speech languages.
pub open spec fn voice_total(s: Seq<(String, TtsEntry)>) -> nat
    decreases s.len(),
{
    if s.len() == 0 {
        0
    } else {
        voice_total(s.drop_last()) + s.last().1.voices.entries().len()
    }
}

proof fn lemma_count_add(a: Seq<RouteModel>, b: Seq<RouteModel>, c: ServiceCategory)
    ensures
        count_category(a + b, c) == count_category(a, c) + count_category(b, c),
    decreases b.len(),
{
    if b.len() == 0 {
        assert(a + b =~= a);
    } else {
        lemma_count_add(a, b.drop_last(), c);
        assert((a + b).drop_last() =~= a + b.drop_last());
    }
}

proof fn lemma_count_uniform(rs: Seq<RouteModel>, d: ServiceCategory, c: ServiceCategory)
    requires
        forall|i: int| 0 <= i < rs.len() ==> (#[trigger] rs[i]).category == d,
    ensures
        count_category(rs, c) == if d == c {
            rs.len()
        } else {
            0
        },
    decreases rs.len(),
{
    if rs.len() > 0 {
        lemma_count_uniform(rs.drop_last(), d, c);
    }
}

proof fn lemma_tts_routes_shape(s: Seq<(String, TtsEntry)>, port: u16)
    ensures
        tts_routes(s, port).len() == voice_total(s),
        forall|i: int|
            0 <= i < tts_routes(s, port).len() ==> (#[trigger] tts_routes(s, port)[i]).category
                == ServiceCategory::TextToSpeech,
    decreases s.len(),
{
    if s.len() > 0 {
        lemma_tts_routes_shape(s.drop_last(), port);
        let a = tts_routes(s.drop_last(), port);
        let b = voice_routes(s.last().0@, s.last().1.voices.entries(), port);
        assert forall|i: int| 0 <= i < tts_routes(s, port).len() implies (#[trigger] tts_routes(
            s,
            port,
        )[i]).category == ServiceCategory::TextToSpeech by {
            if i >= a.len() {
                assert(tts_routes(s, port)[i] == b[i - a.len()]);
            } else {
                assert(tts_routes(s, port)[i] == a[i]);
            }
        }
    }
}

/// Completeness: a non-speech category has one route per entry, and speech
/// has one route per voice over all its languages.
pub proof fn law_route_counts(reg: Registry)
    ensures
        count_category(registry_routes(reg), ServiceCategory::Grammar)
            == reg.grammar.entries().len(),
        count_category(registry_routes(reg), ServiceCategory::Speller)
            == reg.speller.entries().len(),
        count_category(registry_routes(reg), ServiceCategory::Hyphenation)
            == reg.hyphenation.entries().len(),
        count_category(registry_routes(reg), ServiceCategory::TextToSpeech) == voice_total(
            reg.tts.entries(),
        ),
        registry_routes(reg).len() == reg.grammar.entries().len() + reg.speller.entries().len()
            + reg.hyphenation.entries().len() + voice_total(reg.tts.entries()),
{
    let g = language_routes(ServiceCategory::Grammar, reg.grammar.entries());
    let s = language_routes(ServiceCategory::Speller, reg.speller.entries());
    let h = language_routes(ServiceCategory::Hyphenation, reg.hyphenation.entries());
    let t = tts_routes(reg.tts.entries(), reg.config.tts_port);
    lemma_tts_routes_shape(reg.tts.entries(), reg.config.tts_port);
    lemma_count_parts(reg, ServiceCategory::Grammar);
    lemma_count_parts(reg, ServiceCategory::Speller);
    lemma_count_parts(reg, ServiceCategory::Hyphenation);
    lemma_count_parts(reg, ServiceCategory::TextToSpeech);
}

proof fn lemma_count_parts(reg: Registry, c: ServiceCategory)
    ensures
        count_category(registry_routes(reg), c) == (if c == ServiceCategory::Grammar {
            reg.grammar.entries().len()
        } else if c == ServiceCategory::Speller {
            reg.speller.entries().len()
        } else if c == ServiceCategory::Hyphenation {
            reg.hyphenation.entries().len()
        } else {
            voice_total(reg.tts.entries())
        }),
{
    let g = language_routes(ServiceCategory::Grammar, reg.grammar.entries());
    let s = language_routes(ServiceCategory::Speller, reg.speller.entries());
    let h = language_routes(ServiceCategory::Hyphenation, reg.hyphenation.entries());
    let t = tts_routes(reg.tts.entries(), reg.config.tts_port);
    lemma_tts_routes_shape(reg.tts.entries(), reg.config.tts_port);
    lemma_count_add(g, s, c);
    lemma_count_add(g + s, h, c);
    lemma_count_add(g + s + h, t, c);
    lemma_count_uniform(g, ServiceCategory::Grammar, c);
    lemma_count_uniform(s, ServiceCategory::Speller, c);
    lemma_count_uniform(h, ServiceCategory::Hyphenation, c);
    lemma_count_uniform(t, ServiceCategory::TextToSpeech, c);
}

/// Omission: an empty category gives no routes and no page section; each
/// non-empty one of grammar, spelling and speech gives exactly one section.
pub proof fn law_empty_category_omitted(reg: Registry)
    ensures
        reg.grammar.entries().len() == 0 ==> count_category(
            registry_routes(reg),
            ServiceCategory::Grammar,
        ) == 0,
        reg.speller.entries().len() == 0 ==> count_category(
            registry_routes(reg),
            ServiceCategory::Speller,
        ) == 0,
        reg.hyphenation.entries().len() == 0 ==> count_category(
            registry_routes(reg),
            ServiceCategory::Hyphenation,
        ) == 0,
        reg.tts.entries().len() == 0 ==> count_category(
            registry_routes(reg),
            ServiceCategory::TextToSpeech,
        ) == 0,
        directory_sections(reg).len() == (if reg.grammar.entries().len() > 0 {
            1int
        } else {
            0
        }) + (if reg.speller.entries().len() > 0 {
            1int
        } else {
            0
        }) + (if reg.tts.entries().len() > 0 {
            1int
        } else {
            0
        }),
{
    law_route_counts(reg);
}

/// Texts with a common start are ordered as what follows it.
pub proof fn lemma_text_lt_common_prefix(p: Seq<char>, a: Seq<char>, b: Seq<char>)
    ensures
        text_lt(p + a, p + b) == text_lt(a, b),
    decreases p.len(),
{
    if p.len() == 0 {
        assert(p + a =~= a);
        assert(p + b =~= b);
    } else {
        lemma_text_lt_common_prefix(p.drop_first(), a, b);
        assert((p + a).drop_first() =~= p.drop_first() + a);
        assert((p + b).drop_first() =~= p.drop_first() + b);
    }
}

/// Ordering, for one category of language routes: where tags ascend strictly,
/// so do the public paths.
pub proof fn law_language_routes_ordered(c: ServiceCategory, s: Seq<(String, crate::model::LanguageEntry)>)
    requires
        crate::tag_map::tags_ascending(s),
    ensures
        forall|i: int, j: int|
            0 <= i < j < s.len() ==> text_lt(
                #[trigger] language_routes(c, s)[i].public_path,
                #[trigger] language_routes(c, s)[j].public_path,
            ),
{
    assert forall|i: int, j: int| 0 <= i < j < s.len() implies text_lt(
        #[trigger] language_routes(c, s)[i].public_path,
        #[trigger] language_routes(c, s)[j].public_path,
    ) by {
        assert(text_lt(s[i].0@, s[j].0@));
        lemma_text_lt_common_prefix(category_prefix(c), s[i].0@, s[j].0@);
    }
}

/// Ordering, for the voices of one speech language: where voice ids ascend
/// strictly, so do the public paths.
pub proof fn law_voice_routes_ordered(tag: Seq<char>, s: Seq<(String, VoiceEntry)>, port: u16)
    requires
        crate::tag_map::tags_ascending(s),
    ensures
        forall|i: int, j: int|
            0 <= i < j < s.len() ==> text_lt(
                #[trigger] voice_routes(tag, s, port)[i].public_path,
                #[trigger] voice_routes(tag, s, port)[j].public_path,
            ),
{
    let p = "/tts/"@ + tag + "/"@;
    assert forall|i: int, j: int| 0 <= i < j < s.len() implies text_lt(
        #[trigger] voice_routes(tag, s, port)[i].public_path,
        #[trigger] voice_routes(tag, s, port)[j].public_path,
    ) by {
        assert(text_lt(s[i].0@, s[j].0@));
        assert(voice_routes(tag, s, port)[i].public_path =~= p + s[i].0@);
        assert(voice_routes(tag, s, port)[j].public_path =~= p + s[j].0@);
        lemma_text_lt_common_prefix(p, s[i].0@, s[j].0@);
    }
}

/// Ordering, for a whole registry: the routes of each category come in
/// ascending tag order, and the voices of each language in ascending id order.
pub proof fn law_registry_routes_ordered(reg: Registry)
    requires
        reg.wf(),
    ensures
        registry_routes(reg) == language_routes(ServiceCategory::Grammar, reg.grammar.entries())
            + language_routes(ServiceCategory::Speller, reg.speller.entries()) + language_routes(
            ServiceCategory::Hyphenation,
            reg.hyphenation.entries(),
        ) + tts_routes(reg.tts.entries(), reg.config.tts_port),
        forall|i: int, j: int|
            0 <= i < j < reg.tts.entries().len() ==> text_lt(
                #[trigger] reg.tts.entries()[i].0@,
                #[trigger] reg.tts.entries()[j].0@,
            ),
        forall|i: int, j: int|
            0 <= i < j < reg.grammar.entries().len() ==> text_lt(
                #[trigger] language_routes(ServiceCategory::Grammar, reg.grammar.entries())[i].public_path,
                #[trigger] language_routes(ServiceCategory::Grammar, reg.grammar.entries())[j].public_path,
            ),
        forall|i: int, j: int|
            0 <= i < j < reg.speller.entries().len() ==> text_lt(
                #[trigger] language_routes(ServiceCategory::Speller, reg.speller.entries())[i].public_path,
                #[trigger] language_routes(ServiceCategory::Speller, reg.speller.entries())[j].public_path,
            ),
        forall|i: int, j: int|
            0 <= i < j < reg.hyphenation.entries().len() ==> text_lt(
                #[trigger] language_routes(ServiceCategory::Hyphenation, reg.hyphenation.entries())[i].public_path,
                #[trigger] language_routes(ServiceCategory::Hyphenation, reg.hyphenation.entries())[j].public_path,
            ),
        forall|k: int, i: int, j: int|
            0 <= k < reg.tts.entries().len() && 0 <= i < j
                < reg.tts.entries()[k].1.voices.entries().len() ==> text_lt(
                #[trigger] voice_routes(
                    reg.tts.entries()[k].0@,
                    reg.tts.entries()[k].1.voices.entries(),
                    reg.config.tts_port,
                )[i].public_path,
                #[trigger] voice_routes(
                    reg.tts.entries()[k].0@,
                    reg.tts.entries()[k].1.voices.entries(),
                    reg.config.tts_port,
                )[j].public_path,
            ),
{
    law_language_routes_ordered(ServiceCategory::Grammar, reg.grammar.entries());
    law_language_routes_ordered(ServiceCategory::Speller, reg.speller.entries());
    law_language_routes_ordered(ServiceCategory::Hyphenation, reg.hyphenation.entries());
    let port = reg.config.tts_port;
    let t = reg.tts.entries();
    assert forall|k: int, i: int, j: int|
        0 <= k < t.len() && 0 <= i < j < t[k].1.voices.entries().len() implies text_lt(
        #[trigger] voice_routes(t[k].0@, t[k].1.voices.entries(), port)[i].public_path,
        #[trigger] voice_routes(t[k].0@, t[k].1.voices.entries(), port)[j].public_path,
    ) by {
        assert(t[k].1.voices.wf());
        law_voice_routes_ordered(t[k].0@, t[k].1.voices.entries(), port);
    }
}

/// Query construction: a voice with both ids asks for the language id first,
/// then the speaker id.
pub proof fn law_query_language_first(v: VoiceEntry)
    requires
        v.language is Some,
        v.speaker is Some,
    ensures
        query_suffix(voice_query(v)) == "?language="@ + decimal(v.language->0 as nat)
            + "&speaker="@ + decimal(v.speaker->0 as nat),
{
    reveal_strlit("?language=");
    reveal_strlit("language");
    reveal_strlit("&speaker=");
    reveal_strlit("speaker");
    reveal_strlit("?");
    reveal_strlit("&");
    reveal_strlit("=");
    let q = voice_query(v);
    let l = decimal(v.language->0 as nat);
    let k = decimal(v.speaker->0 as nat);
    let parts = q.map_values(|p: (Seq<char>, Seq<char>)| crate::proxy::query_pair_text(p));
    assert(q =~= seq![("language"@, l), ("speaker"@, k)]);
    assert(parts.len() == 2);
    assert(parts[0] == "language"@ + "="@ + l);
    assert(parts[1] == "speaker"@ + "="@ + k);
    assert(parts.drop_last() =~= seq![parts[0]]);
    assert(crate::text::join(seq![parts[0]], "&"@) == parts[0]);
    assert(parts.last() == parts[1]);
    assert(crate::text::join(parts, "&"@) == parts[0] + "&"@ + parts[1]);
    assert("?language="@ =~= "?"@ + "language"@ + "="@);
    assert("&speaker="@ =~= "&"@ + "speaker"@ + "="@);
    assert(query_suffix(q) =~= "?language="@ + l + "&speaker="@ + k);
}

/// Determinism: routes, proxy configuration and directory page are each a
/// function of the registry (and of the template), so two results for the
/// same registry are the same text.
pub proof fn law_outputs_deterministic(
    reg: Registry,
    template: Seq<char>,
    routes1: Seq<RouteModel>,
    routes2: Seq<RouteModel>,
    config1: Seq<char>,
    config2: Seq<char>,
    page1: Seq<char>,
    page2: Seq<char>,
)
    requires
        routes1 == registry_routes(reg),
        routes2 == registry_routes(reg),
        config1 == proxy_config_text(registry_routes(reg)),
        config2 == proxy_config_text(registry_routes(reg)),
        page1 == directory_page(reg, template),
        page2 == directory_page(reg, template),
    ensures
        routes1 == routes2,
        config1 == config2,
        page1 == page2,
{
}

} // verus!
