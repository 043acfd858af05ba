//! Rendering the directory page: one HTML section per non-empty category,
//! placed inside a page template.
use vstd::prelude::*;

use crate::model::{Gender, LanguageEntry, Registry, TtsEntry, VoiceEntry};
use crate::tag_map::TagMap;
use crate::text::{join, join_texts, texts};

verus! {

/// The heading that marks where the sections go.
pub const ENDPOINTS_MARKER: &'static str = "<h2>Endpoints</h2>";

/// The tag that closes the marked section.
pub const SECTION_CLOSE: &'static str = "</section>";

/// The grammar section up to its list of languages.
pub const GRAMMAR_HEAD: &'static str = "            <div class=\"endpoint\" id=\"grammar\">
                <h3>Grammar Check</h3>
                <p><span class=\"method post\">POST</span> <code>/grammar/:tag</code> <span class=\"response-type\">application/json</span></p>
                <p>Check grammar for text. Available languages:</p>
                <ul>
";

/// The grammar section after its list: example request and response.
pub const GRAMMAR_TAIL: &'static str = "
                </ul>
                <details>
                    <summary>Request</summary>
                    <pre><code>{
    \"text\": \"sami\"
}</code></pre>
                </details>
                <details>
                    <summary>Response</summary>
                    <pre><code>{
  \"text\": \"sami\",
  \"errs\": [
    {
      \"error_text\": \"sami\",
      \"start_index\": 0,
      \"end_index\": 4,
      \"error_code\": \"typo\",
      \"description\": \"Ii leat sátnelisttus\",
      \"suggestions\": [
        \"sámi\"
      ],
      \"title\": \"Čállinmeattáhus\"
    }
  ]
}</code></pre>
                </details>
            </div>";

/// The spelling section up to its list of languages.
pub const SPELLER_HEAD: &'static str = "            <div class=\"endpoint\" id=\"speller\">
                <h3>Spell Check</h3>
                <p><span class=\"method post\">POST</span> <code>/speller/:tag</code> <span class=\"response-type\">application/json</span></p>
                <p>Check spelling for text. Available languages:</p>
                <ul>
";

/// The spelling section after its list: example request and response.
pub const SPELLER_TAIL: &'static str = "
                </ul>
                <details>
                    <summary>Request</summary>
                    <pre><code>{
    \"text\": \"sami\"
}</code></pre>
                </details>
                <details>
                    <summary>Response</summary>
                    <pre><code>{
  \"text\": \"sami\",
  \"results\": [
    {
      \"word\": \"sami\",
      \"is_correct\": false,
      \"suggestions\": [
        {
          \"value\": \"sámi\",
          \"weight\": 14.529631
        },
        {
          \"value\": \"sama\",
          \"weight\": 40.2973
        },
        {
          \"value\": \"sáme\",
          \"weight\": 45.896103
        },
        {
          \"value\": \"sabmi\",
          \"weight\": 50.2973
        },
        {
          \"value\": \"samai\",
          \"weight\": 50.2973
        },
        {
          \"value\": \"sapmi\",
          \"weight\": 50.2973
        },
        {
          \"value\": \"satmi\",
          \"weight\": 50.2973
        },
        {
          \"value\": \"samo\",
          \"weight\": 55.2973
        },
        {
          \"value\": \"samu\",
          \"weight\": 55.2973
        },
        {
          \"value\": \"somá\",
          \"weight\": 56.623154
        }
      ]
    }
  ]
}</code></pre>
                </details>
            </div>";

/// The speech section up to its list of languages and voices.
pub const TTS_HEAD: &'static str = "            <div class=\"endpoint\" id=\"tts\">
                <h3>Text-to-Speech</h3>
                <p><span class=\"method post\">POST</span> <code>/tts/:tag/:voice</code> <span class=\"response-type\">audio/wav</span></p>
                <p>Convert text to speech. Available languages and voices:</p>
                <ul>
";

/// The speech section after its list: example request and response.
pub const TTS_TAIL: &'static str = "
                </ul>
                <details>
                    <summary>Request</summary>
                    <pre><code>{
    \"text\": \"Sample text to convert to speech\"
}</code></pre>
                </details>
                <details>
                    <summary>Response</summary>
                    <p>WAV audio file containing the synthesized speech.</p>
                </details>
            </div>";

/// `pat` stands in `s` at position `i`.
pub open spec fn occurs_at(s: Seq<char>, pat: Seq<char>, i: int) -> bool {
    0 <= i && i + pat.len() <= s.len() && s.subrange(i, i + pat.len()) == pat
}

/// The first position at or after `from` where `pat` stands in `s`.
#[verifier::opaque]
pub open spec fn first_occurrence(s: Seq<char>, pat: Seq<char>, from: int) -> Option<int> {
    if exists|i: int|
        from <= i && #[trigger] occurs_at(s, pat, i) && forall|j: int|
            from <= j < i ==> !#[trigger] occurs_at(s, pat, j) {
        Some(
            choose|i: int|
                from <= i && #[trigger] occurs_at(s, pat, i) && forall|j: int|
                    from <= j < i ==> !#[trigger] occurs_at(s, pat, j),
        )
    } else {
        None
    }
}

pub open spec fn gender_glyph(g: Gender) -> Seq<char> {
    match g {
        Gender::Female => "\u{2640}"@,
        _ => "\u{2642}"@,
    }
}

/// A list item that links to a language's route.
pub open spec fn language_item(prefix: Seq<char>, tag: Seq<char>, name: Seq<char>) -> Seq<char> {
    "                <li><a href=\""@ + prefix + tag + "\"><code>"@ + tag + "</code></a> - "@ + name
        + "</li>"@
}

pub open spec fn language_items(prefix: Seq<char>, s: Seq<(String, LanguageEntry)>) -> Seq<
    Seq<char>,
> {
    Seq::new(s.len(), |i: int| language_item(prefix, s[i].0@, s[i].1.name@))
}

pub open spec fn language_section(
    head: Seq<char>,
    tail: Seq<char>,
    prefix: Seq<char>,
    s: Seq<(String, LanguageEntry)>,
) -> Seq<char> {
    head + join(language_items(prefix, s), "\n"@) + tail
}

/// A voice: its id, a link to its route, its name and a glyph for its gender.
pub open spec fn voice_item(tag: Seq<char>, id: Seq<char>, v: VoiceEntry) -> Seq<char> {
    "<code>"@ + id + "</code> <a href=\"/tts/"@ + tag + "/"@ + id + "\">"@ + v.name@ + " "@
        + gender_glyph(v.gender) + "</a>"@
}

pub open spec fn voice_items(tag: Seq<char>, s: Seq<(String, VoiceEntry)>) -> Seq<Seq<char>> {
    Seq::new(s.len(), |j: int| voice_item(tag, s[j].0@, s[j].1))
}

/// A list item for a speech language, with its voices inline.
pub open spec fn tts_item(tag: Seq<char>, e: TtsEntry) -> Seq<char> {
    "                <li><code>"@ + tag + "</code> - "@ + e.name@ + " (voices: "@ + join(
        voice_items(tag, e.voices.entries()),
        ", "@,
    ) + ")</li>"@
}

pub open spec fn tts_section(s: Seq<(String, TtsEntry)>) -> Seq<char> {
    TTS_HEAD@ + join(Seq::new(s.len(), |i: int| tts_item(s[i].0@, s[i].1)), "\n"@) + TTS_TAIL@
}

/// The sections of grammar, spelling and speech, each only where it has entries.
pub open spec fn directory_sections(reg: Registry) -> Seq<Seq<char>> {
    let g = reg.grammar.entries();
    let s = reg.speller.entries();
    let t = reg.tts.entries();
    (if g.len() > 0 {
        seq![language_section(GRAMMAR_HEAD@, GRAMMAR_TAIL@, "/grammar/"@, g)]
    } else {
        Seq::empty()
    }) + (if s.len() > 0 {
        seq![language_section(SPELLER_HEAD@, SPELLER_TAIL@, "/speller/"@, s)]
    } else {
        Seq::empty()
    }) + (if t.len() > 0 {
        seq![tts_section(t)]
    } else {
        Seq::empty()
    })
}

/// Where the sections go: before the first closing section tag after the
/// marker, or at the marker itself where no such tag follows it.
pub open spec fn insertion_point(template: Seq<char>) -> Option<int> {
    match first_occurrence(template, ENDPOINTS_MARKER@, 0) {
        None => None,
        Some(pos) => match first_occurrence(template, SECTION_CLOSE@, pos) {
            Some(k) => Some(k),
            None => Some(pos),
        },
    }
}

/// The template with the sections spliced in; unchanged where it has no marker.
pub open spec fn directory_page(reg: Registry, template: Seq<char>) -> Seq<char> {
    match insertion_point(template) {
        None => template,
        Some(at) => template.take(at) + "\n"@ + join(directory_sections(reg), "\n\n"@) + "\n"@
            + template.skip(at),
    }
}

proof fn lemma_first_occurrence(s: Seq<char>, pat: Seq<char>, from: int, i: int)
    requires
        from <= i,
        occurs_at(s, pat, i),
        forall|j: int| from <= j < i ==> !#[trigger] occurs_at(s, pat, j),
    ensures
        first_occurrence(s, pat, from) == Some(i),
{
    reveal(first_occurrence);
    assert(from <= i && occurs_at(s, pat, i));
    let k = choose|k: int|
        from <= k && #[trigger] occurs_at(s, pat, k) && forall|j: int|
            from <= j < k ==> !#[trigger] occurs_at(s, pat, j);
    assert(from <= k && occurs_at(s, pat, k));
    if k < i {
        assert(!occurs_at(s, pat, k));
    } else if k > i {
        assert(!occurs_at(s, pat, i));
    }
}

proof fn lemma_no_occurrence(s: Seq<char>, pat: Seq<char>, from: int)
    requires
        forall|j: int| from <= j ==> !#[trigger] occurs_at(s, pat, j),
    ensures
        first_occurrence(s, pat, from) is None,
{
    reveal(first_occurrence);
}

proof fn lemma_occurrence_found(s: Seq<char>, pat: Seq<char>, from: int, i: int)
    requires
        first_occurrence(s, pat, from) == Some(i),
    ensures
        from <= i,
        occurs_at(s, pat, i),
{
    reveal(first_occurrence);
}

fn occurs_here(s: &str, n: usize, pat: &str, m: usize, i: usize) -> (r: bool)
    requires
        n == s@.len(),
        m == pat@.len(),
        i <= n,
    ensures
        r == occurs_at(s@, pat@, i as int),
{
    if m > n - i {
        return false;
    }
    let mut k: usize = 0;
    while k < m
        invariant
            n == s@.len(),
            m == pat@.len(),
            i + m <= n,
            k <= m,
            s@.subrange(i as int, i + k) == pat@.take(k as int),
        decreases m - k,
    {
        let c = s.get_char(i + k);
        if c != pat.get_char(k) {
            assert(s@.subrange(i as int, i + m)[k as int] == c);
            return false;
        }
        assert(s@.subrange(i as int, i + k + 1) =~= s@.subrange(i as int, i + k).push(c));
        assert(pat@.take(k + 1) =~= pat@.take(k as int).push(c));
        k = k + 1;
    }
    assert(pat@.take(m as int) =~= pat@);
    true
}

/// The first position at or after `from` (counted in characters) where
/// `pat` stands in `s`.
pub fn find_text(s: &str, pat: &str, from: usize) -> (r: Option<usize>)
    ensures
        match r {
            Some(i) => first_occurrence(s@, pat@, from as int) == Some(i as int),
            None => first_occurrence(s@, pat@, from as int) is None,
        },
{
    let n = s.unicode_len();
    let m = pat.unicode_len();
    let mut i: usize = from;
    while i <= n
        invariant
            n == s@.len(),
            m == pat@.len(),
            from <= i,
            forall|j: int| from <= j < i ==> !#[trigger] occurs_at(s@, pat@, j),
        ensures
            forall|j: int| from <= j <= n ==> !#[trigger] occurs_at(s@, pat@, j),
        decreases n + 1 - i,
    {
        if occurs_here(s, n, pat, m, i) {
            proof {
                lemma_first_occurrence(s@, pat@, from as int, i as int);
            }
            return Some(i);
        }
        if i == n {
            break;
        }
        i = i + 1;
    }
    proof {
        assert forall|j: int| from <= j implies !#[trigger] occurs_at(s@, pat@, j) by {
            if j > n {
                assert(j + m > n);
            }
        }
        lemma_no_occurrence(s@, pat@, from as int);
    }
    None
}

fn gender_glyph_text(g: Gender) -> (r: &'static str)
    ensures
        r@ == gender_glyph(g),
{
    match g {
        Gender::Female => "\u{2640}",
        _ => "\u{2642}",
    }
}

fn language_section_text(head: &str, tail: &str, prefix: &str, m: &TagMap<LanguageEntry>) -> (r: String)
    ensures
        r@ == language_section(head@, tail@, prefix@, m.entries()),
{
    let n = m.len();
    let mut items: Vec<String> = Vec::new();
    let mut i: usize = 0;
    while i < n
        invariant
            n == m.entries().len(),
            i <= n,
            texts(items@) =~= language_items(prefix@, m.entries()).take(i as int),
        decreases n - i,
    {
        let e = m.entry(i);
        let mut item = String::from_str("                <li><a href=\"");
        item.append(prefix);
        item.append(e.0.as_str());
        item.append("\"><code>");
        item.append(e.0.as_str());
        item.append("</code></a> - ");
        item.append(e.1.name.as_str());
        item.append("</li>");
        let ghost prev = items@;
        items.push(item);
        proof {
            let want = language_items(prefix@, m.entries())[i as int];
            assert(items@.last()@ =~= want);
            assert(texts(items@) =~= texts(prev).push(want));
            assert(language_items(prefix@, m.entries()).take(i + 1) =~= language_items(
                prefix@,
                m.entries(),
            ).take(i as int).push(want));
        }
        i = i + 1;
    }
    assert(language_items(prefix@, m.entries()).take(n as int) =~= language_items(
        prefix@,
        m.entries(),
    ));
    let body = join_texts(&items, "\n");
    let mut out = String::from_str(head);
    out.append(body.as_str());
    out.append(tail);
    out
}

fn tts_item_text(tag: &String, e: &TtsEntry) -> (r: String)
    ensures
        r@ == tts_item(tag@, *e),
{
    let n = e.voices.len();
    let mut items: Vec<String> = Vec::new();
    let mut i: usize = 0;
    while i < n
        invariant
            n == e.voices.entries().len(),
            i <= n,
            texts(items@) =~= voice_items(tag@, e.voices.entries()).take(i as int),
        decreases n - i,
    {
        let v = e.voices.entry(i);
        let mut item = String::from_str("<code>");
        item.append(v.0.as_str());
        item.append("</code> <a href=\"/tts/");
        item.append(tag.as_str());
        item.append("/");
        item.append(v.0.as_str());
        item.append("\">");
        item.append(v.1.name.as_str());
        item.append(" ");
        item.append(gender_glyph_text(v.1.gender));
        item.append("</a>");
        let ghost prev = items@;
        items.push(item);
        proof {
            let want = voice_items(tag@, e.voices.entries())[i as int];
            assert(items@.last()@ =~= want);
            assert(texts(items@) =~= texts(prev).push(want));
            assert(voice_items(tag@, e.voices.entries()).take(i + 1) =~= voice_items(
                tag@,
                e.voices.entries(),
            ).take(i as int).push(want));
        }
        i = i + 1;
    }
    assert(voice_items(tag@, e.voices.entries()).take(n as int) =~= voice_items(
        tag@,
        e.voices.entries(),
    ));
    let voices = join_texts(&items, ", ");
    let mut out = String::from_str("                <li><code>");
    out.append(tag.as_str());
    out.append("</code> - ");
    out.append(e.name.as_str());
    out.append(" (voices: ");
    out.append(voices.as_str());
    out.append(")</li>");
    out
}

fn tts_section_text(m: &TagMap<TtsEntry>) -> (r: String)
    ensures
        r@ == tts_section(m.entries()),
{
    let ghost all = Seq::new(m.entries().len(), |i: int| tts_item(m.entries()[i].0@, m.entries()[i].1));
    let n = m.len();
    let mut items: Vec<String> = Vec::new();
    let mut i: usize = 0;
    while i < n
        invariant
            n == m.entries().len(),
            i <= n,
            all == Seq::new(m.entries().len(), |i: int| tts_item(m.entries()[i].0@, m.entries()[i].1)),
            texts(items@) =~= all.take(i as int),
        decreases n - i,
    {
        let e = m.entry(i);
        let item = tts_item_text(&e.0, &e.1);
        let ghost prev = items@;
        items.push(item);
        proof {
            assert(texts(items@) =~= texts(prev).push(all[i as int]));
            assert(all.take(i + 1) =~= all.take(i as int).push(all[i as int]));
        }
        i = i + 1;
    }
    assert(all.take(n as int) =~= all);
    let body = join_texts(&items, "\n");
    let mut out = String::from_str(TTS_HEAD);
    out.append(body.as_str());
    out.append(TTS_TAIL);
    out
}

/// The HTML sections of the registry, in page order, leaving out empty categories.
pub fn render_sections(reg: &Registry) -> (r: Vec<String>)
    ensures
        texts(r@) == directory_sections(*reg),
{
    let mut out: Vec<String> = Vec::new();
    if !reg.grammar.is_empty() {
        out.push(language_section_text(GRAMMAR_HEAD, GRAMMAR_TAIL, "/grammar/", &reg.grammar));
    }
    if !reg.speller.is_empty() {
        out.push(language_section_text(SPELLER_HEAD, SPELLER_TAIL, "/speller/", &reg.speller));
    }
    if !reg.tts.is_empty() {
        out.push(tts_section_text(&reg.tts));
    }
    assert(texts(out@) =~= directory_sections(*reg));
    out
}

/// The directory page: `template` with the sections spliced in at the
/// endpoints marker, or `template` as it is where the marker is missing.
pub fn render_directory(reg: &Registry, template: &str) -> (r: String)
    ensures
        r@ == directory_page(*reg, template@),
{
    match find_text(template, ENDPOINTS_MARKER, 0) {
        None => String::from_str(template),
        Some(pos) => {
            let at = match find_text(template, SECTION_CLOSE, pos) {
                Some(k) => k,
                None => pos,
            };
            proof {
                lemma_occurrence_found(template@, ENDPOINTS_MARKER@, 0, pos as int);
                if at != pos {
                    lemma_occurrence_found(template@, SECTION_CLOSE@, pos as int, at as int);
                }
            }
            let n = template.unicode_len();
            let sections = render_sections(reg);
            let body = join_texts(&sections, "\n\n");
            let mut out = String::from_str(template.substring_char(0, at));
            out.append("\n");
            out.append(body.as_str());
            out.append("\n");
            out.append(template.substring_char(at, n));
            assert(template@.subrange(0, at as int) =~= template@.take(at as int));
            assert(template@.subrange(at as int, n as int) =~= template@.skip(at as int));
            out
        },
    }
}

} // verus!
