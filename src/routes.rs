//! Compiling a registry into the routes that a reverse proxy serves.
use vstd::prelude::*;

use crate::model::{LanguageEntry, Registry, ServiceCategory, TtsEntry, VoiceEntry};
use crate::tag_map::TagMap;
use crate::text::{decimal, decimal_text};

verus! {

/// One public path and where it is sent.
pub struct RouteSpec {
    pub category: ServiceCategory,
    pub public_path: String,
    pub backend_port: u16,
    pub backend_subpath: String,
    /// Query parameters, in the order they are written.
    pub query: Vec<(String, String)>,
}

pub struct RouteModel {
    pub category: ServiceCategory,
    pub public_path: Seq<char>,
    pub backend_port: u16,
    pub backend_subpath: Seq<char>,
    pub query: Seq<(Seq<char>, Seq<char>)>,
}

/// The text of each key and value.
pub open spec fn pairs_view(q: Seq<(String, String)>) -> Seq<(Seq<char>, Seq<char>)> {
    q.map_values(|p: (String, String)| (p.0@, p.1@))
}

impl View for RouteSpec {
    type V = RouteModel;

    open spec fn view(&self) -> RouteModel {
        RouteModel {
            category: self.category,
            public_path: self.public_path@,
            backend_port: self.backend_port,
            backend_subpath: self.backend_subpath@,
            query: pairs_view(self.query@),
        }
    }
}

pub open spec fn route_models(v: Seq<RouteSpec>) -> Seq<RouteModel> {
    v.map_values(|r: RouteSpec| r@)
}

/// The path segment that starts every public path of a category.
pub open spec fn category_prefix(c: ServiceCategory) -> Seq<char> {
    match c {
        ServiceCategory::Grammar => "/grammar/"@,
        ServiceCategory::Speller => "/speller/"@,
        ServiceCategory::Hyphenation => "/hyphenation/"@,
        ServiceCategory::TextToSpeech => "/tts/"@,
    }
}

impl ServiceCategory {
    pub fn path_prefix(&self) -> (r: &'static str)
        ensures
            r@ == category_prefix(*self),
    {
        match self {
            ServiceCategory::Grammar => "/grammar/",
            ServiceCategory::Speller => "/speller/",
            ServiceCategory::Hyphenation => "/hyphenation/",
            ServiceCategory::TextToSpeech => "/tts/",
        }
    }
}

/// One route per language, sent to that language's own port.
pub open spec fn language_routes(c: ServiceCategory, s: Seq<(String, LanguageEntry)>) -> Seq<
    RouteModel,
> {
    Seq::new(
        s.len(),
        |i: int|
            RouteModel {
                category: c,
                public_path: category_prefix(c) + s[i].0@,
                backend_port: s[i].1.port,
                backend_subpath: Seq::empty(),
                query: Seq::empty(),
            },
    )
}

/// The language id, then the speaker id, each only where the voice has it.
pub open spec fn voice_query(v: VoiceEntry) -> Seq<(Seq<char>, Seq<char>)> {
    let lang: Seq<(Seq<char>, Seq<char>)> = match v.language {
        Some(l) => seq![("language"@, decimal(l as nat))],
        None => Seq::empty(),
    };
    let speaker: Seq<(Seq<char>, Seq<char>)> = match v.speaker {
        Some(s) => seq![("speaker"@, decimal(s as nat))],
        None => Seq::empty(),
    };
    lang + speaker
}

/// The route of one voice of the language `tag`.
pub open spec fn voice_route(tag: Seq<char>, id: Seq<char>, v: VoiceEntry, port: u16) -> RouteModel {
    RouteModel {
        category: ServiceCategory::TextToSpeech,
        public_path: "/tts/"@ + tag + "/"@ + id,
        backend_port: port,
        backend_subpath: v.model@,
        query: voice_query(v),
    }
}

/// One route per voice of the language `tag`, all sent to the speech port.
pub open spec fn voice_routes(tag: Seq<char>, s: Seq<(String, VoiceEntry)>, port: u16) -> Seq<
    RouteModel,
> {
    Seq::new(s.len(), |j: int| voice_route(tag, s[j].0@, s[j].1, port))
}

/// The voice routes of each language in turn.
pub open spec fn tts_routes(s: Seq<(String, TtsEntry)>, port: u16) -> Seq<RouteModel>
    decreases s.len(),
{
    if s.len() == 0 {
        Seq::empty()
    } else {
        tts_routes(s.drop_last(), port) + voice_routes(
            s.last().0@,
            s.last().1.voices.entries(),
            port,
        )
    }
}

/// Every route of the registry: grammar, speller, hyphenation, then speech.
pub open spec fn registry_routes(reg: Registry) -> Seq<RouteModel> {
    language_routes(ServiceCategory::Grammar, reg.grammar.entries()) + language_routes(
        ServiceCategory::Speller,
        reg.speller.entries(),
    ) + language_routes(ServiceCategory::Hyphenation, reg.hyphenation.entries())
        + tts_routes(reg.tts.entries(), reg.config.tts_port)
}

fn push_language_routes(out: &mut Vec<RouteSpec>, c: ServiceCategory, m: &TagMap<LanguageEntry>)
    ensures
        route_models(final(out)@) == route_models(old(out)@) + language_routes(c, m.entries()),
{
    let n = m.len();
    let ghost start = route_models(out@);
    let mut i: usize = 0;
    while i < n
        invariant
            n == m.entries().len(),
            i <= n,
            route_models(out@) == start + language_routes(c, m.entries()).take(i as int),
        decreases n - i,
    {
        let e = m.entry(i);
        let mut path = String::from_str(c.path_prefix());
        path.append(e.0.as_str());
        let ghost prev = out@;
        out.push(
            RouteSpec {
                category: c,
                public_path: path,
                backend_port: e.1.port,
                backend_subpath: String::new(),
                query: Vec::new(),
            },
        );
        proof {
            let q: Seq<(String, String)> = Seq::empty();
            assert(pairs_view(q) =~= Seq::empty());
            let want = language_routes(c, m.entries())[i as int];
            assert(out@.last()@.public_path =~= want.public_path);
            assert(out@.last()@.query =~= want.query);
            assert(out@.last()@.backend_subpath =~= want.backend_subpath);
            assert(out@.last()@ == want);
            assert(route_models(out@) =~= route_models(prev).push(want));
            assert(route_models(out@) =~= start + language_routes(c, m.entries()).take(i + 1));
        }
        i = i + 1;
    }
    assert(language_routes(c, m.entries()).take(n as int) =~= language_routes(c, m.entries()));
}

/// The query parameters of a voice: its language id, then its speaker id.
pub fn voice_query_pairs(v: &VoiceEntry) -> (r: Vec<(String, String)>)
    ensures
        pairs_view(r@) == voice_query(*v),
{
    let mut q: Vec<(String, String)> = Vec::new();
    if let Some(l) = v.language {
        q.push((String::from_str("language"), decimal_text(l)));
    }
    if let Some(s) = v.speaker {
        q.push((String::from_str("speaker"), decimal_text(s)));
    }
    assert(pairs_view(q@) =~= voice_query(*v));
    q
}

fn push_voice_routes(out: &mut Vec<RouteSpec>, tag: &String, voices: &TagMap<VoiceEntry>, port: u16)
    ensures
        route_models(final(out)@) == route_models(old(out)@) + voice_routes(
            tag@,
            voices.entries(),
            port,
        ),
{
    let n = voices.len();
    let ghost start = route_models(out@);
    let mut i: usize = 0;
    while i < n
        invariant
            n == voices.entries().len(),
            i <= n,
            route_models(out@) == start + voice_routes(tag@, voices.entries(), port).take(i as int),
        decreases n - i,
    {
        let e = voices.entry(i);
        let mut path = String::from_str("/tts/");
        path.append(tag.as_str());
        path.append("/");
        path.append(e.0.as_str());
        let ghost prev = out@;
        out.push(
            RouteSpec {
                category: ServiceCategory::TextToSpeech,
                public_path: path,
                backend_port: port,
                backend_subpath: e.1.model.clone(),
                query: voice_query_pairs(&e.1),
            },
        );
        proof {
            let want = voice_routes(tag@, voices.entries(), port)[i as int];
            assert(out@.last()@.public_path =~= want.public_path);
            assert(out@.last()@ == want);
            assert(route_models(out@) =~= route_models(prev).push(want));
            assert(route_models(out@) =~= start + voice_routes(tag@, voices.entries(), port).take(
                i + 1,
            ));
        }
        i = i + 1;
    }
    assert(voice_routes(tag@, voices.entries(), port).take(n as int) =~= voice_routes(
        tag@,
        voices.entries(),
        port,
    ));
}

/// Expands a registry into its routes, in the order the proxy configuration lists them.
pub fn compile_routes(reg: &Registry) -> (r: Vec<RouteSpec>)
    ensures
        route_models(r@) == registry_routes(*reg),
{
    let mut out: Vec<RouteSpec> = Vec::new();
    assert(route_models(out@) =~= Seq::empty());
    push_language_routes(&mut out, ServiceCategory::Grammar, &reg.grammar);
    push_language_routes(&mut out, ServiceCategory::Speller, &reg.speller);
    push_language_routes(&mut out, ServiceCategory::Hyphenation, &reg.hyphenation);
    let ghost before_tts = route_models(out@);
    let n = reg.tts.len();
    let port = reg.config.tts_port;
    let mut i: usize = 0;
    while i < n
        invariant
            n == reg.tts.entries().len(),
            port == reg.config.tts_port,
            i <= n,
            route_models(out@) == before_tts + tts_routes(reg.tts.entries().take(i as int), port),
        decreases n - i,
    {
        let e = reg.tts.entry(i);
        push_voice_routes(&mut out, &e.0, &e.1.voices, port);
        proof {
            let s = reg.tts.entries().take(i + 1);
            assert(s.drop_last() =~= reg.tts.entries().take(i as int));
        }
        i = i + 1;
    }
    assert(reg.tts.entries().take(n as int) =~= reg.tts.entries());
    assert(route_models(out@) =~= registry_routes(*reg));
    out
}

} // verus!
