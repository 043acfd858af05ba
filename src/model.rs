//! The service registry: categories of backends, keyed by language tag.
use vstd::prelude::*;

use crate::order::text_equal;
use crate::tag_map::{has_tag, TagMap};

verus! {

/// Which public path prefix and documentation section an entry belongs to.
#[derive(Clone, Copy, Debug, PartialEq, Eq, Structural)]
pub enum ServiceCategory {
    Grammar,
    Speller,
    Hyphenation,
    TextToSpeech,
}

#[derive(Clone, Copy, Debug, PartialEq, Eq, Structural)]
pub enum Gender {
    Female,
    Male,
    Other,
}

/// The gender that a registry text names; anything unrecognised is `Other`.
pub open spec fn gender_named(s: Seq<char>) -> Gender {
    if s == "female"@ {
        Gender::Female
    } else if s == "male"@ {
        Gender::Male
    } else {
        Gender::Other
    }
}

impl Gender {
    pub fn from_name(s: &str) -> (r: Gender)
        ensures
            r == gender_named(s@),
    {
        if text_equal(s, "female") {
            Gender::Female
        } else if text_equal(s, "male") {
            Gender::Male
        } else {
            Gender::Other
        }
    }
}

/// A grammar checker, speller or hyphenator for one language.
pub struct LanguageEntry {
    pub name: String,
    pub port: u16,
}

/// One voice of the speech backend.
pub struct VoiceEntry {
    pub name: String,
    pub gender: Gender,
    pub model: String,
    pub speaker: Option<u32>,
    pub language: Option<u32>,
}

/// The voices of one language, keyed by voice id.
pub struct TtsEntry {
    pub name: String,
    pub voices: TagMap<VoiceEntry>,
}

/// Settings shared by all entries.
pub struct GlobalConfig {
    /// The port of the one backend that serves every voice.
    pub tts_port: u16,
}

pub struct Registry {
    pub config: GlobalConfig,
    pub grammar: TagMap<LanguageEntry>,
    pub speller: TagMap<LanguageEntry>,
    pub hyphenation: TagMap<LanguageEntry>,
    pub tts: TagMap<TtsEntry>,
}

impl Registry {
    /// Tags ascend strictly in every category, and voice ids within each language.
    pub open spec fn wf(&self) -> bool {
        &&& self.grammar.wf()
        &&& self.speller.wf()
        &&& self.hyphenation.wf()
        &&& self.tts.wf()
        &&& forall|i: int|
            0 <= i < self.tts.entries().len() ==> (#[trigger] self.tts.entries()[i]).1.voices.wf()
    }

    /// A registry with no entries.
    pub fn new(tts_port: u16) -> (r: Registry)
        ensures
            r.wf(),
            r.config.tts_port == tts_port,
            r.grammar.entries().len() == 0,
            r.speller.entries().len() == 0,
            r.hyphenation.entries().len() == 0,
            r.tts.entries().len() == 0,
    {
        Registry {
            config: GlobalConfig { tts_port },
            grammar: TagMap::new(),
            speller: TagMap::new(),
            hyphenation: TagMap::new(),
            tts: TagMap::new(),
        }
    }

    /// Adds a speech language whose voice ids ascend; a tag already present
    /// is refused and the registry is left as it was.
    pub fn add_tts(&mut self, tag: String, entry: TtsEntry) -> (r: bool)
        requires
            old(self).wf(),
            entry.voices.wf(),
        ensures
            final(self).wf(),
            r == !has_tag(old(self).tts.entries(), tag@),
            final(self).config == old(self).config,
            final(self).grammar == old(self).grammar,
            final(self).speller == old(self).speller,
            final(self).hyphenation == old(self).hyphenation,
            !r ==> final(self).tts.entries() == old(self).tts.entries(),
            r ==> exists|j: int|
                0 <= j <= old(self).tts.entries().len() && final(self).tts.entries() == old(
                    self,
                ).tts.entries().insert(j, (tag, entry)),
    {
        let ghost before = self.tts.entries();
        let ghost pair = (tag, entry);
        let r = self.tts.insert(tag, entry);
        proof {
            if r {
                let j = choose|j: int|
                    0 <= j <= before.len() && self.tts.entries() == before.insert(j, pair);
                assert forall|i: int| 0 <= i < self.tts.entries().len() implies (
                #[trigger] self.tts.entries()[i]).1.voices.wf() by {
                    if i < j {
                        assert(self.tts.entries()[i] == before[i]);
                    } else if i > j {
                        assert(self.tts.entries()[i] == before[i - 1]);
                    }
                }
            }
        }
        r
    }
}

} // verus!
