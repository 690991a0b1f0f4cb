//! The owned, immutable transcription configuration, built once through a
//! fluent builder and reusable across transcription calls.

use vstd::prelude::*;
use crate::text::str_eq;

verus! {

/// Parameters for a transcription call.
pub struct WhisperParams {
    /// The language to use for transcription (`"auto"` for auto-detect).
    language: String,
    /// Whether to translate the audio to English.
    translate: bool,
    /// The output format (`txt`, `srt`, `vtt`, `json`).
    output_format: String,
    /// Additional parameters, later values overriding earlier ones.
    extra_params: Vec<(String, String)>,
}

/// The mathematical value of a `WhisperParams`: the extra parameters are a
/// map from key to the last value set for it.
#[verifier::ext_equal]
pub struct ParamsSpec {
    pub language: Seq<char>,
    pub translate: bool,
    pub output_format: Seq<char>,
    pub extra: Map<Seq<char>, Seq<char>>,
}

/// The map described by a sequence of key/value pairs, a later pair
/// overriding an earlier one with the same key.
pub open spec fn pairs_to_map(s: Seq<(Seq<char>, Seq<char>)>) -> Map<Seq<char>, Seq<char>>
    decreases s.len(),
{
    if s.len() == 0 {
        Map::empty()
    } else {
        pairs_to_map(s.drop_last()).insert(s.last().0, s.last().1)
    }
}

/// The last value paired with a key, scanning the pairs from the end.
pub open spec fn pairs_lookup(s: Seq<(Seq<char>, Seq<char>)>, k: Seq<char>) -> Option<Seq<char>>
    decreases s.len(),
{
    if s.len() == 0 {
        None
    } else if s.last().0 == k {
        Some(s.last().1)
    } else {
        pairs_lookup(s.drop_last(), k)
    }
}

/// Looking a key up among the pairs agrees with the map they describe.
proof fn lemma_pairs_lookup_map(s: Seq<(Seq<char>, Seq<char>)>, k: Seq<char>)
    ensures
        pairs_lookup(s, k) == (if pairs_to_map(s).contains_key(k) {
            Some(pairs_to_map(s)[k])
        } else {
            None::<Seq<char>>
        }),
    decreases s.len(),
{
    if s.len() > 0 {
        lemma_pairs_lookup_map(s.drop_last(), k);
    }
}

impl View for WhisperParams {
    type V = ParamsSpec;

    closed spec fn view(&self) -> ParamsSpec {
        ParamsSpec {
            language: self.language@,
            translate: self.translate,
            output_format: self.output_format@,
            extra: pairs_to_map(self.extra_params.deep_view()),
        }
    }
}

impl Default for WhisperParams {
    /// Auto-detected language, no translation, plain-text output, no extras.
    fn default() -> (r: Self)
        ensures
            r@ == (ParamsSpec {
                language: "auto"@,
                translate: false,
                output_format: "txt"@,
                extra: Map::empty(),
            }),
    {
        let r = WhisperParams {
            language: "auto".to_owned(),
            translate: false,
            output_format: "txt".to_owned(),
            extra_params: Vec::new(),
        };
        proof {
            assert(r.extra_params.deep_view() =~= Seq::<(Seq<char>, Seq<char>)>::empty());
            assert(r@ =~= (ParamsSpec {
                language: "auto"@,
                translate: false,
                output_format: "txt"@,
                extra: Map::empty(),
            }));
        }
        r
    }
}

impl WhisperParams {
    /// Create a new set of parameters with default values.
    pub fn new() -> (r: Self)
        ensures
            r@ == (ParamsSpec {
                language: "auto"@,
                translate: false,
                output_format: "txt"@,
                extra: Map::empty(),
            }),
    {
        Self::default()
    }

    /// Set the language for transcription.
    pub fn language(self, language: &str) -> (r: Self)
        ensures
            r@ == (ParamsSpec { language: language@, ..self@ }),
    {
        let ghost orig = self@;
        let mut p = self;
        p.language = language.to_owned();
        proof {
            assert(p@ =~= (ParamsSpec { language: language@, ..orig }));
        }
        p
    }

    /// Set whether to translate the audio to English.
    pub fn translate(self, translate: bool) -> (r: Self)
        ensures
            r@ == (ParamsSpec { translate: translate, ..self@ }),
    {
        let ghost orig = self@;
        let mut p = self;
        p.translate = translate;
        proof {
            assert(p@ =~= (ParamsSpec { translate: translate, ..orig }));
        }
        p
    }

    /// Set the output format.
    pub fn output_format(self, format: &str) -> (r: Self)
        ensures
            r@ == (ParamsSpec { output_format: format@, ..self@ }),
    {
        let ghost orig = self@;
        let mut p = self;
        p.output_format = format.to_owned();
        proof {
            assert(p@ =~= (ParamsSpec { output_format: format@, ..orig }));
        }
        p
    }

    /// Set an additional parameter, overriding any earlier value for the key.
    pub fn param(self, key: &str, value: &str) -> (r: Self)
        ensures
            r@ == (ParamsSpec { extra: self@.extra.insert(key@, value@), ..self@ }),
    {
        let ghost orig = self@;
        let ghost orig_pairs = self.extra_params.deep_view();
        let mut p = self;
        p.extra_params.push((key.to_owned(), value.to_owned()));
        proof {
            let pairs = p.extra_params.deep_view();
            assert(pairs =~= orig_pairs.push((key@, value@)));
            assert(pairs.drop_last() =~= orig_pairs);
            assert(pairs_to_map(pairs) == pairs_to_map(orig_pairs).insert(key@, value@));
            assert(p@ =~= (ParamsSpec { extra: orig.extra.insert(key@, value@), ..orig }));
        }
        p
    }

    /// Get the language.
    pub fn get_language(&self) -> (r: &str)
        ensures
            r@ == self@.language,
    {
        self.language.as_str()
    }

    /// Get whether to translate.
    pub fn get_translate(&self) -> (r: bool)
        ensures
            r == self@.translate,
    {
        self.translate
    }

    /// Get the output format.
    pub fn get_output_format(&self) -> (r: &str)
        ensures
            r@ == self@.output_format,
    {
        self.output_format.as_str()
    }

    /// Get an extra parameter: the value most recently set for the key, if
    /// the key was ever set.
    pub fn get_param(&self, key: &str) -> (r: Option<&String>)
        ensures
            match r {
                Some(v) => self@.extra.contains_key(key@) && v@ == self@.extra[key@],
                None => !self@.extra.contains_key(key@),
            },
    {
        let ghost pairs = self.extra_params.deep_view();
        let n = self.extra_params.len();
        let mut i = n;
        proof {
            assert(pairs.take(n as int) =~= pairs);
        }
        while i > 0
            invariant
                i <= n,
                n == self.extra_params.len(),
                pairs == self.extra_params.deep_view(),
                pairs_lookup(pairs, key@) == pairs_lookup(pairs.take(i as int), key@),
            decreases i,
        {
            let pair = &self.extra_params[i - 1];
            proof {
                assert(pairs.take(i as int).last() == pairs[i as int - 1]);
                assert(pairs.take(i as int).drop_last() =~= pairs.take(i as int - 1));
            }
            if str_eq(pair.0.as_str(), key) {
                proof {
                    assert(pairs_lookup(pairs, key@) == Some(pairs[i as int - 1].1));
                    lemma_pairs_lookup_map(pairs, key@);
                }
                return Some(&pair.1);
            }
            i = i - 1;
        }
        proof {
            assert(pairs.take(0) =~= Seq::<(Seq<char>, Seq<char>)>::empty());
            assert(pairs_lookup(pairs, key@) is None);
            lemma_pairs_lookup_map(pairs, key@);
        }
        None
    }
}

} // verus!
