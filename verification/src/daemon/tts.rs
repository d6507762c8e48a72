//! Choosing what to speak for a notification. The speaking itself, through
//! speech-dispatcher, is done by the caller from the returned `Utterance`.

use vstd::prelude::*;
use crate::config::TtsConfig;
use crate::text::{chars_of, count_words, word_total};

verus! {

/// One request to speech-dispatcher: the text, the voice to select first
/// (none for the system default) and the rate to set first (none for the
/// default rate).
#[derive(Debug)]
pub struct Utterance {
    pub text: String,
    pub voice: Option<String>,
    pub rate: Option<i32>,
}

/// Speaks notifications according to the `[tts]` configuration.
pub struct TtsClient {
    config: TtsConfig,
}

/// The number of whitespace-separated words of `s`, as a `u32`.
pub open spec fn spec_word_count(s: Seq<char>) -> u32 {
    word_total(s) as u32
}

/// The text to speak for a notification: nothing when the summary is
/// empty; the summary, a period, two spaces and the body when the body is
/// non-empty and both have at most `limit` words; otherwise the summary.
pub open spec fn spec_compose_utterance(summary: Seq<char>, body: Seq<char>, limit: u32) -> Seq<char> {
    if summary.len() == 0 {
        Seq::empty()
    } else if body.len() != 0 && spec_word_count(body) <= limit && spec_word_count(summary) <= limit {
        summary + ".  "@ + body
    } else {
        summary
    }
}

/// Whether `u` is the request that speaks `text` with the voice and rate of `config`.
pub open spec fn utterance_for(config: TtsConfig, text: Seq<char>, u: Utterance) -> bool {
    &&& u.text@ == text
    &&& u.voice == (if config.voice@.len() == 0 {
        None::<String>
    } else {
        Some(config.voice)
    })
    &&& u.rate == (if config.rate == 0 {
        None::<i32>
    } else {
        Some(config.rate)
    })
}

/// What is spoken always begins with the summary: it is nothing, the
/// summary, or the summary followed by `.  ` and the body; and a limit of
/// zero words speaks the summary alone whenever either text has a word.
pub proof fn lemma_utterance_starts_with_summary(summary: Seq<char>, body: Seq<char>, limit: u32)
    ensures
        spec_compose_utterance(summary, body, limit).len() == 0 <==> summary.len() == 0,
        summary.len() > 0 ==> spec_compose_utterance(summary, body, limit).take(
            summary.len() as int,
        ) == summary,
        summary.len() > 0 && limit == 0 && (spec_word_count(body) > 0 || spec_word_count(summary)
            > 0) ==> spec_compose_utterance(summary, body, limit) == summary,
{
    let t = spec_compose_utterance(summary, body, limit);
    if summary.len() > 0 {
        assert(t.take(summary.len() as int) =~= summary);
    }
}

/// Each text is held to the limit by its own word count: when summary and
/// body are both non-empty and each has at most `limit` words, both are
/// spoken, the summary first, joined by a period and two spaces; when
/// either has more than `limit` words, or the body is empty, the summary
/// is spoken alone. (Word counts are taken as `u32`, so the second part is
/// stated for texts of fewer than 2^32 characters.)
pub proof fn lemma_utterance_by_word_limit(summary: Seq<char>, body: Seq<char>, limit: u32)
    requires
        summary.len() > 0,
    ensures
        body.len() > 0 && word_total(summary) <= limit && word_total(body) <= limit
            ==> spec_compose_utterance(summary, body, limit) == summary + seq!['.', ' ', ' ']
            + body,
        summary.len() <= u32::MAX && body.len() <= u32::MAX && (body.len() == 0 || word_total(
            summary,
        ) > limit || word_total(body) > limit) ==> spec_compose_utterance(summary, body, limit)
            == summary,
{
    reveal_strlit(".  ");
    if word_total(summary) <= limit {
        assert(spec_word_count(summary) == word_total(summary));
    }
    if word_total(body) <= limit {
        assert(spec_word_count(body) == word_total(body));
    }
    if word_total(summary) > limit {
        lemma_words_in_prefix_bound_nat(summary);
    }
    if word_total(body) > limit {
        lemma_words_in_prefix_bound_nat(body);
    }
    assert(".  "@ =~= seq!['.', ' ', ' ']);
}

/// A text has no more words than characters.
proof fn lemma_words_in_prefix_bound_nat(s: Seq<char>)
    ensures
        word_total(s) <= s.len(),
{
    crate::text::lemma_word_total_bound(s);
}

impl TtsClient {
    /// The configuration this client speaks by.
    pub closed spec fn settings(&self) -> TtsConfig {
        self.config
    }

    pub fn new(config: TtsConfig) -> (c: Self)
        ensures
            c.settings() == config,
    {
        Self { config }
    }

    /// The request that speaks `text` with the configured voice and rate.
    fn speak(&self, text: &str) -> (u: Utterance)
        ensures
            utterance_for(self.settings(), text@, u),
    {
        let voice = if self.config.voice.as_str().is_empty() {
            None
        } else {
            Some(self.config.voice.clone())
        };
        let rate = if self.config.rate == 0 {
            None
        } else {
            Some(self.config.rate)
        };
        Utterance { text: text.to_owned(), voice, rate }
    }

    /// Speaks the notification summary if TTS is enabled and `speak_summary` is set.
    pub fn speak_summary(&self, summary: &str) -> (u: Option<Utterance>)
        ensures
            u is Some <==> (self.settings().enabled && self.settings().speak_summary),
            u matches Some(v) ==> utterance_for(self.settings(), summary@, v),
    {
        if !self.config.enabled || !self.config.speak_summary {
            return None;
        }
        Some(self.speak(summary))
    }

    /// Speaks the full notification body if TTS is enabled.
    pub fn speak_body(&self, body: &str) -> (u: Option<Utterance>)
        ensures
            u is Some <==> self.settings().enabled,
            u matches Some(v) ==> utterance_for(self.settings(), body@, v),
    {
        if !self.config.enabled {
            return None;
        }
        Some(self.speak(body))
    }

    /// Speaks the notification by word count: summary and body together when
    /// both are short, else the summary; nothing when the summary is empty or
    /// automatic speech is off.
    pub fn speak_smart(&self, summary: &str, body: &str) -> (u: Option<Utterance>)
        ensures
            u is Some <==> (self.settings().enabled && self.settings().speak_summary
                && summary@.len() != 0),
            u matches Some(v) ==> utterance_for(
                self.settings(),
                spec_compose_utterance(summary@, body@, self.settings().body_word_limit),
                v,
            ),
    {
        if !self.config.enabled || !self.config.speak_summary {
            return None;
        }
        let text = compose_utterance(summary, body, self.config.body_word_limit);
        if text.as_str().is_empty() {
            return None;
        }
        Some(self.speak(text.as_str()))
    }
}

/// Returns the text to speak for a notification.
pub fn compose_utterance(summary: &str, body: &str, limit: u32) -> (t: String)
    ensures
        t@ == spec_compose_utterance(summary@, body@, limit),
        summary@.len() > 0 && body@.len() > 0 && word_total(summary@) <= limit && word_total(body@)
            <= limit ==> t@ == summary@ + seq!['.', ' ', ' '] + body@,
        summary@.len() > 0 && summary@.len() <= u32::MAX && body@.len() <= u32::MAX && (body@.len()
            == 0 || word_total(summary@) > limit || word_total(body@) > limit) ==> t@ == summary@,
{
    proof {
        if summary@.len() > 0 {
            lemma_utterance_by_word_limit(summary@, body@, limit);
        }
    }
    if summary.is_empty() {
        return String::new();
    }
    let body_words = word_count(body);
    let summary_words = word_count(summary);
    if !body.is_empty() && body_words <= limit && summary_words <= limit {
        let mut t = summary.to_owned();
        t.append(".  ");
        t.append(body);
        t
    } else {
        summary.to_owned()
    }
}

/// Counts whitespace-separated words.
pub fn word_count(s: &str) -> (n: u32)
    ensures
        n == spec_word_count(s@),
{
    let v = chars_of(s);
    let n = count_words(v.as_slice());
    n as u32
}

} // verus!
