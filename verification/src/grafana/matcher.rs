//! Finding a metric name in a query expression as a whole token.
//!
//! The search is done by the `regex` crate on a pattern that asks for the
//! metric name with, on each side, a character that is no word character or
//! the edge of the text. Every character of the metric name that has a
//! meaning in a regular expression is escaped. Which patterns the crate's
//! engine accepts, and what it answers for a pattern and a text, is not
//! spelled out here: these go by the names [`pattern_accepted`] and
//! [`pattern_matches`].

use vstd::prelude::*;

verus! {

/// The characters that have a meaning in a regular expression.
pub open spec fn is_meta_character(c: char) -> bool {
    c == '\\' || c == '.' || c == '+' || c == '*' || c == '?' || c == '(' || c == ')' || c == '|'
        || c == '[' || c == ']' || c == '{' || c == '}' || c == '^' || c == '$' || c == '#'
        || c == '&' || c == '-' || c == '~'
}

/// One character made literal: a backslash goes before it when it has a
/// meaning in a regular expression.
pub open spec fn escaped_char(c: char) -> Seq<char> {
    if is_meta_character(c) {
        seq!['\\', c]
    } else {
        seq![c]
    }
}

/// A text made literal, character by character.
pub open spec fn escaped(text: Seq<char>) -> Seq<char>
    decreases text.len(),
{
    if text.len() == 0 {
        Seq::empty()
    } else {
        escaped(text.drop_last()) + escaped_char(text.last())
    }
}

/// `pattern` is a literal: it is made of characters without a meaning in a
/// regular expression, and of characters with a meaning that stand behind a
/// backslash each.
pub open spec fn is_literal(pattern: Seq<char>) -> bool
    decreases pattern.len(),
{
    if pattern.len() == 0 {
        true
    } else if !is_meta_character(pattern[0]) {
        is_literal(pattern.skip(1))
    } else {
        pattern[0] == '\\' && pattern.len() >= 2 && is_meta_character(pattern[1]) && is_literal(
            pattern.skip(2),
        )
    }
}

/// The text that a literal stands for: its characters without the
/// backslashes that make them literal.
pub open spec fn literal_text(pattern: Seq<char>) -> Seq<char>
    decreases pattern.len(),
{
    if pattern.len() == 0 {
        Seq::empty()
    } else if !is_meta_character(pattern[0]) {
        seq![pattern[0]] + literal_text(pattern.skip(1))
    } else if pattern.len() >= 2 {
        seq![pattern[1]] + literal_text(pattern.skip(2))
    } else {
        Seq::empty()
    }
}

/// Two literals in a row are a literal, which stands for the two texts in a
/// row.
pub proof fn lemma_literals_join(a: Seq<char>, b: Seq<char>)
    requires
        is_literal(a),
        is_literal(b),
    ensures
        is_literal(a + b),
        literal_text(a + b) == literal_text(a) + literal_text(b),
    decreases a.len(),
{
    if a.len() == 0 {
        assert(a + b =~= b);
        assert(literal_text(a) + literal_text(b) =~= literal_text(b));
    } else if !is_meta_character(a[0]) {
        lemma_literals_join(a.skip(1), b);
        assert((a + b).skip(1) =~= a.skip(1) + b);
        assert(literal_text(a + b) =~= literal_text(a) + literal_text(b));
    } else {
        lemma_literals_join(a.skip(2), b);
        assert((a + b).skip(2) =~= a.skip(2) + b);
        assert(literal_text(a + b) =~= literal_text(a) + literal_text(b));
    }
}

/// An escaped text is a literal that stands for the text: no character of a
/// metric name reaches the engine with a meaning of its own.
pub proof fn lemma_escaped_is_literal(text: Seq<char>)
    ensures
        is_literal(escaped(text)),
        literal_text(escaped(text)) == text,
    decreases text.len(),
{
    if text.len() > 0 {
        let c = text.last();
        lemma_escaped_is_literal(text.drop_last());
        let unit = escaped_char(c);
        assert(is_literal(unit) && literal_text(unit) =~= seq![c]) by {
            if is_meta_character(c) {
                assert(unit.skip(2) =~= Seq::empty());
                assert(is_literal(unit.skip(2)));
                assert(literal_text(unit.skip(2)) =~= Seq::empty());
            } else {
                assert(unit.skip(1) =~= Seq::empty());
                assert(is_literal(unit.skip(1)));
                assert(literal_text(unit.skip(1)) =~= Seq::empty());
            }
        }
        lemma_literals_join(escaped(text.drop_last()), unit);
        assert(text.drop_last() + seq![c] =~= text);
    }
}

/// What the pattern asks for before the metric name: the start of the text,
/// or a character that is no word character.
pub open spec fn left_delimiter() -> Seq<char> {
    "(?:^|\\W)"@
}

/// What the pattern asks for behind the metric name: a character that is no
/// word character, or the end of the text.
pub open spec fn right_delimiter() -> Seq<char> {
    "(?:\\W|$)"@
}

/// The pattern that finds `metric` as a whole token: the literal metric name
/// with a delimiter or an edge of the text on each side.
pub open spec fn word_pattern(metric: Seq<char>) -> Seq<char> {
    left_delimiter() + escaped(metric) + right_delimiter()
}

/// Whether the `regex` crate, with its defaults, accepts `pattern` as a
/// regular expression and compiles it.
pub uninterp spec fn pattern_accepted(pattern: Seq<char>) -> bool;

/// Whether the regular expression `pattern`, compiled with the `regex`
/// crate's defaults, has a match anywhere in `text`.
pub uninterp spec fn pattern_matches(pattern: Seq<char>, text: Seq<char>) -> bool;

/// `text` mentions `metric` as a whole token.
pub open spec fn mentions_metric(text: Seq<char>, metric: Seq<char>) -> bool {
    pattern_matches(word_pattern(metric), text)
}

/// The engine refused a pattern, for the reason that `message` gives: the
/// pattern is not a regular expression, or its compiled form would be too
/// large.
#[derive(Debug, Clone)]
pub struct PatternError {
    pub message: String,
}

/// `regex::escape`: the text with a backslash put before each character that
/// has a meaning in a regular expression, all else unchanged.
#[verifier::external_body]
fn escape(text: &str) -> (literal: String)
    ensures
        literal@ == escaped(text@),
{
    regex::escape(text)
}

/// `regex::Regex::new` on `pattern`, then `Regex::is_match` on each of
/// `texts`. Whether the pattern compiles depends on the pattern alone, and
/// goes by the name [`pattern_accepted`]. When it compiles, the answers come
/// back in the order of the texts, each being what the engine finds for that
/// pattern and text. A pattern that does not compile comes back as the
/// crate's message.
#[verifier::external_body]
fn search_each(pattern: &str, texts: &Vec<String>) -> (outcome: Result<Vec<bool>, PatternError>)
    ensures
        outcome is Ok <==> pattern_accepted(pattern@),
        outcome matches Ok(hits) ==> {
            &&& hits@.len() == texts@.len()
            &&& forall|i: int|
                0 <= i < texts@.len() ==> hits@[i] == pattern_matches(pattern@, #[trigger] texts@[i]@)
        },
{
    match regex::Regex::new(pattern) {
        Ok(compiled) => Ok(texts.iter().map(|text| compiled.is_match(text)).collect()),
        Err(error) => Err(PatternError { message: error.to_string() }),
    }
}

/// Some answer of a search is a hit.
pub open spec fn some_hit(hits: Seq<bool>) -> bool {
    exists|i: int| 0 <= i < hits.len() && #[trigger] hits[i]
}

/// Whether any of the answers of a search is a hit.
pub fn any_hit(hits: &Vec<bool>) -> (found: bool)
    ensures
        found == some_hit(hits@),
{
    let mut i: usize = 0;
    while i < hits.len()
        invariant
            i <= hits.len(),
            forall|k: int| 0 <= k < i ==> !(#[trigger] hits@[k]),
        decreases hits.len() - i,
    {
        if hits[i] {
            return true;
        }
        i += 1;
    }
    false
}

/// Finds one metric name in texts, as a whole token and never as a pattern.
///
/// An occurrence of the name counts when no word character stands directly
/// before it and none directly behind it: on each side there is a character
/// that is no word character, or the text begins or ends there.
pub struct MetricMatcher {
    metric: String,
    pattern: String,
}

impl MetricMatcher {
    /// The metric name that this matcher looks for.
    pub closed spec fn metric(&self) -> Seq<char> {
        self.metric@
    }

    /// The pattern that this matcher hands to the engine.
    pub closed spec fn pattern(&self) -> Seq<char> {
        self.pattern@
    }

    /// The pattern is the word pattern of the metric name.
    #[verifier::type_invariant]
    pub closed spec fn well_formed(&self) -> bool {
        self.pattern@ == word_pattern(self.metric@)
    }

    /// A matcher for the literal metric name `metric`.
    pub fn new(metric: &str) -> (matcher: MetricMatcher)
        ensures
            matcher.metric() == metric@,
            matcher.pattern() == word_pattern(metric@),
    {
        let literal = escape(metric);
        let mut pattern = String::from_str("(?:^|\\W)");
        pattern.append(literal.as_str());
        pattern.append("(?:\\W|$)");
        MetricMatcher { metric: String::from_str(metric), pattern }
    }

    /// The pattern as text.
    pub fn as_str(&self) -> (pattern: &str)
        ensures
            pattern@ == self.pattern(),
            pattern@ == word_pattern(self.metric()),
    {
        proof {
            use_type_invariant(self);
        }
        self.pattern.as_str()
    }

    /// Whether `text` mentions the metric as a whole token. Fails exactly
    /// when the engine refuses the pattern.
    pub fn is_match(&self, text: &str) -> (outcome: Result<bool, PatternError>)
        ensures
            outcome is Ok <==> pattern_accepted(self.pattern()),
            outcome matches Ok(found) ==> found == mentions_metric(text@, self.metric()),
    {
        proof {
            use_type_invariant(self);
        }
        let mut texts: Vec<String> = Vec::new();
        texts.push(String::from_str(text));
        match search_each(self.pattern.as_str(), &texts) {
            Ok(hits) => {
                assert(texts@[0]@ == text@);
                Ok(hits[0])
            },
            Err(error) => Err(error),
        }
    }

    /// For each of `texts`, in order, whether it mentions the metric as a
    /// whole token. Without texts the engine is not asked and there is
    /// nothing to fail; else this fails exactly when the engine refuses the
    /// pattern.
    pub fn match_each(&self, texts: &Vec<String>) -> (outcome: Result<Vec<bool>, PatternError>)
        ensures
            outcome is Ok <==> texts@.len() == 0 || pattern_accepted(self.pattern()),
            outcome matches Ok(hits) ==> {
                &&& hits@.len() == texts@.len()
                &&& forall|i: int|
                    0 <= i < texts@.len() ==> hits@[i] == mentions_metric(
                        #[trigger] texts@[i]@,
                        self.metric(),
                    )
            },
    {
        proof {
            use_type_invariant(self);
        }
        if texts.len() == 0 {
            return Ok(Vec::new());
        }
        search_each(self.pattern.as_str(), texts)
    }
}

} // verus!
