//! Prompt patterns: a compiled regular expression together with the pattern
//! text it was compiled from.
//!
//! The regex engine itself is outside code.  Its behaviour enters the proofs
//! only through two named functions — whether a pattern compiles
//! ([`regex_valid`]) and where the leftmost match of a pattern lies in a text
//! ([`regex_match`]) — and the trusted items below, which relate the calls to
//! those names.

use vstd::prelude::*;

verus! {

#[verifier::external_type_specification]
#[verifier::external_body]
pub struct ExRegex(regex::Regex);

/// Whether `regex::Regex::new` accepts `pattern`: valid regex syntax within
/// the engine's default compile limits.  A function of the pattern text
/// alone.
pub uninterp spec fn regex_valid(pattern: Seq<char>) -> bool;

/// The leftmost match that `regex::Regex::find` reports for the compiled
/// `pattern` in `text`, as half-open character offsets, or `None` when the
/// pattern matches nowhere.  A function of the pattern and the text alone.
pub uninterp spec fn regex_match(pattern: Seq<char>, text: Seq<char>) -> Option<(usize, usize)>;

/// A prompt pattern: the compiled expression `re` and the text `pattern` it
/// was compiled from.  The fields are private and every constructor compiles
/// `re` from `pattern`, so the trusted contract of [`Prompt::find`] may speak
/// of the pattern text.
pub struct Prompt {
    re: regex::Regex,
    pattern: String,
}

impl View for Prompt {
    type V = Seq<char>;

    closed spec fn view(&self) -> Seq<char> {
        self.pattern@
    }
}

impl Prompt {
    /// Relies on `regex::Regex::new`: it returns `Ok` exactly when it
    /// accepts the pattern (valid syntax, within its default compile
    /// limits), and the compiled expression matches as the pattern text
    /// prescribes.
    #[verifier::external_body]
    pub fn new(pattern: &str) -> (r: Option<Prompt>)
        ensures
            r is Some <==> regex_valid(pattern@),
            r matches Some(p) ==> p@ == pattern@,
    {
        match regex::Regex::new(pattern) {
            Ok(re) => Some(Prompt { re, pattern: pattern.to_string() }),
            Err(_) => None,
        }
    }

    /// Relies on `regex::Regex::find`: it reports the leftmost match of the
    /// compiled pattern, here converted from byte offsets to character
    /// offsets in `text`.
    #[verifier::external_body]
    pub fn find(&self, text: &Vec<char>) -> (r: Option<(usize, usize)>)
        ensures
            r == regex_match(self@, text@),
            r matches Some((s, e)) ==> s <= e <= text@.len(),
    {
        let t: String = text.iter().collect();
        match self.re.find(&t) {
            Some(m) => {
                let s = t[..m.start()].chars().count();
                let e = t[..m.end()].chars().count();
                Some((s, e))
            },
            None => None,
        }
    }

    /// Relies on `regex::Regex::clone`: an identical compiled pattern.
    #[verifier::external_body]
    pub fn duplicate(&self) -> (r: Prompt)
        ensures
            r@ == self@,
    {
        Prompt { re: self.re.clone(), pattern: self.pattern.clone() }
    }

    /// The pattern text this prompt was compiled from.
    pub fn pattern_str(&self) -> (r: &str)
        ensures
            r@ == self@,
    {
        self.pattern.as_str()
    }
}

} // verus!
