//! A subscriber's display name and the rules it has to meet.

use unicode_segmentation::UnicodeSegmentation;
use vstd::prelude::*;
use vstd::string::*;

verus! {

/// The greatest number of grapheme clusters a name may have.
pub const MAX_NAME_GRAPHEMES: usize = 256;

/// Whether `c` has the Unicode property White_Space, as `char::is_whitespace`
/// reports it.
pub uninterp spec fn is_white_space(c: char) -> bool;

/// The number of grapheme clusters of `s`, as the crate
/// `unicode-segmentation` counts them: extended clusters where `extended`
/// holds, legacy clusters where it does not.
pub uninterp spec fn grapheme_count(s: Seq<char>, extended: bool) -> nat;

/// The characters that no name may contain.
pub open spec fn is_forbidden(c: char) -> bool {
    c == '/' || c == '\\' || c == '(' || c == ')' || c == '<' || c == '>' || c == ':' || c == '"'
        || c == ';' || c == '[' || c == ']' || c == '{' || c == '}' || c == '?' || c == '*'
        || c == '|' || c == '&' || c == '#' || c == '%' || c == '^' || c == '~' || c == '`'
        || c == '$' || c == '=' || c == '+' || c == ','
}

/// Every character of `s` is white space. These are the strings of which
/// trimming leaves nothing: see `law_blank_trims_to_nothing`.
pub open spec fn is_blank(s: Seq<char>) -> bool {
    forall|i: int| 0 <= i < s.len() ==> is_white_space(#[trigger] s[i])
}

/// `s` without the white space at its start.
pub open spec fn trim_start(s: Seq<char>) -> Seq<char>
    decreases s.len(),
{
    if s.len() > 0 && is_white_space(s.first()) {
        trim_start(s.drop_first())
    } else {
        s
    }
}

/// `s` without the white space at its end.
pub open spec fn trim_end(s: Seq<char>) -> Seq<char>
    decreases s.len(),
{
    if s.len() > 0 && is_white_space(s.last()) {
        trim_end(s.drop_last())
    } else {
        s
    }
}

/// `s` trimmed: without the white space at its start and at its end.
pub open spec fn trimmed(s: Seq<char>) -> Seq<char> {
    trim_end(trim_start(s))
}

/// Some character of `s` is forbidden.
pub open spec fn has_forbidden(s: Seq<char>) -> bool {
    exists|i: int| 0 <= i < s.len() && is_forbidden(#[trigger] s[i])
}

/// Why a name is turned down.
#[derive(Debug, Clone, Copy, PartialEq, Eq, Structural)]
pub enum NameRejection {
    /// Nothing is left of the name after trimming.
    Blank,
    /// The name has more than `MAX_NAME_GRAPHEMES` grapheme clusters.
    TooLong,
    /// The name holds a forbidden character.
    ForbiddenCharacter,
}

/// The verdict on a name `s` of which `blank` says whether it trims to nothing
/// and `graphemes` is the number of its grapheme clusters. The first rule that
/// is broken names the rejection.
pub open spec fn verdict(s: Seq<char>, blank: bool, graphemes: nat) -> Option<NameRejection> {
    if blank {
        Some(NameRejection::Blank)
    } else if graphemes > MAX_NAME_GRAPHEMES {
        Some(NameRejection::TooLong)
    } else if has_forbidden(s) {
        Some(NameRejection::ForbiddenCharacter)
    } else {
        None
    }
}

/// The rules for a name: it does not trim to nothing, it has at most
/// `MAX_NAME_GRAPHEMES` extended grapheme clusters, and no character of it is
/// forbidden.
pub open spec fn is_valid_name(s: Seq<char>) -> bool {
    !is_blank(s) && grapheme_count(s, true) <= MAX_NAME_GRAPHEMES && !has_forbidden(s)
}

/// What `parse` answers for a name that it turns down.
pub open spec fn rejection_message(s: Seq<char>) -> Seq<char> {
    s + " is not a valid subscriber name."@
}

/// Trimming at the start leaves nothing of a blank string, and of no other:
/// what it leaves of another begins with a character that is not white space.
proof fn lemma_trim_start(s: Seq<char>)
    ensures
        trim_start(s).len() == 0 <==> is_blank(s),
        trim_start(s).len() > 0 ==> !is_white_space(trim_start(s).first()),
    decreases s.len(),
{
    if s.len() > 0 && is_white_space(s.first()) {
        let rest = s.drop_first();
        lemma_trim_start(rest);
        if is_blank(rest) {
            assert forall|i: int| 0 <= i < s.len() implies is_white_space(#[trigger] s[i]) by {
                if i > 0 {
                    assert(s[i] == rest[i - 1]);
                }
            }
        }
        if is_blank(s) {
            assert forall|i: int| 0 <= i < rest.len() implies is_white_space(
                #[trigger] rest[i],
            ) by {
                assert(rest[i] == s[i + 1]);
            }
        }
    } else if s.len() > 0 {
        assert(!is_white_space(s[0]));
    }
}

/// Trimming at the end leaves nothing of a blank string, and of no other.
proof fn lemma_trim_end(s: Seq<char>)
    ensures
        trim_end(s).len() == 0 <==> is_blank(s),
    decreases s.len(),
{
    if s.len() > 0 && is_white_space(s.last()) {
        let rest = s.drop_last();
        lemma_trim_end(rest);
        if is_blank(rest) {
            assert forall|i: int| 0 <= i < s.len() implies is_white_space(#[trigger] s[i]) by {
                if i < s.len() - 1 {
                    assert(s[i] == rest[i]);
                }
            }
        }
        if is_blank(s) {
            assert forall|i: int| 0 <= i < rest.len() implies is_white_space(
                #[trigger] rest[i],
            ) by {
                assert(rest[i] == s[i]);
            }
        }
    } else if s.len() > 0 {
        assert(!is_white_space(s[s.len() - 1]));
    }
}

/// Trimming leaves nothing of a string exactly where every character of it
/// is white space.
pub proof fn law_blank_trims_to_nothing(s: Seq<char>)
    ensures
        trimmed(s).len() == 0 <==> is_blank(s),
{
    let t = trim_start(s);
    lemma_trim_start(s);
    lemma_trim_end(t);
    if t.len() > 0 {
        assert(!is_white_space(t[0]));
    }
}

/// A name is turned down exactly where trimming leaves nothing of it, or it
/// has more than `MAX_NAME_GRAPHEMES` extended grapheme clusters, or one of
/// its characters is forbidden.
pub proof fn law_rules_for_a_name(s: Seq<char>)
    ensures
        !is_valid_name(s) <==> (trimmed(s).len() == 0 || grapheme_count(s, true)
            > MAX_NAME_GRAPHEMES || has_forbidden(s)),
{
    law_blank_trims_to_nothing(s);
}

/// Calls `char::is_whitespace`. Nothing is claimed of which characters are
/// white space: the answer is only given its name, `is_white_space`.
#[verifier::external_body]
fn char_is_whitespace(c: char) -> (r: bool)
    ensures
        r == is_white_space(c),
{
    c.is_whitespace()
}

/// Calls `UnicodeSegmentation::graphemes` of the crate `unicode-segmentation`
/// and counts the clusters that it yields. Nothing is claimed of where the
/// clusters begin and end: the count is only given its name, `grapheme_count`.
#[verifier::external_body]
fn count_graphemes(s: &str, extended: bool) -> (n: usize)
    ensures
        n == grapheme_count(s@, extended),
{
    s.graphemes(extended).count()
}

/// Whether `c` is one of the characters that no name may contain.
pub fn is_forbidden_char(c: char) -> (r: bool)
    ensures
        r == is_forbidden(c),
{
    c == '/' || c == '\\' || c == '(' || c == ')' || c == '<' || c == '>' || c == ':' || c == '"'
        || c == ';' || c == '[' || c == ']' || c == '{' || c == '}' || c == '?' || c == '*'
        || c == '|' || c == '&' || c == '#' || c == '%' || c == '^' || c == '~' || c == '`'
        || c == '$' || c == '=' || c == '+' || c == ','
}

/// Whether `s` holds a forbidden character.
pub fn contains_forbidden_char(s: &str) -> (r: bool)
    ensures
        r == has_forbidden(s@),
{
    let mut found = false;
    for c in it: s.chars()
        invariant
            it.seq() == s@,
            found == exists|i: int| 0 <= i < it.index() && is_forbidden(#[trigger] s@[i]),
    {
        if is_forbidden_char(c) {
            found = true;
        }
    }
    found
}

/// Whether nothing is left of `s` once white space is trimmed from both ends.
pub fn trims_to_nothing(s: &str) -> (r: bool)
    ensures
        r == is_blank(s@),
{
    let mut blank = true;
    for c in it: s.chars()
        invariant
            it.seq() == s@,
            blank == forall|i: int| 0 <= i < it.index() ==> is_white_space(#[trigger] s@[i]),
    {
        if !char_is_whitespace(c) {
            blank = false;
        }
    }
    blank
}

/// A subscriber's display name. Every value of this type meets the rules for
/// a name, and nothing can change it once it is made.
#[derive(Debug)]
pub struct SubscriberName(String);

impl View for SubscriberName {
    type V = Seq<char>;

    closed spec fn view(&self) -> Seq<char> {
        self.0@
    }
}

impl SubscriberName {
    #[verifier::type_invariant]
    spec fn holds_valid_name(self) -> bool {
        is_valid_name(self.0@)
    }

    /// The verdict on `value`, given whether it trims to nothing and how many
    /// grapheme clusters it has: `None` where every rule is met, else the
    /// first rule that is broken.
    pub fn rejection(value: &str, blank: bool, graphemes: usize) -> (r: Option<NameRejection>)
        ensures
            r == verdict(value@, blank, graphemes as nat),
    {
        if blank {
            Some(NameRejection::Blank)
        } else if graphemes > MAX_NAME_GRAPHEMES {
            Some(NameRejection::TooLong)
        } else if contains_forbidden_char(value) {
            Some(NameRejection::ForbiddenCharacter)
        } else {
            None
        }
    }

    /// Accepts `value` as it stands, untrimmed, where it meets the rules for a
    /// name, and turns it down with a message where it breaks one of them.
    pub fn parse(value: String) -> (r: Result<SubscriberName, String>)
        ensures
            r is Ok <==> is_valid_name(value@),
            r is Ok ==> r->Ok_0@ == value@,
            r is Err ==> r->Err_0@ == rejection_message(value@),
    {
        let blank = trims_to_nothing(value.as_str());
        let graphemes = count_graphemes(value.as_str(), true);
        match SubscriberName::rejection(value.as_str(), blank, graphemes) {
            None => Ok(SubscriberName(value)),
            Some(_) => Err(value.concat(" is not a valid subscriber name.")),
        }
    }

    /// Gives up the name and hands out the string it holds.
    pub fn inner(self) -> (r: String)
        ensures
            r@ == self@,
            is_valid_name(r@),
    {
        proof {
            use_type_invariant(&self);
        }
        self.0
    }

    /// The name as a string slice.
    pub fn inner_ref(&self) -> (r: &str)
        ensures
            r@ == self@,
            is_valid_name(r@),
    {
        proof {
            use_type_invariant(self);
        }
        self.0.as_str()
    }
}

impl AsRef<str> for SubscriberName {
    fn as_ref(&self) -> (r: &str)
        ensures
            r@ == self@,
    {
        self.0.as_str()
    }
}

} // verus!
