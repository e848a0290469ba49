use vstd::prelude::*;

verus! {

/// The longest name accepted, in characters.
pub const MAX_NAME_LENGTH: usize = 256;

/// Unicode white space, as `char::is_whitespace` defines it.
pub open spec fn is_white_space(c: char) -> bool {
    ('\u{9}' <= c && c <= '\u{d}') || c == ' ' || c == '\u{85}' || c == '\u{a0}' || c == '\u{1680}'
        || ('\u{2000}' <= c && c <= '\u{200a}') || c == '\u{2028}' || c == '\u{2029}' || c
        == '\u{202f}' || c == '\u{205f}' || c == '\u{3000}'
}

/// Control characters (general category Cc), as `char::is_control` defines them.
pub open spec fn is_control_char(c: char) -> bool {
    c <= '\u{1f}' || ('\u{7f}' <= c && c <= '\u{9f}')
}

/// The text is nothing but white space, so it is empty once trimmed.
pub open spec fn is_blank(s: Seq<char>) -> bool {
    forall|i: int| 0 <= i < s.len() ==> is_white_space(#[trigger] s[i])
}

/// Some character of the text is a control character.
pub open spec fn has_control_char(s: Seq<char>) -> bool {
    exists|i: int| 0 <= i < s.len() && is_control_char(#[trigger] s[i])
}

/// A name is valid when it is not blank, is at most `MAX_NAME_LENGTH`
/// characters long, and holds no control character.
pub open spec fn is_valid_name(s: Seq<char>) -> bool {
    !is_blank(s) && s.len() <= MAX_NAME_LENGTH && !has_control_char(s)
}

fn white_space(c: char) -> (r: bool)
    ensures
        r == is_white_space(c),
{
    ('\u{9}' <= c && c <= '\u{d}') || c == ' ' || c == '\u{85}' || c == '\u{a0}' || c == '\u{1680}'
        || ('\u{2000}' <= c && c <= '\u{200a}') || c == '\u{2028}' || c == '\u{2029}' || c
        == '\u{202f}' || c == '\u{205f}' || c == '\u{3000}'
}

fn control_char(c: char) -> (r: bool)
    ensures
        r == is_control_char(c),
{
    c <= '\u{1f}' || ('\u{7f}' <= c && c <= '\u{9f}')
}

/// A validated display name of a subscriber.
#[derive(Debug)]
pub struct SubscriberName(String);

impl View for SubscriberName {
    type V = Seq<char>;

    closed spec fn view(&self) -> Seq<char> {
        self.0@
    }
}

impl SubscriberName {
    /// Only valid text is ever held.
    #[verifier::type_invariant]
    spec fn holds_valid_text(self) -> bool {
        is_valid_name(self.0@)
    }

    /// Accepts `s` when it is a valid name; otherwise the error says which
    /// text was refused.
    pub fn parse(s: String) -> (r: Result<SubscriberName, String>)
        ensures
            r is Ok <==> is_valid_name(s@),
            r matches Ok(n) ==> n@ == s@,
            r matches Err(m) ==> m@ == s@ + " is not a valid subscriber name"@,
    {
        let len = s.unicode_len();
        let mut blank = true;
        let mut control = false;
        let mut i: usize = 0;
        while i < len
            invariant
                len == s@.len(),
                i <= len,
                blank == (forall|j: int| 0 <= j < i ==> is_white_space(#[trigger] s@[j])),
                control == (exists|j: int| 0 <= j < i && is_control_char(#[trigger] s@[j])),
            decreases len - i,
        {
            let c = s.get_char(i);
            if !white_space(c) {
                blank = false;
            }
            if control_char(c) {
                control = true;
            }
            i = i + 1;
        }
        if blank || len > MAX_NAME_LENGTH || control {
            Err(s.concat(" is not a valid subscriber name"))
        } else {
            Ok(SubscriberName(s))
        }
    }

    /// The name as text.
    pub fn as_str(&self) -> (r: &str)
        ensures
            r@ == self@,
            is_valid_name(r@),
    {
        proof {
            use_type_invariant(self);
        }
        self.0.as_str()
    }

    /// The underlying string.
    pub fn as_string(&self) -> (r: &String)
        ensures
            r@ == self@,
            is_valid_name(r@),
    {
        proof {
            use_type_invariant(self);
        }
        &self.0
    }
}

} // verus!
