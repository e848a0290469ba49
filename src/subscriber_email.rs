use vstd::prelude::*;

verus! {

/// What `validator::validate_email` answers for a string: the HTML5
/// e-mail grammar, with length limits and internationalised domains.
pub uninterp spec fn email_accepted(s: Seq<char>) -> bool;

/// Relies on `validator::validate_email`: its verdict depends on the text alone.
#[verifier::external_body]
fn validator_accepts(s: &String) -> (r: bool)
    ensures
        r == email_accepted(s@),
{
    validator::validate_email(s.as_str())
}

/// The shape every address must have: exactly one `@`, a non-empty local part
/// before it, and a domain after it that holds at least one `.`.
pub open spec fn has_email_shape(s: Seq<char>) -> bool {
    exists|k: int|
        #![trigger s[k]]
        0 < k < s.len() && s[k] == '@' && (forall|j: int| 0 <= j < s.len() && j != k ==> s[j] != '@')
            && (exists|d: int| k < d < s.len() && s[d] == '.')
}

/// An address is valid when it has the shape above and the e-mail grammar accepts it.
pub open spec fn is_valid_email(s: Seq<char>) -> bool {
    has_email_shape(s) && email_accepted(s)
}

/// Four malformed addresses, each refused by the shape rule: one without an
/// `@`, the empty one, one with no local part and one with no domain.
pub proof fn malformed_addresses_are_invalid()
    ensures
        !is_valid_email("not-an-email"@),
        !is_valid_email(""@),
        !is_valid_email("@domain.com"@),
        !is_valid_email("user@"@),
{
    reveal_strlit("not-an-email");
    reveal_strlit("");
    reveal_strlit("@domain.com");
    reveal_strlit("user@");
    let a = "not-an-email"@;
    assert(a =~= seq!['n', 'o', 't', '-', 'a', 'n', '-', 'e', 'm', 'a', 'i', 'l']);
    assert forall|k: int| 0 <= k < a.len() implies a[k] != '@' by {
        assert(a =~= seq!['n', 'o', 't', '-', 'a', 'n', '-', 'e', 'm', 'a', 'i', 'l']);
    }
    let c = "@domain.com"@;
    assert(c =~= seq!['@', 'd', 'o', 'm', 'a', 'i', 'n', '.', 'c', 'o', 'm']);
    assert forall|k: int| 0 < k < c.len() implies c[k] != '@' by {
        assert(c =~= seq!['@', 'd', 'o', 'm', 'a', 'i', 'n', '.', 'c', 'o', 'm']);
    }
    let d = "user@"@;
    assert(d =~= seq!['u', 's', 'e', 'r', '@']);
    assert forall|k: int| 0 <= k < 4 implies d[k] != '@' by {
        assert(d =~= seq!['u', 's', 'e', 'r', '@']);
    }
}

/// A validated e-mail address.
#[derive(Debug)]
pub struct Email(String);

impl View for Email {
    type V = Seq<char>;

    closed spec fn view(&self) -> Seq<char> {
        self.0@
    }
}

/// Tells whether `s` has exactly one `@`, with text before it and a `.` after it.
pub fn check_email_shape(s: &str) -> (r: bool)
    ensures
        r == has_email_shape(s@),
{
    let len = s.unicode_len();
    let mut at: usize = 0;
    let mut ats: usize = 0;
    let mut i: usize = 0;
    while i < len
        invariant
            len == s@.len(),
            i <= len,
            ats <= i,
            ats == 0 ==> forall|j: int| 0 <= j < i ==> s@[j] != '@',
            ats >= 1 ==> at < i && s@[at as int] == '@',
            ats == 1 ==> forall|j: int| 0 <= j < i && j != at ==> s@[j] != '@',
            ats >= 2 ==> exists|j: int| 0 <= j < i && j != at && s@[j] == '@',
        decreases len - i,
    {
        if s.get_char(i) == '@' {
            if ats == 0 {
                at = i;
            }
            ats = if ats < 2 { ats + 1 } else { 2 };
        }
        i = i + 1;
    }
    if ats != 1 || at == 0 {
        proof {
            if has_email_shape(s@) {
                let k = choose|k: int|
                    #![trigger s@[k]]
                    0 < k < s@.len() && s@[k] == '@' && (forall|j: int|
                        0 <= j < s@.len() && j != k ==> s@[j] != '@') && (exists|d: int|
                        k < d < s@.len() && s@[d] == '.');
                if ats >= 2 {
                    let j = choose|j: int| 0 <= j < len && j != at && s@[j] == '@';
                    assert(s@[j] == '@' && s@[at as int] == '@');
                } else if ats == 1 {
                    assert(s@[k] == '@');
                }
            }
        }
        return false;
    }
    let mut d: usize = at + 1;
    while d < len
        invariant
            len == s@.len(),
            0 < at < d <= len,
            s@[at as int] == '@',
            forall|j: int| 0 <= j < len && j != at ==> s@[j] != '@',
            forall|j: int| at < j < d ==> s@[j] != '.',
        decreases len - d,
    {
        if s.get_char(d) == '.' {
            assert(s@[at as int] == '@' && s@[d as int] == '.');
            return true;
        }
        d = d + 1;
    }
    proof {
        if has_email_shape(s@) {
            let k = choose|k: int|
                #![trigger s@[k]]
                0 < k < s@.len() && s@[k] == '@' && (forall|j: int|
                    0 <= j < s@.len() && j != k ==> s@[j] != '@') && (exists|d: int|
                    k < d < s@.len() && s@[d] == '.');
            assert(k == at);
        }
    }
    false
}

impl Email {
    /// Only valid text is ever held.
    #[verifier::type_invariant]
    spec fn holds_valid_text(self) -> bool {
        is_valid_email(self.0@)
    }

    /// Accepts `s` when it is a valid address; otherwise the error says which
    /// text was refused.
    pub fn parse(s: String) -> (r: Result<Email, String>)
        ensures
            r is Ok <==> is_valid_email(s@),
            r matches Ok(e) ==> e@ == s@,
            r matches Err(m) ==> m@ == s@ + " is not a valid email"@,
    {
        let shaped = check_email_shape(s.as_str());
        let accepted = validator_accepts(&s);
        if shaped && accepted {
            Ok(Email(s))
        } else {
            Err(s.concat(" is not a valid email"))
        }
    }

    /// The address as text.
    pub fn as_str(&self) -> (r: &str)
        ensures
            r@ == self@,
            is_valid_email(r@),
    {
        proof {
            use_type_invariant(self);
        }
        self.0.as_str()
    }

    /// The underlying string.
    pub fn as_string(&self) -> (r: &String)
        ensures
            r@ == self@,
            is_valid_email(r@),
    {
        proof {
            use_type_invariant(self);
        }
        &self.0
    }
}

} // verus!
