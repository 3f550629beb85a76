use vstd::prelude::*;

verus! {

use crate::domain::ValidationError;

/// Whether the external email grammar (the HTML5 valid-email-address rule)
/// accepts `s`.  The grammar lives outside this crate; the trusted wrapper
/// below ties the name to `validator`.
pub uninterp spec fn email_accepted(s: Seq<char>) -> bool;

/// Relies on `validator::ValidateEmail::validate_email` for `&str`: it
/// decides by the characters alone, against the HTML5 email grammar, and its
/// source rejects the empty string and any string without `@` outright.
#[verifier::external_body]
pub(crate) fn email_grammar_accepts(s: &str) -> (r: bool)
    ensures
        r == email_accepted(s@),
        s@.len() == 0 ==> !r,
        !s@.contains('@') ==> !r,
{
    validator::ValidateEmail::validate_email(&s)
}

/// Index of the last `@` in `s`, or -1 when there is none.  The characters
/// before it form the local part, those after it the domain.
pub open spec fn last_at_index(s: Seq<char>) -> int
    decreases s.len(),
{
    if s.len() == 0 {
        -1
    } else if s[s.len() - 1] == '@' {
        s.len() - 1
    } else {
        last_at_index(s.drop_last())
    }
}

/// The structural demands on an address: an `@` with a non-empty local part
/// before it and a domain holding at least one `.` after it.
pub open spec fn email_structure_ok(s: Seq<char>) -> bool {
    let i = last_at_index(s);
    i > 0 && exists|k: int| i < k < s.len() && #[trigger] s[k] == '.'
}

/// Every input on which `SubscriberEmail::parse` succeeds.
pub open spec fn email_ok(s: Seq<char>) -> bool {
    email_structure_ok(s) && email_accepted(s)
}

/// Exactly how the result of `SubscriberEmail::parse` relates to the raw
/// input: success stores the input verbatim, with no normalization, and
/// failure reports `InvalidEmail`.
pub open spec fn email_parse_post(
    s: Seq<char>,
    r: Result<SubscriberEmail, ValidationError>,
) -> bool {
    match r {
        Ok(email) => email_ok(s) && email@ == s,
        Err(e) => !email_ok(s) && e == ValidationError::InvalidEmail,
    }
}

/// A validated subscriber email address, stored exactly as it was supplied.
#[derive(Debug)]
pub struct SubscriberEmail {
    email: String,
}

impl View for SubscriberEmail {
    type V = Seq<char>;

    closed spec fn view(&self) -> Seq<char> {
        self.email@
    }
}

impl PartialEq for SubscriberEmail {
    fn eq(&self, other: &Self) -> (r: bool) {
        self.email == other.email
    }
}

impl vstd::std_specs::cmp::PartialEqSpecImpl for SubscriberEmail {
    open spec fn obeys_eq_spec() -> bool {
        true
    }

    open spec fn eq_spec(&self, other: &Self) -> bool {
        self@ == other@
    }
}

proof fn lemma_no_at(s: Seq<char>)
    requires
        forall|j: int| 0 <= j < s.len() ==> #[trigger] s[j] != '@',
    ensures
        last_at_index(s) == -1,
    decreases s.len(),
{
    if s.len() > 0 {
        lemma_no_at(s.drop_last());
    }
}

proof fn lemma_last_at(s: Seq<char>, i: int)
    requires
        0 <= i < s.len(),
        s[i] == '@',
        forall|j: int| i < j < s.len() ==> #[trigger] s[j] != '@',
    ensures
        last_at_index(s) == i,
    decreases s.len(),
{
    if i < s.len() - 1 {
        lemma_last_at(s.drop_last(), i);
    }
}

impl SubscriberEmail {
    /// Validate a raw address: demand a non-empty local part, an `@`, and a
    /// `.` somewhere in the domain, then defer to the external email grammar.
    /// Success stores the original string unchanged.
    pub fn parse(s: String) -> (r: Result<SubscriberEmail, ValidationError>)
        ensures
            email_parse_post(s@, r),
    {
        let st: &str = s.as_str();
        let n: usize = st.unicode_len();

        let mut i: usize = n;
        while i > 0 && st.get_char(i - 1) != '@'
            invariant
                n == st@.len(),
                st@ == s@,
                0 <= i <= n,
                forall|j: int| i <= j < n ==> #[trigger] s@[j] != '@',
            decreases i,
        {
            i = i - 1;
        }

        if i == 0 {
            proof {
                lemma_no_at(s@);
            }
            return Err(ValidationError::InvalidEmail);
        }
        proof {
            lemma_last_at(s@, i - 1);
        }
        if i == 1 {
            // The `@` opens the string: the local part is empty.
            return Err(ValidationError::InvalidEmail);
        }

        if !domain_has_dot(st, i) {
            return Err(ValidationError::InvalidEmail);
        }

        if !email_grammar_accepts(st) {
            return Err(ValidationError::InvalidEmail);
        }

        Ok(SubscriberEmail { email: s })
    }

    /// Read access to the stored address.
    pub fn as_ref(&self) -> (r: &str)
        ensures
            r@ == self@,
    {
        self.email.as_str()
    }
}

fn domain_has_dot(st: &str, from: usize) -> (r: bool)
    requires
        from <= st@.len(),
    ensures
        r == exists|k: int| from <= k < st@.len() && #[trigger] st@[k] == '.',
{
    let n: usize = st.unicode_len();
    let mut k: usize = from;
    while k < n
        invariant
            n == st@.len(),
            from <= k <= n,
            forall|j: int| from <= j < k ==> #[trigger] st@[j] != '.',
        decreases n - k,
    {
        if st.get_char(k) == '.' {
            return true;
        }
        k = k + 1;
    }
    false
}

/// Validation decides by the input text alone, so parsing the same raw
/// address twice yields value-equal results: both attempts succeed or both
/// fail, a success stores the same text, and a failure reports the same
/// error.
pub proof fn lemma_email_validation_idempotent(
    s: Seq<char>,
    r1: Result<SubscriberEmail, ValidationError>,
    r2: Result<SubscriberEmail, ValidationError>,
)
    requires
        email_parse_post(s, r1),
        email_parse_post(s, r2),
    ensures
        r1 is Ok <==> r2 is Ok,
        r1 is Ok ==> r1->Ok_0@ == r2->Ok_0@,
        r1 is Err ==> r1->Err_0 == r2->Err_0,
{
}

} // verus!
