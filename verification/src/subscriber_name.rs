use vstd::prelude::*;

verus! {

use crate::domain::ValidationError;

/// Whether `c` has the Unicode `White_Space` property.  The full character
/// table lives outside this crate; the trusted wrapper below ties the name
/// to `char::is_whitespace`.
pub uninterp spec fn unicode_whitespace(c: char) -> bool;

/// Number of extended grapheme clusters in `s`.  The segmentation rules live
/// outside this crate; the trusted wrapper below ties the name to
/// `unicode_segmentation`.
pub uninterp spec fn grapheme_len(s: Seq<char>) -> nat;

/// Relies on `char::is_whitespace`: true exactly of characters with the
/// Unicode `White_Space` property.
#[verifier::external_body]
pub(crate) fn is_whitespace_char(c: char) -> (r: bool)
    ensures
        r == unicode_whitespace(c),
{
    c.is_whitespace()
}

/// Relies on `unicode_segmentation::UnicodeSegmentation::graphemes`, which
/// iterates over the extended grapheme clusters of `s`: the clusters depend
/// on the characters of `s` alone, so their count does too.
#[verifier::external_body]
pub(crate) fn grapheme_count(s: &str) -> (r: usize)
    ensures
        r as nat == grapheme_len(s@),
{
    unicode_segmentation::UnicodeSegmentation::graphemes(s, true).count()
}

/// `s` without its leading whitespace.
pub open spec fn trim_start_spec(s: Seq<char>) -> Seq<char>
    decreases s.len(),
{
    if s.len() == 0 {
        s
    } else if unicode_whitespace(s[0]) {
        trim_start_spec(s.drop_first())
    } else {
        s
    }
}

/// `s` without its trailing whitespace.
pub open spec fn trim_end_spec(s: Seq<char>) -> Seq<char>
    decreases s.len(),
{
    if s.len() == 0 {
        s
    } else if unicode_whitespace(s[s.len() - 1]) {
        trim_end_spec(s.drop_last())
    } else {
        s
    }
}

/// `s` without leading and trailing whitespace, as `str::trim` would leave it.
pub open spec fn trim_spec(s: Seq<char>) -> Seq<char> {
    trim_end_spec(trim_start_spec(s))
}

/// The characters a subscriber name must never contain.
pub open spec fn forbidden_char(c: char) -> bool {
    c == '/' || c == '(' || c == ')' || c == '"' || c == '<' || c == '>' || c == '\\' || c == '{'
        || c == '}'
}

pub open spec fn contains_forbidden(s: Seq<char>) -> bool {
    exists|k: int| 0 <= k < s.len() && #[trigger] forbidden_char(s[k])
}

/// Every input on which `SubscriberName::parse` succeeds: trimmed non-empty,
/// at most 256 grapheme clusters once trimmed, and free of forbidden
/// characters.
pub open spec fn name_ok(s: Seq<char>) -> bool {
    &&& trim_spec(s).len() > 0
    &&& grapheme_len(trim_spec(s)) <= 256
    &&& !contains_forbidden(s)
}

/// The error `SubscriberName::parse` reports on an input it refuses: the
/// checks run in the order emptiness, length, forbidden characters, and the
/// first to fail wins.
pub open spec fn name_error(s: Seq<char>) -> ValidationError {
    if trim_spec(s).len() == 0 {
        ValidationError::EmptyOrBlank
    } else if grapheme_len(trim_spec(s)) > 256 {
        ValidationError::TooLong
    } else {
        ValidationError::ForbiddenCharacter
    }
}

/// Exactly how the result of `SubscriberName::parse` relates to the raw
/// input: success stores the trimmed text, and failure names the first check
/// that refused the input.
pub open spec fn name_parse_post(s: Seq<char>, r: Result<SubscriberName, ValidationError>) -> bool {
    match r {
        Ok(name) => name_ok(s) && name@ == trim_spec(s),
        Err(e) => !name_ok(s) && e == name_error(s),
    }
}

/// A validated subscriber display name: the trimmed form of an accepted
/// input, immutable once constructed.
#[derive(Debug)]
pub struct SubscriberName {
    name: String,
}

impl View for SubscriberName {
    type V = Seq<char>;

    closed spec fn view(&self) -> Seq<char> {
        self.name@
    }
}

impl PartialEq for SubscriberName {
    fn eq(&self, other: &Self) -> (r: bool) {
        self.name == other.name
    }
}

impl vstd::std_specs::cmp::PartialEqSpecImpl for SubscriberName {
    open spec fn obeys_eq_spec() -> bool {
        true
    }

    open spec fn eq_spec(&self, other: &Self) -> bool {
        self@ == other@
    }
}

proof fn lemma_trim_start_skip(s: Seq<char>, i: int)
    requires
        0 <= i <= s.len(),
        forall|j: int| 0 <= j < i ==> unicode_whitespace(#[trigger] s[j]),
    ensures
        trim_start_spec(s) == trim_start_spec(s.subrange(i, s.len() as int)),
    decreases i,
{
    if i == 0 {
        assert(s.subrange(0, s.len() as int) =~= s);
    } else {
        assert(unicode_whitespace(s[0]));
        lemma_trim_start_skip(s.drop_first(), i - 1);
        assert(s.drop_first().subrange(i - 1, s.drop_first().len() as int) =~= s.subrange(
            i,
            s.len() as int,
        ));
    }
}

proof fn lemma_trim_end_skip(s: Seq<char>, i: int)
    requires
        0 <= i <= s.len(),
        forall|j: int| i <= j < s.len() ==> unicode_whitespace(#[trigger] s[j]),
    ensures
        trim_end_spec(s) == trim_end_spec(s.subrange(0, i)),
    decreases s.len() - i,
{
    if i == s.len() {
        assert(s.subrange(0, s.len() as int) =~= s);
    } else {
        assert(unicode_whitespace(s[s.len() - 1]));
        lemma_trim_end_skip(s.drop_last(), i);
        assert(s.drop_last().subrange(0, i) =~= s.subrange(0, i));
    }
}

impl SubscriberName {
    /// Validate a raw display name: trim surrounding whitespace, then refuse
    /// the input when the trimmed text is empty, longer than 256 grapheme
    /// clusters, or when the raw text holds a forbidden character; otherwise
    /// store the trimmed text.
    pub fn parse(s: String) -> (r: Result<SubscriberName, ValidationError>)
        ensures
            name_parse_post(s@, r),
    {
        let st: &str = s.as_str();
        let n: usize = st.unicode_len();

        let mut lo: usize = 0;
        while lo < n && is_whitespace_char(st.get_char(lo))
            invariant
                n == st@.len(),
                st@ == s@,
                0 <= lo <= n,
                forall|j: int| 0 <= j < lo ==> unicode_whitespace(#[trigger] st@[j]),
            decreases n - lo,
        {
            lo = lo + 1;
        }

        if lo == n {
            proof {
                lemma_trim_start_skip(s@, n as int);
                assert(s@.subrange(n as int, n as int) =~= Seq::<char>::empty());
                assert(trim_spec(s@).len() == 0);
            }
            return Err(ValidationError::EmptyOrBlank);
        }
        assert(!unicode_whitespace(s@[lo as int]));

        let mut hi: usize = n;
        while hi > lo && is_whitespace_char(st.get_char(hi - 1))
            invariant
                n == st@.len(),
                st@ == s@,
                lo <= hi <= n,
                lo < n,
                !unicode_whitespace(s@[lo as int]),
                forall|j: int| hi <= j < n ==> unicode_whitespace(#[trigger] st@[j]),
            decreases hi,
        {
            hi = hi - 1;
        }
        assert(hi > lo);
        assert(!unicode_whitespace(s@[hi - 1]));

        proof {
            lemma_trim_start_skip(s@, lo as int);
            let t = s@.subrange(lo as int, n as int);
            assert(trim_start_spec(s@) == trim_start_spec(t));
            assert(t.len() > 0 && !unicode_whitespace(t[0]));
            assert(trim_start_spec(t) == t);
            assert(forall|j: int|
                hi - lo <= j < t.len() ==> unicode_whitespace(#[trigger] t[j]));
            lemma_trim_end_skip(t, hi - lo);
            assert(t.subrange(0, hi - lo) =~= s@.subrange(lo as int, hi as int));
            let u = s@.subrange(lo as int, hi as int);
            assert(u.len() > 0 && !unicode_whitespace(u[u.len() - 1]));
            assert(trim_end_spec(u) == u);
            assert(trim_spec(s@) == u);
        }

        let trimmed: String = st.substring_char(lo, hi).to_owned();
        assert(trimmed@ == trim_spec(s@));

        if grapheme_count(trimmed.as_str()) > 256 {
            return Err(ValidationError::TooLong);
        }

        if contains_forbidden_chars(st) {
            return Err(ValidationError::ForbiddenCharacter);
        }

        Ok(SubscriberName { name: trimmed })
    }

    /// Read access to the stored, trimmed name.
    pub fn as_ref(&self) -> (r: &str)
        ensures
            r@ == self@,
    {
        self.name.as_str()
    }
}

fn contains_forbidden_chars(st: &str) -> (r: bool)
    ensures
        r == contains_forbidden(st@),
{
    let n: usize = st.unicode_len();
    let mut i: usize = 0;
    while i < n
        invariant
            n == st@.len(),
            0 <= i <= n,
            forall|j: int| 0 <= j < i ==> !#[trigger] forbidden_char(st@[j]),
        decreases n - i,
    {
        let c = st.get_char(i);
        if c == '/' || c == '(' || c == ')' || c == '"' || c == '<' || c == '>' || c == '\\'
            || c == '{' || c == '}' {
            assert(forbidden_char(st@[i as int]));
            return true;
        }
        i = i + 1;
    }
    false
}

/// Validation decides by the input text alone, so parsing the same raw name
/// twice yields value-equal results: both attempts succeed or both fail, a
/// success stores the same text, and a failure reports the same error.
pub proof fn lemma_name_validation_idempotent(
    s: Seq<char>,
    r1: Result<SubscriberName, ValidationError>,
    r2: Result<SubscriberName, ValidationError>,
)
    requires
        name_parse_post(s, r1),
        name_parse_post(s, r2),
    ensures
        r1 is Ok <==> r2 is Ok,
        r1 is Ok ==> r1->Ok_0@ == r2->Ok_0@,
        r1 is Err ==> r1->Err_0 == r2->Err_0,
{
}

} // verus!
