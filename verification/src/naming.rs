//! Names of scratch databases: a fixed prefix followed by random letters and digits.
//!
//! A name is spliced into statements as it stands, so the type keeps it to
//! letters, digits and underscores.

use vstd::prelude::*;

verus! {

/// What every scratch database's name starts with.
pub const NAME_PREFIX: &'static str = "testing_temp_";

/// How many random characters a freshly drawn name carries, and the least
/// that any name may carry.
pub const SUFFIX_LEN: usize = 7;

/// An ASCII letter or digit.
pub open spec fn is_alphanumeric(c: char) -> bool {
    ('0' <= c && c <= '9') || ('a' <= c && c <= 'z') || ('A' <= c && c <= 'Z')
}

/// A character that needs no quoting inside an identifier.
pub open spec fn is_identifier_char(c: char) -> bool {
    is_alphanumeric(c) || c == '_'
}

/// A suffix is at least `SUFFIX_LEN` letters and digits.
pub open spec fn is_suffix(s: Seq<char>) -> bool {
    &&& s.len() >= SUFFIX_LEN
    &&& forall|i: int| 0 <= i < s.len() ==> is_alphanumeric(#[trigger] s[i])
}

/// The name that a suffix gives.
pub open spec fn name_of(suffix: Seq<char>) -> Seq<char> {
    NAME_PREFIX@ + suffix
}

/// What follows the prefix in a name.
pub open spec fn suffix_of(name: Seq<char>) -> Seq<char> {
    name.skip(NAME_PREFIX@.len() as int)
}

/// A database name is the prefix followed by a suffix.
pub open spec fn is_database_name(s: Seq<char>) -> bool {
    &&& s.len() >= NAME_PREFIX@.len()
    &&& s == name_of(suffix_of(s))
    &&& is_suffix(suffix_of(s))
}

/// Draws one letter or digit from the thread's random generator: `rand`'s
/// `Rng::sample` on `thread_rng()` with the `Alphanumeric` distribution, which
/// yields one byte out of `A-Z`, `a-z`, `0-9`. Nothing is claimed of which one.
/// The generator is seeded by the system on a thread's first draw, and `rand`
/// stops the thread where the system has no randomness to give.
#[verifier::external_body]
fn random_alphanumeric() -> (c: char)
    ensures
        is_alphanumeric(c),
{
    let byte: u8 = rand::Rng::sample(&mut rand::thread_rng(), rand::distributions::Alphanumeric);
    char::from(byte)
}

/// Appends one character to a string: std's `String::push`.
#[verifier::external_body]
fn push_char(text: &mut String, c: char)
    ensures
        final(text)@ == old(text)@.push(c),
{
    text.push(c);
}

/// Tells whether a character is an ASCII letter or digit.
pub fn is_alphanumeric_char(c: char) -> (b: bool)
    ensures
        b == is_alphanumeric(c),
{
    (c >= '0' && c <= '9') || (c >= 'a' && c <= 'z') || (c >= 'A' && c <= 'Z')
}

/// Tells whether a text can serve as a suffix.
pub fn is_valid_suffix(text: &str) -> (b: bool)
    ensures
        b == is_suffix(text@),
{
    let n = text.unicode_len();
    if n < SUFFIX_LEN {
        return false;
    }
    let mut i: usize = 0;
    while i < n
        invariant
            n == text@.len(),
            i <= n,
            forall|j: int| 0 <= j < i ==> is_alphanumeric(#[trigger] text@[j]),
        decreases n - i,
    {
        if !is_alphanumeric_char(text.get_char(i)) {
            return false;
        }
        i += 1;
    }
    true
}

/// The name of one scratch database.
#[derive(Debug, PartialEq, Eq)]
pub struct DatabaseName {
    text: String,
}

impl View for DatabaseName {
    type V = Seq<char>;

    closed spec fn view(&self) -> Seq<char> {
        self.text@
    }
}

impl DatabaseName {
    #[verifier::type_invariant]
    spec fn well_formed(&self) -> bool {
        is_database_name(self.text@)
    }

    /// The name with the given suffix, where the text can serve as one.
    pub fn from_suffix(suffix: &str) -> (r: Option<DatabaseName>)
        ensures
            r is Some <==> is_suffix(suffix@),
            r is Some ==> r->0@ == name_of(suffix@),
    {
        if !is_valid_suffix(suffix) {
            return None;
        }
        let text = String::from_str(NAME_PREFIX).concat(suffix);
        proof {
            lemma_name_of_suffix(suffix@);
        }
        Some(DatabaseName { text })
    }

    /// A name with a suffix of `SUFFIX_LEN` characters, each drawn at random.
    /// Which characters come is not determined.
    pub fn generate() -> (r: DatabaseName)
        ensures
            is_database_name(r@),
            suffix_of(r@).len() == SUFFIX_LEN,
    {
        let mut text = String::from_str(NAME_PREFIX);
        let ghost mut suffix: Seq<char> = Seq::empty();
        let mut i: usize = 0;
        while i < SUFFIX_LEN
            invariant
                i <= SUFFIX_LEN,
                suffix.len() == i,
                text@ == NAME_PREFIX@ + suffix,
                forall|j: int| 0 <= j < suffix.len() ==> is_alphanumeric(#[trigger] suffix[j]),
            decreases SUFFIX_LEN - i,
        {
            let c = random_alphanumeric();
            push_char(&mut text, c);
            proof {
                assert((NAME_PREFIX@ + suffix).push(c) =~= NAME_PREFIX@ + suffix.push(c));
                suffix = suffix.push(c);
            }
            i += 1;
        }
        proof {
            lemma_name_of_suffix(suffix);
        }
        DatabaseName { text }
    }

    /// The name as text.
    pub fn as_str(&self) -> (s: &str)
        ensures
            s@ == self@,
            is_database_name(s@),
    {
        proof {
            use_type_invariant(self);
        }
        self.text.as_str()
    }
}

impl Clone for DatabaseName {
    fn clone(&self) -> (r: DatabaseName)
        ensures
            r@ == self@,
    {
        proof {
            use_type_invariant(self);
        }
        DatabaseName { text: self.text.clone() }
    }
}

/// The prefix followed by a suffix is a database name, and its suffix is the
/// one it was made from.
pub proof fn lemma_name_of_suffix(suffix: Seq<char>)
    requires
        is_suffix(suffix),
    ensures
        is_database_name(name_of(suffix)),
        suffix_of(name_of(suffix)) == suffix,
{
    assert(suffix_of(name_of(suffix)) =~= suffix);
}

/// Two suffixes that differ give two names that differ: the names of two
/// databases collide only where the random draws do.
pub proof fn lemma_distinct_suffixes_give_distinct_names(a: Seq<char>, b: Seq<char>)
    requires
        a != b,
    ensures
        name_of(a) != name_of(b),
{
    assert(suffix_of(name_of(a)) =~= a);
    assert(suffix_of(name_of(b)) =~= b);
}

/// A database name holds letters, digits and underscores only: no quote, no
/// backtick, no blank, nothing that could end an identifier.
pub proof fn lemma_name_is_identifier(name: Seq<char>)
    requires
        is_database_name(name),
    ensures
        forall|i: int| 0 <= i < name.len() ==> is_identifier_char(#[trigger] name[i]),
        !name.contains('`'),
{
    reveal_strlit("testing_temp_");
    let suffix = suffix_of(name);
    assert forall|i: int| 0 <= i < name.len() implies is_identifier_char(#[trigger] name[i]) by {
        if i >= 13 {
            assert(name[i] == suffix[i - 13]);
        } else {
            assert(name[i] == NAME_PREFIX@[i]);
        }
    }
}

} // verus!
