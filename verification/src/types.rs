//! Validated string types: email addresses, usernames and passwords.
//!
//! An inbound credential string is normalized (ASCII whitespace trimmed and,
//! for emails and usernames, ASCII letters lowercased) and checked against
//! the type's grammar before a value of the type can exist. Every value of
//! one of these types therefore satisfies its validity predicate by
//! construction.
use vstd::prelude::*;
use vstd::string::*;

verus! {

/// ASCII whitespace, as trimmed from the ends of an inbound string.
pub open spec fn is_space_char(c: char) -> bool {
    c == ' ' || c == '\t' || c == '\n' || c == '\r' || c == '\u{b}' || c == '\u{c}'
}

/// Lowercasing of a single ASCII character; other characters are unchanged.
pub open spec fn lower_char(c: char) -> char {
    if 'A' <= c && c <= 'Z' {
        ((c as u8) + 32) as char
    } else {
        c
    }
}

/// Elementwise ASCII lowercasing.
pub open spec fn lower_seq(s: Seq<char>) -> Seq<char> {
    s.map_values(|c: char| lower_char(c))
}

/// Drops leading ASCII whitespace.
pub open spec fn drop_leading_spaces(s: Seq<char>) -> Seq<char>
    decreases s.len(),
{
    if s.len() == 0 || !is_space_char(s[0]) {
        s
    } else {
        drop_leading_spaces(s.subrange(1, s.len() as int))
    }
}

/// Drops trailing ASCII whitespace.
pub open spec fn drop_trailing_spaces(s: Seq<char>) -> Seq<char>
    decreases s.len(),
{
    if s.len() == 0 || !is_space_char(s[s.len() - 1]) {
        s
    } else {
        drop_trailing_spaces(s.subrange(0, s.len() - 1))
    }
}

/// ASCII trimming: whitespace removed from both ends.
pub open spec fn trim_seq(s: Seq<char>) -> Seq<char> {
    drop_trailing_spaces(drop_leading_spaces(s))
}

/// Full normalization applied to emails and usernames: trim, then lowercase.
pub open spec fn normalize_seq(s: Seq<char>) -> Seq<char> {
    lower_seq(trim_seq(s))
}

/// The string holds no uppercase ASCII letter: lowercasing it changes nothing.
pub open spec fn is_lowercase(s: Seq<char>) -> bool {
    forall|j: int| 0 <= j < s.len() ==> #[trigger] s[j] == lower_char(s[j])
}

/// Lowercasing one character is idempotent.
pub proof fn lemma_lower_char_fixed(c: char)
    ensures
        lower_char(lower_char(c)) == lower_char(c),
{
    if 'A' <= c && c <= 'Z' {
        assert(c as u8 >= 65 && c as u8 <= 90);
        assert(!('A' <= lower_char(c) && lower_char(c) <= 'Z'));
    }
}

/// A normalized string is lowercase.
pub proof fn lemma_normalize_lowercase(s: Seq<char>)
    ensures
        is_lowercase(normalize_seq(s)),
{
    let t = trim_seq(s);
    assert forall|j: int| 0 <= j < normalize_seq(s).len() implies #[trigger] normalize_seq(s)[j]
        == lower_char(normalize_seq(s)[j]) by {
        assert(normalize_seq(s)[j] == lower_char(t[j]));
        lemma_lower_char_fixed(t[j]);
    }
}

/// A printable ASCII character other than `'@'`; what the local part and the
/// domain of an accepted email address are made of.
pub open spec fn email_char(c: char) -> bool {
    '!' <= c && c <= '~' && c != '@'
}

/// `i` splits `s` into a non-empty local part, one `'@'`, and a non-empty
/// domain that contains a dot.
pub open spec fn is_email_split(s: Seq<char>, i: int) -> bool {
    &&& 0 < i < s.len() - 1
    &&& s[i] == '@'
    &&& forall|j: int| 0 <= j < s.len() && j != i ==> email_char(#[trigger] s[j])
    &&& exists|k: int| i < k < s.len() && #[trigger] s[k] == '.'
}

/// The email grammar accepted by [`EmailAddress`].
pub open spec fn email_valid(s: Seq<char>) -> bool {
    exists|i: int| #[trigger] is_email_split(s, i)
}

/// An ASCII letter or digit.
pub open spec fn alnum_char(c: char) -> bool {
    ('a' <= c && c <= 'z') || ('A' <= c && c <= 'Z') || ('0' <= c && c <= '9')
}

/// The username grammar accepted by [`Username`]: 4 to 100 ASCII letters or
/// digits.
pub open spec fn username_valid(s: Seq<char>) -> bool {
    &&& 4 <= s.len() <= 100
    &&& forall|j: int| 0 <= j < s.len() ==> alnum_char(#[trigger] s[j])
}

/// An ASCII character.
pub open spec fn ascii_char(c: char) -> bool {
    (c as u32) < 128
}

/// The password grammar accepted by [`Password`]: 4 to 100 ASCII characters.
pub open spec fn password_valid(s: Seq<char>) -> bool {
    &&& 4 <= s.len() <= 100
    &&& forall|j: int| 0 <= j < s.len() ==> ascii_char(#[trigger] s[j])
}

/// The reason an inbound credential string was rejected.
#[derive(Clone, Copy, Debug, PartialEq, Eq, Structural)]
pub enum ValidationError {
    InvalidEmail,
    InvalidUsername,
    InvalidPassword,
}

/// Relies on `String::push`: appends one character to the string.
#[verifier::external_body]
fn push_char(s: &mut String, c: char)
    ensures
        final(s)@ == old(s)@.push(c),
{
    s.push(c);
}

/// Lowercases one character, exactly as `lower_char` describes.
fn lower_char_exec(c: char) -> (r: char)
    ensures
        r == lower_char(c),
{
    if 'A' <= c && c <= 'Z' {
        ((c as u8) + 32) as char
    } else {
        c
    }
}

/// Character-by-character string equality.
pub fn str_eq(a: &str, b: &str) -> (r: bool)
    ensures
        r == (a@ == b@),
{
    let n = a.unicode_len();
    let m = b.unicode_len();
    if n != m {
        return false;
    }
    let mut i: usize = 0;
    while i < n
        invariant
            i <= n == a@.len(),
            n == b@.len(),
            forall|j: int| 0 <= j < i ==> a@[j] == b@[j],
        decreases n - i,
    {
        if a.get_char(i) != b.get_char(i) {
            return false;
        }
        i = i + 1;
    }
    proof {
        assert(a@ =~= b@);
    }
    true
}

fn is_space_exec(c: char) -> (r: bool)
    ensures
        r == is_space_char(c),
{
    c == ' ' || c == '\t' || c == '\n' || c == '\r' || c == '\u{b}' || c == '\u{c}'
}

proof fn lemma_drop_leading(s: Seq<char>, a: int)
    requires
        0 <= a <= s.len(),
        forall|j: int| 0 <= j < a ==> is_space_char(#[trigger] s[j]),
        a == s.len() || !is_space_char(s[a]),
    ensures
        drop_leading_spaces(s) == s.subrange(a, s.len() as int),
    decreases a,
{
    if a == 0 {
        assert(s.subrange(0, s.len() as int) =~= s);
    } else {
        let t = s.subrange(1, s.len() as int);
        lemma_drop_leading(t, a - 1);
        assert(t.subrange(a - 1, t.len() as int) =~= s.subrange(a, s.len() as int));
    }
}

proof fn lemma_drop_trailing(s: Seq<char>, b: int)
    requires
        0 <= b <= s.len(),
        forall|j: int| b <= j < s.len() ==> is_space_char(#[trigger] s[j]),
        b == 0 || !is_space_char(s[b - 1]),
    ensures
        drop_trailing_spaces(s) == s.subrange(0, b),
    decreases s.len(),
{
    if b == s.len() {
        assert(s.subrange(0, b) =~= s);
    } else {
        let t = s.subrange(0, s.len() - 1);
        lemma_drop_trailing(t, b);
        assert(t.subrange(0, b) =~= s.subrange(0, b));
    }
}

/// Trims ASCII whitespace from both ends and, when `lower` is set,
/// lowercases ASCII letters.
fn build_normalized(s: &str, lower: bool) -> (r: String)
    ensures
        r@ == if lower {
            normalize_seq(s@)
        } else {
            trim_seq(s@)
        },
{
    let n = s.unicode_len();
    let mut start: usize = 0;
    while start < n && is_space_exec(s.get_char(start))
        invariant
            start <= n == s@.len(),
            forall|j: int| 0 <= j < start ==> is_space_char(#[trigger] s@[j]),
        decreases n - start,
    {
        start = start + 1;
    }
    let mut end: usize = n;
    while end > start && is_space_exec(s.get_char(end - 1))
        invariant
            start <= end <= n == s@.len(),
            forall|j: int| end <= j < n ==> is_space_char(#[trigger] s@[j]),
            forall|j: int| 0 <= j < start ==> is_space_char(#[trigger] s@[j]),
            start == n || !is_space_char(s@[start as int]),
        decreases end,
    {
        end = end - 1;
    }
    proof {
        lemma_drop_leading(s@, start as int);
        let t = s@.subrange(start as int, n as int);
        lemma_drop_trailing(t, end - start);
        assert(t.subrange(0, end - start) =~= s@.subrange(start as int, end as int));
        assert(trim_seq(s@) == s@.subrange(start as int, end as int));
    }
    let mut out = String::new();
    let mut i: usize = start;
    while i < end
        invariant
            start <= i <= end <= n == s@.len(),
            lower ==> out@ == lower_seq(s@.subrange(start as int, i as int)),
            !lower ==> out@ == s@.subrange(start as int, i as int),
        decreases end - i,
    {
        let c = s.get_char(i);
        let c2 = if lower {
            lower_char_exec(c)
        } else {
            c
        };
        push_char(&mut out, c2);
        i = i + 1;
        proof {
            assert(s@.subrange(start as int, i as int) =~= s@.subrange(
                start as int,
                i - 1,
            ).push(s@[i - 1]));
            if lower {
                assert(lower_seq(s@.subrange(start as int, i as int)) =~= lower_seq(
                    s@.subrange(start as int, i - 1),
                ).push(lower_char(s@[i - 1])));
            }
        }
    }
    out
}

fn email_char_exec(c: char) -> (r: bool)
    ensures
        r == email_char(c),
{
    '!' <= c && c <= '~' && c != '@'
}

/// Checks the email grammar on an already normalized string.
fn email_valid_exec(s: &str) -> (r: bool)
    ensures
        r == email_valid(s@),
{
    let n = s.unicode_len();
    // Find the first '@'.
    let mut i: usize = 0;
    while i < n && s.get_char(i) != '@'
        invariant
            i <= n == s@.len(),
            forall|j: int| 0 <= j < i ==> s@[j] != '@',
        decreases n - i,
    {
        i = i + 1;
    }
    if i == n {
        proof {
            if email_valid(s@) {
                let w = choose|w: int| is_email_split(s@, w);
                assert(s@[w] == '@');
                assert(false);
            }
        }
        return false;
    }
    let at = i;
    if at == 0 || at + 1 >= n {
        proof {
            if email_valid(s@) {
                let w = choose|w: int| is_email_split(s@, w);
                if w != at {
                    assert(!email_char(s@[at as int]));
                }
                assert(false);
            }
        }
        return false;
    }
    // Every character other than the '@' must be an email character.
    let mut j: usize = 0;
    while j < n
        invariant
            j <= n == s@.len(),
            0 < at < n - 1,
            s@[at as int] == '@',
            forall|k: int| 0 <= k < j && k != at ==> email_char(#[trigger] s@[k]),
        decreases n - j,
    {
        if j != at {
            if !email_char_exec(s.get_char(j)) {
                proof {
                    if email_valid(s@) {
                        let w = choose|w: int| is_email_split(s@, w);
                        if w != at {
                            assert(!email_char(s@[at as int]));
                        }
                        assert(false);
                    }
                }
                return false;
            }
        }
        j = j + 1;
    }
    // The domain must contain a dot.
    let mut k: usize = at + 1;
    while k < n && s.get_char(k) != '.'
        invariant
            at < k <= n == s@.len(),
            forall|m: int| at < m < k ==> s@[m] != '.',
        decreases n - k,
    {
        k = k + 1;
    }
    if k == n {
        proof {
            if email_valid(s@) {
                let w = choose|w: int| is_email_split(s@, w);
                if w != at {
                    assert(!email_char(s@[at as int]));
                }
                let d = choose|d: int| w < d < s@.len() && s@[d] == '.';
                assert(false);
            }
        }
        return false;
    }
    proof {
        assert(s@[k as int] == '.');
        assert(is_email_split(s@, at as int));
    }
    true
}

/// Wrapper of a string that represents an email address; the value is
/// normalized and checked against the email grammar before it can be
/// created, so no later validation is needed.
#[derive(Debug)]
pub struct EmailAddress(String);

impl View for EmailAddress {
    type V = Seq<char>;

    closed spec fn view(&self) -> Seq<char> {
        self.0@
    }
}

impl Clone for EmailAddress {
    fn clone(&self) -> (res: Self)
        ensures
            res == *self,
    {
        EmailAddress(self.0.clone())
    }
}

impl EmailAddress {
    /// Every value of the type satisfies the email grammar and is lowercase.
    pub open spec fn wf(self) -> bool {
        email_valid(self@) && is_lowercase(self@)
    }

    /// Prepares a value for becoming an email address by trimming
    /// whitespace and lowercasing.
    pub fn prepare(value: &str) -> (r: String)
        ensures
            r@ == normalize_seq(value@),
    {
        build_normalized(value, true)
    }

    /// Normalizes and validates an inbound string.
    pub fn parse(value: &str) -> (r: Result<EmailAddress, ValidationError>)
        ensures
            r is Ok <==> email_valid(normalize_seq(value@)),
            r is Ok ==> r->Ok_0@ == normalize_seq(value@) && r->Ok_0.wf(),
            r is Err ==> r->Err_0 == ValidationError::InvalidEmail,
    {
        let normalized = EmailAddress::prepare(value);
        proof {
            lemma_normalize_lowercase(value@);
        }
        if email_valid_exec(normalized.as_str()) {
            Ok(EmailAddress(normalized))
        } else {
            Err(ValidationError::InvalidEmail)
        }
    }

    pub fn as_str(&self) -> (r: &str)
        ensures
            r@ == self@,
    {
        self.0.as_str()
    }

    /// Provides a cloned copy of the underlying string.
    pub fn clone_inner(&self) -> (r: String)
        ensures
            r@ == self@,
    {
        self.0.clone()
    }

    pub fn into_inner(self) -> (r: String)
        ensures
            r@ == self@,
    {
        self.0
    }
}

/// Wrapper of a string that represents a username; the value is normalized
/// and checked against the username grammar before it can be created.
#[derive(Debug)]
pub struct Username(String);

impl View for Username {
    type V = Seq<char>;

    closed spec fn view(&self) -> Seq<char> {
        self.0@
    }
}

impl Clone for Username {
    fn clone(&self) -> (res: Self)
        ensures
            res == *self,
    {
        Username(self.0.clone())
    }
}

fn alnum_char_exec(c: char) -> (r: bool)
    ensures
        r == alnum_char(c),
{
    ('a' <= c && c <= 'z') || ('A' <= c && c <= 'Z') || ('0' <= c && c <= '9')
}

impl Username {
    /// Every value of the type satisfies the username grammar.
    pub open spec fn wf(self) -> bool {
        username_valid(self@)
    }

    /// Prepares a value for becoming a username by trimming whitespace and
    /// lowercasing.
    pub fn prepare(value: &str) -> (r: String)
        ensures
            r@ == normalize_seq(value@),
    {
        build_normalized(value, true)
    }

    /// Normalizes and validates an inbound string.
    pub fn parse(value: &str) -> (r: Result<Username, ValidationError>)
        ensures
            r is Ok <==> username_valid(normalize_seq(value@)),
            r is Ok ==> r->Ok_0@ == normalize_seq(value@) && r->Ok_0.wf(),
            r is Err ==> r->Err_0 == ValidationError::InvalidUsername,
    {
        let normalized = Username::prepare(value);
        let n = normalized.as_str().unicode_len();
        if n < 4 || n > 100 {
            return Err(ValidationError::InvalidUsername);
        }
        let mut j: usize = 0;
        while j < n
            invariant
                j <= n == normalized@.len(),
                normalized@ == normalize_seq(value@),
                4 <= n <= 100,
                forall|k: int| 0 <= k < j ==> alnum_char(#[trigger] normalized@[k]),
            decreases n - j,
        {
            if !alnum_char_exec(normalized.as_str().get_char(j)) {
                return Err(ValidationError::InvalidUsername);
            }
            j = j + 1;
        }
        Ok(Username(normalized))
    }

    pub fn as_str(&self) -> (r: &str)
        ensures
            r@ == self@,
    {
        self.0.as_str()
    }

    /// Provides a cloned copy of the underlying string.
    pub fn clone_inner(&self) -> (r: String)
        ensures
            r@ == self@,
    {
        self.0.clone()
    }

    pub fn into_inner(self) -> (r: String)
        ensures
            r@ == self@,
    {
        self.0
    }
}

/// Wrapper of a string that represents a password; the value is trimmed
/// and checked against the password grammar before it can be created.
pub struct Password(String);

impl View for Password {
    type V = Seq<char>;

    closed spec fn view(&self) -> Seq<char> {
        self.0@
    }
}

impl Clone for Password {
    fn clone(&self) -> (res: Self)
        ensures
            res == *self,
    {
        Password(self.0.clone())
    }
}

fn ascii_char_exec(c: char) -> (r: bool)
    ensures
        r == ascii_char(c),
{
    (c as u32) < 128
}

impl Password {
    /// Every value of the type satisfies the password grammar.
    pub open spec fn wf(self) -> bool {
        password_valid(self@)
    }

    /// Prepares a value for becoming a password by trimming whitespace.
    pub fn prepare(value: &str) -> (r: String)
        ensures
            r@ == trim_seq(value@),
    {
        build_normalized(value, false)
    }

    /// Trims and validates an inbound string.
    pub fn parse(value: &str) -> (r: Result<Password, ValidationError>)
        ensures
            r is Ok <==> password_valid(trim_seq(value@)),
            r is Ok ==> r->Ok_0@ == trim_seq(value@) && r->Ok_0.wf(),
            r is Err ==> r->Err_0 == ValidationError::InvalidPassword,
    {
        let trimmed = Password::prepare(value);
        let n = trimmed.as_str().unicode_len();
        if n < 4 || n > 100 {
            return Err(ValidationError::InvalidPassword);
        }
        let mut j: usize = 0;
        while j < n
            invariant
                j <= n == trimmed@.len(),
                trimmed@ == trim_seq(value@),
                4 <= n <= 100,
                forall|k: int| 0 <= k < j ==> ascii_char(#[trigger] trimmed@[k]),
            decreases n - j,
        {
            if !ascii_char_exec(trimmed.as_str().get_char(j)) {
                return Err(ValidationError::InvalidPassword);
            }
            j = j + 1;
        }
        Ok(Password(trimmed))
    }

    pub fn as_str(&self) -> (r: &str)
        ensures
            r@ == self@,
    {
        self.0.as_str()
    }

    /// Provides a cloned copy of the underlying string.
    pub fn clone_inner(&self) -> (r: String)
        ensures
            r@ == self@,
    {
        self.0.clone()
    }

    pub fn into_inner(self) -> (r: String)
        ensures
            r@ == self@,
    {
        self.0
    }
}

} // verus!
