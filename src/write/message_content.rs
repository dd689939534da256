use vstd::prelude::*;
use vstd::string::StrSliceExecFns;

verus! {

/// The longest content, in characters once trimmed.
pub const MAX_CONTENT_CHARS: usize = 255;

/// The text that `str::trim` leaves of `s`.
pub uninterp spec fn trimmed_of(s: Seq<char>) -> Seq<char>;

pub open spec fn is_ascii_alphanumeric(c: char) -> bool {
    ('0' <= c <= '9') || ('A' <= c <= 'Z') || ('a' <= c <= 'z')
}

/// Relies on `str::trim`, which strips leading and trailing Unicode white space
/// and so leaves text of ASCII letters and digits as it is.
#[verifier::external_body]
fn trim(s: &str) -> (r: &str)
    ensures
        r@ == trimmed_of(s@),
        r@.len() <= s@.len(),
        (forall|i: int| 0 <= i < s@.len() ==> is_ascii_alphanumeric(#[trigger] s@[i])) ==> r@
            == s@,
{
    s.trim()
}

/// Relies on `rand::Rng::random_range` over `1..=max` with the thread-local
/// generator, which draws from that range and panics only when it is empty.
#[verifier::external_body]
fn random_length(max: usize) -> (r: usize)
    requires
        1 <= max,
    ensures
        1 <= r <= max,
{
    rand::Rng::random_range(&mut rand::rng(), 1..=max)
}

/// Relies on `rand::distr::Alphanumeric`, which draws ASCII letters and digits.
#[verifier::external_body]
fn random_alphanumeric(len: usize) -> (r: String)
    ensures
        r@.len() == len,
        forall|i: int| 0 <= i < r@.len() ==> is_ascii_alphanumeric(#[trigger] r@[i]),
{
    rand::Rng::sample_iter(rand::rng(), rand::distr::Alphanumeric).map(char::from).take(
        len,
    ).collect()
}

/// Text that is acceptable as message content: between 1 and 255 characters
/// once leading and trailing white space is set aside.
pub open spec fn content_ok(s: Seq<char>) -> bool {
    1 <= trimmed_of(s).len() <= MAX_CONTENT_CHARS
}

#[derive(Clone, Copy, Debug, PartialEq, Eq, Structural)]
pub enum MessageContentError {
    /// Nothing is left once the text is trimmed.
    Empty,
    /// The trimmed text has this many characters, more than allowed.
    TooLong(usize),
}

impl MessageContentError {
    pub fn to_string(&self) -> (r: String) {
        match self {
            MessageContentError::Empty => String::from_str("empty"),
            MessageContentError::TooLong(_) => String::from_str("too long"),
        }
    }
}

/// The text of a message, validated on construction and kept untrimmed.
#[derive(Debug, PartialEq, Eq)]
pub struct MessageContent(String);

impl View for MessageContent {
    type V = Seq<char>;

    closed spec fn view(&self) -> Seq<char> {
        self.0@
    }
}

impl MessageContent {
    /// Every content that exists holds acceptable text; callers learn it with
    /// `use_type_invariant`.
    #[verifier::type_invariant]
    pub open spec fn valid(self) -> bool {
        content_ok(self@)
    }

    /// The number of characters left once `s` is trimmed.
    pub(crate) fn trimmed_len(s: &str) -> (r: usize)
        ensures
            r == trimmed_of(s@).len(),
            r <= s@.len(),
            (forall|i: int| 0 <= i < s@.len() ==> is_ascii_alphanumeric(#[trigger] s@[i])) ==> r
                == s@.len(),
    {
        trim(s).unicode_len()
    }

    /// Accepts `value` when its trimmed text has between 1 and 255 characters,
    /// and keeps it untrimmed.
    pub fn try_from(value: String) -> (r: Result<MessageContent, MessageContentError>)
        ensures
            trimmed_of(value@).len() == 0 ==> r == Err::<MessageContent, MessageContentError>(
                MessageContentError::Empty,
            ),
            trimmed_of(value@).len() > MAX_CONTENT_CHARS ==> r == Err::<
                MessageContent,
                MessageContentError,
            >(MessageContentError::TooLong(trimmed_of(value@).len() as usize)),
            content_ok(value@) ==> r is Ok && r->Ok_0@ == value@,
            r matches Err(MessageContentError::TooLong(n)) ==> n == trimmed_of(value@).len(),
    {
        let len = MessageContent::trimmed_len(value.as_str());
        if len == 0 {
            Err(MessageContentError::Empty)
        } else if len > MAX_CONTENT_CHARS {
            Err(MessageContentError::TooLong(len))
        } else {
            Ok(MessageContent(value))
        }
    }

    /// Random content of 1 to 255 ASCII letters and digits, for tests.
    pub fn new_for_testing() -> (r: MessageContent)
        ensures
            1 <= r@.len() <= MAX_CONTENT_CHARS,
    {
        let len = random_length(MAX_CONTENT_CHARS);
        let text = random_alphanumeric(len);
        let trimmed = MessageContent::trimmed_len(text.as_str());
        assert(trimmed == len);
        MessageContent(text)
    }

    pub fn as_str(&self) -> (r: &str)
        ensures
            r@ == self@,
    {
        self.0.as_str()
    }
}

impl Clone for MessageContent {
    fn clone(&self) -> (r: Self)
        ensures
            r@ == self@,
    {
        proof {
            use_type_invariant(self);
        }
        MessageContent(self.0.clone())
    }
}

impl From<MessageContent> for String {
    fn from(value: MessageContent) -> (r: String)
        ensures
            r@ == value@,
    {
        value.0
    }
}

impl vstd::std_specs::convert::FromSpecImpl<MessageContent> for String {
    open spec fn obeys_from_spec() -> bool {
        true
    }

    closed spec fn from_spec(v: MessageContent) -> String {
        v.0
    }
}

} // verus!
