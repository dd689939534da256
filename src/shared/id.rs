use vstd::prelude::*;

verus! {

/// What `uuid::Uuid::parse_str` reads from text: the 128-bit value, or `None`
/// for text it rejects.
pub uninterp spec fn uuid_parse_of(s: Seq<char>) -> Option<u128>;

/// The lower-case hexadecimal digit for `n`, below 16.
pub open spec fn hex_digit(n: u128) -> char {
    seq!['0', '1', '2', '3', '4', '5', '6', '7', '8', '9', 'a', 'b', 'c', 'd', 'e', 'f'][n as int]
}

/// Which of the 32 digits of a UUID stands at position `i` of its hyphenated
/// text.
pub open spec fn uuid_digit_at(i: int) -> int {
    if i < 8 {
        i
    } else if i < 13 {
        i - 1
    } else if i < 18 {
        i - 2
    } else if i < 23 {
        i - 3
    } else {
        i - 4
    }
}

/// The hyphenated lower-case text of a UUID: its 32 hexadecimal digits, most
/// significant first, with hyphens at positions 8, 13, 18 and 23.
pub open spec fn uuid_text_of(v: u128) -> Seq<char> {
    Seq::new(
        36,
        |i: int|
            if i == 8 || i == 13 || i == 18 || i == 23 {
                '-'
            } else {
                hex_digit((v >> ((124 - 4 * uuid_digit_at(i)) as u128)) & 15u128)
            },
    )
}

/// The version nibble of a UUID: the high half of its seventh byte.
pub open spec fn uuid_version_of(v: u128) -> u128 {
    (v >> 76u128) & 15u128
}

/// Text that reads as a UUID of version 4.
pub open spec fn is_v4_text(s: Seq<char>) -> bool {
    match uuid_parse_of(s) {
        Some(v) => uuid_version_of(v) == 4,
        None => false,
    }
}

/// Relies on `uuid::Uuid::new_v4`: random bits with the version nibble set to 4.
#[verifier::external_body]
fn random_v4() -> (r: u128)
    ensures
        uuid_version_of(r) == 4,
{
    uuid::Uuid::new_v4().as_u128()
}

/// Relies on `uuid::Uuid::parse_str`: the result depends on the text alone.
#[verifier::external_body]
pub(crate) fn parse_uuid(s: &str) -> (r: Option<u128>)
    ensures
        r == uuid_parse_of(s@),
{
    match uuid::Uuid::parse_str(s) {
        Ok(u) => Some(u.as_u128()),
        Err(_) => None,
    }
}

/// Relies on `Display` of `uuid::Uuid`: the hyphenated lower-case form, one of
/// the forms that `uuid::Uuid::parse_str` reads back.
#[verifier::external_body]
fn uuid_text(v: u128) -> (r: String)
    ensures
        r@ == uuid_text_of(v),
        uuid_parse_of(r@) == Some(v),
{
    uuid::Uuid::from_u128(v).to_string()
}

/// The version nibble of a UUID held as a big-endian 128-bit value.
pub fn uuid_version(v: u128) -> (r: u8)
    ensures
        r as u128 == uuid_version_of(v),
{
    let n: u128 = (v >> 76u128) & 15u128;
    assert(((v >> 76u128) & 15u128) <= 15u128) by (bit_vector);
    n as u8
}

/// Why text was refused as an identifier.
#[derive(Clone, Copy, Debug, PartialEq, Eq, Structural)]
pub enum IdErrorReason {
    NotUuid,
    NotVersion4,
}

/// The reason for which `parsed`, a value read from text, is refused as an identifier.
pub open spec fn id_refusal(parsed: Option<u128>) -> Option<IdErrorReason> {
    match parsed {
        Some(v) => if uuid_version_of(v) == 4 {
            None
        } else {
            Some(IdErrorReason::NotVersion4)
        },
        None => Some(IdErrorReason::NotUuid),
    }
}

/// Text that does not name a event.
#[derive(Debug)]
pub struct EventIdError {
    pub reason: IdErrorReason,
}

impl EventIdError {
    pub fn to_string(&self) -> (r: String)
        ensures
            r@ == "event id error"@,
    {
        String::from_str("event id error")
    }
}

/// Identifier of a event: a random UUID of version 4.
#[derive(Clone, Copy, Debug, PartialEq, Eq, Structural, PartialOrd, Ord, Hash)]
pub struct EventId(u128);

impl View for EventId {
    type V = u128;

    closed spec fn view(&self) -> u128 {
        self.0
    }
}

impl EventId {
    /// Every identifier is a UUID of version 4.
    #[verifier::type_invariant]
    spec fn valid(self) -> bool {
        uuid_version_of(self.0) == 4
    }

    pub fn generate() -> (r: Self)
        ensures
            uuid_version_of(r@) == 4,
    {
        EventId(random_v4())
    }

    pub fn as_u128(&self) -> (r: u128)
        ensures
            r == self@,
            uuid_version_of(r) == 4,
    {
        proof {
            use_type_invariant(self);
        }
        self.0
    }

    /// Reads an identifier from text; it must be a UUID of version 4.
    pub fn from_str(s: &str) -> (r: Result<Self, EventIdError>)
        ensures
            match id_refusal(uuid_parse_of(s@)) {
                None => r is Ok && r->Ok_0@ == uuid_parse_of(s@)->0,
                Some(reason) => r is Err && r->Err_0.reason == reason,
            },
    {
        EventId::from_parsed(parse_uuid(s))
    }

    /// Finishes reading an identifier from the value that `uuid` parsed
    /// (`None` for text it rejected).
    pub fn from_parsed(parsed: Option<u128>) -> (r: Result<Self, EventIdError>)
        ensures
            match id_refusal(parsed) {
                None => r is Ok && r->Ok_0@ == parsed->0,
                Some(reason) => r is Err && r->Err_0.reason == reason,
            },
    {
        match parsed {
            Some(v) => {
                if uuid_version(v) == 4 {
                    Ok(EventId(v))
                } else {
                    Err(EventIdError { reason: IdErrorReason::NotVersion4 })
                }
            },
            None => Err(EventIdError { reason: IdErrorReason::NotUuid }),
        }
    }

    /// The hyphenated lower-case text of the identifier.
    pub fn to_string(&self) -> (r: String)
        ensures
            r@ == uuid_text_of(self@),
            r@.len() == 36,
            uuid_parse_of(r@) == Some(self@),
            is_v4_text(r@),
    {
        proof {
            use_type_invariant(self);
        }
        uuid_text(self.0)
    }
}

impl core::str::FromStr for EventId {
    type Err = EventIdError;

    fn from_str(s: &str) -> Result<Self, EventIdError> {
        EventId::from_str(s)
    }
}

/// Text that does not name a message.
#[derive(Debug)]
pub struct MessageIdError {
    pub reason: IdErrorReason,
}

impl MessageIdError {
    pub fn to_string(&self) -> (r: String)
        ensures
            r@ == "message id error"@,
    {
        String::from_str("message id error")
    }
}

/// Identifier of a message: a random UUID of version 4.
#[derive(Clone, Copy, Debug, PartialEq, Eq, Structural, PartialOrd, Ord, Hash)]
pub struct MessageId(u128);

impl View for MessageId {
    type V = u128;

    closed spec fn view(&self) -> u128 {
        self.0
    }
}

impl MessageId {
    /// Every identifier is a UUID of version 4.
    #[verifier::type_invariant]
    spec fn valid(self) -> bool {
        uuid_version_of(self.0) == 4
    }

    pub fn generate() -> (r: Self)
        ensures
            uuid_version_of(r@) == 4,
    {
        MessageId(random_v4())
    }

    pub fn as_u128(&self) -> (r: u128)
        ensures
            r == self@,
            uuid_version_of(r) == 4,
    {
        proof {
            use_type_invariant(self);
        }
        self.0
    }

    /// Reads an identifier from text; it must be a UUID of version 4.
    pub fn from_str(s: &str) -> (r: Result<Self, MessageIdError>)
        ensures
            match id_refusal(uuid_parse_of(s@)) {
                None => r is Ok && r->Ok_0@ == uuid_parse_of(s@)->0,
                Some(reason) => r is Err && r->Err_0.reason == reason,
            },
    {
        MessageId::from_parsed(parse_uuid(s))
    }

    /// Finishes reading an identifier from the value that `uuid` parsed
    /// (`None` for text it rejected).
    pub fn from_parsed(parsed: Option<u128>) -> (r: Result<Self, MessageIdError>)
        ensures
            match id_refusal(parsed) {
                None => r is Ok && r->Ok_0@ == parsed->0,
                Some(reason) => r is Err && r->Err_0.reason == reason,
            },
    {
        match parsed {
            Some(v) => {
                if uuid_version(v) == 4 {
                    Ok(MessageId(v))
                } else {
                    Err(MessageIdError { reason: IdErrorReason::NotVersion4 })
                }
            },
            None => Err(MessageIdError { reason: IdErrorReason::NotUuid }),
        }
    }

    /// The hyphenated lower-case text of the identifier.
    pub fn to_string(&self) -> (r: String)
        ensures
            r@ == uuid_text_of(self@),
            r@.len() == 36,
            uuid_parse_of(r@) == Some(self@),
            is_v4_text(r@),
    {
        proof {
            use_type_invariant(self);
        }
        uuid_text(self.0)
    }
}

impl core::str::FromStr for MessageId {
    type Err = MessageIdError;

    fn from_str(s: &str) -> Result<Self, MessageIdError> {
        MessageId::from_str(s)
    }
}

/// Text that does not name a thread.
#[derive(Debug)]
pub struct ThreadIdError {
    pub reason: IdErrorReason,
}

impl ThreadIdError {
    pub fn to_string(&self) -> (r: String)
        ensures
            r@ == "thread id error"@,
    {
        String::from_str("thread id error")
    }
}

/// Identifier of a thread: a random UUID of version 4.
#[derive(Clone, Copy, Debug, PartialEq, Eq, Structural, PartialOrd, Ord, Hash)]
pub struct ThreadId(u128);

impl View for ThreadId {
    type V = u128;

    closed spec fn view(&self) -> u128 {
        self.0
    }
}

impl ThreadId {
    /// Every identifier is a UUID of version 4.
    #[verifier::type_invariant]
    spec fn valid(self) -> bool {
        uuid_version_of(self.0) == 4
    }

    pub fn generate() -> (r: Self)
        ensures
            uuid_version_of(r@) == 4,
    {
        ThreadId(random_v4())
    }

    pub fn as_u128(&self) -> (r: u128)
        ensures
            r == self@,
            uuid_version_of(r) == 4,
    {
        proof {
            use_type_invariant(self);
        }
        self.0
    }

    /// Reads an identifier from text; it must be a UUID of version 4.
    pub fn from_str(s: &str) -> (r: Result<Self, ThreadIdError>)
        ensures
            match id_refusal(uuid_parse_of(s@)) {
                None => r is Ok && r->Ok_0@ == uuid_parse_of(s@)->0,
                Some(reason) => r is Err && r->Err_0.reason == reason,
            },
    {
        ThreadId::from_parsed(parse_uuid(s))
    }

    /// Finishes reading an identifier from the value that `uuid` parsed
    /// (`None` for text it rejected).
    pub fn from_parsed(parsed: Option<u128>) -> (r: Result<Self, ThreadIdError>)
        ensures
            match id_refusal(parsed) {
                None => r is Ok && r->Ok_0@ == parsed->0,
                Some(reason) => r is Err && r->Err_0.reason == reason,
            },
    {
        match parsed {
            Some(v) => {
                if uuid_version(v) == 4 {
                    Ok(ThreadId(v))
                } else {
                    Err(ThreadIdError { reason: IdErrorReason::NotVersion4 })
                }
            },
            None => Err(ThreadIdError { reason: IdErrorReason::NotUuid }),
        }
    }

    /// The hyphenated lower-case text of the identifier.
    pub fn to_string(&self) -> (r: String)
        ensures
            r@ == uuid_text_of(self@),
            r@.len() == 36,
            uuid_parse_of(r@) == Some(self@),
            is_v4_text(r@),
    {
        proof {
            use_type_invariant(self);
        }
        uuid_text(self.0)
    }
}

impl core::str::FromStr for ThreadId {
    type Err = ThreadIdError;

    fn from_str(s: &str) -> Result<Self, ThreadIdError> {
        ThreadId::from_str(s)
    }
}

} // verus!
