//! Validated header lines: a name made of token characters, kept in lower case,
//! and a value free of control bytes.

use vstd::prelude::*;

verus! {

/// A token character of an HTTP header name (RFC 9110), as listed by the
/// protocol crate's name table.
pub open spec fn is_token_char(c: char) -> bool {
    ('a' <= c && c <= 'z') || ('A' <= c && c <= 'Z') || ('0' <= c && c <= '9') || c == '!'
        || c == '#' || c == '$' || c == '%' || c == '&' || c == '\'' || c == '*' || c == '+'
        || c == '-' || c == '.' || c == '^' || c == '_' || c == '`' || c == '|' || c == '~'
}

/// The longest header name the protocol crate accepts.
pub const MAX_NAME_LEN: usize = 65535;

/// A header name that the protocol crate accepts.
pub open spec fn is_valid_name(s: Seq<char>) -> bool {
    1 <= s.len() <= MAX_NAME_LEN && forall|i: int| 0 <= i < s.len() ==> is_token_char(#[trigger] s[i])
}

/// A character whose encoding holds no forbidden byte: a tab, or anything but the
/// other ASCII control characters and DEL.
pub open spec fn is_value_char(c: char) -> bool {
    c == '\t' || (c >= ' ' && c != '\u{7f}')
}

/// A header value that the protocol crate accepts.
pub open spec fn is_valid_value(s: Seq<char>) -> bool {
    forall|i: int| 0 <= i < s.len() ==> is_value_char(#[trigger] s[i])
}

pub open spec fn lower_char(c: char) -> char {
    if 'A' <= c && c <= 'Z' {
        ((c as u32) + 32) as char
    } else {
        c
    }
}

/// ASCII lower case, character by character.
pub open spec fn to_lower(s: Seq<char>) -> Seq<char> {
    s.map_values(|c: char| lower_char(c))
}

/// Unicode White_Space, the set that `char::is_whitespace` tests.
pub open spec fn is_white_space(c: char) -> bool {
    ('\t' <= c && c <= '\r') || c == ' ' || c == '\u{85}' || c == '\u{a0}' || c == '\u{1680}'
        || ('\u{2000}' <= c && c <= '\u{200a}') || c == '\u{2028}' || c == '\u{2029}'
        || c == '\u{202f}' || c == '\u{205f}' || c == '\u{3000}'
}

pub open spec fn trim_start(s: Seq<char>) -> Seq<char>
    decreases s.len(),
{
    if s.len() > 0 && is_white_space(s[0]) {
        trim_start(s.drop_first())
    } else {
        s
    }
}

pub open spec fn trim_end(s: Seq<char>) -> Seq<char>
    decreases s.len(),
{
    if s.len() > 0 && is_white_space(s.last()) {
        trim_end(s.drop_last())
    } else {
        s
    }
}

/// The text without leading and trailing white space.
pub open spec fn trim(s: Seq<char>) -> Seq<char> {
    trim_end(trim_start(s))
}

/// The text before the first colon and the text after it, or `None` without a colon.
pub open spec fn split_at_colon(s: Seq<char>) -> Option<(Seq<char>, Seq<char>)>
    decreases s.len(),
{
    if s.len() == 0 {
        None
    } else if s[0] == ':' {
        Some((Seq::<char>::empty(), s.drop_first()))
    } else {
        match split_at_colon(s.drop_first()) {
            Some((a, b)) => Some((seq![s[0]] + a, b)),
            None => None,
        }
    }
}

#[verifier::external_type_specification]
#[verifier::external_body]
pub struct ExInvalidHeaderName(http::header::InvalidHeaderName);

#[verifier::external_type_specification]
#[verifier::external_body]
pub struct ExInvalidHeaderValue(http::header::InvalidHeaderValue);

/// Relies on `http::HeaderName::from_bytes` and `HeaderName::as_str`: a name of 1 to
/// 65535 bytes is accepted when each byte is a token character, and it is kept in
/// lower case.
#[verifier::external_body]
fn header_name_from_str(name: &str) -> (r: Result<String, http::header::InvalidHeaderName>)
    ensures
        r.is_ok() <==> is_valid_name(name@),
        r matches Ok(n) ==> n@ == to_lower(name@),
{
    match http::HeaderName::from_bytes(name.as_bytes()) {
        Ok(n) => Ok(n.as_str().to_string()),
        Err(e) => Err(e),
    }
}

/// Relies on `http::HeaderValue::from_str`: a value is accepted when each of its
/// bytes is a tab or at least 32 and not 127. Bytes of multi-byte characters are
/// all at least 128.
#[verifier::external_body]
fn check_header_value(value: &str) -> (r: Result<(), http::header::InvalidHeaderValue>)
    ensures
        r.is_ok() <==> is_valid_value(value@),
{
    match http::HeaderValue::from_str(value) {
        Ok(_) => Ok(()),
        Err(e) => Err(e),
    }
}

/// Relies on `str::trim`: leading and trailing White_Space characters are removed.
#[verifier::external_body]
pub(crate) fn trim_str(s: &str) -> (r: &str)
    ensures
        r@ == trim(s@),
{
    s.trim()
}

/// Relies on `str::split_once` with a `char` pattern: the parts before and after
/// the first colon.
#[verifier::external_body]
fn split_once_colon(s: &str) -> (r: Option<(&str, &str)>)
    ensures
        match split_at_colon(s@) {
            None => r.is_none(),
            Some((a, b)) => r matches Some((x, y)) && x@ == a && y@ == b,
        },
{
    s.split_once(':')
}

/// Why a header could not be built.
#[derive(Debug, PartialEq, Eq, Structural, Clone, Copy)]
pub enum HeaderParseError {
    /// The line has no colon between name and value.
    InvalidFormat,
    /// The name is empty, too long, or holds a character that is not a token character.
    InvalidName,
    /// The value holds a control character other than tab.
    InvalidValue,
}

/// The outcome of building a header from a name and a value, as (name, value) views.
pub open spec fn header_result(name: Seq<char>, value: Seq<char>) -> Result<
    (Seq<char>, Seq<char>),
    HeaderParseError,
> {
    if !is_valid_name(name) {
        Err(HeaderParseError::InvalidName)
    } else if !is_valid_value(value) {
        Err(HeaderParseError::InvalidValue)
    } else {
        Ok((to_lower(name), value))
    }
}

/// The outcome of parsing a "Name: value" line.
pub open spec fn parse_result(line: Seq<char>) -> Result<(Seq<char>, Seq<char>), HeaderParseError> {
    match split_at_colon(line) {
        None => Err(HeaderParseError::InvalidFormat),
        Some((name, value)) => header_result(trim(name), trim(value)),
    }
}

/// The view of a header result, for contracts.
pub open spec fn view_result(r: Result<Header, HeaderParseError>) -> Result<
    (Seq<char>, Seq<char>),
    HeaderParseError,
> {
    match r {
        Ok(h) => Ok(h@),
        Err(e) => Err(e),
    }
}

/// A validated header: the name in lower case, the value as given.
pub struct Header {
    name: String,
    value: String,
}

impl View for Header {
    type V = (Seq<char>, Seq<char>);

    closed spec fn view(&self) -> (Seq<char>, Seq<char>) {
        (self.name@, self.value@)
    }
}

impl Clone for Header {
    fn clone(&self) -> (r: Self)
        ensures
            r@ == self@,
    {
        proof {
            use_type_invariant(self);
        }
        Header { name: self.name.clone(), value: self.value.clone() }
    }
}

impl Header {
    /// The name is a valid name in lower case; the value is a valid value.
    #[verifier::type_invariant]
    spec fn inv(&self) -> bool {
        &&& is_valid_name(self.name@)
        &&& to_lower(self.name@) == self.name@
        &&& is_valid_value(self.value@)
    }

    /// Builds a header from a name and a value; the name is checked first.
    pub fn new(name: &str, value: &str) -> (r: Result<Header, HeaderParseError>)
        ensures
            view_result(r) == header_result(name@, value@),
    {
        let n = match header_name_from_str(name) {
            Ok(n) => n,
            Err(_) => return Err(HeaderParseError::InvalidName),
        };
        match check_header_value(value) {
            Ok(()) => {},
            Err(_) => return Err(HeaderParseError::InvalidValue),
        }
        proof {
            let low = to_lower(name@);
            assert forall|i: int| 0 <= i < low.len() implies is_token_char(#[trigger] low[i]) by {
                assert(is_token_char(name@[i]));
            }
            assert(to_lower(low) =~= low);
        }
        let r = Header { name: n, value: value.to_string() };
        Ok(r)
    }

    /// Parses a "Name: value" line: splits on the first colon and trims both parts.
    pub fn parse(line: &str) -> (r: Result<Header, HeaderParseError>)
        ensures
            view_result(r) == parse_result(line@),
    {
        match split_once_colon(line) {
            None => Err(HeaderParseError::InvalidFormat),
            Some((name, value)) => Header::new(trim_str(name), trim_str(value)),
        }
    }

    /// Whether both headers have the same name.
    pub fn same_name(&self, other: &Header) -> (r: bool)
        ensures
            r == (self@.0 == other@.0),
    {
        self.name == other.name
    }

    /// The name, in lower case.
    pub fn name(&self) -> (r: &str)
        ensures
            r@ == self@.0,
            is_valid_name(r@),
            to_lower(r@) == r@,
    {
        proof {
            use_type_invariant(self);
        }
        self.name.as_str()
    }

    /// The value.
    pub fn value(&self) -> (r: &str)
        ensures
            r@ == self@.1,
            is_valid_value(r@),
    {
        proof {
            use_type_invariant(self);
        }
        self.value.as_str()
    }
}

impl std::str::FromStr for Header {
    type Err = HeaderParseError;

    fn from_str(s: &str) -> (r: Result<Header, HeaderParseError>)
        ensures
            view_result(r) == parse_result(s@),
    {
        Header::parse(s)
    }
}

} // verus!
