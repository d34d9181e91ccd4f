//! Structured data recognition: classifies a token as an IP address, number, UUID,
//! timestamp, path, URL, email address, hexadecimal string or plain string.
use vstd::prelude::*;
use crate::text::{owned, concat3, chars_of, has_prefix, starts_with, utf8_len, utf8_len_capped,
    is_ascii_digit};

verus! {

/// IPv4 address.
pub const RE_IPV4: &'static str = r"^(?:(?:25[0-5]|2[0-4][0-9]|[01]?[0-9][0-9]?)\.){3}(?:25[0-5]|2[0-4][0-9]|[01]?[0-9][0-9]?)$";

/// IPv6 address (simplified).
pub const RE_IPV6: &'static str = r"^(?:[0-9a-fA-F]{1,4}:){7}[0-9a-fA-F]{1,4}$|^::(?:[0-9a-fA-F]{1,4}:){0,6}[0-9a-fA-F]{1,4}$|^(?:[0-9a-fA-F]{1,4}:){1,7}:$|^(?:[0-9a-fA-F]{1,4}:){1,6}:[0-9a-fA-F]{1,4}$";

/// UUID.
pub const RE_UUID: &'static str = r"^[0-9a-fA-F]{8}-[0-9a-fA-F]{4}-[0-9a-fA-F]{4}-[0-9a-fA-F]{4}-[0-9a-fA-F]{12}$";

/// ISO 8601 timestamp.
pub const RE_TIMESTAMP_ISO: &'static str = r"^\d{4}-\d{2}-\d{2}[T ]\d{2}:\d{2}:\d{2}(?:\.\d+)?(?:Z|[+-]\d{2}:?\d{2})?$";

/// Common timestamp (YYYY-MM-DD HH:MM:SS).
pub const RE_TIMESTAMP_COMMON: &'static str = r"^\d{4}[-/]\d{2}[-/]\d{2}[T ]?\d{2}:\d{2}:\d{2}$";

/// Unix timestamp in seconds or milliseconds.
pub const RE_TIMESTAMP_UNIX: &'static str = r"^1[0-9]{9}(?:[0-9]{3})?$";

/// HTTP or HTTPS URL.
pub const RE_URL: &'static str = r"^https?://[^\s/$.?#].[^\s]*$";

/// Email address.
pub const RE_EMAIL: &'static str = r"^[a-zA-Z0-9._%+-]+@[a-zA-Z0-9.-]+\.[a-zA-Z]{2,}$";

/// Unix or Windows file path.
pub const RE_PATH: &'static str = r"^(?:/[^/\s]+)+/?$|^[a-zA-Z]:\\(?:[^\\/:*?<>|\r\n]+\\)*[^\\/:*?<>|\r\n]*$";

/// Hexadecimal string, with or without "0x".
pub const RE_HEX: &'static str = r"^(?:0x)?[0-9a-fA-F]{8,}$";

/// Integer.
pub const RE_INTEGER: &'static str = r"^-?\d+$";

/// Decimal number with a fractional part.
pub const RE_FLOAT: &'static str = r"^-?\d+\.\d+$";

/// Whether `pattern` compiles with `regex::Regex::new` and the compiled regex matches
/// somewhere in `text` (`Regex::is_match`); false when the pattern does not compile.
pub uninterp spec fn regex_accepts(pattern: Seq<char>, text: Seq<char>) -> bool;

/// Compiles `pattern` with `regex::Regex::new` and calls `Regex::is_match` on `text`;
/// false when the pattern does not compile. The answer is `regex_accepts` of the two.
#[verifier::external_body]
fn regex_matches(pattern: &str, text: &str) -> (b: bool)
    ensures
        b == regex_accepts(pattern@, text@),
{
    match regex::Regex::new(pattern) {
        Ok(re) => re.is_match(text),
        Err(_) => false,
    }
}

/// The text of a regular expression used for recognition.
#[derive(Clone)]
pub struct RegexPattern {
    text: String,
}

impl RegexPattern {
    /// The pattern text.
    pub closed spec fn source(&self) -> Seq<char> {
        self.text@
    }

    /// The pattern with text `pattern`.
    pub fn new(pattern: &str) -> (r: Self)
        ensures
            r.source() == pattern@,
    {
        RegexPattern { text: owned(pattern) }
    }

    /// Whether the pattern matches somewhere in `text`.
    fn accepts(&self, text: &str) -> (b: bool)
        ensures
            b == regex_accepts(self.source(), text@),
    {
        regex_matches(self.text.as_str(), text)
    }
}

/// Recognized token types.
#[derive(Debug, Clone, Copy, PartialEq, Eq, Hash, Structural)]
pub enum SdrType {
    /// IPv4 or IPv6 address.
    Ip,
    /// Integer or decimal number.
    Num,
    /// UUID.
    Uuid,
    /// Timestamp.
    Timestamp,
    /// File path.
    Path,
    /// URL.
    Url,
    /// Email address.
    Email,
    /// Hexadecimal string.
    Hex,
    /// Anything else.
    String,
}

/// The upper-case name of a type, as placeholders show it.
pub open spec fn type_name_spec(t: SdrType) -> Seq<char> {
    match t {
        SdrType::Ip => "IP"@,
        SdrType::Num => "NUM"@,
        SdrType::Uuid => "UUID"@,
        SdrType::Timestamp => "TIMESTAMP"@,
        SdrType::Path => "PATH"@,
        SdrType::Url => "URL"@,
        SdrType::Email => "EMAIL"@,
        SdrType::Hex => "HEX"@,
        SdrType::String => "STRING"@,
    }
}

/// The typed placeholder of a type: "<:NAME>".
pub open spec fn placeholder_spec(t: SdrType) -> Seq<char> {
    "<:"@ + type_name_spec(t) + ">"@
}

impl SdrType {
    /// The upper-case name of this type.
    pub fn name(&self) -> (r: &'static str)
        ensures
            r@ == type_name_spec(*self),
    {
        match self {
            SdrType::Ip => "IP",
            SdrType::Num => "NUM",
            SdrType::Uuid => "UUID",
            SdrType::Timestamp => "TIMESTAMP",
            SdrType::Path => "PATH",
            SdrType::Url => "URL",
            SdrType::Email => "EMAIL",
            SdrType::Hex => "HEX",
            SdrType::String => "STRING",
        }
    }

    /// The typed placeholder, such as "<:IP>".
    pub fn placeholder(&self) -> (r: String)
        ensures
            r@ == placeholder_spec(*self),
    {
        concat3("<:", self.name(), ">")
    }

    /// The untyped placeholder "<*>".
    pub fn simple_placeholder(&self) -> (r: &'static str)
        ensures
            r@ == "<*>"@,
    {
        "<*>"
    }
}

/// The type of a token: the first that matches in the order UUID, timestamp (ISO,
/// common, Unix), URL, email, IP (v4, v6), hex with "0x", path, decimal number, integer,
/// hex of at least 16 bytes; otherwise a plain string.
pub open spec fn sdr_type_spec(t: Seq<char>) -> SdrType {
    if t.len() == 0 {
        SdrType::String
    } else if regex_accepts(RE_UUID@, t) {
        SdrType::Uuid
    } else if regex_accepts(RE_TIMESTAMP_ISO@, t) || regex_accepts(RE_TIMESTAMP_COMMON@, t)
        || regex_accepts(RE_TIMESTAMP_UNIX@, t) {
        SdrType::Timestamp
    } else if regex_accepts(RE_URL@, t) {
        SdrType::Url
    } else if regex_accepts(RE_EMAIL@, t) {
        SdrType::Email
    } else if regex_accepts(RE_IPV4@, t) || regex_accepts(RE_IPV6@, t) {
        SdrType::Ip
    } else if has_prefix(t, "0x"@) && regex_accepts(RE_HEX@, t) {
        SdrType::Hex
    } else if regex_accepts(RE_PATH@, t) {
        SdrType::Path
    } else if regex_accepts(RE_FLOAT@, t) {
        SdrType::Num
    } else if regex_accepts(RE_INTEGER@, t) {
        SdrType::Num
    } else if utf8_len(t) >= 16 && regex_accepts(RE_HEX@, t) {
        SdrType::Hex
    } else {
        SdrType::String
    }
}

/// The recognized type of a token follows the patterns in priority order: UUID, then the
/// three timestamp patterns, URL, email, IPv4 or IPv6, "0x" hexadecimal, path, decimal
/// number, integer, and a hexadecimal string of at least 16 bytes. A non-empty token is
/// given a type exactly when that type's pattern accepts it and no pattern of a higher
/// priority does; the empty token and a token no pattern accepts are strings.
pub proof fn law_recognition_by_priority(t: Seq<char>)
    ensures
        ({
            let uuid = regex_accepts(RE_UUID@, t);
            let ts = regex_accepts(RE_TIMESTAMP_ISO@, t) || regex_accepts(RE_TIMESTAMP_COMMON@, t)
                || regex_accepts(RE_TIMESTAMP_UNIX@, t);
            let url = regex_accepts(RE_URL@, t);
            let email = regex_accepts(RE_EMAIL@, t);
            let ip = regex_accepts(RE_IPV4@, t) || regex_accepts(RE_IPV6@, t);
            let hex0x = has_prefix(t, "0x"@) && regex_accepts(RE_HEX@, t);
            let path = regex_accepts(RE_PATH@, t);
            let num = regex_accepts(RE_FLOAT@, t) || regex_accepts(RE_INTEGER@, t);
            let long_hex = utf8_len(t) >= 16 && regex_accepts(RE_HEX@, t);
            let typed = t.len() > 0;
            &&& (sdr_type_spec(t) == SdrType::Uuid <==> typed && uuid)
            &&& (sdr_type_spec(t) == SdrType::Timestamp <==> typed && !uuid && ts)
            &&& (sdr_type_spec(t) == SdrType::Url <==> typed && !uuid && !ts && url)
            &&& (sdr_type_spec(t) == SdrType::Email <==> typed && !uuid && !ts && !url && email)
            &&& (sdr_type_spec(t) == SdrType::Ip <==> typed && !uuid && !ts && !url && !email && ip)
            &&& (sdr_type_spec(t) == SdrType::Hex <==> typed && !uuid && !ts && !url && !email && !ip
                && (hex0x || (!path && !num && long_hex)))
            &&& (sdr_type_spec(t) == SdrType::Path <==> typed && !uuid && !ts && !url && !email && !ip
                && !hex0x && path)
            &&& (sdr_type_spec(t) == SdrType::Num <==> typed && !uuid && !ts && !url && !email && !ip
                && !hex0x && !path && num)
            &&& (sdr_type_spec(t) == SdrType::String <==> !typed || (!uuid && !ts && !url && !email
                && !ip && !hex0x && !path && !num && !long_hex))
        }),
{
}

/// Whether some character of `t` is an ASCII digit.
pub open spec fn has_ascii_digit(t: Seq<char>) -> bool {
    exists|i: int| 0 <= i < t.len() && #[trigger] is_ascii_digit(t[i])
}

/// Whether a token is likely to vary between log lines: every recognized type does, and
/// a plain string does when it holds a digit or is longer than 20 bytes.
pub open spec fn is_variable_spec(t: Seq<char>) -> bool {
    match sdr_type_spec(t) {
        SdrType::String => has_ascii_digit(t) || utf8_len(t) > 20,
        _ => true,
    }
}

/// The placeholder a recognizer puts in place of a token.
pub open spec fn token_placeholder_spec(detailed: bool, t: Seq<char>) -> Seq<char> {
    if detailed {
        placeholder_spec(sdr_type_spec(t))
    } else {
        "<*>"@
    }
}

/// The recognition patterns of a recognizer.
pub struct SdrPatterns {
    ipv4: RegexPattern,
    ipv6: RegexPattern,
    uuid: RegexPattern,
    timestamp_iso: RegexPattern,
    timestamp_common: RegexPattern,
    timestamp_unix: RegexPattern,
    url: RegexPattern,
    email: RegexPattern,
    path: RegexPattern,
    hex: RegexPattern,
    integer: RegexPattern,
    float: RegexPattern,
}

impl SdrPatterns {
    /// Each field holds the pattern of its name.
    #[verifier::type_invariant]
    spec fn wf(self) -> bool {
        &&& self.ipv4.source() == RE_IPV4@
        &&& self.ipv6.source() == RE_IPV6@
        &&& self.uuid.source() == RE_UUID@
        &&& self.timestamp_iso.source() == RE_TIMESTAMP_ISO@
        &&& self.timestamp_common.source() == RE_TIMESTAMP_COMMON@
        &&& self.timestamp_unix.source() == RE_TIMESTAMP_UNIX@
        &&& self.url.source() == RE_URL@
        &&& self.email.source() == RE_EMAIL@
        &&& self.path.source() == RE_PATH@
        &&& self.hex.source() == RE_HEX@
        &&& self.integer.source() == RE_INTEGER@
        &&& self.float.source() == RE_FLOAT@
    }

    /// The pattern texts of the fields, in the order ipv4, ipv6, uuid,
    /// timestamp_iso, timestamp_common, timestamp_unix, url, email, path, hex, integer,
    /// float.
    pub closed spec fn sources(self) -> Seq<Seq<char>> {
        seq![
            self.ipv4.source(),
            self.ipv6.source(),
            self.uuid.source(),
            self.timestamp_iso.source(),
            self.timestamp_common.source(),
            self.timestamp_unix.source(),
            self.url.source(),
            self.email.source(),
            self.path.source(),
            self.hex.source(),
            self.integer.source(),
            self.float.source(),
        ]
    }

    /// Every recognition pattern, each from the constant of its name.
    pub fn compile_all() -> (r: Self)
        ensures
            r.sources() == seq![
                RE_IPV4@,
                RE_IPV6@,
                RE_UUID@,
                RE_TIMESTAMP_ISO@,
                RE_TIMESTAMP_COMMON@,
                RE_TIMESTAMP_UNIX@,
                RE_URL@,
                RE_EMAIL@,
                RE_PATH@,
                RE_HEX@,
                RE_INTEGER@,
                RE_FLOAT@,
            ],
    {
        SdrPatterns {
            ipv4: RegexPattern::new(RE_IPV4),
            ipv6: RegexPattern::new(RE_IPV6),
            uuid: RegexPattern::new(RE_UUID),
            timestamp_iso: RegexPattern::new(RE_TIMESTAMP_ISO),
            timestamp_common: RegexPattern::new(RE_TIMESTAMP_COMMON),
            timestamp_unix: RegexPattern::new(RE_TIMESTAMP_UNIX),
            url: RegexPattern::new(RE_URL),
            email: RegexPattern::new(RE_EMAIL),
            path: RegexPattern::new(RE_PATH),
            hex: RegexPattern::new(RE_HEX),
            integer: RegexPattern::new(RE_INTEGER),
            float: RegexPattern::new(RE_FLOAT),
        }
    }

    fn recognize(&self, token: &str) -> (r: SdrType)
        ensures
            r == sdr_type_spec(token@),
    {
        proof {
            use_type_invariant(self);
        }
        if token.is_empty() {
            return SdrType::String;
        }
        if self.uuid.accepts(token) {
            return SdrType::Uuid;
        }
        if self.timestamp_iso.accepts(token) || self.timestamp_common.accepts(token) || self.timestamp_unix.accepts(token) {
            return SdrType::Timestamp;
        }
        if self.url.accepts(token) {
            return SdrType::Url;
        }
        if self.email.accepts(token) {
            return SdrType::Email;
        }
        if self.ipv4.accepts(token) || self.ipv6.accepts(token) {
            return SdrType::Ip;
        }
        if starts_with(token, "0x") && self.hex.accepts(token) {
            return SdrType::Hex;
        }
        if self.path.accepts(token) {
            return SdrType::Path;
        }
        if self.float.accepts(token) {
            return SdrType::Num;
        }
        if self.integer.accepts(token) {
            return SdrType::Num;
        }
        let v = chars_of(token);
        if utf8_len_capped(&v, 16) >= 16 && self.hex.accepts(token) {
            return SdrType::Hex;
        }
        SdrType::String
    }
}

impl Clone for SdrPatterns {
    /// The same patterns.
    fn clone(&self) -> Self {
        SdrPatterns::compile_all()
    }
}

/// Identifies the types of tokens and the placeholders that stand for them.
#[derive(Clone)]
pub struct SdrRecognizer {
    /// Whether placeholders name the recognized type ("<:IP>") or are plain ("<*>").
    pub use_detailed_types: bool,
    /// The recognition patterns.
    pub patterns: SdrPatterns,
}

impl Default for SdrRecognizer {
    fn default() -> (r: Self)
        ensures
            r.use_detailed_types,
    {
        Self::new()
    }
}

impl SdrRecognizer {
    /// A recognizer with typed placeholders.
    pub fn new() -> (r: Self)
        ensures
            r.use_detailed_types,
    {
        SdrRecognizer { use_detailed_types: true, patterns: SdrPatterns::compile_all() }
    }

    /// A recognizer with plain placeholders.
    pub fn simple() -> (r: Self)
        ensures
            !r.use_detailed_types,
    {
        SdrRecognizer { use_detailed_types: false, patterns: SdrPatterns::compile_all() }
    }

    /// The type of a token; `SdrType::String` when no other type fits.
    pub fn recognize(&self, token: &str) -> (r: SdrType)
        ensures
            r == sdr_type_spec(token@),
    {
        self.patterns.recognize(token)
    }

    /// The placeholder for a token: typed or plain, depending on the recognizer.
    pub fn get_placeholder(&self, token: &str) -> (r: String)
        ensures
            r@ == token_placeholder_spec(self.use_detailed_types, token@),
    {
        let t = self.recognize(token);
        if self.use_detailed_types {
            t.placeholder()
        } else {
            owned(t.simple_placeholder())
        }
    }

    /// Whether a token is likely to vary between log lines.
    pub fn is_variable(&self, token: &str) -> (r: bool)
        ensures
            r == is_variable_spec(token@),
    {
        match self.recognize(token) {
            SdrType::String => {
                let v = chars_of(token);
                let n = v.len();
                let mut has_digit = false;
                for i in 0..n
                    invariant
                        n == v@.len(),
                        v@ == token@,
                        has_digit == exists|j: int| 0 <= j < i && #[trigger] is_ascii_digit(v@[j]),
                {
                    if '0' <= v[i] && v[i] <= '9' {
                        has_digit = true;
                        assert(is_ascii_digit(v@[i as int]));
                    }
                    assert(forall|j: int|
                        0 <= j < i + 1 ==> #[trigger] is_ascii_digit(v@[j]) ==> (j < i || j == i));
                }
                has_digit || utf8_len_capped(&v, 21) > 20
            },
            _ => true,
        }
    }
}

} // verus!
