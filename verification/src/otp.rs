//! One-time passwords: reading a descriptor from what the user gives, and
//! deriving the code of an instant.

use crate::entry::{OtpConfig, OtpConfigView};
use crate::text::{
    chars_of, decimal_value, has_prefix, parse_decimal, str_eq, string_of, trim, trimmed,
};
use totp_rs::{Algorithm, Secret, TOTP};
use vstd::prelude::*;
use vstd::string::*;

verus! {

/// Digits of a code where a descriptor names none.
pub const DEFAULT_DIGITS: u8 = 6;

/// Length of a time step, in seconds, where a descriptor names none.
pub const DEFAULT_PERIOD: u32 = 30;

/// Fewest digits of a code.
pub const MIN_DIGITS: u8 = 6;

/// Most digits of a code.
pub const MAX_DIGITS: u8 = 8;

/// Number of neighbouring time steps that a verifier would accept; it has
/// no part in deriving a code.
pub const CODE_SKEW: u8 = 1;

/// The hash function under a one-time password.
#[derive(Debug, Clone, Copy, PartialEq, Eq, Structural)]
pub enum OtpAlgorithm {
    Sha1,
    Sha256,
    Sha512,
}

/// Why what the user gave is no descriptor.
#[derive(Debug, Clone, Copy, PartialEq, Eq, Structural)]
pub enum OtpParseError {
    /// The text begins like an `otpauth` URI and is none.
    InvalidUri,
    /// The URI is for another kind of one-time password than `totp`.
    UnsupportedKind,
    /// The URI has no `secret` parameter.
    MissingSecret,
    /// The secret is not base32 text, or stands for no bytes at all.
    InvalidSecret,
}

/// Why no code can be derived from a descriptor.
#[derive(Debug, Clone, Copy, PartialEq, Eq, Structural)]
pub enum OtpRuntimeError {
    /// The kind is not `totp`.
    UnsupportedType,
    /// The number of digits is not between 6 and 8.
    UnsupportedDigits,
    /// The hash function is none of `SHA1`, `SHA256`, `SHA512`.
    UnsupportedAlgorithm,
    /// The secret is not base32 text, or stands for no bytes at all.
    InvalidSecret,
    /// The time step is zero seconds long.
    InvalidPeriod,
    /// The clock stands before the Unix epoch.
    Clock,
}

/// What the library reads of a URI: its scheme, its host and the pairs of
/// its query, percent-decoded, in order.
#[derive(Debug, Clone, PartialEq, Eq)]
pub struct UriParts {
    pub scheme: String,
    pub host: Option<String>,
    pub query: Vec<(String, String)>,
}

/// What a [`UriParts`] holds, with its strings as character sequences.
pub struct UriPartsView {
    pub scheme: Seq<char>,
    pub host: Option<Seq<char>>,
    pub query: Seq<(Seq<char>, Seq<char>)>,
}

/// The character sequences of a sequence of pairs of strings.
pub open spec fn pairs(v: Seq<(String, String)>) -> Seq<(Seq<char>, Seq<char>)> {
    v.map_values(|p: (String, String)| (p.0@, p.1@))
}

impl View for UriParts {
    type V = UriPartsView;

    open spec fn view(&self) -> UriPartsView {
        UriPartsView {
            scheme: self.scheme@,
            host: match self.host {
                Some(h) => Some(h@),
                None => None,
            },
            query: pairs(self.query@),
        }
    }
}

/// The parts of the URI that `input` writes, or `None` where it writes
/// none.
pub uninterp spec fn parsed_uri(input: Seq<char>) -> Option<UriPartsView>;

/// The lower-case form of `s` after Unicode.
pub uninterp spec fn lowercased(s: Seq<char>) -> Seq<char>;

/// The upper-case form of `s` after Unicode.
pub uninterp spec fn uppercased(s: Seq<char>) -> Seq<char>;

/// The bytes that the unpadded base32 text `text` stands for, or `None`
/// where it is not well-formed.
pub uninterp spec fn base32_bytes(text: Seq<char>) -> Option<Seq<u8>>;

/// The time-based one-time password of the instant `time`, in Unix seconds,
/// for a secret, a hash function, a number of digits and a time step.
pub uninterp spec fn totp_code(
    algorithm: OtpAlgorithm,
    digits: u8,
    period: u32,
    secret: Seq<u8>,
    time: u64,
) -> Seq<char>;

/// Reads a URI.
///
/// Trusted: stands for `Url::parse` of the `url` crate, read through its
/// methods `scheme`, `host_str` and `query_pairs`. The contract names what
/// comes back, with the parse error turned into `None`.
#[verifier::external_body]
pub(crate) fn parse_uri(input: &str) -> (r: Option<UriParts>)
    ensures
        match r {
            Some(parts) => parsed_uri(input@) == Some(parts@),
            None => parsed_uri(input@) is None,
        },
{
    let url = url::Url::parse(input).ok()?;
    Some(
        UriParts {
            scheme: url.scheme().to_string(),
            host: url.host_str().map(|h| h.to_string()),
            query: url.query_pairs().map(|(k, v)| (k.into_owned(), v.into_owned())).collect(),
        },
    )
}

/// The lower-case form of a string.
///
/// Trusted: stands for `str::to_lowercase`. The contract names what it
/// returns.
#[verifier::external_body]
pub(crate) fn to_lower(s: &str) -> (r: String)
    ensures
        r@ == lowercased(s@),
{
    s.to_lowercase()
}

/// The upper-case form of a string.
///
/// Trusted: stands for `str::to_uppercase`. The contract names what it
/// returns.
#[verifier::external_body]
pub(crate) fn to_upper(s: &str) -> (r: String)
    ensures
        r@ == uppercased(s@),
{
    s.to_uppercase()
}

/// Decodes a base32 secret.
///
/// Trusted: stands for `Secret::to_bytes` of the `totp_rs` crate on a
/// `Secret::Encoded`. The contract names what comes back, with the decoding
/// error turned into `None`.
#[verifier::external_body]
pub(crate) fn decode_secret(secret: &str) -> (r: Option<Vec<u8>>)
    ensures
        match r {
            Some(bytes) => base32_bytes(secret@) == Some(bytes@),
            None => base32_bytes(secret@) is None,
        },
{
    Secret::Encoded(secret.to_string()).to_bytes().ok()
}

/// Derives the code of the instant `time`.
///
/// Trusted: stands for `TOTP::new_unchecked` and `TOTP::generate` of the
/// `totp_rs` crate. The contract names the code and claims that it has
/// `digits` characters, each a decimal digit: the crate writes a number
/// below the `digits`-th power of ten, padded with zeros to that width. A
/// time step of zero and more than nine digits make the crate fail; the
/// bounds leave them out.
#[verifier::external_body]
pub(crate) fn totp_generate(
    algorithm: OtpAlgorithm,
    digits: u8,
    skew: u8,
    period: u32,
    secret: Vec<u8>,
    time: u64,
) -> (r: String)
    requires
        period > 0,
        MIN_DIGITS <= digits <= MAX_DIGITS,
    ensures
        r@ == totp_code(algorithm, digits, period, secret@, time),
        r@.len() == digits,
        crate::text::all_digits(r@),
{
    let algorithm = match algorithm {
        OtpAlgorithm::Sha1 => Algorithm::SHA1,
        OtpAlgorithm::Sha256 => Algorithm::SHA256,
        OtpAlgorithm::Sha512 => Algorithm::SHA512,
    };
    TOTP::new_unchecked(algorithm, digits as usize, skew, period as u64, secret).generate(time)
}

/// Derives the code of the current instant, or `None` where the clock
/// stands before the Unix epoch.
///
/// Trusted: stands for `TOTP::new_unchecked` and `TOTP::generate_current`
/// of the `totp_rs` crate, which reads the clock and derives the code of
/// what it reads. The contract claims that the code is that of some
/// instant. The bounds are those of [`totp_generate`].
#[verifier::external_body]
pub(crate) fn totp_generate_current(
    algorithm: OtpAlgorithm,
    digits: u8,
    skew: u8,
    period: u32,
    secret: Vec<u8>,
) -> (r: Option<String>)
    requires
        period > 0,
        MIN_DIGITS <= digits <= MAX_DIGITS,
    ensures
        r matches Some(code) ==> exists|time: u64|
            code@ == #[trigger] totp_code(algorithm, digits, period, secret@, time),
{
    let algorithm = match algorithm {
        OtpAlgorithm::Sha1 => Algorithm::SHA1,
        OtpAlgorithm::Sha256 => Algorithm::SHA256,
        OtpAlgorithm::Sha512 => Algorithm::SHA512,
    };
    TOTP::new_unchecked(algorithm, digits as usize, skew, period as u64, secret)
        .generate_current()
        .ok()
}

/// The parameters that a query may set.
#[derive(Debug, Clone, PartialEq, Eq)]
pub struct OtpParams {
    pub secret: Option<String>,
    pub digits: Option<u8>,
    pub period: Option<u32>,
    pub algorithm: Option<String>,
}

/// What an [`OtpParams`] holds, with its strings as character sequences.
pub struct OtpParamsView {
    pub secret: Option<Seq<char>>,
    pub digits: Option<u8>,
    pub period: Option<u32>,
    pub algorithm: Option<Seq<char>>,
}

impl View for OtpParams {
    type V = OtpParamsView;

    open spec fn view(&self) -> OtpParamsView {
        OtpParamsView {
            secret: match self.secret {
                Some(s) => Some(s@),
                None => None,
            },
            digits: self.digits,
            period: self.period,
            algorithm: match self.algorithm {
                Some(s) => Some(s@),
                None => None,
            },
        }
    }
}

/// The parameters that the pairs `query` set. Of several pairs for one
/// parameter the last counts; a `digits` or `period` that is no decimal
/// numeral of its width is passed over; other keys are ignored.
pub open spec fn query_params(query: Seq<(Seq<char>, Seq<char>)>) -> OtpParamsView
    decreases query.len(),
{
    if query.len() == 0 {
        OtpParamsView { secret: None, digits: None, period: None, algorithm: None }
    } else {
        let earlier = query_params(query.drop_last());
        let key = query.last().0;
        let value = query.last().1;
        if key == "secret"@ {
            OtpParamsView { secret: Some(value), ..earlier }
        } else if key == "digits"@ {
            match decimal_value(value, u8::MAX as int) {
                Some(d) => OtpParamsView { digits: Some(d as u8), ..earlier },
                None => earlier,
            }
        } else if key == "period"@ {
            match decimal_value(value, u32::MAX as int) {
                Some(p) => OtpParamsView { period: Some(p as u32), ..earlier },
                None => earlier,
            }
        } else if key == "algorithm"@ {
            OtpParamsView { algorithm: Some(value), ..earlier }
        } else {
            earlier
        }
    }
}

/// Picks the parameters of a descriptor out of the pairs of a query.
pub fn select_otp_params(query: &Vec<(String, String)>) -> (r: OtpParams)
    ensures
        r@ == query_params(pairs(query@)),
{
    let mut params = OtpParams { secret: None, digits: None, period: None, algorithm: None };
    let mut i: usize = 0;
    assert(pairs(query@).take(0) == Seq::<(Seq<char>, Seq<char>)>::empty());
    while i < query.len()
        invariant
            i <= query.len(),
            params@ == query_params(pairs(query@).take(i as int)),
        decreases query.len() - i,
    {
        assert(pairs(query@).take(i + 1).drop_last() == pairs(query@).take(i as int));
        assert(pairs(query@).take(i + 1).last() == (query@[i as int].0@, query@[i as int].1@));
        let key = query[i].0.as_str();
        let value = query[i].1.as_str();
        if str_eq(key, "secret") {
            params.secret = Some(value.to_owned());
        } else if str_eq(key, "digits") {
            let chars = chars_of(value);
            match parse_decimal(chars.as_slice(), 255) {
                Some(d) => {
                    params.digits = Some(d as u8);
                },
                None => {},
            }
        } else if str_eq(key, "period") {
            let chars = chars_of(value);
            match parse_decimal(chars.as_slice(), 0xFFFF_FFFF) {
                Some(p) => {
                    params.period = Some(p as u32);
                },
                None => {},
            }
        } else if str_eq(key, "algorithm") {
            params.algorithm = Some(value.to_owned());
        }
        i += 1;
    }
    assert(pairs(query@).take(query.len() as int) == pairs(query@));
    params
}

/// The descriptor made of a secret, of what the secret decodes to, and of
/// the optional parameters: the secret must stand for at least one byte;
/// parameters not given take the defaults 6 digits, 30 seconds and `SHA1`.
pub open spec fn assembled_otp(
    secret: Seq<char>,
    decoded: Option<Seq<u8>>,
    digits: Option<u8>,
    period: Option<u32>,
    algo: Option<Seq<char>>,
) -> Result<OtpConfigView, OtpParseError> {
    if decoded matches Some(bytes) && bytes.len() > 0 {
        Ok(
            OtpConfigView {
                kind: "totp"@,
                secret,
                period: match period {
                    Some(p) => p,
                    None => DEFAULT_PERIOD,
                },
                digits: match digits {
                    Some(d) => d,
                    None => DEFAULT_DIGITS,
                },
                algo: match algo {
                    Some(a) => a,
                    None => "SHA1"@,
                },
            },
        )
    } else {
        Err(OtpParseError::InvalidSecret)
    }
}

/// Makes a descriptor of a secret, of what the secret decodes to, and of
/// the optional parameters.
pub fn assemble_otp(
    secret: &str,
    decoded: Option<&Vec<u8>>,
    digits: Option<u8>,
    period: Option<u32>,
    algo: Option<&str>,
) -> (r: Result<OtpConfig, OtpParseError>)
    ensures
        match r {
            Ok(cfg) => assembled_otp(
                secret@,
                match decoded {
                    Some(b) => Some(b@),
                    None => None,
                },
                digits,
                period,
                match algo {
                    Some(a) => Some(a@),
                    None => None,
                },
            ) == Ok::<OtpConfigView, OtpParseError>(cfg@),
            Err(e) => assembled_otp(
                secret@,
                match decoded {
                    Some(b) => Some(b@),
                    None => None,
                },
                digits,
                period,
                match algo {
                    Some(a) => Some(a@),
                    None => None,
                },
            ) == Err::<OtpConfigView, OtpParseError>(e),
        },
{
    let usable = match decoded {
        Some(bytes) => bytes.len() > 0,
        None => false,
    };
    if !usable {
        return Err(OtpParseError::InvalidSecret);
    }
    Ok(
        OtpConfig {
            kind: "totp".to_owned(),
            secret: secret.to_owned(),
            period: match period {
                Some(p) => p,
                None => DEFAULT_PERIOD,
            },
            digits: match digits {
                Some(d) => d,
                None => DEFAULT_DIGITS,
            },
            algo: match algo {
                Some(a) => a.to_owned(),
                None => "SHA1".to_owned(),
            },
        },
    )
}

/// The upper-case form of an optional string.
pub open spec fn uppercased_option(s: Option<Seq<char>>) -> Option<Seq<char>> {
    match s {
        Some(s) => Some(uppercased(s)),
        None => None,
    }
}

/// The descriptor that the parts of an `otpauth` URI give: the scheme must
/// be `otpauth`, the host in lower case `totp`, and the query must hold a
/// secret; the algorithm is kept in upper case.
pub open spec fn otp_from_uri(parts: UriPartsView) -> Result<OtpConfigView, OtpParseError> {
    let host = match parts.host {
        Some(h) => h,
        None => Seq::empty(),
    };
    let params = query_params(parts.query);
    if parts.scheme != "otpauth"@ {
        Err(OtpParseError::InvalidUri)
    } else if lowercased(host) != "totp"@ {
        Err(OtpParseError::UnsupportedKind)
    } else {
        match params.secret {
            None => Err(OtpParseError::MissingSecret),
            Some(secret) => assembled_otp(
                secret,
                base32_bytes(secret),
                params.digits,
                params.period,
                uppercased_option(params.algorithm),
            ),
        }
    }
}

/// The descriptor that what the user gave stands for. The input is
/// trimmed; where it begins with `otpauth://` it is read as a URI, else the
/// whole of it is a base32 secret with the default parameters.
pub open spec fn parsed_otp(input: Seq<char>) -> Result<OtpConfigView, OtpParseError> {
    let given = trimmed(input);
    if "otpauth://"@.is_prefix_of(given) {
        match parsed_uri(given) {
            Some(parts) => otp_from_uri(parts),
            None => Err(OtpParseError::InvalidUri),
        }
    } else {
        assembled_otp(given, base32_bytes(given), None, None, None)
    }
}

/// Makes a descriptor of the parts of an `otpauth` URI.
pub fn otp_config_from_uri(parts: &UriParts) -> (r: Result<OtpConfig, OtpParseError>)
    ensures
        match r {
            Ok(cfg) => otp_from_uri(parts@) == Ok::<OtpConfigView, OtpParseError>(cfg@),
            Err(e) => otp_from_uri(parts@) == Err::<OtpConfigView, OtpParseError>(e),
        },
{
    if !str_eq(parts.scheme.as_str(), "otpauth") {
        return Err(OtpParseError::InvalidUri);
    }
    let kind = match &parts.host {
        Some(h) => to_lower(h.as_str()),
        None => to_lower(""),
    };
    proof {
        reveal_strlit("");
        assert(""@ == Seq::<char>::empty());
    }
    if !str_eq(kind.as_str(), "totp") {
        return Err(OtpParseError::UnsupportedKind);
    }
    let params = select_otp_params(&parts.query);
    let secret = match params.secret {
        Some(secret) => secret,
        None => {
            return Err(OtpParseError::MissingSecret);
        },
    };
    let decoded = decode_secret(secret.as_str());
    let algo = match params.algorithm {
        Some(a) => Some(to_upper(a.as_str())),
        None => None,
    };
    assemble_otp(
        secret.as_str(),
        decoded.as_ref(),
        params.digits,
        params.period,
        match &algo {
            Some(a) => Some(a.as_str()),
            None => None,
        },
    )
}

/// Reads a descriptor from what the user gave: an `otpauth://` URI or a
/// bare base32 secret.
pub fn parse_otp_input(input: &str) -> (r: Result<OtpConfig, OtpParseError>)
    ensures
        match r {
            Ok(cfg) => parsed_otp(input@) == Ok::<OtpConfigView, OtpParseError>(cfg@),
            Err(e) => parsed_otp(input@) == Err::<OtpConfigView, OtpParseError>(e),
        },
{
    let raw = chars_of(input);
    let given_chars = trim(raw.as_slice());
    let given = string_of(given_chars.as_slice());
    let marker = chars_of("otpauth://");
    if has_prefix(given_chars.as_slice(), marker.as_slice()) {
        match parse_uri(given.as_str()) {
            Some(parts) => otp_config_from_uri(&parts),
            None => Err(OtpParseError::InvalidUri),
        }
    } else {
        let decoded = decode_secret(given.as_str());
        assemble_otp(given.as_str(), decoded.as_ref(), None, None, None)
    }
}

/// The hash function that an upper-case tag names.
pub open spec fn algorithm_of(tag: Seq<char>) -> Option<OtpAlgorithm> {
    if tag == "SHA1"@ {
        Some(OtpAlgorithm::Sha1)
    } else if tag == "SHA256"@ {
        Some(OtpAlgorithm::Sha256)
    } else if tag == "SHA512"@ {
        Some(OtpAlgorithm::Sha512)
    } else {
        None
    }
}

/// Reads the tag of a hash function.
pub fn parse_algorithm(tag: &str) -> (r: Option<OtpAlgorithm>)
    ensures
        r == algorithm_of(tag@),
{
    if str_eq(tag, "SHA1") {
        Some(OtpAlgorithm::Sha1)
    } else if str_eq(tag, "SHA256") {
        Some(OtpAlgorithm::Sha256)
    } else if str_eq(tag, "SHA512") {
        Some(OtpAlgorithm::Sha512)
    } else {
        None
    }
}

/// Whether a code can be derived, and with which hash function: the kind in
/// lower case must be `totp`, the digits between 6 and 8, the tag in upper
/// case one of the three known, the secret must stand for at least one
/// byte, and the time step must not be zero. The first of these that fails
/// gives the error.
pub open spec fn otp_request(
    kind_lower: Seq<char>,
    digits: u8,
    algo_upper: Seq<char>,
    decoded: Option<Seq<u8>>,
    period: u32,
) -> Result<OtpAlgorithm, OtpRuntimeError> {
    if kind_lower != "totp"@ {
        Err(OtpRuntimeError::UnsupportedType)
    } else if digits < MIN_DIGITS || digits > MAX_DIGITS {
        Err(OtpRuntimeError::UnsupportedDigits)
    } else {
        match algorithm_of(algo_upper) {
            None => Err(OtpRuntimeError::UnsupportedAlgorithm),
            Some(algorithm) => if !(decoded matches Some(bytes) && bytes.len() > 0) {
                Err(OtpRuntimeError::InvalidSecret)
            } else if period == 0 {
                Err(OtpRuntimeError::InvalidPeriod)
            } else {
                Ok(algorithm)
            },
        }
    }
}

/// Checks whether a code can be derived, and names the hash function.
pub fn check_otp_request(
    kind_lower: &str,
    digits: u8,
    algo_upper: &str,
    decoded: Option<&Vec<u8>>,
    period: u32,
) -> (r: Result<OtpAlgorithm, OtpRuntimeError>)
    ensures
        r == otp_request(
            kind_lower@,
            digits,
            algo_upper@,
            match decoded {
                Some(b) => Some(b@),
                None => None,
            },
            period,
        ),
{
    if !str_eq(kind_lower, "totp") {
        return Err(OtpRuntimeError::UnsupportedType);
    }
    if digits < MIN_DIGITS || digits > MAX_DIGITS {
        return Err(OtpRuntimeError::UnsupportedDigits);
    }
    let algorithm = match parse_algorithm(algo_upper) {
        Some(algorithm) => algorithm,
        None => {
            return Err(OtpRuntimeError::UnsupportedAlgorithm);
        },
    };
    let usable = match decoded {
        Some(bytes) => bytes.len() > 0,
        None => false,
    };
    if !usable {
        return Err(OtpRuntimeError::InvalidSecret);
    }
    if period == 0 {
        return Err(OtpRuntimeError::InvalidPeriod);
    }
    Ok(algorithm)
}

/// What a descriptor asks for, judged on its own fields.
pub open spec fn otp_request_of(cfg: OtpConfigView) -> Result<OtpAlgorithm, OtpRuntimeError> {
    otp_request(
        lowercased(cfg.kind),
        cfg.digits,
        uppercased(cfg.algo),
        base32_bytes(cfg.secret),
        cfg.period,
    )
}

/// The code of the instant `time` for a descriptor.
pub open spec fn otp_code_at(cfg: OtpConfigView, time: u64) -> Result<Seq<char>, OtpRuntimeError> {
    match otp_request_of(cfg) {
        Err(e) => Err(e),
        Ok(algorithm) => Ok(
            totp_code(algorithm, cfg.digits, cfg.period, base32_bytes(cfg.secret).unwrap(), time),
        ),
    }
}

/// Derives the code of the instant `time`, in Unix seconds. The code has as
/// many characters as the descriptor asks digits, each a decimal digit.
pub fn generate_otp_code_at(cfg: &OtpConfig, time: u64) -> (r: Result<String, OtpRuntimeError>)
    ensures
        match r {
            Ok(code) => {
                &&& otp_code_at(cfg@, time) == Ok::<Seq<char>, OtpRuntimeError>(code@)
                &&& code@.len() == cfg.digits
                &&& crate::text::all_digits(code@)
            },
            Err(e) => otp_code_at(cfg@, time) == Err::<Seq<char>, OtpRuntimeError>(e),
        },
{
    let kind = to_lower(cfg.kind.as_str());
    let algo = to_upper(cfg.algo.as_str());
    let decoded = decode_secret(cfg.secret.as_str());
    let request = check_otp_request(
        kind.as_str(),
        cfg.digits,
        algo.as_str(),
        decoded.as_ref(),
        cfg.period,
    );
    match request {
        Err(e) => Err(e),
        Ok(algorithm) => {
            let secret = decoded.unwrap();
            Ok(totp_generate(algorithm, cfg.digits, CODE_SKEW, cfg.period, secret, time))
        },
    }
}

/// Derives the code of the current instant.
///
/// A descriptor that is refused is refused as by [`generate_otp_code_at`];
/// otherwise the code is that of some instant, unless the clock fails.
pub fn generate_otp_code(cfg: &OtpConfig) -> (r: Result<String, OtpRuntimeError>)
    ensures
        match r {
            Ok(code) => exists|time: u64| #[trigger]
                otp_code_at(cfg@, time) == Ok::<Seq<char>, OtpRuntimeError>(code@),
            Err(e) => if otp_request_of(cfg@) is Ok {
                e == OtpRuntimeError::Clock
            } else {
                otp_request_of(cfg@) == Err::<OtpAlgorithm, OtpRuntimeError>(e)
            },
        },
{
    let kind = to_lower(cfg.kind.as_str());
    let algo = to_upper(cfg.algo.as_str());
    let decoded = decode_secret(cfg.secret.as_str());
    let request = check_otp_request(
        kind.as_str(),
        cfg.digits,
        algo.as_str(),
        decoded.as_ref(),
        cfg.period,
    );
    match request {
        Err(e) => Err(e),
        Ok(algorithm) => {
            let secret = decoded.unwrap();
            let ghost bytes = secret@;
            match totp_generate_current(algorithm, cfg.digits, CODE_SKEW, cfg.period, secret) {
                Some(code) => {
                    proof {
                        let time = choose|time: u64|
                            code@ == #[trigger] totp_code(
                                algorithm,
                                cfg.digits,
                                cfg.period,
                                bytes,
                                time,
                            );
                        assert(otp_code_at(cfg@, time) == Ok::<Seq<char>, OtpRuntimeError>(code@));
                    }
                    Ok(code)
                },
                None => Err(OtpRuntimeError::Clock),
            }
        },
    }
}

} // verus!
