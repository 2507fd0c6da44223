//! The in-memory registry of time-based one-time-password accounts: an
//! injected, explicitly owned store, sized for one logical session.
//!
//! An account enters the registry through an `otpauth://` URI. The URI is
//! split into plain values by the URL parser; every decision made over
//! those values — which query pair wins, the label split, the defaults,
//! the issuer check, the decimal fields — is verified here. The one-time
//! code generator itself is an outside algorithm, held behind trusted
//! items.

use vstd::prelude::*;
use vstd::string::*;
use vstd::arithmetic::div_mod::{lemma_fundamental_div_mod, lemma_mod_division_less_than_divisor};

verus! {

/// One entry of the registry as shown to callers: the account's metadata
/// and its current one-time code.
#[derive(Debug)]
pub struct Entry {
    pub id: u32,
    pub icon: String,
    pub account: String,
    pub username: String,
    pub code: String,
}

/// One stored account. The `totp` field holds the code generator
/// configured for this account.
pub struct Account {
    pub id: u32,
    pub icon: String,
    pub account: String,
    pub username: String,
    pub totp: Generator,
}

/// The registry: accounts and the next identifier to hand out.
pub struct AppState {
    pub accounts: Vec<Account>,
    pub next_id: u32,
}

impl AppState {
    /// Every stored generator carries a nonzero step: the condition under
    /// which producing a code cannot divide by zero. The constructor
    /// establishes it and every registry operation preserves it.
    pub open spec fn generators_valid(&self) -> bool {
        forall|i: int|
            0 <= i < self.accounts@.len() ==> self.accounts@[i].totp.step_spec() >= 1
    }
}

#[verifier::external_type_specification]
#[verifier::external_body]
pub struct ExTotp(totp_rs::TOTP);

/// The outside code generator paired with the step it was built with.
/// Producing a code divides the clock by the step, so the zero step the
/// outside constructor accepts must never reach a generator; the fields
/// are private, and the one function that builds a value of this type
/// records the very step it handed the constructor.
pub struct Generator {
    totp: totp_rs::TOTP,
    step: u64,
}

impl Generator {
    /// The step this generator was built with.
    pub closed spec fn step_spec(&self) -> u64 {
        self.step
    }
}

/// The hash algorithm a URI may name for its generator.
#[derive(Clone, Copy, PartialEq, Eq, Structural, Debug)]
pub enum TotpAlgorithm {
    Sha1,
    Sha256,
    Sha512,
}

/// An `otpauth://` URI split into plain values: its path, and its decoded
/// query pairs in order.
#[derive(Debug)]
pub struct ParsedUri {
    pub path: String,
    pub pairs: Vec<(String, String)>,
}

/// The views of a query pair list.
pub open spec fn pair_views(pairs: Seq<(String, String)>) -> Seq<(Seq<char>, Seq<char>)> {
    pairs.map(|i: int, p: (String, String)| (p.0@, p.1@))
}

/// What the URL parser makes of a string: `None` for one it rejects, else
/// the path and the decoded query pairs. A function of the string alone.
pub uninterp spec fn uri_parts_of(s: Seq<char>) -> Option<(Seq<char>, Seq<(Seq<char>, Seq<char>)>)>;

/// Relies on `url::Url::parse`, `Url::path` and `Url::query_pairs`:
/// splits a URI into its path and its percent-decoded query pairs.
#[verifier::external_body]
fn parse_uri(s: &str) -> (r: Option<ParsedUri>)
    ensures
        r is Some <==> uri_parts_of(s@) is Some,
        r matches Some(p) ==> (p.path@, pair_views(p.pairs@)) == (uri_parts_of(s@)->0),
{
    let url = url::Url::parse(s).ok()?;
    let path = url.path().to_string();
    let pairs: Vec<(String, String)> = url.query_pairs().into_owned().collect();
    Some(ParsedUri { path, pairs })
}

/// What the base32 decoder (RFC 4648 alphabet, no padding) makes of a
/// string: `None` for one it rejects, else the decoded bytes. A function
/// of the string alone.
pub uninterp spec fn base32_decode_of(s: Seq<char>) -> Option<Seq<u8>>;

/// Relies on `base32::decode` with the RFC 4648 alphabet, no padding.
#[verifier::external_body]
fn base32_decode_rfc4648(s: &str) -> (r: Option<Vec<u8>>)
    ensures
        r is Some <==> base32_decode_of(s@) is Some,
        r matches Some(v) ==> v@ == (base32_decode_of(s@)->0),
{
    base32::decode(base32::Alphabet::Rfc4648 { padding: false }, s)
}

/// Relies on `totp_rs::TOTP::new`: it validates that the digit count is 6
/// through 8 and the secret at least 16 bytes, and otherwise only carries
/// the parameters into the generator value. It accepts a zero step, which
/// code generation later divides by, so the zero step is excluded here.
#[verifier::external_body]
fn totp_new(algorithm: TotpAlgorithm, digits: u64, skew: u8, step: u64, secret: Vec<u8>) -> (r:
    Result<Generator, String>)
    requires
        1 <= step,
    ensures
        r is Ok <==> (6 <= digits <= 8 && secret@.len() >= 16),
        r matches Ok(g) ==> g.step_spec() == step,
{
    let alg = match algorithm {
        TotpAlgorithm::Sha1 => totp_rs::Algorithm::SHA1,
        TotpAlgorithm::Sha256 => totp_rs::Algorithm::SHA256,
        TotpAlgorithm::Sha512 => totp_rs::Algorithm::SHA512,
    };
    let d: usize = match usize::try_from(digits) {
        Ok(d) => d,
        Err(e) => return Err(e.to_string()),
    };
    match totp_rs::TOTP::new(alg, d, skew, step, secret) {
        Ok(totp) => Ok(Generator { totp, step }),
        Err(e) => Err(e.to_string()),
    }
}

/// Relies on `totp_rs::TOTP::generate_current`: the code depends on the
/// system clock, so nothing is promised of it. Generation divides the
/// clock by the generator's step, so the zero step stays excluded.
#[verifier::external_body]
fn totp_generate_current(generator: &Generator) -> (r: Result<String, String>)
    requires
        generator.step_spec() >= 1,
{
    generator.totp.generate_current().map_err(|e| e.to_string())
}

/// The value of the last query pair carrying `key`, as a later duplicate
/// key overrides an earlier one.
pub open spec fn find_last_pair(pairs: Seq<(Seq<char>, Seq<char>)>, key: Seq<char>) -> Option<
    Seq<char>,
>
    decreases pairs.len(),
{
    if pairs.len() == 0 {
        None
    } else if pairs.last().0 == key {
        Some(pairs.last().1)
    } else {
        find_last_pair(pairs.drop_last(), key)
    }
}

/// A match with nothing after it determines the lookup.
proof fn lemma_find_last_pair_at(pairs: Seq<(Seq<char>, Seq<char>)>, key: Seq<char>, i: int)
    requires
        0 <= i < pairs.len(),
        pairs[i].0 == key,
        forall|j: int| i < j < pairs.len() ==> pairs[j].0 != key,
    ensures
        find_last_pair(pairs, key) == Some(pairs[i].1),
    decreases pairs.len(),
{
    if i < pairs.len() - 1 {
        lemma_find_last_pair_at(pairs.drop_last(), key, i);
    }
}

/// With no match at all, the lookup is empty.
proof fn lemma_find_last_pair_none(pairs: Seq<(Seq<char>, Seq<char>)>, key: Seq<char>)
    requires
        forall|j: int| 0 <= j < pairs.len() ==> pairs[j].0 != key,
    ensures
        find_last_pair(pairs, key) is None,
    decreases pairs.len(),
{
    if pairs.len() > 0 {
        lemma_find_last_pair_none(pairs.drop_last(), key);
    }
}

/// Look a key up among the query pairs; the last occurrence wins.
pub fn lookup_query(pairs: &Vec<(String, String)>, key: &str) -> (r: Option<String>)
    ensures
        r is Some <==> find_last_pair(pair_views(pairs@), key@) is Some,
        r matches Some(v) ==> Some(v@) == find_last_pair(pair_views(pairs@), key@),
{
    let target: String = key.to_owned();
    let mut k: usize = pairs.len();
    while k > 0
        invariant
            0 <= k <= pairs@.len(),
            target@ == key@,
            forall|j: int| k <= j < pairs@.len() ==> pair_views(pairs@)[j].0 != key@,
        decreases k,
    {
        k = k - 1;
        if pairs[k].0 == target {
            proof {
                assert(pair_views(pairs@)[k as int].0 == key@);
                lemma_find_last_pair_at(pair_views(pairs@), key@, k as int);
            }
            return Some(pairs[k].1.clone());
        }
        proof {
            assert(pair_views(pairs@)[k as int].0 == pairs@[k as int].0@);
        }
    }
    proof {
        lemma_find_last_pair_none(pair_views(pairs@), key@);
    }
    None
}

/// A decimal digit.
pub open spec fn is_digit_char(c: char) -> bool {
    48 <= c as u32 <= 57
}

pub open spec fn all_digits(s: Seq<char>) -> bool {
    forall|i: int| 0 <= i < s.len() ==> is_digit_char(s[i])
}

/// The number a digit string denotes.
pub open spec fn decimal_value(s: Seq<char>) -> int
    decreases s.len(),
{
    if s.len() == 0 {
        0
    } else {
        decimal_value(s.drop_last()) * 10 + ((s.last() as u32) - 48)
    }
}

proof fn lemma_decimal_value_nonneg(s: Seq<char>)
    requires
        all_digits(s),
    ensures
        decimal_value(s) >= 0,
    decreases s.len(),
{
    if s.len() > 0 {
        assert(all_digits(s.drop_last()));
        lemma_decimal_value_nonneg(s.drop_last());
    }
}

/// A digit string's value only grows as the string extends.
proof fn lemma_decimal_prefix_monotone(s: Seq<char>, k: int)
    requires
        all_digits(s),
        0 <= k <= s.len(),
    ensures
        decimal_value(s.subrange(0, k)) <= decimal_value(s),
    decreases s.len() - k,
{
    if k < s.len() {
        let p = s.subrange(0, k);
        let p1 = s.subrange(0, k + 1);
        assert(p1.drop_last() =~= p);
        assert(all_digits(p));
        lemma_decimal_value_nonneg(p);
        assert(decimal_value(p1) == decimal_value(p) * 10 + ((s[k] as u32) - 48));
        lemma_decimal_prefix_monotone(s, k + 1);
    } else {
        assert(s.subrange(0, k) =~= s);
    }
}

/// `s` with one optional leading plus sign removed: the digit part of a
/// decimal string as the standard unsigned grammar reads it.
pub open spec fn decimal_digits(s: Seq<char>) -> Seq<char> {
    if s.len() > 0 && s[0] == '+' {
        s.drop_first()
    } else {
        s
    }
}

/// Whether a string reads as an unsigned decimal that fits 64 bits: after
/// the optional plus sign, nonempty, all digits, value in range.
pub open spec fn readable_decimal(s: Seq<char>) -> bool {
    &&& decimal_digits(s).len() > 0
    &&& all_digits(decimal_digits(s))
    &&& decimal_value(decimal_digits(s)) <= u64::MAX
}

/// Read a decimal string as the standard unsigned grammar does — one
/// optional leading plus sign, then digits: the denoted value exactly
/// when the string reads as a decimal that fits; `None` otherwise.
pub fn parse_decimal_u64(s: &str) -> (r: Option<u64>)
    ensures
        r is Some <==> readable_decimal(s@),
        r matches Some(v) ==> v == decimal_value(decimal_digits(s@)),
{
    let n = s.unicode_len();
    if n > 0 && s.get_char(0) == '+' {
        let rest = s.substring_char(1, n);
        proof {
            assert(s@.subrange(1, n as int) =~= s@.drop_first());
        }
        parse_decimal_digit_str(rest)
    } else {
        parse_decimal_digit_str(s)
    }
}

/// Read a string of bare digits.
fn parse_decimal_digit_str(s: &str) -> (r: Option<u64>)
    ensures
        r is Some <==> (s@.len() > 0 && all_digits(s@) && decimal_value(s@) <= u64::MAX),
        r matches Some(v) ==> v == decimal_value(s@),
{
    let n = s.unicode_len();
    if n == 0 {
        return None;
    }
    let mut value: u64 = 0;
    let mut k: usize = 0;
    while k < n
        invariant
            0 <= k <= n,
            n == s@.len(),
            forall|j: int| 0 <= j < k ==> is_digit_char(s@[j]),
            value == decimal_value(s@.subrange(0, k as int)),
        decreases n - k,
    {
        let c = s.get_char(k);
        let code: u32 = c as u32;
        if code < 48 || code > 57 {
            return None;
        }
        let d: u64 = (code - 48) as u64;
        proof {
            let p = s@.subrange(0, k as int);
            let p1 = s@.subrange(0, k + 1);
            assert(p1.drop_last() =~= p);
            assert(p1.last() == s@[k as int]);
            assert(decimal_value(p1) == decimal_value(p) * 10 + d);
        }
        if value > (u64::MAX - d) / 10 {
            proof {
                let m = u64::MAX as int - d;
                lemma_fundamental_div_mod(m, 10);
                lemma_mod_division_less_than_divisor(m, 10);
                assert(10 * (value as int) + d > u64::MAX as int);
                if all_digits(s@) {
                    lemma_decimal_prefix_monotone(s@, k + 1);
                }
            }
            return None;
        }
        proof {
            let m = u64::MAX as int - d;
            lemma_fundamental_div_mod(m, 10);
            lemma_mod_division_less_than_divisor(m, 10);
            assert((value as int) * 10 + d <= u64::MAX as int);
        }
        value = value * 10 + d;
        k = k + 1;
    }
    proof {
        assert(s@.subrange(0, n as int) =~= s@);
    }
    Some(value)
}

/// `s` with its leading slashes removed: the URI label.
pub open spec fn strip_leading_slashes(s: Seq<char>) -> Seq<char>
    decreases s.len(),
{
    if s.len() > 0 && s[0] == '/' {
        strip_leading_slashes(s.drop_first())
    } else {
        s
    }
}

fn strip_leading_slashes_exec<'a>(s: &'a str) -> (r: &'a str)
    ensures
        r@ == strip_leading_slashes(s@),
    decreases s@.len(),
{
    let n = s.unicode_len();
    if n > 0 && s.get_char(0) == '/' {
        let rest = s.substring_char(1, n);
        proof {
            assert(s@.subrange(1, n as int) =~= s@.drop_first());
        }
        strip_leading_slashes_exec(rest)
    } else {
        s
    }
}

/// The index of the first occurrence of `c` in `s`.
pub open spec fn find_char_index(s: Seq<char>, c: char) -> Option<int>
    decreases s.len(),
{
    if s.len() == 0 {
        None
    } else if s[0] == c {
        Some(0int)
    } else {
        match find_char_index(s.drop_first(), c) {
            Some(i) => Some(i + 1),
            None => None,
        }
    }
}

proof fn lemma_find_char_index_spec(s: Seq<char>, c: char)
    ensures
        find_char_index(s, c) matches Some(i) ==> 0 <= i < s.len() && s[i] == c,
        find_char_index(s, c) is None ==> forall|j: int| 0 <= j < s.len() ==> s[j] != c,
    decreases s.len(),
{
    if s.len() > 0 && s[0] != c {
        let rest = s.drop_first();
        lemma_find_char_index_spec(rest, c);
        match find_char_index(rest, c) {
            Some(i) => {
                assert(s[i + 1] == rest[i]);
            },
            None => {
                assert forall|j: int| 0 <= j < s.len() implies s[j] != c by {
                    if j > 0 {
                        assert(s[j] == rest[j - 1]);
                    }
                }
            },
        }
    }
}

proof fn lemma_find_char_index_first(s: Seq<char>, c: char, i: int)
    requires
        0 <= i < s.len(),
        s[i] == c,
        forall|j: int| 0 <= j < i ==> s[j] != c,
    ensures
        find_char_index(s, c) == Some(i),
    decreases s.len(),
{
    if i > 0 {
        let rest = s.drop_first();
        assert(rest[i - 1] == s[i]);
        assert forall|j: int| 0 <= j < i - 1 implies rest[j] != c by {
            assert(rest[j] == s[j + 1]);
        }
        lemma_find_char_index_first(rest, c, i - 1);
    }
}

/// Find the first occurrence of a character.
pub fn find_char(s: &str, c: char) -> (r: Option<usize>)
    ensures
        r matches Some(i) ==> Some(i as int) == find_char_index(s@, c),
        r is None ==> find_char_index(s@, c) is None,
{
    let n = s.unicode_len();
    let mut k: usize = 0;
    while k < n
        invariant
            0 <= k <= n,
            n == s@.len(),
            forall|j: int| 0 <= j < k ==> s@[j] != c,
        decreases n - k,
    {
        if s.get_char(k) == c {
            proof {
                lemma_find_char_index_first(s@, c, k as int);
            }
            return Some(k);
        }
        k = k + 1;
    }
    proof {
        lemma_find_char_index_spec(s@, c);
    }
    None
}

/// Which algorithm a URI's `algorithm` value names; anything unknown, or
/// an absent value, falls back to SHA-1, the algorithm every client supports.
pub open spec fn algorithm_of(v: Option<Seq<char>>) -> TotpAlgorithm {
    match v {
        Option::None => TotpAlgorithm::Sha1,
        Option::Some(s) => if s == "SHA256"@ {
            TotpAlgorithm::Sha256
        } else if s == "SHA512"@ {
            TotpAlgorithm::Sha512
        } else {
            TotpAlgorithm::Sha1
        },
    }
}

fn algorithm_from_value(v: &Option<String>) -> (r: TotpAlgorithm)
    ensures
        r == algorithm_of(match v {
            Option::None => Option::None,
            Option::Some(s) => Option::Some(s@),
        }),
{
    match v {
        None => TotpAlgorithm::Sha1,
        Some(s) => {
            let sha256: String = "SHA256".to_owned();
            let sha512: String = "SHA512".to_owned();
            if sha256.eq(s) {
                TotpAlgorithm::Sha256
            } else if sha512.eq(s) {
                TotpAlgorithm::Sha512
            } else {
                TotpAlgorithm::Sha1
            }
        },
    }
}

/// The issuer a URI names, or empty when it names none.
pub open spec fn otpauth_issuer(parts: (Seq<char>, Seq<(Seq<char>, Seq<char>)>)) -> Seq<char> {
    match find_last_pair(parts.1, "issuer"@) {
        Option::Some(v) => v,
        Option::None => ""@,
    }
}

/// The URI's label: its path with leading slashes removed.
pub open spec fn otpauth_label(parts: (Seq<char>, Seq<(Seq<char>, Seq<char>)>)) -> Seq<char> {
    strip_leading_slashes(parts.0)
}

/// The account and username a URI denotes: a label of the form
/// `account:username` splits at its first colon; a plain label is the
/// username, with the issuer standing as the account.
pub open spec fn otpauth_account_username(parts: (Seq<char>, Seq<(Seq<char>, Seq<char>)>)) -> (
    Seq<char>,
    Seq<char>,
) {
    let label = otpauth_label(parts);
    match find_char_index(label, ':') {
        Option::Some(i) => (label.subrange(0, i), label.subrange(i + 1, label.len() as int)),
        Option::None => (otpauth_issuer(parts), label),
    }
}

/// The decoded secret bytes, when the URI carries a decodable secret.
pub open spec fn otpauth_secret_bytes(parts: (Seq<char>, Seq<(Seq<char>, Seq<char>)>)) -> Option<
    Seq<u8>,
> {
    match find_last_pair(parts.1, "secret"@) {
        Option::Some(sv) => base32_decode_of(sv),
        Option::None => Option::None,
    }
}

/// The digit count: the URI's readable `digits` value, else 6.
pub open spec fn otpauth_digits(parts: (Seq<char>, Seq<(Seq<char>, Seq<char>)>)) -> int {
    match find_last_pair(parts.1, "digits"@) {
        Option::None => 6,
        Option::Some(sv) => if readable_decimal(sv) {
            decimal_value(decimal_digits(sv))
        } else {
            6
        },
    }
}

/// The step duration: the URI's readable `period` value, else 30.
pub open spec fn otpauth_period(parts: (Seq<char>, Seq<(Seq<char>, Seq<char>)>)) -> int {
    match find_last_pair(parts.1, "period"@) {
        Option::None => 30,
        Option::Some(sv) => if readable_decimal(sv) {
            decimal_value(decimal_digits(sv))
        } else {
            30
        },
    }
}

/// The named algorithm, defaulting to SHA-1.
pub open spec fn otpauth_algorithm(parts: (Seq<char>, Seq<(Seq<char>, Seq<char>)>)) -> TotpAlgorithm {
    algorithm_of(find_last_pair(parts.1, "algorithm"@))
}

/// The URI-level checks: a secret is present and decodes, and a nonempty
/// issuer agrees with the account the label names.
pub open spec fn otpauth_parts_ok(parts: (Seq<char>, Seq<(Seq<char>, Seq<char>)>)) -> bool {
    &&& find_last_pair(parts.1, "secret"@) is Some
    &&& otpauth_secret_bytes(parts) is Some
    &&& (otpauth_issuer(parts).len() == 0 || otpauth_account_username(parts).0 == otpauth_issuer(
        parts,
    ))
}

/// Everything `add_account` needs of a URI before the generator itself is
/// constructed.
#[derive(Debug)]
pub struct OtpAuthParams {
    pub account: String,
    pub username: String,
    pub algorithm: TotpAlgorithm,
    pub digits: u64,
    pub period: u64,
    pub secret: Vec<u8>,
}

/// Make every URI-level decision over the split URI: which query pair
/// wins, the label split, the defaults for absent or unreadable fields,
/// and the issuer agreement check. Each error names its cause exactly as
/// the registry reports it.
pub fn parse_otpauth_parts(uri: &ParsedUri) -> (r: Result<OtpAuthParams, String>)
    ensures
        ({
            let parts = (uri.path@, pair_views(uri.pairs@));
            &&& r is Ok <==> otpauth_parts_ok(parts)
            &&& r matches Ok(o) ==> {
                &&& o.account@ == otpauth_account_username(parts).0
                &&& o.username@ == otpauth_account_username(parts).1
                &&& o.algorithm == otpauth_algorithm(parts)
                &&& o.digits == otpauth_digits(parts)
                &&& o.period == otpauth_period(parts)
                &&& o.secret@ == (otpauth_secret_bytes(parts)->0)
            }
            &&& r matches Err(m) ==> {
                &&& find_last_pair(parts.1, "secret"@) is None ==> m@ == "Missing secret"@
                &&& (find_last_pair(parts.1, "secret"@) is Some && otpauth_secret_bytes(parts)
                    is None) ==> m@ == "Invalid base32 secret"@
                &&& otpauth_secret_bytes(parts) is Some ==> m@
                    == "Issuer mismatch between label and parameter"@
            }
        }),
{
    let issuer: String = match lookup_query(&uri.pairs, "issuer") {
        Some(v) => v,
        None => "".to_owned(),
    };
    let secret_b32: String = match lookup_query(&uri.pairs, "secret") {
        Some(v) => v,
        None => {
            return Err("Missing secret".to_owned());
        },
    };
    let secret: Vec<u8> = match base32_decode_rfc4648(secret_b32.as_str()) {
        Some(v) => v,
        None => {
            return Err("Invalid base32 secret".to_owned());
        },
    };
    let algorithm = algorithm_from_value(&lookup_query(&uri.pairs, "algorithm"));
    let digits: u64 = match lookup_query(&uri.pairs, "digits") {
        Some(v) => match parse_decimal_u64(v.as_str()) {
            Some(d) => d,
            None => 6,
        },
        None => 6,
    };
    let period: u64 = match lookup_query(&uri.pairs, "period") {
        Some(v) => match parse_decimal_u64(v.as_str()) {
            Some(d) => d,
            None => 30,
        },
        None => 30,
    };
    let label: &str = strip_leading_slashes_exec(uri.path.as_str());
    let split = find_char(label, ':');
    proof {
        lemma_find_char_index_spec(label@, ':');
    }
    let (account, username): (String, String) = match split {
        Some(i) => {
            let n = label.unicode_len();
            (label.substring_char(0, i).to_owned(), label.substring_char(i + 1, n).to_owned())
        },
        None => (issuer.clone(), label.to_owned()),
    };
    if !issuer.as_str().is_empty() && !account.eq(&issuer) {
        return Err("Issuer mismatch between label and parameter".to_owned());
    }
    Ok(OtpAuthParams { account, username, algorithm, digits, period, secret })
}

/// Whether a URI, taken as a whole, yields a registrable account: it
/// parses, its URI-level checks pass, and the generator accepts its digit
/// count and secret length.
pub open spec fn otpauth_acceptable(s: Seq<char>) -> bool {
    match uri_parts_of(s) {
        Option::None => false,
        Option::Some(parts) => {
            &&& otpauth_parts_ok(parts)
            &&& otpauth_period(parts) >= 1
            &&& 6 <= otpauth_digits(parts) <= 8
            &&& (otpauth_secret_bytes(parts)->0).len() >= 16
        },
    }
}

impl AppState {
    /// An empty registry, handing out identifiers from zero.
    pub fn new() -> (s: AppState)
        ensures
            s.accounts@.len() == 0,
            s.next_id == 0,
            s.generators_valid(),
    {
        AppState { accounts: Vec::new(), next_id: 0 }
    }
}

/// Register the account an `otpauth://` URI describes. Succeeds exactly
/// on acceptable URIs; an accepted account is appended with the next
/// identifier and the default icon, and nothing changes on failure. A URI
/// naming a zero period is rejected: the generator divides by its step.
pub fn add_account(state: &mut AppState, otpauth: &str) -> (r: Result<(), String>)
    requires
        old(state).next_id < u32::MAX,
        old(state).generators_valid(),
    ensures
        final(state).generators_valid(),
        r is Ok <==> otpauth_acceptable(otpauth@),
        r is Err ==> final(state).accounts == old(state).accounts && final(state).next_id == old(
            state,
        ).next_id,
        r is Ok ==> ({
            let parts = uri_parts_of(otpauth@)->0;
            &&& final(state).next_id == old(state).next_id + 1
            &&& final(state).accounts@.len() == old(state).accounts@.len() + 1
            &&& final(state).accounts@.subrange(0, old(state).accounts@.len() as int) == old(
                state,
            ).accounts@
            &&& final(state).accounts@.last().id == old(state).next_id
            &&& final(state).accounts@.last().icon@ == "/icons/default.svg"@
            &&& final(state).accounts@.last().account@ == otpauth_account_username(parts).0
            &&& final(state).accounts@.last().username@ == otpauth_account_username(parts).1
        }),
        r matches Err(m) ==> {
            &&& uri_parts_of(otpauth@) is None ==> m@ == "invalid otpauth URI"@
            &&& uri_parts_of(otpauth@) matches Some(parts) ==> {
                &&& find_last_pair(parts.1, "secret"@) is None ==> m@ == "Missing secret"@
                &&& (find_last_pair(parts.1, "secret"@) is Some && otpauth_secret_bytes(parts)
                    is None) ==> m@ == "Invalid base32 secret"@
                &&& (otpauth_secret_bytes(parts) is Some && !otpauth_parts_ok(parts)) ==> m@
                    == "Issuer mismatch between label and parameter"@
                &&& (otpauth_parts_ok(parts) && otpauth_period(parts) == 0) ==> m@
                    == "Invalid period"@
            }
        },
{
    let parsed = match parse_uri(otpauth) {
        Some(p) => p,
        None => {
            return Err("invalid otpauth URI".to_owned());
        },
    };
    let params = match parse_otpauth_parts(&parsed) {
        Ok(p) => p,
        Err(m) => {
            return Err(m);
        },
    };
    if params.period == 0 {
        return Err("Invalid period".to_owned());
    }
    let ghost secret_view = params.secret@;
    let totp = match totp_new(params.algorithm, params.digits, 1, params.period, params.secret) {
        Ok(t) => t,
        Err(m) => {
            return Err(m);
        },
    };
    let id = state.next_id;
    state.next_id = state.next_id + 1;
    let ghost before = state.accounts@;
    state.accounts.push(
        Account {
            id,
            icon: "/icons/default.svg".to_owned(),
            account: params.account,
            username: params.username,
            totp,
        },
    );
    proof {
        assert(state.accounts@.subrange(0, before.len() as int) =~= before);
        assert forall|i: int|
            0 <= i < state.accounts@.len() implies state.accounts@[i].totp.step_spec() >= 1 by {
            if i < before.len() {
                assert(state.accounts@[i] == before[i]);
            }
        }
    }
    Ok(())
}

/// The registry without any account carrying `id`, order kept.
pub open spec fn retain_without_id(accounts: Seq<Account>, id: u32) -> Seq<Account>
    decreases accounts.len(),
{
    if accounts.len() == 0 {
        accounts
    } else {
        let rest = retain_without_id(accounts.drop_first(), id);
        if accounts[0].id == id {
            rest
        } else {
            seq![accounts[0]] + rest
        }
    }
}

/// How many accounts carry `id`.
pub open spec fn removed_count(accounts: Seq<Account>, id: u32) -> nat
    decreases accounts.len(),
{
    if accounts.len() == 0 {
        0
    } else {
        removed_count(accounts.drop_first(), id) + if accounts[0].id == id {
            1nat
        } else {
            0nat
        }
    }
}

/// Retention keeps only accounts that were already stored, so a property
/// of every stored generator survives a deletion.
proof fn lemma_retain_keeps_valid_generators(accounts: Seq<Account>, id: u32)
    requires
        forall|i: int| 0 <= i < accounts.len() ==> accounts[i].totp.step_spec() >= 1,
    ensures
        forall|i: int|
            0 <= i < retain_without_id(accounts, id).len() ==> retain_without_id(accounts, id)[i]
                .totp.step_spec() >= 1,
    decreases accounts.len(),
{
    if accounts.len() > 0 {
        let rest = accounts.drop_first();
        assert forall|i: int| 0 <= i < rest.len() implies rest[i].totp.step_spec() >= 1 by {
            assert(rest[i] == accounts[i + 1]);
        }
        lemma_retain_keeps_valid_generators(rest, id);
        if accounts[0].id != id {
            let rem = retain_without_id(accounts, id);
            assert(rem == seq![accounts[0]] + retain_without_id(rest, id));
            assert forall|i: int| 0 <= i < rem.len() implies rem[i].totp.step_spec() >= 1 by {
                if i == 0 {
                    assert(rem[0] == accounts[0]);
                } else {
                    assert(rem[i] == retain_without_id(rest, id)[i - 1]);
                }
            }
        }
    }
}

/// Remove every account carrying `id`. Succeeds exactly when at least one
/// did; the rest keep their order, and the identifier counter stands.
pub fn delete_account(state: &mut AppState, id: u32) -> (r: Result<(), String>)
    requires
        old(state).generators_valid(),
    ensures
        final(state).generators_valid(),
        final(state).next_id == old(state).next_id,
        final(state).accounts@ == retain_without_id(old(state).accounts@, id),
        r is Ok <==> removed_count(old(state).accounts@, id) > 0,
        r matches Err(m) ==> m@ == "Account not found"@,
{
    let ghost orig = state.accounts@;
    let mut removed: usize = 0;
    let mut k: usize = state.accounts.len();
    proof {
        assert(orig.subrange(k as int, orig.len() as int) =~= Seq::<Account>::empty());
        assert(state.accounts@ =~= orig.subrange(0, k as int) + retain_without_id(
            orig.subrange(k as int, orig.len() as int),
            id,
        ));
    }
    while k > 0
        invariant
            orig.len() <= usize::MAX,
            0 <= k <= orig.len(),
            removed <= orig.len() - k,
            state.next_id == old(state).next_id,
            state.accounts@ == orig.subrange(0, k as int) + retain_without_id(
                orig.subrange(k as int, orig.len() as int),
                id,
            ),
            removed == removed_count(orig.subrange(k as int, orig.len() as int), id),
        decreases k,
    {
        k = k - 1;
        proof {
            let suffix1 = orig.subrange(k + 1, orig.len() as int);
            let suffix0 = orig.subrange(k as int, orig.len() as int);
            assert(suffix0.drop_first() =~= suffix1);
            assert(suffix0[0] == orig[k as int]);
            assert(state.accounts@[k as int] == orig[k as int]);
        }
        if state.accounts[k].id == id {
            let ghost before = state.accounts@;
            let _ = state.accounts.remove(k);
            removed = removed + 1;
            proof {
                let suffix1 = orig.subrange(k + 1, orig.len() as int);
                let suffix0 = orig.subrange(k as int, orig.len() as int);
                assert(state.accounts@ =~= orig.subrange(0, k as int) + retain_without_id(
                    suffix1,
                    id,
                ));
                assert(retain_without_id(suffix0, id) == retain_without_id(suffix1, id));
            }
        } else {
            proof {
                let suffix1 = orig.subrange(k + 1, orig.len() as int);
                let suffix0 = orig.subrange(k as int, orig.len() as int);
                assert(retain_without_id(suffix0, id) == seq![orig[k as int]] + retain_without_id(
                    suffix1,
                    id,
                ));
                assert(orig.subrange(0, k + 1) + retain_without_id(suffix1, id) =~= orig.subrange(
                    0,
                    k as int,
                ) + retain_without_id(suffix0, id));
            }
        }
    }
    proof {
        assert(orig.subrange(0, orig.len() as int) =~= orig);
        assert(orig.subrange(0, 0) + retain_without_id(orig, id) =~= retain_without_id(orig, id));
        lemma_retain_keeps_valid_generators(orig, id);
    }
    if removed > 0 {
        Ok(())
    } else {
        Err("Account not found".to_owned())
    }
}

/// The code column an entry shows for a generation outcome: the code
/// itself, or an empty string where the generator reported a clock error.
pub fn code_or_empty(outcome: Result<String, String>) -> (r: String)
    ensures
        outcome matches Ok(c) ==> r@ == c@,
        outcome is Err ==> r@ == ""@,
{
    match outcome {
        Ok(c) => c,
        Err(_) => "".to_owned(),
    }
}

/// Every account with its current one-time code. The metadata is carried
/// over field for field; the code comes from the clock-dependent outside
/// generator, through `code_or_empty`.
pub fn get_accounts_with_codes(state: &AppState) -> (r: Vec<Entry>)
    requires
        state.generators_valid(),
    ensures
        r@.len() == state.accounts@.len(),
        forall|i: int|
            0 <= i < r@.len() ==> {
                &&& r@[i].id == state.accounts@[i].id
                &&& r@[i].icon@ == state.accounts@[i].icon@
                &&& r@[i].account@ == state.accounts@[i].account@
                &&& r@[i].username@ == state.accounts@[i].username@
            },
{
    let mut out: Vec<Entry> = Vec::new();
    let mut k: usize = 0;
    while k < state.accounts.len()
        invariant
            state.generators_valid(),
            0 <= k <= state.accounts@.len(),
            out@.len() == k,
            forall|i: int|
                0 <= i < k ==> {
                    &&& out@[i].id == state.accounts@[i].id
                    &&& out@[i].icon@ == state.accounts@[i].icon@
                    &&& out@[i].account@ == state.accounts@[i].account@
                    &&& out@[i].username@ == state.accounts@[i].username@
                },
        decreases state.accounts@.len() - k,
    {
        let code: String = code_or_empty(totp_generate_current(&state.accounts[k].totp));
        out.push(
            Entry {
                id: state.accounts[k].id,
                icon: state.accounts[k].icon.clone(),
                account: state.accounts[k].account.clone(),
                username: state.accounts[k].username.clone(),
                code,
            },
        );
        k = k + 1;
    }
    out
}

} // verus!
