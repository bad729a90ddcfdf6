use vstd::prelude::*;
use argon2::{PasswordHasher, PasswordVerifier};
use base64::Engine;
use argon2::password_hash::rand_core::RngCore;

verus! {

/// The character for a six-bit value in the standard base64 alphabet
/// (`A`-`Z`, `a`-`z`, `0`-`9`, `+`, `/`).
pub open spec fn base64_digit(v: int) -> char {
    if v < 26 {
        (65 + v) as char
    } else if v < 52 {
        (71 + v) as char
    } else if v < 62 {
        (v - 4) as char
    } else if v == 62 {
        '+'
    } else {
        '/'
    }
}

/// The standard, padded base64 text of some bytes: each group of three
/// bytes becomes four characters of six bits each, most significant first; a
/// last group of one or two bytes is filled with zero bits and padded with
/// `=` to four characters.
pub open spec fn base64_standard(b: Seq<u8>) -> Seq<char>
    decreases b.len(),
{
    if b.len() == 0 {
        seq![]
    } else if b.len() == 1 {
        seq![base64_digit((b[0] as int) / 4), base64_digit(((b[0] as int) % 4) * 16), '=', '=']
    } else if b.len() == 2 {
        seq![
            base64_digit((b[0] as int) / 4),
            base64_digit(((b[0] as int) % 4) * 16 + (b[1] as int) / 16),
            base64_digit(((b[1] as int) % 16) * 4),
            '=',
        ]
    } else {
        seq![
            base64_digit((b[0] as int) / 4),
            base64_digit(((b[0] as int) % 4) * 16 + (b[1] as int) / 16),
            base64_digit(((b[1] as int) % 16) * 4 + (b[2] as int) / 64),
            base64_digit((b[2] as int) % 64),
        ] + base64_standard(b.skip(3))
    }
}

/// The decimal digits of a number, most significant first, with no leading zeros.
pub open spec fn decimal(n: nat) -> Seq<char>
    decreases n,
{
    if n < 10 {
        seq![(48 + n) as char]
    } else {
        decimal(n / 10).push((48 + n % 10) as char)
    }
}

/// How a PHC string of Argon2id, version 0x13, with memory cost `m`, time
/// cost `t` and parallelism `p` begins, up to its salt:
/// `$argon2id$v=19$m=<m>,t=<t>,p=<p>$`.
pub open spec fn argon2id_phc_prefix(m: nat, t: nat, p: nat) -> Seq<char> {
    "$argon2id$v=19$m="@ + decimal(m) + ",t="@ + decimal(t) + ",p="@ + decimal(p) + "$"@
}

/// Whether a text parses as a PHC password-hash string (`PasswordHash::new`).
pub uninterp spec fn phc_parses(hash: Seq<char>) -> bool;

/// Whether Argon2 accepts a password against a PHC hash string
/// (`Argon2::verify_password`, with the parameters that the string records).
pub uninterp spec fn argon2_accepts(password: Seq<char>, hash: Seq<char>) -> bool;

/// The length of a padded base64 text for `n` bytes.
pub open spec fn base64_len(n: int) -> int {
    4 * ((n + 2) / 3)
}

/// A padded base64 text has four characters for each started group of three
/// bytes, and ends in `==` after a last group of one byte, in `=` after one
/// of two.
pub proof fn lemma_base64_shape(b: Seq<u8>)
    ensures
        base64_standard(b).len() == base64_len(b.len() as int),
        b.len() % 3 == 1 ==> base64_standard(b)[base64_standard(b).len() - 1] == '='
            && base64_standard(b)[base64_standard(b).len() - 2] == '=',
        b.len() % 3 == 2 ==> base64_standard(b)[base64_standard(b).len() - 1] == '=',
    decreases b.len(),
{
    if b.len() >= 3 {
        lemma_base64_shape(b.skip(3));
    }
}

/// Fills a 64-byte buffer from the operating system's random source
/// (`OsRng::fill_bytes`). Claimed only that 64 bytes come back.
#[verifier::external_body]
pub(crate) fn random_bytes_64() -> (r: Vec<u8>)
    ensures
        r@.len() == 64,
{
    let mut buf = [0u8; 64];
    argon2::password_hash::rand_core::OsRng.fill_bytes(&mut buf);
    buf.to_vec()
}

/// Standard padded base64 of some bytes (`BASE64_STANDARD.encode`). Claimed:
/// the result is `base64_standard` of the bytes, the standard alphabet with
/// `=` padding that the crate's `STANDARD` engine (`encode_with_padding`)
/// writes. The bound on the input rules out the overflow on which `encode`
/// panics.
#[verifier::external_body]
pub(crate) fn base64_encode(bytes: &[u8]) -> (r: String)
    requires
        bytes@.len() <= 0x1000_0000,
    ensures
        r@ == base64_standard(bytes@),
{
    base64::prelude::BASE64_STANDARD.encode(bytes)
}

/// Hashes a password with Argon2id (version 0x13) and the given costs, under
/// a fresh salt from the operating system's random source
/// (`SaltString::generate`, `Params::new`, `PasswordHasher::hash_password`),
/// and writes the PHC string. Claimed:
/// - hashing succeeds for a password of at most 0x3FFF_FFFF characters (so
///   at most 0xFFFF_FFFF bytes): with the costs that `requires` admits,
///   `verify_inputs` refuses only a longer password, and the generated salt
///   has 16 bytes;
/// - a hash that comes back parses as a PHC string and Argon2 accepts the
///   password against it, as the argon2 crate's documentation shows;
/// - it begins with `$argon2id$v=19$m=<m>,t=<t>,p=<p>$`, as `PasswordHash`'s
///   `Display` writes the algorithm, the version and the `ParamsString` that
///   `TryFrom<&Params>` fills with `m`, `t` and `p` in this order;
/// - after that prefix come the salt, 16 bytes (`Salt::RECOMMENDED_LENGTH`)
///   in unpadded B64, 22 characters, then `$` and the output, 32 bytes
///   (`Params::DEFAULT_OUTPUT_LEN`) in unpadded B64, 43 characters.
/// A failure comes back as its message. The salt, and so the rest of the
/// string, depend on chance. The `requires` holds the checks of `Params::new`,
/// whose failure the hashing would unwrap.
#[verifier::external_body]
pub(crate) fn argon2id_hash(
    password: &str,
    m_cost: u32,
    t_cost: u32,
    p_cost: u32,
) -> (r: Result<String, String>)
    requires
        1 <= p_cost <= 0xFF_FFFF,
        m_cost >= 8 * p_cost,
        t_cost >= 1,
    ensures
        password@.len() <= 0x3FFF_FFFF ==> r is Ok,
        r matches Ok(h) ==> phc_parses(h@) && argon2_accepts(password@, h@),
        r matches Ok(h) ==> argon2id_phc_prefix(m_cost as nat, t_cost as nat, p_cost as nat).is_prefix_of(h@),
        r matches Ok(h) ==> h@.len() == argon2id_phc_prefix(
            m_cost as nat,
            t_cost as nat,
            p_cost as nat,
        ).len() + 66,
{
    let salt = argon2::password_hash::SaltString::generate(&mut argon2::password_hash::rand_core::OsRng);
    let params = argon2::Params::new(m_cost, t_cost, p_cost, None).unwrap();
    let hasher = argon2::Argon2::new(argon2::Algorithm::Argon2id, argon2::Version::V0x13, params);
    hasher.hash_password(password.as_bytes(), &salt).map(|v| v.to_string()).map_err(|e| e.to_string())
}

/// Parses a PHC hash string (`PasswordHash::new`) and checks a password
/// against it with `Argon2::default().verify_password`. Claimed: an error
/// comes back exactly when the string does not parse (the empty string never
/// does, as `PasswordHash::parse` shows), and otherwise whether Argon2 accepts
/// the password. A failure comes back as its message.
#[verifier::external_body]
pub(crate) fn argon2_verify(password: &str, hash: &str) -> (r: Result<bool, String>)
    ensures
        r is Ok <==> phc_parses(hash@),
        hash@.len() == 0 ==> r is Err,
        r matches Ok(b) ==> b == argon2_accepts(password@, hash@),
{
    let parsed = argon2::password_hash::PasswordHash::new(hash).map_err(|e| e.to_string())?;
    Ok(argon2::Argon2::default().verify_password(password.as_bytes(), &parsed).is_ok())
}

} // verus!
