use vstd::prelude::*;
use argon2::password_hash::{PasswordHash, PasswordHasher, PasswordVerifier, SaltString};
use argon2::password_hash::rand_core::{OsRng, RngCore};

verus! {

/// Memory cost of a new hash, in KiB (16 MiB).
pub const HASH_MEMORY_KIB: u32 = 16384;

/// Passes over memory of a new hash.
pub const HASH_ITERATIONS: u32 = 8;

/// Lanes of a new hash.
pub const HASH_LANES: u32 = 1;

/// Digest length of a new hash, in bytes.
pub const HASH_OUTPUT_LEN: usize = 64;

/// Argon2 version 0x13.
pub const HASH_VERSION: u32 = 19;

/// Salt length of a new hash, in bytes.
pub const SALT_LEN: usize = 16;

/// The shortest salt that Argon2 takes, in bytes.
pub const MIN_SALT_LEN: usize = 8;

/// The decimal digit `d`.
pub open spec fn digit(d: nat) -> char {
    if d == 0 {
        '0'
    } else if d == 1 {
        '1'
    } else if d == 2 {
        '2'
    } else if d == 3 {
        '3'
    } else if d == 4 {
        '4'
    } else if d == 5 {
        '5'
    } else if d == 6 {
        '6'
    } else if d == 7 {
        '7'
    } else if d == 8 {
        '8'
    } else {
        '9'
    }
}

/// `n` written in decimal, without leading zeros.
pub open spec fn decimal(n: nat) -> Seq<char>
    decreases n,
{
    if n < 10 {
        seq![digit(n)]
    } else {
        decimal(n / 10).push(digit(n % 10))
    }
}

/// The start of a PHC string: algorithm, version and the three costs, up to
/// the separator before the salt.
pub open spec fn phc_prefix(algorithm: Seq<char>, version: nat, m_cost: nat, t_cost: nat, p_cost: nat) -> Seq<char> {
    "$"@ + algorithm + "$v="@ + decimal(version) + "$m="@ + decimal(m_cost) + ",t="@ + decimal(t_cost)
        + ",p="@ + decimal(p_cost) + "$"@
}

/// `s` starts with `prefix`.
pub open spec fn begins_with(s: Seq<char>, prefix: Seq<char>) -> bool {
    prefix.len() <= s.len() && s.take(prefix.len() as int) == prefix
}

/// The start of every hash this library makes.
pub open spec fn argon2id_prefix() -> Seq<char> {
    "$argon2id$v=19$m=16384,t=8,p=1$"@
}

/// The PHC string of the Argon2 hash of `password` under `salt` with these
/// parameters, or `None` when the hasher refuses them.
pub uninterp spec fn argon2_phc(
    password: Seq<char>,
    salt: Seq<u8>,
    algorithm: Seq<char>,
    version: u32,
    m_cost: u32,
    t_cost: u32,
    p_cost: u32,
    output_len: usize,
) -> Option<Seq<char>>;

/// `password` matches the PHC string `phc`: the string parses, and hashing
/// `password` with the algorithm, version, parameters and salt that it names
/// gives its digest.
pub uninterp spec fn phc_accepts(password: Seq<char>, phc: Seq<char>) -> bool;

/// Relies on OsRng's try_fill_bytes: `len` bytes from the operating system's
/// random source, or `None` when that source fails.
#[verifier::external_body]
fn draw_salt(len: usize) -> (r: Option<Vec<u8>>)
    ensures
        r matches Some(s) ==> s@.len() == len,
{
    let mut bytes = vec![0u8; len];
    OsRng.try_fill_bytes(&mut bytes).ok()?;
    Some(bytes)
}

/// Relies on SaltString::encode_b64 and argon2's Argon2::hash_password, which
/// is deterministic in its inputs, and on PasswordHash's PHC string form
/// (`$<algorithm>$v=<version>$m=<m>,t=<t>,p=<p>$<salt>$<digest>`). The string
/// names algorithm, version, parameters and salt, so verifying the same
/// password against it succeeds. A salt of one or two bytes makes
/// SaltString panic, so salts shorter than Argon2's minimum are left out.
#[verifier::external_body]
fn argon2_hash_phc(
    password: &str,
    salt: &[u8],
    algorithm: &str,
    version: u32,
    m_cost: u32,
    t_cost: u32,
    p_cost: u32,
    output_len: usize,
) -> (r: Option<String>)
    requires
        salt@.len() >= MIN_SALT_LEN,
    ensures
        r is Some <==> argon2_phc(password@, salt@, algorithm@, version, m_cost, t_cost, p_cost, output_len) is Some,
        r matches Some(h) ==> argon2_phc(password@, salt@, algorithm@, version, m_cost, t_cost, p_cost, output_len) == Some(h@),
        r matches Some(h) ==> phc_accepts(password@, h@),
        r matches Some(h) ==> begins_with(h@, phc_prefix(algorithm@, version as nat, m_cost as nat, t_cost as nat, p_cost as nat)),
{
    let salt = SaltString::encode_b64(salt).ok()?;
    let algorithm = argon2::Algorithm::new(algorithm).ok()?;
    let version = argon2::Version::try_from(version).ok()?;
    let params = argon2::Params::new(m_cost, t_cost, p_cost, Some(output_len)).ok()?;
    let argon = argon2::Argon2::new(algorithm, version, params);
    let hash = argon.hash_password(password.as_bytes(), &salt).ok()?;
    Some(hash.to_string())
}

/// Relies on PasswordHash::new and argon2's PasswordVerifier::verify_password,
/// which takes algorithm, version, parameters and salt from the PHC string, so
/// the result depends on the two strings alone. A string that is empty or does
/// not start with `$` does not parse.
#[verifier::external_body]
fn argon2_verify_phc(password: &str, phc: &str) -> (r: bool)
    ensures
        r == phc_accepts(password@, phc@),
        (phc@.len() == 0 || phc@[0] != '$') ==> !r,
{
    match PasswordHash::new(phc) {
        Ok(parsed) => argon2::Argon2::default().verify_password(password.as_bytes(), &parsed).is_ok(),
        Err(_) => false,
    }
}

proof fn lemma_argon2id_prefix()
    ensures
        phc_prefix(
            "argon2id"@,
            HASH_VERSION as nat,
            HASH_MEMORY_KIB as nat,
            HASH_ITERATIONS as nat,
            HASH_LANES as nat,
        ) == argon2id_prefix(),
{
    reveal_strlit("$");
    reveal_strlit("argon2id");
    reveal_strlit("$v=");
    reveal_strlit("$m=");
    reveal_strlit(",t=");
    reveal_strlit(",p=");
    reveal_strlit("$argon2id$v=19$m=16384,t=8,p=1$");
    reveal_with_fuel(decimal, 6);
    assert(decimal(19) =~= seq!['1', '9']);
    assert(decimal(16384) =~= seq!['1', '6', '3', '8', '4']);
    assert(decimal(8) =~= seq!['8']);
    assert(decimal(1) =~= seq!['1']);
    assert(phc_prefix("argon2id"@, 19, 16384, 8, 1) =~= argon2id_prefix());
}

/// Hashes a password under the given salt with Argon2id, version 0x13,
/// 16 MiB of memory, 8 passes, one lane and a 64-byte digest. The result is a
/// function of the password and the salt; `None` for a salt shorter than
/// 8 bytes, and when the hasher refuses the inputs (a salt longer than it
/// encodes, a password longer than it takes).
pub fn hash_password_with_salt(password: &str, salt: &[u8]) -> (r: Option<String>)
    ensures
        salt@.len() < MIN_SALT_LEN ==> r is None,
        r is Some <==> salt@.len() >= MIN_SALT_LEN && argon2_phc(password@, salt@, "argon2id"@, HASH_VERSION, HASH_MEMORY_KIB, HASH_ITERATIONS, HASH_LANES, HASH_OUTPUT_LEN) is Some,
        r matches Some(h) ==> argon2_phc(password@, salt@, "argon2id"@, HASH_VERSION, HASH_MEMORY_KIB, HASH_ITERATIONS, HASH_LANES, HASH_OUTPUT_LEN) == Some(h@),
        r matches Some(h) ==> phc_accepts(password@, h@),
        r matches Some(h) ==> begins_with(h@, argon2id_prefix()),
{
    proof {
        lemma_argon2id_prefix();
    }
    if salt.len() < MIN_SALT_LEN {
        return None;
    }
    argon2_hash_phc(
        password,
        salt,
        "argon2id",
        HASH_VERSION,
        HASH_MEMORY_KIB,
        HASH_ITERATIONS,
        HASH_LANES,
        HASH_OUTPUT_LEN,
    )
}

/// Hashes a password as [`hash_password_with_salt`] does, under a fresh
/// random salt of 16 bytes. The result is a PHC string that starts with
/// `$argon2id$v=19$m=16384,t=8,p=1$` and that [`verify_password`] accepts for
/// the same password. `None` when the random source fails or the hasher
/// refuses the password.
pub fn generate_password_hash(password: &str) -> (r: Option<String>)
    ensures
        r matches Some(h) ==> exists|salt: Seq<u8>|
            salt.len() == SALT_LEN && #[trigger] argon2_phc(password@, salt, "argon2id"@, HASH_VERSION, HASH_MEMORY_KIB, HASH_ITERATIONS, HASH_LANES, HASH_OUTPUT_LEN) == Some(h@),
        r matches Some(h) ==> phc_accepts(password@, h@),
        r matches Some(h) ==> begins_with(h@, argon2id_prefix()),
{
    let salt = match draw_salt(SALT_LEN) {
        Some(s) => s,
        None => return None,
    };
    hash_password_with_salt(password, salt.as_slice())
}

/// Whether `password` matches the stored PHC string `phc`. A string that does
/// not parse, among them any that is empty or does not start with `$`,
/// matches no password.
pub fn verify_password(password: &str, phc: &str) -> (r: bool)
    ensures
        r == phc_accepts(password@, phc@),
        (phc@.len() == 0 || phc@[0] != '$') ==> !r,
{
    argon2_verify_phc(password, phc)
}

} // verus!
