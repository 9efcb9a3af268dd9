//! Ssh key types, key pair generation, the text forms of keys, and the
//! decision of what to do with the key files a profile already has.
use crate::num::{decimal_of, decimal_text, parse_usize, push_decimal};
use ssh_key::private::{DsaKeypair, Ed25519Keypair, RsaKeypair};
use ssh_key::public::KeyData;
use ssh_key::{LineEnding, PrivateKey, PublicKey};
use vstd::prelude::*;
use vstd::string::*;

verus! {

#[verifier::external_type_specification]
#[verifier::external_body]
pub struct ExSshKeyError(ssh_key::Error);

#[verifier::external_type_specification]
#[verifier::external_body]
pub struct ExPrivateKey(PrivateKey);

#[verifier::external_type_specification]
#[verifier::external_body]
pub struct ExPublicKey(PublicKey);

#[verifier::external_type_specification]
#[verifier::external_body]
pub struct ExKeyData(KeyData);

/// The comment of a public key, as `PublicKey::comment` gives it.
pub uninterp spec fn key_comment(k: PublicKey) -> Seq<char>;

/// The key material of a public key, its comment aside, as
/// `PublicKey::key_data` gives it.
pub uninterp spec fn key_material(k: PublicKey) -> KeyData;

/// The public half of a private key, as `PublicKey::from(&PrivateKey)` gives it.
pub uninterp spec fn public_half_of(k: PrivateKey) -> PublicKey;

/// The algorithm identifier of a private key, as
/// `PrivateKey::algorithm().as_str()` gives it (`ssh-ed25519`, ...).
pub uninterp spec fn algorithm_name(k: PrivateKey) -> Seq<char>;

/// The bit length of the modulus of an RSA private key.
pub uninterp spec fn rsa_key_bits(k: PrivateKey) -> nat;

/// The private key that `PrivateKey::from_openssh` reads from the text `t`,
/// or `None` where it refuses the text.
pub uninterp spec fn private_of_text(t: Seq<char>) -> Option<PrivateKey>;

/// The OpenSSH text of a private key with `LF` line endings, as
/// `PrivateKey::to_openssh` writes it.
pub uninterp spec fn private_text_of(k: PrivateKey) -> Seq<char>;

/// The OpenSSH line of a public key, as `PublicKey::to_openssh` writes it.
pub uninterp spec fn public_line_of(k: PublicKey) -> Seq<char>;

/// Bit size of an RSA key whose size is not given.
pub const DEFAULT_RSA_SIZE: usize = 3072;

/// Smallest RSA key size accepted, in bits.
pub const MIN_RSA_SIZE: usize = 2048;

/// The kinds of ssh key a profile can have.
#[derive(Debug, Clone, PartialEq, Eq, Structural)]
pub enum KeyType {
    Dsa,
    Rsa { size: Option<usize> },
    Ed25519,
}

/// Why a key operation was refused.
#[derive(Debug)]
pub enum SshError {
    /// The key type text names no supported type.
    UnknownKeyType(String),
    /// Both key files exist and regeneration was not forced.
    KeyPairExists,
    /// An RSA key of this many bits is below [`MIN_RSA_SIZE`].
    InvalidRsaLength(usize),
    /// The ssh key library refused the key.
    LibSsh(ssh_key::Error),
}

/// The result of `str::to_lowercase` on `s`.
pub uninterp spec fn lower_of(s: Seq<char>) -> Seq<char>;

/// Relies on `str::to_lowercase`: the lower-case form depends on the
/// characters alone.
#[verifier::external_body]
fn lowercase(s: &str) -> (r: String)
    ensures
        r@ == lower_of(s@),
{
    s.to_lowercase()
}

/// The key type that a lower-case key type text names: `dsa`, `ed25519`, or
/// `rsa` followed by an optional bit size (`rsa4096`). Text after `rsa` that
/// is no size leaves the size out.
pub open spec fn key_type_of(s: Seq<char>) -> Option<KeyType> {
    if s == "dsa"@ {
        Some(KeyType::Dsa)
    } else if s.len() >= 3 && s.subrange(0, 3) == "rsa"@ {
        Some(KeyType::Rsa { size: decimal_of(s.subrange(3, s.len() as int)) })
    } else if s == "ed25519"@ {
        Some(KeyType::Ed25519)
    } else {
        None
    }
}

/// The bit size of an RSA key with the given size setting.
pub open spec fn rsa_bits(size: Option<usize>) -> usize {
    match size {
        Some(s) => s,
        None => DEFAULT_RSA_SIZE,
    }
}

/// The algorithm identifier of the keys generated for a key type.
pub open spec fn algorithm_of_kind(k: KeyType) -> Seq<char> {
    match k {
        KeyType::Dsa => "ssh-dss"@,
        KeyType::Rsa { .. } => "ssh-rsa"@,
        KeyType::Ed25519 => "ssh-ed25519"@,
    }
}

/// Header of the randomart picture of a key of this type.
pub open spec fn header_text(k: KeyType) -> Seq<char> {
    match k {
        KeyType::Dsa => "DSA 1024"@,
        KeyType::Rsa { size } => "RSA "@ + decimal_text(rsa_bits(size) as nat),
        KeyType::Ed25519 => "ED25519"@,
    }
}

/// Short lower-case name of a key type.
pub open spec fn kind_name(k: KeyType) -> Seq<char> {
    match k {
        KeyType::Dsa => "dsa"@,
        KeyType::Rsa { .. } => "rsa"@,
        KeyType::Ed25519 => "ed25519"@,
    }
}

fn same_text(a: &str, b: &str) -> (r: bool)
    ensures
        r == (a@ == b@),
{
    String::from_str(a) == String::from_str(b)
}

impl KeyType {
    /// Reads a key type from text that is already lower case.
    pub fn parse_lowered(s: &str) -> (r: Result<KeyType, SshError>)
        ensures
            match key_type_of(s@) {
                Some(k) => r == Ok::<KeyType, SshError>(k),
                None => r matches Err(SshError::UnknownKeyType(t)) && t@ == s@,
            },
    {
        if same_text(s, "dsa") {
            return Ok(KeyType::Dsa);
        }
        let n = s.unicode_len();
        if n >= 3 && same_text(s.substring_char(0, 3), "rsa") {
            let size = parse_usize(s.substring_char(3, n));
            return Ok(KeyType::Rsa { size });
        }
        if same_text(s, "ed25519") {
            return Ok(KeyType::Ed25519);
        }
        Err(SshError::UnknownKeyType(String::from_str(s)))
    }

    /// Reads a key type from text in any case: `dsa`, `ed25519`, `rsa`,
    /// `rsa<size>`.
    pub fn parse(arg: &str) -> (r: Result<KeyType, SshError>)
        ensures
            match key_type_of(lower_of(arg@)) {
                Some(k) => r == Ok::<KeyType, SshError>(k),
                None => r matches Err(SshError::UnknownKeyType(t)) && t@ == lower_of(arg@),
            },
    {
        let lowered = lowercase(arg);
        KeyType::parse_lowered(lowered.as_str())
    }

    /// Short lower-case name: `dsa`, `rsa` or `ed25519`.
    pub fn name(&self) -> (r: &'static str)
        ensures
            r@ == kind_name(*self),
    {
        match self {
            KeyType::Dsa => "dsa",
            KeyType::Rsa { .. } => "rsa",
            KeyType::Ed25519 => "ed25519",
        }
    }
}

/// Gives the header line of a key's randomart picture.
pub trait RandomArtHeader {
    fn random_art_header(&self) -> String;
}

impl RandomArtHeader for KeyType {
    /// `DSA 1024`, `RSA <bits>` or `ED25519`.
    fn random_art_header(&self) -> (r: String)
        ensures
            r@ == header_text(*self),
    {
        match self {
            KeyType::Dsa => String::from_str("DSA 1024"),
            KeyType::Rsa { size } => {
                let bits = match size {
                    Some(s) => *s,
                    None => DEFAULT_RSA_SIZE,
                };
                let mut r = String::from_str("RSA ");
                push_decimal(&mut r, bits);
                r
            },
            KeyType::Ed25519 => String::from_str("ED25519"),
        }
    }
}

/// Relies on `DsaKeypair::random` with rand's thread-local generator, the
/// key pair turned into a `PrivateKey`.
#[verifier::external_body]
fn random_dsa() -> (r: Result<PrivateKey, ssh_key::Error>)
    ensures
        r matches Ok(k) ==> algorithm_name(k) == "ssh-dss"@,
{
    DsaKeypair::random(&mut rand::thread_rng()).map(PrivateKey::from)
}

/// Relies on `RsaKeypair::random` with rand's thread-local generator, the
/// key pair turned into a `PrivateKey`; rsa's generator draws primes until
/// the modulus has exactly `bits` bits.
#[verifier::external_body]
fn random_rsa(bits: usize) -> (r: Result<PrivateKey, ssh_key::Error>)
    ensures
        r matches Ok(k) ==> algorithm_name(k) == "ssh-rsa"@ && rsa_key_bits(k) == bits,
{
    RsaKeypair::random(&mut rand::thread_rng(), bits).map(PrivateKey::from)
}

/// Relies on `Ed25519Keypair::random` with rand's thread-local generator,
/// the key pair turned into a `PrivateKey`.
#[verifier::external_body]
fn random_ed25519() -> (r: PrivateKey)
    ensures
        algorithm_name(r) == "ssh-ed25519"@,
{
    PrivateKey::from(Ed25519Keypair::random(&mut rand::thread_rng()))
}

/// Relies on `PublicKey::from(&PrivateKey)`: the public half of a private key.
#[verifier::external_body]
fn public_half(private: &PrivateKey) -> (r: PublicKey)
    ensures
        r == public_half_of(*private),
{
    PublicKey::from(private)
}

/// Relies on `PublicKey::set_comment`, which replaces the comment and
/// nothing else.
#[verifier::external_body]
fn set_comment(key: &mut PublicKey, comment: &str)
    ensures
        key_comment(*final(key)) == comment@,
        key_material(*final(key)) == key_material(*old(key)),
{
    key.set_comment(comment)
}

/// Relies on `PrivateKey::from_openssh`: parses the OpenSSH text of a private key.
#[verifier::external_body]
fn parse_private(text: &str) -> (r: Result<PrivateKey, ssh_key::Error>)
    ensures
        r is Ok <==> private_of_text(text@) is Some,
        r matches Ok(k) ==> private_of_text(text@) == Some(k),
{
    PrivateKey::from_openssh(text)
}

/// Relies on `PrivateKey::to_openssh` with `LF` line endings.
#[verifier::external_body]
fn encode_private(key: &PrivateKey) -> (r: Result<String, ssh_key::Error>)
    ensures
        r matches Ok(t) ==> t@ == private_text_of(*key),
{
    match key.to_openssh(LineEnding::LF) {
        Ok(text) => Ok(String::from(text.as_str())),
        Err(e) => Err(e),
    }
}

/// Relies on `PublicKey::to_openssh`.
#[verifier::external_body]
fn encode_public(key: &PublicKey) -> (r: Result<String, ssh_key::Error>)
    ensures
        r matches Ok(t) ==> t@ == public_line_of(*key),
{
    key.to_openssh()
}

/// The public half of `private`, carrying `comment`.
fn public_with_comment(private: &PrivateKey, comment: &str) -> (r: PublicKey)
    ensures
        key_comment(r) == comment@,
        key_material(r) == key_material(public_half_of(*private)),
{
    let mut public = public_half(private);
    set_comment(&mut public, comment);
    public
}

/// Generates a key pair of the given type; the public key carries `email` as
/// its comment. An RSA size below [`MIN_RSA_SIZE`] is refused before any key
/// is made; an RSA key without a size gets [`DEFAULT_RSA_SIZE`] bits. An
/// Ed25519 key is always made; DSA and RSA generation may fail in the ssh
/// key library.
pub fn pair(email: &str, key_type: &KeyType) -> (r: Result<(PrivateKey, PublicKey), SshError>)
    ensures
        match *key_type {
            KeyType::Rsa { size } => if rsa_bits(size) < MIN_RSA_SIZE {
                r matches Err(SshError::InvalidRsaLength(n)) && n == rsa_bits(size)
            } else {
                r is Ok || r matches Err(SshError::LibSsh(_))
            },
            KeyType::Dsa => r is Ok || r matches Err(SshError::LibSsh(_)),
            KeyType::Ed25519 => r is Ok,
        },
        r matches Ok(p) ==> key_comment(p.1) == email@ && key_material(p.1) == key_material(
            public_half_of(p.0),
        ) && algorithm_name(p.0) == algorithm_of_kind(*key_type),
        match *key_type {
            KeyType::Rsa { size } => r matches Ok(p) ==> rsa_key_bits(p.0) == rsa_bits(size),
            _ => true,
        },
{
    let private = match key_type {
        KeyType::Dsa => match random_dsa() {
            Ok(k) => k,
            Err(e) => return Err(SshError::LibSsh(e)),
        },
        KeyType::Rsa { size } => {
            let bits = match size {
                Some(s) => *s,
                None => DEFAULT_RSA_SIZE,
            };
            if bits < MIN_RSA_SIZE {
                return Err(SshError::InvalidRsaLength(bits));
            }
            match random_rsa(bits) {
                Ok(k) => k,
                Err(e) => return Err(SshError::LibSsh(e)),
            }
        },
        KeyType::Ed25519 => random_ed25519(),
    };
    let public = public_with_comment(&private, email);
    Ok((private, public))
}

/// What deriving a public key from the text of a private key gives, as stated
/// by [`public_from_private`]: it succeeds exactly where the text is a private
/// key, and then carries that key's public material and the email.
pub open spec fn regenerated(text: Seq<char>, email: Seq<char>, r: Result<PublicKey, SshError>) -> bool {
    &&& r is Ok <==> private_of_text(text) is Some
    &&& r matches Ok(k) ==> key_comment(k) == email && key_material(k) == key_material(
        public_half_of(private_of_text(text)->Some_0),
    )
    &&& r matches Err(e) ==> e is LibSsh
}

/// A public key derived from the text of a private key has the same key
/// material as the public half taken from that private key directly, and
/// the given email as comment.
pub proof fn lemma_regenerated_matches_private(
    text: Seq<char>,
    email: Seq<char>,
    private: PrivateKey,
    r: Result<PublicKey, SshError>,
)
    requires
        private_of_text(text) == Some(private),
        regenerated(text, email, r),
    ensures
        r matches Ok(k) && key_material(k) == key_material(public_half_of(private)) && key_comment(k)
            == email,
{
}

/// Derives the public key from the OpenSSH text of an existing private key,
/// with `email` as its comment. Fails only where the text is no private key
/// that the ssh key library reads.
pub fn public_from_private(private_text: &str, email: &str) -> (r: Result<PublicKey, SshError>)
    ensures
        regenerated(private_text@, email@, r),
{
    match parse_private(private_text) {
        Ok(private) => Ok(public_with_comment(&private, email)),
        Err(e) => Err(SshError::LibSsh(e)),
    }
}

/// The OpenSSH text of a private key, with `LF` line endings, as written to
/// its key file.
pub fn private_key_text(key: &PrivateKey) -> (r: Result<String, SshError>)
    ensures
        r matches Ok(t) ==> t@ == private_text_of(*key),
        r matches Err(e) ==> e is LibSsh,
{
    match encode_private(key) {
        Ok(t) => Ok(t),
        Err(e) => Err(SshError::LibSsh(e)),
    }
}

/// The OpenSSH line of a public key followed by a line break, as written to
/// its key file.
pub fn public_key_text(key: &PublicKey) -> (r: Result<String, SshError>)
    ensures
        r matches Ok(t) ==> t@ == public_line_of(*key) + "\n"@,
        r matches Err(e) ==> e is LibSsh,
{
    match encode_public(key) {
        Ok(t) => {
            let mut t = t;
            t.append("\n");
            Ok(t)
        },
        Err(e) => Err(SshError::LibSsh(e)),
    }
}

/// What to do about a profile's key files before new keys are written.
#[derive(Debug, Clone, Copy, PartialEq, Eq, Structural)]
pub enum KeyPlan {
    /// Generate a fresh key pair.
    Generate,
    /// Keep the private key and derive the missing public key from it.
    RegeneratePublic,
}

/// Decides from which key files exist what a key set-up does. Forced, or
/// with no private key, a fresh pair is made. Otherwise a private key
/// without its public key is kept and the public key derived from it; with
/// both present the set-up is refused.
pub fn try_regenerate_pair(force: bool, private_exists: bool, public_exists: bool) -> (r: Result<KeyPlan, SshError>)
    ensures
        force || !private_exists ==> r == Ok::<KeyPlan, SshError>(KeyPlan::Generate),
        !force && private_exists && !public_exists ==> r == Ok::<KeyPlan, SshError>(KeyPlan::RegeneratePublic),
        !force && private_exists && public_exists ==> r matches Err(SshError::KeyPairExists),
{
    if !force && private_exists {
        if public_exists {
            return Err(SshError::KeyPairExists);
        }
        return Ok(KeyPlan::RegeneratePublic);
    }
    Ok(KeyPlan::Generate)
}

} // verus!
