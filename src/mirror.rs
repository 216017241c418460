//! Content mirror and drift detector: what is written to a file's mirror copy
//! and back to its live location, and whether the live file changed since it
//! was mirrored.

use vstd::prelude::*;
use crate::file::FileData;

verus! {

#[verifier::external_type_specification]
#[verifier::external_body]
pub struct ExEncryptError(age::EncryptError);

#[verifier::external_type_specification]
#[verifier::external_body]
pub struct ExDecryptError(age::DecryptError);

/// The plaintext that an age ciphertext carries under a passphrase: what
/// `age::decrypt` returns when it succeeds.
pub uninterp spec fn age_plaintext(ciphertext: Seq<u8>, passphrase: Seq<char>) -> Seq<u8>;

/// Relies on `age::encrypt` with an `age::scrypt::Recipient`: with a single
/// scrypt recipient the key wrapping succeeds and writing into a `Vec` cannot
/// fail, so it succeeds; whatever salt and nonce it draws, the ciphertext
/// carries the plaintext under the passphrase.
#[verifier::external_body]
fn age_encrypt(plaintext: &Vec<u8>, passphrase: &str) -> (r: Result<Vec<u8>, age::EncryptError>)
    ensures
        r is Ok,
        r matches Ok(c) ==> age_plaintext(c@, passphrase@) == plaintext@,
{
    let recipient = age::scrypt::Recipient::new(
        age::secrecy::SecretString::from(passphrase.to_string()),
    );
    age::encrypt(&recipient, plaintext.as_slice())
}

/// Relies on `age::decrypt` with an `age::scrypt::Identity`: when it succeeds
/// it returns the plaintext that the ciphertext carries under the passphrase. It
/// fails on a wrong passphrase or a corrupt ciphertext, and may fail where the
/// ciphertext asks for more key-derivation work than this machine allows.
#[verifier::external_body]
fn age_decrypt(ciphertext: &Vec<u8>, passphrase: &str) -> (r: Result<Vec<u8>, age::DecryptError>)
    ensures
        r matches Ok(p) ==> p@ == age_plaintext(ciphertext@, passphrase@),
{
    let identity = age::scrypt::Identity::new(
        age::secrecy::SecretString::from(passphrase.to_string()),
    );
    age::decrypt(&identity, ciphertext.as_slice())
}

/// Why a mirror copy failed.
#[derive(PartialEq, Eq, Structural, Clone, Copy, Debug)]
pub enum MirrorError {
    /// Wrong passphrase or corrupt ciphertext.
    Decryption,
}

/// `mirror` is a faithful mirror copy of `content`: the same bytes, or for
/// an encrypted file a ciphertext that carries them under `passphrase`.
pub open spec fn mirrors(encrypted: bool, content: Seq<u8>, passphrase: Seq<char>, mirror: Seq<u8>) -> bool {
    if encrypted {
        age_plaintext(mirror, passphrase) == content
    } else {
        mirror == content
    }
}

/// `restored` is what the mirror copy `mirror` holds: the same bytes, or for
/// an encrypted file the plaintext it carries under `passphrase`.
pub open spec fn restores(encrypted: bool, mirror: Seq<u8>, passphrase: Seq<char>, restored: Seq<u8>) -> bool {
    if encrypted {
        restored == age_plaintext(mirror, passphrase)
    } else {
        restored == mirror
    }
}

/// The bytes to write to the mirror path of `file_data`, given the content of
/// its system path: encrypted with `passphrase` where the file is encrypted,
/// verbatim otherwise.
pub fn copy_from_system(file_data: &FileData, content: Vec<u8>, passphrase: &str) -> (r: Vec<u8>)
    ensures
        !file_data.encrypted ==> r == content,
        mirrors(file_data.encrypted, content@, passphrase@, r@),
{
    if file_data.encrypted {
        age_encrypt(&content, passphrase).unwrap()
    } else {
        content
    }
}

/// The bytes to write to the system path of `file_data`, given the content of
/// its mirror path: decrypted with `passphrase` where the file is encrypted,
/// verbatim otherwise. A wrong passphrase or a corrupt ciphertext gives
/// `Decryption`, and then nothing is to be written.
pub fn copy_from_repo(file_data: &FileData, mirror: Vec<u8>, passphrase: &str) -> (r: Result<
    Vec<u8>,
    MirrorError,
>)
    ensures
        !file_data.encrypted ==> r == Ok::<Vec<u8>, MirrorError>(mirror),
        match r {
            Ok(s) => restores(file_data.encrypted, mirror@, passphrase@, s@),
            Err(e) => file_data.encrypted && e == MirrorError::Decryption,
        },
{
    if file_data.encrypted {
        match age_decrypt(&mirror, passphrase) {
            Ok(p) => Ok(p),
            Err(_) => Err(MirrorError::Decryption),
        }
    } else {
        Ok(mirror)
    }
}

/// Copying a file's content into the mirror and back reproduces it: byte for
/// byte for an unencrypted file, and for an encrypted one whenever the copy
/// back, with the same passphrase, succeeds.
pub proof fn law_mirror_round_trip(
    encrypted: bool,
    content: Seq<u8>,
    passphrase: Seq<char>,
    mirror: Seq<u8>,
    restored: Seq<u8>,
)
    requires
        mirrors(encrypted, content, passphrase, mirror),
        restores(encrypted, mirror, passphrase, restored),
    ensures
        restored == content,
{
}

/// What the drift detector reads of a file: its size and its modification
/// time, in nanoseconds from the Unix epoch (negative before it).
#[derive(PartialEq, Eq, Structural, Clone, Copy, Debug)]
pub struct FileStamp {
    pub len: u64,
    pub modified: i128,
}

/// Whether the system file `source` changed since it was copied to its mirror
/// `dest`: sizes that differ decide it; equal sizes leave it to the
/// modification times, a newer source meaning a change. A heuristic, not a
/// content comparison.
pub fn source_was_updated(source: &FileStamp, dest: &FileStamp) -> (r: bool)
    ensures
        r == (source.len != dest.len || source.modified > dest.modified),
        source.len != dest.len ==> r,
        source.len == dest.len && source.modified <= dest.modified ==> !r,
{
    if source.len != dest.len {
        return true;
    }
    source.modified > dest.modified
}

} // verus!
