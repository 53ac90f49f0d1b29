//! Where the local public key is found, and what of its file is the key.
use vstd::prelude::*;
use vstd::string::StrSliceExecFns;
use vstd::utf8::encode_utf8;
use crate::error::ProvisionError;

verus! {

/// The text that `str::trim` leaves of `s`.
pub uninterp spec fn trimmed(s: Seq<char>) -> Seq<char>;

/// Relies on `str::trim`: leading and trailing whitespace removed.
#[verifier::external_body]
fn trim_text(s: &str) -> (r: &str)
    ensures
        r@ == trimmed(s@),
{
    s.trim()
}

/// The key that a key file holding `contents` gives: its text without
/// surrounding whitespace, as UTF-8 bytes.
pub open spec fn key_of(contents: Seq<char>) -> Seq<u8> {
    encode_utf8(trimmed(contents))
}

/// Takes the key out of the key file's contents. A file of whitespace alone
/// holds no key.
pub fn parse_key(contents: &str) -> (r: Result<Vec<u8>, ProvisionError>)
    ensures
        key_of(contents@).len() > 0 ==> (r matches Ok(k) && k@ == key_of(contents@)),
        key_of(contents@).len() == 0 ==> r == Err::<Vec<u8>, ProvisionError>(
            ProvisionError::KeyEmpty,
        ),
{
    let t = trim_text(contents);
    let bytes = t.as_bytes();
    if bytes.len() == 0 {
        Err(ProvisionError::KeyEmpty)
    } else {
        Ok(vstd::slice::slice_to_vec(bytes))
    }
}

/// The key file's location under the home directory.
pub const DEFAULT_KEY_FILE: &'static str = ".ssh/id_rsa.pub";

/// The default key file under `home`: one separator between the two, none
/// added when `home` is empty or already ends in one.
pub open spec fn default_key_path_of(home: Seq<char>) -> Seq<char> {
    if home.len() == 0 || home.last() == '/' {
        home + DEFAULT_KEY_FILE@
    } else {
        home + seq!['/'] + DEFAULT_KEY_FILE@
    }
}

/// The key file to read: the one given, or else the default one under the
/// home directory.
pub fn resolve_key_path(given: Option<String>, home: Option<String>) -> (r: Result<
    String,
    ProvisionError,
>)
    ensures
        given matches Some(p) ==> (r matches Ok(q) && q@ == p@),
        given is None ==> (home matches Some(h) ==> (r matches Ok(q) && q@ == default_key_path_of(
            h@,
        ))),
        given is None && home is None ==> r == Err::<String, ProvisionError>(
            ProvisionError::HomeNotFound,
        ),
{
    match given {
        Some(p) => Ok(p),
        None => match home {
            None => Err(ProvisionError::HomeNotFound),
            Some(h) => {
                let n = h.as_str().unicode_len();
                let mut path = h;
                if n > 0 && path.as_str().get_char(n - 1) != '/' {
                    path.append("/");
                }
                path.append(DEFAULT_KEY_FILE);
                proof {
                    reveal_strlit("/");
                }
                Ok(path)
            },
        },
    }
}

} // verus!
