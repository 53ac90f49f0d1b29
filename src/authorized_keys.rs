//! The content of the remote authorized-keys file, and how a key is added to it.
use vstd::prelude::*;

verus! {

/// The line separator of the file.
pub const NEWLINE: u8 = 10;

/// `pat` occurs in `text` starting at byte `i`.
pub open spec fn occurs_at(text: Seq<u8>, pat: Seq<u8>, i: int) -> bool {
    0 <= i && i + pat.len() <= text.len() && text.subrange(i, i + pat.len()) == pat
}

/// `pat` occurs somewhere in `text` as a contiguous run of bytes.
pub open spec fn contains(text: Seq<u8>, pat: Seq<u8>) -> bool {
    exists|i: int| #[trigger] occurs_at(text, pat, i)
}

/// What is appended for a key that is not yet present: a newline, the key, a newline.
pub open spec fn key_block(key: Seq<u8>) -> Seq<u8> {
    seq![NEWLINE] + key + seq![NEWLINE]
}

/// The file after provisioning `key`: unchanged when the key already occurs in
/// it, otherwise the old content followed by the key's block.
pub open spec fn provisioned(existing: Seq<u8>, key: Seq<u8>) -> Seq<u8> {
    if contains(existing, key) {
        existing
    } else {
        existing + key_block(key)
    }
}

/// A key that already occurs in the file leaves the file exactly as it was.
pub proof fn lemma_present_key_leaves_file_unchanged(existing: Seq<u8>, key: Seq<u8>)
    requires
        contains(existing, key),
    ensures
        provisioned(existing, key) == existing,
{
}

/// A key that does not occur in the file is appended once, as a newline, the
/// key and a newline, after the old content, which stays a prefix of the file.
pub proof fn lemma_absent_key_is_appended(existing: Seq<u8>, key: Seq<u8>)
    requires
        !contains(existing, key),
    ensures
        provisioned(existing, key) == existing + key_block(key),
        provisioned(existing, key).len() == existing.len() + key.len() + 2,
        provisioned(existing, key).subrange(0, existing.len() as int) == existing,
        provisioned(existing, key).subrange(existing.len() as int, provisioned(existing, key).len() as int)
            == key_block(key),
{
    let p = provisioned(existing, key);
    assert(p.subrange(0, existing.len() as int) =~= existing);
    assert(p.subrange(existing.len() as int, p.len() as int) =~= key_block(key));
}

/// After provisioning, the key occurs in the file.
pub proof fn lemma_provisioned_contains_key(existing: Seq<u8>, key: Seq<u8>)
    ensures
        contains(provisioned(existing, key), key),
{
    if !contains(existing, key) {
        let p = provisioned(existing, key);
        let at: int = existing.len() as int + 1;
        assert(p.subrange(at, at + key.len()) =~= key);
        assert(occurs_at(p, key, at));
    }
}

/// Provisioning the same key twice gives the file that one run gives.
pub proof fn lemma_provisioning_converges(existing: Seq<u8>, key: Seq<u8>)
    ensures
        provisioned(provisioned(existing, key), key) == provisioned(existing, key),
{
    lemma_provisioned_contains_key(existing, key);
}

/// What a run does to the file once its content has been read.
#[derive(Debug, PartialEq, Eq)]
pub enum KeyUpdate {
    /// The key occurs in the file already; nothing is written.
    AlreadyPresent,
    /// These bytes are appended to the file.
    Append(Vec<u8>),
}

impl KeyUpdate {
    pub open spec fn is_append_of(self, bytes: Seq<u8>) -> bool {
        match self {
            KeyUpdate::Append(b) => b@ == bytes,
            KeyUpdate::AlreadyPresent => false,
        }
    }
}

/// Tells whether `pat` occurs in `text` at byte `i`.
fn matches_at(text: &[u8], pat: &[u8], i: usize) -> (r: bool)
    requires
        i + pat@.len() <= text@.len(),
    ensures
        r == occurs_at(text@, pat@, i as int),
{
    let n: usize = text.len();
    let mut k: usize = 0;
    while k < pat.len()
        invariant
            n == text@.len(),
            i + pat@.len() <= text@.len(),
            k <= pat@.len(),
            forall|m: int| 0 <= m < k ==> text@[i + m] == pat@[m],
        decreases pat@.len() - k,
    {
        if text[i + k] != pat[k] {
            assert(text@.subrange(i as int, i + pat@.len())[k as int] != pat@[k as int]);
            return false;
        }
        k += 1;
    }
    assert(text@.subrange(i as int, i + pat@.len()) =~= pat@);
    true
}

/// Tells whether `key` occurs verbatim in `text`.
pub fn contains_key(text: &[u8], key: &[u8]) -> (r: bool)
    ensures
        r == contains(text@, key@),
{
    if key.len() > text.len() {
        assert forall|j: int| !occurs_at(text@, key@, j) by {}
        return false;
    }
    let last: usize = text.len() - key.len();
    let mut i: usize = 0;
    while i < last
        invariant
            last == text@.len() - key@.len(),
            i <= last,
            forall|j: int| 0 <= j < i ==> !#[trigger] occurs_at(text@, key@, j),
        decreases last - i,
    {
        if matches_at(text, key, i) {
            assert(occurs_at(text@, key@, i as int));
            return true;
        }
        i += 1;
    }
    let r = matches_at(text, key, last);
    assert(r ==> occurs_at(text@, key@, last as int));
    assert(!r ==> forall|j: int| !occurs_at(text@, key@, j)) by {
        if !r {
            assert forall|j: int| !occurs_at(text@, key@, j) by {
                if 0 <= j < i {
                }
            }
        }
    }
    r
}

/// The bytes appended for `key`: a newline, the key, a newline.
pub fn key_block_of(key: &[u8]) -> (r: Vec<u8>)
    ensures
        r@ == key_block(key@),
{
    let mut r: Vec<u8> = Vec::new();
    r.push(NEWLINE);
    let mut k: usize = 0;
    while k < key.len()
        invariant
            k <= key@.len(),
            r@ == seq![NEWLINE] + key@.subrange(0, k as int),
        decreases key@.len() - k,
    {
        r.push(key[k]);
        k += 1;
        assert(r@ =~= seq![NEWLINE] + key@.subrange(0, k as int));
    }
    r.push(NEWLINE);
    assert(key@.subrange(0, key@.len() as int) =~= key@);
    assert(r@ =~= key_block(key@));
    r
}

/// Decides, from the file's current content, whether `key` must be appended,
/// and what to append.
pub fn plan_update(existing: &[u8], key: &[u8]) -> (r: KeyUpdate)
    ensures
        contains(existing@, key@) <==> r == KeyUpdate::AlreadyPresent,
        !contains(existing@, key@) ==> r.is_append_of(key_block(key@)),
        existing@ + (if r is Append { key_block(key@) } else { Seq::empty() })
            == provisioned(existing@, key@),
{
    if contains_key(existing, key) {
        assert(existing@ + Seq::<u8>::empty() =~= existing@);
        KeyUpdate::AlreadyPresent
    } else {
        KeyUpdate::Append(key_block_of(key))
    }
}

/// The file's content after `key` has been provisioned into `existing`.
pub fn provision_content(existing: &[u8], key: &[u8]) -> (r: Vec<u8>)
    ensures
        r@ == provisioned(existing@, key@),
{
    let mut r: Vec<u8> = vstd::slice::slice_to_vec(existing);
    match plan_update(existing, key) {
        KeyUpdate::AlreadyPresent => {
            assert(existing@ + Seq::<u8>::empty() =~= existing@);
        },
        KeyUpdate::Append(block) => {
            let mut k: usize = 0;
            while k < block.len()
                invariant
                    k <= block@.len(),
                    r@ == existing@ + block@.subrange(0, k as int),
                decreases block@.len() - k,
            {
                r.push(block[k]);
                k += 1;
                assert(r@ =~= existing@ + block@.subrange(0, k as int));
            }
            assert(block@.subrange(0, block@.len() as int) =~= block@);
        },
    }
    r
}

} // verus!
