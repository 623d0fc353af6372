//! The service's cross-cutting guarantees, stated and proved over the same
//! spec functions the operations' contracts use.

use vstd::prelude::*;

use crate::dao::{
    lemma_session_idx, login_outcome, names_of, session_idx, session_lookup_spec,
    token_session_id, Dao,
};
use crate::hexstr::hex_of;
use crate::ingest::digest_matches;
use crate::sha256::sha256_of;
use crate::structs::FileRow;

verus! {

/// A declared digest that is not the digest of the uploaded bytes never
/// matches, so the ingest pipeline reports a mismatch and the upload
/// commits nothing: `finish_upload` answers `MismatchSha256` exactly when
/// the match fails, and `save` leaves the catalog untouched on that answer.
pub proof fn lemma_wrong_digest_is_mismatch(data: Seq<u8>, declared: Seq<char>)
    requires
        declared != hex_of(sha256_of(data)),
    ensures
        !digest_matches(data, declared),
{
}

/// A token that was never issued does not authenticate: where no session
/// row carries the token's hash, the session table answers "not found",
/// never an identity. A tampered token falls under this law as soon as its
/// hash differs from every stored session id.
pub proof fn lemma_unknown_token_rejected(dao: Dao, iv: Seq<u8>, token: Seq<char>)
    requires
        forall|i: int|
            0 <= i < dao.sessions@.len() ==> dao.sessions@[i].id@ != token_session_id(token),
    ensures
        session_lookup_spec(dao.sessions@, iv, token) is None,
{
    lemma_session_idx(dao.sessions@, token_session_id(token));
}

/// Only the most recent login's token authenticates: after a second login
/// for the same (account, device) pair, the replaced token's hash is gone
/// from the session table, so the old token answers "not found" while the
/// new token resolves to the logged-in identity.
///
/// The hypotheses say that the two tokens hash differently and that the old
/// token's hash occurred, if at all, only on that pair's session row —
/// both hold for distinct random tokens unless the digest collides.
pub proof fn lemma_latest_token_wins(
    pre: Dao,
    post: Dao,
    iv: Seq<u8>,
    account_id: Seq<char>,
    device_id: Seq<char>,
    pass: Seq<char>,
    t1: Seq<char>,
    t2: Seq<char>,
    now: u64,
)
    requires
        pre.wf(),
        login_outcome(pre, post, iv, account_id, device_id, pass, t2, now, true),
        token_session_id(t1) != token_session_id(t2),
        forall|i: int|
            0 <= i < pre.sessions@.len() && pre.sessions@[i].id@ == token_session_id(t1)
                ==> pre.sessions@[i].account_id@ == account_id && pre.sessions@[i].device_id@
                == device_id,
    ensures
        session_lookup_spec(post.sessions@, iv, t1) is None,
        session_lookup_spec(post.sessions@, iv, t2) == Some((device_id, account_id, pass)),
{
    let j = choose|j: int|
        0 <= j < pre.sessions@.len() && pre.sessions@[j].account_id@ == account_id
            && pre.sessions@[j].device_id@ == device_id && post.sessions@ == seq![
            post.sessions@[0],
        ] + pre.sessions@.remove(j);
    let mid = pre.sessions@.remove(j);
    assert(forall|m: int|
        0 <= m < mid.len() ==> mid[m] == (if m < j {
            pre.sessions@[m]
        } else {
            pre.sessions@[m + 1]
        }));
    assert forall|m: int| 0 <= m < post.sessions@.len() implies post.sessions@[m].id@
        != token_session_id(t1) by {
        if m > 0 {
            let p = if m - 1 < j {
                m - 1
            } else {
                m
            };
            assert(post.sessions@[m] == pre.sessions@[p]);
            if pre.sessions@[p].id@ == token_session_id(t1) {
                assert(pre.sessions@[p].account_id@ == account_id && pre.sessions@[p].device_id@
                    == device_id);
                assert(p != j);
                // two distinct rows for one pair contradict well-formedness
                assert(false);
            }
        }
    }
    lemma_session_idx(post.sessions@, token_session_id(t1));
}

/// Whether every version's storage name is unique across the whole
/// catalog. Storage names are derived from distinct upload instants, so
/// this holds with overwhelming probability; the deletion law below
/// assumes it.
pub open spec fn storage_names_unique(files: Seq<FileRow>) -> bool {
    forall|i: int, j: int, k: int, l: int|
        0 <= i < files.len() && 0 <= j < files.len() && 0 <= k < files[i].versions@.len() && 0 <= l
            < files[j].versions@.len() && (i != j || k != l) ==> files[i].versions@[k].storage_name@
            != files[j].versions@[l].storage_name@
}

/// Removing a file leaves no metadata referencing a deleted blob: once the
/// row at `i` is gone, no remaining version's storage name is among the
/// names that were handed back for deletion.
pub proof fn lemma_removed_blobs_unreferenced(files: Seq<FileRow>, i: int)
    requires
        storage_names_unique(files),
        0 <= i < files.len(),
    ensures
        forall|m: int, a: int|
            0 <= m < files.remove(i).len() && 0 <= a < files.remove(i)[m].versions@.len()
                ==> !names_of(files[i].versions@).contains(
                files.remove(i)[m].versions@[a].storage_name@,
            ),
{
    let rest = files.remove(i);
    assert(forall|m: int|
        0 <= m < rest.len() ==> rest[m] == (if m < i {
            files[m]
        } else {
            files[m + 1]
        }));
    assert forall|m: int, a: int|
        0 <= m < rest.len() && 0 <= a < rest[m].versions@.len() implies !names_of(
        files[i].versions@,
    ).contains(rest[m].versions@[a].storage_name@) by {
        let p = if m < i {
            m
        } else {
            m + 1
        };
        assert(rest[m] == files[p]);
        if names_of(files[i].versions@).contains(rest[m].versions@[a].storage_name@) {
            let k = choose|k: int|
                0 <= k < names_of(files[i].versions@).len() && names_of(files[i].versions@)[k]
                    == rest[m].versions@[a].storage_name@;
            assert(files[i].versions@[k].storage_name@ == files[p].versions@[a].storage_name@);
            assert(p != i);
            assert(false);
        }
    }
}

} // verus!
