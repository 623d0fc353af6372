//! The catalog: accounts, sessions, files and file versions, with the
//! session authenticator and its bounded cache.
//!
//! The catalog owns its rows; `File` values handed to callers are
//! snapshots, not live references. Persistence and transport live outside
//! this crate; the catalog's contracts describe exactly how each operation
//! reads or rewrites the rows.

use vstd::prelude::*;

use cache_2q::Cache;

use crate::cache::{cache_clear, cache_contents, cache_get, cache_insert, cache_new};
use crate::encoding::{transform_u32_to_bytes, transform_u64_to_bytes, u32_be_bytes, u64_be_bytes, utf8_string};
use crate::encryptor::{aes_dec, aes_enc, Encryptor};
use crate::hexstr::{hex_decode, hex_decode_of, hex_encode, hex_of, lemma_hex_roundtrip};
use crate::results::{LoginResult, RegisterResult};
use crate::sha256::{sha256_bytes, sha256_hex_of_chars, sha256_hex_str, sha256_of};
use crate::structs::{
    is_snapshot, opt_ident_view, AccountRow, DeviceIdentity, File, FileRow, FileVersion,
    SessionRow, UploadedFile,
};

verus! {

/// How many authentication answers the session cache may hold.
pub const SESSION_CACHE_SIZE: usize = 100;

/// The catalog and the session authenticator's cache.
pub struct Dao {
    /// Registered accounts.
    pub accounts: Vec<AccountRow>,
    /// Login sessions, at most one per (account, device) pair.
    pub sessions: Vec<SessionRow>,
    /// Files with their versions.
    pub files: Vec<FileRow>,
    /// The id the next created file row will get.
    pub next_file_id: u64,
    /// The id the next inserted file version will get.
    pub next_version_id: u64,
    /// Bounded cache of authentication answers, keyed by plaintext token.
    pub session_cache: Cache<String, Option<DeviceIdentity>>,
}

/// Whether some account row carries this username.
pub open spec fn username_taken(accounts: Seq<AccountRow>, username: Seq<char>) -> bool {
    exists|i: int| 0 <= i < accounts.len() && accounts[i].username@ == username
}

/// Whether an account row matches a username and a hashed password.
pub open spec fn credentials_match(
    a: AccountRow,
    username: Seq<char>,
    pass_hash: Seq<char>,
) -> bool {
    a.username@ == username && a.password_hash@ == pass_hash
}

/// Whether some session row belongs to this (account, device) pair.
pub open spec fn has_session_pair(
    sessions: Seq<SessionRow>,
    account_id: Seq<char>,
    device_id: Seq<char>,
) -> bool {
    exists|i: int|
        0 <= i < sessions.len() && sessions[i].account_id@ == account_id
            && sessions[i].device_id@ == device_id
}

/// The account id derived at registration: a one-way hash of the moment of
/// creation (seconds and nanoseconds, big-endian) and of the username and
/// hashed password, so ids are unguessable and collision-free in practice.
pub open spec fn account_id_of(
    username: Seq<char>,
    hashed_pass: Seq<char>,
    now_secs: u64,
    now_nanos: u32,
) -> Seq<char> {
    hex_of(
        sha256_of(
            u64_be_bytes(now_secs) + u32_be_bytes(now_nanos) + vstd::utf8::encode_utf8(username)
                + vstd::utf8::encode_utf8(hashed_pass),
        ),
    )
}

impl Dao {
    /// The catalog's invariant: usernames are unique; one session per
    /// (account, device) pair; file identity hashes and file ids are unique;
    /// ids stay below the counters that assign them; version ids are unique
    /// across the whole catalog and increase within each file, so a file's
    /// versions are ordered by insertion.
    pub open spec fn wf(&self) -> bool {
        &&& (forall|i: int, j: int|
            0 <= i < j < self.accounts@.len() ==> self.accounts@[i].username@
                != self.accounts@[j].username@)
        &&& (forall|i: int, j: int|
            0 <= i < j < self.sessions@.len() ==> !(self.sessions@[i].account_id@
                == self.sessions@[j].account_id@ && self.sessions@[i].device_id@
                == self.sessions@[j].device_id@))
        &&& (forall|i: int, j: int|
            0 <= i < j < self.files@.len() ==> self.files@[i].identity_hash@
                != self.files@[j].identity_hash@)
        &&& (forall|i: int, j: int|
            0 <= i < j < self.files@.len() ==> self.files@[i].id != self.files@[j].id)
        &&& (forall|i: int| 0 <= i < self.files@.len() ==> self.files@[i].id < self.next_file_id)
        &&& (forall|i: int, k: int|
            0 <= i < self.files@.len() && 0 <= k < self.files@[i].versions@.len()
                ==> self.files@[i].versions@[k].version < self.next_version_id)
        &&& (forall|i: int, k: int, l: int|
            0 <= i < self.files@.len() && 0 <= k < l < self.files@[i].versions@.len()
                ==> self.files@[i].versions@[k].version < self.files@[i].versions@[l].version)
        &&& (forall|i: int, j: int, k: int, l: int|
            0 <= i < self.files@.len() && 0 <= j < self.files@.len() && 0 <= k
                < self.files@[i].versions@.len() && 0 <= l < self.files@[j].versions@.len() && (i
                != j || k != l) ==> self.files@[i].versions@[k].version
                != self.files@[j].versions@[l].version)
    }

    /// An empty catalog with an empty session cache.
    pub fn new() -> (r: Dao)
        ensures
            r.wf(),
            r.accounts@.len() == 0,
            r.sessions@.len() == 0,
            r.files@.len() == 0,
            r.next_file_id == 1,
            r.next_version_id == 1,
            cache_contents(r.session_cache).dom() == Set::<Seq<char>>::empty(),
    {
        Dao {
            accounts: Vec::new(),
            sessions: Vec::new(),
            files: Vec::new(),
            next_file_id: 1,
            next_version_id: 1,
            session_cache: cache_new(SESSION_CACHE_SIZE),
        }
    }

    /// The index of the account row carrying this username, if any.
    fn username_index(&self, username: &str) -> (r: Option<usize>)
        ensures
            r matches Some(i) ==> i < self.accounts@.len() && self.accounts@[i as int].username@
                == username@,
            r is None ==> !username_taken(self.accounts@, username@),
    {
        let owned = username.to_owned();
        let mut i: usize = 0;
        while i < self.accounts.len()
            invariant
                i <= self.accounts@.len(),
                owned@ == username@,
                forall|j: int| 0 <= j < i ==> self.accounts@[j].username@ != username@,
            decreases self.accounts@.len() - i,
        {
            if self.accounts[i].username == owned {
                return Some(i);
            }
            i = i + 1;
        }
        None
    }

    /// The index of the account row matching both username and hashed
    /// password, if any.
    fn account_index(&self, username: &str, hashed_pass: &String) -> (r: Option<usize>)
        ensures
            r matches Some(i) ==> i < self.accounts@.len() && credentials_match(
                self.accounts@[i as int],
                username@,
                hashed_pass@,
            ),
            r is None ==> (forall|j: int|
                0 <= j < self.accounts@.len() ==> !credentials_match(
                    self.accounts@[j],
                    username@,
                    hashed_pass@,
                )),
    {
        let owned = username.to_owned();
        let mut i: usize = 0;
        while i < self.accounts.len()
            invariant
                i <= self.accounts@.len(),
                owned@ == username@,
                forall|j: int|
                    0 <= j < i ==> !credentials_match(self.accounts@[j], username@, hashed_pass@),
            decreases self.accounts@.len() - i,
        {
            if self.accounts[i].username == owned && self.accounts[i].password_hash == *hashed_pass {
                return Some(i);
            }
            i = i + 1;
        }
        None
    }

    /// Register an account: hash the password, refuse a taken username, and
    /// otherwise append a fresh account whose id derives from the moment of
    /// creation and the credentials.
    ///
    /// `now_secs` and `now_nanos` are the current time, supplied by the
    /// caller.
    pub fn register(&mut self, username: &str, pass: &str, now_secs: u64, now_nanos: u32) -> (r:
        RegisterResult)
        requires
            old(self).wf(),
        ensures
            final(self).wf(),
            username_taken(old(self).accounts@, username@) ==> (r is Exists && *final(self)
                == *old(self)),
            !username_taken(old(self).accounts@, username@) ==> (r matches RegisterResult::Created(
                aid,
            ) && aid@ == account_id_of(username@, sha256_hex_of_chars(pass@), now_secs, now_nanos)
                && final(self).accounts@.len() == old(self).accounts@.len() + 1
                && final(self).accounts@.take(old(self).accounts@.len() as int)
                    == old(self).accounts@
                && final(self).accounts@.last().id@ == aid@
                && final(self).accounts@.last().username@ == username@
                && final(self).accounts@.last().password_hash@ == sha256_hex_of_chars(pass@)),
            final(self).sessions == old(self).sessions,
            final(self).files == old(self).files,
            final(self).next_file_id == old(self).next_file_id,
            final(self).next_version_id == old(self).next_version_id,
            final(self).session_cache == old(self).session_cache,
    {
        let hashed_pass = sha256_hex_str(pass);
        match self.username_index(username) {
            Some(_) => RegisterResult::Exists,
            None => {
                let account_id = create_account_id(
                    username,
                    hashed_pass.as_str(),
                    now_secs,
                    now_nanos,
                );
                let row = AccountRow {
                    id: account_id.clone(),
                    username: username.to_owned(),
                    password_hash: hashed_pass,
                };
                self.accounts.push(row);
                proof {
                    assert(final(self).accounts@.take(old(self).accounts@.len() as int)
                        =~= old(self).accounts@);
                }
                RegisterResult::Created(account_id)
            },
        }
    }

    /// Whether the device is known to the account: a device is known iff at
    /// least one session row exists for the pair.
    pub fn is_known_device(&self, account_id: &str, device_id: &str) -> (r: bool)
        ensures
            r == has_session_pair(self.sessions@, account_id@, device_id@),
    {
        let a = account_id.to_owned();
        let d = device_id.to_owned();
        let mut i: usize = 0;
        while i < self.sessions.len()
            invariant
                i <= self.sessions@.len(),
                a@ == account_id@,
                d@ == device_id@,
                forall|j: int|
                    0 <= j < i ==> !(self.sessions@[j].account_id@ == account_id@
                        && self.sessions@[j].device_id@ == device_id@),
            decreases self.sessions@.len() - i,
        {
            if self.sessions[i].account_id == a && self.sessions[i].device_id == d {
                return true;
            }
            i = i + 1;
        }
        false
    }
}

/// The device ids of an account's sessions, in catalog order.
pub open spec fn devices_of(sessions: Seq<SessionRow>, account_id: Seq<char>) -> Seq<Seq<char>>
    decreases sessions.len(),
{
    if sessions.len() == 0 {
        Seq::empty()
    } else {
        let prefix = devices_of(sessions.drop_last(), account_id);
        if sessions.last().account_id@ == account_id {
            prefix.push(sessions.last().device_id@)
        } else {
            prefix
        }
    }
}

impl Dao {
    /// Every device with a session for this account, in catalog order.
    /// The devices are pairwise distinct because the catalog keeps one
    /// session per (account, device) pair.
    pub fn get_devices(&self, account_id: &str) -> (r: Vec<String>)
        ensures
            r.deep_view() == devices_of(self.sessions@, account_id@),
    {
        let a = account_id.to_owned();
        let mut out: Vec<String> = Vec::new();
        let mut i: usize = 0;
        while i < self.sessions.len()
            invariant
                i <= self.sessions@.len(),
                a@ == account_id@,
                out.deep_view() == devices_of(self.sessions@.take(i as int), account_id@),
            decreases self.sessions@.len() - i,
        {
            proof {
                assert(self.sessions@.take(i + 1 as int).drop_last() =~= self.sessions@.take(
                    i as int,
                ));
                assert(self.sessions@.take(i + 1 as int).last() == self.sessions@[i as int]);
            }
            if self.sessions[i].account_id == a {
                out.push(self.sessions[i].device_id.clone());
            }
            i = i + 1;
        }
        proof {
            assert(self.sessions@.take(self.sessions@.len() as int) =~= self.sessions@);
        }
        out
    }
}

/// The persisted id of a session token: the lower-case hex of its SHA-256
/// digest. Only this hash is ever stored.
pub open spec fn token_session_id(token: Seq<char>) -> Seq<char> {
    sha256_hex_of_chars(token)
}

/// The envelope key derived from a plaintext session token: the SHA-256
/// digest of its UTF-8 bytes, which is the 32-byte key the cipher demands.
pub open spec fn token_envelope_key(token: Seq<char>) -> Seq<u8> {
    sha256_of(vstd::utf8::encode_utf8(token))
}

/// The index of the first session row with this id, or -1 where none has it.
pub open spec fn session_idx(sessions: Seq<SessionRow>, sid: Seq<char>) -> int
    decreases sessions.len(),
{
    if sessions.len() == 0 {
        -1
    } else if sessions[0].id@ == sid {
        0
    } else {
        let rest = session_idx(sessions.drop_first(), sid);
        if rest == -1 {
            -1
        } else {
            rest + 1
        }
    }
}

/// `session_idx` finds exactly the first matching row: -1 means no row
/// matches, and a non-negative answer is the least matching index.
pub proof fn lemma_session_idx(sessions: Seq<SessionRow>, sid: Seq<char>)
    ensures
        session_idx(sessions, sid) == -1 ==> (forall|i: int|
            0 <= i < sessions.len() ==> sessions[i].id@ != sid),
        session_idx(sessions, sid) != -1 ==> 0 <= session_idx(sessions, sid) < sessions.len()
            && sessions[session_idx(sessions, sid)].id@ == sid,
        session_idx(sessions, sid) != -1 ==> (forall|i: int|
            0 <= i < session_idx(sessions, sid) ==> sessions[i].id@ != sid),
        (exists|i: int| 0 <= i < sessions.len() && sessions[i].id@ == sid) ==> session_idx(
            sessions,
            sid,
        ) != -1,
    decreases sessions.len(),
{
    if sessions.len() > 0 && sessions[0].id@ != sid {
        let rest = sessions.drop_first();
        lemma_session_idx(rest, sid);
        assert(forall|i: int| 0 <= i < rest.len() ==> rest[i] == sessions[i + 1]);
        if exists|i: int| 0 <= i < sessions.len() && sessions[i].id@ == sid {
            let w = choose|i: int| 0 <= i < sessions.len() && sessions[i].id@ == sid;
            assert(rest[w - 1].id@ == sid);
        }
        if session_idx(sessions, sid) != -1 {
            assert forall|i: int| 0 <= i < session_idx(sessions, sid) implies sessions[i].id@
                != sid by {
                if i > 0 {
                    assert(sessions[i] == rest[i - 1]);
                }
            }
        }
    }
}

/// What the session table answers for a plaintext token under a given
/// envelope: the row is found by the token's hash, its envelope is hex
/// decoded and decrypted under the key derived from the token, and the
/// decrypted passphrase must be text. Every failure along the way is the
/// same answer as "no such session".
pub open spec fn session_lookup_spec(
    sessions: Seq<SessionRow>,
    iv: Seq<u8>,
    token: Seq<char>,
) -> Option<(Seq<char>, Seq<char>, Seq<char>)> {
    let idx = session_idx(sessions, token_session_id(token));
    if idx == -1 {
        None
    } else {
        let row = sessions[idx];
        match hex_decode_of(row.pass@) {
            Option::None => None,
            Option::Some(cipher) => match aes_dec(iv, token_envelope_key(token), cipher) {
                Option::None => None,
                Option::Some(plain) => if vstd::utf8::valid_utf8(plain) {
                    Some((row.device_id@, row.account_id@, vstd::utf8::decode_utf8(plain)))
                } else {
                    None
                },
            },
        }
    }
}

impl Dao {
    /// Coherence of the session cache relative to an envelope: every cached
    /// answer, positive or negative, is what the session table itself would
    /// answer for that token. `login` keeps this by clearing the cache, and
    /// `authenticate` by caching only answers it just computed.
    pub open spec fn cache_coherent(&self, iv: Seq<u8>) -> bool {
        forall|t: Seq<char>| #[trigger]
            cache_contents(self.session_cache).dom().contains(t) ==> cache_contents(
                self.session_cache,
            )[t] == session_lookup_spec(self.sessions@, iv, t)
    }

    /// The index of the first session row with this id, if any.
    fn session_index(&self, sid: &String) -> (r: Option<usize>)
        ensures
            r matches Some(i) ==> i < self.sessions@.len() && session_idx(self.sessions@, sid@)
                == i,
            r is None ==> session_idx(self.sessions@, sid@) == -1,
    {
        let mut i: usize = 0;
        while i < self.sessions.len()
            invariant
                i <= self.sessions@.len(),
                forall|j: int| 0 <= j < i ==> self.sessions@[j].id@ != sid@,
            decreases self.sessions@.len() - i,
        {
            if self.sessions[i].id == *sid {
                proof {
                    lemma_session_idx(self.sessions@, sid@);
                }
                return Some(i);
            }
            i = i + 1;
        }
        proof {
            lemma_session_idx(self.sessions@, sid@);
        }
        None
    }

    /// Resolve a plaintext token against the session table alone: hash it,
    /// find the row, decrypt the envelope under the token-derived key, and
    /// treat any decryption or decoding failure exactly as "not found".
    fn find_session(&self, enc: &Encryptor, session_pass: &str) -> (r: Option<DeviceIdentity>)
        requires
            enc.wf(),
        ensures
            opt_ident_view(r) == session_lookup_spec(self.sessions@, enc.iv@, session_pass@),
    {
        let hashed = sha256_hex_str(session_pass);
        match self.session_index(&hashed) {
            None => None,
            Some(i) => {
                match hex_decode(self.sessions[i].pass.as_str()) {
                    None => None,
                    Some(cipher) => {
                        let key = sha256_bytes(session_pass.as_bytes());
                        match enc.decrypt(cipher.as_slice(), key.as_slice()) {
                            Err(_) => None,
                            Ok(plain) => match utf8_string(plain) {
                                None => None,
                                Some(repo_pass) => Some(
                                    DeviceIdentity {
                                        id: self.sessions[i].device_id.clone(),
                                        account_id: self.sessions[i].account_id.clone(),
                                        repo_pass,
                                    },
                                ),
                            },
                        }
                    },
                }
            },
        }
    }

    /// Authenticate a plaintext session token: consult the bounded cache
    /// first, and on a miss resolve against the session table and cache the
    /// answer, negative answers included.
    ///
    /// While the cache is coherent the answer is exactly what the session
    /// table says; a cache hit does not refresh `last_used`, and neither
    /// does a miss — `last_used` records the login that created the row.
    pub fn authenticate(&mut self, enc: &Encryptor, session_pass: &str) -> (r: Option<
        DeviceIdentity,
    >)
        requires
            enc.wf(),
        ensures
            final(self).accounts == old(self).accounts,
            final(self).sessions == old(self).sessions,
            final(self).files == old(self).files,
            final(self).next_file_id == old(self).next_file_id,
            final(self).next_version_id == old(self).next_version_id,
            old(self).wf() ==> final(self).wf(),
            old(self).cache_coherent(enc.iv@) ==> opt_ident_view(r) == session_lookup_spec(
                old(self).sessions@,
                enc.iv@,
                session_pass@,
            ),
            old(self).cache_coherent(enc.iv@) ==> final(self).cache_coherent(enc.iv@),
    {
        match cache_get(&mut self.session_cache, session_pass) {
            Some(cached) => cached,
            None => {
                let s = self.find_session(enc, session_pass);
                let copy = match &s {
                    Some(d) => Some(d.duplicate()),
                    None => None,
                };
                cache_insert(&mut self.session_cache, session_pass.to_owned(), copy);
                s
            },
        }
    }

    /// The index of the session row for this (account, device) pair, if any.
    fn session_pair_index(&self, account_id: &String, device_id: &str) -> (r: Option<usize>)
        ensures
            r matches Some(i) ==> i < self.sessions@.len() && self.sessions@[i as int].account_id@
                == account_id@ && self.sessions@[i as int].device_id@ == device_id@,
            r is None ==> !has_session_pair(self.sessions@, account_id@, device_id@),
    {
        let d = device_id.to_owned();
        let mut i: usize = 0;
        while i < self.sessions.len()
            invariant
                i <= self.sessions@.len(),
                d@ == device_id@,
                forall|j: int|
                    0 <= j < i ==> !(self.sessions@[j].account_id@ == account_id@
                        && self.sessions@[j].device_id@ == device_id@),
            decreases self.sessions@.len() - i,
        {
            if self.sessions[i].account_id == *account_id && self.sessions[i].device_id == d {
                return Some(i);
            }
            i = i + 1;
        }
        None
    }
}

/// What a completed login leaves behind: the catalog's other tables are
/// untouched, the cache is empty, the new session row stands first with the
/// token's hash and the passphrase envelope encrypted under the
/// token-derived key, the pair's old row (if `renewed`) is gone, and the
/// issued token resolves to the logged-in identity.
pub open spec fn login_outcome(
    pre: Dao,
    post: Dao,
    iv: Seq<u8>,
    account_id: Seq<char>,
    device_id: Seq<char>,
    pass: Seq<char>,
    token: Seq<char>,
    now: u64,
    renewed: bool,
) -> bool {
    &&& post.accounts == pre.accounts
    &&& post.files == pre.files
    &&& post.next_file_id == pre.next_file_id
    &&& post.next_version_id == pre.next_version_id
    &&& cache_contents(post.session_cache).dom() == Set::<Seq<char>>::empty()
    &&& post.sessions@.len() >= 1
    &&& post.sessions@[0].id@ == token_session_id(token)
    &&& post.sessions@[0].account_id@ == account_id
    &&& post.sessions@[0].device_id@ == device_id
    &&& post.sessions@[0].last_used == now
    &&& post.sessions@[0].pass@ == hex_of(
        aes_enc(iv, token_envelope_key(token), vstd::utf8::encode_utf8(pass)),
    )
    &&& renewed == has_session_pair(pre.sessions@, account_id, device_id)
    &&& if renewed {
        exists|j: int|
            0 <= j < pre.sessions@.len() && pre.sessions@[j].account_id@ == account_id
                && pre.sessions@[j].device_id@ == device_id && post.sessions@ == seq![
                post.sessions@[0],
            ] + pre.sessions@.remove(j)
    } else {
        post.sessions@ == seq![post.sessions@[0]] + pre.sessions@
    }
    &&& session_lookup_spec(post.sessions@, iv, token) == Some((device_id, account_id, pass))
}

impl Dao {
    /// Install a session for an already-verified account under a given
    /// plaintext token: encrypt the passphrase under the token-derived key,
    /// replace any session of the same (account, device) pair, clear the
    /// authentication cache, and report whether the session was new or
    /// renewed. The issued token then resolves to exactly this identity.
    pub fn login_with_token(
        &mut self,
        enc: &Encryptor,
        device_id: &str,
        account_id: &String,
        pass: &str,
        token: String,
        now: u64,
    ) -> (r: LoginResult)
        requires
            old(self).wf(),
            enc.wf(),
        ensures
            final(self).wf(),
            has_session_pair(old(self).sessions@, account_id@, device_id@) ==> (r
                matches LoginResult::RenewedSession(t) && t@ == token@ && login_outcome(
                *old(self),
                *final(self),
                enc.iv@,
                account_id@,
                device_id@,
                pass@,
                token@,
                now,
                true,
            )),
            !has_session_pair(old(self).sessions@, account_id@, device_id@) ==> (r
                matches LoginResult::NewSession(t) && t@ == token@ && login_outcome(
                *old(self),
                *final(self),
                enc.iv@,
                account_id@,
                device_id@,
                pass@,
                token@,
                now,
                false,
            )),
    {
        let hashed_token = sha256_hex_str(token.as_str());
        let key = sha256_bytes(token.as_str().as_bytes());
        let encrypted = match enc.encrypt(pass.as_bytes(), key.as_slice()) {
            Ok(c) => c,
            Err(_) => vstd::pervasive::unreached(),
        };
        let encrypted_pass = hex_encode(encrypted.as_slice());
        let row = SessionRow {
            id: hashed_token,
            account_id: account_id.clone(),
            device_id: device_id.to_owned(),
            pass: encrypted_pass,
            last_used: now,
        };
        let ghost cipher = encrypted@;
        let ghost pre = *self;
        let existing = self.session_pair_index(account_id, device_id);
        let renewed = match existing {
            Some(j) => {
                self.sessions.remove(j);
                true
            },
            None => false,
        };
        let ghost mid = self.sessions@;
        self.sessions.insert(0, row);
        cache_clear(&mut self.session_cache);
        proof {
            let fin = self.sessions@;
            let rowv = fin[0];
            assert(fin =~= seq![rowv] + mid);
            match existing {
                Some(ju) => {
                    let j = ju as int;
                    assert(mid == pre.sessions@.remove(j));
                    assert(has_session_pair(pre.sessions@, account_id@, device_id@));
                    assert(forall|m: int|
                        0 <= m < mid.len() ==> mid[m] == (if m < j {
                            pre.sessions@[m]
                        } else {
                            pre.sessions@[m + 1]
                        }));
                    assert forall|m: int|
                        0 <= m < mid.len() implies !(mid[m].account_id@ == account_id@
                        && mid[m].device_id@ == device_id@) by {
                        let p = if m < j {
                            m
                        } else {
                            m + 1
                        };
                        assert(mid[m] == pre.sessions@[p]);
                        assert(p != j);
                    }
                },
                None => {
                    assert(mid == pre.sessions@);
                    assert(!has_session_pair(pre.sessions@, account_id@, device_id@));
                    assert(forall|m: int|
                        0 <= m < mid.len() ==> !(mid[m].account_id@ == account_id@
                            && mid[m].device_id@ == device_id@));
                },
            }
            // every row after the head comes from the old table, so pair
            // uniqueness and the untouched invariants carry over
            assert forall|a: int, b: int| 0 <= a < b < fin.len() implies !(fin[a].account_id@
                == fin[b].account_id@ && fin[a].device_id@ == fin[b].device_id@) by {
                if a == 0 {
                    assert(fin[b] == mid[b - 1]);
                } else {
                    match existing {
                        Some(ju) => {
                            let j = ju as int;
                            let pa = if a - 1 < j {
                                a - 1
                            } else {
                                a
                            };
                            let pb = if b - 1 < j {
                                b - 1
                            } else {
                                b
                            };
                            assert(fin[a] == pre.sessions@[pa]);
                            assert(fin[b] == pre.sessions@[pb]);
                        },
                        None => {
                            assert(fin[a] == pre.sessions@[a - 1]);
                            assert(fin[b] == pre.sessions@[b - 1]);
                        },
                    }
                }
            }
            // the fresh token resolves to this identity
            let sid = token_session_id(token@);
            let iv = enc.iv@;
            assert(rowv.id@ == sid);
            assert(session_idx(fin, sid) == 0);
            lemma_hex_roundtrip(cipher);
            assert(rowv.pass@ == hex_of(cipher));
            assert(hex_decode_of(rowv.pass@) == Some(cipher));
            crate::encryptor::lemma_envelope_round_trip(
                iv,
                token_envelope_key(token@),
                vstd::utf8::encode_utf8(pass@),
                cipher,
            );
            assert(aes_dec(iv, token_envelope_key(token@), cipher) == Some(
                vstd::utf8::encode_utf8(pass@),
            ));
            vstd::utf8::encode_utf8_valid_utf8(pass@);
            vstd::utf8::encode_utf8_decode_utf8(pass@);
            assert(session_lookup_spec(fin, iv, token@) == Some(
                (device_id@, account_id@, pass@),
            ));
        }
        if renewed {
            LoginResult::RenewedSession(token)
        } else {
            LoginResult::NewSession(token)
        }
    }

    /// Log a device in: verify the credentials, generate a fresh random
    /// token, and install the session for the matching account. An unknown
    /// username or a wrong password is `AccountNotFound`, with nothing
    /// changed.
    pub fn login(
        &mut self,
        enc: &Encryptor,
        device_id: &str,
        username: &str,
        pass: &str,
        now: u64,
    ) -> (r: LoginResult)
        requires
            old(self).wf(),
            enc.wf(),
        ensures
            final(self).wf(),
            r is AccountNotFound <==> (forall|j: int|
                0 <= j < old(self).accounts@.len() ==> !credentials_match(
                    old(self).accounts@[j],
                    username@,
                    sha256_hex_of_chars(pass@),
                )),
            r is AccountNotFound ==> *final(self) == *old(self),
            r matches LoginResult::NewSession(t) ==> (exists|ai: int|
                0 <= ai < old(self).accounts@.len() && credentials_match(
                    old(self).accounts@[ai],
                    username@,
                    sha256_hex_of_chars(pass@),
                ) && login_outcome(
                    *old(self),
                    *final(self),
                    enc.iv@,
                    old(self).accounts@[ai].id@,
                    device_id@,
                    pass@,
                    t@,
                    now,
                    false,
                )),
            r matches LoginResult::RenewedSession(t) ==> (exists|ai: int|
                0 <= ai < old(self).accounts@.len() && credentials_match(
                    old(self).accounts@[ai],
                    username@,
                    sha256_hex_of_chars(pass@),
                ) && login_outcome(
                    *old(self),
                    *final(self),
                    enc.iv@,
                    old(self).accounts@[ai].id@,
                    device_id@,
                    pass@,
                    t@,
                    now,
                    true,
                )),
    {
        let hashed_pass = sha256_hex_str(pass);
        match self.account_index(username, &hashed_pass) {
            None => LoginResult::AccountNotFound,
            Some(ai) => {
                let account_id = self.accounts[ai].id.clone();
                let token = crate::token::new_session_token();
                self.login_with_token(enc, device_id, &account_id, pass, token, now)
            },
        }
    }
}

/// The version value the catalog actually stores for an insert: the caller's
/// fields with the catalog-assigned id.
pub open spec fn stored_version(nfv: FileVersion, vid: u64) -> FileVersion {
    FileVersion {
        version: vid,
        size: nfv.size,
        hash: nfv.hash,
        created: nfv.created,
        storage_name: nfv.storage_name,
    }
}

/// The file rows of one account and device that have at least one version,
/// in catalog order. A row with no versions is provisional and never listed.
pub open spec fn matching_rows(
    files: Seq<FileRow>,
    account_id: Seq<char>,
    device_id: Seq<char>,
) -> Seq<FileRow>
    decreases files.len(),
{
    if files.len() == 0 {
        Seq::empty()
    } else {
        let prefix = matching_rows(files.drop_last(), account_id, device_id);
        if files.last().account_id@ == account_id && files.last().device_id@ == device_id
            && files.last().versions@.len() > 0 {
            prefix.push(files.last())
        } else {
            prefix
        }
    }
}

/// The storage names of a version list, in order.
pub open spec fn names_of(vs: Seq<FileVersion>) -> Seq<Seq<char>> {
    vs.map_values(|v: FileVersion| v.storage_name@)
}

/// Whether some file row carries this identity hash.
pub open spec fn identity_hash_present(files: Seq<FileRow>, identity_hash: Seq<char>) -> bool {
    exists|i: int| 0 <= i < files.len() && files[i].identity_hash@ == identity_hash
}

/// What committing a version to an existing file row leaves behind: only
/// that row changes, by appending the stored version, and the snapshot
/// copies the updated row.
pub open spec fn save_existing_outcome(
    pre: Dao,
    post: Dao,
    uf: UploadedFile,
    nfv: FileVersion,
    r: File,
) -> bool {
    exists|i: int|
        {
            &&& 0 <= i < pre.files@.len()
            &&& pre.files@[i].identity_hash@ == uf.identity_hash@
            &&& post.files@.len() == pre.files@.len()
            &&& (forall|m: int| 0 <= m < pre.files@.len() && m != i ==> post.files@[m] == pre.files@[m])
            &&& post.files@[i].id == pre.files@[i].id
            &&& post.files@[i].account_id == pre.files@[i].account_id
            &&& post.files@[i].device_id == pre.files@[i].device_id
            &&& post.files@[i].original_name == pre.files@[i].original_name
            &&& post.files@[i].identity_hash == pre.files@[i].identity_hash
            &&& post.files@[i].versions@ == pre.files@[i].versions@.push(
                stored_version(nfv, pre.next_version_id),
            )
            &&& is_snapshot(r, post.files@[i])
            &&& post.next_file_id == pre.next_file_id
        }
}

/// What committing a version for a previously unknown identity hash leaves
/// behind: a fresh row with the next file id and exactly the stored
/// version, appended at the end; the snapshot copies it.
pub open spec fn save_created_outcome(
    pre: Dao,
    post: Dao,
    uf: UploadedFile,
    nfv: FileVersion,
    r: File,
) -> bool {
    &&& post.files@.len() == pre.files@.len() + 1
    &&& post.files@.take(pre.files@.len() as int) == pre.files@
    &&& post.files@.last().id == pre.next_file_id
    &&& post.files@.last().account_id@ == uf.account_id@
    &&& post.files@.last().device_id@ == uf.device_id@
    &&& post.files@.last().original_name@ == uf.original_name@
    &&& post.files@.last().identity_hash@ == uf.identity_hash@
    &&& post.files@.last().versions@ == seq![stored_version(nfv, pre.next_version_id)]
    &&& is_snapshot(r, post.files@.last())
    &&& post.next_file_id == pre.next_file_id + 1
}

impl Dao {
    /// The index of the file row with this identity hash, if any; the hash
    /// is the find-or-create key, unique across the catalog.
    fn file_index_by_hash(&self, identity_hash: &String) -> (r: Option<usize>)
        ensures
            r matches Some(i) ==> i < self.files@.len() && self.files@[i as int].identity_hash@
                == identity_hash@,
            r is None ==> (forall|j: int|
                0 <= j < self.files@.len() ==> self.files@[j].identity_hash@ != identity_hash@),
    {
        let mut i: usize = 0;
        while i < self.files.len()
            invariant
                i <= self.files@.len(),
                forall|j: int| 0 <= j < i ==> self.files@[j].identity_hash@ != identity_hash@,
            decreases self.files@.len() - i,
        {
            if self.files[i].identity_hash == *identity_hash {
                return Some(i);
            }
            i = i + 1;
        }
        None
    }

    /// The index of the file row with this id belonging to this device, if
    /// any.
    fn file_index_by_id(&self, device_id: &str, file_id: u64) -> (r: Option<usize>)
        ensures
            r matches Some(i) ==> i < self.files@.len() && self.files@[i as int].id == file_id
                && self.files@[i as int].device_id@ == device_id@,
            r is None ==> (forall|j: int|
                0 <= j < self.files@.len() ==> !(self.files@[j].id == file_id
                    && self.files@[j].device_id@ == device_id@)),
    {
        let d = device_id.to_owned();
        let mut i: usize = 0;
        while i < self.files.len()
            invariant
                i <= self.files@.len(),
                d@ == device_id@,
                forall|j: int|
                    0 <= j < i ==> !(self.files@[j].id == file_id && self.files@[j].device_id@
                        == device_id@),
            decreases self.files@.len() - i,
        {
            if self.files[i].id == file_id && self.files[i].device_id == d {
                return Some(i);
            }
            i = i + 1;
        }
        None
    }

    /// Find the file a given upload belongs to, by identity hash: a
    /// snapshot, whether or not the row has versions yet.
    pub fn find_file(&self, identity_hash: &str) -> (r: Option<File>)
        ensures
            r matches Some(f) ==> (exists|i: int|
                0 <= i < self.files@.len() && self.files@[i].identity_hash@ == identity_hash@
                    && is_snapshot(f, self.files@[i])),
            r is None ==> (forall|j: int|
                0 <= j < self.files@.len() ==> self.files@[j].identity_hash@ != identity_hash@),
    {
        let owned = identity_hash.to_owned();
        match self.file_index_by_hash(&owned) {
            None => None,
            Some(i) => {
                let f = self.files[i].snapshot();
                proof {
                    assert(self.files@[i as int].identity_hash@ == identity_hash@);
                }
                Some(f)
            },
        }
    }

    /// Commit one uploaded version: find or create the file row by identity
    /// hash, append a version carrying the next version id, and return a
    /// snapshot of the file including the new version.
    ///
    /// The returned snapshot is the only way the caller learns the assigned
    /// ids; later catalog changes do not show through it.
    pub fn save_file_version(
        &mut self,
        uploaded_file: &UploadedFile,
        new_file_version: FileVersion,
    ) -> (r: File)
        requires
            old(self).wf(),
            old(self).next_file_id < u64::MAX,
            old(self).next_version_id < u64::MAX,
        ensures
            final(self).wf(),
            final(self).accounts == old(self).accounts,
            final(self).sessions == old(self).sessions,
            final(self).session_cache == old(self).session_cache,
            final(self).next_version_id == old(self).next_version_id + 1,
            identity_hash_present(old(self).files@, uploaded_file.identity_hash@)
                ==> save_existing_outcome(
                *old(self),
                *final(self),
                *uploaded_file,
                new_file_version,
                r,
            ),
            !identity_hash_present(old(self).files@, uploaded_file.identity_hash@)
                ==> save_created_outcome(
                *old(self),
                *final(self),
                *uploaded_file,
                new_file_version,
                r,
            ),
    {
        let vid = self.next_version_id;
        let stored = FileVersion {
            version: vid,
            size: new_file_version.size,
            hash: new_file_version.hash,
            created: new_file_version.created,
            storage_name: new_file_version.storage_name,
        };
        self.next_version_id = vid + 1;
        match self.file_index_by_hash(&uploaded_file.identity_hash) {
            Some(i) => {
                self.files[i].versions.push(stored);
                let f = self.files[i].snapshot();
                proof {
                    let pre = old(self).files@;
                    let fin = self.files@;
                    let ii = i as int;
                    assert(forall|m: int| 0 <= m < pre.len() && m != ii ==> fin[m] == pre[m]);
                    assert(fin[ii].versions@ == pre[ii].versions@.push(
                        stored_version(new_file_version, old(self).next_version_id),
                    ));
                    assert forall|m: int, k: int|
                        0 <= m < fin.len() && 0 <= k < fin[m].versions@.len() implies fin[
                        m
                    ].versions@[k].version < self.next_version_id by {
                        if m == ii && k == fin[ii].versions@.len() - 1 {
                        } else {
                            assert(fin[m].versions@[k] == pre[m].versions@[k]);
                        }
                    }
                    assert forall|m: int, k: int, l: int|
                        0 <= m < fin.len() && 0 <= k < l < fin[m].versions@.len() implies fin[
                        m
                    ].versions@[k].version < fin[m].versions@[l].version by {
                        assert(fin[m].versions@[k] == pre[m].versions@[k]);
                        if !(m == ii && l == fin[ii].versions@.len() - 1) {
                            assert(fin[m].versions@[l] == pre[m].versions@[l]);
                        }
                    }
                    assert forall|m: int, n: int, k: int, l: int|
                        0 <= m < fin.len() && 0 <= n < fin.len() && 0 <= k
                            < fin[m].versions@.len() && 0 <= l < fin[n].versions@.len() && (m != n
                            || k != l) implies fin[m].versions@[k].version != fin[
                        n
                    ].versions@[l].version by {
                        if !(m == ii && k == fin[ii].versions@.len() - 1) {
                            assert(fin[m].versions@[k] == pre[m].versions@[k]);
                        }
                        if !(n == ii && l == fin[ii].versions@.len() - 1) {
                            assert(fin[n].versions@[l] == pre[n].versions@[l]);
                        }
                    }
                }
                f
            },
            None => {
                let fid = self.next_file_id;
                self.next_file_id = fid + 1;
                let mut versions: Vec<FileVersion> = Vec::new();
                versions.push(stored);
                let row = FileRow {
                    id: fid,
                    account_id: uploaded_file.account_id.clone(),
                    device_id: uploaded_file.device_id.clone(),
                    original_name: uploaded_file.original_name.clone(),
                    identity_hash: uploaded_file.identity_hash.clone(),
                    versions,
                };
                self.files.push(row);
                let last = self.files.len() - 1;
                let f = self.files[last].snapshot();
                proof {
                    let pre = old(self).files@;
                    let fin = self.files@;
                    assert(fin.take(pre.len() as int) =~= pre);
                    assert(fin.last().versions@ =~= seq![
                        stored_version(new_file_version, old(self).next_version_id),
                    ]);
                    assert(forall|m: int| 0 <= m < pre.len() ==> fin[m] == pre[m]);
                    assert forall|m: int, k: int|
                        0 <= m < fin.len() && 0 <= k < fin[m].versions@.len() implies fin[
                        m
                    ].versions@[k].version < self.next_version_id by {
                        if m < pre.len() {
                            assert(fin[m] == pre[m]);
                        }
                    }
                    assert forall|m: int, n: int, k: int, l: int|
                        0 <= m < fin.len() && 0 <= n < fin.len() && 0 <= k
                            < fin[m].versions@.len() && 0 <= l < fin[n].versions@.len() && (m != n
                            || k != l) implies fin[m].versions@[k].version != fin[
                        n
                    ].versions@[l].version by {
                        if m < pre.len() {
                            assert(fin[m] == pre[m]);
                        }
                        if n < pre.len() {
                            assert(fin[n] == pre[n]);
                        }
                    }
                }
                f
            },
        }
    }
}

impl Dao {
    /// The files of one account and device: a snapshot per matching row, in
    /// catalog order. A device with no files but at least one session
    /// answers with an empty list; a device with no session at all answers
    /// "not found".
    pub fn list_files(&self, account_id: &str, device_id: &str) -> (r: Option<Vec<File>>)
        ensures
            r matches Some(v) ==> (v@.len() == matching_rows(
                self.files@,
                account_id@,
                device_id@,
            ).len() && (forall|k: int|
                0 <= k < v@.len() ==> is_snapshot(
                    v@[k],
                    matching_rows(self.files@, account_id@, device_id@)[k],
                )) && (v@.len() > 0 || has_session_pair(self.sessions@, account_id@, device_id@))),
            r is None ==> matching_rows(self.files@, account_id@, device_id@).len() == 0
                && !has_session_pair(self.sessions@, account_id@, device_id@),
    {
        let a = account_id.to_owned();
        let d = device_id.to_owned();
        let mut out: Vec<File> = Vec::new();
        let mut i: usize = 0;
        while i < self.files.len()
            invariant
                i <= self.files@.len(),
                a@ == account_id@,
                d@ == device_id@,
                out@.len() == matching_rows(self.files@.take(i as int), account_id@, device_id@).len(),
                forall|k: int|
                    0 <= k < out@.len() ==> is_snapshot(
                        out@[k],
                        matching_rows(self.files@.take(i as int), account_id@, device_id@)[k],
                    ),
            decreases self.files@.len() - i,
        {
            proof {
                assert(self.files@.take(i + 1 as int).drop_last() =~= self.files@.take(i as int));
                assert(self.files@.take(i + 1 as int).last() == self.files@[i as int]);
            }
            if self.files[i].account_id == a && self.files[i].device_id == d
                && self.files[i].versions.len() > 0 {
                out.push(self.files[i].snapshot());
            }
            i = i + 1;
        }
        proof {
            assert(self.files@.take(self.files@.len() as int) =~= self.files@);
        }
        if out.len() > 0 {
            Some(out)
        } else {
            if self.is_known_device(account_id, device_id) {
                Some(out)
            } else {
                None
            }
        }
    }

    /// The storage names of every version of one device's file, in version
    /// order; empty where the device has no file with that id.
    pub fn get_storage_names(&self, device_id: &str, file_id: u64) -> (r: Vec<String>)
        ensures
            (exists|i: int|
                0 <= i < self.files@.len() && self.files@[i].id == file_id
                    && self.files@[i].device_id@ == device_id@) ==> (exists|i: int|
                0 <= i < self.files@.len() && self.files@[i].id == file_id
                    && self.files@[i].device_id@ == device_id@ && r.deep_view() == names_of(
                    self.files@[i].versions@,
                )),
            !(exists|i: int|
                0 <= i < self.files@.len() && self.files@[i].id == file_id
                    && self.files@[i].device_id@ == device_id@) ==> r@.len() == 0,
    {
        match self.file_index_by_id(device_id, file_id) {
            None => Vec::new(),
            Some(i) => collect_storage_names(&self.files[i].versions),
        }
    }

    /// Locate a version by its id anywhere in the catalog: the owning file's
    /// index and the version's slot. Version ids are unique, so at most one
    /// spot matches.
    fn locate_version(&self, version_id: u64) -> (r: Option<(usize, usize)>)
        ensures
            r matches Some(p) ==> p.0 < self.files@.len() && p.1 < self.files@[p.0 as int].versions@.len()
                && self.files@[p.0 as int].versions@[p.1 as int].version == version_id,
            r is None ==> (forall|i: int, k: int|
                0 <= i < self.files@.len() && 0 <= k < self.files@[i].versions@.len()
                    ==> self.files@[i].versions@[k].version != version_id),
    {
        let mut i: usize = 0;
        while i < self.files.len()
            invariant
                i <= self.files@.len(),
                forall|j: int, k: int|
                    0 <= j < i && 0 <= k < self.files@[j].versions@.len()
                        ==> self.files@[j].versions@[k].version != version_id,
            decreases self.files@.len() - i,
        {
            let mut k: usize = 0;
            while k < self.files[i].versions.len()
                invariant
                    i < self.files@.len(),
                    k <= self.files@[i as int].versions@.len(),
                    forall|l: int|
                        0 <= l < k ==> self.files@[i as int].versions@[l].version != version_id,
                decreases self.files@[i as int].versions@.len() - k,
            {
                if self.files[i].versions[k].version == version_id {
                    return Some((i, k));
                }
                k = k + 1;
            }
            i = i + 1;
        }
        None
    }

    /// The digest, size and storage name of one version, found by its id.
    pub fn get_hash_size_and_storage_name(&self, version_id: u64) -> (r: Option<
        (String, u64, String),
    >)
        ensures
            r matches Some(t) ==> (exists|i: int, k: int|
                0 <= i < self.files@.len() && 0 <= k < self.files@[i].versions@.len()
                    && self.files@[i].versions@[k].version == version_id && t.0@
                    == self.files@[i].versions@[k].hash@ && t.1 == self.files@[i].versions@[k].size
                    && t.2@ == self.files@[i].versions@[k].storage_name@),
            r is None ==> (forall|i: int, k: int|
                0 <= i < self.files@.len() && 0 <= k < self.files@[i].versions@.len()
                    ==> self.files@[i].versions@[k].version != version_id),
    {
        match self.locate_version(version_id) {
            None => None,
            Some((i, k)) => {
                let hash = self.files[i].versions[k].hash.clone();
                let size = self.files[i].versions[k].size;
                let storage_name = self.files[i].versions[k].storage_name.clone();
                Some((hash, size, storage_name))
            },
        }
    }

    /// Remove one version's metadata and hand back the storage name whose
    /// blob the caller must now delete. Only the owning file's version list
    /// changes, by dropping exactly that slot.
    pub fn remove_file_version(&mut self, version_id: u64) -> (r: Option<String>)
        requires
            old(self).wf(),
        ensures
            final(self).wf(),
            final(self).accounts == old(self).accounts,
            final(self).sessions == old(self).sessions,
            final(self).session_cache == old(self).session_cache,
            final(self).next_file_id == old(self).next_file_id,
            final(self).next_version_id == old(self).next_version_id,
            r is None ==> final(self).files == old(self).files && (forall|i: int, k: int|
                0 <= i < old(self).files@.len() && 0 <= k < old(self).files@[i].versions@.len()
                    ==> old(self).files@[i].versions@[k].version != version_id),
            r matches Some(sn) ==> (exists|i: int, k: int|
                {
                    &&& 0 <= i < old(self).files@.len()
                    &&& 0 <= k < old(self).files@[i].versions@.len()
                    &&& old(self).files@[i].versions@[k].version == version_id
                    &&& sn@ == old(self).files@[i].versions@[k].storage_name@
                    &&& final(self).files@.len() == old(self).files@.len()
                    &&& (forall|m: int|
                        0 <= m < old(self).files@.len() && m != i ==> final(self).files@[m]
                            == old(self).files@[m])
                    &&& final(self).files@[i].id == old(self).files@[i].id
                    &&& final(self).files@[i].account_id == old(self).files@[i].account_id
                    &&& final(self).files@[i].device_id == old(self).files@[i].device_id
                    &&& final(self).files@[i].original_name == old(self).files@[i].original_name
                    &&& final(self).files@[i].identity_hash == old(self).files@[i].identity_hash
                    &&& final(self).files@[i].versions@ == old(self).files@[i].versions@.remove(
                        k,
                    )
                }),
    {
        match self.locate_version(version_id) {
            None => None,
            Some((i, k)) => {
                let storage_name = self.files[i].versions[k].storage_name.clone();
                self.files[i].versions.remove(k);
                proof {
                    let pre = old(self).files@;
                    let fin = self.files@;
                    let ii = i as int;
                    let kk = k as int;
                    assert(fin[ii].versions@ == pre[ii].versions@.remove(kk));
                    assert(forall|l: int|
                        0 <= l < fin[ii].versions@.len() ==> fin[ii].versions@[l] == (if l < kk {
                            pre[ii].versions@[l]
                        } else {
                            pre[ii].versions@[l + 1]
                        }));
                    assert forall|m: int, n: int, a: int, b: int|
                        0 <= m < fin.len() && 0 <= n < fin.len() && 0 <= a
                            < fin[m].versions@.len() && 0 <= b < fin[n].versions@.len() && (m != n
                            || a != b) implies fin[m].versions@[a].version != fin[
                        n
                    ].versions@[b].version by {
                        let pa = if m == ii && a >= kk {
                            a + 1
                        } else {
                            a
                        };
                        let pb = if n == ii && b >= kk {
                            b + 1
                        } else {
                            b
                        };
                        assert(fin[m].versions@[a] == pre[m].versions@[pa]);
                        assert(fin[n].versions@[b] == pre[n].versions@[pb]);
                    }
                    assert forall|m: int, a: int, b: int|
                        0 <= m < fin.len() && 0 <= a < b < fin[m].versions@.len() implies fin[
                        m
                    ].versions@[a].version < fin[m].versions@[b].version by {
                        let pa = if m == ii && a >= kk {
                            a + 1
                        } else {
                            a
                        };
                        let pb = if m == ii && b >= kk {
                            b + 1
                        } else {
                            b
                        };
                        assert(fin[m].versions@[a] == pre[m].versions@[pa]);
                        assert(fin[m].versions@[b] == pre[m].versions@[pb]);
                    }
                    assert forall|m: int, a: int|
                        0 <= m < fin.len() && 0 <= a < fin[m].versions@.len() implies fin[
                        m
                    ].versions@[a].version < self.next_version_id by {
                        let pa = if m == ii && a >= kk {
                            a + 1
                        } else {
                            a
                        };
                        assert(fin[m].versions@[a] == pre[m].versions@[pa]);
                    }
                }
                Some(storage_name)
            },
        }
    }

    /// Remove a device's file with all its versions and hand back every
    /// storage name whose blob the caller must now delete, in version
    /// order. A file the device does not own, or one with no versions yet,
    /// is "not found", with nothing changed.
    pub fn remove_file(&mut self, device_id: &str, file_id: u64) -> (r: Option<Vec<String>>)
        requires
            old(self).wf(),
        ensures
            final(self).wf(),
            final(self).accounts == old(self).accounts,
            final(self).sessions == old(self).sessions,
            final(self).session_cache == old(self).session_cache,
            final(self).next_file_id == old(self).next_file_id,
            final(self).next_version_id == old(self).next_version_id,
            r is None ==> *final(self) == *old(self) && !(exists|i: int|
                0 <= i < old(self).files@.len() && old(self).files@[i].id == file_id
                    && old(self).files@[i].device_id@ == device_id@
                    && old(self).files@[i].versions@.len() > 0),
            r matches Some(v) ==> (exists|i: int|
                {
                    &&& 0 <= i < old(self).files@.len()
                    &&& old(self).files@[i].id == file_id
                    &&& old(self).files@[i].device_id@ == device_id@
                    &&& old(self).files@[i].versions@.len() > 0
                    &&& v.deep_view() == names_of(old(self).files@[i].versions@)
                    &&& final(self).files@ == old(self).files@.remove(i)
                }),
    {
        match self.file_index_by_id(device_id, file_id) {
            None => None,
            Some(i) => {
                if self.files[i].versions.len() == 0 {
                    return None;
                }
                let names = collect_storage_names(&self.files[i].versions);
                self.files.remove(i);
                proof {
                    let pre = old(self).files@;
                    let fin = self.files@;
                    let ii = i as int;
                    assert(forall|m: int|
                        0 <= m < fin.len() ==> fin[m] == (if m < ii {
                            pre[m]
                        } else {
                            pre[m + 1]
                        }));
                    assert forall|m: int, n: int, a: int, b: int|
                        0 <= m < fin.len() && 0 <= n < fin.len() && 0 <= a
                            < fin[m].versions@.len() && 0 <= b < fin[n].versions@.len() && (m != n
                            || a != b) implies fin[m].versions@[a].version != fin[
                        n
                    ].versions@[b].version by {
                        let pm = if m < ii {
                            m
                        } else {
                            m + 1
                        };
                        let pn = if n < ii {
                            n
                        } else {
                            n + 1
                        };
                        assert(fin[m] == pre[pm]);
                        assert(fin[n] == pre[pn]);
                    }
                }
                Some(names)
            },
        }
    }
}

/// The storage names of a version list, cloned in order.
fn collect_storage_names(vs: &Vec<FileVersion>) -> (r: Vec<String>)
    ensures
        r.deep_view() == names_of(vs@),
{
    let mut out: Vec<String> = Vec::new();
    let mut k: usize = 0;
    while k < vs.len()
        invariant
            k <= vs@.len(),
            out.deep_view() == names_of(vs@.take(k as int)),
        decreases vs@.len() - k,
    {
        let ghost before = out.deep_view();
        out.push(vs[k].storage_name.clone());
        proof {
            assert(out.deep_view().len() == before.len() + 1);
            assert(forall|j: int| 0 <= j < before.len() ==> out.deep_view()[j] == before[j]);
            assert(out.deep_view().last() == vs@[k as int].storage_name@);
            assert(vs@.take(k + 1 as int).drop_last() =~= vs@.take(k as int));
            assert(vs@.take(k + 1 as int).last() == vs@[k as int]);
            assert(names_of(vs@.take(k + 1 as int)) =~= names_of(vs@.take(k as int)).push(
                vs@[k as int].storage_name@,
            ));
            assert(out.deep_view() =~= names_of(vs@.take(k + 1 as int)));
        }
        k = k + 1;
    }
    proof {
        assert(vs@.take(vs@.len() as int) =~= vs@);
    }
    out
}

/// The account id derived at registration from the moment of creation and
/// the credentials; see `account_id_of`.
pub fn create_account_id(username: &str, hashed_pass: &str, now_secs: u64, now_nanos: u32) -> (r:
    String)
    ensures
        r@ == account_id_of(username@, hashed_pass@, now_secs, now_nanos),
{
    let mut bytes: Vec<u8> = Vec::new();
    let secs = transform_u64_to_bytes(now_secs);
    let nanos = transform_u32_to_bytes(now_nanos);
    bytes.extend_from_slice(secs.as_slice());
    bytes.extend_from_slice(nanos.as_slice());
    bytes.extend_from_slice(username.as_bytes());
    bytes.extend_from_slice(hashed_pass.as_bytes());
    proof {
        assert(bytes@ =~= u64_be_bytes(now_secs) + u32_be_bytes(now_nanos)
            + vstd::utf8::encode_utf8(username@) + vstd::utf8::encode_utf8(hashed_pass@));
    }
    crate::sha256::sha256_hex(bytes.as_slice())
}

} // verus!
