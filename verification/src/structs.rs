//! The data model: catalog rows, snapshots handed to callers, and the
//! identity resolved from a session token.

use vstd::prelude::*;

verus! {

/// One account row: a registered user of the service.
pub struct AccountRow {
    /// Opaque stable identifier, derived at creation and never reused.
    pub id: String,
    /// Unique login name.
    pub username: String,
    /// Lower-case hex of the salted password digest.
    pub password_hash: String,
}

/// One session row: the server-side record of a login.
///
/// Only the one-way hash of the session token is kept; the account's storage
/// passphrase is stored encrypted under a key derived from the plaintext
/// token, so it is unrecoverable once the token is lost.
pub struct SessionRow {
    /// Lower-case hex of the SHA-256 digest of the plaintext token.
    pub id: String,
    /// The account the session belongs to.
    pub account_id: String,
    /// The device the session was opened for.
    pub device_id: String,
    /// Hex of the encrypted storage passphrase envelope.
    pub pass: String,
    /// Seconds since the epoch of the login that created this row.
    pub last_used: u64,
}

/// One stored version of a file.
pub struct FileVersion {
    /// Catalog-assigned identifier, monotonic over all inserts.
    pub version: u64,
    /// Size of the content in bytes.
    pub size: u64,
    /// Lower-case hex of the content's SHA-256 digest.
    pub hash: String,
    /// Seconds since the epoch of the client's modification time.
    pub created: u64,
    /// The blob-store key holding this version's bytes.
    pub storage_name: String,
}

impl FileVersion {
    /// A copy of this version, field for field.
    pub fn duplicate(&self) -> (r: FileVersion)
        ensures
            r == *self,
    {
        FileVersion {
            version: self.version,
            size: self.size,
            hash: self.hash.clone(),
            created: self.created,
            storage_name: self.storage_name.clone(),
        }
    }
}

/// One file row of the catalog, with its versions in insertion order.
pub struct FileRow {
    /// Catalog-assigned identifier.
    pub id: u64,
    /// The account the file belongs to.
    pub account_id: String,
    /// The device the file was uploaded from.
    pub device_id: String,
    /// The client-side name of the file.
    pub original_name: String,
    /// Deterministic hash of account, device and original name; the
    /// find-or-create key for this row.
    pub identity_hash: String,
    /// All stored versions, ordered by insertion.
    pub versions: Vec<FileVersion>,
}

/// A copy of a version list, element for element.
pub fn duplicate_versions(vs: &Vec<FileVersion>) -> (r: Vec<FileVersion>)
    ensures
        r@ == vs@,
{
    let mut out: Vec<FileVersion> = Vec::new();
    let mut i: usize = 0;
    while i < vs.len()
        invariant
            i <= vs@.len(),
            out@ == vs@.take(i as int),
        decreases vs@.len() - i,
    {
        out.push(vs[i].duplicate());
        proof {
            assert(out@ =~= vs@.take(i + 1 as int));
        }
        i = i + 1;
    }
    proof {
        assert(vs@.take(vs@.len() as int) =~= vs@);
    }
    out
}

/// Whether a snapshot copies this row, field for field and version for
/// version.
pub open spec fn is_snapshot(f: File, row: FileRow) -> bool {
    &&& f.id == row.id
    &&& f.device_id@ == row.device_id@
    &&& f.original_name@ == row.original_name@
    &&& f.versions@ == row.versions@
}

impl FileRow {
    /// A snapshot of this row for callers: later catalog mutations do not
    /// show through it.
    pub fn snapshot(&self) -> (r: File)
        ensures
            is_snapshot(r, *self),
    {
        File {
            id: self.id,
            device_id: self.device_id.clone(),
            original_name: self.original_name.clone(),
            versions: duplicate_versions(&self.versions),
        }
    }
}

/// A file snapshot handed to callers: a copy, not a live reference.
pub struct File {
    /// Catalog-assigned identifier.
    pub id: u64,
    /// The device the file was uploaded from.
    pub device_id: String,
    /// The client-side name of the file.
    pub original_name: String,
    /// All stored versions, ordered by insertion.
    pub versions: Vec<FileVersion>,
}

/// Metadata of an upload in flight, before any catalog row exists.
pub struct UploadedFile {
    /// The client-side name of the file.
    pub original_name: String,
    /// Size declared by the client, in bytes.
    pub size: u64,
    /// Seconds since the epoch of the client's modification time.
    pub mtime: u64,
    /// The account the upload belongs to.
    pub account_id: String,
    /// The device the upload comes from.
    pub device_id: String,
    /// Deterministic hash of account, device and original name.
    pub identity_hash: String,
}

/// The identity resolved from a session token: who is calling, and the
/// storage passphrase recovered from the session envelope.
#[derive(Clone, Debug)]
pub struct DeviceIdentity {
    /// The device the session was opened for.
    pub id: String,
    /// The account the session belongs to.
    pub account_id: String,
    /// The account's storage passphrase, decrypted.
    pub repo_pass: String,
}

impl View for DeviceIdentity {
    type V = (Seq<char>, Seq<char>, Seq<char>);

    open spec fn view(&self) -> (Seq<char>, Seq<char>, Seq<char>) {
        (self.id@, self.account_id@, self.repo_pass@)
    }
}

/// The view of an optional identity: what a cached authentication answer
/// says, including the negative answer.
pub open spec fn opt_ident_view(v: Option<DeviceIdentity>) -> Option<
    (Seq<char>, Seq<char>, Seq<char>),
> {
    match v {
        Some(d) => Some(d@),
        None => None,
    }
}

impl DeviceIdentity {
    /// A copy of this identity, field for field.
    pub fn duplicate(&self) -> (r: DeviceIdentity)
        ensures
            r == *self,
    {
        DeviceIdentity {
            id: self.id.clone(),
            account_id: self.account_id.clone(),
            repo_pass: self.repo_pass.clone(),
        }
    }
}

} // verus!
