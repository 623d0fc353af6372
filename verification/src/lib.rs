//! A multi-tenant, deduplicating, encrypted backup service core.
//!
//! Devices belonging to an account push versioned files; the catalog tracks
//! accounts, devices, sessions, files and file versions, while the ingest
//! pipeline digests uploads and verifies the client's declared digest before
//! anything is committed. Blob-store, HTTP and database transports live
//! outside this crate; the logic here is verified.

use vstd::prelude::*;

pub mod cache;
pub mod dao;
pub mod encoding;
pub mod encryptor;
pub mod failures;
pub mod hexstr;
pub mod ingest;
pub mod laws;
pub mod results;
pub mod sha256;
pub mod structs;
pub mod token;

use crate::dao::{
    account_id_of, credentials_match, devices_of, has_session_pair, identity_hash_present,
    login_outcome, matching_rows, save_created_outcome, save_existing_outcome,
    session_lookup_spec, username_taken, Dao,
};
use crate::encoding::{u32_be_bytes, u64_be_bytes};
use crate::encryptor::Encryptor;
use crate::hexstr::hex_of;
use crate::results::{
    ListDevicesResult, ListFileResult, LoginResult, RegisterResult, RemoveFileResult,
    RemoveFileVersionResult, UploadResult, UploadedData,
};
use crate::sha256::{sha256_hex_of_chars, sha256_of};
use crate::structs::{is_snapshot, DeviceIdentity, File, FileVersion, UploadedFile};

verus! {

/// Version string reported by the service front end.
pub const APP_VERSION: &'static str = "0.1.0";

/// The identity hash of a file: a deterministic digest of account, device
/// and original name, used as a uniqueness key for the file row.
pub open spec fn identity_hash_of(
    account_id: Seq<char>,
    device_id: Seq<char>,
    original_name: Seq<char>,
) -> Seq<char> {
    hex_of(
        sha256_of(
            vstd::utf8::encode_utf8(account_id) + vstd::utf8::encode_utf8(device_id)
                + vstd::utf8::encode_utf8(original_name),
        ),
    )
}

/// The blob-store key of one upload: a digest of device, original name and
/// the upload instant at nanosecond resolution, making the key globally
/// unique with overwhelming probability even for identical content.
pub open spec fn storage_name_of(
    device_id: Seq<char>,
    original_name: Seq<char>,
    secs: u64,
    nanos: u32,
) -> Seq<char> {
    hex_of(
        sha256_of(
            vstd::utf8::encode_utf8(device_id) + vstd::utf8::encode_utf8(original_name)
                + u64_be_bytes(secs) + u32_be_bytes(nanos),
        ),
    )
}

/// The upload metadata for one incoming file, with its identity hash
/// computed from account, device and original name.
pub fn to_uploaded_file(
    account_id: &str,
    device_id: &str,
    original_name: &str,
    size: u64,
    mtime: u64,
) -> (r: UploadedFile)
    ensures
        r.original_name@ == original_name@,
        r.size == size,
        r.mtime == mtime,
        r.account_id@ == account_id@,
        r.device_id@ == device_id@,
        r.identity_hash@ == identity_hash_of(account_id@, device_id@, original_name@),
{
    let mut bytes: Vec<u8> = Vec::new();
    bytes.extend_from_slice(account_id.as_bytes());
    bytes.extend_from_slice(device_id.as_bytes());
    bytes.extend_from_slice(original_name.as_bytes());
    proof {
        assert(bytes@ =~= vstd::utf8::encode_utf8(account_id@) + vstd::utf8::encode_utf8(
            device_id@,
        ) + vstd::utf8::encode_utf8(original_name@));
    }
    let identity_hash = crate::sha256::sha256_hex(bytes.as_slice());
    UploadedFile {
        original_name: original_name.to_owned(),
        size,
        mtime,
        account_id: account_id.to_owned(),
        device_id: device_id.to_owned(),
        identity_hash,
    }
}

/// The blob-store key for an upload arriving now; see `storage_name_of`.
pub fn to_storage_name(pc_id: &str, orig_file_name: &str, secs: u64, nanos: u32) -> (r: String)
    ensures
        r@ == storage_name_of(pc_id@, orig_file_name@, secs, nanos),
{
    let mut bytes: Vec<u8> = Vec::new();
    bytes.extend_from_slice(pc_id.as_bytes());
    bytes.extend_from_slice(orig_file_name.as_bytes());
    let s = crate::encoding::transform_u64_to_bytes(secs);
    let n = crate::encoding::transform_u32_to_bytes(nanos);
    bytes.extend_from_slice(s.as_slice());
    bytes.extend_from_slice(n.as_slice());
    proof {
        assert(bytes@ =~= vstd::utf8::encode_utf8(pc_id@) + vstd::utf8::encode_utf8(
            orig_file_name@,
        ) + u64_be_bytes(secs) + u32_be_bytes(nanos));
    }
    crate::sha256::sha256_hex(bytes.as_slice())
}

/// Register an account; the caller supplies the current time, which seeds
/// the derived account id.
pub fn register(dao: &mut Dao, username: &str, pass: &str, now_secs: u64, now_nanos: u32) -> (r:
    RegisterResult)
    requires
        old(dao).wf(),
    ensures
        final(dao).wf(),
        username_taken(old(dao).accounts@, username@) ==> (r is Exists && *final(dao) == *old(
            dao,
        )),
        !username_taken(old(dao).accounts@, username@) ==> (r matches RegisterResult::Created(aid)
            && aid@ == account_id_of(username@, sha256_hex_of_chars(pass@), now_secs, now_nanos)
            && final(dao).accounts@.len() == old(dao).accounts@.len() + 1
            && final(dao).accounts@.take(old(dao).accounts@.len() as int) == old(dao).accounts@
            && final(dao).accounts@.last().id@ == aid@
            && final(dao).accounts@.last().username@ == username@
            && final(dao).accounts@.last().password_hash@ == sha256_hex_of_chars(pass@)),
        final(dao).sessions == old(dao).sessions,
        final(dao).files == old(dao).files,
        final(dao).next_file_id == old(dao).next_file_id,
        final(dao).next_version_id == old(dao).next_version_id,
        final(dao).session_cache == old(dao).session_cache,
{
    dao.register(username, pass, now_secs, now_nanos)
}

/// Log a device in; the caller supplies the current time, recorded as the
/// session's `last_used`.
pub fn login(
    dao: &mut Dao,
    enc: &Encryptor,
    device_id: &str,
    username: &str,
    pass: &str,
    now: u64,
) -> (r: LoginResult)
    requires
        old(dao).wf(),
        enc.wf(),
    ensures
        final(dao).wf(),
        r is AccountNotFound <==> (forall|j: int|
            0 <= j < old(dao).accounts@.len() ==> !credentials_match(
                old(dao).accounts@[j],
                username@,
                sha256_hex_of_chars(pass@),
            )),
        r is AccountNotFound ==> *final(dao) == *old(dao),
        r matches LoginResult::NewSession(t) ==> (exists|ai: int|
            0 <= ai < old(dao).accounts@.len() && credentials_match(
                old(dao).accounts@[ai],
                username@,
                sha256_hex_of_chars(pass@),
            ) && login_outcome(
                *old(dao),
                *final(dao),
                enc.iv@,
                old(dao).accounts@[ai].id@,
                device_id@,
                pass@,
                t@,
                now,
                false,
            )),
        r matches LoginResult::RenewedSession(t) ==> (exists|ai: int|
            0 <= ai < old(dao).accounts@.len() && credentials_match(
                old(dao).accounts@[ai],
                username@,
                sha256_hex_of_chars(pass@),
            ) && login_outcome(
                *old(dao),
                *final(dao),
                enc.iv@,
                old(dao).accounts@[ai].id@,
                device_id@,
                pass@,
                t@,
                now,
                true,
            )),
{
    dao.login(enc, device_id, username, pass, now)
}

/// Resolve a session token to the identity it was issued for, through the
/// bounded cache; see `Dao::authenticate`.
pub fn authenticate(dao: &mut Dao, enc: &Encryptor, session_pass: &str) -> (r: Option<
    DeviceIdentity,
>)
    requires
        enc.wf(),
    ensures
        final(dao).sessions == old(dao).sessions,
        final(dao).accounts == old(dao).accounts,
        final(dao).files == old(dao).files,
        final(dao).next_file_id == old(dao).next_file_id,
        final(dao).next_version_id == old(dao).next_version_id,
        old(dao).wf() ==> final(dao).wf(),
        old(dao).cache_coherent(enc.iv@) ==> crate::structs::opt_ident_view(r)
            == session_lookup_spec(old(dao).sessions@, enc.iv@, session_pass@),
        old(dao).cache_coherent(enc.iv@) ==> final(dao).cache_coherent(enc.iv@),
{
    dao.authenticate(enc, session_pass)
}

/// Commit an upload's outcome: a verified digest becomes a new file
/// version under the given storage name, a digest mismatch is reported and
/// commits nothing at all.
pub fn save(
    dao: &mut Dao,
    uploaded_file: &UploadedFile,
    uploaded: UploadedData,
    storage_name: String,
) -> (r: UploadResult)
    requires
        old(dao).wf(),
        old(dao).next_file_id < u64::MAX,
        old(dao).next_version_id < u64::MAX,
    ensures
        final(dao).wf(),
        final(dao).accounts == old(dao).accounts,
        final(dao).sessions == old(dao).sessions,
        final(dao).session_cache == old(dao).session_cache,
        uploaded is MismatchSha256 ==> (*final(dao) == *old(dao) && r is MismatchSha256),
        uploaded is Success ==> final(dao).next_version_id == old(dao).next_version_id + 1,
        uploaded matches UploadedData::Success(size, hash) ==> (r matches UploadResult::Success(f)
            && (identity_hash_present(old(dao).files@, uploaded_file.identity_hash@)
            ==> save_existing_outcome(
            *old(dao),
            *final(dao),
            *uploaded_file,
            (FileVersion {
                version: 0,
                size: size,
                hash: hash,
                created: uploaded_file.mtime,
                storage_name: storage_name,
            }),
            f,
        )) && (!identity_hash_present(old(dao).files@, uploaded_file.identity_hash@)
            ==> save_created_outcome(
            *old(dao),
            *final(dao),
            *uploaded_file,
            (FileVersion {
                version: 0,
                size: size,
                hash: hash,
                created: uploaded_file.mtime,
                storage_name: storage_name,
            }),
            f,
        ))),
{
    match uploaded {
        UploadedData::Success(size, hash) => {
            let new_version = FileVersion {
                version: 0,  // assigned by the catalog on insert
                size,
                hash,
                created: uploaded_file.mtime,
                storage_name,
            };
            UploadResult::Success(dao.save_file_version(uploaded_file, new_version))
        },
        UploadedData::MismatchSha256 => UploadResult::MismatchSha256,
    }
}

/// Resolve one version for download: its digest, size and storage name.
/// The transport streams the blob separately; an absent version is "not
/// found".
pub fn load(dao: &Dao, version_id: u64) -> (r: Option<(String, u64, String)>)
    ensures
        r matches Some(t) ==> (exists|i: int, k: int|
            0 <= i < dao.files@.len() && 0 <= k < dao.files@[i].versions@.len()
                && dao.files@[i].versions@[k].version == version_id && t.0@
                == dao.files@[i].versions@[k].hash@ && t.1 == dao.files@[i].versions@[k].size
                && t.2@ == dao.files@[i].versions@[k].storage_name@),
        r is None ==> (forall|i: int, k: int|
            0 <= i < dao.files@.len() && 0 <= k < dao.files@[i].versions@.len()
                ==> dao.files@[i].versions@[k].version != version_id),
{
    dao.get_hash_size_and_storage_name(version_id)
}

/// List one device's files for the calling account; an unknown device is
/// distinguished from a device with no files.
pub fn list_files(dao: &Dao, account_id: &str, device_id: &str) -> (r: ListFileResult)
    ensures
        r matches ListFileResult::Success(v) ==> (v@.len() == matching_rows(
            dao.files@,
            account_id@,
            device_id@,
        ).len() && (forall|k: int|
            0 <= k < v@.len() ==> is_snapshot(
                v@[k],
                matching_rows(dao.files@, account_id@, device_id@)[k],
            )) && (v@.len() > 0 || has_session_pair(dao.sessions@, account_id@, device_id@))),
        r is DeviceNotFound ==> matching_rows(dao.files@, account_id@, device_id@).len() == 0
            && !has_session_pair(dao.sessions@, account_id@, device_id@),
{
    match dao.list_files(account_id, device_id) {
        Some(list) => ListFileResult::Success(list),
        None => ListFileResult::DeviceNotFound,
    }
}

/// List the devices known to the account: those with a session.
pub fn list_devices(dao: &Dao, account_id: &str) -> (r: ListDevicesResult)
    ensures
        r matches ListDevicesResult::Success(v) && v.deep_view() == devices_of(
            dao.sessions@,
            account_id@,
        ),
{
    ListDevicesResult::Success(dao.get_devices(account_id))
}

/// Remove one version's metadata; the caller must then delete the returned
/// blob-store key.
pub fn remove_file_version(dao: &mut Dao, version_id: u64) -> (r: Option<String>)
    requires
        old(dao).wf(),
    ensures
        final(dao).wf(),
        r is None ==> final(dao).files == old(dao).files && (forall|i: int, k: int|
            0 <= i < old(dao).files@.len() && 0 <= k < old(dao).files@[i].versions@.len()
                ==> old(dao).files@[i].versions@[k].version != version_id),
        r matches Some(sn) ==> (exists|i: int, k: int|
            {
                &&& 0 <= i < old(dao).files@.len()
                &&& 0 <= k < old(dao).files@[i].versions@.len()
                &&& old(dao).files@[i].versions@[k].version == version_id
                &&& sn@ == old(dao).files@[i].versions@[k].storage_name@
                &&& final(dao).files@.len() == old(dao).files@.len()
                &&& (forall|m: int|
                    0 <= m < old(dao).files@.len() && m != i ==> final(dao).files@[m] == old(
                        dao,
                    ).files@[m])
                &&& final(dao).files@[i].versions@ == old(dao).files@[i].versions@.remove(k)
            }),
{
    dao.remove_file_version(version_id)
}

/// Remove a file's metadata with all its versions; the caller must then
/// delete every returned blob-store key.
pub fn remove_file(dao: &mut Dao, device_id: &str, file_id: u64) -> (r: Option<Vec<String>>)
    requires
        old(dao).wf(),
    ensures
        final(dao).wf(),
        r is None ==> *final(dao) == *old(dao) && !(exists|i: int|
            0 <= i < old(dao).files@.len() && old(dao).files@[i].id == file_id && old(
                dao,
            ).files@[i].device_id@ == device_id@ && old(dao).files@[i].versions@.len() > 0),
        r matches Some(v) ==> (exists|i: int|
            {
                &&& 0 <= i < old(dao).files@.len()
                &&& old(dao).files@[i].id == file_id
                &&& old(dao).files@[i].device_id@ == device_id@
                &&& old(dao).files@[i].versions@.len() > 0
                &&& v.deep_view() == crate::dao::names_of(old(dao).files@[i].versions@)
                &&& final(dao).files@ == old(dao).files@.remove(i)
            }),
{
    dao.remove_file(device_id, file_id)
}

/// Fold one version's blob deletion outcome into the reported result: an
/// absent version is "not found", a deleted blob is success, and a blob
/// that could not be deleted is a hard failure, never silently accepted.
pub fn remove_file_version_outcome(storage_name: Option<String>, blob_deleted: bool) -> (r:
    Result<RemoveFileVersionResult, crate::failures::CustomError>)
    ensures
        storage_name is None ==> (r matches Ok(o) && o is FileNotFound),
        storage_name is Some && blob_deleted ==> (r matches Ok(o) && o is Success),
        storage_name is Some && !blob_deleted ==> r is Err,
{
    match storage_name {
        None => Ok(RemoveFileVersionResult::FileNotFound),
        Some(_) => {
            if blob_deleted {
                Ok(RemoveFileVersionResult::Success)
            } else {
                Err(crate::failures::CustomError::new("could not remove the blob"))
            }
        },
    }
}

/// Fold the blob deletions' outcomes into the reported result: everything
/// deleted is success, any failure is reported with exactly the storage
/// names whose deletion failed, and an absent file is "not found".
pub fn remove_file_outcome(storage_names: Option<Vec<String>>, failed: Vec<String>) -> (r:
    RemoveFileResult)
    ensures
        storage_names is None ==> r is FileNotFound,
        storage_names is Some && failed@.len() == 0 ==> r is Success,
        storage_names is Some && failed@.len() > 0 ==> (r
            matches RemoveFileResult::PartialFailure(v) && v == failed),
{
    match storage_names {
        None => RemoveFileResult::FileNotFound,
        Some(_) => {
            if failed.len() == 0 {
                RemoveFileResult::Success
            } else {
                RemoveFileResult::PartialFailure(failed)
            }
        },
    }
}

} // verus!
