//! The richly-typed outcomes of the service operations. Expected business
//! outcomes are values here, never errors; only transport failures live
//! outside these types.

use vstd::prelude::*;

use crate::structs::File;

verus! {

/// Outcome of registering an account.
pub enum RegisterResult {
    /// A fresh account was created, with its new account id.
    Created(String),
    /// The username is already taken; nothing changed.
    Exists,
}

/// Outcome of logging a device in.
pub enum LoginResult {
    /// First session for this account and device; carries the plaintext token.
    NewSession(String),
    /// The pair already had a session, now replaced; carries the new token.
    RenewedSession(String),
    /// No account matches the credentials.
    AccountNotFound,
}

/// Outcome of digesting an upload's body against the declared digest.
pub enum UploadedData {
    /// Digest matched: size received and the computed digest in hex.
    Success(u64, String),
    /// The declared digest differs from the computed one.
    MismatchSha256,
}

/// Outcome of a whole upload.
pub enum UploadResult {
    /// Committed; the file snapshot including the new version.
    Success(File),
    /// The request was malformed; carries a description.
    InvalidRequest(String),
    /// The declared digest differs from the computed one; nothing committed.
    MismatchSha256,
}

/// Outcome of listing a device's files.
pub enum ListFileResult {
    /// The device is known; its files, possibly none.
    Success(Vec<File>),
    /// The device has no session with this account.
    DeviceNotFound,
}

/// Outcome of listing an account's devices.
pub enum ListDevicesResult {
    /// The devices with a session for the account.
    Success(Vec<String>),
}

/// Outcome of removing a file with all its versions.
pub enum RemoveFileResult {
    /// Metadata and every blob were removed.
    Success,
    /// Metadata was removed but some blob deletions failed; carries the
    /// storage names whose deletion failed.
    PartialFailure(Vec<String>),
    /// No such file for this device.
    FileNotFound,
}

/// Outcome of removing one file version.
pub enum RemoveFileVersionResult {
    /// Metadata and the blob were removed.
    Success,
    /// No such version.
    FileNotFound,
}

} // verus!
