use vstd::prelude::*;

verus! {

/// Stable key derived from an open file's metadata: the (device, inode) pair.
/// Two handles that refer to the same underlying file yield equal identities,
/// whichever process or descriptor opened them. The pair is not stable across
/// deletion and recreation of the file: callers must keep the rendezvous file
/// alive for the lifetime of a registration.
#[derive(Clone, Copy, PartialEq, Eq, Structural, Debug, Hash)]
pub struct FileIdentity {
    /// Identifier of the device the file lives on.
    pub dev: u64,
    /// Inode number of the file on that device.
    pub ino: u64,
}

/// What the resolver reads from an open file's metadata: the permission bits'
/// read-only flag and the (device, inode) pair. The caller that holds the real
/// file handle performs the metadata read and hands the result over as plain
/// values.
#[derive(Clone, Copy, PartialEq, Eq, Structural, Debug)]
pub struct FileMeta {
    /// Whether the file's permission bits mark it read-only.
    pub readonly: bool,
    /// Identifier of the device the file lives on.
    pub dev: u64,
    /// Inode number of the file on that device.
    pub ino: u64,
}

/// Why an identity could not be derived from a descriptor.
#[derive(Clone, Copy, PartialEq, Eq, Structural, Debug)]
pub enum ResolveError {
    /// The file's permission bits mark it read-only. Write access is treated
    /// as proof that the caller controls the rendezvous file, not merely
    /// found it.
    PermissionDenied,
    /// The handle could not be duplicated or its metadata could not be read.
    IoError,
}

/// The identity that resolution of a descriptor yields, or the error it fails
/// with: no metadata means an I/O failure, a read-only file is rejected, and
/// otherwise the identity is the (device, inode) pair of the metadata.
pub open spec fn spec_resolve(meta: Option<FileMeta>) -> Result<FileIdentity, ResolveError> {
    match meta {
        None => Err(ResolveError::IoError),
        Some(m) => if m.readonly {
            Err(ResolveError::PermissionDenied)
        } else {
            Ok(FileIdentity { dev: m.dev, ino: m.ino })
        },
    }
}

/// Derive a file's identity from its metadata, read by the caller from an open
/// handle. Fails with `IoError` when no metadata could be read, and with
/// `PermissionDenied` when the file is read-only.
pub fn resolve(meta: Option<FileMeta>) -> (r: Result<FileIdentity, ResolveError>)
    ensures
        r == spec_resolve(meta),
{
    match meta {
        None => Err(ResolveError::IoError),
        Some(m) => {
            if m.readonly {
                Err(ResolveError::PermissionDenied)
            } else {
                Ok(FileIdentity { dev: m.dev, ino: m.ino })
            }
        },
    }
}

} // verus!
