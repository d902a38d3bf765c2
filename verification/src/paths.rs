//! Sanitation of persisted directory paths, and their mapping onto the
//! encrypted volume.
//!
//! A persisted directory must be an absolute POSIX path made of the root and
//! normal components alone: no empty component, no `.`, no `..`. This keeps
//! the per-directory host paths inside the encrypted mount.

use vstd::prelude::*;

use crate::identity::IdentityError;

verus! {

/// Whether position `i` ends a path segment: one past the end of the
/// string, or a separator.
pub open spec fn seg_boundary(s: Seq<char>, i: int) -> bool {
    i == s.len() || (0 <= i < s.len() && s[i] == '/')
}

/// An absolute POSIX path of root and normal components alone: it starts
/// with '/', no component is empty (which also rules out a trailing
/// separator), and no component is `.` or `..`.
pub open spec fn is_clean_path(s: Seq<char>) -> bool {
    &&& s.len() >= 1
    &&& s[0] == '/'
    &&& (forall|i: int|
        #![trigger s[i]]
        1 <= i < s.len() && s[i] == '/' ==> i + 1 < s.len() && s[i + 1] != '/')
    &&& (forall|i: int|
        #![trigger s[i]]
        1 <= i < s.len() && s[i - 1] == '/' && s[i] == '.' ==> !seg_boundary(s, i + 1) && !(s[i
            + 1] == '.' && seg_boundary(s, i + 2)))
}

/// Check that a container directory path is clean, rejecting anything that
/// could escape its bind-mounted host directory.
pub fn sanitize_container_dir(dir: &str) -> (r: Result<(), IdentityError>)
    ensures
        r is Ok <==> is_clean_path(dir@),
        r matches Err(e) ==> e matches IdentityError::InvalidRequest(m) && m@
            == "Invalid directory path"@,
{
    let n = dir.unicode_len();
    if n == 0 || dir.get_char(0) != '/' {
        return Err(IdentityError::InvalidRequest(String::from_str("Invalid directory path")));
    }
    let mut i: usize = 1;
    while i < n
        invariant
            1 <= i <= n,
            n == dir@.len(),
            dir@[0] == '/',
            forall|j: int|
                #![trigger dir@[j]]
                1 <= j < i && dir@[j] == '/' ==> j + 1 < n && dir@[j + 1] != '/',
            forall|j: int|
                #![trigger dir@[j]]
                1 <= j < i && dir@[j - 1] == '/' && dir@[j] == '.' ==> !seg_boundary(dir@, j + 1)
                    && !(dir@[j + 1] == '.' && seg_boundary(dir@, j + 2)),
        decreases n - i,
    {
        let c = dir.get_char(i);
        if c == '/' {
            if i + 1 == n || dir.get_char(i + 1) == '/' {
                return Err(
                    IdentityError::InvalidRequest(String::from_str("Invalid directory path")),
                );
            }
        }
        if c == '.' && dir.get_char(i - 1) == '/' {
            if i + 1 == n || dir.get_char(i + 1) == '/' {
                return Err(
                    IdentityError::InvalidRequest(String::from_str("Invalid directory path")),
                );
            }
            if dir.get_char(i + 1) == '.' && (i + 2 == n || dir.get_char(i + 2) == '/') {
                return Err(
                    IdentityError::InvalidRequest(String::from_str("Invalid directory path")),
                );
            }
        }
        i = i + 1;
    }
    Ok(())
}

/// Where a clean container directory is kept on the host: beneath the
/// `podman` directory of the encrypted mount, keyed by the container path
/// with its leading separator folded into the prefix.
pub open spec fn spec_host_dir(dir: Seq<char>) -> Seq<char> {
    if dir.len() >= 1 && dir[0] == '/' {
        "/tmp/tdx-identity-persist/podman"@ + dir
    } else {
        "/tmp/tdx-identity-persist/podman/"@ + dir
    }
}

/// Maps a container directory to the host directory that backs it on the
/// encrypted volume. Meant for paths that `sanitize_container_dir` accepts.
pub fn container_dir_to_host_dir(container_dir: &str) -> (r: String)
    ensures
        r@ == spec_host_dir(container_dir@),
{
    let n = container_dir.unicode_len();
    let mut r: String = if n >= 1 && container_dir.get_char(0) == '/' {
        String::from_str("/tmp/tdx-identity-persist/podman")
    } else {
        String::from_str("/tmp/tdx-identity-persist/podman/")
    };
    r.append(container_dir);
    r
}

} // verus!
