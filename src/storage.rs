use crate::errors::Error;
use vstd::prelude::*;

verus! {

/// The storage backend that holds file bytes, chosen once at startup.
#[derive(Debug)]
pub enum Backend {
    /// Files in one flat directory.
    Local { root: String },
    /// An object store with one bucket per store, addressed path-style.
    ObjectStore,
}

pub open spec fn object_path_of(b: Backend, id: Seq<char>) -> Seq<char> {
    match b {
        Backend::Local { root } => root@ + seq!['/'] + id,
        Backend::ObjectStore => seq!['/'] + id,
    }
}

/// The object store is used exactly when both its region and endpoint are
/// configured.
pub fn select_backend(has_region: bool, has_endpoint: bool, local_root: String) -> (r: Backend)
    ensures
        (r is ObjectStore) == (has_region && has_endpoint),
        r is Local ==> r->root@ == local_root@,
{
    if has_region && has_endpoint {
        Backend::ObjectStore
    } else {
        Backend::Local { root: local_root }
    }
}

impl Backend {
    /// Where the bytes of file `id` live: a path under the root directory,
    /// or an object key inside the store's bucket.
    pub fn object_path(&self, id: &str) -> (r: String)
        ensures
            r@ == object_path_of(*self, id@),
    {
        let slash = String::from_str("/");
        proof { reveal_strlit("/"); }
        match self {
            Backend::Local { root } => {
                let mut p = root.clone();
                p.append("/");
                p.append(id);
                p
            }
            Backend::ObjectStore => slash.concat(id),
        }
    }
}

/// Outcome of a backend call: `Ok` only when the transport succeeded and the
/// object store answered with a success (2xx) status; anything else is a
/// `StorageError`.
pub fn check_response(transport_ok: bool, status: u16) -> (r: Result<(), Error>)
    ensures
        r is Ok <==> transport_ok && 200 <= status <= 299,
        r is Err ==> r == Err::<(), Error>(Error::StorageError),
{
    if transport_ok && 200 <= status && status <= 299 {
        Ok(())
    } else {
        Err(Error::StorageError)
    }
}

} // verus!
