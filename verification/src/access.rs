//! Directory access authorization: before a directory may be served, the
//! host process must be authorized to read it. The application performs
//! the filesystem checks and the host-policy grant; this module holds
//! the decision rules and a model of the process-wide allow-list, so
//! that the outcomes and the allow-list's evolution are proved.

use vstd::prelude::*;
use vstd::string::StringExecFns;

verus! {

/// Why a directory could not be authorized for serving.
#[derive(Clone, Copy, PartialEq, Eq, Structural, Debug)]
pub enum AccessError {
    /// The path does not exist.
    NotFound,
    /// The path exists but is not a directory.
    NotADirectory,
    /// The host refused to widen its filesystem allow-list.
    GrantDenied,
}

/// The text an authorization failure is reported with.
pub open spec fn access_error_text(e: AccessError) -> Seq<char> {
    match e {
        AccessError::NotFound => "path does not exist"@,
        AccessError::NotADirectory => "path is not a directory"@,
        AccessError::GrantDenied => "failed to allow directory"@,
    }
}

impl AccessError {
    /// The structured error string handed to the caller.
    pub fn message(&self) -> (r: String)
        ensures
            r@ == access_error_text(*self),
    {
        match self {
            AccessError::NotFound => String::from_str("path does not exist"),
            AccessError::NotADirectory => String::from_str("path is not a directory"),
            AccessError::GrantDenied => String::from_str("failed to allow directory"),
        }
    }
}

/// The outcome owed for given path-check results: the checks
/// are consulted first, the host grant only once both checks pass.
pub open spec fn validate_spec(exists: bool, is_dir: bool) -> Result<(), AccessError> {
    if !exists {
        Err(AccessError::NotFound)
    } else if !is_dir {
        Err(AccessError::NotADirectory)
    } else {
        Ok(())
    }
}

/// Decides whether a path may be granted, from the results of the
/// application's filesystem checks: `exists` and `is_dir` report
/// whether the path exists and whether it is a directory.
pub fn validate_directory(exists: bool, is_dir: bool) -> (r: Result<(), AccessError>)
    ensures
        r == validate_spec(exists, is_dir),
{
    if !exists {
        Err(AccessError::NotFound)
    } else if !is_dir {
        Err(AccessError::NotADirectory)
    } else {
        Ok(())
    }
}

/// A model of the host's filesystem allow-list: the set of directory
/// roots the process has been granted read access to. The application
/// mirrors every successful host grant here, so the recorded set is
/// exactly what has been granted since process start.
pub struct ScopePolicy {
    granted: Vec<String>,
}

impl ScopePolicy {
    /// The set of granted directory roots.
    pub closed spec fn view(&self) -> Set<Seq<char>> {
        self.granted@.map_values(|s: String| s@).to_set()
    }

    /// A fresh policy: nothing has been granted yet.
    pub fn new() -> (r: ScopePolicy)
        ensures
            r@ == Set::<Seq<char>>::empty(),
    {
        let r = ScopePolicy { granted: Vec::new() };
        proof {
            assert(r.granted@.map_values(|s: String| s@) =~= Seq::<Seq<char>>::empty());
            assert(r@ =~= Set::<Seq<char>>::empty());
        }
        r
    }

    /// Records the host's answer to a grant attempt for `path`. On
    /// success the path is in the allow-list afterwards; on refusal
    /// the allow-list is unchanged and the caller is told `GrantDenied`.
    pub fn record_grant(&mut self, path: &String, grant_ok: bool) -> (r: Result<(), AccessError>)
        ensures
            grant_ok ==> r == Ok::<(), AccessError>(()) && final(self)@ == old(self)@.insert(path@),
            !grant_ok ==> r == Err::<(), AccessError>(AccessError::GrantDenied)
                && final(self)@ == old(self)@,
    {
        if grant_ok {
            let ghost before = self.granted@;
            self.granted.push(path.clone());
            proof {
                let mb = before.map_values(|s: String| s@);
                let ma = self.granted@.map_values(|s: String| s@);
                assert(ma =~= mb + seq![path@]);
                Seq::<Seq<char>>::lemma_to_set_insert_commutes(mb, path@);
            }
            Ok(())
        } else {
            Err(AccessError::GrantDenied)
        }
    }

    /// Whether `path` has been granted.
    pub fn is_granted(&self, path: &String) -> (r: bool)
        ensures
            r == self@.contains(path@),
    {
        let mut i: usize = 0;
        while i < self.granted.len()
            invariant
                i <= self.granted.len(),
                forall|k: int| 0 <= k < i ==> self.granted@[k]@ != path@,
            decreases self.granted.len() - i,
        {
            if (&self.granted[i]).eq(path) {
                proof {
                    assert(self.granted@.map_values(|s: String| s@)[i as int] == path@);
                    assert(self@.contains(path@));
                }
                return true;
            }
            i += 1;
        }
        proof {
            let m = self.granted@.map_values(|s: String| s@);
            assert(forall|k: int| 0 <= k < m.len() ==> #[trigger] m[k] != path@);
            assert(!m.contains(path@));
            assert(!self@.contains(path@));
        }
        false
    }
}

/// The full outcome of one authorization attempt: the new
/// allow-list and the result handed to the caller. `grant_ok` is the
/// host's answer to the widening, consulted only when both path checks
/// pass.
pub open spec fn authorize_spec(
    policy: Set<Seq<char>>,
    path: Seq<char>,
    exists: bool,
    is_dir: bool,
    grant_ok: bool,
) -> (Set<Seq<char>>, Result<(), AccessError>) {
    if !exists {
        (policy, Err(AccessError::NotFound))
    } else if !is_dir {
        (policy, Err(AccessError::NotADirectory))
    } else if !grant_ok {
        (policy, Err(AccessError::GrantDenied))
    } else {
        (policy.insert(path), Ok(()))
    }
}

/// Authorizes `path` for serving: validates the application's path
/// checks, then records the host's grant answer. The allow-list is
/// touched only when both checks pass and the host agreed.
pub fn authorize(
    policy: &mut ScopePolicy,
    path: &String,
    exists: bool,
    is_dir: bool,
    grant_ok: bool,
) -> (r: Result<(), AccessError>)
    ensures
        (final(policy)@, r) == authorize_spec(old(policy)@, path@, exists, is_dir, grant_ok),
{
    match validate_directory(exists, is_dir) {
        Err(e) => Err(e),
        Ok(()) => policy.record_grant(path, grant_ok),
    }
}

/// Authorizing a path that exists and is a directory, with the host
/// agreeing to the grant, always succeeds — and doing it twice leaves
/// the allow-list exactly as doing it once does: the grant is
/// idempotent.
pub proof fn lemma_authorize_idempotent(policy: Set<Seq<char>>, path: Seq<char>)
    ensures
        authorize_spec(policy, path, true, true, true).1 == Ok::<(), AccessError>(()),
        ({
            let once = authorize_spec(policy, path, true, true, true).0;
            let twice = authorize_spec(once, path, true, true, true).0;
            twice == once
        }),
{
    let once = authorize_spec(policy, path, true, true, true).0;
    assert(once.insert(path) =~= once);
}

} // verus!
