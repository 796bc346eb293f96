//! Role-based access control: administrator, verifier, and identity-owner
//! checks, and the granting and revoking of verifier roles.

use vstd::prelude::*;

use crate::governance::distinct_seq;
use crate::state::vec_contains;
use crate::state::CredenceBond;

verus! {

/// Why an access check was refused.
#[derive(Clone, Copy, Debug, PartialEq, Eq, Structural)]
pub enum AccessError {
    NotAdmin,
    NotVerifier,
    NotIdentityOwner,
    NotInitialized,
}

/// Requires that `caller` owns the identity `expected_identity`; a direct
/// address equality check.
pub fn require_identity_owner(caller: u64, expected_identity: u64) -> (r: Result<(), AccessError>)
    ensures
        caller == expected_identity ==> r is Ok,
        caller != expected_identity ==> (r matches Err(e) && e == AccessError::NotIdentityOwner),
{
    if caller == expected_identity {
        Ok(())
    } else {
        Err(AccessError::NotIdentityOwner)
    }
}

impl CredenceBond {
    /// Whether `address` holds the verifier role.
    pub open spec fn is_verifier_spec(self, address: u64) -> bool {
        self.verifiers@.contains(address)
    }

    /// Whether `address` is the recorded administrator.
    pub open spec fn is_admin_spec(self, address: u64) -> bool {
        self.admin matches Some(a) && a == address
    }

    /// Requires that `caller` is the recorded administrator.
    pub fn require_admin(&self, caller: u64) -> (r: Result<(), AccessError>)
        ensures
            self.admin is None ==> (r matches Err(e) && e == AccessError::NotInitialized),
            self.admin is Some && caller != self.admin->0 ==> (r matches Err(e) && e
                == AccessError::NotAdmin),
            self.admin is Some && caller == self.admin->0 ==> r is Ok,
    {
        match self.admin {
            Some(a) => {
                if caller == a {
                    Ok(())
                } else {
                    Err(AccessError::NotAdmin)
                }
            },
            None => Err(AccessError::NotInitialized),
        }
    }

    /// Requires that `caller` holds the verifier role.
    pub fn require_verifier(&self, caller: u64) -> (r: Result<(), AccessError>)
        ensures
            self.is_verifier_spec(caller) ==> r is Ok,
            !self.is_verifier_spec(caller) ==> (r matches Err(e) && e == AccessError::NotVerifier),
    {
        if vec_contains(&self.verifiers, caller) {
            Ok(())
        } else {
            Err(AccessError::NotVerifier)
        }
    }

    /// Requires that `caller` is the administrator or holds the verifier
    /// role.
    pub fn require_admin_or_verifier(&self, caller: u64) -> (r: Result<(), AccessError>)
        ensures
            self.is_admin_spec(caller) || self.is_verifier_spec(caller) ==> r is Ok,
            !(self.is_admin_spec(caller) || self.is_verifier_spec(caller)) ==> (r matches Err(e)
                && e == AccessError::NotVerifier),
    {
        let is_admin = match self.admin {
            Some(a) => caller == a,
            None => false,
        };
        if is_admin {
            return Ok(());
        }
        if vec_contains(&self.verifiers, caller) {
            Ok(())
        } else {
            Err(AccessError::NotVerifier)
        }
    }

    /// Whether `address` holds the verifier role.
    pub fn is_verifier(&self, address: u64) -> (r: bool)
        ensures
            r == self.is_verifier_spec(address),
    {
        vec_contains(&self.verifiers, address)
    }

    /// Whether `address` is the recorded administrator.
    pub fn is_admin(&self, address: u64) -> (r: bool)
        ensures
            r == self.is_admin_spec(address),
    {
        match self.admin {
            Some(a) => address == a,
            None => false,
        }
    }

    /// Grants the verifier role to `verifier`; only the administrator may.
    /// Granting a role that is already held changes nothing.
    pub fn add_verifier_role(&mut self, admin: u64, verifier: u64) -> (r: Result<(), AccessError>)
        requires
            old(self).wf(),
        ensures
            old(self).admin is None ==> (r matches Err(e) && e == AccessError::NotInitialized
                && *final(self) == *old(self)),
            old(self).admin is Some && admin != old(self).admin->0 ==> (r matches Err(e) && e
                == AccessError::NotAdmin && *final(self) == *old(self)),
            old(self).is_admin_spec(admin) && old(self).is_verifier_spec(verifier) ==> (r is Ok
                && *final(self) == *old(self)),
            old(self).is_admin_spec(admin) && !old(self).is_verifier_spec(verifier) ==> ({
                &&& r is Ok
                &&& final(self).verifiers@ == old(self).verifiers@.push(verifier)
                &&& final(self).admin == old(self).admin
                &&& final(self).config == old(self).config
                &&& final(self).bond == old(self).bond
                &&& final(self).request == old(self).request
                &&& final(self).fees == old(self).fees
                &&& final(self).locked == old(self).locked
            }),
            final(self).wf(),
    {
        match self.require_admin(admin) {
            Ok(()) => {},
            Err(e) => { return Err(e) },
        }
        if vec_contains(&self.verifiers, verifier) {
            return Ok(());
        }
        proof {
            crate::governance::lemma_distinct_push(self.verifiers@, verifier);
        }
        self.verifiers.push(verifier);
        Ok(())
    }

    /// Revokes the verifier role from `verifier`; only the administrator
    /// may. Revoking a role that is not held changes nothing; otherwise
    /// exactly that one role disappears.
    pub fn remove_verifier_role(&mut self, admin: u64, verifier: u64) -> (r: Result<
        (),
        AccessError,
    >)
        requires
            old(self).wf(),
        ensures
            old(self).admin is None ==> (r matches Err(e) && e == AccessError::NotInitialized
                && *final(self) == *old(self)),
            old(self).admin is Some && admin != old(self).admin->0 ==> (r matches Err(e) && e
                == AccessError::NotAdmin && *final(self) == *old(self)),
            old(self).is_admin_spec(admin) && !old(self).is_verifier_spec(verifier) ==> (r is Ok
                && *final(self) == *old(self)),
            old(self).is_admin_spec(admin) && old(self).is_verifier_spec(verifier) ==> ({
                &&& r is Ok
                &&& final(self).verifiers@.len() == old(self).verifiers@.len() - 1
                &&& forall|x: u64|
                    final(self).verifiers@.contains(x) <==> (old(self).verifiers@.contains(x) && x
                        != verifier)
                &&& final(self).admin == old(self).admin
                &&& final(self).config == old(self).config
                &&& final(self).bond == old(self).bond
                &&& final(self).request == old(self).request
                &&& final(self).fees == old(self).fees
                &&& final(self).locked == old(self).locked
            }),
            final(self).wf(),
    {
        match self.require_admin(admin) {
            Ok(()) => {},
            Err(e) => { return Err(e) },
        }
        let mut i: usize = 0;
        while i < self.verifiers.len()
            invariant
                *self == *old(self),
                old(self).wf(),
                old(self).admin is Some && admin == old(self).admin->0,
                0 <= i <= old(self).verifiers@.len(),
                forall|k: int| 0 <= k < i ==> old(self).verifiers@[k] != verifier,
            decreases old(self).verifiers@.len() - i,
        {
            if self.verifiers[i] == verifier {
                self.verifiers.remove(i);
                proof {
                    lemma_distinct_remove(old(self).verifiers@, i as int);
                }
                return Ok(());
            }
            i = i + 1;
        }
        proof {
            assert(!old(self).verifiers@.contains(verifier));
        }
        Ok(())
    }
}

/// Removing the element at `i` from a duplicate-free sequence keeps it
/// duplicate-free, and exactly that one value's membership disappears.
proof fn lemma_distinct_remove(s: Seq<u64>, i: int)
    requires
        distinct_seq(s),
        0 <= i < s.len(),
    ensures
        distinct_seq(s.remove(i)),
        forall|x: u64| s.remove(i).contains(x) <==> (s.contains(x) && x != s[i]),
{
    let t = s.remove(i);
    s.remove_ensures(i);
    assert forall|x: u64| t.contains(x) implies (s.contains(x) && x != s[i]) by {
        let j = choose|j: int| 0 <= j < t.len() && t[j] == x;
        if j < i {
            assert(s[j] == x);
        } else {
            assert(s[j + 1] == x);
        }
        assert(s.contains(x));
        if x == s[i] {
            if j < i {
                assert(s[j] == s[i]);
                assert(false);
            } else {
                assert(s[j + 1] == s[i]);
                assert(false);
            }
        }
    }
    assert forall|x: u64| s.contains(x) && x != s[i] implies t.contains(x) by {
        let j = choose|j: int| 0 <= j < s.len() && s[j] == x;
        if j < i {
            assert(t[j] == x);
        } else {
            assert(j != i);
            assert(t[j - 1] == s[j]);
        }
    }
    assert forall|p: int, q: int| 0 <= p < q < t.len() implies t[p] != t[q] by {
        let sp: int = if p < i {
            p
        } else {
            p + 1
        };
        let sq: int = if q < i {
            q
        } else {
            q + 1
        };
        assert(t[p] == s[sp]);
        assert(t[q] == s[sq]);
    }
}

} // verus!
