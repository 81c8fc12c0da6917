use vstd::prelude::*;

verus! {

/// Physical identity of the tailed file: device and inode numbers captured
/// when a tail session opens the path. Immutable for the life of a session.
#[derive(Clone, Copy, PartialEq, Eq, Structural, Debug)]
pub struct FileIdentity {
    pub dev: u64,
    pub ino: u64,
}

/// Verdict of re-statting the tailed path against the identity captured at
/// open time.
#[derive(Clone, Copy, PartialEq, Eq, Structural, Debug)]
pub enum IdentityCheck {
    Unchanged,
    Rotated,
}

/// A fresh stat is classified `Rotated` exactly when the device or the inode
/// differs from the captured identity, or when the reported size has fallen
/// below the byte offset already consumed (in-place truncation). Everything
/// else is `Unchanged`.
pub open spec fn spec_check(
    id: FileIdentity,
    dev: u64,
    ino: u64,
    size: u64,
    consumed: u64,
) -> IdentityCheck {
    if dev != id.dev || ino != id.ino || size < consumed {
        IdentityCheck::Rotated
    } else {
        IdentityCheck::Unchanged
    }
}

impl FileIdentity {
    /// Classify a fresh stat result against this identity.
    pub fn check(&self, dev: u64, ino: u64, size: u64, consumed: u64) -> (r: IdentityCheck)
        ensures
            r == spec_check(*self, dev, ino, size, consumed),
    {
        if dev != self.dev || ino != self.ino || size < consumed {
            IdentityCheck::Rotated
        } else {
            IdentityCheck::Unchanged
        }
    }
}

} // verus!
