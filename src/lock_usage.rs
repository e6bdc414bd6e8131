use vstd::prelude::*;

verus! {

/// How the lock file may be used, as asked on the command line.
#[derive(Clone, Copy, Debug, Default, PartialEq, Eq, Structural)]
pub struct LockFileUsageConfig {
    /// Install as the lock file says; do not update it.
    pub frozen: bool,
    /// Check that the lock file is up to date; abort when it is not.
    pub locked: bool,
}

/// The lock-file policy of a command.
#[derive(Clone, Copy, Debug, PartialEq, Eq, Structural)]
pub enum LockFileUsage {
    /// Update the lock file where it is out of date.
    Update,
    /// Fail where the lock file is out of date.
    Locked,
    /// Use the lock file as it stands.
    Frozen,
}

/// A contradictory lock-file configuration.
#[derive(Clone, Copy, Debug, PartialEq, Eq, Structural)]
pub enum LockFileUsageError {
    FrozenAndLocked,
}

impl LockFileUsageError {
    /// The diagnostic shown to the user; it names both options.
    pub fn message(&self) -> (r: &'static str)
        ensures
            r@ == "the argument '--locked' cannot be used together with '--frozen'"@,
    {
        "the argument '--locked' cannot be used together with '--frozen'"
    }
}

impl LockFileUsageConfig {
    /// Validate that the configuration is valid: frozen and locked exclude
    /// each other.
    pub fn validate(&self) -> (r: Result<(), LockFileUsageError>)
        ensures
            r is Err <==> self.frozen && self.locked,
    {
        if self.frozen && self.locked {
            return Err(LockFileUsageError::FrozenAndLocked);
        }
        Ok(())
    }

    /// The policy this configuration asks for.
    pub fn lock_file_usage(&self) -> (r: Result<LockFileUsage, LockFileUsageError>)
        ensures
            r is Err <==> self.frozen && self.locked,
            self.frozen && !self.locked ==> r == Ok::<LockFileUsage, LockFileUsageError>(LockFileUsage::Frozen),
            !self.frozen && self.locked ==> r == Ok::<LockFileUsage, LockFileUsageError>(LockFileUsage::Locked),
            !self.frozen && !self.locked ==> r == Ok::<LockFileUsage, LockFileUsageError>(LockFileUsage::Update),
    {
        match self.validate() {
            Err(e) => Err(e),
            Ok(()) => {
                if self.frozen {
                    Ok(LockFileUsage::Frozen)
                } else if self.locked {
                    Ok(LockFileUsage::Locked)
                } else {
                    Ok(LockFileUsage::Update)
                }
            },
        }
    }
}

} // verus!
