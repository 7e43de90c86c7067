//! The redirection of one function: from its original address to a
//! replacement, prepared first and activated later.
//!
//! The patching of code is the work of a backend that this module does not
//! know. What is kept here is the record of the redirection and the rules of
//! its life: it is prepared once, for addresses that can be told apart; it is
//! activated once; and its two addresses never change.

use vstd::prelude::*;

verus! {

/// Why a redirection could not be prepared.
#[derive(Clone, Copy, PartialEq, Eq, Debug, Structural)]
pub enum InstallError {
    /// The original address is null.
    NullOriginal,
    /// The replacement address is null.
    NullReplacement,
    /// The original and the replacement are one and the same function.
    SameAddress,
    /// The backend cannot patch the original's entry.
    NotHookable,
}

/// Why a redirection could not be activated.
#[derive(Clone, Copy, PartialEq, Eq, Debug, Structural)]
pub enum EnableError {
    /// The redirection is active already.
    AlreadyEnabled,
    /// The backend did not activate it.
    Refused,
}

/// A redirection as a mathematical value.
pub struct RedirectionModel {
    pub original: usize,
    pub replacement: usize,
    pub enabled: bool,
}

/// A prepared redirection. There is one record of it and no way to make a
/// second: what is activated once is activated for good.
#[derive(PartialEq, Eq, Debug, Structural)]
pub struct Redirection {
    original: usize,
    replacement: usize,
    enabled: bool,
}

impl View for Redirection {
    type V = RedirectionModel;

    closed spec fn view(&self) -> RedirectionModel {
        RedirectionModel {
            original: self.original,
            replacement: self.replacement,
            enabled: self.enabled,
        }
    }
}

/// What is wrong with the two addresses, if anything, before the backend
/// has even been asked.
pub open spec fn address_fault(original: usize, replacement: usize) -> Option<InstallError> {
    if original == 0 {
        Some(InstallError::NullOriginal)
    } else if replacement == 0 {
        Some(InstallError::NullReplacement)
    } else if original == replacement {
        Some(InstallError::SameAddress)
    } else {
        None
    }
}

/// What becomes of an attempt to prepare a redirection; `hookable` is the
/// backend's word on the original's entry.
pub open spec fn installation(original: usize, replacement: usize, hookable: bool) -> Result<
    RedirectionModel,
    InstallError,
> {
    match address_fault(original, replacement) {
        Some(fault) => Err(fault),
        None => if hookable {
            Ok(RedirectionModel { original, replacement, enabled: false })
        } else {
            Err(InstallError::NotHookable)
        },
    }
}

impl RedirectionModel {
    /// The two addresses are not null and differ.
    pub open spec fn wf(self) -> bool {
        self.original != 0 && self.replacement != 0 && self.original != self.replacement
    }

    /// What becomes of an attempt to activate the redirection; `activated`
    /// is the backend's word.
    pub open spec fn activation(self, activated: bool) -> Result<RedirectionModel, EnableError> {
        if self.enabled {
            Err(EnableError::AlreadyEnabled)
        } else if activated {
            Ok(RedirectionModel { enabled: true, ..self })
        } else {
            Err(EnableError::Refused)
        }
    }
}

/// Checks the two addresses before the backend is asked to patch anything.
pub fn check_addresses(original: usize, replacement: usize) -> (verdict: Result<(), InstallError>)
    ensures
        verdict is Ok <==> address_fault(original, replacement) is None,
        verdict matches Err(fault) ==> address_fault(original, replacement) == Some(fault),
{
    if original == 0 {
        Err(InstallError::NullOriginal)
    } else if replacement == 0 {
        Err(InstallError::NullReplacement)
    } else if original == replacement {
        Err(InstallError::SameAddress)
    } else {
        Ok(())
    }
}

impl Redirection {
    #[verifier::type_invariant]
    spec fn well_formed(self) -> bool {
        self@.wf()
    }

    /// Prepares a redirection from `original` to `replacement` without
    /// activating it. `hookable` says whether the backend has been able to
    /// prepare its patch of the original's entry.
    pub fn install(original: usize, replacement: usize, hookable: bool) -> (outcome: Result<
        Redirection,
        InstallError,
    >)
        ensures
            outcome is Ok <==> installation(original, replacement, hookable) is Ok,
            outcome matches Ok(redirection) ==> installation(original, replacement, hookable)
                == Ok::<RedirectionModel, InstallError>(redirection@) && redirection@.wf(),
            outcome matches Err(error) ==> installation(original, replacement, hookable) == Err::<
                RedirectionModel,
                InstallError,
            >(error),
    {
        match check_addresses(original, replacement) {
            Err(fault) => Err(fault),
            Ok(()) => {
                if hookable {
                    Ok(Redirection { original, replacement, enabled: false })
                } else {
                    Err(InstallError::NotHookable)
                }
            },
        }
    }

    /// Activates the redirection. `activated` says whether the backend has
    /// put its patch in place. A redirection that is active already refuses
    /// a second activation; a refusal of either kind leaves it as it was.
    pub fn enable(&mut self, activated: bool) -> (outcome: Result<(), EnableError>)
        ensures
            outcome is Ok <==> old(self)@.activation(activated) is Ok,
            outcome is Ok ==> old(self)@.activation(activated) == Ok::<
                RedirectionModel,
                EnableError,
            >(final(self)@),
            outcome matches Err(error) ==> old(self)@.activation(activated) == Err::<
                RedirectionModel,
                EnableError,
            >(error) && *final(self) == *old(self),
            final(self)@.original == old(self)@.original,
            final(self)@.replacement == old(self)@.replacement,
            final(self)@.wf(),
    {
        proof {
            use_type_invariant(&*self);
        }
        if self.enabled {
            Err(EnableError::AlreadyEnabled)
        } else if activated {
            self.enabled = true;
            Ok(())
        } else {
            Err(EnableError::Refused)
        }
    }

    /// The address of the original function. It is not null.
    pub fn original(&self) -> (address: usize)
        ensures
            address == self@.original,
            address != 0,
            self@.wf(),
    {
        proof {
            use_type_invariant(self);
        }
        self.original
    }

    /// The address of the replacement. It is not null, and it is not the
    /// original's.
    pub fn replacement(&self) -> (address: usize)
        ensures
            address == self@.replacement,
            address != 0,
            address != self@.original,
            self@.wf(),
    {
        proof {
            use_type_invariant(self);
        }
        self.replacement
    }

    /// Whether calls through the original address reach the replacement.
    pub fn is_enabled(&self) -> (enabled: bool)
        ensures
            enabled == self@.enabled,
    {
        self.enabled
    }
}

/// A redirection is activated at most once: after a successful activation
/// every further one is refused, whatever the backend says, and the
/// redirection stays active with the addresses it was prepared with.
pub proof fn law_enabled_once(redirection: RedirectionModel, first: bool, second: bool)
    requires
        redirection.activation(first) is Ok,
    ensures
        redirection.activation(first)->Ok_0.enabled,
        redirection.activation(first)->Ok_0.original == redirection.original,
        redirection.activation(first)->Ok_0.replacement == redirection.replacement,
        redirection.activation(first)->Ok_0.activation(second) == Err::<
            RedirectionModel,
            EnableError,
        >(EnableError::AlreadyEnabled),
{
}

/// A redirection that was prepared is not active, and it was prepared only
/// for two addresses that are not null and differ, on the backend's word.
pub proof fn law_prepared_is_inactive(original: usize, replacement: usize, hookable: bool)
    requires
        installation(original, replacement, hookable) is Ok,
    ensures
        !installation(original, replacement, hookable)->Ok_0.enabled,
        installation(original, replacement, hookable)->Ok_0.wf(),
        hookable,
{
}

} // verus!
