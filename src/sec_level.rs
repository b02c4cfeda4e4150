//! Resolution of a security level's service handles and the probe that tells a
//! KeyMint backend from a Keymaster one.
//!
//! The service lookups and registry queries happen outside; the functions here
//! take what they returned and decide. The handles themselves are carried
//! through as values of the caller's types `K` (the top-level service) and `B`
//! (the security level's sub-service).

use vstd::prelude::*;

verus! {

/// Registry name of the top-level keystore service.
pub const KEYSTORE_SERVICE_NAME: &'static str = "android.system.keystore2.IKeystoreService/default";

/// Registry name of the keystore authorization service.
pub const AUTH_SERVICE_NAME: &'static str = "android.security.authorization";

/// Service-specific error code by which a security level reports that its
/// hardware is not present.
pub const HARDWARE_TYPE_UNAVAILABLE: i32 = -68;

/// The security levels that a test can ask for.
#[derive(Clone, Copy, Debug, PartialEq, Eq, Structural)]
pub enum SecurityLevel {
    TrustedEnvironment,
    Strongbox,
}

/// The instance name under which the level's device interface is declared.
pub open spec fn instance_of(level: SecurityLevel) -> Seq<char> {
    match level {
        SecurityLevel::TrustedEnvironment => "default"@,
        SecurityLevel::Strongbox => "strongbox"@,
    }
}

/// The registry name of the KeyMint device interface for `level`.
pub open spec fn keymint_name(level: SecurityLevel) -> Seq<char> {
    "android.hardware.security.keymint.IKeyMintDevice/"@ + instance_of(level)
}

/// Whether the backend is KeyMint, given whether its KeyMint interface is declared.
pub open spec fn backend_is_keymint(declared: bool) -> bool {
    declared
}

/// Whether the backend is Keymaster, given whether its KeyMint interface is declared.
pub open spec fn backend_is_keymaster(declared: bool) -> bool {
    !declared
}

/// Whatever the registry answers, a backend is either KeyMint or Keymaster,
/// never both and never neither.
pub proof fn lemma_backend_kinds_complementary(declared: bool)
    ensures
        backend_is_keymint(declared) != backend_is_keymaster(declared),
{
}

impl SecurityLevel {
    /// The instance name under which this level's device interface is declared.
    pub fn instance_name(self) -> (r: &'static str)
        ensures
            r@ == instance_of(self),
    {
        match self {
            SecurityLevel::TrustedEnvironment => "default",
            SecurityLevel::Strongbox => "strongbox",
        }
    }
}

/// How asking the top-level service for a security level failed.
pub struct LookupFailure<E> {
    /// The service-specific error code, where the failure carries one.
    pub service_code: Option<i32>,
    /// The failure as the service returned it.
    pub status: E,
}

/// The failure says that the level's hardware is not present.
pub open spec fn is_unavailable<E>(f: LookupFailure<E>) -> bool {
    f.service_code == Some(HARDWARE_TYPE_UNAVAILABLE)
}

/// What remains to learn the KeyMint version of a security level.
pub enum VersionQuery {
    /// Ask the device interface of this name for its interface version.
    AskDevice(String),
    /// The version is known without asking.
    Known(i32),
}

/// The handles of one security level.
pub struct SecLevel<K, B> {
    /// Connection to the top-level service.
    pub keystore2: K,
    /// Connection to the security level's sub-service.
    pub binder: B,
    /// The security level that `binder` serves.
    pub level: SecurityLevel,
}

impl<K, B> SecLevel<K, B> {
    /// Resolves a level that must be present: a failed lookup is passed on.
    pub fn resolve_required<E>(level: SecurityLevel, keystore2: K, lookup: Result<B, E>) -> (r: Result<Self, E>)
        ensures
            match lookup {
                Ok(b) => r matches Ok(s) && s.keystore2 == keystore2 && s.binder == b && s.level == level,
                Err(e) => r == Err::<Self, E>(e),
            },
    {
        match lookup {
            Ok(binder) => Ok(SecLevel { keystore2, binder, level }),
            Err(e) => Err(e),
        }
    }

    /// Resolves a level that may be absent: a lookup that reports missing
    /// hardware gives `None`, any other failure is passed on.
    pub fn resolve_optional<E>(
        level: SecurityLevel,
        keystore2: K,
        lookup: Result<B, LookupFailure<E>>,
    ) -> (r: Result<Option<Self>, LookupFailure<E>>)
        ensures
            match lookup {
                Ok(b) => r matches Ok(Some(s)) && s.keystore2 == keystore2 && s.binder == b && s.level == level,
                Err(f) => if is_unavailable(f) {
                    r matches Ok(None)
                } else {
                    r == Err::<Option<Self>, LookupFailure<E>>(f)
                },
            },
    {
        match lookup {
            Ok(binder) => Ok(Some(SecLevel { keystore2, binder, level })),
            Err(f) => {
                let unavailable = match f.service_code {
                    Some(code) => code == HARDWARE_TYPE_UNAVAILABLE,
                    None => false,
                };
                if unavailable {
                    Ok(None)
                } else {
                    Err(f)
                }
            },
        }
    }

    /// The trusted-environment level, which is always present.
    pub fn tee<E>(keystore2: K, lookup: Result<B, E>) -> (r: Result<Self, E>)
        ensures
            match lookup {
                Ok(b) => r matches Ok(s) && s.keystore2 == keystore2 && s.binder == b && s.level
                    == SecurityLevel::TrustedEnvironment,
                Err(e) => r == Err::<Self, E>(e),
            },
    {
        Self::resolve_required(SecurityLevel::TrustedEnvironment, keystore2, lookup)
    }

    /// The StrongBox level, or `None` where the device has no StrongBox.
    pub fn strongbox<E>(keystore2: K, lookup: Result<B, LookupFailure<E>>) -> (r: Result<Option<Self>, LookupFailure<E>>)
        ensures
            match lookup {
                Ok(b) => r matches Ok(Some(s)) && s.keystore2 == keystore2 && s.binder == b && s.level
                    == SecurityLevel::Strongbox,
                Err(f) => if is_unavailable(f) {
                    r matches Ok(None)
                } else {
                    r == Err::<Option<Self>, LookupFailure<E>>(f)
                },
            },
    {
        Self::resolve_optional(SecurityLevel::Strongbox, keystore2, lookup)
    }

    /// The registry name of this level's KeyMint device interface.
    pub fn keymint_device_name(&self) -> (r: String)
        ensures
            r@ == keymint_name(self.level),
    {
        let mut name = String::from_str("android.hardware.security.keymint.IKeyMintDevice/");
        name.append(self.level.instance_name());
        name
    }

    /// Whether this level is a KeyMint implementation, given the registry's
    /// answer on whether `keymint_device_name()` is declared.
    pub fn is_keymint<E>(&self, declared: Result<bool, E>) -> (r: Result<bool, E>)
        ensures
            match declared {
                Ok(d) => r == Ok::<bool, E>(backend_is_keymint(d)),
                Err(e) => r == Err::<bool, E>(e),
            },
    {
        match declared {
            Ok(d) => Ok(d),
            Err(e) => Err(e),
        }
    }

    /// Whether this level is a Keymaster implementation, given the registry's
    /// answer on whether `keymint_device_name()` is declared.
    pub fn is_keymaster<E>(&self, declared: Result<bool, E>) -> (r: Result<bool, E>)
        ensures
            match declared {
                Ok(d) => r == Ok::<bool, E>(backend_is_keymaster(d)),
                Err(e) => r == Err::<bool, E>(e),
            },
    {
        match self.is_keymint(declared) {
            Ok(k) => Ok(!k),
            Err(e) => Err(e),
        }
    }

    /// How to learn this level's KeyMint version, given the registry's answer
    /// on whether `keymint_device_name()` is declared: a declared device is
    /// asked, and a Keymaster backend has version 0.
    pub fn get_keymint_version<E>(&self, declared: Result<bool, E>) -> (r: Result<VersionQuery, E>)
        ensures
            match declared {
                Ok(true) => r matches Ok(VersionQuery::AskDevice(n)) && n@ == keymint_name(self.level),
                Ok(false) => r matches Ok(VersionQuery::Known(v)) && v == 0,
                Err(e) => r == Err::<VersionQuery, E>(e),
            },
    {
        match declared {
            Ok(true) => Ok(VersionQuery::AskDevice(self.keymint_device_name())),
            Ok(false) => Ok(VersionQuery::Known(0)),
            Err(e) => Err(e),
        }
    }
}

} // verus!
