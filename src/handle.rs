use vstd::prelude::*;

verus! {

/// Raw value of the null handle.
pub const NULL: usize = 0;

/// A window handle: a pointer-sized value naming a window. Copying it does
/// not duplicate the window; it is a borrowed name.
#[derive(Clone, Copy, Debug, PartialEq, Eq, Structural)]
pub struct Hwnd {
    pub raw: usize,
}

impl Hwnd {
    /// The null window handle.
    pub fn null() -> (r: Hwnd)
        ensures
            r.raw == NULL,
    {
        Hwnd { raw: NULL }
    }

    pub open spec fn is_null_spec(&self) -> bool {
        self.raw == NULL
    }

    /// Whether this is the null window handle.
    #[verifier::when_used_as_spec(is_null_spec)]
    pub fn is_null(&self) -> (r: bool)
        ensures
            r == self.is_null_spec(),
    {
        self.raw == NULL
    }
}

/// A registry key handle.
#[derive(Clone, Copy, Debug, PartialEq, Eq, Structural)]
pub struct Hkey {
    pub raw: usize,
}

/// First predefined, host-owned registry root.
pub const HKEY_CLASSES_ROOT: usize = 0x8000_0000;
/// Predefined registry root of the current user.
pub const HKEY_CURRENT_USER: usize = 0x8000_0001;
/// Predefined registry root of the local machine.
pub const HKEY_LOCAL_MACHINE: usize = 0x8000_0002;
/// Predefined registry root of the users.
pub const HKEY_USERS: usize = 0x8000_0003;
/// Last predefined, host-owned registry root.
pub const HKEY_PERFORMANCE_NLSTEXT: usize = 0x8000_0060;

/// Whether a raw key value lies in the closed range of predefined roots.
pub open spec fn is_predefined_key(raw: usize) -> bool {
    HKEY_CLASSES_ROOT <= raw && raw <= HKEY_PERFORMANCE_NLSTEXT
}

impl Hkey {
    /// The root key of the current user, owned by the host.
    pub fn current_user() -> (r: Hkey)
        ensures
            r.raw == HKEY_CURRENT_USER,
    {
        Hkey { raw: HKEY_CURRENT_USER }
    }

    /// Whether this is the null key.
    pub fn is_null(&self) -> (r: bool)
        ensures
            r == (self.raw == NULL),
    {
        self.raw == NULL
    }

    /// Whether this key is one of the predefined roots that the host owns.
    pub fn is_predefined(&self) -> (r: bool)
        ensures
            r == is_predefined_key(self.raw),
    {
        HKEY_CLASSES_ROOT <= self.raw && self.raw <= HKEY_PERFORMANCE_NLSTEXT
    }
}

} // verus!
