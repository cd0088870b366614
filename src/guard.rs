use vstd::prelude::*;

use crate::handle::{is_predefined_key, Hkey, NULL};
use crate::os::{Call, Os};

verus! {

/// Whether releasing a key calls `RegCloseKey`: only for a key that is
/// neither null nor one of the predefined roots the host owns.
pub open spec fn closes_key(h: Hkey) -> bool {
    h.raw != NULL && !is_predefined_key(h.raw)
}

/// How many calls of `calls` close the key `raw`.
pub open spec fn count_closes(calls: Seq<Call>, raw: usize) -> nat
    decreases calls.len(),
{
    if calls.len() == 0 {
        0
    } else {
        count_closes(calls.drop_last(), raw) + if calls.last() == (Call::RegCloseKey { hkey: raw }) {
            1nat
        } else {
            0nat
        }
    }
}

/// Sole owner of a registry key: releasing it closes the key, unless the key
/// is null or a predefined root. It cannot be copied, so the key is closed at
/// most once.
pub struct HkeyGuard {
    hkey: Hkey,
}

impl HkeyGuard {
    pub closed spec fn key(&self) -> Hkey {
        self.hkey
    }

    /// Takes ownership of a key. Nothing is called.
    pub fn new(hkey: Hkey) -> (r: HkeyGuard)
        ensures
            r.key() == hkey,
    {
        HkeyGuard { hkey }
    }

    /// The owned key, for borrowed use.
    pub fn hkey(&self) -> (r: Hkey)
        ensures
            r == self.key(),
    {
        self.hkey
    }

    /// Releases the guard: calls `RegCloseKey` once on the key if
    /// [`closes_key`] holds of it, and nothing otherwise. Errors of the close
    /// are not reported.
    pub fn release(self, os: &mut Os)
        ensures
            final(os).same_state(old(os)),
            closes_key(self.key()) ==> final(os).calls_spec() == old(os).calls_spec().push(
                Call::RegCloseKey { hkey: self.key().raw },
            ),
            !closes_key(self.key()) ==> final(os).calls_spec() == old(os).calls_spec(),
    {
        if !self.hkey.is_null() && !self.hkey.is_predefined() {
            os.reg_close_key(self.hkey.raw);
        }
    }
}

/// A guard over a null key or a predefined root closes nothing when it is
/// released.
pub proof fn lemma_guard_skips_null_and_predefined(h: Hkey)
    requires
        h.raw == NULL || is_predefined_key(h.raw),
    ensures
        !closes_key(h),
{
}

/// Releasing a guard over any other key adds exactly one close of that key
/// to what the host recorded before.
pub proof fn lemma_guard_closes_once(calls: Seq<Call>, h: Hkey)
    requires
        closes_key(h),
    ensures
        count_closes(calls.push(Call::RegCloseKey { hkey: h.raw }), h.raw) == count_closes(calls, h.raw) + 1,
{
    assert(calls.push(Call::RegCloseKey { hkey: h.raw }).drop_last() =~= calls);
}

/// How many calls of `calls` release the COM object `obj`.
pub open spec fn count_releases(calls: Seq<Call>, obj: usize) -> nat
    decreases calls.len(),
{
    if calls.len() == 0 {
        0
    } else {
        count_releases(calls.drop_last(), obj) + if calls.last() == (Call::Release { obj }) {
            1nat
        } else {
            0nat
        }
    }
}

/// Sole owner of one reference to a COM object: releasing it calls the
/// object's `Release` slot once, unless the pointer is null.
pub struct ComPtr {
    ptr: usize,
}

impl ComPtr {
    pub closed spec fn ptr_spec(&self) -> usize {
        self.ptr
    }

    /// Takes ownership of a reference that was already counted for the caller.
    pub fn new(ptr: usize) -> (r: ComPtr)
        ensures
            r.ptr_spec() == ptr,
    {
        ComPtr { ptr }
    }

    /// The object pointer, for borrowed use.
    pub fn ptr(&self) -> (r: usize)
        ensures
            r == self.ptr_spec(),
    {
        self.ptr
    }

    /// Releases the reference: one `Release` call for a non-null pointer,
    /// none for a null one.
    pub fn release(self, os: &mut Os)
        ensures
            final(os).same_state(old(os)),
            self.ptr_spec() != NULL ==> final(os).calls_spec() == old(os).calls_spec().push(
                Call::Release { obj: self.ptr_spec() },
            ),
            self.ptr_spec() == NULL ==> final(os).calls_spec() == old(os).calls_spec(),
    {
        if self.ptr != NULL {
            os.release(self.ptr);
        }
    }
}

/// Releasing a null COM pointer calls nothing; releasing any other adds
/// exactly one `Release` of it.
pub proof fn lemma_com_release_once(calls: Seq<Call>, obj: usize)
    requires
        obj != NULL,
    ensures
        count_releases(calls.push(Call::Release { obj }), obj) == count_releases(calls, obj) + 1,
{
    assert(calls.push(Call::Release { obj }).drop_last() =~= calls);
}

} // verus!
