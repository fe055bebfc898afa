use vstd::prelude::*;

verus! {

/// A generic wrapper that pairs a value with a boolean "dirty" flag, so that
/// callers can track whether the value has been touched since the flag was
/// last cleared. Reading never changes the flag; obtaining write access
/// always sets it; clearing is a separate, explicit action.
#[derive(Copy, Clone, PartialEq, PartialOrd, Eq, Ord, Debug, Hash)]
pub struct Dirty<T> {
    value: T,
    dirty: bool,
}

impl<T> Dirty<T> {
    /// The wrapped value, as contracts see it.
    pub closed spec fn value(self) -> T {
        self.value
    }

    /// The dirty flag, as contracts see it.
    pub closed spec fn is_dirty(self) -> bool {
        self.dirty
    }

    /// Create a new cell with the dirty flag set.
    pub fn new(val: T) -> (r: Dirty<T>)
        ensures
            r.value() == val,
            r.is_dirty(),
    {
        Dirty { value: val, dirty: true }
    }

    /// Create a new cell with the dirty flag clear.
    pub fn new_clean(val: T) -> (r: Dirty<T>)
        ensures
            r.value() == val,
            !r.is_dirty(),
    {
        Dirty { value: val, dirty: false }
    }

    /// Returns true if dirty, false otherwise.
    pub fn dirty(&self) -> (r: bool)
        ensures
            r == self.is_dirty(),
    {
        self.dirty
    }

    /// Read the value. Taking `&self`, it cannot alter the flag, however
    /// often it is called.
    pub fn read(&self) -> (r: &T)
        ensures
            *r == self.value(),
    {
        &self.value
    }

    /// Writable value return, sets the dirty flag — unconditionally, even if
    /// the caller never assigns through the returned reference.
    pub fn write(&mut self) -> (r: &mut T)
        ensures
            *r == old(self).value(),
            final(self).is_dirty(),
            final(self).value() == *final(r),
    {
        self.dirty = true;
        &mut self.value
    }

    /// Clears the dirty flag; the value is untouched.
    pub fn clear(&mut self)
        ensures
            !final(self).is_dirty(),
            final(self).value() == old(self).value(),
    {
        self.dirty = false;
    }

    /// Read the value only if the flag is set: `Some` holding the current
    /// value exactly when dirty, `None` otherwise. Never mutates.
    pub fn read_dirty(&self) -> (r: Option<&T>)
        ensures
            self.is_dirty() <==> r is Some,
            self.is_dirty() ==> *r->0 == self.value(),
    {
        match self.dirty {
            true => Some(&self.value),
            false => None,
        }
    }

    /// Replace the value by `f(value)` only if dirty, returning the flag as
    /// it stood before the call, so that callers can tell "was applied" from
    /// "was skipped". The flag itself is left as it was: clearing is a
    /// separate, explicit action, so repeated calls keep re-applying `f`
    /// until an explicit `clear()`.
    pub fn write_dirty<F: Fn(&T) -> T>(&mut self, f: F) -> (r: bool)
        requires
            old(self).is_dirty() ==> call_requires(f, (&old(self).value(),)),
        ensures
            r == old(self).is_dirty(),
            final(self).is_dirty() == old(self).is_dirty(),
            old(self).is_dirty() ==> call_ensures(
                f,
                (&old(self).value(),),
                final(self).value(),
            ),
            !old(self).is_dirty() ==> final(self).value() == old(self).value(),
    {
        if self.dirty {
            self.value = f(&self.value);
        }
        self.dirty
    }

    /// Consumes the wrapper and returns the enclosed value.
    pub fn unwrap(self) -> (r: T)
        ensures
            r == self.value(),
    {
        self.value
    }
}

/// Transparent read access: the cell can stand in for a `&T` in read-only
/// contexts. Dereferencing never alters the flag.
impl<T> core::ops::Deref for Dirty<T> {
    type Target = T;

    fn deref(&self) -> (r: &T)
        ensures
            *r == self.value(),
    {
        &self.value
    }
}

/// A default-constructed cell wraps the type's default value and is clean:
/// nothing has changed from the default state.
impl<T: Default> Default for Dirty<T> {
    fn default() -> (r: Dirty<T>)
        ensures
            !r.is_dirty(),
            call_ensures(T::default, (), r.value()),
    {
        Dirty { value: T::default(), dirty: false }
    }
}

} // verus!
