use crate::laws::read_of;
use vstd::prelude::*;

verus! {

/// The value that a read snapshot denotes: the pointed-to value when the
/// snapshot is present, absence otherwise.
pub open spec fn read_view<T>(r: Option<&T>) -> Option<T> {
    match r {
        Some(v) => Some(*v),
        None => None,
    }
}

/// A scope: storage for at most one currently published value.
///
/// There is usually one scope per thread and slot (the per-thread instances
/// are handed out by a thread-local registry outside this library). A value
/// is published for the duration of one `scoped` call and the prior contents
/// are restored when that call ends, so nested `scoped` calls behave like a
/// stack: each one sees its own value while it runs and hands back its
/// predecessor's afterwards.
pub struct Scope<T> {
    current: Option<T>,
}

impl<T> View for Scope<T> {
    type V = Option<T>;

    /// The currently published value, or absence.
    closed spec fn view(&self) -> Option<T> {
        self.current
    }
}

/// Creates a new scope without value.
impl<T> Default for Scope<T> {
    fn default() -> (s: Self)
        ensures
            s@ is None,
    {
        Scope { current: None }
    }
}

impl<T> Scope<T> {
    /// Runs the given function with the scope holding the given value, and
    /// restores the scope's prior contents on return, whatever the function
    /// left in it.
    ///
    /// The function receives the scope itself, so it can read the published
    /// value with [`Scope::with`] and open nested scopes of its own.
    pub fn scoped<TFn, TRet>(&mut self, value: T, fun: TFn) -> (r: TRet) where
        TFn: FnOnce(&mut Scope<T>) -> TRet,

        requires
            forall|s: &mut Scope<T>|
                mut_ref_current(s)@ == Some(value) ==> call_requires(fun, (s,)),
        ensures
            final(self)@ == old(self)@,
            exists|s: &mut Scope<T>|
                mut_ref_current(s)@ == Some(value) && call_ensures(fun, (s,), r),
    {
        let previous_value = self.take();
        self.set(Some(value));
        let fun_result = fun(&mut *self);
        self.set(previous_value);
        fun_result
    }

    /// Runs the given function with the scope's current value (if there is
    /// any). Outside every publication the function receives `None`.
    pub fn with<TFn, TRet>(&self, fun: TFn) -> (r: TRet) where
        TFn: FnOnce(Option<&T>) -> TRet,

        requires
            forall|v: Option<&T>| read_view(v) == read_of(self@) ==> call_requires(fun, (v,)),
        ensures
            exists|v: Option<&T>| read_view(v) == read_of(self@) && call_ensures(fun, (v,), r),
    {
        let value = self.get();
        fun(value)
    }

    /// Replaces the scope's contents with the given value, or with absence.
    pub fn set(&mut self, value: Option<T>)
        ensures
            final(self)@ == value,
    {
        self.current = value;
    }

    /// Removes and returns the scope's contents, leaving the scope empty.
    pub fn take(&mut self) -> (r: Option<T>)
        ensures
            r == old(self)@,
            final(self)@ is None,
    {
        self.current.take()
    }

    /// Borrows the scope's contents, if there are any.
    fn get(&self) -> (r: Option<&T>)
        ensures
            read_view(r) == read_of(self@),
    {
        self.current.as_ref()
    }
}

} // verus!
