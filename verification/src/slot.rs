use vstd::prelude::*;

verus! {

/// A slot for one value that can be filled late and, once filled, is only
/// ever changed in place.
///
/// The slot is a plain `Option<T>`, which is also its view: every contract
/// here speaks of that option. Through a plain exclusive reference the field
/// can be replaced or cleared like any option.
///
/// The methods are the surface for a holder who has promised never to move
/// the value: they fill an empty slot, which moves nothing that was promised
/// to stay, or hand out the value that is already there, in place. None of
/// them empties or replaces an occupied slot.
#[derive(Debug, Copy, Eq, Ord, Hash)]
pub struct LazyPinned<T>(pub Option<T>);

impl<T> View for LazyPinned<T> {
    type V = Option<T>;

    open spec fn view(&self) -> Option<T> {
        self.0
    }
}

/// What an insert-if-absent leaves in the slot: the value that was there, or
/// else the offered one.
pub open spec fn kept<T>(slot: Option<T>, offered: T) -> T {
    match slot {
        Some(x) => x,
        None => offered,
    }
}

impl<T> LazyPinned<T> {
    /// Whether the slot holds a value.
    pub open spec fn is_occupied(&self) -> bool {
        self@ is Some
    }

    /// `r` is what a shared projection of this slot hands out.
    pub open spec fn projects_to(&self, r: Option<&T>) -> bool {
        match self@ {
            None => r is None,
            Some(x) => r == Some(&x),
        }
    }

    /// `r` is what an exclusive projection of this slot hands out: nothing
    /// for an empty slot, else a reference that starts at the held value.
    pub open spec fn projects_to_mut(&self, r: Option<&mut T>) -> bool {
        match self@ {
            None => r is None,
            Some(x) => r is Some && *r.unwrap() == x,
        }
    }

    /// A producer may be handed over with this slot: it is only asked to be
    /// callable where the slot is empty.
    pub open spec fn admits_producer<F: FnOnce() -> T>(&self, insert: F) -> bool {
        self@ is None ==> call_requires(insert, ())
    }

    /// A user may be handed over with this slot: it is only asked to accept
    /// the value that the slot holds, if any.
    pub open spec fn admits_user<U: FnOnce(&mut T)>(&self, use_pin: U) -> bool {
        forall|m: &mut T| self@ == Some(*m) ==> #[trigger] call_requires(use_pin, (m,))
    }

    /// As `admits_producer`, for a producer that is handed `data`.
    pub open spec fn admits_producer_with<Data, F: FnOnce(Data) -> T>(
        &self,
        data: Data,
        insert: F,
    ) -> bool {
        self@ is None ==> call_requires(insert, (data,))
    }

    /// As `admits_user`, for a user that is handed `data` too.
    pub open spec fn admits_user_with<Data, U: FnOnce(Data, &mut T)>(
        &self,
        data: Data,
        use_pin: U,
    ) -> bool {
        forall|m: &mut T| self@ == Some(*m) ==> #[trigger] call_requires(use_pin, (data, m))
    }

    /// Shared projection: the held value, if there is one. Changes nothing.
    #[inline]
    #[must_use]
    pub fn as_pin_ref(&self) -> (r: Option<&T>)
        ensures
            self.projects_to(r),
            r is Some <==> self.is_occupied(),
    {
        self.0.as_ref()
    }

    /// Exclusive projection: the held value in place, if there is one. An
    /// empty slot stays empty; an occupied one ends up holding whatever the
    /// caller leaves behind the returned reference.
    #[inline]
    #[must_use]
    pub fn as_pin_mut(&mut self) -> (r: Option<&mut T>)
        ensures
            old(self).projects_to_mut(r),
            r is Some <==> old(self).is_occupied(),
            match r {
                None => final(self)@ is None,
                Some(x) => final(self)@ == Some(*final(x)),
            },
            final(self).is_occupied() == old(self).is_occupied(),
    {
        match &mut self.0 {
            Some(x) => Some(x),
            None => None,
        }
    }

    /// Insert-or-get by value: an empty slot takes `v`; an occupied slot
    /// keeps its value and `v` is dropped. Either way the returned reference
    /// is to the value in the slot.
    pub fn pin_project_or_insert(&mut self, v: T) -> (r: &mut T)
        ensures
            *r == kept(old(self)@, v),
            final(self)@ == Some(*final(r)),
            final(self).is_occupied(),
    {
        self.0.get_or_insert(v)
    }

    /// Insert-or-get by producer: `f` runs only for an empty slot, and an
    /// occupied slot makes no demand on it.
    pub fn pin_project_or_insert_with<F: FnOnce() -> T>(&mut self, f: F) -> (r: &mut T)
        requires
            old(self).admits_producer(f),
        ensures
            match old(self)@ {
                Some(x) => *r == x,
                None => call_ensures(f, (), *r),
            },
            final(self)@ == Some(*final(r)),
            final(self).is_occupied(),
    {
        match &mut self.0 {
            Some(x) => x,
            this @ None => this.insert(f()),
        }
    }

    /// Use-or-insert by value: `use_pin` runs on the value of an occupied
    /// slot, in place; an empty slot takes `v` and `use_pin` does not run.
    pub fn use_pin_or_insert<U: FnOnce(&mut T)>(&mut self, use_pin: U, v: T) -> (r: &mut T)
        requires
            old(self).admits_user(use_pin),
        ensures
            match old(self)@ {
                Some(x) => exists|m: &mut T|
                    *m == x && *final(m) == *r && #[trigger] call_ensures(use_pin, (m,), ()),
                None => *r == v,
            },
            final(self)@ == Some(*final(r)),
            final(self).is_occupied(),
    {
        self.use_pin_or_insert_with(use_pin, move || -> (out: T)
            ensures out == v,
            { v })
    }

    /// Use-or-insert by producer: `use_pin` runs on the value of an occupied
    /// slot, in place, and `insert` does not run; an empty slot takes what
    /// `insert` produces and `use_pin` does not run.
    pub fn use_pin_or_insert_with<U: FnOnce(&mut T), F: FnOnce() -> T>(
        &mut self,
        use_pin: U,
        insert: F,
    ) -> (r: &mut T)
        requires
            old(self).admits_user(use_pin),
            old(self).admits_producer(insert),
        ensures
            match old(self)@ {
                Some(x) => exists|m: &mut T|
                    *m == x && *final(m) == *r && #[trigger] call_ensures(use_pin, (m,), ()),
                None => call_ensures(insert, (), *r),
            },
            final(self)@ == Some(*final(r)),
            final(self).is_occupied(),
    {
        match &mut self.0 {
            Some(x) => {
                use_pin(x);
                x
            },
            this @ None => this.insert(insert()),
        }
    }

    /// Use-or-insert with a piece of data that goes to whichever of the two
    /// callbacks runs.
    pub fn use_pin_or_insert_with_data<Data, U: FnOnce(Data, &mut T), F: FnOnce(Data) -> T>(
        &mut self,
        data: Data,
        use_pin: U,
        insert: F,
    ) -> (r: &mut T)
        requires
            old(self).admits_user_with(data, use_pin),
            old(self).admits_producer_with(data, insert),
        ensures
            match old(self)@ {
                Some(x) => exists|m: &mut T|
                    *m == x && *final(m) == *r && #[trigger] call_ensures(use_pin, (data, m), ()),
                None => call_ensures(insert, (data,), *r),
            },
            final(self)@ == Some(*final(r)),
            final(self).is_occupied(),
    {
        match &mut self.0 {
            Some(x) => {
                use_pin(data, x);
                x
            },
            this @ None => this.insert(insert(data)),
        }
    }
}

impl<T> Default for LazyPinned<T> {
    /// The empty slot.
    #[inline]
    fn default() -> (r: Self)
        ensures
            r@ is None,
    {
        LazyPinned(None)
    }
}

impl<T: Clone> Clone for LazyPinned<T> {
    /// Clones as the option does: empty gives empty, and a held value gives
    /// a slot holding a clone of it.
    fn clone(&self) -> (r: Self)
        ensures
            match self@ {
                None => r@ is None,
                Some(x) => r@ is Some && cloned::<T>(x, r@.unwrap()),
            },
    {
        LazyPinned(self.0.clone())
    }
}

} // verus!
