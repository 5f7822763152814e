use vstd::prelude::*;

verus! {

/// Owns values for as long as it lives and hands out their positions as handles.
///
/// Values are never dropped or moved, so a handle stays good.
#[derive(Debug)]
pub struct Owner<T> {
    proteges: Vec<T>,
}

impl<T> Owner<T> {
    /// The owned values, in the order in which they came.
    pub closed spec fn proteges(&self) -> Seq<T> {
        self.proteges@
    }

    pub fn new() -> (r: Self)
        ensures
            r.proteges() == Seq::<T>::empty(),
    {
        Owner { proteges: Vec::new() }
    }

    /// Takes `value` in and lends it back.
    pub fn own(&mut self, value: T) -> (r: &T)
        ensures
            final(self).proteges() == old(self).proteges().push(value),
            *r == value,
    {
        self.proteges.push(value);
        let last = self.proteges.len() - 1;
        &self.proteges[last]
    }

    /// Takes `value` in and lends it back for a change.
    pub fn own_mut(&mut self, value: T) -> (r: &mut T)
        ensures
            *r == value,
            final(self).proteges() == old(self).proteges().push(*final(r)),
    {
        self.proteges.push(value);
        let last = self.proteges.len() - 1;
        &mut self.proteges[last]
    }

    /// Takes `value` in and returns its handle.
    pub fn adopt(&mut self, value: T) -> (r: usize)
        ensures
            final(self).proteges() == old(self).proteges().push(value),
            r == old(self).proteges().len(),
    {
        self.proteges.push(value);
        self.proteges.len() - 1
    }

    /// The number of values owned.
    pub fn len(&self) -> (r: usize)
        ensures
            r == self.proteges().len(),
    {
        self.proteges.len()
    }

    /// The value behind `handle`, if the handle is one of this owner's.
    pub fn get(&self, handle: usize) -> (r: Option<&T>)
        ensures
            r == (if handle < self.proteges().len() {
                Some(&self.proteges()[handle as int])
            } else {
                None
            }),
    {
        if handle < self.proteges.len() {
            Some(&self.proteges[handle])
        } else {
            None
        }
    }

    /// The value behind `handle`, lent for a change.
    pub fn get_mut(&mut self, handle: usize) -> (r: &mut T)
        requires
            handle < old(self).proteges().len(),
        ensures
            *r == old(self).proteges()[handle as int],
            final(self).proteges() == old(self).proteges().update(handle as int, *final(r)),
    {
        &mut self.proteges[handle]
    }
}

} // verus!
