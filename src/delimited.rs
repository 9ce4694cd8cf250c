use vstd::prelude::*;

verus! {

/// An ordered list of items, each but possibly the last followed by a
/// delimiter. `trailing` records whether the last item has one.
#[derive(Debug, Clone, PartialEq, Eq)]
pub struct Delimited<T> {
    pub items: Vec<T>,
    pub trailing: bool,
}

impl<T> Delimited<T> {
    /// A trailing delimiter needs an item to follow.
    pub open spec fn wf(&self) -> bool {
        self.trailing ==> self.items.len() > 0
    }

    pub open spec fn spec_len(&self) -> nat {
        self.items.len() as nat
    }

    pub open spec fn spec_trailing_delim(&self) -> bool {
        self.items.len() > 0 && self.trailing
    }

    pub open spec fn spec_empty_or_trailing(&self) -> bool {
        self.items.len() == 0 || self.spec_trailing_delim()
    }

    pub fn new() -> (r: Self)
        ensures
            r.items@ == Seq::<T>::empty(),
            !r.trailing,
    {
        Delimited { items: Vec::new(), trailing: false }
    }

    pub fn len(&self) -> (r: usize)
        ensures
            r == self.spec_len(),
    {
        self.items.len()
    }

    pub fn is_empty(&self) -> (r: bool)
        ensures
            r == (self.spec_len() == 0),
    {
        self.items.len() == 0
    }

    /// Whether the list is non-empty and its last item has a delimiter.
    pub fn trailing_delim(&self) -> (r: bool)
        ensures
            r == self.spec_trailing_delim(),
    {
        self.items.len() > 0 && self.trailing
    }

    /// Whether the list is empty or ends in a delimiter: whether another item
    /// could follow it directly.
    pub fn empty_or_trailing(&self) -> (r: bool)
        ensures
            r == self.spec_empty_or_trailing(),
    {
        self.items.len() == 0 || self.trailing_delim()
    }
}

} // verus!
