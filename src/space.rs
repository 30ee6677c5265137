//! The plain value slot, whose element is read as an optional value.
use vstd::prelude::*;

use vstd::std_specs::convert::FromSpec;

use crate::text::{render_slot, slot_text, CellText};

verus! {

/// A space in a board, that may or may not contain an element.
#[derive(Copy, Clone, Eq, PartialEq, Ord, PartialOrd, Hash, Debug)]
pub struct Space<T> {
    element: Option<T>,
}

impl<T> View for Space<T> {
    type V = Option<T>;

    /// The element held, if any.
    closed spec fn view(&self) -> Option<T> {
        self.element
    }
}

impl<T> Space<T> {
    /// Creates an empty space.
    pub fn new() -> (r: Self)
        ensures
            r@ is None,
    {
        Space { element: None }
    }

    /// Creates a new space containing the specified element.
    pub fn with_element(element: T) -> (r: Self)
        ensures
            r@ == Some(element),
    {
        Space { element: Some(element) }
    }

    /// Creates a space mirroring the given optional element.
    pub fn from_option(option: Option<T>) -> (r: Self)
        ensures
            r@ == option,
    {
        Space { element: option }
    }

    /// Gets the element from the space, `None` if the space is empty.
    pub fn element(&self) -> (r: &Option<T>)
        ensures
            *r == self@,
    {
        &self.element
    }

    /// Checks if the space is empty or not.
    pub fn is_empty(&self) -> (r: bool)
        ensures
            r == self@ is None,
    {
        self.element().is_none()
    }

    /// True if the space contains some element.
    pub fn has_element(&self) -> (r: bool)
        ensures
            r == self@ is Some,
    {
        self.element().is_some()
    }

    /// Sets the element to the given one, or clears it.
    pub fn set_optional_element(&mut self, option: Option<T>)
        ensures
            final(self)@ == option,
    {
        self.element = option;
    }

    /// Sets the element of the space.
    pub fn set_element(&mut self, element: T)
        ensures
            final(self)@ == Some(element),
    {
        self.set_optional_element(Some(element));
    }

    /// Clears the element from the space, making it empty.
    pub fn clear(&mut self)
        ensures
            final(self)@ == None::<T>,
    {
        self.set_optional_element(None);
    }
}

impl<T: CellText> Space<T> {
    /// Renders the space: its element between two pipes, or a blank between two pipes.
    pub fn to_string(&self) -> (r: String)
        ensures
            r@ == slot_text(self@),
    {
        render_slot(self.element())
    }
}

impl<T> Default for Space<T> {
    /// The empty space.
    fn default() -> (r: Self)
        ensures
            r@ is None,
    {
        Space::new()
    }
}

impl<T> From<Option<T>> for Space<T> {
    fn from(option: Option<T>) -> (r: Self) {
        Space::from_option(option)
    }
}

impl<T> vstd::std_specs::convert::FromSpecImpl<Option<T>> for Space<T> {
    closed spec fn from_spec(v: Option<T>) -> Self {
        Space { element: v }
    }

    open spec fn obeys_from_spec() -> bool {
        true
    }
}

/// A space built from an optional element reads back as that optional element.
pub proof fn lemma_space_from_round_trip<T>(v: Option<T>)
    ensures
        <Space<T> as FromSpec<Option<T>>>::obeys_from_spec(),
        <Space<T> as FromSpec<Option<T>>>::from_spec(v)@ == v,
{
}

/// Two spaces holding the same optional element are the same space.
pub proof fn lemma_space_view_ext<T>(a: Space<T>, b: Space<T>)
    ensures
        a@ == b@ <==> a == b,
{
}

} // verus!
