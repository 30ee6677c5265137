//! The value slot: owns zero or one element by value.
use vstd::prelude::*;

use super::Space;
use vstd::std_specs::convert::FromSpec;
use crate::text::{render_slot, slot_text, CellText};

verus! {

/// There is no element at the given space.
#[derive(Copy, Clone, Debug, Eq, PartialEq, Structural)]
pub struct NoElementError;

impl NoElementError {
    /// The message that describes the error.
    pub fn to_string(&self) -> (r: String)
        ensures
            r@ == "The space did not have an element"@,
    {
        String::from_str("The space did not have an element")
    }
}

/// A space in a board, that may or may not contain an element.
#[derive(Copy, Clone, Eq, PartialEq, Hash, Debug)]
pub struct ContainerSpace<T> {
    element: Option<T>,
}

impl<T> View for ContainerSpace<T> {
    type V = Option<T>;

    /// The element held, if any.
    closed spec fn view(&self) -> Option<T> {
        self.element
    }
}

/// What `element` returns for a space holding `o`.
pub open spec fn element_result<T>(o: Option<T>) -> Result<T, NoElementError> {
    match o {
        Some(e) => Ok(e),
        None => Err(NoElementError),
    }
}

impl<T> Space<T> for ContainerSpace<T> {
    open spec fn is_vacant(&self) -> bool {
        self@ is None
    }

    /// Creates an empty space.
    fn new() -> (r: Self) {
        ContainerSpace { element: None }
    }
}

impl<T: Copy> ContainerSpace<T> {
    /// Gets the element, or fails with `NoElementError` when the space is empty.
    pub fn element(&self) -> (r: Result<T, NoElementError>)
        ensures
            r == element_result(self@),
    {
        match self.as_option() {
            Some(p) => Ok(*p),
            None => Err(NoElementError),
        }
    }
}

impl<T> ContainerSpace<T> {
    /// Creates a new space containing the specified element.
    pub fn with_element(element: T) -> (r: Self)
        ensures
            r@ == Some(element),
    {
        ContainerSpace { element: Some(element) }
    }

    /// Creates a space mirroring the given optional element.
    pub fn from_option(option: Option<T>) -> (r: Self)
        ensures
            r@ == option,
    {
        ContainerSpace { element: option }
    }

    /// Gets the element from the space, `None` if the space is empty.
    pub fn as_option(&self) -> (r: &Option<T>)
        ensures
            *r == self@,
    {
        &self.element
    }

    /// Checks if the space is empty or not.
    pub fn is_empty(&self) -> (r: bool)
        ensures
            r == self@ is None,
    {
        self.as_option().is_none()
    }

    /// True if the space contains some element.
    pub fn has_element(&self) -> (r: bool)
        ensures
            r == self@ is Some,
    {
        self.as_option().is_some()
    }

    /// Sets the element to the given one, or clears it.
    pub fn set_optional_element(&mut self, option: Option<T>)
        ensures
            final(self)@ == option,
    {
        self.element = option;
    }

    /// Sets the element of the space.
    pub fn set_element(&mut self, element: T)
        ensures
            final(self)@ == Some(element),
    {
        self.set_optional_element(Some(element));
    }

    /// Clears the element from the space, making it empty.
    pub fn clear(&mut self)
        ensures
            final(self)@ == None::<T>,
    {
        self.set_optional_element(None);
    }
}

impl<T: CellText> ContainerSpace<T> {
    /// Renders the space: its element between two pipes, or a blank between two pipes.
    pub fn to_string(&self) -> (r: String)
        ensures
            r@ == slot_text(self@),
    {
        render_slot(self.as_option())
    }
}

impl<T> Default for ContainerSpace<T> {
    /// The empty space.
    fn default() -> (r: Self)
        ensures
            r@ is None,
    {
        ContainerSpace { element: None }
    }
}

impl<T> From<Option<T>> for ContainerSpace<T> {
    fn from(option: Option<T>) -> (r: Self) {
        ContainerSpace::from_option(option)
    }
}

impl<T> vstd::std_specs::convert::FromSpecImpl<Option<T>> for ContainerSpace<T> {
    open spec fn obeys_from_spec() -> bool {
        true
    }

    closed spec fn from_spec(v: Option<T>) -> Self {
        ContainerSpace { element: v }
    }
}

/// A space built from an optional element reads back as that optional element.
pub proof fn lemma_from_round_trip<T>(v: Option<T>)
    ensures
        <ContainerSpace<T> as FromSpec<Option<T>>>::obeys_from_spec(),
        <ContainerSpace<T> as FromSpec<Option<T>>>::from_spec(v)@ == v,
{
}

/// Two spaces holding the same optional element are the same space.
pub proof fn lemma_view_ext<T>(a: ContainerSpace<T>, b: ContainerSpace<T>)
    ensures
        a@ == b@ <==> a == b,
{
}

/// `is_empty` and `has_element` always disagree on a space.
pub proof fn lemma_empty_or_occupied<T>(s: ContainerSpace<T>, empty: bool, occupied: bool)
    requires
        call_ensures(ContainerSpace::<T>::is_empty, (&s,), empty),
        call_ensures(ContainerSpace::<T>::has_element, (&s,), occupied),
    ensures
        empty != occupied,
{
}

/// After `set_element(e)`, which leaves the space holding `e`, `has_element` is true and
/// `element` returns `e`.
pub proof fn lemma_set_then_read<T: Copy>(
    after: ContainerSpace<T>,
    e: T,
    occupied: bool,
    read: Result<T, NoElementError>,
)
    requires
        after@ == Some(e),
        call_ensures(ContainerSpace::<T>::has_element, (&after,), occupied),
        call_ensures(ContainerSpace::<T>::element, (&after,), read),
    ensures
        occupied,
        read == Ok::<T, NoElementError>(e),
{
}

/// After `clear`, which leaves the space holding nothing, `is_empty` is true and `element`
/// fails with `NoElementError`.
pub proof fn lemma_clear_then_read<T: Copy>(
    after: ContainerSpace<T>,
    empty: bool,
    read: Result<T, NoElementError>,
)
    requires
        after@ == None::<T>,
        call_ensures(ContainerSpace::<T>::is_empty, (&after,), empty),
        call_ensures(ContainerSpace::<T>::element, (&after,), read),
    ensures
        empty,
        read == Err::<T, NoElementError>(NoElementError),
{
}

} // verus!
