//! A menu: a list of labelled entries, one of which may be selected.

use vstd::prelude::*;

verus! {

/// An entry of a menu: the value it stands for and the text it shows.
#[derive(Clone, Debug, PartialEq)]
pub struct Element<Data: Clone + PartialEq> {
    pub data: Data,
    pub text: String,
}

/// The direction in which a menu lays out its entries.
#[derive(Clone, Debug, PartialEq, Eq)]
pub enum Flow {
    Vertical,
    Horizontal,
}

/// Width of an entry of a vertical menu, in pixels.
pub const ELEMENT_SIZE: u16 = 200;

/// A menu of entries that carry a `Data` each.
#[derive(Clone, Debug)]
pub struct Menu<Data: Clone + PartialEq> {
    elements: Vec<Element<Data>>,
    selected: Option<Data>,
    flow: Flow,
    element_size: u16,
}

impl<Data: Clone + PartialEq> Menu<Data> {
    /// The entries of the menu, in the order in which they are shown.
    pub closed spec fn entries(&self) -> Seq<Element<Data>> {
        self.elements@
    }

    /// The data of the selected entry, if one is selected.
    pub closed spec fn selection(&self) -> Option<Data> {
        self.selected
    }

    /// The direction in which the entries are laid out.
    pub closed spec fn direction(&self) -> Flow {
        self.flow
    }

    /// The width of an entry in pixels, where the layout fixes it.
    pub closed spec fn entry_width(&self) -> u16 {
        self.element_size
    }

    /// A menu of `elements` with nothing selected.
    pub fn new(elements: Vec<Element<Data>>, flow: Flow) -> (menu: Self)
        ensures
            menu.entries() == elements@,
            menu.selection() is None,
            menu.direction() == flow,
            menu.entry_width() == ELEMENT_SIZE,
    {
        Self { elements, selected: None, flow, element_size: ELEMENT_SIZE }
    }

    /// Selects the entry that stands for `selection`.
    pub fn select(&mut self, selection: Data)
        ensures
            final(self).selection() == Some(selection),
            final(self).entries() == old(self).entries(),
            final(self).direction() == old(self).direction(),
            final(self).entry_width() == old(self).entry_width(),
    {
        self.selected = Some(selection)
    }

    /// The data of the selected entry, if one is selected.
    pub fn selected(&self) -> (selected: &Option<Data>)
        ensures
            *selected == self.selection(),
    {
        &self.selected
    }

    /// Replaces the entries of the menu; the selection stays.
    pub fn set_elements(&mut self, elements: Vec<Element<Data>>)
        ensures
            final(self).entries() == elements@,
            final(self).selection() == old(self).selection(),
            final(self).direction() == old(self).direction(),
            final(self).entry_width() == old(self).entry_width(),
    {
        self.elements = elements;
    }

    /// The entries of the menu, in the order in which they are shown.
    pub fn elements(&self) -> (elements: &Vec<Element<Data>>)
        ensures
            elements@ == self.entries(),
    {
        &self.elements
    }

    /// The direction in which the entries are laid out.
    pub fn flow(&self) -> (flow: &Flow)
        ensures
            *flow == self.direction(),
    {
        &self.flow
    }

    /// The width of an entry in pixels, where the layout fixes it.
    pub fn element_size(&self) -> (size: u16)
        ensures
            size == self.entry_width(),
    {
        self.element_size
    }
}

} // verus!
