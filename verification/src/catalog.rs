//! The signal catalog: the addressing scheme that turns a position into a
//! signal.
use vstd::prelude::*;
use crate::records::{clone_text, Signal, SignalView};

verus! {

/// The catalog of signals, entry `i` at position `i`. It is built once and
/// only read afterwards.
#[derive(Debug)]
pub struct AppData {
    pub signal_dict: Vec<Signal>,
}

/// The name of catalog entry `index`, or `None` where the catalog ends
/// before it.
pub open spec fn catalog_name(catalog: Seq<SignalView>, index: int) -> Option<Seq<char>> {
    if 0 <= index < catalog.len() {
        Some(catalog[index].name)
    } else {
        None
    }
}

/// The category of catalog entry `index`, or `None` where the entry has
/// none or the catalog ends before it.
pub open spec fn catalog_type(catalog: Seq<SignalView>, index: int) -> Option<Seq<char>> {
    if 0 <= index < catalog.len() {
        catalog[index].signal_type
    } else {
        None
    }
}

/// A catalog of `n` entries addresses the positions below `5 * n`: each of
/// them finds its entry.
pub proof fn lemma_catalog_covers(catalog: Seq<SignalView>, position: int)
    requires
        0 <= position < 5 * catalog.len(),
    ensures
        catalog_name(catalog, position / 5) == Some(catalog[position / 5].name),
        catalog_type(catalog, position / 5) == catalog[position / 5].signal_type,
{
}

impl DeepView for AppData {
    type V = Seq<SignalView>;

    open spec fn deep_view(&self) -> Seq<SignalView> {
        self.signal_dict.deep_view()
    }
}

impl AppData {
    /// A catalog of the given entries, in their order.
    pub fn new(signal_dict: Vec<Signal>) -> (data: Self)
        ensures
            data.deep_view() == signal_dict.deep_view(),
    {
        AppData { signal_dict }
    }

    /// The number of entries.
    pub fn signal_dict_len(&self) -> (len: usize)
        ensures
            len == self.deep_view().len(),
    {
        self.signal_dict.len()
    }

    /// The name of entry `index`.
    pub fn signal_name(&self, index: u64) -> (name: Option<String>)
        ensures
            name.deep_view() == catalog_name(self.deep_view(), index as int),
    {
        if index < self.signal_dict.len() as u64 {
            Some(self.signal_dict[index as usize].name.clone())
        } else {
            None
        }
    }

    /// The category of entry `index`.
    pub fn signal_type(&self, index: u64) -> (category: Option<String>)
        ensures
            category.deep_view() == catalog_type(self.deep_view(), index as int),
    {
        if index < self.signal_dict.len() as u64 {
            clone_text(&self.signal_dict[index as usize].signal_type)
        } else {
            None
        }
    }
}

} // verus!
