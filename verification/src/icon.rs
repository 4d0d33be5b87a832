//! The icons shown on a blueprint.
use vstd::prelude::*;
use crate::records::clone_text;

verus! {

/// One icon: its slot and the signal drawn in it.
#[derive(Debug)]
pub struct Icon {
    pub index: i64,
    pub signal_name: Option<String>,
    pub signal_type: Option<String>,
}

/// What an [`Icon`] holds, as mathematical values.
pub struct IconView {
    pub index: int,
    pub signal_name: Option<Seq<char>>,
    pub signal_type: Option<Seq<char>>,
}

impl DeepView for Icon {
    type V = IconView;

    open spec fn deep_view(&self) -> IconView {
        IconView {
            index: self.index as int,
            signal_name: self.signal_name.deep_view(),
            signal_type: self.signal_type.deep_view(),
        }
    }
}

impl Clone for Icon {
    fn clone(&self) -> (copy: Self)
        ensures
            copy.deep_view() == self.deep_view(),
    {
        Icon {
            index: self.index,
            signal_name: clone_text(&self.signal_name),
            signal_type: clone_text(&self.signal_type),
        }
    }
}

impl Icon {
    /// The icon in slot `index` that shows the given signal.
    pub fn new(index: i64, signal_name: Option<String>, signal_type: Option<String>) -> (icon:
        Self)
        ensures
            icon.deep_view() == (IconView {
                index: index as int,
                signal_name: signal_name.deep_view(),
                signal_type: signal_type.deep_view(),
            }),
    {
        Icon { index, signal_name, signal_type }
    }

    /// The icon as it enters a document: a copy of itself.
    pub fn get_dict(&self) -> (copy: Icon)
        ensures
            copy.deep_view() == self.deep_view(),
    {
        self.clone()
    }
}

} // verus!
