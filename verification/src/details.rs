//! The collapsible detail cards of the mode picker: one per authentication
//! mode, each with a title, the height it takes when expanded, and whether it
//! is currently the expanded one. The library only owns this description; a
//! renderer outside the library turns it into borders and text.

use vstd::prelude::*;
use vstd::string::StringExecFns;

verus! {

/// Description of one collapsible card.
pub struct DetailsObject {
    pub title: String,
    pub height: u16,
    pub opened: bool,
}

impl DetailsObject {
    /// A fresh card: titled, with its expanded height, and collapsed.
    pub fn new(title: &str, height: u16) -> (d: DetailsObject)
        ensures
            d.title@ == title@,
            d.height == height,
            !d.opened,
    {
        DetailsObject { title: String::from_str(title), height, opened: false }
    }

    /// The same card with its expansion set: only the card of the selected
    /// mode is drawn expanded.
    pub fn opened(self, opened: bool) -> (d: DetailsObject)
        ensures
            d.title@ == self.title@,
            d.height == self.height,
            d.opened == opened,
    {
        DetailsObject { title: self.title, height: self.height, opened }
    }
}

} // verus!
