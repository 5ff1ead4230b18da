//! The closed set of editor pages, one per table kind.

use vstd::prelude::*;

verus! {

/// Which of the five tables is being shown or operated on.
#[derive(Debug, Clone, PartialEq, Eq, Structural)]
pub enum Page {
    Relic,
    Element,
    Enemy,
    L10n,
    RaceAttribute,
}

/// Display information for a page.
#[derive(Debug, Clone)]
pub struct PageInfo {
    pub title: &'static str,
}

impl Page {
    /// The title shown for this page.
    pub fn get_info(&self) -> (r: PageInfo)
        ensures
            r.title@ == page_title(*self),
    {
        match self {
            Page::Relic => PageInfo { title: "遗物" },
            Page::Element => PageInfo { title: "单位" },
            Page::Enemy => PageInfo { title: "敌人" },
            Page::L10n => PageInfo { title: "本地化" },
            Page::RaceAttribute => PageInfo { title: "种族" },
        }
    }
}

/// The title of each page, as a sequence of characters.
pub open spec fn page_title(p: Page) -> Seq<char> {
    match p {
        Page::Relic => "遗物"@,
        Page::Element => "单位"@,
        Page::Enemy => "敌人"@,
        Page::L10n => "本地化"@,
        Page::RaceAttribute => "种族"@,
    }
}

impl Default for Page {
    /// A fresh editor starts on the relic table.
    fn default() -> (r: Self)
        ensures
            r == Page::Relic,
    {
        Page::Relic
    }
}

} // verus!
