//! Site abstraction for DLsite subdomains.

use vstd::prelude::*;
use crate::text::owned;

verus! {

/// A DLsite site: a content segment under `https://www.dlsite.com/`.
#[derive(Clone, Debug, PartialEq)]
pub enum Site {
    /// General/home site (`/home`)
    Home,
    /// Adult doujin site (`/maniax`), the default
    Maniax,
    /// Books site (`/books`)
    Books,
    /// Software/utility site (`/soft`)
    Soft,
    /// Professional/commercial site (`/pro`)
    Pro,
    /// Android app site (`/appx`)
    Appx,
    /// Comics/manga site (`/comic`)
    Comic,
    /// Custom segment, for targets the variants above do not cover.
    Custom(String),
}

impl Default for Site {
    fn default() -> (r: Self)
        ensures
            r == Site::Maniax,
    {
        Site::Maniax
    }
}

impl Site {
    /// The path segment of the site.
    pub open spec fn segment(&self) -> Seq<char> {
        match self {
            Site::Home => "home"@,
            Site::Maniax => "maniax"@,
            Site::Books => "books"@,
            Site::Soft => "soft"@,
            Site::Pro => "pro"@,
            Site::Appx => "appx"@,
            Site::Comic => "comic"@,
            Site::Custom(s) => s@,
        }
    }

    /// The full base URL of the site.
    pub open spec fn spec_base_url(&self) -> Seq<char> {
        "https://www.dlsite.com/"@ + self.segment()
    }

    /// Returns the full base URL for this site.
    pub fn base_url(&self) -> (r: String)
        ensures
            r@ == self.spec_base_url(),
    {
        let mut url = owned("https://www.dlsite.com/");
        match self {
            Site::Home => url.append("home"),
            Site::Maniax => url.append("maniax"),
            Site::Books => url.append("books"),
            Site::Soft => url.append("soft"),
            Site::Pro => url.append("pro"),
            Site::Appx => url.append("appx"),
            Site::Comic => url.append("comic"),
            Site::Custom(s) => url.append(s.as_str()),
        }
        url
    }
}

} // verus!
