use vstd::prelude::*;

use crate::scrape::data::Scrapable;
use crate::text::{contains, has_part};

pub mod data;

verus! {

/// The kinds of page that a preview is made of, each in its own way.
#[derive(Clone, Copy, Debug, PartialEq, Eq, Structural)]
pub enum Url {
    Youtube,
    Wikipedia,
    Other,
}

impl Url {
    /// The kind of page that an address leads to: a YouTube page where the
    /// address holds `youtube.com` or `youtu.be`, else a Wikipedia page
    /// where it holds `wikipedia`, else any other page.
    pub open spec fn classify(data: Seq<char>) -> Url {
        if has_part(data, "youtube.com"@) || has_part(data, "youtu.be"@) {
            Url::Youtube
        } else if has_part(data, "wikipedia"@) {
            Url::Wikipedia
        } else {
            Url::Other
        }
    }

    /// The kind of page that the address `data` leads to.
    pub fn from(data: &String) -> (r: Url)
        ensures
            r == Url::classify(data@),
    {
        if contains(data, "youtube.com") || contains(data, "youtu.be") {
            Url::Youtube
        } else if contains(data, "wikipedia") {
            Url::Wikipedia
        } else {
            Url::Other
        }
    }
}

/// The preview of a page: what is shown of a link.
#[derive(Debug)]
pub struct UrlData {
    pub title: Option<String>,
    pub content: Option<String>,
    pub thumbnail: Option<String>,
}

/// The text of an optional text.
pub open spec fn view_of(o: Option<String>) -> Option<Seq<char>> {
    match o {
        Some(s) => Some(s@),
        None => None,
    }
}

impl Default for UrlData {
    fn default() -> (r: Self)
        ensures
            r.title is None,
            r.content is None,
            r.thumbnail is None,
    {
        UrlData { title: None, content: None, thumbnail: None }
    }
}

impl UrlData {
    /// The preview that the page `data` gives: its title, its content and
    /// its thumbnail.
    pub fn from<T: Scrapable>(data: T) -> (r: UrlData)
        ensures
            view_of(r.title) == data.title(),
            view_of(r.content) == data.content(),
            view_of(r.thumbnail) == data.thumbnail(),
    {
        let title = data.get_title();
        let content = data.get_content();
        let thumbnail = data.get_thumbnail();
        UrlData { title, content, thumbnail }
    }
}

} // verus!
