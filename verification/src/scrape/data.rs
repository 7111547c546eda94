use vstd::prelude::*;

use crate::scrape::view_of;

verus! {

/// A page that a preview can be made of.
pub trait Scrapable {
    /// The title that the page gives, if it gives one.
    spec fn title(&self) -> Option<Seq<char>>;

    /// The description that the page gives, if it gives one.
    spec fn content(&self) -> Option<Seq<char>>;

    /// The address of the picture that the page gives, if it gives one.
    spec fn thumbnail(&self) -> Option<Seq<char>>;

    fn get_title(&self) -> (r: Option<String>)
        ensures
            view_of(r) == self.title(),
    ;

    fn get_content(&self) -> (r: Option<String>)
        ensures
            view_of(r) == self.content(),
    ;

    fn get_thumbnail(&self) -> (r: Option<String>)
        ensures
            view_of(r) == self.thumbnail(),
    ;
}

/// The source of a YouTube page.
#[derive(Debug)]
pub struct YoutubeData {
    pub raw_data: String,
}

/// The source of a Wikipedia page.
#[derive(Debug)]
pub struct WikipediaData {
    pub raw_data: String,
}

/// The source of any other page.
#[derive(Debug)]
pub struct OtherData {
    pub raw_data: String,
}

/// What the crate `select` finds in the HTML text `raw` for the nodes whose
/// attribute `attribute` has the value `value`: the values of their
/// attribute `name`, in document order and strung together, or `None` where
/// one of these nodes lacks that attribute.
pub uninterp spec fn meta(raw: Seq<char>, attribute: Seq<char>, value: Seq<char>, name: Seq<char>) -> Option<
    Seq<char>,
>;

/// What the crate `scraper` finds in the HTML text `raw` for the first
/// element that the CSS selector `selector` matches: its first piece of
/// text, or `None` where the selector cannot be read, matches nothing, or
/// the element holds no text.
pub uninterp spec fn first_text(raw: Seq<char>, selector: Seq<char>) -> Option<Seq<char>>;

/// Parses `raw` with `select::document::Document::from`, finds the nodes
/// that `select::predicate::Attr(attribute, value)` matches, and collects
/// what `Node::attr(name)` gives for each into one optional text. The
/// outcome is computed from the four texts alone; the contract names it.
#[verifier::external_body]
fn find_meta(raw: &String, attribute: &str, value: &str, name: &str) -> (r: Option<String>)
    ensures
        view_of(r) == meta(raw@, attribute@, value@, name@),
{
    let docs = select::document::Document::from(raw.as_str());
    docs.find(select::predicate::Attr(attribute, value)).map(|x| x.attr(name)).collect::<Option<String>>()
}

/// Parses `raw` with `scraper::Html::parse_document` and the selector with
/// `scraper::Selector::parse`, and copies the first item of
/// `ElementRef::text` of the first element that `Html::select` yields. The
/// outcome is computed from the two texts alone; the contract names it.
#[verifier::external_body]
fn find_first_text(raw: &String, selector: &str) -> (r: Option<String>)
    ensures
        view_of(r) == first_text(raw@, selector@),
{
    let docs = scraper::Html::parse_document(raw);
    let selector = scraper::Selector::parse(selector).ok()?;
    docs.select(&selector).next().and_then(|element| element.text().next()).map(str::to_string)
}

/// The description of a page that is neither YouTube's nor Wikipedia's,
/// given what its two kinds of description tag hold: the Open Graph
/// description where the page's tags of that kind all have a content, else
/// the plain description.
pub fn description(open_graph: Option<String>, plain: Option<String>) -> (r: Option<String>)
    ensures
        r == match open_graph {
            Some(desc) => Some(desc),
            None => plain,
        },
{
    match open_graph {
        Some(desc) => Some(desc),
        None => plain,
    }
}

impl Scrapable for YoutubeData {
    open spec fn title(&self) -> Option<Seq<char>> {
        meta(self.raw_data@, "property"@, "og:title"@, "content"@)
    }

    open spec fn content(&self) -> Option<Seq<char>> {
        meta(self.raw_data@, "property"@, "og:description"@, "content"@)
    }

    open spec fn thumbnail(&self) -> Option<Seq<char>> {
        meta(self.raw_data@, "property"@, "og:image"@, "content"@)
    }

    fn get_title(&self) -> (r: Option<String>) {
        find_meta(&self.raw_data, "property", "og:title", "content")
    }

    fn get_content(&self) -> (r: Option<String>) {
        find_meta(&self.raw_data, "property", "og:description", "content")
    }

    fn get_thumbnail(&self) -> (r: Option<String>) {
        find_meta(&self.raw_data, "property", "og:image", "content")
    }
}

impl Scrapable for WikipediaData {
    open spec fn title(&self) -> Option<Seq<char>> {
        meta(self.raw_data@, "property"@, "og:title"@, "content"@)
    }

    open spec fn content(&self) -> Option<Seq<char>> {
        None
    }

    open spec fn thumbnail(&self) -> Option<Seq<char>> {
        None
    }

    fn get_title(&self) -> (r: Option<String>) {
        find_meta(&self.raw_data, "property", "og:title", "content")
    }

    fn get_content(&self) -> (r: Option<String>) {
        None
    }

    fn get_thumbnail(&self) -> (r: Option<String>) {
        None
    }
}

impl Scrapable for OtherData {
    open spec fn title(&self) -> Option<Seq<char>> {
        first_text(self.raw_data@, "title"@)
    }

    open spec fn content(&self) -> Option<Seq<char>> {
        match meta(self.raw_data@, "property"@, "og:description"@, "content"@) {
            Some(desc) => Some(desc),
            None => meta(self.raw_data@, "name"@, "description"@, "content"@),
        }
    }

    open spec fn thumbnail(&self) -> Option<Seq<char>> {
        None
    }

    fn get_title(&self) -> (r: Option<String>) {
        find_first_text(&self.raw_data, "title")
    }

    fn get_content(&self) -> (r: Option<String>) {
        let open_graph = find_meta(&self.raw_data, "property", "og:description", "content");
        let plain = find_meta(&self.raw_data, "name", "description", "content");
        description(open_graph, plain)
    }

    fn get_thumbnail(&self) -> (r: Option<String>) {
        None
    }
}

} // verus!
