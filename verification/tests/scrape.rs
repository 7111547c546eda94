use thearning::scrape::data::{description, OtherData, Scrapable, WikipediaData, YoutubeData};
use thearning::scrape::{Url, UrlData};

const YOUTUBE: &str = "<html><head>\
    <meta property=\"og:title\" content=\"A video\">\
    <meta property=\"og:description\" content=\"About it\">\
    <meta property=\"og:image\" content=\"https://i.ytimg.com/vi/bN2iHlZTGgQ/maxresdefault.jpg\">\
    </head><body></body></html>";

#[test]
fn addresses_are_told_apart() {
    assert_eq!(Url::from(&"https://youtu.be/bN2iHlZTGgQ".to_string()), Url::Youtube);
    assert_eq!(Url::from(&"https://www.youtube.com/watch?v=x".to_string()), Url::Youtube);
    assert_eq!(Url::from(&"https://en.wikipedia.org/wiki/Touhou_Project".to_string()), Url::Wikipedia);
    assert_eq!(Url::from(&"https://touhou.fandom.com/wiki/Kanako_Yasaka".to_string()), Url::Other);
    assert_eq!(Url::from(&"https://youtube.com/wikipedia".to_string()), Url::Youtube);
    assert_eq!(Url::from(&"".to_string()), Url::Other);
}

#[test]
fn a_youtube_page_gives_its_open_graph_tags() {
    let data = YoutubeData { raw_data: YOUTUBE.to_string() };
    let url_data = UrlData::from(data);
    assert_eq!("A video", url_data.title.unwrap());
    assert_eq!("About it", url_data.content.unwrap());
    assert_eq!("https://i.ytimg.com/vi/bN2iHlZTGgQ/maxresdefault.jpg", url_data.thumbnail.unwrap());
}

#[test]
fn a_wikipedia_page_gives_its_title_only() {
    let raw_data = "<html><head><meta property=\"og:title\" content=\"Touhou Project - Wikipedia\">\
                    <meta property=\"og:description\" content=\"ignored\"></head></html>";
    let data = WikipediaData { raw_data: raw_data.to_string() };
    let url_data = UrlData::from(data);
    assert_eq!("Touhou Project - Wikipedia", url_data.title.unwrap());
    assert_eq!(None, url_data.content);
    assert_eq!(None, url_data.thumbnail);
}

#[test]
fn another_page_gives_its_title_and_description() {
    let raw_data = "<html><head><title>Kanako Yasaka | Touhou Wiki | Fandom</title>\
                    <meta property=\"og:description\" content=\"Kanako Yasaka is the final boss\">\
                    <meta name=\"description\" content=\"plain\"></head><body><p>x</p></body></html>";
    let data = OtherData { raw_data: raw_data.to_string() };
    let url_data = UrlData::from(data);
    assert_eq!("Kanako Yasaka | Touhou Wiki | Fandom", url_data.title.unwrap());
    assert_eq!("Kanako Yasaka is the final boss", url_data.content.unwrap());
    assert_eq!(None, url_data.thumbnail);
}

#[test]
fn a_page_without_tags_gives_empty_texts_and_no_title() {
    let data = OtherData { raw_data: "<html><body><p>nothing</p></body></html>".to_string() };
    assert_eq!(data.get_title(), None);
    assert_eq!(data.get_content(), Some("".to_string()));
    assert_eq!(data.get_thumbnail(), None);
    let data = YoutubeData { raw_data: "".to_string() };
    assert_eq!(data.get_title(), Some("".to_string()));
}

#[test]
fn a_tag_without_content_falls_back_to_the_plain_description() {
    let raw_data = "<html><head><meta property=\"og:description\">\
                    <meta name=\"description\" content=\"plain\"></head></html>";
    let data = OtherData { raw_data: raw_data.to_string() };
    assert_eq!(data.get_content(), Some("plain".to_string()));
    let data = YoutubeData { raw_data: raw_data.to_string() };
    assert_eq!(data.get_content(), None);
    assert_eq!(description(None, Some("b".to_string())), Some("b".to_string()));
    assert_eq!(description(Some("a".to_string()), Some("b".to_string())), Some("a".to_string()));
    assert_eq!(description(None, None), None);
}

#[test]
fn the_default_preview_is_empty() {
    let d = UrlData::default();
    assert!(d.title.is_none() && d.content.is_none() && d.thumbnail.is_none());
}
