use vstd::prelude::*;

use crate::attachments::models::{Attachment, FillableAttachment};
use crate::auth::ApiKey;
use crate::clock::DateTime;
use crate::db::{first, DbConn};
use crate::errors::Status;
use crate::links::models::Link;
use crate::router::{Endpoint, Router};
use crate::scrape::data::{OtherData, Scrapable, WikipediaData, YoutubeData};
use crate::scrape::{view_of, Url, UrlData};
use crate::users::models::{ByUserId, User};
use crate::utils::{generate_key, generate_random_id, is_key, to_decimal};

verus! {

/// What a request to attach a link carries.
#[derive(Debug)]
pub struct AttachmentData {
    pub url: String,
    pub assignment_id: Option<String>,
    pub announcement_id: Option<String>,
    pub submission_id: Option<String>,
}

/// What attaching a link answers: the link with its preview, and the
/// attachment.
#[derive(Debug)]
pub struct Linked {
    pub link: Link,
    pub attachment: Attachment,
}

/// The title that the preview of the page at `url` with the source `raw`
/// gets.
pub open spec fn preview_title(url: Seq<char>, raw: String) -> Option<Seq<char>> {
    match Url::classify(url) {
        Url::Youtube => (YoutubeData { raw_data: raw }).title(),
        Url::Wikipedia => (WikipediaData { raw_data: raw }).title(),
        Url::Other => (OtherData { raw_data: raw }).title(),
    }
}

/// The description that the preview of the page at `url` with the source
/// `raw` gets.
pub open spec fn preview_content(url: Seq<char>, raw: String) -> Option<Seq<char>> {
    match Url::classify(url) {
        Url::Youtube => (YoutubeData { raw_data: raw }).content(),
        Url::Wikipedia => (WikipediaData { raw_data: raw }).content(),
        Url::Other => (OtherData { raw_data: raw }).content(),
    }
}

/// The picture that the preview of the page at `url` with the source
/// `raw` gets.
pub open spec fn preview_thumbnail(url: Seq<char>, raw: String) -> Option<Seq<char>> {
    match Url::classify(url) {
        Url::Youtube => (YoutubeData { raw_data: raw }).thumbnail(),
        Url::Wikipedia => (WikipediaData { raw_data: raw }).thumbnail(),
        Url::Other => (OtherData { raw_data: raw }).thumbnail(),
    }
}

/// The preview of the page at `url`, whose source is `raw_data`.
pub fn preview(url: &String, raw_data: String) -> (r: UrlData)
    ensures
        view_of(r.title) == preview_title(url@, raw_data),
        view_of(r.content) == preview_content(url@, raw_data),
        view_of(r.thumbnail) == preview_thumbnail(url@, raw_data),
{
    match Url::from(url) {
        Url::Youtube => UrlData::from(YoutubeData { raw_data }),
        Url::Wikipedia => UrlData::from(WikipediaData { raw_data }),
        Url::Other => UrlData::from(OtherData { raw_data }),
    }
}

/// Attaches the link `data.url`, whose page has the source `raw_data`, at
/// `now`: stores the link with its preview under a random id, and the
/// attachment that names it. `NotFound` where the caller is not in the
/// store; `BadRequest` where the id drawn for the link is taken;
/// `UnprocessableEntity` where that for the attachment is.
pub fn handle_link(key: &ApiKey, data: AttachmentData, raw_data: String, now: DateTime, conn: &mut DbConn) -> (r:
    Result<Linked, Status>)
    ensures
        match first(old(conn).users@, ByUserId(&key.0)) {
            None => r == Err::<Linked, Status>(Status::NotFound) && final(conn).links@ == old(conn).links@,
            Some(user) => match r {
                Ok(linked) => {
                    &&& is_key(linked.link.id@)
                    &&& view_of(linked.link.title) == preview_title(data.url@, raw_data)
                    &&& view_of(linked.link.description) == preview_content(data.url@, raw_data)
                    &&& view_of(linked.link.thumbnail) == preview_thumbnail(data.url@, raw_data)
                    &&& linked.link.url == Some(data.url)
                    &&& linked.link.created_at == now
                    &&& final(conn).links@ == old(conn).links@.push(linked.link)
                    &&& final(conn).attachments@ == old(conn).attachments@.push(linked.attachment)
                    &&& linked.attachment.file_id is None
                    &&& linked.attachment.link_id == Some(linked.link.id)
                    &&& linked.attachment.assignment_id == data.assignment_id
                    &&& linked.attachment.announcement_id == data.announcement_id
                    &&& linked.attachment.submission_id == data.submission_id
                    &&& linked.attachment.uploader == user.user_id
                    &&& linked.attachment.created_at == now
                },
                Err(s) => {
                    &&& s == Status::BadRequest || s == Status::UnprocessableEntity
                    &&& s == Status::BadRequest ==> final(conn).links@ == old(conn).links@
                },
            },
        },
        r is Err ==> final(conn).attachments@ == old(conn).attachments@,
        *final(conn) == (DbConn {
            links: final(conn).links,
            attachments: final(conn).attachments,
            ..*old(conn)
        }),
{
    let user = match User::find_user(&key.0, conn) {
        Ok(v) => v,
        Err(_) => { return Err(Status::NotFound); },
    };
    let link_id = generate_key();
    let url_data = preview(&data.url, raw_data);
    let link = Link {
        id: link_id,
        title: url_data.title,
        description: url_data.content,
        thumbnail: url_data.thumbnail,
        url: Some(data.url.clone()),
        created_at: now,
    };
    let create_link = match Link::create(link, conn) {
        Ok(l) => l,
        Err(_) => { return Err(Status::BadRequest); },
    };
    let new_attachment = FillableAttachment {
        file_id: None,
        link_id: Some(create_link.id.clone()),
        assignment_id: data.assignment_id,
        announcement_id: data.announcement_id,
        submission_id: data.submission_id,
        uploader: user.user_id,
    };
    let id = to_decimal(generate_random_id() as u32);
    match Attachment::create_with(new_attachment, id, now, conn) {
        Ok(attachment) => Ok(Linked { link: create_link, attachment }),
        Err(_) => Err(Status::UnprocessableEntity),
    }
}

/// The routes of this module.
pub open spec fn routes() -> Seq<Endpoint> {
    seq![Endpoint::HandleLink]
}

/// Mounts the routes of this module.
pub fn mount(rocket: Router) -> (r: Router)
    ensures
        r.routes@ == rocket.routes@ + routes(),
        r.catchers@ == rocket.catchers@,
        r.file_servers@ == rocket.file_servers@,
{
    let mut routes: Vec<Endpoint> = Vec::new();
    routes.push(Endpoint::HandleLink);
    rocket.mount(routes)
}

} // verus!
