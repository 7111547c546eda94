use vstd::prelude::*;

use crate::attachments::models::{shelf_of, Attachment, ByAttachmentId, Deleted};
use crate::auth::ApiKey;
use crate::db::{first, DbConn};
use crate::errors::Status;
use crate::router::{Endpoint, Router};

verus! {

/// What a deletion answers: its status, and the paths of the files that
/// are to be removed from the disk now that their rows are gone.
#[derive(Debug)]
pub struct Removal {
    pub status: Status,
    pub file_paths: Vec<String>,
}

/// The path of the file of a deletion, as a list.
pub open spec fn path_of(deleted: Result<Deleted, crate::errors::ErrorKind>) -> Seq<String> {
    match deleted {
        Ok(Deleted { file_path: Some(path), .. }) => seq![path],
        _ => Seq::empty(),
    }
}

/// Deletes the attachment `attachment_id` with its file and its link.
/// An attachment that the store does not know is answered with
/// `NotFound`; any other request with `Success`, also where the attachment
/// names a file that the store does not know and so stays.
pub fn delete_attachment(key: &ApiKey, attachment_id: String, conn: &mut DbConn) -> (r: Result<
    Removal,
    Status,
>)
    ensures
        match first(old(conn).attachments@, ByAttachmentId(&attachment_id)) {
            None => r == Err::<Removal, Status>(Status::NotFound) && shelf_of(*final(conn))
                == shelf_of(*old(conn)),
            Some(attachment) => {
                &&& r matches Ok(removal)
                &&& removal.status == Status::Success
                &&& removal.file_paths@ == path_of(attachment.delete_result(shelf_of(*old(conn))))
                &&& shelf_of(*final(conn)) == attachment.delete_from(shelf_of(*old(conn)))
            },
        },
        *final(conn) == (DbConn {
            attachments: final(conn).attachments,
            files: final(conn).files,
            links: final(conn).links,
            ..*old(conn)
        }),
{
    let attachment = match Attachment::find(&attachment_id, conn) {
        Ok(a) => a,
        Err(_) => { return Err(Status::NotFound); },
    };
    let mut file_paths: Vec<String> = Vec::new();
    match attachment.delete(conn) {
        Ok(deleted) => match deleted.file_path {
            Some(path) => {
                file_paths.push(path);
            },
            None => {},
        },
        Err(_) => {},
    }
    Ok(Removal { status: Status::Success, file_paths })
}

/// The routes of this module.
pub open spec fn routes() -> Seq<Endpoint> {
    seq![Endpoint::DeleteAttachment]
}

/// Mounts the routes of this module.
pub fn mount(rocket: Router) -> (r: Router)
    ensures
        r.routes@ == rocket.routes@ + routes(),
        r.catchers@ == rocket.catchers@,
        r.file_servers@ == rocket.file_servers@,
{
    let mut routes: Vec<Endpoint> = Vec::new();
    routes.push(Endpoint::DeleteAttachment);
    rocket.mount(routes)
}

} // verus!
