use vstd::prelude::*;
use vstd::string::StringExecFns;

use crate::attachments::models::{Attachment, FillableAttachment};
use crate::auth::ApiKey;
use crate::clock::DateTime;
use crate::db::{first, free_for, DbConn, QueryError};
use crate::errors::{ErrorKind, Status, ThearningResult};
use crate::files::models::{FileType, UploadType, UploadedFile};
use crate::router::{Endpoint, MediaDir, Router};
use crate::text;
use crate::users::models::{ByUserId, User};
use crate::utils::{decimal, generate_key, generate_random_id, is_key, to_decimal};

verus! {

/// Where the service runs: the host under which it is reached, and the
/// directory on the disk below which it keeps the media.
#[derive(Debug)]
pub struct Site {
    pub url: String,
    pub dir: String,
}

/// A file that is to be written to the disk at `path` and is then served
/// under `url`.
#[derive(Debug)]
pub struct Upload {
    pub path: String,
    pub url: String,
}

/// The directory below the media directory in which uploads of a kind are
/// kept; assignment files are not uploaded as images.
pub open spec fn folder(upload_type: UploadType) -> Option<Seq<char>> {
    match upload_type {
        UploadType::ProfilePhoto => Some("profiles"@),
        UploadType::ClassPicture => Some("classes"@),
        UploadType::AssignmentFile => None,
    }
}

/// The path on the disk of the image `filename` with the id `file_id`.
pub open spec fn image_path(site: Site, folder: Seq<char>, file_id: Seq<char>, filename: Seq<char>) -> Seq<
    char,
> {
    site.dir@ + "/media/"@ + folder + "/"@ + file_id + "-"@ + filename
}

/// The address under which the image `filename` with the id `file_id` is served.
pub open spec fn image_url(site: Site, folder: Seq<char>, file_id: Seq<char>, filename: Seq<char>) -> Seq<
    char,
> {
    "http://"@ + site.url@ + "/api/media/img/"@ + folder + "/"@ + file_id + "-"@ + filename
}

/// The path on the disk of the attachment `name`.`ext` with the id `file_id`.
pub open spec fn attachment_path(site: Site, file_id: Seq<char>, name: Seq<char>, ext: Seq<char>) -> Seq<
    char,
> {
    site.dir@ + "/media/attachments/"@ + file_id + "-"@ + name + "."@ + ext
}

/// The address under which the attachment `name`.`ext` with the id
/// `file_id` is served.
pub open spec fn attachment_url(site: Site, file_id: Seq<char>, name: Seq<char>, ext: Seq<char>) -> Seq<
    char,
> {
    "http://"@ + site.url@ + "/api/media/attachments/"@ + file_id + "-"@ + name + "."@ + ext
}

/// Records the image `filename` under the id `file_id` as uploaded at
/// `now`, and says where it is to be written and where it is served.
/// `InvalidValue` for an assignment file, which is no image;
/// `UniqueViolation` where the id is taken.
pub fn process_image_with(
    upload_type: UploadType,
    filename: &String,
    file_id: String,
    site: &Site,
    now: DateTime,
    conn: &mut DbConn,
) -> (r: ThearningResult<Upload>)
    ensures
        match folder(upload_type) {
            None => r == Err::<Upload, ErrorKind>(ErrorKind::InvalidValue) && final(conn).files@ == old(conn).files@,
            Some(folder) => match r {
                Ok(upload) => {
                    &&& upload.path@ == image_path(*site, folder, file_id@, filename@)
                    &&& upload.url@ == image_url(*site, folder, file_id@, filename@)
                    &&& final(conn).files@.len() == old(conn).files@.len() + 1
                    &&& final(conn).files@.drop_last() == old(conn).files@
                    &&& final(conn).files@.last() == (UploadedFile {
                        file_id,
                        filename: *filename,
                        file_path: upload.path,
                        file_url: upload.url,
                        filetype: final(conn).files@.last().filetype,
                        created_at: now,
                    })
                    &&& final(conn).files@.last().filetype@ == "image"@
                },
                Err(e) => {
                    &&& e == ErrorKind::QueryError(QueryError::UniqueViolation)
                    &&& final(conn).files@ == old(conn).files@
                },
            },
        },
        r is Ok <==> folder(upload_type) is Some && forall|j: int|
            0 <= j < old(conn).files@.len() ==> (#[trigger] old(conn).files@[j]).file_id@ != file_id@,
        *final(conn) == (DbConn { files: final(conn).files, ..*old(conn) }),
{
    let folder = match upload_type {
        UploadType::ProfilePhoto => "profiles",
        UploadType::ClassPicture => "classes",
        UploadType::AssignmentFile => { return Err(ErrorKind::InvalidValue); },
    };
    let path = site.dir.clone().concat("/media/").concat(folder).concat("/").concat(
        file_id.as_str(),
    ).concat("-").concat(filename.as_str());
    let url = String::from_str("http://").concat(site.url.as_str()).concat("/api/media/img/").concat(
        folder,
    ).concat("/").concat(file_id.as_str()).concat("-").concat(filename.as_str());
    let kind = String::from_str("image");
    let ghost before = conn.files@;
    match UploadedFile::new_at(&file_id, filename, &path, &url, &kind, now, conn) {
        Ok(row) => {
            proof {
                assert(conn.files@.drop_last() =~= before);
                assert forall|j: int| 0 <= j < before.len() implies (#[trigger] before[j]).file_id@
                    != file_id@ by {
                    assert(!crate::db::clash(before[j], row));
                }
            }
            Ok(Upload { path, url })
        },
        Err(e) => {
            proof {
                let row = UploadedFile {
                    file_id,
                    filename: *filename,
                    file_path: path,
                    file_url: url,
                    filetype: kind,
                    created_at: now,
                };
                assert(!free_for(before, row));
            }
            Err(ErrorKind::QueryError(e))
        },
    }
}

/// Records the image `filename` under a random id as uploaded at `now`.
pub fn process_image(
    upload_type: UploadType,
    filename: &String,
    site: &Site,
    now: DateTime,
    conn: &mut DbConn,
) -> (r: ThearningResult<Upload>)
    ensures
        match r {
            Ok(upload) => {
                &&& folder(upload_type) matches Some(folder)
                &&& final(conn).files@.len() == old(conn).files@.len() + 1
                &&& final(conn).files@.drop_last() == old(conn).files@
                &&& final(conn).files@.last().file_path == upload.path
                &&& final(conn).files@.last().file_url == upload.url
                &&& final(conn).files@.last().filename == *filename
                &&& final(conn).files@.last().created_at == now
                &&& final(conn).files@.last().filetype@ == "image"@
                &&& upload.path@ == image_path(*site, folder, final(conn).files@.last().file_id@, filename@)
                &&& upload.url@ == image_url(*site, folder, final(conn).files@.last().file_id@, filename@)
                &&& exists|n: nat|
                    n <= i32::MAX && #[trigger] decimal(n) == final(conn).files@.last().file_id@
            },
            Err(e) => {
                &&& final(conn).files@ == old(conn).files@
                &&& e == ErrorKind::InvalidValue <==> folder(upload_type) is None
                &&& e != ErrorKind::InvalidValue ==> e == ErrorKind::QueryError(
                    QueryError::UniqueViolation,
                )
            },
        },
        folder(upload_type) is None ==> r is Err,
        *final(conn) == (DbConn { files: final(conn).files, ..*old(conn) }),
{
    let n = generate_random_id();
    let file_id = to_decimal(n as u32);
    assert(decimal(n as nat) == file_id@);
    process_image_with(upload_type, filename, file_id, site, now, conn)
}

/// Records the attachment `name`.`ext` of the kind `ft` under the id
/// `file_id` as uploaded at `now`, and hands back its row, which says
/// where the file is to be written. `UniqueViolation` where the id is taken.
pub fn process_attachment_with(
    name: &String,
    ext: &str,
    ft: FileType,
    file_id: String,
    site: &Site,
    now: DateTime,
    conn: &mut DbConn,
) -> (r: ThearningResult<UploadedFile>)
    ensures
        match r {
            Ok(row) => {
                &&& row.file_id == file_id
                &&& row.filename@ == name@ + "."@ + ext@
                &&& row.file_path@ == attachment_path(*site, file_id@, name@, ext@)
                &&& row.file_url@ == attachment_url(*site, file_id@, name@, ext@)
                &&& row.filetype@ == ft.spec_name()
                &&& row.created_at == now
                &&& final(conn).files@ == old(conn).files@.push(row)
            },
            Err(e) => {
                &&& e == ErrorKind::QueryError(QueryError::UniqueViolation)
                &&& final(conn).files@ == old(conn).files@
            },
        },
        r is Ok <==> forall|j: int|
            0 <= j < old(conn).files@.len() ==> (#[trigger] old(conn).files@[j]).file_id@ != file_id@,
        *final(conn) == (DbConn { files: final(conn).files, ..*old(conn) }),
{
    let path = site.dir.clone().concat("/media/attachments/").concat(file_id.as_str()).concat("-").concat(
        name.as_str(),
    ).concat(".").concat(ext);
    let url = String::from_str("http://").concat(site.url.as_str()).concat(
        "/api/media/attachments/",
    ).concat(file_id.as_str()).concat("-").concat(name.as_str()).concat(".").concat(ext);
    let filename = name.clone().concat(".").concat(ext);
    let kind = ft.to_string();
    let ghost before = conn.files@;
    match UploadedFile::new_at(&file_id, &filename, &path, &url, &kind, now, conn) {
        Ok(row) => {
            proof {
                assert forall|j: int| 0 <= j < before.len() implies (#[trigger] before[j]).file_id@
                    != file_id@ by {
                    assert(!crate::db::clash(before[j], row));
                }
            }
            Ok(row)
        },
        Err(e) => {
            proof {
                let row = UploadedFile {
                    file_id,
                    filename,
                    file_path: path,
                    file_url: url,
                    filetype: kind,
                    created_at: now,
                };
                assert(!free_for(before, row));
            }
            Err(ErrorKind::QueryError(e))
        },
    }
}

/// Records the attachment `name`.`ext` of the kind `ft` under a random id
/// as uploaded at `now`.
pub fn process_attachment(
    name: &String,
    ext: &str,
    ft: FileType,
    site: &Site,
    now: DateTime,
    conn: &mut DbConn,
) -> (r: ThearningResult<UploadedFile>)
    ensures
        match r {
            Ok(row) => {
                &&& is_key(row.file_id@)
                &&& row.filename@ == name@ + "."@ + ext@
                &&& row.file_path@ == attachment_path(*site, row.file_id@, name@, ext@)
                &&& row.file_url@ == attachment_url(*site, row.file_id@, name@, ext@)
                &&& row.filetype@ == ft.spec_name()
                &&& row.created_at == now
                &&& final(conn).files@ == old(conn).files@.push(row)
            },
            Err(e) => {
                &&& e == ErrorKind::QueryError(QueryError::UniqueViolation)
                &&& final(conn).files@ == old(conn).files@
            },
        },
        *final(conn) == (DbConn { files: final(conn).files, ..*old(conn) }),
{
    let file_id = generate_key();
    process_attachment_with(name, ext, ft, file_id, site, now, conn)
}

/// What an upload form carries besides the file itself.
#[derive(Debug)]
pub struct AttachmentData {
    /// The content type of the file, where the form states one.
    pub content_type: Option<String>,
    pub filename: Option<String>,
    pub assignment_id: Option<String>,
    pub announcement_id: Option<String>,
    pub submission_id: Option<String>,
}

/// What a successful upload answers: the attachment and its file.
#[derive(Debug)]
pub struct Uploaded {
    pub attachment: Attachment,
    pub file: UploadedFile,
}

/// Takes an uploaded file in at `now`: records the file and attaches it to
/// what the form names. `Unauthorized` where the caller is not in the
/// store; `BadRequest` where the form states no content type or one that
/// is not known, or where the file cannot be recorded;
/// `InternalServerError` where the attachment cannot be.
pub fn upload_file(key: &ApiKey, data: AttachmentData, site: &Site, now: DateTime, conn: &mut DbConn) -> (r:
    Result<Uploaded, Status>)
    ensures
        first(old(conn).users@, ByUserId(&key.0)) is None ==> r == Err::<Uploaded, Status>(
            Status::Unauthorized,
        ),
        first(old(conn).users@, ByUserId(&key.0)) is Some && !(data.content_type matches Some(t)
            && FileType::parse(t@) is Some) ==> r == Err::<Uploaded, Status>(Status::BadRequest),
        match r {
            Ok(uploaded) => {
                &&& first(old(conn).users@, ByUserId(&key.0)) matches Some(user)
                &&& data.content_type matches Some(t)
                &&& FileType::parse(t@) matches Some(kind)
                &&& uploaded.file.filetype@ == kind.spec_name()
                &&& uploaded.file.created_at == now
                &&& uploaded.attachment.file_id == Some(uploaded.file.file_id)
                &&& uploaded.attachment.link_id is None
                &&& uploaded.attachment.assignment_id == data.assignment_id
                &&& uploaded.attachment.announcement_id == data.announcement_id
                &&& uploaded.attachment.submission_id == data.submission_id
                &&& uploaded.attachment.uploader == user.user_id
                &&& uploaded.attachment.created_at == now
                &&& final(conn).files@ == old(conn).files@.push(uploaded.file)
                &&& final(conn).attachments@ == old(conn).attachments@.push(uploaded.attachment)
            },
            Err(s) => {
                &&& s == Status::Unauthorized || s == Status::BadRequest || s
                    == Status::InternalServerError
                &&& final(conn).attachments@ == old(conn).attachments@
                &&& s != Status::InternalServerError ==> final(conn).files@ == old(conn).files@
            },
        },
        *final(conn) == (DbConn {
            files: final(conn).files,
            attachments: final(conn).attachments,
            ..*old(conn)
        }),
{
    let user = match User::find_user(&key.0, conn) {
        Ok(u) => u,
        Err(_) => { return Err(Status::Unauthorized); },
    };
    let ft = match &data.content_type {
        Some(t) => t.clone(),
        None => { return Err(Status::BadRequest); },
    };
    let name = match &data.filename {
        Some(n) => n.clone(),
        None => String::new(),
    };
    let filetype = match FileType::from_str(&ft) {
        Ok(v) => v,
        Err(_) => { return Err(Status::BadRequest); },
    };
    let file = match process_attachment(&name, filetype.ext(), filetype, site, now, conn) {
        Ok(v) => v,
        Err(_) => { return Err(Status::BadRequest); },
    };
    let new_attachment = FillableAttachment {
        file_id: Some(file.file_id.clone()),
        link_id: None,
        assignment_id: data.assignment_id,
        announcement_id: data.announcement_id,
        submission_id: data.submission_id,
        uploader: user.user_id,
    };
    let id = to_decimal(generate_random_id() as u32);
    match Attachment::create_with(new_attachment, id, now, conn) {
        Ok(attachment) => Ok(Uploaded { attachment, file }),
        Err(_) => Err(Status::InternalServerError),
    }
}

/// The routes of this module.
pub open spec fn routes() -> Seq<Endpoint> {
    seq![Endpoint::UploadFile]
}

/// The media directories that this module serves.
pub open spec fn served() -> Seq<MediaDir> {
    seq![MediaDir::Profiles, MediaDir::Classes, MediaDir::Attachments]
}

/// Mounts the upload route and the three media directories.
pub fn mount(rocket: Router) -> (r: Router)
    ensures
        r.routes@ == rocket.routes@ + routes(),
        r.catchers@ == rocket.catchers@,
        r.file_servers@ == rocket.file_servers@ + served(),
{
    let mut routes: Vec<Endpoint> = Vec::new();
    routes.push(Endpoint::UploadFile);
    let r = rocket.mount(routes).serve(MediaDir::Profiles).serve(MediaDir::Classes).serve(
        MediaDir::Attachments,
    );
    proof {
        assert(r.file_servers@ =~= rocket.file_servers@ + served());
    }
    r
}

} // verus!
