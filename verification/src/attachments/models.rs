use vstd::prelude::*;

use crate::clock::{local_now, DateTime};
use crate::db::{all, first, first_index, free_for, DbConn, Filter, Key, QueryError, Row};
use crate::errors::{ErrorKind, ThearningResult};
use crate::files::models::{ByFileId, UploadedFile};
use crate::links::models::{ByLinkId, Link};
use crate::text;
use crate::utils::{decimal, generate_random_id, to_decimal};

verus! {

/// A file or a link attached to an assignment, an announcement or a submission.
#[derive(Debug)]
pub struct Attachment {
    pub attachment_id: String,
    pub file_id: Option<String>,
    pub link_id: Option<String>,
    pub assignment_id: Option<String>,
    pub announcement_id: Option<String>,
    pub submission_id: Option<String>,
    pub uploader: String,
    pub created_at: DateTime,
}

/// What is known of an attachment before it is stored.
#[derive(Debug)]
pub struct FillableAttachment {
    pub file_id: Option<String>,
    pub link_id: Option<String>,
    pub assignment_id: Option<String>,
    pub announcement_id: Option<String>,
    pub submission_id: Option<String>,
    pub uploader: String,
}

/// What deleting an attachment took out of the store, and the path of
/// the file that is to be removed from the disk with it.
#[derive(Debug)]
pub struct Deleted {
    pub attachment: Attachment,
    pub file_path: Option<String>,
}

impl Clone for Attachment {
    fn clone(&self) -> (r: Self)
        ensures
            r == *self,
    {
        Attachment {
            attachment_id: self.attachment_id.clone(),
            file_id: text::copy_of(&self.file_id),
            link_id: text::copy_of(&self.link_id),
            assignment_id: text::copy_of(&self.assignment_id),
            announcement_id: text::copy_of(&self.announcement_id),
            submission_id: text::copy_of(&self.submission_id),
            uploader: self.uploader.clone(),
            created_at: self.created_at,
        }
    }
}

impl Row for Attachment {
    open spec fn key(&self) -> Key {
        Key::Text(self.attachment_id@)
    }

    open spec fn unique(&self) -> Option<Seq<Seq<char>>> {
        None
    }

    fn same_key(&self, other: &Self) -> (b: bool) {
        self.attachment_id == other.attachment_id
    }

    fn same_unique(&self, other: &Self) -> (b: bool) {
        false
    }

    fn duplicate(&self) -> (r: Self) {
        self.clone()
    }
}

/// The attachment with a given id.
pub struct ByAttachmentId<'a>(pub &'a String);

impl<'a> Filter<Attachment> for ByAttachmentId<'a> {
    open spec fn accepts(&self, row: &Attachment) -> bool {
        row.attachment_id@ == self.0@
    }

    fn test(&self, row: &Attachment) -> (b: bool) {
        row.attachment_id == *self.0
    }
}

/// The attachments of one assignment.
pub struct AttachedToAssignment<'a>(pub &'a String);

impl<'a> Filter<Attachment> for AttachedToAssignment<'a> {
    open spec fn accepts(&self, row: &Attachment) -> bool {
        row.assignment_id matches Some(id) && id@ == self.0@
    }

    fn test(&self, row: &Attachment) -> (b: bool) {
        text::both_are(&row.assignment_id, self.0)
    }
}

/// The attachments of one announcement.
pub struct AttachedToAnnouncement<'a>(pub &'a String);

impl<'a> Filter<Attachment> for AttachedToAnnouncement<'a> {
    open spec fn accepts(&self, row: &Attachment) -> bool {
        row.announcement_id matches Some(id) && id@ == self.0@
    }

    fn test(&self, row: &Attachment) -> (b: bool) {
        text::both_are(&row.announcement_id, self.0)
    }
}

/// The attachments of one submission.
pub struct AttachedToSubmission<'a>(pub &'a String);

impl<'a> Filter<Attachment> for AttachedToSubmission<'a> {
    open spec fn accepts(&self, row: &Attachment) -> bool {
        row.submission_id matches Some(id) && id@ == self.0@
    }

    fn test(&self, row: &Attachment) -> (b: bool) {
        text::both_are(&row.submission_id, self.0)
    }
}

impl Attachment {
    /// The attachment that `new_data` becomes under the id `id` at `now`.
    pub open spec fn of(new_data: FillableAttachment, id: String, now: DateTime) -> Attachment {
        Attachment {
            attachment_id: id,
            file_id: new_data.file_id,
            link_id: new_data.link_id,
            assignment_id: new_data.assignment_id,
            announcement_id: new_data.announcement_id,
            submission_id: new_data.submission_id,
            uploader: new_data.uploader,
            created_at: now,
        }
    }

    /// Stores the attachment `new_data` under the id `id` as created at
    /// `now`; `UniqueViolation` where the id is taken.
    pub fn create_with(new_data: FillableAttachment, id: String, now: DateTime, conn: &mut DbConn) -> (r:
        Result<Attachment, QueryError>)
        ensures
            ({
                let row = Attachment::of(new_data, id, now);
                if free_for(old(conn).attachments@, row) {
                    &&& r == Ok::<Attachment, QueryError>(row)
                    &&& final(conn).attachments@ == old(conn).attachments@.push(row)
                } else {
                    &&& r == Err::<Attachment, QueryError>(QueryError::UniqueViolation)
                    &&& final(conn).attachments@ == old(conn).attachments@
                }
            }),
            *final(conn) == (DbConn { attachments: final(conn).attachments, ..*old(conn) }),
    {
        let row = Attachment {
            attachment_id: id,
            file_id: new_data.file_id,
            link_id: new_data.link_id,
            assignment_id: new_data.assignment_id,
            announcement_id: new_data.announcement_id,
            submission_id: new_data.submission_id,
            uploader: new_data.uploader,
            created_at: now,
        };
        let copy = row.clone();
        match conn.attachments.insert(row) {
            Ok(_) => Ok(copy),
            Err(e) => Err(e),
        }
    }

    /// Stores the attachment `new_data` under a random id as created at
    /// the time of the wall clock.
    pub fn create(new_data: FillableAttachment, conn: &mut DbConn) -> (r: Result<Attachment, QueryError>)
        ensures
            match r {
                Ok(row) => {
                    &&& row == Attachment::of(new_data, row.attachment_id, row.created_at)
                    &&& row.created_at.wf()
                    &&& exists|n: nat| n <= i32::MAX && #[trigger] decimal(n) == row.attachment_id@
                    &&& free_for(old(conn).attachments@, row)
                    &&& final(conn).attachments@ == old(conn).attachments@.push(row)
                },
                Err(e) => e == QueryError::UniqueViolation && final(conn).attachments@ == old(conn).attachments@,
            },
            *final(conn) == (DbConn { attachments: final(conn).attachments, ..*old(conn) }),
    {
        let n = generate_random_id();
        let id = to_decimal(n as u32);
        assert(decimal(n as nat) == id@);
        let now = local_now();
        Attachment::create_with(new_data, id, now, conn)
    }

    /// The attachment with the id `id`.
    pub fn find(id: &String, conn: &DbConn) -> (r: ThearningResult<Attachment>)
        ensures
            r == match first(conn.attachments@, ByAttachmentId(id)) {
                Some(found) => Ok::<Attachment, ErrorKind>(found),
                None => Err::<Attachment, ErrorKind>(ErrorKind::QueryError(QueryError::NotFound)),
            },
    {
        match conn.attachments.find(&ByAttachmentId(id)) {
            Some(found) => Ok(found),
            None => Err(ErrorKind::QueryError(QueryError::NotFound)),
        }
    }

    /// The attachments of the assignment `assignment_id`.
    pub fn load_by_assignment_id(assignment_id: &String, conn: &DbConn) -> (r: ThearningResult<
        Vec<Attachment>,
    >)
        ensures
            r matches Ok(rows) && rows@ == all(conn.attachments@, AttachedToAssignment(assignment_id)),
    {
        Ok(conn.attachments.select(&AttachedToAssignment(assignment_id)))
    }

    /// The attachments of the announcement `announcement_id`.
    pub fn load_by_announcement_id(announcement_id: &String, conn: &DbConn) -> (r: ThearningResult<
        Vec<Attachment>,
    >)
        ensures
            r matches Ok(rows) && rows@ == all(
                conn.attachments@,
                AttachedToAnnouncement(announcement_id),
            ),
    {
        Ok(conn.attachments.select(&AttachedToAnnouncement(announcement_id)))
    }

    /// The attachments of the submission `submission_id`.
    pub fn load_by_submission_id(submission_id: &String, conn: &DbConn) -> (r: ThearningResult<
        Vec<Attachment>,
    >)
        ensures
            r matches Ok(rows) && rows@ == all(conn.attachments@, AttachedToSubmission(submission_id)),
    {
        Ok(conn.attachments.select(&AttachedToSubmission(submission_id)))
    }

    /// What deleting this attachment answers: `NotFound` where this
    /// attachment names a file that the store does not know, or the store
    /// has no attachment with this id; else the stored attachment, and the
    /// path of its file.
    pub open spec fn delete_result(&self, shelf: Shelf) -> ThearningResult<Deleted> {
        match (self.missing_file(shelf), first(shelf.attachments, ByAttachmentId(&self.attachment_id))) {
            (false, Some(attachment)) => Ok(
                Deleted {
                    attachment,
                    file_path: match self.file_id {
                        Some(id) => Some(first(shelf.files, ByFileId(&id))->Some_0.file_path),
                        None => None,
                    },
                },
            ),
            _ => Err(ErrorKind::QueryError(QueryError::NotFound)),
        }
    }

    /// This attachment names a file that the store does not know.
    pub open spec fn missing_file(&self, shelf: Shelf) -> bool {
        self.file_id matches Some(id) && first(shelf.files, ByFileId(&id)) is None
    }

    /// The attachments, files and links after this attachment is deleted:
    /// where the deletion succeeds, without the stored attachment, without
    /// the file and without the link that this attachment names; where it
    /// fails, as before.
    pub open spec fn delete_from(&self, shelf: Shelf) -> Shelf {
        match (self.missing_file(shelf), first_index(shelf.attachments, ByAttachmentId(&self.attachment_id))) {
            (false, Some(i)) => Shelf {
                attachments: shelf.attachments.remove(i),
                files: match self.file_id {
                    Some(id) => match first_index(shelf.files, ByFileId(&id)) {
                        Some(j) => shelf.files.remove(j),
                        None => shelf.files,
                    },
                    None => shelf.files,
                },
                links: match self.link_id {
                    Some(id) => match first_index(shelf.links, ByLinkId(&id)) {
                        Some(k) => shelf.links.remove(k),
                        None => shelf.links,
                    },
                    None => shelf.links,
                },
            },
            _ => shelf,
        }
    }

    /// Deletes the attachment with this attachment's id, together with the
    /// file and the link that this attachment names, and says which file
    /// is to be removed from the disk. Where this attachment names a file
    /// that the store does not know, or the store has no attachment with
    /// this id, nothing is deleted and `NotFound` is answered.
    pub fn delete(&self, conn: &mut DbConn) -> (r: ThearningResult<Deleted>)
        ensures
            r == self.delete_result(shelf_of(*old(conn))),
            shelf_of(*final(conn)) == self.delete_from(shelf_of(*old(conn))),
            *final(conn) == (DbConn {
                attachments: final(conn).attachments,
                files: final(conn).files,
                links: final(conn).links,
                ..*old(conn)
            }),
    {
        let file = match &self.file_id {
            Some(id) => match conn.files.position(&ByFileId(id)) {
                Some(j) => Some(j),
                None => { return Err(ErrorKind::QueryError(QueryError::NotFound)); },
            },
            None => None,
        };
        let i = match conn.attachments.position(&ByAttachmentId(&self.attachment_id)) {
            Some(i) => i,
            None => { return Err(ErrorKind::QueryError(QueryError::NotFound)); },
        };
        let file_path = match file {
            Some(j) => Some(conn.files.remove(j).file_path),
            None => None,
        };
        match &self.link_id {
            Some(id) => match conn.links.position(&ByLinkId(id)) {
                Some(k) => {
                    conn.links.remove(k);
                },
                None => {},
            },
            None => {},
        }
        let attachment = conn.attachments.remove(i);
        Ok(Deleted { attachment, file_path })
    }
}

/// The attachments of the store with the files and the links that they
/// can name.
pub struct Shelf {
    pub attachments: Seq<Attachment>,
    pub files: Seq<UploadedFile>,
    pub links: Seq<Link>,
}

/// The attachments, files and links of a store.
pub open spec fn shelf_of(conn: DbConn) -> Shelf {
    Shelf { attachments: conn.attachments@, files: conn.files@, links: conn.links@ }
}

/// The paths of the files that are to be removed from the disk after
/// deleting the attachments `doomed`, one after the other, from `shelf`.
pub open spec fn paths_after(shelf: Shelf, doomed: Seq<Attachment>) -> Seq<String>
    decreases doomed.len(),
{
    if doomed.len() == 0 {
        Seq::empty()
    } else {
        let rest = paths_after(doomed[0].delete_from(shelf), doomed.drop_first());
        match doomed[0].delete_result(shelf) {
            Ok(Deleted { file_path: Some(path), .. }) => seq![path] + rest,
            _ => rest,
        }
    }
}

/// The attachments, files and links after deleting the attachments
/// `doomed`, one after the other, from `shelf`.
pub open spec fn shelf_after(shelf: Shelf, doomed: Seq<Attachment>) -> Shelf
    decreases doomed.len(),
{
    if doomed.len() == 0 {
        shelf
    } else {
        shelf_after(doomed[0].delete_from(shelf), doomed.drop_first())
    }
}

/// Deletes the attachments `doomed` one after the other; a deletion that
/// fails is passed over. Hands back the paths of the files that are to be
/// removed from the disk.
pub fn delete_all(doomed: &Vec<Attachment>, conn: &mut DbConn) -> (paths: Vec<String>)
    ensures
        paths@ == paths_after(shelf_of(*old(conn)), doomed@),
        shelf_of(*final(conn)) == shelf_after(shelf_of(*old(conn)), doomed@),
        *final(conn) == (DbConn {
            attachments: final(conn).attachments,
            files: final(conn).files,
            links: final(conn).links,
            ..*old(conn)
        }),
{
    let mut paths: Vec<String> = Vec::new();
    let mut i: usize = 0;
    proof {
        assert(doomed@.skip(0) =~= doomed@);
    }
    while i < doomed.len()
        invariant
            i <= doomed@.len(),
            paths_after(shelf_of(*old(conn)), doomed@) == paths@ + paths_after(
                shelf_of(*conn),
                doomed@.skip(i as int),
            ),
            shelf_after(shelf_of(*old(conn)), doomed@) == shelf_after(
                shelf_of(*conn),
                doomed@.skip(i as int),
            ),
            *conn == (DbConn {
                attachments: conn.attachments,
                files: conn.files,
                links: conn.links,
                ..*old(conn)
            }),
        decreases doomed@.len() - i,
    {
        let ghost before = shelf_of(*conn);
        let ghost done = paths@;
        proof {
            assert(doomed@.skip(i as int).drop_first() =~= doomed@.skip(i + 1));
            assert(doomed@.skip(i as int)[0] == doomed@[i as int]);
        }
        match doomed[i].delete(conn) {
            Ok(deleted) => match deleted.file_path {
                Some(path) => {
                    paths.push(path);
                    proof {
                        assert(paths@ + paths_after(shelf_of(*conn), doomed@.skip(i + 1)) =~= done + (
                        seq![path] + paths_after(shelf_of(*conn), doomed@.skip(i + 1))));
                    }
                },
                None => {},
            },
            Err(_) => {},
        }
        i += 1;
    }
    proof {
        assert(doomed@.skip(i as int) =~= Seq::<Attachment>::empty());
    }
    paths
}

} // verus!
