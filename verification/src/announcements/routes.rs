use vstd::prelude::*;
use vstd::string::StringExecFns;

use crate::announcements::models::{Announcement, ByAnnouncementId, FillableAnnouncement, ToClass};
use crate::assignments::routes::or_blank;
use crate::attachments::models::AttachedToAnnouncement;
use crate::auth::ClassGuard;
use crate::clock::DateTime;
use crate::comments::models::{Comment, OnAnnouncement};
use crate::db::{all, first, first_index, free_for, DbConn};
use crate::errors::Status;
use crate::users::models::{ByUserId, InClassAs, Role, User};
use crate::utils::{
    addresses, decimal, emails_of, generate_random_id, get_attachments, get_comments, notice,
    notice_html, orphaned, shown_attachments, shown_comments, to_decimal, AttachmentResponse, Mail,
    UserComment,
};

verus! {

/// The announcements to the classroom `class_id`.
pub fn get_announcements(key: &ClassGuard, class_id: &String, conn: &DbConn) -> (r: Vec<Announcement>)
    ensures
        r@ == all(conn.announcements@, ToClass(class_id)),
{
    conn.announcements.select(&ToClass(class_id))
}

/// What an announcement shows to the members of the classroom.
#[derive(Debug)]
pub struct AnnouncementView {
    pub announcement: Announcement,
    pub comments: Vec<UserComment<Comment>>,
    pub attachments: Vec<AttachmentResponse>,
}

/// Shows the announcement `announcement_id` with its comments and
/// attachments. `NotFound` where the announcement, or the author of one of
/// its comments, is not in the store.
pub fn get_announcement(key: &ClassGuard, class_id: &String, announcement_id: &String, conn: &DbConn) -> (r:
    Result<AnnouncementView, Status>)
    ensures
        r is Err <==> first(conn.announcements@, ByAnnouncementId(announcement_id)) is None
            || orphaned(all(conn.comments@, OnAnnouncement(announcement_id)), conn.users@),
        match r {
            Ok(view) => {
                &&& first(conn.announcements@, ByAnnouncementId(announcement_id)) == Some(
                    view.announcement,
                )
                &&& shown_comments(
                    view.comments@,
                    all(conn.comments@, OnAnnouncement(announcement_id)),
                    conn.users@,
                )
                &&& shown_attachments(
                    view.attachments@,
                    all(conn.attachments@, AttachedToAnnouncement(announcement_id)),
                    *conn,
                )
            },
            Err(s) => s == Status::NotFound,
        },
{
    let announcement = match Announcement::find_announcement(conn, announcement_id) {
        Ok(a) => a,
        Err(_) => { return Err(Status::NotFound); },
    };
    let comments = conn.comments.select(&OnAnnouncement(announcement_id));
    let comment_response = match get_comments(&comments, conn) {
        Some(res) => res,
        None => { return Err(Status::NotFound); },
    };
    let attachments = conn.attachments.select(&AttachedToAnnouncement(announcement_id));
    let attachment_response = get_attachments(&attachments, conn);
    Ok(
        AnnouncementView {
            announcement,
            comments: comment_response,
            attachments: attachment_response,
        },
    )
}

/// Stores an empty draft of an announcement under a random id, posted at
/// `now`, and answers with the id. An id that is taken leaves the store
/// as it is; the answer is the same.
pub fn draft_announcement(key: &ClassGuard, class_id: &String, now: DateTime, conn: &mut DbConn) -> (r:
    String)
    ensures
        exists|n: nat| n <= i32::MAX && #[trigger] decimal(n) == r@,
        final(conn).announcements@ == if free_for(
            old(conn).announcements@,
            Announcement::blank(r, now),
        ) {
            old(conn).announcements@.push(Announcement::blank(r, now))
        } else {
            old(conn).announcements@
        },
        *final(conn) == (DbConn { announcements: final(conn).announcements, ..*old(conn) }),
{
    let n = generate_random_id();
    let id = to_decimal(n as u32);
    assert(decimal(n as nat) == id@);
    let default = Announcement::default_with(id, now);
    let _ = default.draft(conn);
    default.announcement_id
}

/// What publishing an announcement answers: the announcement as it stands,
/// and the notice that is to be mailed to the students of the classroom.
#[derive(Debug)]
pub struct Announced {
    pub announcement: Announcement,
    pub mail: Mail,
}

/// Publishes the announcement `announcement.announcement_id` to the
/// classroom `class_id`, and writes the notice for its students.
/// `NotFound` where the caller or the announcement is not in the store.
pub fn update_announcement(
    key: &ClassGuard,
    class_id: &String,
    announcement: FillableAnnouncement,
    conn: &mut DbConn,
) -> (r: Result<Announced, Status>)
    ensures
        match (
            first(old(conn).users@, ByUserId(&key.0)),
            first_index(old(conn).announcements@, ByAnnouncementId(&announcement.announcement_id)),
        ) {
            (Some(user), Some(i)) => {
                let row = old(conn).announcements@[i].published(announcement);
                &&& r matches Ok(announced)
                &&& announced.announcement == row
                &&& final(conn).announcements@ == old(conn).announcements@.update(i, row)
                &&& announced.mail.recipients@ == addresses(
                    all(old(conn).memberships@, InClassAs(class_id, Role::Student)),
                    old(conn).users@,
                )
                &&& announced.mail.subject@ == "New Announcement"@
                &&& announced.mail.html@ == notice_html(
                    "Announcement"@,
                    user.fullname@,
                    or_blank(row.announcement_name),
                    or_blank(row.body),
                )
            },
            _ => r == Err::<Announced, Status>(Status::NotFound) && final(conn).announcements@ == old(conn).announcements@,
        },
        *final(conn) == (DbConn { announcements: final(conn).announcements, ..*old(conn) }),
{
    let data = announcement;
    let creator = match User::find_user(&key.0, conn) {
        Ok(user) => user,
        Err(_) => { return Err(Status::NotFound); },
    };
    let stored = match Announcement::find_announcement(conn, &data.announcement_id) {
        Ok(a) => a,
        Err(_) => { return Err(Status::NotFound); },
    };
    proof {
        let i = first_index(conn.announcements@, ByAnnouncementId(&data.announcement_id))->Some_0;
        crate::db::lemma_first(conn.announcements@, ByAnnouncementId(&data.announcement_id), i);
        crate::db::lemma_first(conn.announcements@, ByAnnouncementId(&stored.announcement_id), i);
    }
    let update = match stored.update(data, conn) {
        Ok(update) => update,
        Err(_) => { return Err(Status::NotFound); },
    };
    let name = match &update.announcement_name {
        Some(s) => s.clone(),
        None => String::from_str(" "),
    };
    let body = match &update.body {
        Some(s) => s.clone(),
        None => String::from_str(" "),
    };
    let html = notice("Announcement", &creator.fullname, &name, &body);
    let students = conn.memberships.select(&InClassAs(class_id, Role::Student));
    let emails = emails_of(&students, conn);
    let mail = Mail { recipients: emails, subject: String::from_str("New Announcement"), html };
    Ok(Announced { announcement: update, mail })
}

/// Deletes the announcement `announcement_id` and answers with its id.
/// `NotFound` where the store has no such announcement.
pub fn delete_announcement(key: &ClassGuard, class_id: &String, announcement_id: &String, conn: &mut DbConn) -> (r:
    Result<String, Status>)
    ensures
        match first_index(old(conn).announcements@, ByAnnouncementId(announcement_id)) {
            Some(i) => r == Ok::<String, Status>(*announcement_id) && final(conn).announcements@
                == old(conn).announcements@.remove(i),
            None => r == Err::<String, Status>(Status::NotFound) && final(conn).announcements@ == old(conn).announcements@,
        },
        *final(conn) == (DbConn { announcements: final(conn).announcements, ..*old(conn) }),
{
    match conn.announcements.position(&ByAnnouncementId(announcement_id)) {
        Some(i) => {
            conn.announcements.remove(i);
            Ok(announcement_id.clone())
        },
        None => Err(Status::NotFound),
    }
}

} // verus!
