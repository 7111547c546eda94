use vstd::prelude::*;

use crate::clock::{local_now, Date, DateTime};
use crate::db::{all, first, first_index, free_for, DbConn, Filter, Key, QueryError, Row};
use crate::errors::{ErrorKind, ThearningResult};
use crate::text;
use crate::utils::{decimal, generate_random_id, to_decimal};

verus! {

/// A notice to a classroom.
#[derive(Debug)]
pub struct Announcement {
    pub announcement_id: String,
    pub announcement_name: Option<String>,
    pub class_id: Option<String>,
    pub posted_date: Date,
    pub body: Option<String>,
    pub draft: bool,
    pub created_at: DateTime,
}

/// What a teacher fills in to publish an announcement.
#[derive(Debug)]
pub struct FillableAnnouncement {
    pub announcement_id: String,
    pub announcement_name: Option<String>,
    pub class_id: Option<String>,
    pub body: Option<String>,
}

impl Clone for Announcement {
    fn clone(&self) -> (r: Self)
        ensures
            r == *self,
    {
        Announcement {
            announcement_id: self.announcement_id.clone(),
            announcement_name: text::copy_of(&self.announcement_name),
            class_id: text::copy_of(&self.class_id),
            posted_date: self.posted_date,
            body: text::copy_of(&self.body),
            draft: self.draft,
            created_at: self.created_at,
        }
    }
}

impl Row for Announcement {
    open spec fn key(&self) -> Key {
        Key::Text(self.announcement_id@)
    }

    open spec fn unique(&self) -> Option<Seq<Seq<char>>> {
        None
    }

    fn same_key(&self, other: &Self) -> (b: bool) {
        self.announcement_id == other.announcement_id
    }

    fn same_unique(&self, other: &Self) -> (b: bool) {
        false
    }

    fn duplicate(&self) -> (r: Self) {
        self.clone()
    }
}

/// The announcement with a given id.
pub struct ByAnnouncementId<'a>(pub &'a String);

impl<'a> Filter<Announcement> for ByAnnouncementId<'a> {
    open spec fn accepts(&self, row: &Announcement) -> bool {
        row.announcement_id@ == self.0@
    }

    fn test(&self, row: &Announcement) -> (b: bool) {
        row.announcement_id == *self.0
    }
}

/// The announcements to one classroom.
pub struct ToClass<'a>(pub &'a String);

impl<'a> Filter<Announcement> for ToClass<'a> {
    open spec fn accepts(&self, row: &Announcement) -> bool {
        row.class_id matches Some(id) && id@ == self.0@
    }

    fn test(&self, row: &Announcement) -> (b: bool) {
        text::both_are(&row.class_id, self.0)
    }
}

impl Announcement {
    /// The announcements to the classroom `class_id`.
    pub fn load_in_class(conn: &DbConn, class_id: &String) -> (r: ThearningResult<Vec<Announcement>>)
        ensures
            r matches Ok(rows) && rows@ == all(conn.announcements@, ToClass(class_id)),
    {
        Ok(conn.announcements.select(&ToClass(class_id)))
    }

    /// The announcement with the id `announcement_id`.
    pub fn find_announcement(conn: &DbConn, announcement_id: &String) -> (r: ThearningResult<
        Announcement,
    >)
        ensures
            r == match first(conn.announcements@, ByAnnouncementId(announcement_id)) {
                Some(found) => Ok::<Announcement, ErrorKind>(found),
                None => Err::<Announcement, ErrorKind>(ErrorKind::QueryError(QueryError::NotFound)),
            },
    {
        match conn.announcements.find(&ByAnnouncementId(announcement_id)) {
            Some(found) => Ok(found),
            None => Err(ErrorKind::QueryError(QueryError::NotFound)),
        }
    }

    /// Stores this announcement and hands the stored row back;
    /// `UniqueViolation` where its id is taken.
    pub fn draft(&self, conn: &mut DbConn) -> (r: ThearningResult<Announcement>)
        ensures
            if free_for(old(conn).announcements@, *self) {
                &&& r == Ok::<Announcement, ErrorKind>(*self)
                &&& final(conn).announcements@ == old(conn).announcements@.push(*self)
            } else {
                &&& r == Err::<Announcement, ErrorKind>(
                    ErrorKind::QueryError(QueryError::UniqueViolation),
                )
                &&& final(conn).announcements@ == old(conn).announcements@
            },
            *final(conn) == (DbConn { announcements: final(conn).announcements, ..*old(conn) }),
    {
        match conn.announcements.insert(self.clone()) {
            Ok(_) => Ok(self.clone()),
            Err(e) => Err(ErrorKind::QueryError(e)),
        }
    }

    /// An empty draft with the id `id`, posted at `now`.
    pub open spec fn blank(id: String, now: DateTime) -> Announcement {
        Announcement {
            announcement_id: id,
            announcement_name: None,
            class_id: None,
            posted_date: now.date,
            draft: true,
            body: None,
            created_at: now,
        }
    }

    /// An empty draft with the id `id`, posted at `now`.
    pub fn default_with(id: String, now: DateTime) -> (r: Announcement)
        ensures
            r == Announcement::blank(id, now),
    {
        Announcement {
            announcement_id: id,
            announcement_name: None,
            class_id: None,
            posted_date: now.date,
            draft: true,
            body: None,
            created_at: now,
        }
    }

    /// An empty draft with a random id, posted at the time of the wall clock.
    pub fn default() -> (r: Announcement)
        ensures
            exists|n: nat| n <= i32::MAX && #[trigger] decimal(n) == r.announcement_id@,
            r == Announcement::blank(r.announcement_id, r.created_at),
            r.created_at.wf(),
    {
        let n = generate_random_id();
        let id = to_decimal(n as u32);
        assert(decimal(n as nat) == id@);
        Announcement::default_with(id, local_now())
    }

    /// This announcement as publishing leaves it: name, classroom and text
    /// are taken from `update` and it is a draft no longer.
    pub open spec fn published(self, update: FillableAnnouncement) -> Announcement {
        Announcement {
            announcement_name: update.announcement_name,
            class_id: update.class_id,
            draft: false,
            body: update.body,
            ..self
        }
    }

    /// Publishes the stored announcement with this announcement's id:
    /// overwrites it by this announcement filled in from `update`.
    /// `NotFound` where the store has no such announcement.
    pub fn update(&self, update: FillableAnnouncement, conn: &mut DbConn) -> (r: ThearningResult<
        Announcement,
    >)
        ensures
            match first_index(old(conn).announcements@, ByAnnouncementId(&self.announcement_id)) {
                Some(i) => {
                    &&& r == Ok::<Announcement, ErrorKind>(self.published(update))
                    &&& final(conn).announcements@ == old(conn).announcements@.update(
                        i,
                        self.published(update),
                    )
                },
                None => {
                    &&& r == Err::<Announcement, ErrorKind>(
                        ErrorKind::QueryError(QueryError::NotFound),
                    )
                    &&& final(conn).announcements@ == old(conn).announcements@
                },
            },
            *final(conn) == (DbConn { announcements: final(conn).announcements, ..*old(conn) }),
    {
        match conn.announcements.position(&ByAnnouncementId(&self.announcement_id)) {
            Some(i) => {
                let current = self.clone();
                let row = Announcement {
                    announcement_name: update.announcement_name,
                    class_id: update.class_id,
                    draft: false,
                    body: update.body,
                    ..current
                };
                let copy = row.clone();
                conn.announcements.replace(i, row);
                Ok(copy)
            },
            None => Err(ErrorKind::QueryError(QueryError::NotFound)),
        }
    }

    /// Takes the announcement with this announcement's id out of the store
    /// and hands the row back; `NotFound` where the store has none.
    pub fn delete(&self, conn: &mut DbConn) -> (r: ThearningResult<Announcement>)
        ensures
            match first_index(old(conn).announcements@, ByAnnouncementId(&self.announcement_id)) {
                Some(i) => {
                    &&& r == Ok::<Announcement, ErrorKind>(old(conn).announcements@[i])
                    &&& final(conn).announcements@ == old(conn).announcements@.remove(i)
                },
                None => {
                    &&& r == Err::<Announcement, ErrorKind>(
                        ErrorKind::QueryError(QueryError::NotFound),
                    )
                    &&& final(conn).announcements@ == old(conn).announcements@
                },
            },
            *final(conn) == (DbConn { announcements: final(conn).announcements, ..*old(conn) }),
    {
        match conn.announcements.position(&ByAnnouncementId(&self.announcement_id)) {
            Some(i) => Ok(conn.announcements.remove(i)),
            None => Err(ErrorKind::QueryError(QueryError::NotFound)),
        }
    }
}

} // verus!
