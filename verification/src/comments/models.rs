use vstd::prelude::*;

use crate::clock::{local_now, DateTime};
use crate::db::{all, first, first_index, free_for, DbConn, Filter, Key, QueryError, Row};
use crate::errors::{ErrorKind, ThearningResult};
use crate::text;
use crate::utils::{generate_key, is_key};

verus! {

/// A comment on an assignment or an announcement, for the whole class to read.
#[derive(Debug)]
pub struct Comment {
    pub id: String,
    pub user_id: String,
    pub assignment_id: Option<String>,
    pub announcement_id: Option<String>,
    pub body: String,
    pub created_at: DateTime,
}

/// A comment on a submission, between the student and the teachers.
#[derive(Debug)]
pub struct PrivateComment {
    pub id: String,
    pub user_id: String,
    pub submission_id: Option<String>,
    pub body: String,
    pub created_at: DateTime,
}

/// What a request for a new comment carries.
#[derive(Debug)]
pub struct FillableComment {
    pub user_id: Option<String>,
    pub assignment_id: Option<String>,
    pub announcement_id: Option<String>,
    pub body: String,
}

/// What a request for a new private comment carries.
#[derive(Debug)]
pub struct FillablePrivateComment {
    pub user_id: Option<String>,
    pub submission_id: Option<String>,
    pub body: String,
}

impl Clone for Comment {
    fn clone(&self) -> (r: Self)
        ensures
            r == *self,
    {
        Comment {
            id: self.id.clone(),
            user_id: self.user_id.clone(),
            assignment_id: text::copy_of(&self.assignment_id),
            announcement_id: text::copy_of(&self.announcement_id),
            body: self.body.clone(),
            created_at: self.created_at,
        }
    }
}

impl Clone for PrivateComment {
    fn clone(&self) -> (r: Self)
        ensures
            r == *self,
    {
        PrivateComment {
            id: self.id.clone(),
            user_id: self.user_id.clone(),
            submission_id: text::copy_of(&self.submission_id),
            body: self.body.clone(),
            created_at: self.created_at,
        }
    }
}

impl Row for Comment {
    open spec fn key(&self) -> Key {
        Key::Text(self.id@)
    }

    open spec fn unique(&self) -> Option<Seq<Seq<char>>> {
        None
    }

    fn same_key(&self, other: &Self) -> (b: bool) {
        self.id == other.id
    }

    fn same_unique(&self, other: &Self) -> (b: bool) {
        false
    }

    fn duplicate(&self) -> (r: Self) {
        self.clone()
    }
}

impl Row for PrivateComment {
    open spec fn key(&self) -> Key {
        Key::Text(self.id@)
    }

    open spec fn unique(&self) -> Option<Seq<Seq<char>>> {
        None
    }

    fn same_key(&self, other: &Self) -> (b: bool) {
        self.id == other.id
    }

    fn same_unique(&self, other: &Self) -> (b: bool) {
        false
    }

    fn duplicate(&self) -> (r: Self) {
        self.clone()
    }
}

/// The comment with a given id.
pub struct ByCommentId<'a>(pub &'a String);

impl<'a> Filter<Comment> for ByCommentId<'a> {
    open spec fn accepts(&self, row: &Comment) -> bool {
        row.id@ == self.0@
    }

    fn test(&self, row: &Comment) -> (b: bool) {
        row.id == *self.0
    }
}

impl<'a> Filter<PrivateComment> for ByCommentId<'a> {
    open spec fn accepts(&self, row: &PrivateComment) -> bool {
        row.id@ == self.0@
    }

    fn test(&self, row: &PrivateComment) -> (b: bool) {
        row.id == *self.0
    }
}

/// The comments on one assignment.
pub struct OnAssignment<'a>(pub &'a String);

impl<'a> Filter<Comment> for OnAssignment<'a> {
    open spec fn accepts(&self, row: &Comment) -> bool {
        row.assignment_id matches Some(id) && id@ == self.0@
    }

    fn test(&self, row: &Comment) -> (b: bool) {
        text::both_are(&row.assignment_id, self.0)
    }
}

/// The comments on one announcement.
pub struct OnAnnouncement<'a>(pub &'a String);

impl<'a> Filter<Comment> for OnAnnouncement<'a> {
    open spec fn accepts(&self, row: &Comment) -> bool {
        row.announcement_id matches Some(id) && id@ == self.0@
    }

    fn test(&self, row: &Comment) -> (b: bool) {
        text::both_are(&row.announcement_id, self.0)
    }
}

/// The private comments on one submission.
pub struct OnSubmission<'a>(pub &'a String);

impl<'a> Filter<PrivateComment> for OnSubmission<'a> {
    open spec fn accepts(&self, row: &PrivateComment) -> bool {
        row.submission_id matches Some(id) && id@ == self.0@
    }

    fn test(&self, row: &PrivateComment) -> (b: bool) {
        text::both_are(&row.submission_id, self.0)
    }
}

/// Something that a user wrote.
pub trait Commenter {
    /// The id of the user who wrote it.
    spec fn author(&self) -> Seq<char>;

    fn get_user_id(&self) -> (r: &String)
        ensures
            r@ == self.author(),
    ;
}

impl Commenter for Comment {
    open spec fn author(&self) -> Seq<char> {
        self.user_id@
    }

    fn get_user_id(&self) -> (r: &String) {
        &self.user_id
    }
}

impl Commenter for PrivateComment {
    open spec fn author(&self) -> Seq<char> {
        self.user_id@
    }

    fn get_user_id(&self) -> (r: &String) {
        &self.user_id
    }
}

impl Comment {
    /// The comment with the id `id`.
    pub fn find_comment(id: &String, conn: &DbConn) -> (r: ThearningResult<Comment>)
        ensures
            r == match first(conn.comments@, ByCommentId(id)) {
                Some(found) => Ok::<Comment, ErrorKind>(found),
                None => Err::<Comment, ErrorKind>(ErrorKind::QueryError(QueryError::NotFound)),
            },
    {
        match conn.comments.find(&ByCommentId(id)) {
            Some(found) => Ok(found),
            None => Err(ErrorKind::QueryError(QueryError::NotFound)),
        }
    }

    /// The comments on the assignment `assignment_id`.
    pub fn load_by_assignment(assignment_id: &String, conn: &DbConn) -> (r: ThearningResult<
        Vec<Comment>,
    >)
        ensures
            r matches Ok(rows) && rows@ == all(conn.comments@, OnAssignment(assignment_id)),
    {
        Ok(conn.comments.select(&OnAssignment(assignment_id)))
    }

    /// The comments on the announcement `announcement_id`.
    pub fn load_by_announcement(announcement_id: &String, conn: &DbConn) -> (r: ThearningResult<
        Vec<Comment>,
    >)
        ensures
            r matches Ok(rows) && rows@ == all(conn.comments@, OnAnnouncement(announcement_id)),
    {
        Ok(conn.comments.select(&OnAnnouncement(announcement_id)))
    }

    /// What storing the comment `new_data` under the id `id` at `now`
    /// answers: `InvalidValue` where it names no author, `UniqueViolation`
    /// where the id is taken, else the comment.
    pub open spec fn create_result(conn: DbConn, new_data: FillableComment, id: String, now: DateTime) -> ThearningResult<
        Comment,
    > {
        match new_data.user_id {
            None => Err(ErrorKind::InvalidValue),
            Some(user_id) => {
                let row = Comment {
                    id,
                    user_id,
                    assignment_id: new_data.assignment_id,
                    announcement_id: new_data.announcement_id,
                    body: new_data.body,
                    created_at: now,
                };
                if free_for(conn.comments@, row) {
                    Ok(row)
                } else {
                    Err(ErrorKind::QueryError(QueryError::UniqueViolation))
                }
            },
        }
    }

    /// Stores the comment `new_data` under the id `id` as written at `now`.
    pub fn create_with(new_data: FillableComment, id: String, now: DateTime, conn: &mut DbConn) -> (r:
        ThearningResult<Comment>)
        ensures
            r == Comment::create_result(*old(conn), new_data, id, now),
            final(conn).comments@ == match r {
                Ok(row) => old(conn).comments@.push(row),
                Err(_) => old(conn).comments@,
            },
            *final(conn) == (DbConn { comments: final(conn).comments, ..*old(conn) }),
    {
        let user_id = match new_data.user_id {
            Some(user_id) => user_id,
            None => { return Err(ErrorKind::InvalidValue); },
        };
        let row = Comment {
            id,
            user_id,
            assignment_id: new_data.assignment_id,
            announcement_id: new_data.announcement_id,
            body: new_data.body,
            created_at: now,
        };
        let copy = row.clone();
        match conn.comments.insert(row) {
            Ok(_) => Ok(copy),
            Err(e) => Err(ErrorKind::QueryError(e)),
        }
    }

    /// Stores the comment `new_data` under a random id as written at the
    /// time of the wall clock.
    pub fn create(new_data: FillableComment, conn: &mut DbConn) -> (r: ThearningResult<Comment>)
        ensures
            exists|id: String, now: DateTime|
                is_key(id@) && now.wf() && r == #[trigger] Comment::create_result(
                    *old(conn),
                    new_data,
                    id,
                    now,
                ),
            final(conn).comments@ == match r {
                Ok(row) => old(conn).comments@.push(row),
                Err(_) => old(conn).comments@,
            },
            *final(conn) == (DbConn { comments: final(conn).comments, ..*old(conn) }),
    {
        let id = generate_key();
        let now = local_now();
        Comment::create_with(new_data, id, now, conn)
    }

    /// Takes the comment with this comment's id out of the store and hands
    /// the row back; `NotFound` where the store has none.
    pub fn delete(&self, conn: &mut DbConn) -> (r: ThearningResult<Comment>)
        ensures
            match first_index(old(conn).comments@, ByCommentId(&self.id)) {
                Some(i) => {
                    &&& r == Ok::<Comment, ErrorKind>(old(conn).comments@[i])
                    &&& final(conn).comments@ == old(conn).comments@.remove(i)
                },
                None => {
                    &&& r == Err::<Comment, ErrorKind>(ErrorKind::QueryError(QueryError::NotFound))
                    &&& final(conn).comments@ == old(conn).comments@
                },
            },
            *final(conn) == (DbConn { comments: final(conn).comments, ..*old(conn) }),
    {
        match conn.comments.position(&ByCommentId(&self.id)) {
            Some(i) => Ok(conn.comments.remove(i)),
            None => Err(ErrorKind::QueryError(QueryError::NotFound)),
        }
    }
}

impl PrivateComment {
    /// The private comment with the id `id`.
    pub fn find_comment(id: &String, conn: &DbConn) -> (r: ThearningResult<PrivateComment>)
        ensures
            r == match first(conn.private_comments@, ByCommentId(id)) {
                Some(found) => Ok::<PrivateComment, ErrorKind>(found),
                None => Err::<PrivateComment, ErrorKind>(ErrorKind::QueryError(QueryError::NotFound)),
            },
    {
        match conn.private_comments.find(&ByCommentId(id)) {
            Some(found) => Ok(found),
            None => Err(ErrorKind::QueryError(QueryError::NotFound)),
        }
    }

    /// The private comments on the submission `submission_id`.
    pub fn load_by_submission(submission_id: &String, conn: &DbConn) -> (r: ThearningResult<
        Vec<PrivateComment>,
    >)
        ensures
            r matches Ok(rows) && rows@ == all(conn.private_comments@, OnSubmission(submission_id)),
    {
        Ok(conn.private_comments.select(&OnSubmission(submission_id)))
    }

    /// What storing the private comment `new_data` under the id `id` at
    /// `now` answers: `InvalidValue` where it names no author,
    /// `UniqueViolation` where the id is taken, else the comment.
    pub open spec fn create_result(
        conn: DbConn,
        new_data: FillablePrivateComment,
        id: String,
        now: DateTime,
    ) -> ThearningResult<PrivateComment> {
        match new_data.user_id {
            None => Err(ErrorKind::InvalidValue),
            Some(user_id) => {
                let row = PrivateComment {
                    id,
                    user_id,
                    submission_id: new_data.submission_id,
                    body: new_data.body,
                    created_at: now,
                };
                if free_for(conn.private_comments@, row) {
                    Ok(row)
                } else {
                    Err(ErrorKind::QueryError(QueryError::UniqueViolation))
                }
            },
        }
    }

    /// Stores the private comment `new_data` under the id `id` as written
    /// at `now`.
    pub fn create_with(new_data: FillablePrivateComment, id: String, now: DateTime, conn: &mut DbConn) -> (r:
        ThearningResult<PrivateComment>)
        ensures
            r == PrivateComment::create_result(*old(conn), new_data, id, now),
            final(conn).private_comments@ == match r {
                Ok(row) => old(conn).private_comments@.push(row),
                Err(_) => old(conn).private_comments@,
            },
            *final(conn) == (DbConn { private_comments: final(conn).private_comments, ..*old(conn) }),
    {
        let user_id = match new_data.user_id {
            Some(user_id) => user_id,
            None => { return Err(ErrorKind::InvalidValue); },
        };
        let row = PrivateComment {
            id,
            user_id,
            submission_id: new_data.submission_id,
            body: new_data.body,
            created_at: now,
        };
        let copy = row.clone();
        match conn.private_comments.insert(row) {
            Ok(_) => Ok(copy),
            Err(e) => Err(ErrorKind::QueryError(e)),
        }
    }

    /// Stores the private comment `new_data` under a random id as written
    /// at the time of the wall clock.
    pub fn create(new_data: FillablePrivateComment, conn: &mut DbConn) -> (r: ThearningResult<
        PrivateComment,
    >)
        ensures
            exists|id: String, now: DateTime|
                is_key(id@) && now.wf() && r == #[trigger] PrivateComment::create_result(
                    *old(conn),
                    new_data,
                    id,
                    now,
                ),
            final(conn).private_comments@ == match r {
                Ok(row) => old(conn).private_comments@.push(row),
                Err(_) => old(conn).private_comments@,
            },
            *final(conn) == (DbConn { private_comments: final(conn).private_comments, ..*old(conn) }),
    {
        let id = generate_key();
        let now = local_now();
        PrivateComment::create_with(new_data, id, now, conn)
    }

    /// Takes the private comment with this comment's id out of the store
    /// and hands the row back; `NotFound` where the store has none.
    pub fn delete(&self, conn: &mut DbConn) -> (r: ThearningResult<PrivateComment>)
        ensures
            match first_index(old(conn).private_comments@, ByCommentId(&self.id)) {
                Some(i) => {
                    &&& r == Ok::<PrivateComment, ErrorKind>(old(conn).private_comments@[i])
                    &&& final(conn).private_comments@ == old(conn).private_comments@.remove(i)
                },
                None => {
                    &&& r == Err::<PrivateComment, ErrorKind>(
                        ErrorKind::QueryError(QueryError::NotFound),
                    )
                    &&& final(conn).private_comments@ == old(conn).private_comments@
                },
            },
            *final(conn) == (DbConn { private_comments: final(conn).private_comments, ..*old(conn) }),
    {
        match conn.private_comments.position(&ByCommentId(&self.id)) {
            Some(i) => Ok(conn.private_comments.remove(i)),
            None => Err(ErrorKind::QueryError(QueryError::NotFound)),
        }
    }
}

} // verus!
