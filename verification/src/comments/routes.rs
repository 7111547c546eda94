use vstd::prelude::*;

use crate::auth::ClassGuard;
use crate::clock::DateTime;
use crate::comments::models::{
    ByCommentId, Comment, FillableComment, FillablePrivateComment, PrivateComment,
};
use crate::db::{first, first_index, free_for, DbConn};
use crate::errors::Status;
use crate::users::models::{ByUserId, User};
use crate::utils::{generate_key, is_key};

verus! {

/// Posts the comment `data` on behalf of the caller at `now`, under a
/// random id. `NotFound` where the caller is not in the store;
/// `BadRequest` where the id drawn is taken.
pub fn post_comment(key: &ClassGuard, class_id: &String, data: FillableComment, now: DateTime, conn: &mut DbConn) -> (r:
    Result<Status, Status>)
    ensures
        match first(old(conn).users@, ByUserId(&key.0)) {
            None => r == Err::<Status, Status>(Status::NotFound),
            Some(user) => match r {
                Ok(s) => {
                    let row = final(conn).comments@.last();
                    &&& s == Status::Success
                    &&& final(conn).comments@ == old(conn).comments@.push(row)
                    &&& is_key(row.id@)
                    &&& free_for(old(conn).comments@, row)
                    &&& row == Comment {
                        id: row.id,
                        user_id: user.user_id,
                        assignment_id: data.assignment_id,
                        announcement_id: data.announcement_id,
                        body: data.body,
                        created_at: now,
                    }
                },
                Err(s) => s == Status::BadRequest,
            },
        },
        r is Err ==> final(conn).comments@ == old(conn).comments@,
        *final(conn) == (DbConn { comments: final(conn).comments, ..*old(conn) }),
{
    let user = match User::find_user(&key.0, conn) {
        Ok(u) => u,
        Err(_) => { return Err(Status::NotFound); },
    };
    let mut data = data;
    data.user_id = Some(user.user_id);
    match Comment::create_with(data, generate_key(), now, conn) {
        Ok(_) => Ok(Status::Success),
        Err(_) => Err(Status::BadRequest),
    }
}

/// Posts the private comment `data` on behalf of the caller at `now`,
/// under a random id. `NotFound` where the caller is not in the store;
/// `BadRequest` where the id drawn is taken.
pub fn post_private_comment(
    key: &ClassGuard,
    class_id: &String,
    data: FillablePrivateComment,
    now: DateTime,
    conn: &mut DbConn,
) -> (r: Result<Status, Status>)
    ensures
        match first(old(conn).users@, ByUserId(&key.0)) {
            None => r == Err::<Status, Status>(Status::NotFound),
            Some(user) => match r {
                Ok(s) => {
                    let row = final(conn).private_comments@.last();
                    &&& s == Status::Success
                    &&& final(conn).private_comments@ == old(conn).private_comments@.push(row)
                    &&& is_key(row.id@)
                    &&& free_for(old(conn).private_comments@, row)
                    &&& row == PrivateComment {
                        id: row.id,
                        user_id: user.user_id,
                        submission_id: data.submission_id,
                        body: data.body,
                        created_at: now,
                    }
                },
                Err(s) => s == Status::BadRequest,
            },
        },
        r is Err ==> final(conn).private_comments@ == old(conn).private_comments@,
        *final(conn) == (DbConn { private_comments: final(conn).private_comments, ..*old(conn) }),
{
    let user = match User::find_user(&key.0, conn) {
        Ok(u) => u,
        Err(_) => { return Err(Status::NotFound); },
    };
    let mut data = data;
    data.user_id = Some(user.user_id);
    match PrivateComment::create_with(data, generate_key(), now, conn) {
        Ok(_) => Ok(Status::Success),
        Err(_) => Err(Status::BadRequest),
    }
}

/// Deletes the comment `data` on behalf of its author. `NotFound` where
/// the store has no such comment; `Unauthorized` where the caller did not
/// write it.
pub fn delete_comment(key: &ClassGuard, class_id: &String, data: String, conn: &mut DbConn) -> (r: Result<
    Status,
    Status,
>)
    ensures
        match first_index(old(conn).comments@, ByCommentId(&data)) {
            None => r == Err::<Status, Status>(Status::NotFound) && final(conn).comments@ == old(conn).comments@,
            Some(i) => if old(conn).comments@[i].user_id@ != key.0@ {
                r == Err::<Status, Status>(Status::Unauthorized) && final(conn).comments@ == old(conn).comments@
            } else {
                r == Ok::<Status, Status>(Status::Success) && final(conn).comments@ == old(conn).comments@.remove(i)
            },
        },
        *final(conn) == (DbConn { comments: final(conn).comments, ..*old(conn) }),
{
    let i = match conn.comments.position(&ByCommentId(&data)) {
        Some(i) => i,
        None => { return Err(Status::NotFound); },
    };
    if conn.comments.get(i).user_id != key.0 {
        return Err(Status::Unauthorized);
    }
    conn.comments.remove(i);
    Ok(Status::Success)
}

/// Deletes the private comment `data` on behalf of its author. `NotFound`
/// where the store has no such comment; `Unauthorized` where the caller
/// did not write it.
pub fn delete_private_comment(key: &ClassGuard, class_id: &String, data: String, conn: &mut DbConn) -> (r:
    Result<Status, Status>)
    ensures
        match first_index(old(conn).private_comments@, ByCommentId(&data)) {
            None => r == Err::<Status, Status>(Status::NotFound) && final(conn).private_comments@
                == old(conn).private_comments@,
            Some(i) => if old(conn).private_comments@[i].user_id@ != key.0@ {
                r == Err::<Status, Status>(Status::Unauthorized) && final(conn).private_comments@
                    == old(conn).private_comments@
            } else {
                r == Ok::<Status, Status>(Status::Success) && final(conn).private_comments@ == old(conn).private_comments@.remove(i)
            },
        },
        *final(conn) == (DbConn { private_comments: final(conn).private_comments, ..*old(conn) }),
{
    let i = match conn.private_comments.position(&ByCommentId(&data)) {
        Some(i) => i,
        None => { return Err(Status::NotFound); },
    };
    if conn.private_comments.get(i).user_id != key.0 {
        return Err(Status::Unauthorized);
    }
    conn.private_comments.remove(i);
    Ok(Status::Success)
}

} // verus!
