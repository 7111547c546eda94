use vstd::prelude::*;

use crate::assignments::models::ByAssignmentId;
use crate::auth::ClassGuard;
use crate::clock::DateTime;
use crate::db::{first, first_index, DbConn};
use crate::errors::{ErrorKind, Status, ThearningResult};
use crate::submissions::models::{
    written, BySubmissionId, FillableMark, Mark, MarkOf, Submissions,
};
use crate::users::models::{ByUserId, User};
use crate::utils::{generate_key, is_key};

verus! {

/// What a request to hand in (`submitted` true) or to withdraw
/// (`submitted` false) the submission `submission_id` at `now` comes to for
/// the caller `caller`: `NotFound` where the caller or the submission is
/// not in the store; `Unauthorized` where the submission is not the
/// caller's; `BadRequest` where it is in the wanted state already;
/// `InternalServerError` where its assignment is gone; else the row as it
/// is then stored.
pub open spec fn toggle_outcome(
    conn: DbConn,
    caller: &String,
    submission_id: &String,
    submitted: bool,
    now: DateTime,
) -> Result<Submissions, Status> {
    match (first(conn.users@, ByUserId(caller)), first(conn.submissions@, BySubmissionId(submission_id))) {
        (Some(user), Some(row)) => if row.user_id@ != user.user_id@ {
            Err(Status::Unauthorized)
        } else if row.submitted == submitted {
            Err(Status::BadRequest)
        } else {
            match first(conn.assignments@, ByAssignmentId(&row.assignment_id)) {
                Some(a) => Ok(row.stamped(submitted, a, now)),
                None => Err(Status::InternalServerError),
            }
        },
        _ => Err(Status::NotFound),
    }
}

/// The answer of a hand-in or a withdrawal as the store's step sees it.
pub open spec fn as_step(outcome: Result<Submissions, Status>) -> ThearningResult<Submissions> {
    match outcome {
        Ok(row) => Ok(row),
        Err(_) => Err(ErrorKind::InvalidValue),
    }
}

fn toggle_submission(
    key: &ClassGuard,
    submission_id: &String,
    submitted: bool,
    now: DateTime,
    conn: &mut DbConn,
) -> (r: Result<Status, Status>)
    ensures
        r == match toggle_outcome(*old(conn), &key.0, submission_id, submitted, now) {
            Ok(_) => Ok::<Status, Status>(Status::Success),
            Err(s) => Err::<Status, Status>(s),
        },
        final(conn).submissions@ == written(
            old(conn).submissions@,
            as_step(toggle_outcome(*old(conn), &key.0, submission_id, submitted, now)),
        ),
        *final(conn) == (DbConn { submissions: final(conn).submissions, ..*old(conn) }),
{
    let user = match User::find_user(&key.0, conn) {
        Ok(user) => user,
        Err(_) => { return Err(Status::NotFound); },
    };
    let submission = match Submissions::find_submission(submission_id, conn) {
        Ok(sub) => sub,
        Err(_) => { return Err(Status::NotFound); },
    };
    if submission.user_id != user.user_id {
        return Err(Status::Unauthorized);
    }
    if submission.submitted == submitted {
        return Err(Status::BadRequest);
    }
    proof {
        let i = first_index(conn.submissions@, BySubmissionId(submission_id))->Some_0;
        crate::db::lemma_first(conn.submissions@, BySubmissionId(submission_id), i);
        crate::db::lemma_first(conn.submissions@, BySubmissionId(&submission.submission_id), i);
    }
    let step = if submitted {
        submission.submit_at(now, conn)
    } else {
        submission.unsubmit_at(now, conn)
    };
    match step {
        Ok(_) => Ok(Status::Success),
        Err(_) => Err(Status::InternalServerError),
    }
}

/// Hands in the caller's submission `submission_id` at `now`.
pub fn submit_submission(
    key: &ClassGuard,
    class_id: &String,
    submission_id: &String,
    now: DateTime,
    conn: &mut DbConn,
) -> (r: Result<Status, Status>)
    ensures
        r == match toggle_outcome(*old(conn), &key.0, submission_id, true, now) {
            Ok(_) => Ok::<Status, Status>(Status::Success),
            Err(s) => Err::<Status, Status>(s),
        },
        final(conn).submissions@ == written(
            old(conn).submissions@,
            as_step(toggle_outcome(*old(conn), &key.0, submission_id, true, now)),
        ),
        *final(conn) == (DbConn { submissions: final(conn).submissions, ..*old(conn) }),
{
    toggle_submission(key, submission_id, true, now, conn)
}

/// Withdraws the caller's submission `submission_id` at `now`.
pub fn unsubmit_submission(
    key: &ClassGuard,
    class_id: &String,
    submission_id: &String,
    now: DateTime,
    conn: &mut DbConn,
) -> (r: Result<Status, Status>)
    ensures
        r == match toggle_outcome(*old(conn), &key.0, submission_id, false, now) {
            Ok(_) => Ok::<Status, Status>(Status::Success),
            Err(s) => Err::<Status, Status>(s),
        },
        final(conn).submissions@ == written(
            old(conn).submissions@,
            as_step(toggle_outcome(*old(conn), &key.0, submission_id, false, now)),
        ),
        *final(conn) == (DbConn { submissions: final(conn).submissions, ..*old(conn) }),
{
    toggle_submission(key, submission_id, false, now, conn)
}

/// What a request of `caller` to grade the submission `submission_id`
/// comes to, where the mark gets the id `mark_id`: `NotFound` where the
/// caller or the submission is not in the store; `Forbidden` for a
/// caller who is neither teacher nor admin; `Conflict` where the submission has a grade, or the id of the
/// mark is taken; else the mark, with the caller as its marker.
pub open spec fn grade_outcome(
    conn: DbConn,
    caller: &String,
    submission_id: &String,
    value: i32,
    mark_id: String,
    now: DateTime,
) -> Result<Mark, Status> {
    match first(conn.users@, ByUserId(caller)) {
        None => Err(Status::NotFound),
        Some(user) => if !user.staff() {
            Err(Status::Forbidden)
        } else {
            match Submissions::grade_result(conn, submission_id, &user.user_id, value, mark_id, now) {
                Ok(mark) => Ok(mark),
                Err(e) => Err(e.spec_status()),
            }
        },
    }
}

/// The answer of a grading as the store's step sees it.
pub open spec fn as_grading(outcome: Result<Mark, Status>) -> ThearningResult<Mark> {
    match outcome {
        Ok(mark) => Ok(mark),
        Err(_) => Err(ErrorKind::InvalidValue),
    }
}

/// Grades the submission `submission_id` with `mark.value` on behalf of
/// the caller, at `now`, recording the mark under the id `mark_id`. Only
/// the value of `mark` is used: the marker is the caller and the student
/// is that of the submission.
pub fn mark_submission_with(
    key: &ClassGuard,
    class_id: &String,
    mark: FillableMark,
    submission_id: &String,
    mark_id: String,
    now: DateTime,
    conn: &mut DbConn,
) -> (r: Result<Mark, Status>)
    ensures
        r == grade_outcome(*old(conn), &key.0, submission_id, mark.value, mark_id, now),
        final(conn).marks@ == match r {
            Ok(mark) => old(conn).marks@.push(mark),
            Err(_) => old(conn).marks@,
        },
        final(conn).submissions@ == Submissions::graded_rows(
            old(conn).submissions@,
            submission_id,
            as_grading(r),
        ),
        *final(conn) == (DbConn {
            marks: final(conn).marks,
            submissions: final(conn).submissions,
            ..*old(conn)
        }),
{
    let user = match User::find_user(&key.0, conn) {
        Ok(user) => user,
        Err(_) => { return Err(Status::NotFound); },
    };
    if !user.is_staff() {
        return Err(Status::Forbidden);
    }
    match Submissions::grade_with(submission_id, &user.user_id, mark.value, mark_id, now, conn) {
        Ok(mark) => Ok(mark),
        Err(e) => Err(e.status()),
    }
}

/// Grades the submission `submission_id` with `mark.value` on behalf of
/// the caller, at `now`, recording the mark under a random id.
pub fn mark_submission(
    key: &ClassGuard,
    class_id: &String,
    mark: FillableMark,
    submission_id: &String,
    now: DateTime,
    conn: &mut DbConn,
) -> (r: Result<Mark, Status>)
    ensures
        exists|mark_id: String|
            is_key(mark_id@) && r == #[trigger] grade_outcome(
                *old(conn),
                &key.0,
                submission_id,
                mark.value,
                mark_id,
                now,
            ),
        final(conn).marks@ == match r {
            Ok(mark) => old(conn).marks@.push(mark),
            Err(_) => old(conn).marks@,
        },
        final(conn).submissions@ == Submissions::graded_rows(
            old(conn).submissions@,
            submission_id,
            as_grading(r),
        ),
        *final(conn) == (DbConn {
            marks: final(conn).marks,
            submissions: final(conn).submissions,
            ..*old(conn)
        }),
{
    let mark_id = generate_key();
    mark_submission_with(key, class_id, mark, submission_id, mark_id, now, conn)
}

/// Overwrites the grade of the submission `submission_id` with
/// `mark.value` on behalf of the caller, whether it has a grade or not:
/// the submission then carries the value, and so does the first mark
/// recorded for it, if there is one, with the caller as its marker.
/// `NotFound` where the caller or the submission is not in the store;
/// `Forbidden` for a caller who is neither teacher nor admin.
pub fn update_mark(
    key: &ClassGuard,
    class_id: &String,
    mark: FillableMark,
    submission_id: &String,
    conn: &mut DbConn,
) -> (r: Result<Status, Status>)
    ensures
        match first(old(conn).users@, ByUserId(&key.0)) {
            None => r == Err::<Status, Status>(Status::NotFound) && final(conn).submissions@ == old(conn).submissions@,
            Some(user) => if !user.staff() {
                r == Err::<Status, Status>(Status::Forbidden) && final(conn).submissions@ == old(conn).submissions@
            } else {
                match first_index(old(conn).submissions@, BySubmissionId(submission_id)) {
                    Some(i) => {
                        &&& r == Ok::<Status, Status>(Status::Success)
                        &&& final(conn).submissions@ == old(conn).submissions@.update(
                            i,
                            old(conn).submissions@[i].marked(mark.value),
                        )
                    },
                    None => r == Err::<Status, Status>(Status::NotFound) && final(conn).submissions@
                        == old(conn).submissions@,
                }
            },
        },
        final(conn).marks@ == match (
            r,
            first(old(conn).users@, ByUserId(&key.0)),
            first_index(old(conn).marks@, MarkOf(submission_id)),
        ) {
            (Ok(_), Some(user), Some(j)) => old(conn).marks@.update(
                j,
                Mark { marker_id: Some(user.user_id), value: mark.value, ..old(conn).marks@[j] },
            ),
            _ => old(conn).marks@,
        },
        *final(conn) == (DbConn {
            marks: final(conn).marks,
            submissions: final(conn).submissions,
            ..*old(conn)
        }),
{
    let user = match User::find_user(&key.0, conn) {
        Ok(user) => user,
        Err(_) => { return Err(Status::NotFound); },
    };
    if !user.is_staff() {
        return Err(Status::Forbidden);
    }
    proof {
        match first_index(conn.submissions@, BySubmissionId(submission_id)) {
            Some(i) => {
                crate::db::lemma_first(conn.submissions@, BySubmissionId(submission_id), i);
                crate::db::lemma_first(
                    conn.submissions@,
                    BySubmissionId(&conn.submissions@[i].submission_id),
                    i,
                );
            },
            None => {},
        }
    }
    match Submissions::update_grade(submission_id, &user.user_id, mark.value, conn) {
        Ok(_) => Ok(Status::Success),
        Err(_) => Err(Status::NotFound),
    }
}

} // verus!
