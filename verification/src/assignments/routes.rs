use vstd::prelude::*;

use vstd::string::StringExecFns;

use crate::assignments::models::{Assignment, AssignmentData, ByAssignmentId, FillableAssignments};
use crate::attachments::models::{
    delete_all, paths_after, shelf_after, shelf_of, AttachedToAssignment, AttachedToSubmission,
    Attachment,
};
use crate::attachments::routes::Removal;
use crate::auth::ClassGuard;
use crate::clock::DateTime;
use crate::comments::models::{Comment, OnAssignment, OnSubmission, PrivateComment};
use crate::db::{all, first, first_index, free_for, DbConn, Filter};
use crate::errors::Status;
use crate::submissions::models::{
    fanned_out, fanned_with, seeded_for, seeded_for_student, student_of, swept_rows, ByPair,
    BySubmissionId, FillableSubmissions, OfAssignment, Submissions,
};
use crate::text;
use crate::users::models::{ByUserId, InClassAs, ResponseUser, Role, User};
use crate::utils::{
    addresses, decimal, emails_of, generate_key, generate_random_id, get_attachments, get_comments, is_key, notice,
    notice_html, orphaned, shown_attachments, shown_comments, to_decimal, AttachmentResponse, Mail,
    UserComment,
};

verus! {

/// Who may delete an assignment: an admin, any; a teacher, a draft or an
/// assignment that the teacher created; a student, or a user whose status
/// names no role, none.
pub open spec fn may_delete(user: User, assignment: Assignment) -> bool {
    match user.spec_role() {
        Some(Role::Admin) => true,
        Some(Role::Teacher) => assignment.draft || (assignment.creator matches Some(creator)
            && creator@ == user.user_id@),
        _ => false,
    }
}

/// Whether `user` may delete `assignment`.
pub fn can_delete(user: &User, assignment: &Assignment) -> (b: bool)
    ensures
        b == may_delete(*user, *assignment),
{
    match user.role() {
        Some(Role::Admin) => true,
        Some(Role::Teacher) => assignment.draft || text::both_are(&assignment.creator, &user.user_id),
        _ => false,
    }
}

/// Deletes the assignment `assignment_id` and, one after the other, its
/// attachments with their files and links. `NotFound` where the caller or
/// the assignment is not in the store, `Forbidden` where the caller may
/// not delete it; nothing changes then.
pub fn delete_assignment(key: &ClassGuard, class_id: &String, assignment_id: String, conn: &mut DbConn) -> (r:
    Result<Removal, Status>)
    ensures
        match (
            first(old(conn).users@, ByUserId(&key.0)),
            first_index(old(conn).assignments@, ByAssignmentId(&assignment_id)),
        ) {
            (Some(user), Some(i)) => if may_delete(user, old(conn).assignments@[i]) {
                let doomed = all(old(conn).attachments@, AttachedToAssignment(&assignment_id));
                &&& r matches Ok(removal)
                &&& removal.status == Status::Success
                &&& removal.file_paths@ == paths_after(shelf_of(*old(conn)), doomed)
                &&& final(conn).assignments@ == old(conn).assignments@.remove(i)
                &&& shelf_of(*final(conn)) == shelf_after(shelf_of(*old(conn)), doomed)
            } else {
                &&& r == Err::<Removal, Status>(Status::Forbidden)
                &&& final(conn).assignments@ == old(conn).assignments@
                &&& shelf_of(*final(conn)) == shelf_of(*old(conn))
            },
            _ => {
                &&& r == Err::<Removal, Status>(Status::NotFound)
                &&& final(conn).assignments@ == old(conn).assignments@
                &&& shelf_of(*final(conn)) == shelf_of(*old(conn))
            },
        },
        *final(conn) == (DbConn {
            assignments: final(conn).assignments,
            attachments: final(conn).attachments,
            files: final(conn).files,
            links: final(conn).links,
            ..*old(conn)
        }),
{
    let user = match User::find_user(&key.0, conn) {
        Ok(user) => user,
        Err(_) => { return Err(Status::NotFound); },
    };
    let i = match conn.assignments.position(&ByAssignmentId(&assignment_id)) {
        Some(i) => i,
        None => { return Err(Status::NotFound); },
    };
    if !can_delete(&user, conn.assignments.get(i)) {
        return Err(Status::Forbidden);
    }
    conn.assignments.remove(i);
    let doomed = conn.attachments.select(&AttachedToAssignment(&assignment_id));
    let file_paths = delete_all(&doomed, conn);
    Ok(Removal { status: Status::Success, file_paths })
}

/// Stores an empty draft of an assignment under the id `id`, posted at
/// `now`, and answers with the id. An id that is taken leaves the store
/// as it is; the answer is the same.
pub fn draft_with(key: &ClassGuard, class_id: &String, id: String, now: DateTime, conn: &mut DbConn) -> (r:
    Result<String, Status>)
    ensures
        r == Ok::<String, Status>(id),
        final(conn).assignments@ == if free_for(old(conn).assignments@, Assignment::blank(id, now)) {
            old(conn).assignments@.push(Assignment::blank(id, now))
        } else {
            old(conn).assignments@
        },
        *final(conn) == (DbConn { assignments: final(conn).assignments, ..*old(conn) }),
{
    let default = Assignment::default_with(id, now);
    let _ = default.draft(conn);
    Ok(default.assignment_id)
}

/// Stores an empty draft of an assignment under a random id, posted at
/// `now`, and answers with the id.
pub fn draft(key: &ClassGuard, class_id: &String, now: DateTime, conn: &mut DbConn) -> (r: Result<
    String,
    Status,
>)
    ensures
        r matches Ok(id) && (exists|n: nat| n <= i32::MAX && #[trigger] decimal(n) == id@)
            && final(conn).assignments@ == if free_for(
            old(conn).assignments@,
            Assignment::blank(id, now),
        ) {
            old(conn).assignments@.push(Assignment::blank(id, now))
        } else {
            old(conn).assignments@
        },
        *final(conn) == (DbConn { assignments: final(conn).assignments, ..*old(conn) }),
{
    let n = generate_random_id();
    let id = to_decimal(n as u32);
    assert(decimal(n as nat) == id@);
    draft_with(key, class_id, id, now, conn)
}

/// What publishing an assignment answers: the assignment as it stands,
/// and the notice that is to be mailed to the students of the classroom.
#[derive(Debug)]
pub struct Published {
    pub new_assignment: Assignment,
    pub mail: Mail,
}

/// The text of an optional text in a notice: a blank where there is none.
pub open spec fn or_blank(o: Option<String>) -> Seq<char> {
    match o {
        Some(s) => s@,
        None => " "@,
    }
}

fn text_or_blank(o: &Option<String>) -> (r: String)
    ensures
        r@ == or_blank(*o),
{
    match o {
        Some(s) => s.clone(),
        None => String::from_str(" "),
    }
}

/// What publishing comes to, where the submissions get the keys `ids`:
/// `r` is the answer and `after` the store that publishing the assignment
/// `data.id` to the classroom `class_id` at `now`, on behalf of `caller`,
/// makes of the store `before`. Where the caller or the assignment is not
/// stored, the answer is `NotFound` and nothing changes. Else the
/// submissions are those of the fan-out to the students of the classroom.
/// Where the fan-out went through, the assignment is filled in from the
/// request with the caller as creator, and the answer holds it together
/// with the notice for the students; where it stopped, the answer is
/// `InternalServerError` and the assignment stays as it was.
pub open spec fn publishes(
    before: DbConn,
    after: DbConn,
    r: Result<Published, Status>,
    caller: &String,
    class_id: &String,
    data: AssignmentData,
    ids: Seq<String>,
    now: DateTime,
) -> bool {
    match (
        first(before.users@, ByUserId(caller)),
        first_index(before.assignments@, ByAssignmentId(&data.id)),
    ) {
        (Some(user), Some(i)) => {
            let out = fanned_out(
                before.submissions@,
                before.memberships@,
                Some(before.assignments@[i]),
                data.id,
                class_id@,
                ids,
                now,
                before.memberships@.len(),
            );
            let students = all(before.memberships@, InClassAs(class_id, Role::Student));
            let row = before.assignments@[i].published(
                FillableAssignments { creator: Some(user.user_id), ..data.assignment },
            );
            &&& after.submissions@ == out.0
            &&& match out.1 {
                Ok(_) => {
                    &&& r matches Ok(published)
                    &&& published.new_assignment == row
                    &&& after.assignments@ == before.assignments@.update(i, row)
                    &&& published.mail.recipients@ == addresses(students, before.users@)
                    &&& published.mail.subject@ == "New Assignment"@
                    &&& published.mail.html@ == notice_html(
                        "Assignment"@,
                        user.fullname@,
                        or_blank(row.assignment_name),
                        or_blank(row.instructions),
                    )
                },
                Err(_) => r == Err::<Published, Status>(Status::InternalServerError)
                    && after.assignments@ == before.assignments@,
            }
        },
        _ => r == Err::<Published, Status>(Status::NotFound) && after.submissions@
            == before.submissions@ && after.assignments@ == before.assignments@,
    }
}

/// Publishes the assignment `data.id` to the classroom `class_id` at
/// `now`, giving the submission of each student the key that `ids` holds
/// at the place of the student's membership in its table: creates the
/// submissions, fills the assignment in from `data.assignment` with the
/// caller as creator, and writes the notice for the students. `NotFound`
/// where the caller or the assignment is not in the store, and nothing
/// changes then; `InternalServerError` where a submission cannot be
/// created, and the assignment then stays a draft.
pub fn update_assignment_with(
    key: &ClassGuard,
    class_id: &String,
    data: AssignmentData,
    ids: &Vec<String>,
    now: DateTime,
    conn: &mut DbConn,
) -> (r: Result<Published, Status>)
    ensures
        publishes(*old(conn), *final(conn), r, &key.0, class_id, data, ids@, now),
        first(old(conn).users@, ByUserId(&key.0)) is Some && first(
            old(conn).assignments@,
            ByAssignmentId(&data.id),
        ) is Some && all(old(conn).memberships@, InClassAs(class_id, Role::Student)).len() == 0
            ==> r is Ok && final(conn).submissions@ == old(conn).submissions@,
        ids@.len() >= old(conn).memberships@.len() && r is Ok ==> final(conn).submissions@.len()
            == old(conn).submissions@.len() + all(
            old(conn).memberships@,
            InClassAs(class_id, Role::Student),
        ).len(),
        final(conn).submissions@.len() >= old(conn).submissions@.len(),
        final(conn).submissions@.take(old(conn).submissions@.len() as int) == old(conn).submissions@,
        forall|j: int|
            old(conn).submissions@.len() <= j < final(conn).submissions@.len() ==> fanned_with(
                #[trigger] final(conn).submissions@[j],
                *old(conn),
                &data.id,
                class_id@,
                ids@,
                now,
            ),
        *final(conn) == (DbConn {
            assignments: final(conn).assignments,
            submissions: final(conn).submissions,
            ..*old(conn)
        }),
{
    proof {
        assert(conn.submissions@.take(conn.submissions@.len() as int) =~= conn.submissions@);
    }
    let creator = match User::find_user(&key.0, conn) {
        Ok(user) => user,
        Err(_) => { return Err(Status::NotFound); },
    };
    let assignment = match Assignment::get_by_id(&data.id, conn) {
        Ok(v) => v,
        Err(_) => { return Err(Status::NotFound); },
    };
    let students = conn.memberships.select(&InClassAs(class_id, Role::Student));
    match Submissions::seed_for_assignment_with(&data.id, class_id, ids, now, conn) {
        Ok(_) => {},
        Err(_) => { return Err(Status::InternalServerError); },
    }
    let mut assignment_data = data.assignment;
    assignment_data.creator = Some(creator.user_id.clone());
    proof {
        let i = first_index(conn.assignments@, ByAssignmentId(&data.id))->Some_0;
        crate::db::lemma_first(conn.assignments@, ByAssignmentId(&data.id), i);
        crate::db::lemma_first(conn.assignments@, ByAssignmentId(&assignment.assignment_id), i);
    }
    let new = match assignment.update(assignment_data, conn) {
        Ok(new) => new,
        Err(_) => { return Err(Status::InternalServerError); },
    };
    let emails = emails_of(&students, conn);
    let html = notice(
        "Assignment",
        &creator.fullname,
        &text_or_blank(&new.assignment_name),
        &text_or_blank(&new.instructions),
    );
    let mail = Mail { recipients: emails, subject: String::from_str("New Assignment"), html };
    Ok(Published { new_assignment: new, mail })
}

/// Publishes the assignment `data.id` to the classroom `class_id` at
/// `now`: creates a submission for every student of the classroom, each
/// under a random key, fills the assignment in from `data.assignment` with
/// the caller as creator, and writes the notice for the students.
/// `NotFound` where the caller or the assignment is not in the store, and
/// nothing changes then; `InternalServerError` where a submission cannot
/// be created, and the assignment then stays a draft. Publishing to a
/// classroom without students succeeds.
pub fn update_assignment(key: &ClassGuard, class_id: &String, data: AssignmentData, now: DateTime, conn: &mut DbConn) -> (r:
    Result<Published, Status>)
    ensures
        exists|ids: Seq<String>|
            {
                &&& ids.len() == old(conn).memberships@.len()
                &&& forall|k: int| 0 <= k < ids.len() ==> is_key((#[trigger] ids[k])@)
                &&& #[trigger] publishes(*old(conn), *final(conn), r, &key.0, class_id, data, ids, now)
            },
        first(old(conn).users@, ByUserId(&key.0)) is Some && first(
            old(conn).assignments@,
            ByAssignmentId(&data.id),
        ) is Some && all(old(conn).memberships@, InClassAs(class_id, Role::Student)).len() == 0
            ==> r is Ok && final(conn).submissions@ == old(conn).submissions@,
        first(old(conn).users@, ByUserId(&key.0)) is None || first(
            old(conn).assignments@,
            ByAssignmentId(&data.id),
        ) is None <==> r == Err::<Published, Status>(Status::NotFound),
        r is Ok ==> final(conn).submissions@.len() == old(conn).submissions@.len() + all(
            old(conn).memberships@,
            InClassAs(class_id, Role::Student),
        ).len(),
        final(conn).submissions@.len() >= old(conn).submissions@.len(),
        final(conn).submissions@.take(old(conn).submissions@.len() as int) == old(conn).submissions@,
        forall|j: int|
            old(conn).submissions@.len() <= j < final(conn).submissions@.len() ==> seeded_for_student(
                #[trigger] final(conn).submissions@[j],
                *old(conn),
                &data.id,
                class_id@,
                now,
            ),
        *final(conn) == (DbConn {
            assignments: final(conn).assignments,
            submissions: final(conn).submissions,
            ..*old(conn)
        }),
{
    let n = conn.memberships.len();
    let mut ids: Vec<String> = Vec::new();
    while ids.len() < n
        invariant
            ids@.len() <= n,
            forall|k: int| 0 <= k < ids@.len() ==> is_key((#[trigger] ids@[k])@),
        decreases n - ids@.len(),
    {
        ids.push(generate_key());
    }
    let ghost wanted = data;
    let r = update_assignment_with(key, class_id, data, &ids, now, conn);
    proof {
        assert(publishes(*old(conn), *conn, r, &key.0, class_id, wanted, ids@, now));
        assert forall|j: int|
            old(conn).submissions@.len() <= j < conn.submissions@.len() implies seeded_for_student(
            #[trigger] conn.submissions@[j],
            *old(conn),
            &wanted.id,
            class_id@,
            now,
        ) by {
            let row = conn.submissions@[j];
            assert(fanned_with(row, *old(conn), &wanted.id, class_id@, ids@, now));
            let a = first(old(conn).assignments@, ByAssignmentId(&wanted.id))->Some_0;
            let i = first_index(old(conn).assignments@, ByAssignmentId(&wanted.id))->Some_0;
            crate::db::lemma_first(old(conn).assignments@, ByAssignmentId(&wanted.id), i);
            let m = choose|m: int|
                0 <= m < old(conn).memberships@.len() && m < ids@.len() && student_of(
                    old(conn).memberships@[m],
                    class_id@,
                ) && row == #[trigger] Submissions::seeded(
                    FillableSubmissions {
                        assignment_id: wanted.id,
                        user_id: old(conn).memberships@[m].user_id,
                    },
                    ids@[m],
                    a,
                    now,
                );
            assert(is_key(ids@[m]@));
            assert(old(conn).memberships@[m].user_id == row.user_id);
            assert(seeded_for(row, a, now));
        }
    }
    r
}

/// What an assignment shows to a student of the classroom.
#[derive(Debug)]
pub struct StudentView {
    pub assignment_attachments: Vec<AttachmentResponse>,
    pub assignment: Assignment,
    pub submission: Submissions,
    pub submission_attachments: Vec<AttachmentResponse>,
    pub comments: Vec<UserComment<Comment>>,
    pub private_comments: Vec<UserComment<PrivateComment>>,
}

/// When the view of a student is owed: the caller is a student, the
/// assignment and the caller's submission for it are in the store, and so
/// are the authors of the comments on the two.
pub open spec fn shows_to_student(conn: DbConn, caller: &String, assignment_id: &String) -> bool {
    match (
        first(conn.users@, ByUserId(caller)),
        first(conn.assignments@, ByAssignmentId(assignment_id)),
    ) {
        (Some(user), Some(assignment)) => match first(
            conn.submissions@,
            ByPair { assignment_id, user_id: &user.user_id },
        ) {
            Some(submission) => user.status@ == "student"@ && !orphaned(
                all(conn.comments@, OnAssignment(&assignment.assignment_id)),
                conn.users@,
            ) && !orphaned(
                all(conn.private_comments@, OnSubmission(&submission.submission_id)),
                conn.users@,
            ),
            None => false,
        },
        _ => false,
    }
}

/// Shows the assignment `assignment_id` to the student who calls, with
/// the student's submission. `NotFound` where the caller, the assignment,
/// the caller's submission or the author of a comment is not in the
/// store; `Forbidden` for a caller who is no student.
pub fn students_assignment(key: &ClassGuard, class_id: &String, assignment_id: &String, conn: &DbConn) -> (r:
    Result<StudentView, Status>)
    ensures
        match first(conn.users@, ByUserId(&key.0)) {
            None => r == Err::<StudentView, Status>(Status::NotFound),
            Some(user) => if user.status@ != "student"@ {
                r == Err::<StudentView, Status>(Status::Forbidden)
            } else {
                match r {
                    Ok(view) => {
                        &&& first(conn.assignments@, ByAssignmentId(assignment_id)) == Some(
                            view.assignment,
                        )
                        &&& first(
                            conn.submissions@,
                            ByPair { assignment_id, user_id: &user.user_id },
                        ) == Some(view.submission)
                        &&& shown_comments(
                            view.comments@,
                            all(conn.comments@, OnAssignment(&view.assignment.assignment_id)),
                            conn.users@,
                        )
                        &&& shown_comments(
                            view.private_comments@,
                            all(
                                conn.private_comments@,
                                OnSubmission(&view.submission.submission_id),
                            ),
                            conn.users@,
                        )
                        &&& shown_attachments(
                            view.assignment_attachments@,
                            all(
                                conn.attachments@,
                                AttachedToAssignment(&view.assignment.assignment_id),
                            ),
                            *conn,
                        )
                        &&& shown_attachments(
                            view.submission_attachments@,
                            all(
                                conn.attachments@,
                                AttachedToSubmission(&view.submission.submission_id),
                            ),
                            *conn,
                        )
                    },
                    Err(s) => s == Status::NotFound,
                }
            },
        },
        first(conn.assignments@, ByAssignmentId(assignment_id)) is None ==> r is Err,
        r is Ok <==> shows_to_student(*conn, &key.0, assignment_id),
{
    let user = match User::find_user(&key.0, conn) {
        Ok(u) => u,
        Err(_) => { return Err(Status::NotFound); },
    };
    if !user.is_student() {
        return Err(Status::Forbidden);
    }
    let assignment = match Assignment::get_by_id(assignment_id, conn) {
        Ok(a) => a,
        Err(_) => { return Err(Status::NotFound); },
    };
    let comments = conn.comments.select(&OnAssignment(&assignment.assignment_id));
    let comment_response = match get_comments(&comments, conn) {
        Some(res) => res,
        None => { return Err(Status::NotFound); },
    };
    let assignment_attachments = conn.attachments.select(
        &AttachedToAssignment(&assignment.assignment_id),
    );
    let submission = match Submissions::get_by_id(assignment_id, &user.user_id, conn) {
        Ok(s) => s,
        Err(_) => { return Err(Status::NotFound); },
    };
    let private_comments = conn.private_comments.select(&OnSubmission(&submission.submission_id));
    let private_comment_response = match get_comments(&private_comments, conn) {
        Some(res) => res,
        None => { return Err(Status::NotFound); },
    };
    let submission_attachments = conn.attachments.select(
        &AttachedToSubmission(&submission.submission_id),
    );
    let assignment_resp = get_attachments(&assignment_attachments, conn);
    let submission_resp = get_attachments(&submission_attachments, conn);
    Ok(
        StudentView {
            assignment_attachments: assignment_resp,
            assignment,
            submission,
            submission_attachments: submission_resp,
            comments: comment_response,
            private_comments: private_comment_response,
        },
    )
}

/// A submission as a teacher sees it in the list: with the number of its
/// attachments and the student, where the store knows the student.
#[derive(Debug)]
pub struct SubmissionResponse {
    pub submission: Submissions,
    pub attachment_amount: usize,
    pub user: Option<ResponseUser>,
}

/// What an assignment shows to a teacher or an admin of the classroom.
#[derive(Debug)]
pub struct TeacherView {
    pub assignment_attachments: Vec<AttachmentResponse>,
    pub assignment: Assignment,
    pub submissions: Vec<SubmissionResponse>,
    pub comments: Vec<UserComment<Comment>>,
}

/// `shown` is `row` with the number of its attachments and its student.
pub open spec fn lists(shown: SubmissionResponse, row: Submissions, conn: DbConn) -> bool {
    &&& shown.submission == row
    &&& shown.attachment_amount == all(conn.attachments@, AttachedToSubmission(&row.submission_id)).len()
    &&& shown.user == match first(conn.users@, ByUserId(&row.user_id)) {
        Some(user) => Some(ResponseUser::of(user)),
        None => None,
    }
}

/// Shows the assignment `assignment_id` to a teacher or an admin at
/// `now`, with the submissions for it. On the way the sweep runs: every
/// submission for the assignment that is not handed in gets the
/// punctuality of `now`. `NotFound` where the caller or the assignment is
/// not in the store; `Forbidden` for a caller who is neither teacher
/// nor admin; nothing changes then. After the sweep the view is owed,
/// unless a comment on the assignment has an author who is not in the
/// store, which makes the answer `NotFound`.
pub fn teachers_assignment(key: &ClassGuard, class_id: &String, assignment_id: &String, now: DateTime, conn: &mut DbConn) -> (r:
    Result<TeacherView, Status>)
    ensures
        match (
            first(old(conn).users@, ByUserId(&key.0)),
            first(old(conn).assignments@, ByAssignmentId(assignment_id)),
        ) {
            (Some(user), Some(assignment)) if user.staff() => {
                &&& final(conn).submissions@ == swept_rows(old(conn).submissions@, assignment, now)
                &&& r is Err <==> orphaned(
                    all(old(conn).comments@, OnAssignment(&assignment.assignment_id)),
                    old(conn).users@,
                )
                &&& match r {
                    Ok(view) => {
                        let rows = all(
                            final(conn).submissions@,
                            OfAssignment(&assignment.assignment_id),
                        );
                        &&& view.assignment == assignment
                        &&& view.submissions@.len() == rows.len()
                        &&& forall|i: int|
                            0 <= i < rows.len() ==> lists(
                                #[trigger] view.submissions@[i],
                                rows[i],
                                *final(conn),
                            )
                        &&& shown_comments(
                            view.comments@,
                            all(old(conn).comments@, OnAssignment(&assignment.assignment_id)),
                            old(conn).users@,
                        )
                        &&& shown_attachments(
                            view.assignment_attachments@,
                            all(
                                old(conn).attachments@,
                                AttachedToAssignment(&assignment.assignment_id),
                            ),
                            *final(conn),
                        )
                    },
                    Err(s) => s == Status::NotFound,
                }
            },
            (Some(user), _) if !user.staff() => r == Err::<TeacherView, Status>(
                Status::Forbidden,
            ) && final(conn).submissions@ == old(conn).submissions@,
            _ => r == Err::<TeacherView, Status>(Status::NotFound) && final(conn).submissions@
                == old(conn).submissions@,
        },
        *final(conn) == (DbConn { submissions: final(conn).submissions, ..*old(conn) }),
{
    let user = match User::find_user(&key.0, conn) {
        Ok(u) => u,
        Err(_) => { return Err(Status::NotFound); },
    };
    if !user.is_staff() {
        return Err(Status::Forbidden);
    }
    let assignment = match Assignment::get_by_id(assignment_id, conn) {
        Ok(a) => a,
        Err(_) => { return Err(Status::NotFound); },
    };
    Submissions::recompute_on_time_sweep(&assignment, now, conn);
    let submission = conn.submissions.select(&OfAssignment(&assignment.assignment_id));
    let mut submissions: Vec<SubmissionResponse> = Vec::new();
    let mut i: usize = 0;
    while i < submission.len()
        invariant
            i <= submission@.len(),
            submissions@.len() == i,
            forall|k: int| 0 <= k < i ==> lists(#[trigger] submissions@[k], submission@[k], *conn),
        decreases submission@.len() - i,
    {
        let sm = &submission[i];
        let attachment = conn.attachments.select(&AttachedToSubmission(&sm.submission_id));
        let shown = SubmissionResponse {
            submission: sm.clone(),
            attachment_amount: attachment.len(),
            user: match conn.users.find(&ByUserId(&sm.user_id)) {
                Some(user) => Some(ResponseUser::from(user)),
                None => None,
            },
        };
        submissions.push(shown);
        i += 1;
    }
    let assignment_attachments = conn.attachments.select(
        &AttachedToAssignment(&assignment.assignment_id),
    );
    let assignment_resp = get_attachments(&assignment_attachments, conn);
    let comments = conn.comments.select(&OnAssignment(&assignment.assignment_id));
    let comment_response = match get_comments(&comments, conn) {
        Some(res) => res,
        None => { return Err(Status::NotFound); },
    };
    Ok(
        TeacherView {
            assignment_attachments: assignment_resp,
            assignment,
            submissions,
            comments: comment_response,
        },
    )
}

/// What a submission shows to a teacher or an admin of the classroom.
#[derive(Debug)]
pub struct SubmissionView {
    pub submission_attachments: Vec<AttachmentResponse>,
    pub submission: Submissions,
    pub student: User,
    pub private_comments: Vec<PrivateComment>,
}

/// Shows the submission `submission_id` to a teacher or an admin.
/// `NotFound` where the caller, the assignment, the submission or its
/// student is not in the store; `Forbidden` for a caller who is neither
/// teacher nor admin.
pub fn teachers_submission(
    key: &ClassGuard,
    class_id: &String,
    assignment_id: &String,
    submission_id: &String,
    conn: &DbConn,
) -> (r: Result<SubmissionView, Status>)
    ensures
        match first(conn.users@, ByUserId(&key.0)) {
            None => r == Err::<SubmissionView, Status>(Status::NotFound),
            Some(user) => if !user.staff() {
                r == Err::<SubmissionView, Status>(Status::Forbidden)
            } else {
                match (
                    first(conn.assignments@, ByAssignmentId(assignment_id)),
                    first(conn.submissions@, BySubmissionId(submission_id)),
                ) {
                    (Some(_), Some(submission)) => match first(
                        conn.users@,
                        ByUserId(&submission.user_id),
                    ) {
                        Some(student) => {
                            &&& r matches Ok(view)
                            &&& view.submission == submission
                            &&& view.student == student
                            &&& view.private_comments@ == all(
                                conn.private_comments@,
                                OnSubmission(&submission.submission_id),
                            )
                            &&& shown_attachments(
                                view.submission_attachments@,
                                all(
                                    conn.attachments@,
                                    AttachedToSubmission(&submission.submission_id),
                                ),
                                *conn,
                            )
                        },
                        None => r == Err::<SubmissionView, Status>(Status::NotFound),
                    },
                    _ => r == Err::<SubmissionView, Status>(Status::NotFound),
                }
            },
        },
{
    let user = match User::find_user(&key.0, conn) {
        Ok(u) => u,
        Err(_) => { return Err(Status::NotFound); },
    };
    if !user.is_staff() {
        return Err(Status::Forbidden);
    }
    match Assignment::get_by_id(assignment_id, conn) {
        Ok(_) => {},
        Err(_) => { return Err(Status::NotFound); },
    };
    let submission = match Submissions::find_submission(submission_id, conn) {
        Ok(s) => s,
        Err(_) => { return Err(Status::NotFound); },
    };
    let submission_attachments = conn.attachments.select(
        &AttachedToSubmission(&submission.submission_id),
    );
    let submission_resp = get_attachments(&submission_attachments, conn);
    let private_comments = conn.private_comments.select(&OnSubmission(&submission.submission_id));
    let student = match User::find_user(&submission.user_id, conn) {
        Ok(u) => u,
        Err(_) => { return Err(Status::NotFound); },
    };
    Ok(
        SubmissionView {
            submission_attachments: submission_resp,
            submission,
            student,
            private_comments,
        },
    )
}

/// The assignments that one user created; with a flag, only the drafts
/// or only the published ones.
pub struct CreatedBy<'a> {
    pub creator: &'a String,
    pub draft: Option<bool>,
}

impl<'a> Filter<Assignment> for CreatedBy<'a> {
    open spec fn accepts(&self, row: &Assignment) -> bool {
        &&& row.creator matches Some(creator)
        &&& creator@ == self.creator@
        &&& self.draft matches Some(flag) ==> row.draft == flag
    }

    fn test(&self, row: &Assignment) -> (b: bool) {
        text::both_are(&row.creator, self.creator) && match self.draft {
            Some(flag) => row.draft == flag,
            None => true,
        }
    }
}

/// The assignments that the teacher `teacher_id` created, for a teacher or
/// an admin to see; with `draft`, only the drafts or only the published
/// ones. `NotFound` where the caller is not in the store; `Forbidden` for
/// a caller who is neither teacher nor admin.
pub fn all_teachers_assigment(
    key: &ClassGuard,
    class_id: &String,
    teacher_id: &String,
    draft: Option<bool>,
    conn: &DbConn,
) -> (r: Result<Vec<Assignment>, Status>)
    ensures
        match first(conn.users@, ByUserId(&key.0)) {
            None => r == Err::<Vec<Assignment>, Status>(Status::NotFound),
            Some(user) => if !user.staff() {
                r == Err::<Vec<Assignment>, Status>(Status::Forbidden)
            } else {
                r matches Ok(rows) && rows@ == all(
                    conn.assignments@,
                    CreatedBy { creator: teacher_id, draft },
                )
            },
        },
{
    let user = match User::find_user(&key.0, conn) {
        Ok(u) => u,
        Err(_) => { return Err(Status::NotFound); },
    };
    if !user.is_staff() {
        return Err(Status::Forbidden);
    }
    Ok(conn.assignments.select(&CreatedBy { creator: teacher_id, draft }))
}

} // verus!
