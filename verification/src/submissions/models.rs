use vstd::prelude::*;

use crate::assignments::models::{Assignment, ByAssignmentId};
use crate::clock::{local_now, Date, DateTime, Time};
use crate::db::{all, first, first_index, free_for, DbConn, Filter, Key, QueryError, Row};
use crate::errors::{ErrorKind, StateError, ThearningResult};
use crate::text;
use crate::users::models::{InClassAs, Membership, Role};
use crate::utils::{generate_key, is_key};

verus! {

/// A student's work on one assignment.
#[derive(Debug)]
pub struct Submissions {
    pub submission_id: String,
    pub assignment_id: String,
    pub user_id: String,
    pub submitted_date: Option<Date>,
    pub submitted_time: Option<Time>,
    pub on_time: Option<bool>,
    pub marks_allotted: Option<i32>,
    pub submitted: bool,
    pub created_at: DateTime,
}

/// A grade given to a submission.
#[derive(Debug)]
pub struct Mark {
    pub id: String,
    pub submission_id: Option<String>,
    pub marker_id: Option<String>,
    pub student_id: Option<String>,
    pub value: i32,
    pub created_at: DateTime,
}

/// What a teacher sends to grade a submission.
#[derive(Debug)]
pub struct FillableMark {
    pub submission_id: Option<String>,
    pub marker_id: Option<String>,
    pub student_id: Option<String>,
    pub value: i32,
}

/// The assignment and the student that a new submission is for.
#[derive(Debug)]
pub struct FillableSubmissions {
    pub assignment_id: String,
    pub user_id: String,
}

impl Clone for Submissions {
    fn clone(&self) -> (r: Self)
        ensures
            r == *self,
    {
        Submissions {
            submission_id: self.submission_id.clone(),
            assignment_id: self.assignment_id.clone(),
            user_id: self.user_id.clone(),
            submitted_date: self.submitted_date,
            submitted_time: self.submitted_time,
            on_time: self.on_time,
            marks_allotted: self.marks_allotted,
            submitted: self.submitted,
            created_at: self.created_at,
        }
    }
}

impl Clone for Mark {
    fn clone(&self) -> (r: Self)
        ensures
            r == *self,
    {
        Mark {
            id: self.id.clone(),
            submission_id: text::copy_of(&self.submission_id),
            marker_id: text::copy_of(&self.marker_id),
            student_id: text::copy_of(&self.student_id),
            value: self.value,
            created_at: self.created_at,
        }
    }
}

impl Clone for FillableSubmissions {
    fn clone(&self) -> (r: Self)
        ensures
            r == *self,
    {
        FillableSubmissions {
            assignment_id: self.assignment_id.clone(),
            user_id: self.user_id.clone(),
        }
    }
}

impl Row for Submissions {
    open spec fn key(&self) -> Key {
        Key::Text(self.submission_id@)
    }

    /// A student has at most one submission for an assignment.
    open spec fn unique(&self) -> Option<Seq<Seq<char>>> {
        Some(seq![self.assignment_id@, self.user_id@])
    }

    fn same_key(&self, other: &Self) -> (b: bool) {
        self.submission_id == other.submission_id
    }

    fn same_unique(&self, other: &Self) -> (b: bool) {
        proof {
            let a = seq![self.assignment_id@, self.user_id@];
            let b = seq![other.assignment_id@, other.user_id@];
            assert(a[0] == self.assignment_id@ && a[1] == self.user_id@);
            assert(b[0] == other.assignment_id@ && b[1] == other.user_id@);
            if self.assignment_id@ == other.assignment_id@ && self.user_id@ == other.user_id@ {
                assert(a =~= b);
            }
        }
        self.assignment_id == other.assignment_id && self.user_id == other.user_id
    }

    fn duplicate(&self) -> (r: Self) {
        self.clone()
    }
}

impl Row for Mark {
    open spec fn key(&self) -> Key {
        Key::Text(self.id@)
    }

    open spec fn unique(&self) -> Option<Seq<Seq<char>>> {
        None
    }

    fn same_key(&self, other: &Self) -> (b: bool) {
        self.id == other.id
    }

    fn same_unique(&self, other: &Self) -> (b: bool) {
        false
    }

    fn duplicate(&self) -> (r: Self) {
        self.clone()
    }
}

/// The submission with a given id.
pub struct BySubmissionId<'a>(pub &'a String);

impl<'a> Filter<Submissions> for BySubmissionId<'a> {
    open spec fn accepts(&self, row: &Submissions) -> bool {
        row.submission_id@ == self.0@
    }

    fn test(&self, row: &Submissions) -> (b: bool) {
        row.submission_id == *self.0
    }
}

/// The submission of one student for one assignment.
pub struct ByPair<'a> {
    pub assignment_id: &'a String,
    pub user_id: &'a String,
}

impl<'a> Filter<Submissions> for ByPair<'a> {
    open spec fn accepts(&self, row: &Submissions) -> bool {
        row.user_id@ == self.user_id@ && row.assignment_id@ == self.assignment_id@
    }

    fn test(&self, row: &Submissions) -> (b: bool) {
        row.user_id == *self.user_id && row.assignment_id == *self.assignment_id
    }
}

/// The submissions for one assignment.
pub struct OfAssignment<'a>(pub &'a String);

impl<'a> Filter<Submissions> for OfAssignment<'a> {
    open spec fn accepts(&self, row: &Submissions) -> bool {
        row.assignment_id@ == self.0@
    }

    fn test(&self, row: &Submissions) -> (b: bool) {
        row.assignment_id == *self.0
    }
}

/// The submissions for one assignment that have not been handed in.
pub struct Unsubmitted<'a>(pub &'a String);

impl<'a> Filter<Submissions> for Unsubmitted<'a> {
    open spec fn accepts(&self, row: &Submissions) -> bool {
        row.assignment_id@ == self.0@ && !row.submitted
    }

    fn test(&self, row: &Submissions) -> (b: bool) {
        row.assignment_id == *self.0 && !row.submitted
    }
}

/// The mark with a given id.
pub struct ByMarkId<'a>(pub &'a String);

impl<'a> Filter<Mark> for ByMarkId<'a> {
    open spec fn accepts(&self, row: &Mark) -> bool {
        row.id@ == self.0@
    }

    fn test(&self, row: &Mark) -> (b: bool) {
        row.id == *self.0
    }
}

/// The marks given to one submission.
pub struct MarkOf<'a>(pub &'a String);

impl<'a> Filter<Mark> for MarkOf<'a> {
    open spec fn accepts(&self, row: &Mark) -> bool {
        row.submission_id matches Some(id) && id@ == self.0@
    }

    fn test(&self, row: &Mark) -> (b: bool) {
        text::both_are(&row.submission_id, self.0)
    }
}

/// The rows after a step that answered `r`: where it answered with a row,
/// that row stands in the place of the first row with its id; where it
/// failed, nothing has changed.
pub open spec fn written(rows: Seq<Submissions>, r: ThearningResult<Submissions>) -> Seq<
    Submissions,
> {
    match r {
        Ok(row) => match first_index(rows, BySubmissionId(&row.submission_id)) {
            Some(i) => rows.update(i, row),
            None => rows,
        },
        Err(_) => rows,
    }
}

/// The rows after a sweep for the assignment `a` at `now`: every row for
/// `a` that has not been handed in carries the punctuality of `now`, and
/// every other row is as before.
pub open spec fn swept_rows(rows: Seq<Submissions>, a: Assignment, now: DateTime) -> Seq<
    Submissions,
> {
    rows.map_values(
        |s: Submissions|
            if s.assignment_id@ == a.assignment_id@ && !s.submitted {
                s.swept(a, now)
            } else {
                s
            },
    )
}

impl Submissions {
    /// The submission as it is created for `new_data` under the id `id` at
    /// `now`: not handed in, not graded, and with the punctuality that a
    /// hand-in at `now` would have.
    pub open spec fn seeded(new_data: FillableSubmissions, id: String, a: Assignment, now: DateTime) -> Submissions {
        Submissions {
            submission_id: id,
            assignment_id: new_data.assignment_id,
            user_id: new_data.user_id,
            submitted_date: Some(now.date),
            submitted_time: Some(now.time),
            on_time: a.spec_on_time(now),
            marks_allotted: None,
            submitted: false,
            created_at: now,
        }
    }

    /// The submission after a hand-in (`submitted` true) or a withdrawal
    /// (`submitted` false) at `now`: the flag is set, the date and time are
    /// stamped, and the punctuality is that of `now`.
    pub open spec fn stamped(self, submitted: bool, a: Assignment, now: DateTime) -> Submissions {
        Submissions {
            submitted,
            submitted_date: Some(now.date),
            submitted_time: Some(now.time),
            on_time: a.spec_on_time(now),
            ..self
        }
    }

    /// The submission with its punctuality computed anew for `now`.
    pub open spec fn swept(self, a: Assignment, now: DateTime) -> Submissions {
        Submissions { on_time: a.spec_on_time(now), ..self }
    }

    /// The submission with the grade `value`.
    pub open spec fn marked(self, value: i32) -> Submissions {
        Submissions { marks_allotted: Some(value), ..self }
    }

    /// Handing in: allowed only while the work is not handed in.
    pub open spec fn spec_submit(self, a: Assignment, now: DateTime) -> Result<
        Submissions,
        StateError,
    > {
        if self.submitted {
            Err(StateError::AlreadySubmitted)
        } else {
            Ok(self.stamped(true, a, now))
        }
    }

    /// Withdrawing: allowed only while the work is handed in.
    pub open spec fn spec_unsubmit(self, a: Assignment, now: DateTime) -> Result<
        Submissions,
        StateError,
    > {
        if !self.submitted {
            Err(StateError::NotSubmitted)
        } else {
            Ok(self.stamped(false, a, now))
        }
    }

    /// Grading: allowed only while there is no grade.
    pub open spec fn spec_grade(self, value: i32) -> Result<Submissions, StateError> {
        if self.marks_allotted is Some {
            Err(StateError::AlreadyGraded)
        } else {
            Ok(self.marked(value))
        }
    }

    /// The step of the state machine that hands the work in at `now`.
    pub fn submitted_at(&self, a: &Assignment, now: DateTime) -> (r: Result<Submissions, StateError>)
        ensures
            r == self.spec_submit(*a, now),
    {
        if self.submitted {
            Err(StateError::AlreadySubmitted)
        } else {
            let current = self.clone();
            Ok(
                Submissions {
                    submitted: true,
                    submitted_date: Some(now.date),
                    submitted_time: Some(now.time),
                    on_time: a.on_time_at(now),
                    ..current
                },
            )
        }
    }

    /// The step of the state machine that withdraws the work at `now`.
    pub fn unsubmitted_at(&self, a: &Assignment, now: DateTime) -> (r: Result<
        Submissions,
        StateError,
    >)
        ensures
            r == self.spec_unsubmit(*a, now),
    {
        if !self.submitted {
            Err(StateError::NotSubmitted)
        } else {
            let current = self.clone();
            Ok(
                Submissions {
                    submitted: false,
                    submitted_date: Some(now.date),
                    submitted_time: Some(now.time),
                    on_time: a.on_time_at(now),
                    ..current
                },
            )
        }
    }

    /// The step of the state machine that gives the first grade.
    pub fn graded(&self, value: i32) -> (r: Result<Submissions, StateError>)
        ensures
            r == self.spec_grade(value),
    {
        if self.marks_allotted.is_some() {
            Err(StateError::AlreadyGraded)
        } else {
            let current = self.clone();
            Ok(Submissions { marks_allotted: Some(value), ..current })
        }
    }

    /// The step of the state machine that overwrites the grade, whether
    /// there was one or not.
    pub fn regraded(&self, value: i32) -> (r: Submissions)
        ensures
            r == self.marked(value),
    {
        let current = self.clone();
        Submissions { marks_allotted: Some(value), ..current }
    }

    /// The submission of the student `user_id` for the assignment `assignment_id`.
    pub fn get_by_id(assignment_id: &String, user_id: &String, conn: &DbConn) -> (r: ThearningResult<
        Submissions,
    >)
        ensures
            r == match first(conn.submissions@, ByPair { assignment_id, user_id }) {
                Some(found) => Ok::<Submissions, ErrorKind>(found),
                None => Err::<Submissions, ErrorKind>(ErrorKind::QueryError(QueryError::NotFound)),
            },
    {
        match conn.submissions.find(&ByPair { assignment_id, user_id }) {
            Some(found) => Ok(found),
            None => Err(ErrorKind::QueryError(QueryError::NotFound)),
        }
    }

    /// The submission with the id `submission_id`.
    pub fn find_submission(submission_id: &String, conn: &DbConn) -> (r: ThearningResult<Submissions>)
        ensures
            r == match first(conn.submissions@, BySubmissionId(submission_id)) {
                Some(found) => Ok::<Submissions, ErrorKind>(found),
                None => Err::<Submissions, ErrorKind>(ErrorKind::QueryError(QueryError::NotFound)),
            },
    {
        match conn.submissions.find(&BySubmissionId(submission_id)) {
            Some(found) => Ok(found),
            None => Err(ErrorKind::QueryError(QueryError::NotFound)),
        }
    }

    /// The submissions for `assignment_id` that have not been handed in.
    pub fn load_unsubmitted(assignment_id: &String, conn: &DbConn) -> (r: ThearningResult<
        Vec<Submissions>,
    >)
        ensures
            r matches Ok(rows) && rows@ == all(conn.submissions@, Unsubmitted(assignment_id)),
    {
        Ok(conn.submissions.select(&Unsubmitted(assignment_id)))
    }

    /// The first submission for `assignment_id`.
    pub fn get_by_assignment(assignment_id: &String, conn: &DbConn) -> (r: ThearningResult<
        Submissions,
    >)
        ensures
            r == match first(conn.submissions@, OfAssignment(assignment_id)) {
                Some(found) => Ok::<Submissions, ErrorKind>(found),
                None => Err::<Submissions, ErrorKind>(ErrorKind::QueryError(QueryError::NotFound)),
            },
    {
        match conn.submissions.find(&OfAssignment(assignment_id)) {
            Some(found) => Ok(found),
            None => Err(ErrorKind::QueryError(QueryError::NotFound)),
        }
    }

    /// The submissions for `assignment_id`.
    pub fn load_by_assignment(assignment_id: &String, conn: &DbConn) -> (r: ThearningResult<
        Vec<Submissions>,
    >)
        ensures
            r matches Ok(rows) && rows@ == all(conn.submissions@, OfAssignment(assignment_id)),
    {
        Ok(conn.submissions.select(&OfAssignment(assignment_id)))
    }

    /// What creating a submission for `new_data` under the id `id` at `now`
    /// answers: `NotFound` where the assignment is not in the store,
    /// `UniqueViolation` where the student has a submission for the
    /// assignment already (or the id is taken), else the seeded row.
    pub open spec fn create_result(
        conn: DbConn,
        new_data: FillableSubmissions,
        id: String,
        now: DateTime,
    ) -> ThearningResult<Submissions> {
        match first(conn.assignments@, ByAssignmentId(&new_data.assignment_id)) {
            None => Err(ErrorKind::QueryError(QueryError::NotFound)),
            Some(a) => {
                let row = Submissions::seeded(new_data, id, a, now);
                if free_for(conn.submissions@, row) {
                    Ok(row)
                } else {
                    Err(ErrorKind::QueryError(QueryError::UniqueViolation))
                }
            },
        }
    }

    /// Creates the submission of `new_data.user_id` for
    /// `new_data.assignment_id` under the id `id` at `now`.
    pub fn create_with(new_data: FillableSubmissions, id: String, now: DateTime, conn: &mut DbConn) -> (r:
        ThearningResult<Submissions>)
        ensures
            r == Submissions::create_result(*old(conn), new_data, id, now),
            final(conn).submissions@ == match r {
                Ok(row) => old(conn).submissions@.push(row),
                Err(_) => old(conn).submissions@,
            },
            *final(conn) == (DbConn { submissions: final(conn).submissions, ..*old(conn) }),
    {
        let assignment = match Assignment::get_by_id(&new_data.assignment_id, conn) {
            Ok(a) => a,
            Err(e) => { return Err(ErrorKind::QueryError(e)); },
        };
        let row = Submissions {
            submission_id: id,
            assignment_id: new_data.assignment_id,
            user_id: new_data.user_id,
            submitted_date: Some(now.date),
            submitted_time: Some(now.time),
            on_time: assignment.on_time_at(now),
            marks_allotted: None,
            submitted: false,
            created_at: now,
        };
        let copy = row.clone();
        match conn.submissions.insert(row) {
            Ok(_) => Ok(copy),
            Err(e) => Err(ErrorKind::QueryError(e)),
        }
    }

    /// Creates the submission of `new_data.user_id` for
    /// `new_data.assignment_id`, with a random id and the time of the wall
    /// clock.
    pub fn create(new_data: FillableSubmissions, conn: &mut DbConn) -> (r: ThearningResult<Submissions>)
        ensures
            exists|id: String, now: DateTime|
                is_key(id@) && now.wf() && r == #[trigger] Submissions::create_result(
                    *old(conn),
                    new_data,
                    id,
                    now,
                ),
            final(conn).submissions@ == match r {
                Ok(row) => old(conn).submissions@.push(row),
                Err(_) => old(conn).submissions@,
            },
            *final(conn) == (DbConn { submissions: final(conn).submissions, ..*old(conn) }),
    {
        let id = generate_key();
        let now = local_now();
        Submissions::create_with(new_data, id, now, conn)
    }

    /// What a hand-in (`submitted` true) or a withdrawal (`submitted`
    /// false) of the submission `id` at `now` answers: `NotFound` where the
    /// submission or its assignment is not in the store, the state error
    /// where the submission is in the wanted state already, else the
    /// stamped row.
    pub open spec fn toggle_result(conn: DbConn, id: &String, submitted: bool, now: DateTime) -> ThearningResult<
        Submissions,
    > {
        match first(conn.submissions@, BySubmissionId(id)) {
            None => Err(ErrorKind::QueryError(QueryError::NotFound)),
            Some(row) => if row.submitted == submitted {
                Err(
                    ErrorKind::StateError(
                        if submitted {
                            StateError::AlreadySubmitted
                        } else {
                            StateError::NotSubmitted
                        },
                    ),
                )
            } else {
                match first(conn.assignments@, ByAssignmentId(&row.assignment_id)) {
                    None => Err(ErrorKind::QueryError(QueryError::NotFound)),
                    Some(a) => Ok(row.stamped(submitted, a, now)),
                }
            },
        }
    }

    fn toggle(id: &String, submitted: bool, now: DateTime, conn: &mut DbConn) -> (r: ThearningResult<
        Submissions,
    >)
        ensures
            r == Submissions::toggle_result(*old(conn), id, submitted, now),
            final(conn).submissions@ == written(old(conn).submissions@, r),
            *final(conn) == (DbConn { submissions: final(conn).submissions, ..*old(conn) }),
    {
        let i = match conn.submissions.position(&BySubmissionId(id)) {
            Some(i) => i,
            None => { return Err(ErrorKind::QueryError(QueryError::NotFound)); },
        };
        let current = conn.submissions.get(i).clone();
        if current.submitted == submitted {
            let e = if submitted {
                StateError::AlreadySubmitted
            } else {
                StateError::NotSubmitted
            };
            return Err(ErrorKind::StateError(e));
        }
        let assignment = match Assignment::get_by_id(&current.assignment_id, conn) {
            Ok(a) => a,
            Err(e) => { return Err(ErrorKind::QueryError(e)); },
        };
        let step = if submitted {
            current.submitted_at(&assignment, now)
        } else {
            current.unsubmitted_at(&assignment, now)
        };
        match step {
            Ok(row) => {
                let copy = row.clone();
                proof {
                    crate::db::lemma_first(
                        conn.submissions@,
                        BySubmissionId(&copy.submission_id),
                        i as int,
                    );
                }
                conn.submissions.replace(i, row);
                Ok(copy)
            },
            Err(e) => Err(ErrorKind::StateError(e)),
        }
    }

    /// Hands in the stored submission with this submission's id at `now`:
    /// flips `submitted` to true, stamps the date and the time, and
    /// computes the punctuality against the deadline of its assignment.
    /// Fails with `AlreadySubmitted` where it is handed in already.
    pub fn submit_at(&self, now: DateTime, conn: &mut DbConn) -> (r: ThearningResult<Submissions>)
        ensures
            r == Submissions::toggle_result(*old(conn), &self.submission_id, true, now),
            final(conn).submissions@ == written(old(conn).submissions@, r),
            *final(conn) == (DbConn { submissions: final(conn).submissions, ..*old(conn) }),
    {
        Submissions::toggle(&self.submission_id, true, now, conn)
    }

    /// Hands in the stored submission with this submission's id at the
    /// time of the wall clock.
    pub fn submit(&self, conn: &mut DbConn) -> (r: ThearningResult<Submissions>)
        ensures
            exists|now: DateTime|
                now.wf() && r == #[trigger] Submissions::toggle_result(
                    *old(conn),
                    &self.submission_id,
                    true,
                    now,
                ),
            final(conn).submissions@ == written(old(conn).submissions@, r),
            *final(conn) == (DbConn { submissions: final(conn).submissions, ..*old(conn) }),
    {
        let now = local_now();
        Submissions::toggle(&self.submission_id, true, now, conn)
    }

    /// Withdraws the stored submission with this submission's id at `now`:
    /// the mirror of a hand-in. Fails with `NotSubmitted` where it is not
    /// handed in.
    pub fn unsubmit_at(&self, now: DateTime, conn: &mut DbConn) -> (r: ThearningResult<Submissions>)
        ensures
            r == Submissions::toggle_result(*old(conn), &self.submission_id, false, now),
            final(conn).submissions@ == written(old(conn).submissions@, r),
            *final(conn) == (DbConn { submissions: final(conn).submissions, ..*old(conn) }),
    {
        Submissions::toggle(&self.submission_id, false, now, conn)
    }

    /// Withdraws the stored submission with this submission's id at the
    /// time of the wall clock.
    pub fn unsubmit(&self, conn: &mut DbConn) -> (r: ThearningResult<Submissions>)
        ensures
            exists|now: DateTime|
                now.wf() && r == #[trigger] Submissions::toggle_result(
                    *old(conn),
                    &self.submission_id,
                    false,
                    now,
                ),
            final(conn).submissions@ == written(old(conn).submissions@, r),
            *final(conn) == (DbConn { submissions: final(conn).submissions, ..*old(conn) }),
    {
        let now = local_now();
        Submissions::toggle(&self.submission_id, false, now, conn)
    }

    /// What recomputing the punctuality of the submission `id` against
    /// `assignment` at `now` answers.
    pub open spec fn refresh_result(conn: DbConn, id: &String, assignment: Assignment, now: DateTime) -> ThearningResult<
        Submissions,
    > {
        match first(conn.submissions@, BySubmissionId(id)) {
            None => Err(ErrorKind::QueryError(QueryError::NotFound)),
            Some(row) => Ok(row.swept(assignment, now)),
        }
    }

    /// Computes the punctuality of the stored submission with this
    /// submission's id anew, for a hand-in at `now` against the deadline of
    /// `assignment`. Nothing else of the row changes.
    pub fn update_on_time_at(&self, assignment: &Assignment, now: DateTime, conn: &mut DbConn) -> (r:
        ThearningResult<Submissions>)
        ensures
            r == Submissions::refresh_result(*old(conn), &self.submission_id, *assignment, now),
            final(conn).submissions@ == written(old(conn).submissions@, r),
            *final(conn) == (DbConn { submissions: final(conn).submissions, ..*old(conn) }),
    {
        match conn.submissions.position(&BySubmissionId(&self.submission_id)) {
            Some(i) => {
                let current = conn.submissions.get(i).clone();
                let row = Submissions { on_time: assignment.on_time_at(now), ..current };
                let copy = row.clone();
                proof {
                    crate::db::lemma_first(
                        conn.submissions@,
                        BySubmissionId(&copy.submission_id),
                        i as int,
                    );
                }
                conn.submissions.replace(i, row);
                Ok(copy)
            },
            None => Err(ErrorKind::QueryError(QueryError::NotFound)),
        }
    }

    /// Computes the punctuality of the stored submission with this
    /// submission's id anew, at the time of the wall clock.
    pub fn update_on_time(&self, assignment: &Assignment, conn: &mut DbConn) -> (r: ThearningResult<
        Submissions,
    >)
        ensures
            exists|now: DateTime|
                now.wf() && r == #[trigger] Submissions::refresh_result(
                    *old(conn),
                    &self.submission_id,
                    *assignment,
                    now,
                ),
            final(conn).submissions@ == written(old(conn).submissions@, r),
            *final(conn) == (DbConn { submissions: final(conn).submissions, ..*old(conn) }),
    {
        let now = local_now();
        self.update_on_time_at(assignment, now, conn)
    }

    /// The sweep: for every submission for `assignment` that has not been
    /// handed in, computes the punctuality anew for `now`. Submissions that
    /// are handed in, and those for other assignments, stay as they are.
    pub fn recompute_on_time_sweep(assignment: &Assignment, now: DateTime, conn: &mut DbConn)
        ensures
            final(conn).submissions@ == swept_rows(old(conn).submissions@, *assignment, now),
            *final(conn) == (DbConn { submissions: final(conn).submissions, ..*old(conn) }),
    {
        let flag = assignment.on_time_at(now);
        let ghost before = conn.submissions@;
        let ghost target = swept_rows(before, *assignment, now);
        let n = conn.submissions.len();
        let mut i: usize = 0;
        while i < n
            invariant
                i <= n,
                n == before.len(),
                conn.submissions@.len() == n,
                flag == assignment.spec_on_time(now),
                target == swept_rows(before, *assignment, now),
                forall|j: int| 0 <= j < i ==> conn.submissions@[j] == target[j],
                forall|j: int| i <= j < n ==> conn.submissions@[j] == before[j],
                *conn == (DbConn { submissions: conn.submissions, ..*old(conn) }),
            decreases n - i,
        {
            let row = conn.submissions.get(i);
            if row.assignment_id == assignment.assignment_id && !row.submitted {
                let current = row.clone();
                conn.submissions.replace(i, Submissions { on_time: flag, ..current });
            }
            i += 1;
        }
        proof {
            assert(conn.submissions@ =~= target);
        }
    }

    /// Writes the grade `value` into the stored submission with this
    /// submission's id; `NotFound` where the store has none.
    pub fn mark(&self, value: &i32, conn: &mut DbConn) -> (r: ThearningResult<Submissions>)
        ensures
            r == match first(old(conn).submissions@, BySubmissionId(&self.submission_id)) {
                Some(row) => Ok::<Submissions, ErrorKind>(row.marked(*value)),
                None => Err::<Submissions, ErrorKind>(ErrorKind::QueryError(QueryError::NotFound)),
            },
            final(conn).submissions@ == written(old(conn).submissions@, r),
            *final(conn) == (DbConn { submissions: final(conn).submissions, ..*old(conn) }),
    {
        match conn.submissions.position(&BySubmissionId(&self.submission_id)) {
            Some(i) => {
                let row = conn.submissions.get(i).regraded(*value);
                let copy = row.clone();
                proof {
                    crate::db::lemma_first(
                        conn.submissions@,
                        BySubmissionId(&copy.submission_id),
                        i as int,
                    );
                }
                conn.submissions.replace(i, row);
                Ok(copy)
            },
            None => Err(ErrorKind::QueryError(QueryError::NotFound)),
        }
    }
}

impl Mark {
    /// The mark with the id `id`.
    pub fn get_by_id(id: &String, conn: &DbConn) -> (r: ThearningResult<Mark>)
        ensures
            r == match first(conn.marks@, ByMarkId(id)) {
                Some(found) => Ok::<Mark, ErrorKind>(found),
                None => Err::<Mark, ErrorKind>(ErrorKind::QueryError(QueryError::NotFound)),
            },
    {
        match conn.marks.find(&ByMarkId(id)) {
            Some(found) => Ok(found),
            None => Err(ErrorKind::QueryError(QueryError::NotFound)),
        }
    }

    /// The first mark given to the submission `submission_id`.
    pub fn get_by_submission_id(submission_id: &String, conn: &DbConn) -> (r: ThearningResult<Mark>)
        ensures
            r == match first(conn.marks@, MarkOf(submission_id)) {
                Some(found) => Ok::<Mark, ErrorKind>(found),
                None => Err::<Mark, ErrorKind>(ErrorKind::QueryError(QueryError::NotFound)),
            },
    {
        match conn.marks.find(&MarkOf(submission_id)) {
            Some(found) => Ok(found),
            None => Err(ErrorKind::QueryError(QueryError::NotFound)),
        }
    }

    /// What recording the mark `new_data` under the id `id` at `now`
    /// answers: `InvalidValue` where `new_data` names no submission,
    /// `NotFound` where the submission is not in the store,
    /// `UniqueViolation` where the id is taken, else the mark, with the
    /// student taken from the submission and not from `new_data`.
    pub open spec fn create_result(conn: DbConn, new_data: FillableMark, id: String, now: DateTime) -> ThearningResult<
        Mark,
    > {
        match new_data.submission_id {
            None => Err(ErrorKind::InvalidValue),
            Some(submission_id) => match first(conn.submissions@, BySubmissionId(&submission_id)) {
                None => Err(ErrorKind::QueryError(QueryError::NotFound)),
                Some(submission) => {
                    let mark = Mark {
                        id,
                        submission_id: new_data.submission_id,
                        marker_id: new_data.marker_id,
                        student_id: Some(submission.user_id),
                        value: new_data.value,
                        created_at: now,
                    };
                    if free_for(conn.marks@, mark) {
                        Ok(mark)
                    } else {
                        Err(ErrorKind::QueryError(QueryError::UniqueViolation))
                    }
                },
            },
        }
    }

    /// Records the mark `new_data` under the id `id` at `now`.
    pub fn create_with(new_data: FillableMark, id: String, now: DateTime, conn: &mut DbConn) -> (r:
        ThearningResult<Mark>)
        ensures
            r == Mark::create_result(*old(conn), new_data, id, now),
            final(conn).marks@ == match r {
                Ok(mark) => old(conn).marks@.push(mark),
                Err(_) => old(conn).marks@,
            },
            *final(conn) == (DbConn { marks: final(conn).marks, ..*old(conn) }),
    {
        let submission = match &new_data.submission_id {
            None => { return Err(ErrorKind::InvalidValue); },
            Some(submission_id) => match Submissions::find_submission(submission_id, conn) {
                Ok(found) => found,
                Err(e) => { return Err(e); },
            },
        };
        let mark = Mark {
            id,
            submission_id: new_data.submission_id,
            marker_id: new_data.marker_id,
            student_id: Some(submission.user_id),
            value: new_data.value,
            created_at: now,
        };
        let copy = mark.clone();
        match conn.marks.insert(mark) {
            Ok(_) => Ok(copy),
            Err(e) => Err(ErrorKind::QueryError(e)),
        }
    }

    /// Records the mark `new_data` with a random id and the time of the
    /// wall clock.
    pub fn create(new_data: FillableMark, conn: &mut DbConn) -> (r: ThearningResult<Mark>)
        ensures
            exists|id: String, now: DateTime|
                is_key(id@) && now.wf() && r == #[trigger] Mark::create_result(
                    *old(conn),
                    new_data,
                    id,
                    now,
                ),
            final(conn).marks@ == match r {
                Ok(mark) => old(conn).marks@.push(mark),
                Err(_) => old(conn).marks@,
            },
            *final(conn) == (DbConn { marks: final(conn).marks, ..*old(conn) }),
    {
        let id = generate_key();
        let now = local_now();
        Mark::create_with(new_data, id, now, conn)
    }

    /// This mark with the marker and the value of `update`.
    pub open spec fn updated(self, update: FillableMark) -> Mark {
        Mark { marker_id: update.marker_id, value: update.value, ..self }
    }

    /// Overwrites the stored mark with this mark's id by this mark with the
    /// marker and the value of `update`; `NotFound` where the store has no
    /// such mark.
    pub fn update(&self, update: FillableMark, conn: &mut DbConn) -> (r: ThearningResult<Mark>)
        ensures
            match first_index(old(conn).marks@, ByMarkId(&self.id)) {
                Some(i) => {
                    &&& r == Ok::<Mark, ErrorKind>(self.updated(update))
                    &&& final(conn).marks@ == old(conn).marks@.update(i, self.updated(update))
                },
                None => {
                    &&& r == Err::<Mark, ErrorKind>(ErrorKind::QueryError(QueryError::NotFound))
                    &&& final(conn).marks@ == old(conn).marks@
                },
            },
            *final(conn) == (DbConn { marks: final(conn).marks, ..*old(conn) }),
    {
        match conn.marks.position(&ByMarkId(&self.id)) {
            Some(i) => {
                let current = self.clone();
                let mark = Mark { marker_id: update.marker_id, value: update.value, ..current };
                let copy = mark.clone();
                conn.marks.replace(i, mark);
                Ok(copy)
            },
            None => Err(ErrorKind::QueryError(QueryError::NotFound)),
        }
    }
}

impl Submissions {
    /// What the first grading of the submission `submission_id` by
    /// `marker_id` with `value` answers, where the mark gets the id
    /// `mark_id` and the instant `now`: `NotFound` where the submission is
    /// not in the store, `AlreadyGraded` where it has a grade,
    /// `UniqueViolation` where the id of the mark is taken, else the mark,
    /// which names the student of the submission.
    pub open spec fn grade_result(
        conn: DbConn,
        submission_id: &String,
        marker_id: &String,
        value: i32,
        mark_id: String,
        now: DateTime,
    ) -> ThearningResult<Mark> {
        match first(conn.submissions@, BySubmissionId(submission_id)) {
            None => Err(ErrorKind::QueryError(QueryError::NotFound)),
            Some(row) => if row.marks_allotted is Some {
                Err(ErrorKind::StateError(StateError::AlreadyGraded))
            } else {
                let mark = Mark {
                    id: mark_id,
                    submission_id: Some(*submission_id),
                    marker_id: Some(*marker_id),
                    student_id: Some(row.user_id),
                    value,
                    created_at: now,
                };
                if free_for(conn.marks@, mark) {
                    Ok(mark)
                } else {
                    Err(ErrorKind::QueryError(QueryError::UniqueViolation))
                }
            },
        }
    }

    /// The submissions after a grading that answered `r` for the
    /// submission `submission_id`: where it answered with a mark, the
    /// submission carries the value of the mark.
    pub open spec fn graded_rows(rows: Seq<Submissions>, submission_id: &String, r: ThearningResult<Mark>) -> Seq<
        Submissions,
    > {
        match (r, first_index(rows, BySubmissionId(submission_id))) {
            (Ok(mark), Some(i)) => rows.update(i, rows[i].marked(mark.value)),
            _ => rows,
        }
    }

    /// Grades the submission `submission_id` for the first time: records a
    /// mark by `marker_id` under the id `mark_id` at `now`, and writes
    /// `value` into the submission. A submission that has a grade is left
    /// alone and `AlreadyGraded` is answered.
    pub fn grade_with(
        submission_id: &String,
        marker_id: &String,
        value: i32,
        mark_id: String,
        now: DateTime,
        conn: &mut DbConn,
    ) -> (r: ThearningResult<Mark>)
        ensures
            r == Submissions::grade_result(*old(conn), submission_id, marker_id, value, mark_id, now),
            final(conn).marks@ == match r {
                Ok(mark) => old(conn).marks@.push(mark),
                Err(_) => old(conn).marks@,
            },
            final(conn).submissions@ == Submissions::graded_rows(
                old(conn).submissions@,
                submission_id,
                r,
            ),
            *final(conn) == (DbConn {
                marks: final(conn).marks,
                submissions: final(conn).submissions,
                ..*old(conn)
            }),
    {
        let i = match conn.submissions.position(&BySubmissionId(submission_id)) {
            Some(i) => i,
            None => { return Err(ErrorKind::QueryError(QueryError::NotFound)); },
        };
        let row = match conn.submissions.get(i).graded(value) {
            Ok(row) => row,
            Err(e) => { return Err(ErrorKind::StateError(e)); },
        };
        let new_mark = FillableMark {
            submission_id: Some(submission_id.clone()),
            marker_id: Some(marker_id.clone()),
            student_id: None,
            value,
        };
        let mark = match Mark::create_with(new_mark, mark_id, now, conn) {
            Ok(mark) => mark,
            Err(e) => { return Err(e); },
        };
        conn.submissions.replace(i, row);
        Ok(mark)
    }

    /// Grades the submission `submission_id` for the first time, with a
    /// random id for the mark and the time of the wall clock.
    pub fn grade(submission_id: &String, marker_id: &String, value: i32, conn: &mut DbConn) -> (r:
        ThearningResult<Mark>)
        ensures
            exists|mark_id: String, now: DateTime|
                is_key(mark_id@) && now.wf() && r == #[trigger] Submissions::grade_result(
                    *old(conn),
                    submission_id,
                    marker_id,
                    value,
                    mark_id,
                    now,
                ),
            final(conn).marks@ == match r {
                Ok(mark) => old(conn).marks@.push(mark),
                Err(_) => old(conn).marks@,
            },
            final(conn).submissions@ == Submissions::graded_rows(
                old(conn).submissions@,
                submission_id,
                r,
            ),
            *final(conn) == (DbConn {
                marks: final(conn).marks,
                submissions: final(conn).submissions,
                ..*old(conn)
            }),
    {
        let mark_id = generate_key();
        let now = local_now();
        Submissions::grade_with(submission_id, marker_id, value, mark_id, now, conn)
    }

    /// Overwrites the grade of the submission `submission_id`, whether it
    /// has one or not: the submission then carries `new_value`, and so does
    /// the first mark recorded for it, if there is one, together with the
    /// marker `marker_id`. Only a submission that is not in the store is
    /// refused, with `NotFound`.
    pub fn update_grade(submission_id: &String, marker_id: &String, new_value: i32, conn: &mut DbConn) -> (r:
        ThearningResult<Submissions>)
        ensures
            r == match first(old(conn).submissions@, BySubmissionId(submission_id)) {
                Some(row) => Ok::<Submissions, ErrorKind>(row.marked(new_value)),
                None => Err::<Submissions, ErrorKind>(ErrorKind::QueryError(QueryError::NotFound)),
            },
            final(conn).submissions@ == written(old(conn).submissions@, r),
            final(conn).marks@ == match (r, first_index(old(conn).marks@, MarkOf(submission_id))) {
                (Ok(_), Some(j)) => old(conn).marks@.update(
                    j,
                    Mark { marker_id: Some(*marker_id), value: new_value, ..old(conn).marks@[j] },
                ),
                _ => old(conn).marks@,
            },
            *final(conn) == (DbConn {
                marks: final(conn).marks,
                submissions: final(conn).submissions,
                ..*old(conn)
            }),
    {
        let i = match conn.submissions.position(&BySubmissionId(submission_id)) {
            Some(i) => i,
            None => { return Err(ErrorKind::QueryError(QueryError::NotFound)); },
        };
        match conn.marks.position(&MarkOf(submission_id)) {
            Some(j) => {
                let current = conn.marks.get(j).clone();
                conn.marks.replace(
                    j,
                    Mark { marker_id: Some(marker_id.clone()), value: new_value, ..current },
                );
            },
            None => {},
        }
        let row = conn.submissions.get(i).regraded(new_value);
        let copy = row.clone();
        proof {
            crate::db::lemma_first(conn.submissions@, BySubmissionId(&copy.submission_id), i as int);
        }
        conn.submissions.replace(i, row);
        Ok(copy)
    }
}

/// The assignment belongs to the classroom `class_id`.
pub open spec fn in_class(a: Assignment, class_id: Seq<char>) -> bool {
    a.class_id matches Some(id) && id@ == class_id
}

/// The row is the submission of the student `user_id`, seeded at `now`
/// under a key of its own for one of the `assignments` that belong to the
/// classroom `class_id`.
pub open spec fn seeded_in_class(
    row: Submissions,
    assignments: Seq<Assignment>,
    class_id: Seq<char>,
    user_id: Seq<char>,
    now: DateTime,
) -> bool {
    exists|k: int|
        0 <= k < assignments.len() && in_class(assignments[k], class_id) && row.user_id@ == user_id
            && is_key(row.submission_id@) && row == #[trigger] Submissions::seeded(
            FillableSubmissions { assignment_id: assignments[k].assignment_id, user_id: row.user_id },
            row.submission_id,
            assignments[k],
            now,
        )
}

/// The row is a submission for the assignment `assignment_id` of the store
/// `conn`, seeded at `now` under a key of its own for a student of the
/// classroom `class_id`.
pub open spec fn seeded_for_student(
    row: Submissions,
    conn: DbConn,
    assignment_id: &String,
    class_id: Seq<char>,
    now: DateTime,
) -> bool {
    &&& first(conn.assignments@, ByAssignmentId(assignment_id)) matches Some(a)
    &&& seeded_for(row, a, now)
    &&& exists|m: int|
        0 <= m < conn.memberships@.len() && conn.memberships@[m].role == Role::Student
            && conn.memberships@[m].class_id@ == class_id && #[trigger] conn.memberships@[m].user_id
            == row.user_id
}

/// The row is the submission of a student, seeded at `now` under a key of
/// its own for the assignment `a`.
pub open spec fn seeded_for(row: Submissions, a: Assignment, now: DateTime) -> bool {
    is_key(row.submission_id@) && row.assignment_id@ == a.assignment_id@ && row
        == Submissions::seeded(
        FillableSubmissions { assignment_id: row.assignment_id, user_id: row.user_id },
        row.submission_id,
        a,
        now,
    )
}

impl Submissions {
    /// Creates, at `now` and under random ids, the submissions of the
    /// student `user_id` who joins the classroom `class_id`: one for each
    /// assignment of the classroom, in table order. An assignment for which
    /// the student has a submission already, or for which the id drawn is
    /// taken, is passed over. The rows that were there stay as they are,
    /// in front of the new ones.
    pub fn seed_for_student(class_id: &String, user_id: &String, now: DateTime, conn: &mut DbConn)
        ensures
            exists|ids: Seq<String>|
                {
                    &&& ids.len() == old(conn).assignments@.len()
                    &&& forall|k: int| 0 <= k < ids.len() ==> is_key((#[trigger] ids[k])@)
                    &&& final(conn).submissions@ == #[trigger] seeded_rows(
                        old(conn).submissions@,
                        old(conn).assignments@,
                        class_id@,
                        *user_id,
                        ids,
                        now,
                        old(conn).assignments@.len(),
                    )
                },
            final(conn).submissions@.len() >= old(conn).submissions@.len(),
            final(conn).submissions@.take(old(conn).submissions@.len() as int) == old(conn).submissions@,
            forall|j: int|
                old(conn).submissions@.len() <= j < final(conn).submissions@.len()
                    ==> seeded_in_class(
                    #[trigger] final(conn).submissions@[j],
                    old(conn).assignments@,
                    class_id@,
                    user_id@,
                    now,
                ),
            *final(conn) == (DbConn { submissions: final(conn).submissions, ..*old(conn) }),
    {
        let n = conn.assignments.len();
        let mut ids: Vec<String> = Vec::new();
        while ids.len() < n
            invariant
                ids@.len() <= n,
                forall|k: int| 0 <= k < ids@.len() ==> is_key((#[trigger] ids@[k])@),
            decreases n - ids@.len(),
        {
            ids.push(generate_key());
        }
        Submissions::seed_for_student_with(class_id, user_id, &ids, now, conn);
        proof {
            let assignments = old(conn).assignments@;
            assert forall|j: int|
                old(conn).submissions@.len() <= j < conn.submissions@.len() implies seeded_in_class(
                #[trigger] conn.submissions@[j],
                assignments,
                class_id@,
                user_id@,
                now,
            ) by {
                let row = conn.submissions@[j];
                assert(seeded_with(row, assignments, class_id@, *user_id, ids@, now));
                let k = choose|k: int|
                    0 <= k < assignments.len() && k < ids@.len() && in_class(assignments[k], class_id@)
                        && row == #[trigger] Submissions::seeded(
                        FillableSubmissions {
                            assignment_id: assignments[k].assignment_id,
                            user_id: *user_id,
                        },
                        ids@[k],
                        assignments[k],
                        now,
                    );
                assert(is_key(ids@[k]@));
                assert(row == Submissions::seeded(
                    FillableSubmissions {
                        assignment_id: assignments[k].assignment_id,
                        user_id: row.user_id,
                    },
                    row.submission_id,
                    assignments[k],
                    now,
                ));
            }
        }
    }

    /// Creates, at `now` and under random ids, the submissions for the
    /// assignment `assignment_id` that is published to the classroom
    /// `class_id`: one for each student of the classroom, in table order.
    /// Stops at the first student for whom none can be created, because
    /// the student has one already, the id drawn is taken, or the
    /// assignment is not in the store, and answers with that error; the
    /// submissions created until then stay. The rows that were there stay
    /// as they are, in front of the new ones. So a classroom without
    /// students gives `Ok` and changes nothing, and the answer is
    /// `NotFound` exactly where the classroom has a student and the
    /// assignment is not in the store.
    pub fn seed_for_assignment(assignment_id: &String, class_id: &String, now: DateTime, conn: &mut DbConn) -> (r:
        ThearningResult<()>)
        ensures
            exists|ids: Seq<String>|
                {
                    &&& ids.len() == old(conn).memberships@.len()
                    &&& forall|k: int| 0 <= k < ids.len() ==> is_key((#[trigger] ids[k])@)
                    &&& (final(conn).submissions@, r) == #[trigger] fanned_out(
                        old(conn).submissions@,
                        old(conn).memberships@,
                        first(old(conn).assignments@, ByAssignmentId(assignment_id)),
                        *assignment_id,
                        class_id@,
                        ids,
                        now,
                        old(conn).memberships@.len(),
                    )
                },
            all(old(conn).memberships@, InClassAs(class_id, Role::Student)).len() == 0 ==> r is Ok
                && final(conn).submissions@ == old(conn).submissions@,
            r == Err::<(), ErrorKind>(ErrorKind::QueryError(QueryError::NotFound)) <==> all(
                old(conn).memberships@,
                InClassAs(class_id, Role::Student),
            ).len() > 0 && first(old(conn).assignments@, ByAssignmentId(assignment_id)) is None,
            final(conn).submissions@.len() >= old(conn).submissions@.len(),
            final(conn).submissions@.take(old(conn).submissions@.len() as int) == old(conn).submissions@,
            forall|j: int|
                old(conn).submissions@.len() <= j < final(conn).submissions@.len()
                    ==> seeded_for_student(
                    #[trigger] final(conn).submissions@[j],
                    *old(conn),
                    assignment_id,
                    class_id@,
                    now,
                ),
            r is Ok ==> final(conn).submissions@.len() == old(conn).submissions@.len() + all(
                old(conn).memberships@,
                InClassAs(class_id, Role::Student),
            ).len(),
            r matches Err(e) ==> e == ErrorKind::QueryError(QueryError::NotFound) || e
                == ErrorKind::QueryError(QueryError::UniqueViolation),
            *final(conn) == (DbConn { submissions: final(conn).submissions, ..*old(conn) }),
    {
        let n = conn.memberships.len();
        let mut ids: Vec<String> = Vec::new();
        while ids.len() < n
            invariant
                ids@.len() <= n,
                forall|k: int| 0 <= k < ids@.len() ==> is_key((#[trigger] ids@[k])@),
            decreases n - ids@.len(),
        {
            ids.push(generate_key());
        }
        let r = Submissions::seed_for_assignment_with(assignment_id, class_id, &ids, now, conn);
        proof {
            assert forall|j: int|
                old(conn).submissions@.len() <= j < conn.submissions@.len() implies seeded_for_student(
                #[trigger] conn.submissions@[j],
                *old(conn),
                assignment_id,
                class_id@,
                now,
            ) by {
                let row = conn.submissions@[j];
                assert(fanned_with(row, *old(conn), assignment_id, class_id@, ids@, now));
                let a = first(old(conn).assignments@, ByAssignmentId(assignment_id))->Some_0;
                let i = first_index(old(conn).assignments@, ByAssignmentId(assignment_id))->Some_0;
                crate::db::lemma_first(old(conn).assignments@, ByAssignmentId(assignment_id), i);
                let m = choose|m: int|
                    0 <= m < old(conn).memberships@.len() && m < ids@.len() && student_of(
                        old(conn).memberships@[m],
                        class_id@,
                    ) && row == #[trigger] Submissions::seeded(
                        FillableSubmissions {
                            assignment_id: *assignment_id,
                            user_id: old(conn).memberships@[m].user_id,
                        },
                        ids@[m],
                        a,
                        now,
                    );
                assert(is_key(ids@[m]@));
                assert(old(conn).memberships@[m].user_id == row.user_id);
                assert(seeded_for(row, a, now));
            }
        }
        r
    }
}

/// The membership is that of a student of the classroom `class_id`.
pub open spec fn student_of(member: Membership, class_id: Seq<char>) -> bool {
    member.class_id@ == class_id && member.role == Role::Student
}

/// The submissions after an assignment is published to a classroom, and
/// the answer: going through the first `n` of the memberships `members` in
/// table order, each student of the classroom `class_id` who has a key in
/// `ids` at the place of the membership gets a submission for the
/// assignment, seeded at `now` under that key and put behind the rows that
/// are there. At the first student for whom that cannot be, because the
/// assignment is not stored (`NotFound`) or the row clashes with one that
/// is there (`UniqueViolation`), the going stops with that answer.
pub open spec fn fanned_out(
    rows: Seq<Submissions>,
    members: Seq<Membership>,
    assignment: Option<Assignment>,
    assignment_id: String,
    class_id: Seq<char>,
    ids: Seq<String>,
    now: DateTime,
    n: nat,
) -> (Seq<Submissions>, ThearningResult<()>)
    decreases n,
{
    if n == 0 {
        (rows, Ok(()))
    } else {
        let before = fanned_out(
            rows,
            members,
            assignment,
            assignment_id,
            class_id,
            ids,
            now,
            (n - 1) as nat,
        );
        let k = n - 1;
        if before.1 is Err || k >= members.len() || k >= ids.len() || !student_of(
            members[k],
            class_id,
        ) {
            before
        } else {
            match assignment {
                None => (before.0, Err(ErrorKind::QueryError(QueryError::NotFound))),
                Some(a) => {
                    let row = Submissions::seeded(
                        FillableSubmissions { assignment_id, user_id: members[k].user_id },
                        ids[k],
                        a,
                        now,
                    );
                    if free_for(before.0, row) {
                        (before.0.push(row), Ok(()))
                    } else {
                        (before.0, Err(ErrorKind::QueryError(QueryError::UniqueViolation)))
                    }
                },
            }
        }
    }
}

/// Once the going has stopped, it stays where it is.
pub proof fn lemma_fanned_out_stops(
    rows: Seq<Submissions>,
    members: Seq<Membership>,
    assignment: Option<Assignment>,
    assignment_id: String,
    class_id: Seq<char>,
    ids: Seq<String>,
    now: DateTime,
    i: nat,
    n: nat,
)
    requires
        i <= n,
        fanned_out(rows, members, assignment, assignment_id, class_id, ids, now, i).1 is Err,
    ensures
        fanned_out(rows, members, assignment, assignment_id, class_id, ids, now, n) == fanned_out(
            rows,
            members,
            assignment,
            assignment_id,
            class_id,
            ids,
            now,
            i,
        ),
    decreases n,
{
    if i < n {
        lemma_fanned_out_stops(
            rows,
            members,
            assignment,
            assignment_id,
            class_id,
            ids,
            now,
            i,
            (n - 1) as nat,
        );
    }
}

/// The row is a submission for the assignment `assignment_id` of the store
/// `conn`, seeded at `now` for a student of the classroom `class_id` under
/// the key that `ids` holds at the place of the student's membership.
pub open spec fn fanned_with(
    row: Submissions,
    conn: DbConn,
    assignment_id: &String,
    class_id: Seq<char>,
    ids: Seq<String>,
    now: DateTime,
) -> bool {
    &&& first(conn.assignments@, ByAssignmentId(assignment_id)) matches Some(a)
    &&& exists|m: int|
        0 <= m < conn.memberships@.len() && m < ids.len() && student_of(
            conn.memberships@[m],
            class_id,
        ) && row == #[trigger] Submissions::seeded(
            FillableSubmissions { assignment_id: *assignment_id, user_id: conn.memberships@[m].user_id },
            ids[m],
            a,
            now,
        )
}

impl Submissions {
    /// Creates, at `now`, the submissions for the assignment
    /// `assignment_id` that is published to the classroom `class_id`: one
    /// for each student of the classroom, in table order, under the key
    /// that `ids` holds at the place of the student's membership in its
    /// table; a student for whom `ids` holds no key is passed over. Stops
    /// at the first student for whom none can be created, and answers
    /// `NotFound` where the assignment is not in the store and
    /// `UniqueViolation` where the student has a submission for it already
    /// or the key is in use; the submissions created until then stay. The
    /// rows that were there stay as they are, in front of the new ones.
    pub fn seed_for_assignment_with(
        assignment_id: &String,
        class_id: &String,
        ids: &Vec<String>,
        now: DateTime,
        conn: &mut DbConn,
    ) -> (r: ThearningResult<()>)
        ensures
            (final(conn).submissions@, r) == fanned_out(
                old(conn).submissions@,
                old(conn).memberships@,
                first(old(conn).assignments@, ByAssignmentId(assignment_id)),
                *assignment_id,
                class_id@,
                ids@,
                now,
                old(conn).memberships@.len(),
            ),
            all(old(conn).memberships@, InClassAs(class_id, Role::Student)).len() == 0 ==> r is Ok
                && final(conn).submissions@ == old(conn).submissions@,
            r == Err::<(), ErrorKind>(ErrorKind::QueryError(QueryError::NotFound)) ==> all(
                old(conn).memberships@,
                InClassAs(class_id, Role::Student),
            ).len() > 0 && first(old(conn).assignments@, ByAssignmentId(assignment_id)) is None,
            ids@.len() >= old(conn).memberships@.len() && all(
                old(conn).memberships@,
                InClassAs(class_id, Role::Student),
            ).len() > 0 && first(old(conn).assignments@, ByAssignmentId(assignment_id)) is None ==> r
                == Err::<(), ErrorKind>(ErrorKind::QueryError(QueryError::NotFound)),
            final(conn).submissions@.len() >= old(conn).submissions@.len(),
            final(conn).submissions@.take(old(conn).submissions@.len() as int) == old(conn).submissions@,
            forall|j: int|
                old(conn).submissions@.len() <= j < final(conn).submissions@.len() ==> fanned_with(
                    #[trigger] final(conn).submissions@[j],
                    *old(conn),
                    assignment_id,
                    class_id@,
                    ids@,
                    now,
                ),
            ids@.len() >= old(conn).memberships@.len() && r is Ok ==> final(conn).submissions@.len()
                == old(conn).submissions@.len() + all(
                old(conn).memberships@,
                InClassAs(class_id, Role::Student),
            ).len(),
            r matches Err(e) ==> e == ErrorKind::QueryError(QueryError::NotFound) || e
                == ErrorKind::QueryError(QueryError::UniqueViolation),
            *final(conn) == (DbConn { submissions: final(conn).submissions, ..*old(conn) }),
    {
        let ghost before = conn.submissions@;
        let ghost members = conn.memberships@;
        let ghost stored = first(conn.assignments@, ByAssignmentId(assignment_id));
        let ghost students = InClassAs(class_id, Role::Student);
        let ghost pred = |row: Membership| InClassAs(class_id, Role::Student).accepts(&row);
        let n = conn.memberships.len();
        proof {
            assert(conn.submissions@.take(before.len() as int) =~= before);
            reveal(Seq::filter);
            assert(members.take(0) =~= Seq::<Membership>::empty());
            crate::db::lemma_all_empty(members, students);
        }
        let mut i: usize = 0;
        while i < n
            invariant
                i <= n,
                n == members.len(),
                members == old(conn).memberships@,
                before == old(conn).submissions@,
                stored == first(old(conn).assignments@, ByAssignmentId(assignment_id)),
                students == InClassAs(class_id, Role::Student),
                conn.memberships@ == members,
                conn.assignments@ == old(conn).assignments@,
                pred == (|row: Membership| InClassAs(class_id, Role::Student).accepts(&row)),
                all(members, students).len() == 0 <==> crate::db::no_match(members, students),
                (conn.submissions@, Ok::<(), ErrorKind>(())) == fanned_out(
                    before,
                    members,
                    stored,
                    *assignment_id,
                    class_id@,
                    ids@,
                    now,
                    i as nat,
                ),
                crate::db::no_match(members, students) ==> conn.submissions@ == before,
                stored is None && ids@.len() >= n ==> forall|k: int|
                    0 <= k < i ==> !students.accepts(&#[trigger] members[k]),
                ids@.len() >= n ==> conn.submissions@.len() == before.len() + members.take(
                    i as int,
                ).filter(pred).len(),
                conn.submissions@.len() >= before.len(),
                conn.submissions@.take(before.len() as int) == before,
                forall|j: int|
                    before.len() <= j < conn.submissions@.len() ==> fanned_with(
                        #[trigger] conn.submissions@[j],
                        *old(conn),
                        assignment_id,
                        class_id@,
                        ids@,
                        now,
                    ),
                *conn == (DbConn { submissions: conn.submissions, ..*old(conn) }),
            decreases n - i,
        {
            proof {
                reveal(Seq::filter);
                assert(members.take(i + 1).drop_last() =~= members.take(i as int));
            }
            let ghost rows = conn.submissions@;
            let member = conn.memberships.get(i);
            if i < ids.len() && member.class_id == *class_id && member.role == Role::Student {
                let new_data = FillableSubmissions {
                    assignment_id: assignment_id.clone(),
                    user_id: member.user_id.clone(),
                };
                let id = ids[i].clone();
                proof {
                    assert(students.accepts(&members[i as int]));
                }
                match Submissions::create_with(new_data, id, now, conn) {
                    Ok(row) => {
                        proof {
                            assert(row == Submissions::seeded(
                                FillableSubmissions {
                                    assignment_id: *assignment_id,
                                    user_id: members[i as int].user_id,
                                },
                                ids@[i as int],
                                stored->Some_0,
                                now,
                            ));
                            assert(fanned_with(row, *old(conn), assignment_id, class_id@, ids@, now));
                            assert(conn.submissions@.take(before.len() as int) =~= rows.take(
                                before.len() as int,
                            ));
                            assert forall|j: int|
                                before.len() <= j < conn.submissions@.len() implies fanned_with(
                                #[trigger] conn.submissions@[j],
                                *old(conn),
                                assignment_id,
                                class_id@,
                                ids@,
                                now,
                            ) by {
                                if j < rows.len() {
                                    assert(conn.submissions@[j] == rows[j]);
                                }
                            }
                        }
                    },
                    Err(e) => {
                        proof {
                            assert(conn.submissions@ == rows);
                            assert((rows, Err::<(), ErrorKind>(e)) == fanned_out(
                                before,
                                members,
                                stored,
                                *assignment_id,
                                class_id@,
                                ids@,
                                now,
                                (i + 1) as nat,
                            ));
                            lemma_fanned_out_stops(
                                before,
                                members,
                                stored,
                                *assignment_id,
                                class_id@,
                                ids@,
                                now,
                                (i + 1) as nat,
                                n as nat,
                            );
                        }
                        return Err(e);
                    },
                }
            }
            proof {
                assert((conn.submissions@, Ok::<(), ErrorKind>(())) == fanned_out(
                    before,
                    members,
                    stored,
                    *assignment_id,
                    class_id@,
                    ids@,
                    now,
                    (i + 1) as nat,
                ));
            }
            i += 1;
        }
        proof {
            assert(members.take(i as int) =~= members);
        }
        Ok(())
    }
}

/// The submissions after a student joins a classroom: going through the
/// first `n` of the `assignments` in table order, each assignment that
/// belongs to the classroom `class_id` and has a key in `ids` at its own
/// place gets a submission of the student `user_id`, seeded at `now` under
/// that key and put behind the rows that are there, unless the row clashes
/// with one of them: unless the student has a submission for the
/// assignment already or the key is in use.
pub open spec fn seeded_rows(
    rows: Seq<Submissions>,
    assignments: Seq<Assignment>,
    class_id: Seq<char>,
    user_id: String,
    ids: Seq<String>,
    now: DateTime,
    n: nat,
) -> Seq<Submissions>
    decreases n,
{
    if n == 0 {
        rows
    } else {
        let front = seeded_rows(rows, assignments, class_id, user_id, ids, now, (n - 1) as nat);
        let k = n - 1;
        if k < assignments.len() && k < ids.len() && in_class(assignments[k], class_id) {
            let row = Submissions::seeded(
                FillableSubmissions { assignment_id: assignments[k].assignment_id, user_id },
                ids[k],
                assignments[k],
                now,
            );
            if free_for(front, row) {
                front.push(row)
            } else {
                front
            }
        } else {
            front
        }
    }
}

/// The row is the submission of the student `user_id`, seeded at `now` for
/// one of the `assignments` that belong to the classroom `class_id`, under
/// the key that `ids` holds at the place of that assignment.
pub open spec fn seeded_with(
    row: Submissions,
    assignments: Seq<Assignment>,
    class_id: Seq<char>,
    user_id: String,
    ids: Seq<String>,
    now: DateTime,
) -> bool {
    exists|k: int|
        0 <= k < assignments.len() && k < ids.len() && in_class(assignments[k], class_id) && row
            == #[trigger] Submissions::seeded(
            FillableSubmissions { assignment_id: assignments[k].assignment_id, user_id },
            ids[k],
            assignments[k],
            now,
        )
}

impl Submissions {
    /// Creates, at `now`, the submissions of the student `user_id` who
    /// joins the classroom `class_id`: one for each assignment of the
    /// classroom, in table order, under the key that `ids` holds at the
    /// place of the assignment in its table. An assignment for which `ids`
    /// holds no key, for which the student has a submission already, or
    /// whose key is in use, is passed over. The rows that were there stay
    /// as they are, in front of the new ones.
    pub fn seed_for_student_with(
        class_id: &String,
        user_id: &String,
        ids: &Vec<String>,
        now: DateTime,
        conn: &mut DbConn,
    )
        ensures
            final(conn).submissions@ == seeded_rows(
                old(conn).submissions@,
                old(conn).assignments@,
                class_id@,
                *user_id,
                ids@,
                now,
                old(conn).assignments@.len(),
            ),
            final(conn).submissions@.len() >= old(conn).submissions@.len(),
            final(conn).submissions@.take(old(conn).submissions@.len() as int) == old(conn).submissions@,
            forall|j: int|
                old(conn).submissions@.len() <= j < final(conn).submissions@.len() ==> seeded_with(
                    #[trigger] final(conn).submissions@[j],
                    old(conn).assignments@,
                    class_id@,
                    *user_id,
                    ids@,
                    now,
                ),
            *final(conn) == (DbConn { submissions: final(conn).submissions, ..*old(conn) }),
    {
        let ghost before = conn.submissions@;
        let ghost assignments = conn.assignments@;
        let n = conn.assignments.len();
        conn.assignments.keys_apart();
        proof {
            assert(conn.submissions@.take(before.len() as int) =~= before);
        }
        let mut i: usize = 0;
        while i < n
            invariant
                i <= n,
                n == assignments.len(),
                conn.assignments@ == assignments,
                crate::db::distinct(assignments),
                conn.submissions@ == seeded_rows(
                    before,
                    assignments,
                    class_id@,
                    *user_id,
                    ids@,
                    now,
                    i as nat,
                ),
                conn.submissions@.len() >= before.len(),
                conn.submissions@.take(before.len() as int) == before,
                forall|j: int|
                    before.len() <= j < conn.submissions@.len() ==> seeded_with(
                        #[trigger] conn.submissions@[j],
                        assignments,
                        class_id@,
                        *user_id,
                        ids@,
                        now,
                    ),
                *conn == (DbConn { submissions: conn.submissions, ..*old(conn) }),
            decreases n - i,
        {
            let ghost rows = conn.submissions@;
            let assignment = conn.assignments.get(i);
            if i < ids.len() && text::both_are(&assignment.class_id, class_id) {
                let new_data = FillableSubmissions {
                    assignment_id: assignment.assignment_id.clone(),
                    user_id: user_id.clone(),
                };
                let id = ids[i].clone();
                proof {
                    let by_id = ByAssignmentId(&new_data.assignment_id);
                    assert(crate::db::is_first(assignments, by_id, i as int)) by {
                        assert forall|j: int| 0 <= j < i implies !by_id.accepts(
                            &#[trigger] assignments[j],
                        ) by {
                            assert(!crate::db::clash(assignments[j], assignments[i as int]));
                        }
                    }
                    crate::db::lemma_first(assignments, by_id, i as int);
                }
                match Submissions::create_with(new_data, id, now, conn) {
                    Ok(row) => {
                        proof {
                            assert(row == Submissions::seeded(
                                FillableSubmissions {
                                    assignment_id: assignments[i as int].assignment_id,
                                    user_id: *user_id,
                                },
                                ids@[i as int],
                                assignments[i as int],
                                now,
                            ));
                            assert(seeded_with(row, assignments, class_id@, *user_id, ids@, now));
                            assert(conn.submissions@.take(before.len() as int) =~= rows.take(
                                before.len() as int,
                            ));
                            assert forall|j: int|
                                before.len() <= j < conn.submissions@.len() implies seeded_with(
                                #[trigger] conn.submissions@[j],
                                assignments,
                                class_id@,
                                *user_id,
                                ids@,
                                now,
                            ) by {
                                if j < rows.len() {
                                    assert(conn.submissions@[j] == rows[j]);
                                }
                            }
                        }
                    },
                    Err(_) => {},
                }
            }
            proof {
                assert(conn.submissions@ == seeded_rows(
                    before,
                    assignments,
                    class_id@,
                    *user_id,
                    ids@,
                    now,
                    (i + 1) as nat,
                ));
            }
            i += 1;
        }
    }
}

/// Handing in and withdrawing alternate: from a submission that is not
/// handed in, a hand-in succeeds and leaves it handed in; a second hand-in
/// is refused with `AlreadySubmitted`; a withdrawal then succeeds and
/// leaves it not handed in; and a second withdrawal is refused with
/// `NotSubmitted`. Neither step touches the grade.
pub proof fn lemma_submit_and_unsubmit_alternate(
    s: Submissions,
    a: Assignment,
    t1: DateTime,
    t2: DateTime,
    t3: DateTime,
    t4: DateTime,
)
    requires
        !s.submitted,
    ensures
        s.spec_submit(a, t1) is Ok,
        s.spec_submit(a, t1)->Ok_0.submitted,
        s.spec_submit(a, t1)->Ok_0.on_time == a.spec_on_time(t1),
        s.spec_submit(a, t1)->Ok_0.spec_submit(a, t2) == Err::<Submissions, StateError>(
            StateError::AlreadySubmitted,
        ),
        s.spec_submit(a, t1)->Ok_0.spec_unsubmit(a, t3) is Ok,
        !s.spec_submit(a, t1)->Ok_0.spec_unsubmit(a, t3)->Ok_0.submitted,
        s.spec_submit(a, t1)->Ok_0.spec_unsubmit(a, t3)->Ok_0.spec_unsubmit(a, t4) == Err::<
            Submissions,
            StateError,
        >(StateError::NotSubmitted),
        s.spec_submit(a, t1)->Ok_0.spec_unsubmit(a, t3)->Ok_0.marks_allotted == s.marks_allotted,
        s.spec_unsubmit(a, t1) == Err::<Submissions, StateError>(StateError::NotSubmitted),
{
}

/// A submission is graded once: the first grade succeeds and is written
/// into it; a second grade is refused with `AlreadyGraded`, whatever its
/// value; overwriting the grade always succeeds and leaves the new value.
/// Handing in, withdrawing and the sweep never set or change the grade.
pub proof fn lemma_grade_once(s: Submissions, a: Assignment, now: DateTime, first: i32, second: i32)
    requires
        s.marks_allotted is None,
    ensures
        s.spec_grade(first) is Ok,
        s.spec_grade(first)->Ok_0.marks_allotted == Some(first),
        s.spec_grade(first)->Ok_0.spec_grade(second) == Err::<Submissions, StateError>(
            StateError::AlreadyGraded,
        ),
        s.spec_grade(first)->Ok_0.marked(second).marks_allotted == Some(second),
        s.marked(second).marks_allotted == Some(second),
        s.stamped(true, a, now).marks_allotted is None,
        s.stamped(false, a, now).marks_allotted is None,
        s.swept(a, now).marks_allotted is None,
        s.spec_grade(first)->Ok_0.submitted == s.submitted,
{
}

/// The store follows the state machine: for a submission that the store
/// holds together with its assignment, handing in and withdrawing through
/// the store answer what the step of the state machine answers for the
/// stored row, and a success is written into the place of that row.
pub proof fn lemma_store_follows_state_machine(conn: DbConn, id: &String, now: DateTime)
    requires
        first(conn.submissions@, BySubmissionId(id)) is Some,
        first(
            conn.assignments@,
            ByAssignmentId(&first(conn.submissions@, BySubmissionId(id))->Some_0.assignment_id),
        ) is Some,
    ensures
        ({
            let row = first(conn.submissions@, BySubmissionId(id))->Some_0;
            let i = first_index(conn.submissions@, BySubmissionId(id))->Some_0;
            let a = first(conn.assignments@, ByAssignmentId(&row.assignment_id))->Some_0;
            &&& Submissions::toggle_result(conn, id, true, now) == match row.spec_submit(a, now) {
                Ok(next) => Ok::<Submissions, ErrorKind>(next),
                Err(e) => Err::<Submissions, ErrorKind>(ErrorKind::StateError(e)),
            }
            &&& Submissions::toggle_result(conn, id, false, now) == match row.spec_unsubmit(a, now) {
                Ok(next) => Ok::<Submissions, ErrorKind>(next),
                Err(e) => Err::<Submissions, ErrorKind>(ErrorKind::StateError(e)),
            }
            &&& row.spec_submit(a, now) matches Ok(next) ==> written(
                conn.submissions@,
                Submissions::toggle_result(conn, id, true, now),
            ) == conn.submissions@.update(i, next)
            &&& row.spec_unsubmit(a, now) matches Ok(next) ==> written(
                conn.submissions@,
                Submissions::toggle_result(conn, id, false, now),
            ) == conn.submissions@.update(i, next)
        }),
{
    let row = first(conn.submissions@, BySubmissionId(id))->Some_0;
    let i = first_index(conn.submissions@, BySubmissionId(id))->Some_0;
    crate::db::lemma_first(conn.submissions@, BySubmissionId(id), i);
    crate::db::lemma_first(conn.submissions@, BySubmissionId(&row.submission_id), i);
}

/// Grading through the store follows the state machine: for a submission
/// that the store holds, the first grading is refused with `AlreadyGraded`
/// exactly where the step of the state machine refuses it; and where a
/// mark is answered, the stored row becomes what that step gives.
pub proof fn lemma_store_grades_once(
    conn: DbConn,
    submission_id: &String,
    marker_id: &String,
    value: i32,
    mark_id: String,
    now: DateTime,
)
    requires
        first(conn.submissions@, BySubmissionId(submission_id)) is Some,
    ensures
        ({
            let row = first(conn.submissions@, BySubmissionId(submission_id))->Some_0;
            let i = first_index(conn.submissions@, BySubmissionId(submission_id))->Some_0;
            let r = Submissions::grade_result(conn, submission_id, marker_id, value, mark_id, now);
            &&& r == Err::<Mark, ErrorKind>(ErrorKind::StateError(StateError::AlreadyGraded))
                <==> row.spec_grade(value) is Err
            &&& r matches Ok(mark) ==> mark.value == value && Ok::<Submissions, StateError>(
                Submissions::graded_rows(conn.submissions@, submission_id, r)[i],
            ) == row.spec_grade(value)
        }),
{
    let i = first_index(conn.submissions@, BySubmissionId(submission_id))->Some_0;
    crate::db::lemma_first(conn.submissions@, BySubmissionId(submission_id), i);
}

/// One submission for each student and assignment: where the store holds
/// a submission of a student for an assignment, creating another for the
/// same two is refused, under whatever id and at whatever time, unless the
/// assignment itself is gone, which is refused as well.
pub proof fn lemma_one_submission_for_each_pair(
    conn: DbConn,
    new_data: FillableSubmissions,
    id: String,
    now: DateTime,
    i: int,
)
    requires
        0 <= i < conn.submissions@.len(),
        conn.submissions@[i].assignment_id@ == new_data.assignment_id@,
        conn.submissions@[i].user_id@ == new_data.user_id@,
    ensures
        Submissions::create_result(conn, new_data, id, now) is Err,
{
    match first(conn.assignments@, ByAssignmentId(&new_data.assignment_id)) {
        Some(a) => {
            let row = Submissions::seeded(new_data, id, a, now);
            assert(conn.submissions@[i].unique() =~= row.unique());
            crate::db::lemma_clash_is_refused(conn.submissions@, row, i);
        },
        None => {},
    }
}

/// What the sweep does and what it leaves alone: it keeps the number and
/// the order of the rows; it changes nothing of a row but the punctuality;
/// it leaves every row alone that is handed in or belongs to another
/// assignment; the rows that it touches get the punctuality of `now`,
/// which is "late" from the deadline on; and a second sweep at the same
/// instant changes nothing more.
pub proof fn lemma_sweep(rows: Seq<Submissions>, a: Assignment, now: DateTime, i: int)
    requires
        0 <= i < rows.len(),
    ensures
        swept_rows(rows, a, now).len() == rows.len(),
        swept_rows(rows, a, now)[i] == (Submissions {
            on_time: swept_rows(rows, a, now)[i].on_time,
            ..rows[i]
        }),
        rows[i].submitted || rows[i].assignment_id@ != a.assignment_id@ ==> swept_rows(rows, a, now)[i]
            == rows[i],
        !rows[i].submitted && rows[i].assignment_id@ == a.assignment_id@ ==> swept_rows(
            rows,
            a,
            now,
        )[i].on_time == a.spec_on_time(now),
        !rows[i].submitted && rows[i].assignment_id@ == a.assignment_id@ && a.spec_due(now.date)
            is Some && !now.before(a.spec_due(now.date)->Some_0) ==> swept_rows(
            rows,
            a,
            now,
        )[i].on_time == Some(false),
        swept_rows(swept_rows(rows, a, now), a, now) == swept_rows(rows, a, now),
{
    let once = swept_rows(rows, a, now);
    assert(swept_rows(once, a, now) =~= once);
}

/// Joining covers the classroom: after the submissions of a joining
/// student are seeded, every assignment of the classroom that had a key at
/// its place has a submission of the student, be it a new or an old one,
/// or else its key is the id of a submission, so that none could be made
/// under it.
pub proof fn lemma_seeding_covers(
    rows: Seq<Submissions>,
    assignments: Seq<Assignment>,
    class_id: Seq<char>,
    user_id: String,
    ids: Seq<String>,
    now: DateTime,
    n: nat,
    k: int,
)
    requires
        0 <= k < n,
        k < assignments.len(),
        k < ids.len(),
        in_class(assignments[k], class_id),
    ensures
        ({
            let after = seeded_rows(rows, assignments, class_id, user_id, ids, now, n);
            exists|j: int|
                0 <= j < after.len() && ((#[trigger] after[j]).submission_id@ == ids[k]@ || (
                after[j].assignment_id@ == assignments[k].assignment_id@ && after[j].user_id@
                    == user_id@))
        }),
    decreases n,
{
    let after = seeded_rows(rows, assignments, class_id, user_id, ids, now, n);
    let front = seeded_rows(rows, assignments, class_id, user_id, ids, now, (n - 1) as nat);
    if k == n - 1 {
        let row = Submissions::seeded(
            FillableSubmissions { assignment_id: assignments[k].assignment_id, user_id },
            ids[k],
            assignments[k],
            now,
        );
        if free_for(front, row) {
            assert(after[front.len() as int] == row);
        } else {
            let j = choose|j: int|
                0 <= j < front.len() && !(!crate::db::clash(#[trigger] front[j], row)
                    && !crate::db::clash(row, front[j]));
            let pair = seq![row.assignment_id@, row.user_id@];
            let other = seq![front[j].assignment_id@, front[j].user_id@];
            assert(pair[0] == row.assignment_id@ && pair[1] == row.user_id@);
            assert(other[0] == front[j].assignment_id@ && other[1] == front[j].user_id@);
            assert(after[j] == front[j]);
        }
    } else {
        lemma_seeding_covers(rows, assignments, class_id, user_id, ids, now, (n - 1) as nat, k);
        let j = choose|j: int|
            0 <= j < front.len() && ((#[trigger] front[j]).submission_id@ == ids[k]@ || (
            front[j].assignment_id@ == assignments[k].assignment_id@ && front[j].user_id@
                == user_id@));
        assert(after[j] == front[j]);
    }
}

} // verus!
