use vstd::prelude::*;

use crate::clock::{local_now, Date, DateTime, Time};
use crate::db::{all, first, first_index, free_for, DbConn, Filter, Key, QueryError, Row};
use crate::errors::{ErrorKind, ThearningResult};
use crate::text;
use crate::utils::{decimal, generate_random_id, to_decimal};

verus! {

/// A piece of work set for a classroom.
#[derive(Debug)]
pub struct Assignment {
    pub assignment_id: String,
    pub assignment_name: Option<String>,
    pub class_id: Option<String>,
    pub topic_id: Option<String>,
    pub due_date: Option<Date>,
    pub due_time: Option<Time>,
    pub posted_date: Date,
    pub instructions: Option<String>,
    pub total_marks: Option<i32>,
    pub created_at: DateTime,
    pub creator: Option<String>,
    pub draft: bool,
}

/// What a teacher fills in to publish an assignment.
#[derive(Debug)]
pub struct FillableAssignments {
    pub assignment_name: Option<String>,
    pub class_id: Option<String>,
    pub topic_id: Option<String>,
    pub due_date: Option<Date>,
    pub due_time: Option<Time>,
    pub instructions: Option<String>,
    pub creator: Option<String>,
}

/// A request to publish the assignment `id`.
#[derive(Debug)]
pub struct AssignmentData {
    pub id: String,
    pub assignment: FillableAssignments,
}

impl Clone for Assignment {
    fn clone(&self) -> (r: Self)
        ensures
            r == *self,
    {
        Assignment {
            assignment_id: self.assignment_id.clone(),
            assignment_name: text::copy_of(&self.assignment_name),
            class_id: text::copy_of(&self.class_id),
            topic_id: text::copy_of(&self.topic_id),
            due_date: self.due_date,
            due_time: self.due_time,
            posted_date: self.posted_date,
            instructions: text::copy_of(&self.instructions),
            total_marks: self.total_marks,
            created_at: self.created_at,
            creator: text::copy_of(&self.creator),
            draft: self.draft,
        }
    }
}

impl Row for Assignment {
    open spec fn key(&self) -> Key {
        Key::Text(self.assignment_id@)
    }

    open spec fn unique(&self) -> Option<Seq<Seq<char>>> {
        None
    }

    fn same_key(&self, other: &Self) -> (b: bool) {
        self.assignment_id == other.assignment_id
    }

    fn same_unique(&self, other: &Self) -> (b: bool) {
        false
    }

    fn duplicate(&self) -> (r: Self) {
        self.clone()
    }
}

/// The assignment with a given id.
pub struct ByAssignmentId<'a>(pub &'a String);

impl<'a> Filter<Assignment> for ByAssignmentId<'a> {
    open spec fn accepts(&self, row: &Assignment) -> bool {
        row.assignment_id@ == self.0@
    }

    fn test(&self, row: &Assignment) -> (b: bool) {
        row.assignment_id == *self.0
    }
}

/// The assignments of one classroom.
pub struct OfClass<'a>(pub &'a String);

impl<'a> Filter<Assignment> for OfClass<'a> {
    open spec fn accepts(&self, row: &Assignment) -> bool {
        row.class_id matches Some(class_id) && class_id@ == self.0@
    }

    fn test(&self, row: &Assignment) -> (b: bool) {
        text::both_are(&row.class_id, self.0)
    }
}

/// The instant at which work is due: the due date at the due time; with a
/// date alone, the last second of that day; with a time alone, that time
/// today; with neither, there is no deadline.
pub open spec fn due_instant(due_date: Option<Date>, due_time: Option<Time>, today: Date) -> Option<
    DateTime,
> {
    match (due_date, due_time) {
        (Some(a), Some(b)) => Some(DateTime { date: a, time: b }),
        (Some(a), None) => Some(DateTime { date: a, time: Time::spec_end_of_day() }),
        (None, Some(b)) => Some(DateTime { date: today, time: b }),
        (None, None) => None,
    }
}

/// Whether work handed in at `submitted` is on time: unknown without a
/// deadline, else whether it came strictly before the deadline.
pub open spec fn punctual(submitted: DateTime, due: Option<DateTime>) -> Option<bool> {
    match due {
        Some(d) => Some(submitted.before(d)),
        None => None,
    }
}

/// Whether work handed in at `submitted` is on time.
pub fn on_time(submitted: DateTime, due: Option<DateTime>) -> (r: Option<bool>)
    ensures
        r == punctual(submitted, due),
{
    match due {
        Some(d) => Some(submitted.is_before(&d)),
        None => None,
    }
}

impl Assignment {
    /// The deadline of the assignment, as seen on the day `today`.
    pub open spec fn spec_due(&self, today: Date) -> Option<DateTime> {
        due_instant(self.due_date, self.due_time, today)
    }

    /// Whether work handed in at `now` for this assignment is on time.
    pub open spec fn spec_on_time(&self, now: DateTime) -> Option<bool> {
        punctual(now, self.spec_due(now.date))
    }

    /// The deadline of the assignment, as seen on the day `today`.
    pub fn due(&self, today: Date) -> (r: Option<DateTime>)
        ensures
            r == self.spec_due(today),
    {
        match (self.due_date, self.due_time) {
            (Some(a), Some(b)) => Some(DateTime::new(a, b)),
            (Some(a), None) => Some(DateTime::new(a, Time::end_of_day())),
            (None, Some(b)) => Some(DateTime::new(today, b)),
            (None, None) => None,
        }
    }

    /// Whether work handed in at `now` for this assignment is on time.
    pub fn on_time_at(&self, now: DateTime) -> (r: Option<bool>)
        ensures
            r == self.spec_on_time(now),
    {
        on_time(now, self.due(now.date))
    }

    /// An empty draft with the id `id`, posted at `now`.
    pub open spec fn blank(id: String, now: DateTime) -> Assignment {
        Assignment {
            assignment_id: id,
            assignment_name: None,
            class_id: None,
            topic_id: None,
            due_date: None,
            due_time: None,
            posted_date: now.date,
            instructions: None,
            total_marks: None,
            created_at: now,
            creator: None,
            draft: true,
        }
    }

    /// An empty draft with the id `id`, posted at `now`.
    pub fn default_with(id: String, now: DateTime) -> (r: Assignment)
        ensures
            r == Assignment::blank(id, now),
    {
        Assignment {
            assignment_id: id,
            assignment_name: None,
            class_id: None,
            topic_id: None,
            due_date: None,
            due_time: None,
            posted_date: now.date,
            instructions: None,
            total_marks: None,
            created_at: now,
            creator: None,
            draft: true,
        }
    }

    /// An empty draft with a random id, posted at the time of the wall clock.
    pub fn default() -> (r: Assignment)
        ensures
            exists|n: nat|
                n <= i32::MAX && #[trigger] decimal(n) == r.assignment_id@ && r == Assignment::blank(
                    r.assignment_id,
                    r.created_at,
                ),
            r.created_at.wf(),
    {
        let n = generate_random_id();
        let id = to_decimal(n as u32);
        assert(decimal(n as nat) == id@);
        Assignment::default_with(id, local_now())
    }

    /// The assignment with id `id`; `NotFound` where there is none.
    pub fn get_by_id(id: &String, conn: &DbConn) -> (r: Result<Assignment, QueryError>)
        ensures
            r == match first(conn.assignments@, ByAssignmentId(id)) {
                Some(found) => Ok::<Assignment, QueryError>(found),
                None => Err::<Assignment, QueryError>(QueryError::NotFound),
            },
    {
        match conn.assignments.find(&ByAssignmentId(id)) {
            Some(found) => Ok(found),
            None => Err(QueryError::NotFound),
        }
    }

    /// Stores this assignment and hands the stored row back;
    /// `UniqueViolation` where its id is taken.
    pub fn draft(&self, conn: &mut DbConn) -> (r: Result<Assignment, QueryError>)
        ensures
            if free_for(old(conn).assignments@, *self) {
                &&& r == Ok::<Assignment, QueryError>(*self)
                &&& final(conn).assignments@ == old(conn).assignments@.push(*self)
            } else {
                &&& r == Err::<Assignment, QueryError>(QueryError::UniqueViolation)
                &&& final(conn).assignments@ == old(conn).assignments@
            },
            *final(conn) == (DbConn { assignments: final(conn).assignments, ..*old(conn) }),
    {
        match conn.assignments.insert(self.clone()) {
            Ok(_) => Ok(self.clone()),
            Err(e) => Err(e),
        }
    }

    /// The assignments of the classroom `class_id`.
    pub fn load(class_id: &String, conn: &DbConn) -> (r: ThearningResult<Vec<Assignment>>)
        ensures
            r matches Ok(rows) && rows@ == all(conn.assignments@, OfClass(class_id)),
    {
        Ok(conn.assignments.select(&OfClass(class_id)))
    }

    /// The assignment as publishing leaves it: the fields of `update` are
    /// taken over and the assignment is a draft no longer.
    pub open spec fn published(self, update: FillableAssignments) -> Assignment {
        Assignment {
            assignment_name: update.assignment_name,
            due_date: update.due_date,
            due_time: update.due_time,
            topic_id: update.topic_id,
            class_id: update.class_id,
            instructions: update.instructions,
            creator: update.creator,
            draft: false,
            ..self
        }
    }

    /// Publishes the stored assignment with this assignment's id: fills it
    /// in from `update` and clears the draft flag. `NotFound` where the
    /// store has no such assignment.
    pub fn update(&self, update: FillableAssignments, conn: &mut DbConn) -> (r: ThearningResult<
        Assignment,
    >)
        ensures
            match first_index(old(conn).assignments@, ByAssignmentId(&self.assignment_id)) {
                Some(i) => {
                    let row = old(conn).assignments@[i].published(update);
                    &&& r == Ok::<Assignment, ErrorKind>(row)
                    &&& final(conn).assignments@ == old(conn).assignments@.update(i, row)
                },
                None => {
                    &&& r == Err::<Assignment, ErrorKind>(ErrorKind::QueryError(QueryError::NotFound))
                    &&& final(conn).assignments@ == old(conn).assignments@
                },
            },
            *final(conn) == (DbConn { assignments: final(conn).assignments, ..*old(conn) }),
    {
        match conn.assignments.position(&ByAssignmentId(&self.assignment_id)) {
            Some(i) => {
                let current = conn.assignments.get(i).clone();
                let row = Assignment {
                    assignment_name: update.assignment_name,
                    due_date: update.due_date,
                    due_time: update.due_time,
                    topic_id: update.topic_id,
                    class_id: update.class_id,
                    instructions: update.instructions,
                    creator: update.creator,
                    draft: false,
                    ..current
                };
                let copy = row.clone();
                conn.assignments.replace(i, row);
                Ok(copy)
            },
            None => Err(ErrorKind::QueryError(QueryError::NotFound)),
        }
    }

    /// Takes the assignment with this assignment's id out of the store and
    /// hands the row back; `NotFound` where the store has none.
    pub fn delete(&self, conn: &mut DbConn) -> (r: ThearningResult<Assignment>)
        ensures
            match first_index(old(conn).assignments@, ByAssignmentId(&self.assignment_id)) {
                Some(i) => {
                    &&& r == Ok::<Assignment, ErrorKind>(old(conn).assignments@[i])
                    &&& final(conn).assignments@ == old(conn).assignments@.remove(i)
                },
                None => {
                    &&& r == Err::<Assignment, ErrorKind>(ErrorKind::QueryError(QueryError::NotFound))
                    &&& final(conn).assignments@ == old(conn).assignments@
                },
            },
            *final(conn) == (DbConn { assignments: final(conn).assignments, ..*old(conn) }),
    {
        match conn.assignments.position(&ByAssignmentId(&self.assignment_id)) {
            Some(i) => Ok(conn.assignments.remove(i)),
            None => Err(ErrorKind::QueryError(QueryError::NotFound)),
        }
    }
}

/// The punctuality of a hand-in depends on nothing but the due date, the
/// due time and the instant of the hand-in: the same three always give the
/// same flag, and without a due date and a due time there is never one.
pub proof fn lemma_on_time_is_a_function(
    a: Assignment,
    b: Assignment,
    now: DateTime,
)
    requires
        a.due_date == b.due_date,
        a.due_time == b.due_time,
    ensures
        a.spec_on_time(now) == b.spec_on_time(now),
        a.due_date is None && a.due_time is None ==> a.spec_on_time(now) is None,
        a.due_date is Some || a.due_time is Some ==> a.spec_on_time(now) is Some,
{
}

} // verus!
