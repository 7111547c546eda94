use vstd::prelude::*;

use crate::clock::{local_now, DateTime};
use crate::db::{first, first_index, free_for, DbConn, Filter, Key, QueryError, Row};
use crate::errors::{ErrorKind, ThearningResult};
use crate::text;
use crate::users::models::{is_member, MemberOf};
use crate::utils::{decimal, generate_random_id, to_decimal};

verus! {

/// A classroom.
#[derive(Debug)]
pub struct Classroom {
    pub class_id: String,
    pub class_name: String,
    pub class_creator: Option<String>,
    pub class_description: Option<String>,
    pub class_image: Option<String>,
    pub section: String,
    pub created_at: DateTime,
}

/// What the form for a new classroom carries.
#[derive(Debug)]
pub struct NewClassroom {
    pub class_name: String,
    pub section: String,
    pub class_creator: Option<String>,
    pub class_description: Option<String>,
    pub file_name: Option<String>,
}

/// What the form for a change of a classroom carries.
#[derive(Debug)]
pub struct UpdatableClassroom {
    pub class_name: Option<String>,
    pub section: Option<String>,
    pub class_description: Option<String>,
    pub file_name: Option<String>,
}

/// A topic that assignments of a classroom are filed under.
#[derive(Debug)]
pub struct Topic {
    pub id: String,
    pub topic_name: String,
    pub classroom_id: String,
    pub created_at: DateTime,
}

/// What a request for a new topic carries.
#[derive(Debug)]
pub struct NewTopic {
    pub topic_name: String,
    pub classroom_id: String,
}

impl Clone for Classroom {
    fn clone(&self) -> (r: Self)
        ensures
            r == *self,
    {
        Classroom {
            class_id: self.class_id.clone(),
            class_name: self.class_name.clone(),
            class_creator: text::copy_of(&self.class_creator),
            class_description: text::copy_of(&self.class_description),
            class_image: text::copy_of(&self.class_image),
            section: self.section.clone(),
            created_at: self.created_at,
        }
    }
}

impl Clone for Topic {
    fn clone(&self) -> (r: Self)
        ensures
            r == *self,
    {
        Topic {
            id: self.id.clone(),
            topic_name: self.topic_name.clone(),
            classroom_id: self.classroom_id.clone(),
            created_at: self.created_at,
        }
    }
}

impl Row for Classroom {
    open spec fn key(&self) -> Key {
        Key::Text(self.class_id@)
    }

    open spec fn unique(&self) -> Option<Seq<Seq<char>>> {
        None
    }

    fn same_key(&self, other: &Self) -> (b: bool) {
        self.class_id == other.class_id
    }

    fn same_unique(&self, other: &Self) -> (b: bool) {
        false
    }

    fn duplicate(&self) -> (r: Self) {
        self.clone()
    }
}

impl Row for Topic {
    open spec fn key(&self) -> Key {
        Key::Text(self.id@)
    }

    open spec fn unique(&self) -> Option<Seq<Seq<char>>> {
        None
    }

    fn same_key(&self, other: &Self) -> (b: bool) {
        self.id == other.id
    }

    fn same_unique(&self, other: &Self) -> (b: bool) {
        false
    }

    fn duplicate(&self) -> (r: Self) {
        self.clone()
    }
}

/// The classroom with a given id.
pub struct ByClassId<'a>(pub &'a String);

impl<'a> Filter<Classroom> for ByClassId<'a> {
    open spec fn accepts(&self, row: &Classroom) -> bool {
        row.class_id@ == self.0@
    }

    fn test(&self, row: &Classroom) -> (b: bool) {
        row.class_id == *self.0
    }
}

impl Classroom {
    /// The classroom with the id `id`.
    pub fn find(id: &String, conn: &DbConn) -> (r: ThearningResult<Classroom>)
        ensures
            r == match first(conn.classes@, ByClassId(id)) {
                Some(found) => Ok::<Classroom, ErrorKind>(found),
                None => Err::<Classroom, ErrorKind>(ErrorKind::QueryError(QueryError::NotFound)),
            },
    {
        match conn.classes.find(&ByClassId(id)) {
            Some(found) => Ok(found),
            None => Err(ErrorKind::QueryError(QueryError::NotFound)),
        }
    }

    /// Whether the user `uid` takes part in the classroom `class_id`, be
    /// it as a student, as a teacher or as an admin.
    pub fn user_in_class(class_id: &String, uid: &String, conn: &DbConn) -> (b: bool)
        ensures
            b == is_member(conn.memberships@, class_id@, uid@),
    {
        match conn.memberships.position(&MemberOf { class_id, user_id: uid }) {
            Some(i) => {
                assert(conn.memberships@[i as int].class_id@ == class_id@);
                true
            },
            None => false,
        }
    }

    /// Stores `class` as created at `now`; `UniqueViolation` where its id
    /// is taken.
    pub fn create_at(class: Classroom, now: DateTime, conn: &mut DbConn) -> (r: ThearningResult<
        Classroom,
    >)
        ensures
            ({
                let row = Classroom { created_at: now, ..class };
                if free_for(old(conn).classes@, row) {
                    &&& r == Ok::<Classroom, ErrorKind>(row)
                    &&& final(conn).classes@ == old(conn).classes@.push(row)
                } else {
                    &&& r == Err::<Classroom, ErrorKind>(
                        ErrorKind::QueryError(QueryError::UniqueViolation),
                    )
                    &&& final(conn).classes@ == old(conn).classes@
                }
            }),
            *final(conn) == (DbConn { classes: final(conn).classes, ..*old(conn) }),
    {
        let row = Classroom { created_at: now, ..class };
        let copy = row.clone();
        match conn.classes.insert(row) {
            Ok(_) => Ok(copy),
            Err(e) => Err(ErrorKind::QueryError(e)),
        }
    }

    /// Stores `class` as created at the time of the wall clock.
    pub fn create(class: Classroom, conn: &mut DbConn) -> (r: ThearningResult<Classroom>)
        ensures
            match r {
                Ok(row) => {
                    &&& row == Classroom { created_at: row.created_at, ..class }
                    &&& row.created_at.wf()
                    &&& free_for(old(conn).classes@, row)
                    &&& final(conn).classes@ == old(conn).classes@.push(row)
                },
                Err(e) => {
                    &&& e == ErrorKind::QueryError(QueryError::UniqueViolation)
                    &&& !free_for(old(conn).classes@, class)
                    &&& final(conn).classes@ == old(conn).classes@
                },
            },
            *final(conn) == (DbConn { classes: final(conn).classes, ..*old(conn) }),
    {
        let now = local_now();
        Classroom::create_at(class, now, conn)
    }

    /// The classroom as `update` leaves it: name, creator, section, image
    /// and description are taken from `update`.
    pub open spec fn updated(self, update: Classroom) -> Classroom {
        Classroom {
            class_name: update.class_name,
            class_creator: update.class_creator,
            section: update.section,
            class_image: update.class_image,
            class_description: update.class_description,
            ..self
        }
    }

    /// Overwrites the stored classroom with this classroom's id by the
    /// data of `update`; `NotFound` where the store has no such classroom.
    pub fn update(&self, update: Classroom, conn: &mut DbConn) -> (r: ThearningResult<Classroom>)
        ensures
            match first_index(old(conn).classes@, ByClassId(&self.class_id)) {
                Some(i) => {
                    let row = old(conn).classes@[i].updated(update);
                    &&& r == Ok::<Classroom, ErrorKind>(row)
                    &&& final(conn).classes@ == old(conn).classes@.update(i, row)
                },
                None => {
                    &&& r == Err::<Classroom, ErrorKind>(ErrorKind::QueryError(QueryError::NotFound))
                    &&& final(conn).classes@ == old(conn).classes@
                },
            },
            *final(conn) == (DbConn { classes: final(conn).classes, ..*old(conn) }),
    {
        match conn.classes.position(&ByClassId(&self.class_id)) {
            Some(i) => {
                let current = conn.classes.get(i).clone();
                let row = Classroom {
                    class_name: update.class_name,
                    class_creator: update.class_creator,
                    section: update.section,
                    class_image: update.class_image,
                    class_description: update.class_description,
                    ..current
                };
                let copy = row.clone();
                conn.classes.replace(i, row);
                Ok(copy)
            },
            None => Err(ErrorKind::QueryError(QueryError::NotFound)),
        }
    }

    /// Takes the classroom with this classroom's id out of the store and
    /// hands the row back; `NotFound` where the store has none.
    pub fn delete(&self, conn: &mut DbConn) -> (r: ThearningResult<Classroom>)
        ensures
            match first_index(old(conn).classes@, ByClassId(&self.class_id)) {
                Some(i) => {
                    &&& r == Ok::<Classroom, ErrorKind>(old(conn).classes@[i])
                    &&& final(conn).classes@ == old(conn).classes@.remove(i)
                },
                None => {
                    &&& r == Err::<Classroom, ErrorKind>(ErrorKind::QueryError(QueryError::NotFound))
                    &&& final(conn).classes@ == old(conn).classes@
                },
            },
            *final(conn) == (DbConn { classes: final(conn).classes, ..*old(conn) }),
    {
        match conn.classes.position(&ByClassId(&self.class_id)) {
            Some(i) => Ok(conn.classes.remove(i)),
            None => Err(ErrorKind::QueryError(QueryError::NotFound)),
        }
    }

    /// Every classroom of the store.
    pub fn get_all(conn: &DbConn) -> (r: ThearningResult<Vec<Classroom>>)
        ensures
            r matches Ok(rows) && rows@ == conn.classes@,
    {
        Ok(conn.classes.rows())
    }
}

impl Topic {
    /// Stores the topic `topic` under the id `id` as created at `now`;
    /// `UniqueViolation` where the id is taken.
    pub fn create_with(topic: NewTopic, id: String, now: DateTime, connection: &mut DbConn) -> (r:
        Result<Topic, QueryError>)
        ensures
            ({
                let row = Topic {
                    id,
                    topic_name: topic.topic_name,
                    classroom_id: topic.classroom_id,
                    created_at: now,
                };
                if free_for(old(connection).topics@, row) {
                    &&& r == Ok::<Topic, QueryError>(row)
                    &&& final(connection).topics@ == old(connection).topics@.push(row)
                } else {
                    &&& r == Err::<Topic, QueryError>(QueryError::UniqueViolation)
                    &&& final(connection).topics@ == old(connection).topics@
                }
            }),
            *final(connection) == (DbConn { topics: final(connection).topics, ..*old(connection) }),
    {
        let row = Topic {
            id,
            topic_name: topic.topic_name,
            classroom_id: topic.classroom_id,
            created_at: now,
        };
        let copy = row.clone();
        match connection.topics.insert(row) {
            Ok(_) => Ok(copy),
            Err(e) => Err(e),
        }
    }

    /// Stores the topic `topic` under a random id as created at the time
    /// of the wall clock.
    pub fn create(topic: NewTopic, connection: &mut DbConn) -> (r: Result<Topic, QueryError>)
        ensures
            match r {
                Ok(row) => {
                    &&& row.topic_name == topic.topic_name
                    &&& row.classroom_id == topic.classroom_id
                    &&& row.created_at.wf()
                    &&& exists|n: nat| n <= i32::MAX && #[trigger] decimal(n) == row.id@
                    &&& free_for(old(connection).topics@, row)
                    &&& final(connection).topics@ == old(connection).topics@.push(row)
                },
                Err(e) => {
                    &&& e == QueryError::UniqueViolation
                    &&& final(connection).topics@ == old(connection).topics@
                },
            },
            *final(connection) == (DbConn { topics: final(connection).topics, ..*old(connection) }),
    {
        let n = generate_random_id();
        let id = to_decimal(n as u32);
        assert(decimal(n as nat) == id@);
        let now = local_now();
        Topic::create_with(topic, id, now, connection)
    }
}

} // verus!
