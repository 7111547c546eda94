use vstd::prelude::*;
use vstd::string::StringExecFns;

use crate::announcements::models::{Announcement, ToClass};
use crate::assignments::models::{Assignment, OfClass};
use crate::auth::{ApiKey, ClassGuard};
use crate::classes::models::{ByClassId, Classroom, NewClassroom, NewTopic, Topic};
use crate::classes::utils::{generate_class_code, get_class_codes, is_code, is_taken, taken};
use crate::clock::DateTime;
use crate::db::{all, first, first_index, free_for, DbConn, Filter, Row};
use crate::errors::{Status, ThearningResult};
use crate::files::models::{UploadType, UploadedFile};
use crate::files::routes::{image_path, image_url, process_image, process_image_with, Site, Upload};
use crate::router::{Endpoint, Router};
use crate::submissions::models::{
    in_class, seeded_in_class, seeded_rows, seeded_with, FillableSubmissions, Submissions,
};
use crate::users::models::{
    is_member, ByUserId, InClassAs, Membership, OfUserAs, ResponseUser, Role, User,
};
use crate::utils::{generate_key, generate_random_id, is_key, to_decimal};

verus! {

/// What creating a classroom answers: its code, and the picture that is
/// to be written to the disk, if the form carried one.
#[derive(Debug)]
pub struct Founded {
    pub class_id: String,
    pub upload: Option<Upload>,
}

/// What a classroom shows to its members.
#[derive(Debug)]
pub struct ClassView {
    pub class: Classroom,
    pub students: Vec<ResponseUser>,
    pub admins: Vec<ResponseUser>,
    pub teachers: Vec<ResponseUser>,
    pub assignments: Vec<Assignment>,
    pub announcements: Vec<Announcement>,
}

/// The classrooms whose id is that of one of the memberships.
pub struct JoinedIn<'a>(pub &'a Vec<Membership>);

impl<'a> Filter<Classroom> for JoinedIn<'a> {
    open spec fn accepts(&self, row: &Classroom) -> bool {
        exists|i: int| 0 <= i < self.0@.len() && (#[trigger] self.0@[i]).class_id@ == row.class_id@
    }

    fn test(&self, row: &Classroom) -> (b: bool) {
        let mut i: usize = 0;
        while i < self.0.len()
            invariant
                i <= self.0@.len(),
                forall|j: int| 0 <= j < i ==> (#[trigger] self.0@[j]).class_id@ != row.class_id@,
            decreases self.0@.len() - i,
        {
            if self.0[i].class_id == row.class_id {
                return true;
            }
            i += 1;
        }
        false
    }
}

/// Joins the user `key` to the classroom `class_id` in the role `role` at
/// `now`, under a random row id. A user who is in the classroom already is
/// refused with `UniqueViolation`, and so is a row id that happens to be
/// taken; nothing changes then.
pub fn create_classuser(key: &String, class_id: &String, role: Role, now: DateTime, conn: &mut DbConn) -> (r:
    ThearningResult<Membership>)
    ensures
        match r {
            Ok(row) => {
                &&& row == Membership {
                    id: row.id,
                    user_id: *key,
                    class_id: *class_id,
                    role,
                    created_at: now,
                }
                &&& 0 <= row.id
                &&& !is_member(old(conn).memberships@, class_id@, key@)
                &&& final(conn).memberships@ == old(conn).memberships@.push(row)
            },
            Err(e) => {
                &&& e == crate::errors::ErrorKind::QueryError(crate::db::QueryError::UniqueViolation)
                &&& final(conn).memberships@ == old(conn).memberships@
            },
        },
        is_member(old(conn).memberships@, class_id@, key@) ==> r is Err,
        *final(conn) == (DbConn { memberships: final(conn).memberships, ..*old(conn) }),
{
    let id = generate_random_id();
    Membership::create_with(key, class_id, role, id, now, conn)
}

/// The address of the picture of classrooms for which none was uploaded.
pub open spec fn placeholder(site: Site) -> Seq<char> {
    site.url@ + "/api/media/img/placeholder.png"@
}

/// The name under which the picture of a classroom is kept.
pub open spec fn picture_name(new_class: NewClassroom) -> Seq<char> {
    match new_class.file_name {
        Some(name) => name@,
        None => "filename.jpg"@,
    }
}

/// A file of `files` has the id `file_id`.
pub open spec fn file_id_taken(files: Seq<UploadedFile>, file_id: Seq<char>) -> bool {
    exists|j: int| 0 <= j < files.len() && (#[trigger] files[j]).file_id@ == file_id
}

/// Classrooms, memberships and files are in `after` as they are in `before`.
pub open spec fn stays(before: DbConn, after: DbConn) -> bool {
    after.classes@ == before.classes@ && after.memberships@ == before.memberships@ && after.files@
        == before.files@
}

/// What founding comes to, where the classroom gets the code `code`, the
/// founder's membership the row id `member_id` and the picture the file id
/// `file_id`: `r` is the answer and `after` the store that the founding of
/// a classroom by `caller` at `now` makes of the store `before`.
/// `NotFound` where the caller is not stored; `BadRequest` where the
/// caller's status names no role; `Forbidden` for a student; `BadRequest`
/// where the code is taken; nothing changes in these cases. Else the
/// classroom is stored, and the caller becomes its member unless the
/// membership clashes with one that is there. With a picture whose file
/// id is taken the answer is `BadRequest` and the classroom stays without
/// picture; else the answer is the code, the picture is recorded, and the
/// classroom shows it, or the placeholder where there is none.
pub open spec fn founds(
    before: DbConn,
    after: DbConn,
    r: Result<Founded, Status>,
    caller: &String,
    new_class: NewClassroom,
    has_image: bool,
    code: String,
    member_id: i32,
    file_id: String,
    site: Site,
    now: DateTime,
) -> bool {
    let unchanged = stays(before, after);
    match first(before.users@, ByUserId(caller)) {
        None => r == Err::<Founded, Status>(Status::NotFound) && unchanged,
        Some(user) => match Role::parse(user.status@) {
            None => r == Err::<Founded, Status>(Status::BadRequest) && unchanged,
            Some(Role::Student) => r == Err::<Founded, Status>(Status::Forbidden) && unchanged,
            Some(role) => {
                let class = Classroom {
                    class_id: code,
                    class_name: new_class.class_name,
                    class_creator: Some(*caller),
                    class_description: new_class.class_description,
                    class_image: None,
                    section: new_class.section,
                    created_at: now,
                };
                let member = Membership {
                    id: member_id,
                    user_id: *caller,
                    class_id: code,
                    role,
                    created_at: now,
                };
                if !free_for(before.classes@, class) {
                    r == Err::<Founded, Status>(Status::BadRequest) && unchanged
                } else {
                    &&& after.memberships@ == if free_for(before.memberships@, member) {
                        before.memberships@.push(member)
                    } else {
                        before.memberships@
                    }
                    &&& if has_image && file_id_taken(before.files@, file_id@) {
                        &&& r == Err::<Founded, Status>(Status::BadRequest)
                        &&& after.classes@ == before.classes@.push(class)
                        &&& after.files@ == before.files@
                    } else {
                        let stored = after.classes@.last();
                        &&& r matches Ok(founded)
                        &&& founded.class_id == code
                        &&& founded.upload is Some == has_image
                        &&& after.classes@.len() == before.classes@.len() + 1
                        &&& after.classes@.drop_last() == before.classes@
                        &&& stored == Classroom { class_image: stored.class_image, ..class }
                        &&& stored.class_image matches Some(image)
                        &&& image@ == if has_image {
                            image_url(site, "classes"@, file_id@, picture_name(new_class))
                        } else {
                            placeholder(site)
                        }
                        &&& match founded.upload {
                            Some(upload) => {
                                let file = after.files@.last();
                                &&& upload.url@ == image_url(
                                    site,
                                    "classes"@,
                                    file_id@,
                                    picture_name(new_class),
                                )
                                &&& upload.path@ == image_path(
                                    site,
                                    "classes"@,
                                    file_id@,
                                    picture_name(new_class),
                                )
                                &&& after.files@.len() == before.files@.len() + 1
                                &&& after.files@.drop_last() == before.files@
                                &&& file.file_id == file_id
                                &&& file.filename@ == picture_name(new_class)
                                &&& file.file_path == upload.path
                                &&& file.file_url == upload.url
                                &&& file.filetype@ == "image"@
                                &&& file.created_at == now
                            },
                            None => after.files@ == before.files@,
                        }
                    }
                }
            },
        },
    }
}

/// Founds a classroom at `now` on behalf of a teacher or an admin, who
/// becomes its first member, under the code `code`, with the row id
/// `member_id` for the membership and the file id `file_id` for the
/// picture. So a teacher or an admin founds a classroom with success
/// exactly where the code is free and, with a picture, the file id is.
pub fn create_classroom_with(
    key: &ApiKey,
    new_class: NewClassroom,
    has_image: bool,
    code: String,
    member_id: i32,
    file_id: String,
    site: &Site,
    now: DateTime,
    connection: &mut DbConn,
) -> (r: Result<Founded, Status>)
    ensures
        founds(
            *old(connection),
            *final(connection),
            r,
            &key.0,
            new_class,
            has_image,
            code,
            member_id,
            file_id,
            *site,
            now,
        ),
        first(old(connection).users@, ByUserId(&key.0)) matches Some(user) && user.staff() ==> (r is Ok
            <==> (forall|j: int|
            0 <= j < old(connection).classes@.len() ==> (#[trigger] old(connection).classes@[j]).class_id@
                != code@) && !(has_image && file_id_taken(old(connection).files@, file_id@))),
        *final(connection) == (DbConn {
            classes: final(connection).classes,
            memberships: final(connection).memberships,
            files: final(connection).files,
            ..*old(connection)
        }),
{
    let user = match User::find_user(&key.0, connection) {
        Ok(user) => user,
        Err(_) => { return Err(Status::NotFound); },
    };
    let role = match Role::from_str(&user.status) {
        Ok(Role::Student) => { return Err(Status::Forbidden); },
        Ok(role) => role,
        Err(_) => { return Err(Status::BadRequest); },
    };
    let file_name = match &new_class.file_name {
        Some(name) => name.clone(),
        None => String::from_str("filename.jpg"),
    };
    let class = Classroom {
        class_id: code.clone(),
        class_name: new_class.class_name,
        class_creator: Some(key.0.clone()),
        class_description: new_class.class_description,
        class_image: None,
        section: new_class.section,
        created_at: now,
    };
    let ghost before = connection.classes@;
    let ghost files = connection.files@;
    proof {
        if forall|j: int| 0 <= j < before.len() ==> (#[trigger] before[j]).class_id@ != code@ {
            assert(free_for(before, class)) by {
                assert forall|j: int| 0 <= j < before.len() implies !crate::db::clash(
                    #[trigger] before[j],
                    class,
                ) && !crate::db::clash(class, before[j]) by {
                    assert(before[j].class_id@ != code@);
                }
            }
        } else {
            let j = choose|j: int| 0 <= j < before.len() && (#[trigger] before[j]).class_id@ == code@;
            crate::db::lemma_clash_is_refused(before, class, j);
        }
    }
    let created = match Classroom::create_at(class, now, connection) {
        Ok(created) => created,
        Err(_) => { return Err(Status::BadRequest); },
    };
    let i = connection.classes.len() - 1;
    let _ = Membership::create_with(&key.0, &created.class_id, role, member_id, now, connection);
    let (image, upload) = if has_image {
        match process_image_with(UploadType::ClassPicture, &file_name, file_id, site, now, connection) {
            Ok(upload) => (upload.url.clone(), Some(upload)),
            Err(_) => {
                proof {
                    assert(file_id_taken(files, file_id@));
                }
                return Err(Status::BadRequest);
            },
        }
    } else {
        (site.url.clone().concat("/api/media/img/placeholder.png"), None)
    };
    connection.classes.replace(i, Classroom { class_image: Some(image), ..created });
    proof {
        assert(connection.classes@.drop_last() =~= before);
        if has_image {
            assert(!file_id_taken(files, file_id@)) by {
                if file_id_taken(files, file_id@) {
                    let j = choose|j: int|
                        0 <= j < files.len() && (#[trigger] files[j]).file_id@ == file_id@;
                    assert(files[j].file_id@ != file_id@);
                }
            }
        }
    }
    Ok(Founded { class_id: code, upload })
}

/// Founds a classroom at `now` on behalf of a teacher or an admin, who
/// becomes its first member, under a random code that no classroom has,
/// with a random row id for the membership and a random file id for the
/// picture. `NotFound` where the caller is not in the store; `Forbidden`
/// for a student; `BadRequest` where the caller's status names no role or
/// the picture cannot be recorded; `InternalServerError`, with nothing
/// changed, where no free code is found.
pub fn create_classroom(
    key: &ApiKey,
    new_class: NewClassroom,
    has_image: bool,
    site: &Site,
    now: DateTime,
    connection: &mut DbConn,
) -> (r: Result<Founded, Status>)
    ensures
        match first(old(connection).users@, ByUserId(&key.0)) {
            None => r == Err::<Founded, Status>(Status::NotFound) && stays(
                *old(connection),
                *final(connection),
            ),
            Some(user) => match Role::parse(user.status@) {
                None => r == Err::<Founded, Status>(Status::BadRequest) && stays(
                    *old(connection),
                    *final(connection),
                ),
                Some(Role::Student) => r == Err::<Founded, Status>(Status::Forbidden) && stays(
                    *old(connection),
                    *final(connection),
                ),
                Some(_) => (exists|code: String, member_id: i32, file_id: String|
                    {
                        &&& is_code(code@)
                        &&& forall|j: int|
                            0 <= j < old(connection).classes@.len() ==> (#[trigger] old(connection).classes@[j]).class_id@ != code@
                        &&& 0 <= member_id
                        &&& #[trigger] founds(
                            *old(connection),
                            *final(connection),
                            r,
                            &key.0,
                            new_class,
                            has_image,
                            code,
                            member_id,
                            file_id,
                            *site,
                            now,
                        )
                    }) || (r == Err::<Founded, Status>(Status::InternalServerError) && stays(
                    *old(connection),
                    *final(connection),
                )),
            },
        },
        first(old(connection).users@, ByUserId(&key.0)) matches Some(user) && user.staff() && !has_image
            && r is Err ==> r == Err::<Founded, Status>(Status::InternalServerError),
        r matches Ok(founded) ==> is_code(founded.class_id@) && founded.upload is Some == has_image,
        *final(connection) == (DbConn {
            classes: final(connection).classes,
            memberships: final(connection).memberships,
            files: final(connection).files,
            ..*old(connection)
        }),
{
    let user = match User::find_user(&key.0, connection) {
        Ok(user) => user,
        Err(_) => { return Err(Status::NotFound); },
    };
    match Role::from_str(&user.status) {
        Ok(Role::Student) => { return Err(Status::Forbidden); },
        Ok(_) => {},
        Err(_) => { return Err(Status::BadRequest); },
    };
    let codes = match get_class_codes(connection) {
        Ok(codes) => codes,
        Err(_) => { return Err(Status::InternalServerError); },
    };
    let code = match generate_class_code(&codes) {
        Some(code) => code,
        None => { return Err(Status::InternalServerError); },
    };
    proof {
        assert forall|j: int| 0 <= j < connection.classes@.len() implies (
        #[trigger] connection.classes@[j]).class_id@ != code@ by {
            assert(codes@[j] == connection.classes@[j].class_id);
        }
    }
    let member_id = generate_random_id();
    let file_id = to_decimal(generate_random_id() as u32);
    create_classroom_with(key, new_class, has_image, code, member_id, file_id, site, now, connection)
}

/// What joining comes to, where the membership gets the row id
/// `member_id` and the submissions get the keys `ids`: `r` is the answer
/// and `after` the store that the joining of `caller` to the classroom
/// `class_id` at `now` makes of the store `before`. `NotFound` where there
/// is no such classroom; `BadRequest` where the caller is not stored or has
/// a status that names no role; `Conflict` where the membership clashes
/// with one that is there, as it does where the caller is a member
/// already; nothing changes in these cases. Else the membership is stored
/// in the caller's role, and a student gets the submissions for the
/// assignments of the classroom.
pub open spec fn joins(
    before: DbConn,
    after: DbConn,
    r: Result<Status, Status>,
    caller: &String,
    class_id: &String,
    member_id: i32,
    ids: Seq<String>,
    now: DateTime,
) -> bool {
    let unchanged = after.memberships@ == before.memberships@ && after.submissions@
        == before.submissions@;
    if first(before.classes@, ByClassId(class_id)) is None {
        r == Err::<Status, Status>(Status::NotFound) && unchanged
    } else {
        match first(before.users@, ByUserId(caller)) {
            Some(user) if Role::parse(user.status@) is Some => {
                let role = Role::parse(user.status@)->Some_0;
                let row = Membership {
                    id: member_id,
                    user_id: *caller,
                    class_id: *class_id,
                    role,
                    created_at: now,
                };
                if free_for(before.memberships@, row) {
                    &&& r == Ok::<Status, Status>(Status::Success)
                    &&& after.memberships@ == before.memberships@.push(row)
                    &&& after.submissions@ == if role == Role::Student {
                        seeded_rows(
                            before.submissions@,
                            before.assignments@,
                            class_id@,
                            *caller,
                            ids,
                            now,
                            before.assignments@.len(),
                        )
                    } else {
                        before.submissions@
                    }
                } else {
                    r == Err::<Status, Status>(Status::Conflict) && unchanged
                }
            },
            _ => r == Err::<Status, Status>(Status::BadRequest) && unchanged,
        }
    }
}

/// Joins the caller to the classroom `class_id` at `now`, in the caller's
/// role and under the row id `member_id`. A student who joins gets a
/// submission for every assignment of the classroom, under the key that
/// `ids` holds at the place of the assignment in its table. So a caller
/// who is in the store with a status that names a role joins a classroom
/// of the store with success exactly where the caller is no member of it
/// yet and the row id is free.
pub fn join_with(
    key: &ApiKey,
    class_id: String,
    member_id: i32,
    ids: &Vec<String>,
    now: DateTime,
    connection: &mut DbConn,
) -> (r: Result<Status, Status>)
    ensures
        joins(*old(connection), *final(connection), r, &key.0, &class_id, member_id, ids@, now),
        final(connection).submissions@.len() >= old(connection).submissions@.len(),
        final(connection).submissions@.take(old(connection).submissions@.len() as int) == old(connection).submissions@,
        forall|j: int|
            old(connection).submissions@.len() <= j < final(connection).submissions@.len()
                ==> seeded_with(
                #[trigger] final(connection).submissions@[j],
                old(connection).assignments@,
                class_id@,
                key.0,
                ids@,
                now,
            ),
        *final(connection) == (DbConn {
            memberships: final(connection).memberships,
            submissions: final(connection).submissions,
            ..*old(connection)
        }),
{
    proof {
        assert(connection.submissions@.take(connection.submissions@.len() as int)
            =~= connection.submissions@);
    }
    match connection.classes.position(&ByClassId(&class_id)) {
        Some(_) => {},
        None => { return Err(Status::NotFound); },
    }
    let role = match User::get_role(&key.0, connection) {
        Ok(role) => role,
        Err(_) => { return Err(Status::BadRequest); },
    };
    let member = match Membership::create_with(&key.0, &class_id, role, member_id, now, connection) {
        Ok(member) => member,
        Err(_) => { return Err(Status::Conflict); },
    };
    match role {
        Role::Student => {
            Submissions::seed_for_student_with(&class_id, &member.user_id, ids, now, connection);
        },
        _ => {},
    }
    Ok(Status::Success)
}

/// Joins the caller to the classroom `class_id` at `now`, in the caller's
/// role. A student who joins gets a submission for every assignment of the
/// classroom. `NotFound` where there is no such classroom; `BadRequest`
/// where the caller is not in the store or the caller's status names no
/// role; `Conflict` where the caller is in the classroom already (or the
/// row id drawn is taken). Nothing changes in these cases.
pub fn join(key: &ApiKey, class_id: String, now: DateTime, connection: &mut DbConn) -> (r: Result<
    Status,
    Status,
>)
    ensures
        exists|member_id: i32, ids: Seq<String>|
            {
                &&& 0 <= member_id
                &&& ids.len() == old(connection).assignments@.len()
                &&& forall|k: int| 0 <= k < ids.len() ==> is_key((#[trigger] ids[k])@)
                &&& #[trigger] joins(
                    *old(connection),
                    *final(connection),
                    r,
                    &key.0,
                    &class_id,
                    member_id,
                    ids,
                    now,
                )
            },
        if first(old(connection).classes@, ByClassId(&class_id)) is None {
            r == Err::<Status, Status>(Status::NotFound)
        } else {
            match first(old(connection).users@, ByUserId(&key.0)) {
                Some(user) if Role::parse(user.status@) is Some => {
                    &&& is_member(old(connection).memberships@, class_id@, key.0@) ==> r == Err::<
                        Status,
                        Status,
                    >(Status::Conflict)
                    &&& r is Err ==> r == Err::<Status, Status>(Status::Conflict)
                    &&& r is Ok ==> {
                        let row = final(connection).memberships@.last();
                        &&& r == Ok::<Status, Status>(Status::Success)
                        &&& !is_member(old(connection).memberships@, class_id@, key.0@)
                        &&& final(connection).memberships@ == old(connection).memberships@.push(row)
                        &&& row.user_id == key.0
                        &&& row.class_id == class_id
                        &&& Some(row.role) == Role::parse(user.status@)
                        &&& row.created_at == now
                        &&& row.role != Role::Student ==> final(connection).submissions@ == old(connection).submissions@
                    }
                },
                _ => r == Err::<Status, Status>(Status::BadRequest),
            }
        },
        r is Err ==> final(connection).memberships@ == old(connection).memberships@ && final(connection).submissions@ == old(connection).submissions@,
        final(connection).submissions@.len() >= old(connection).submissions@.len(),
        final(connection).submissions@.take(old(connection).submissions@.len() as int) == old(connection).submissions@,
        forall|j: int|
            old(connection).submissions@.len() <= j < final(connection).submissions@.len()
                ==> seeded_in_class(
                #[trigger] final(connection).submissions@[j],
                old(connection).assignments@,
                class_id@,
                key.0@,
                now,
            ),
        *final(connection) == (DbConn {
            memberships: final(connection).memberships,
            submissions: final(connection).submissions,
            ..*old(connection)
        }),
{
    let member_id = generate_random_id();
    let n = connection.assignments.len();
    let mut ids: Vec<String> = Vec::new();
    while ids.len() < n
        invariant
            ids@.len() <= n,
            forall|k: int| 0 <= k < ids@.len() ==> is_key((#[trigger] ids@[k])@),
        decreases n - ids@.len(),
    {
        ids.push(generate_key());
    }
    let ghost wanted = class_id;
    let r = join_with(key, class_id, member_id, &ids, now, connection);
    proof {
        let assignments = old(connection).assignments@;
        assert(joins(*old(connection), *connection, r, &key.0, &wanted, member_id, ids@, now));
        if first(old(connection).classes@, ByClassId(&wanted)) is Some && is_member(
            old(connection).memberships@,
            wanted@,
            key.0@,
        ) {
            match first(old(connection).users@, ByUserId(&key.0)) {
                Some(user) => {
                    if Role::parse(user.status@) is Some {
                        let row = Membership {
                            id: member_id,
                            user_id: key.0,
                            class_id: wanted,
                            role: Role::parse(user.status@)->Some_0,
                            created_at: now,
                        };
                        let i = choose|i: int|
                            0 <= i < old(connection).memberships@.len() && #[trigger] old(connection).memberships@[i].class_id@ == wanted@ && old(connection).memberships@[i].user_id@ == key.0@;
                        assert(old(connection).memberships@[i].unique() =~= row.unique());
                        crate::db::lemma_clash_is_refused(old(connection).memberships@, row, i);
                    }
                },
                None => {},
            }
        }
        if r is Ok {
            let row = connection.memberships@.last();
            let user = first(old(connection).users@, ByUserId(&key.0))->Some_0;
            let made = Membership {
                id: member_id,
                user_id: key.0,
                class_id: wanted,
                role: Role::parse(user.status@)->Some_0,
                created_at: now,
            };
            assert(row == made);
            if is_member(old(connection).memberships@, wanted@, key.0@) {
                let i = choose|i: int|
                    0 <= i < old(connection).memberships@.len() && #[trigger] old(connection).memberships@[i].class_id@ == wanted@ && old(connection).memberships@[i].user_id@
                        == key.0@;
                assert(old(connection).memberships@[i].unique() =~= made.unique());
                crate::db::lemma_clash_is_refused(old(connection).memberships@, made, i);
            }
        }
        assert forall|j: int|
            old(connection).submissions@.len() <= j < connection.submissions@.len() implies seeded_in_class(
            #[trigger] connection.submissions@[j],
            assignments,
            wanted@,
            key.0@,
            now,
        ) by {
            let row = connection.submissions@[j];
            assert(seeded_with(row, assignments, wanted@, key.0, ids@, now));
            let k = choose|k: int|
                0 <= k < assignments.len() && k < ids@.len() && in_class(assignments[k], wanted@) && row
                    == #[trigger] Submissions::seeded(
                    FillableSubmissions { assignment_id: assignments[k].assignment_id, user_id: key.0 },
                    ids@[k],
                    assignments[k],
                    now,
                );
            assert(is_key(ids@[k]@));
            assert(row == Submissions::seeded(
                FillableSubmissions {
                    assignment_id: assignments[k].assignment_id,
                    user_id: row.user_id,
                },
                row.submission_id,
                assignments[k],
                now,
            ));
        }
    }
    r
}

/// The classrooms that the caller has joined in the caller's role.
/// `NotFound` where the caller is not in the store; `BadRequest` where the
/// caller's status names no role.
pub fn classrooms(key: &ApiKey, connection: &DbConn) -> (r: Result<Vec<Classroom>, Status>)
    ensures
        match first(connection.users@, ByUserId(&key.0)) {
            None => r == Err::<Vec<Classroom>, Status>(Status::NotFound),
            Some(user) => match Role::parse(user.status@) {
                None => r == Err::<Vec<Classroom>, Status>(Status::BadRequest),
                Some(role) => r matches Ok(rows) && exists|joined: Vec<Membership>|
                    joined@ == all(connection.memberships@, OfUserAs(&key.0, role)) && rows@
                        == #[trigger] all(connection.classes@, JoinedIn(&joined)),
            },
        },
{
    let role = match User::get_role(&key.0, connection) {
        Ok(role) => role,
        Err(crate::errors::ErrorKind::InvalidValue) => { return Err(Status::BadRequest); },
        Err(_) => { return Err(Status::NotFound); },
    };
    let joined = connection.memberships.select(&OfUserAs(&key.0, role));
    let rows = connection.classes.select(&JoinedIn(&joined));
    Ok(rows)
}

/// Files a new topic on behalf of a teacher or an admin of the classroom.
/// `NotFound` where the caller is not in the store; `BadRequest` where the
/// caller's status names no role; `Forbidden` for a student; `Conflict`
/// where the id drawn for the topic is taken.
pub fn topic(key: &ClassGuard, new_topic: NewTopic, connection: &mut DbConn) -> (r: Result<
    Status,
    Status,
>)
    ensures
        match first(old(connection).users@, ByUserId(&key.0)) {
            None => r == Err::<Status, Status>(Status::NotFound),
            Some(user) => match Role::parse(user.status@) {
                None => r == Err::<Status, Status>(Status::BadRequest),
                Some(Role::Student) => r == Err::<Status, Status>(Status::Forbidden),
                Some(_) => match r {
                    Ok(s) => {
                        let row = final(connection).topics@.last();
                        &&& s == Status::Success
                        &&& final(connection).topics@ == old(connection).topics@.push(row)
                        &&& row.topic_name == new_topic.topic_name
                        &&& row.classroom_id == new_topic.classroom_id
                    },
                    Err(s) => s == Status::Conflict,
                },
            },
        },
        r is Err ==> final(connection).topics@ == old(connection).topics@,
        *final(connection) == (DbConn { topics: final(connection).topics, ..*old(connection) }),
{
    match User::get_role(&key.0, connection) {
        Ok(Role::Student) => Err(Status::Forbidden),
        Ok(_) => match Topic::create(new_topic, connection) {
            Ok(_) => Ok(Status::Success),
            Err(_) => Err(Status::Conflict),
        },
        Err(crate::errors::ErrorKind::InvalidValue) => Err(Status::BadRequest),
        Err(_) => Err(Status::NotFound),
    }
}

/// The users behind the memberships `members`, without their passwords and
/// in the order of the memberships; `None` where one of them is not in the
/// store.
pub fn users_of(members: &Vec<Membership>, conn: &DbConn) -> (r: Option<Vec<ResponseUser>>)
    ensures
        r is None <==> exists|i: int|
            0 <= i < members@.len() && first(conn.users@, ByUserId(&(#[trigger] members@[i]).user_id))
                is None,
        r matches Some(users) ==> shown_members(users@, members@, conn.users@),
{
    let mut users: Vec<ResponseUser> = Vec::new();
    let mut i: usize = 0;
    while i < members.len()
        invariant
            i <= members@.len(),
            users@.len() == i,
            forall|j: int|
                0 <= j < i ==> first(conn.users@, ByUserId(&(#[trigger] members@[j]).user_id))
                    is Some,
            forall|j: int| 0 <= j < i ==> shows(#[trigger] users@[j], members@[j], conn.users@),
        decreases members@.len() - i,
    {
        match User::find_user(&members[i].user_id, conn) {
            Ok(user) => {
                users.push(ResponseUser::from(user));
            },
            Err(_) => {
                return None;
            },
        }
        i += 1;
    }
    Some(users)
}

/// `shown` are the users behind the memberships `members`, one for one and
/// in their order, without their passwords.
pub open spec fn shown_members(shown: Seq<ResponseUser>, members: Seq<Membership>, users: Seq<User>) -> bool {
    shown.len() == members.len() && forall|i: int|
        0 <= i < shown.len() ==> shows(#[trigger] shown[i], members[i], users)
}

/// `shown` is the user behind the membership `member`, without the password.
pub open spec fn shows(shown: ResponseUser, member: Membership, users: Seq<User>) -> bool {
    first(users, ByUserId(&member.user_id)) matches Some(user) && shown == ResponseUser::of(user)
}

/// Shows the classroom `class_id` to a member: the classroom, its members
/// by role, its assignments and its announcements. `NotFound` where there
/// is no such classroom or a member is not in the store.
pub fn class(key: &ClassGuard, class_id: String, conn: &DbConn) -> (r: Result<ClassView, Status>)
    ensures
        first(conn.classes@, ByClassId(&class_id)) is None ==> r == Err::<ClassView, Status>(
            Status::NotFound,
        ),
        match r {
            Ok(view) => {
                &&& first(conn.classes@, ByClassId(&class_id)) == Some(view.class)
                &&& shown_members(
                    view.students@,
                    all(conn.memberships@, InClassAs(&class_id, Role::Student)),
                    conn.users@,
                )
                &&& shown_members(
                    view.admins@,
                    all(conn.memberships@, InClassAs(&class_id, Role::Admin)),
                    conn.users@,
                )
                &&& shown_members(
                    view.teachers@,
                    all(conn.memberships@, InClassAs(&class_id, Role::Teacher)),
                    conn.users@,
                )
                &&& view.assignments@ == all(conn.assignments@, OfClass(&view.class.class_id))
                &&& view.announcements@ == all(conn.announcements@, ToClass(&class_id))
            },
            Err(s) => s == Status::NotFound,
        },
{
    let class = match Classroom::find(&class_id, conn) {
        Ok(c) => c,
        Err(_) => { return Err(Status::NotFound); },
    };
    let students = match users_of(&conn.memberships.select(&InClassAs(&class_id, Role::Student)), conn) {
        Some(users) => users,
        None => { return Err(Status::NotFound); },
    };
    let admins = match users_of(&conn.memberships.select(&InClassAs(&class_id, Role::Admin)), conn) {
        Some(users) => users,
        None => { return Err(Status::NotFound); },
    };
    let teachers = match users_of(&conn.memberships.select(&InClassAs(&class_id, Role::Teacher)), conn) {
        Some(users) => users,
        None => { return Err(Status::NotFound); },
    };
    let assignments = conn.assignments.select(&OfClass(&class.class_id));
    let announcements = conn.announcements.select(&ToClass(&class_id));
    Ok(ClassView { class, students, admins, teachers, assignments, announcements })
}

/// Changes the classroom `class_id` at `now` on behalf of an admin, who
/// becomes its creator. `NotFound` where the caller or the classroom is
/// not in the store; `BadRequest` where the picture cannot be recorded or
/// the caller's status names no role; `Forbidden` for a caller who is no
/// admin.
pub fn update_class(
    key: &ApiKey,
    class_id: String,
    new_class: NewClassroom,
    has_image: bool,
    site: &Site,
    now: DateTime,
    conn: &mut DbConn,
) -> (r: Result<Founded, Status>)
    ensures
        match (
            first(old(conn).users@, ByUserId(&key.0)),
            first_index(old(conn).classes@, ByClassId(&class_id)),
        ) {
            (Some(user), Some(i)) => match r {
                Ok(saved) => {
                    let class = old(conn).classes@[i];
                    &&& user.status@ == "admin"@
                    &&& saved.upload is Some == has_image
                    &&& final(conn).classes@ == old(conn).classes@.update(
                        i,
                        Classroom {
                            class_name: new_class.class_name,
                            class_creator: Some(user.user_id),
                            section: new_class.section,
                            class_image: final(conn).classes@[i].class_image,
                            class_description: new_class.class_description,
                            ..class
                        },
                    )
                    &&& match saved.upload {
                        Some(upload) => final(conn).classes@[i].class_image matches Some(image)
                            && image@ == upload.url@,
                        None => final(conn).classes@[i].class_image == class.class_image,
                    }
                },
                Err(s) => {
                    &&& s == Status::BadRequest || s == Status::Forbidden
                    &&& final(conn).classes@ == old(conn).classes@
                    &&& !has_image ==> (s == Status::Forbidden <==> Role::parse(user.status@) is Some
                        && user.status@ != "admin"@)
                },
            },
            _ => r == Err::<Founded, Status>(Status::NotFound) && final(conn).classes@ == old(conn).classes@,
        },
        *final(conn) == (DbConn { classes: final(conn).classes, files: final(conn).files, ..*old(conn) }),
{
    proof {
        crate::users::routes::lemma_admin_text();
    }
    let user = match User::find_user(&key.0, conn) {
        Ok(user) => user,
        Err(_) => { return Err(Status::NotFound); },
    };
    let class = match Classroom::find(&class_id, conn) {
        Ok(c) => c,
        Err(_) => { return Err(Status::NotFound); },
    };
    let file_name = match &new_class.file_name {
        Some(name) => name.clone(),
        None => String::from_str("filename.jpg"),
    };
    let (image, upload) = if has_image {
        match process_image(UploadType::ClassPicture, &file_name, site, now, conn) {
            Ok(upload) => (Some(upload.url.clone()), Some(upload)),
            Err(_) => { return Err(Status::BadRequest); },
        }
    } else {
        (crate::text::copy_of(&class.class_image), None)
    };
    let update_ = Classroom {
        class_id: class_id.clone(),
        class_name: new_class.class_name,
        class_creator: Some(user.user_id.clone()),
        class_description: new_class.class_description,
        class_image: image,
        section: new_class.section,
        created_at: class.created_at,
    };
    match Role::from_str(&user.status) {
        Ok(Role::Admin) => {
            proof {
                let i = first_index(conn.classes@, ByClassId(&class_id))->Some_0;
                crate::db::lemma_first(conn.classes@, ByClassId(&class_id), i);
                crate::db::lemma_first(conn.classes@, ByClassId(&class.class_id), i);
            }
            match class.update(update_, conn) {
                Ok(_) => Ok(Founded { class_id, upload }),
                Err(_) => Err(Status::NotFound),
            }
        },
        Ok(_) => Err(Status::Forbidden),
        Err(_) => Err(Status::BadRequest),
    }
}

/// The routes of this module.
pub open spec fn routes() -> Seq<Endpoint> {
    seq![
        Endpoint::CreateClassroom,
        Endpoint::Join,
        Endpoint::Classrooms,
        Endpoint::Topic,
        Endpoint::Class,
        Endpoint::Draft,
        Endpoint::UpdateAssignment,
        Endpoint::DeleteAssignment,
        Endpoint::StudentsAssignment,
        Endpoint::TeachersAssignment,
        Endpoint::SubmitSubmission,
        Endpoint::UnsubmitSubmission,
        Endpoint::TeachersSubmission,
        Endpoint::AllTeachersAssignment,
        Endpoint::PostComment,
        Endpoint::PostPrivateComment,
        Endpoint::DeleteComment,
        Endpoint::DeletePrivateComment,
        Endpoint::DraftAnnouncement,
        Endpoint::UpdateAnnouncement,
        Endpoint::DeleteAnnouncement,
        Endpoint::GetAnnouncements,
        Endpoint::GetAnnouncement,
        Endpoint::MarkSubmission,
        Endpoint::UpdateMark,
        Endpoint::UpdateClass,
    ]
}

/// Mounts the routes of the classrooms, with those of their assignments,
/// submissions, comments and announcements.
pub fn mount(rocket: Router) -> (r: Router)
    ensures
        r.routes@ == rocket.routes@ + routes(),
        r.catchers@ == rocket.catchers@,
        r.file_servers@ == rocket.file_servers@,
{
    let mut routes: Vec<Endpoint> = Vec::new();
    routes.push(Endpoint::CreateClassroom);
    routes.push(Endpoint::Join);
    routes.push(Endpoint::Classrooms);
    routes.push(Endpoint::Topic);
    routes.push(Endpoint::Class);
    routes.push(Endpoint::Draft);
    routes.push(Endpoint::UpdateAssignment);
    routes.push(Endpoint::DeleteAssignment);
    routes.push(Endpoint::StudentsAssignment);
    routes.push(Endpoint::TeachersAssignment);
    routes.push(Endpoint::SubmitSubmission);
    routes.push(Endpoint::UnsubmitSubmission);
    routes.push(Endpoint::TeachersSubmission);
    routes.push(Endpoint::AllTeachersAssignment);
    routes.push(Endpoint::PostComment);
    routes.push(Endpoint::PostPrivateComment);
    routes.push(Endpoint::DeleteComment);
    routes.push(Endpoint::DeletePrivateComment);
    routes.push(Endpoint::DraftAnnouncement);
    routes.push(Endpoint::UpdateAnnouncement);
    routes.push(Endpoint::DeleteAnnouncement);
    routes.push(Endpoint::GetAnnouncements);
    routes.push(Endpoint::GetAnnouncement);
    routes.push(Endpoint::MarkSubmission);
    routes.push(Endpoint::UpdateMark);
    routes.push(Endpoint::UpdateClass);
    proof {
        assert(routes@ =~= self::routes());
    }
    rocket.mount(routes)
}

} // verus!
