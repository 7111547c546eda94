use vstd::prelude::*;
use vstd::string::StringExecFns;

use crate::auth::{generate_token_at, hs512_token, subject, ApiKey, TOKEN_LIFETIME};
use crate::clock::DateTime;
use crate::db::{first, first_index, free_for, DbConn};
use crate::errors::Status;
use crate::files::models::{ByFileUrl, UploadType, UploadedFile};
use crate::files::routes::{process_image, Site, Upload};
use crate::router::{Endpoint, Router};
use crate::users::models::{
    bcrypt_verdict, ByUserId, InsertableUser, PasswordChange, ResponseUser, Role, UpdatableUser, User,
};

verus! {

/// What a login sends.
#[derive(Debug)]
pub struct Credentials {
    pub key: String,
    pub password: String,
}

/// What a successful login answers.
#[derive(Debug)]
pub struct Auth {
    pub status: u16,
    pub token: String,
}

/// What a successful registration or change of profile answers: the
/// status, the image that is to be written to the disk, if the form
/// carried one, and the path of the image that it replaces and that is to
/// be removed from the disk.
#[derive(Debug)]
pub struct Saved {
    pub status: u16,
    pub upload: Option<Upload>,
    pub stale_path: Option<String>,
}

/// What a request for the caller's profile answers.
#[derive(Debug)]
pub struct Profile {
    pub status: u16,
    pub data: ResponseUser,
}

/// The row of a user who registers with `user` at `now`, before the
/// password is hashed and the photo is set.
pub open spec fn registered(user: InsertableUser, photo: String, now: DateTime) -> User {
    User {
        user_id: user.user_id,
        fullname: user.fullname,
        profile_photo: photo,
        email: user.email,
        password: user.password,
        birth_place: user.birth_place,
        birth_date: user.birth_date,
        bio: user.bio,
        status: user.status,
        created_at: now,
    }
}

/// The address of the picture of users who uploaded none.
pub open spec fn placeholder(site: Site) -> Seq<char> {
    site.url@ + "/api/media/img/placeholder.png"@
}

/// Registers a user at `now`. `Conflict` where the status names no role
/// or the id or e-mail address is taken; `BadRequest` where the image
/// cannot be recorded. The stored password is a hash that the clear one
/// verifies against; the photo is the uploaded image or the placeholder.
pub fn create(user: InsertableUser, has_image: bool, site: &Site, now: DateTime, connection: &mut DbConn) -> (r:
    Result<Saved, Status>)
    ensures
        Role::parse(user.status@) is None ==> r == Err::<Saved, Status>(Status::Conflict),
        !free_for(old(connection).users@, registered(user, user.user_id, now)) ==> r == Err::<
            Saved,
            Status,
        >(Status::Conflict),
        match r {
            Ok(saved) => {
                let row = final(connection).users@.last();
                &&& saved.status == 200
                &&& saved.upload is Some == has_image
                &&& saved.stale_path is None
                &&& Role::parse(user.status@) is Some
                &&& final(connection).users@.len() == old(connection).users@.len() + 1
                &&& final(connection).users@.drop_last() == old(connection).users@
                &&& row == User {
                    password: row.password,
                    ..registered(user, row.profile_photo, now)
                }
                &&& bcrypt_verdict(user.password@, row.password@) == Some(true)
                &&& row.profile_photo@ == match saved.upload {
                    Some(upload) => upload.url@,
                    None => placeholder(*site),
                }
            },
            Err(s) => {
                &&& s == Status::Conflict || s == Status::BadRequest
                &&& s == Status::Conflict ==> final(connection).users@ == old(connection).users@
            },
        },
        *final(connection) == (DbConn {
            users: final(connection).users,
            files: final(connection).files,
            ..*old(connection)
        }),
{
    match Role::from_str(&user.status) {
        Ok(_) => {},
        Err(_) => { return Err(Status::Conflict); },
    }
    let file_name = match &user.file_name {
        Some(name) => name.clone(),
        None => String::from_str("file.jpg"),
    };
    let new_user = User {
        user_id: user.user_id,
        fullname: user.fullname,
        profile_photo: String::new(),
        email: user.email,
        password: user.password,
        birth_place: user.birth_place,
        birth_date: user.birth_date,
        bio: user.bio,
        status: user.status,
        created_at: now,
    };
    let ghost before = connection.users@;
    let created = match User::create(new_user, connection) {
        Ok(created) => created,
        Err(_) => { return Err(Status::Conflict); },
    };
    let i = connection.users.len() - 1;
    let (photo, upload) = if has_image {
        match process_image(UploadType::ProfilePhoto, &file_name, site, now, connection) {
            Ok(upload) => (upload.url.clone(), Some(upload)),
            Err(_) => { return Err(Status::BadRequest); },
        }
    } else {
        (site.url.clone().concat("/api/media/img/placeholder.png"), None)
    };
    connection.users.replace(i, User { profile_photo: photo, ..created });
    proof {
        assert(connection.users@.drop_last() =~= before);
    }
    Ok(Saved { status: 200, upload, stale_path: None })
}

/// Deletes the user `uid` on behalf of an admin. A caller who is no
/// admin, or is not in the store, is answered `Unauthorized`.
pub fn delete_user(key: &ApiKey, uid: String, conn: &mut DbConn) -> (r: Result<Status, Status>)
    ensures
        match first(old(conn).users@, ByUserId(&key.0)) {
            Some(user) if user.status@ == "admin"@ => {
                &&& r == Ok::<Status, Status>(Status::Success)
                &&& final(conn).users@ == match first_index(old(conn).users@, ByUserId(&uid)) {
                    Some(i) => old(conn).users@.remove(i),
                    None => old(conn).users@,
                }
            },
            _ => r == Err::<Status, Status>(Status::Unauthorized) && final(conn).users@ == old(conn).users@,
        },
        *final(conn) == (DbConn { users: final(conn).users, ..*old(conn) }),
{
    proof {
        lemma_admin_text();
    }
    match User::get_role(&key.0, conn) {
        Ok(Role::Admin) => {
            match conn.users.position(&ByUserId(&uid)) {
                Some(i) => {
                    conn.users.remove(i);
                },
                None => {},
            }
            Ok(Status::Success)
        },
        _ => Err(Status::Unauthorized),
    }
}

/// Of the three status texts only `admin` is read as the admin's role.
pub proof fn lemma_admin_text()
    ensures
        forall|s: Seq<char>| Role::parse(s) == Some(Role::Admin) <==> s == "admin"@,
{
    reveal_strlit("admin");
    reveal_strlit("teacher");
    reveal_strlit("student");
    assert("admin"@.len() == 5);
    assert("teacher"@.len() == 7);
    assert("student"@.len() == 7);
}

/// Logs a user in at the instant `now`, in nanoseconds since the epoch:
/// checks the password and issues a token. `NotFound` where no user has
/// the key as id or the password is not the user's;
/// `InternalServerError` where the user's status names no role or the
/// token cannot be made.
pub fn login(credentials: Credentials, secret: &String, now: u64, connection: &DbConn) -> (r: Result<
    Auth,
    Status,
>)
    ensures
        match first(connection.users@, ByUserId(&credentials.key)) {
            Some(user) if bcrypt_verdict(credentials.password@, user.password@) == Some(true) => match (
                Role::parse(user.status@),
                subject(*connection, &credentials.key),
            ) {
                (Some(role), Ok(sub)) => match hs512_token(
                    sub@,
                    now,
                    role.name(),
                    (now + TOKEN_LIFETIME) as u64,
                    secret@,
                ) {
                    Some(token) if now + TOKEN_LIFETIME <= u64::MAX => r matches Ok(auth) && auth.status
                        == 200 && auth.token@ == token,
                    _ => r == Err::<Auth, Status>(Status::InternalServerError),
                },
                _ => r == Err::<Auth, Status>(Status::InternalServerError),
            },
            _ => r == Err::<Auth, Status>(Status::NotFound),
        },
{
    let key = credentials.key;
    let password = credentials.password;
    match User::get_by_key(&key, password, connection) {
        None => Err(Status::NotFound),
        Some(_) => match User::get_role(&key, connection) {
            Ok(k) => match generate_token_at(&key, &k, now, secret, connection) {
                Ok(v) => Ok(Auth { status: 200, token: v }),
                Err(_) => Err(Status::InternalServerError),
            },
            Err(_) => Err(Status::InternalServerError),
        },
    }
}

/// The profile after the form `data` is applied, with `photo` as the picture.
pub open spec fn revised(user: User, data: UpdatableUser, photo: String) -> User {
    User {
        fullname: data.fullname,
        profile_photo: photo,
        email: data.email,
        birth_place: data.birth_place,
        birth_date: data.birth_date,
        bio: data.bio,
        ..user
    }
}

/// Changes the caller's profile at `now`. `NotFound` where the caller is
/// not in the store or, with a new image, the old one is not a file of the
/// store; `BadRequest` where the image cannot be recorded;
/// `UnprocessableEntity` where the new e-mail address is taken.
pub fn update_user(key: &ApiKey, data: UpdatableUser, has_image: bool, site: &Site, now: DateTime, conn: &mut DbConn) -> (r:
    Result<Saved, Status>)
    ensures
        first(old(conn).users@, ByUserId(&key.0)) is None ==> r == Err::<Saved, Status>(
            Status::NotFound,
        ),
        match r {
            Ok(saved) => {
                &&& first_index(old(conn).users@, ByUserId(&key.0)) matches Some(i)
                &&& saved.status == 200
                &&& saved.upload is Some == has_image
                &&& saved.stale_path is Some == has_image
                &&& has_image ==> (first(
                    old(conn).files@,
                    ByFileUrl(&old(conn).users@[i].profile_photo),
                ) matches Some(file) && saved.stale_path == Some(file.file_path))
                &&& final(conn).users@ == old(conn).users@.update(
                    i,
                    revised(old(conn).users@[i], data, final(conn).users@[i].profile_photo),
                )
                &&& final(conn).users@[i].profile_photo@ == match saved.upload {
                    Some(upload) => upload.url@,
                    None => old(conn).users@[i].profile_photo@,
                }
            },
            Err(s) => {
                &&& s == Status::NotFound || s == Status::BadRequest || s
                    == Status::UnprocessableEntity
                &&& final(conn).users@ == old(conn).users@
            },
        },
        *final(conn) == (DbConn { users: final(conn).users, files: final(conn).files, ..*old(conn) }),
{
    let user = match User::find_user(&key.0, conn) {
        Ok(u) => u,
        Err(_) => { return Err(Status::NotFound); },
    };
    let file_name = match &data.file_name {
        Some(name) => name.clone(),
        None => String::from_str("filename.jpg"),
    };
    let (photo, upload, stale_path) = if has_image {
        let old_file = match UploadedFile::get_from_url(&user.profile_photo, conn) {
            Ok(file) => file,
            Err(_) => { return Err(Status::NotFound); },
        };
        match process_image(UploadType::ProfilePhoto, &file_name, site, now, conn) {
            Ok(upload) => (upload.url.clone(), Some(upload), Some(old_file.file_path)),
            Err(_) => { return Err(Status::BadRequest); },
        }
    } else {
        (user.profile_photo.clone(), None, None)
    };
    let updated_user = User {
        user_id: key.0.clone(),
        fullname: data.fullname,
        profile_photo: photo,
        email: data.email,
        password: user.password.clone(),
        birth_place: data.birth_place,
        birth_date: data.birth_date,
        bio: data.bio,
        status: user.status.clone(),
        created_at: now,
    };
    match user.update(updated_user, conn) {
        Ok(_) => Ok(Saved { status: 200, upload, stale_path }),
        Err(_) => Err(Status::UnprocessableEntity),
    }
}

/// Replaces the caller's password. `NotFound` where the caller is not in
/// the store; `Unauthorized` where the old password is not the caller's.
pub fn password_change(key: &ApiKey, data: PasswordChange, conn: &mut DbConn) -> (r: Result<
    Status,
    Status,
>)
    ensures
        match first_index(old(conn).users@, ByUserId(&key.0)) {
            None => r == Err::<Status, Status>(Status::NotFound) && final(conn).users@ == old(conn).users@,
            Some(i) => {
                let user = old(conn).users@[i];
                &&& r is Ok ==> r == Ok::<Status, Status>(Status::Success) && bcrypt_verdict(
                    data.password@,
                    user.password@,
                ) == Some(true) && exists|password: String|
                    bcrypt_verdict(data.new_password@, password@) == Some(true) && final(conn).users@
                        == old(conn).users@.update(i, #[trigger] user.with_password(password))
                &&& r is Err ==> r == Err::<Status, Status>(Status::Unauthorized) && final(conn).users@ == old(conn).users@
                &&& bcrypt_verdict(data.password@, user.password@) != Some(true) ==> r is Err
            },
        },
        *final(conn) == (DbConn { users: final(conn).users, ..*old(conn) }),
{
    let user = match User::find_user(&key.0, conn) {
        Ok(v) => v,
        Err(_) => { return Err(Status::NotFound); },
    };
    proof {
        crate::db::lemma_first(conn.users@, ByUserId(&user.user_id), first_index(conn.users@, ByUserId(&key.0))->Some_0);
    }
    match user.update_password(data, conn) {
        Ok(_) => Ok(Status::Success),
        Err(_) => Err(Status::Unauthorized),
    }
}

/// The caller's profile, without the password.
pub fn info(key: &ApiKey, connection: &DbConn) -> (r: Result<Profile, Status>)
    ensures
        r == match first(connection.users@, ByUserId(&key.0)) {
            Some(user) => Ok::<Profile, Status>(Profile { status: 200, data: ResponseUser::of(user) }),
            None => Err::<Profile, Status>(Status::NotFound),
        },
{
    match User::find_user(&key.0, connection) {
        Ok(user) => Ok(Profile { status: 200, data: ResponseUser::from(user) }),
        Err(_) => Err(Status::NotFound),
    }
}

/// The routes of this module.
pub open spec fn routes() -> Seq<Endpoint> {
    seq![
        Endpoint::CreateUser,
        Endpoint::Info,
        Endpoint::DeleteUser,
        Endpoint::PasswordChange,
        Endpoint::UpdateUser,
        Endpoint::Login,
    ]
}

/// Mounts the routes of this module.
pub fn mount(rocket: Router) -> (r: Router)
    ensures
        r.routes@ == rocket.routes@ + routes(),
        r.catchers@ == rocket.catchers@,
        r.file_servers@ == rocket.file_servers@,
{
    let mut routes: Vec<Endpoint> = Vec::new();
    routes.push(Endpoint::CreateUser);
    routes.push(Endpoint::Info);
    routes.push(Endpoint::DeleteUser);
    routes.push(Endpoint::PasswordChange);
    routes.push(Endpoint::UpdateUser);
    routes.push(Endpoint::Login);
    rocket.mount(routes)
}

} // verus!
