use vstd::prelude::*;
use vstd::string::StringExecFns;

use crate::clock::{Date, DateTime};
use crate::clock::local_now;
use crate::db::{all, first, first_index, free_for, DbConn, Filter, Key, QueryError, Row};
use crate::utils::generate_random_id;
use crate::errors::{ErrorKind, ThearningResult};
use crate::text;

verus! {

/// The part a user plays in the whole service.
#[derive(Clone, Copy, Debug, PartialEq, Eq, Structural)]
pub enum Role {
    Student,
    Teacher,
    Admin,
}

impl Role {
    /// The role that a status text names, if it names one.
    pub open spec fn parse(s: Seq<char>) -> Option<Role> {
        if s == "admin"@ {
            Some(Role::Admin)
        } else if s == "teacher"@ {
            Some(Role::Teacher)
        } else if s == "student"@ {
            Some(Role::Student)
        } else {
            None
        }
    }

    /// The status text of the role.
    pub open spec fn name(self) -> Seq<char> {
        match self {
            Role::Teacher => "teacher"@,
            Role::Admin => "admin"@,
            Role::Student => "student"@,
        }
    }

    /// Reads a role from its status text: `admin`, `teacher` or `student`.
    /// Any other text is refused with `InvalidValue`.
    pub fn from_str(role: &String) -> (r: ThearningResult<Role>)
        ensures
            r == match Role::parse(role@) {
                Some(found) => Ok::<Role, ErrorKind>(found),
                None => Err::<Role, ErrorKind>(ErrorKind::InvalidValue),
            },
    {
        if text::is(role, "admin") {
            Ok(Role::Admin)
        } else if text::is(role, "teacher") {
            Ok(Role::Teacher)
        } else if text::is(role, "student") {
            Ok(Role::Student)
        } else {
            Err(ErrorKind::InvalidValue)
        }
    }

    /// The status text of the role.
    pub fn to_string(&self) -> (s: String)
        ensures
            s@ == self.name(),
    {
        match self {
            Role::Teacher => String::from_str("teacher"),
            Role::Admin => String::from_str("admin"),
            Role::Student => String::from_str("student"),
        }
    }
}

/// The three status texts differ, so a role is read back from its own text.
pub proof fn lemma_role_round_trip(role: Role)
    ensures
        Role::parse(role.name()) == Some(role),
{
    reveal_strlit("admin");
    reveal_strlit("teacher");
    reveal_strlit("student");
    assert("admin"@.len() == 5);
    assert("teacher"@.len() == 7);
    assert("student"@[0] == 's');
    assert("teacher"@[0] == 't');
}

/// A registered user.
#[derive(Debug)]
pub struct User {
    pub user_id: String,
    pub fullname: String,
    pub profile_photo: String,
    pub email: String,
    pub password: String,
    pub birth_place: String,
    pub birth_date: Date,
    pub bio: String,
    pub status: String,
    pub created_at: DateTime,
}

/// What a registration form carries.
#[derive(Debug)]
pub struct InsertableUser {
    pub user_id: String,
    pub fullname: String,
    pub email: String,
    pub password: String,
    pub birth_place: String,
    pub birth_date: Date,
    pub bio: String,
    pub status: String,
    pub file_name: Option<String>,
}

/// What a profile form carries.
#[derive(Debug)]
pub struct UpdatableUser {
    pub fullname: String,
    pub email: String,
    pub birth_place: String,
    pub birth_date: Date,
    pub bio: String,
    pub file_name: Option<String>,
}

/// A request to replace a password.
#[derive(Debug)]
pub struct PasswordChange {
    pub user_id: String,
    pub password: String,
    pub new_password: String,
}

/// A user as a response shows it: everything but the password.
#[derive(Debug)]
pub struct ResponseUser {
    pub user_id: String,
    pub fullname: String,
    pub profile_photo: String,
    pub email: String,
    pub birth_place: String,
    pub birth_date: Date,
    pub bio: String,
    pub status: String,
    pub created_at: DateTime,
}

impl Clone for User {
    fn clone(&self) -> (r: Self)
        ensures
            r == *self,
    {
        User {
            user_id: self.user_id.clone(),
            fullname: self.fullname.clone(),
            profile_photo: self.profile_photo.clone(),
            email: self.email.clone(),
            password: self.password.clone(),
            birth_place: self.birth_place.clone(),
            birth_date: self.birth_date,
            bio: self.bio.clone(),
            status: self.status.clone(),
            created_at: self.created_at,
        }
    }
}

impl Row for User {
    open spec fn key(&self) -> Key {
        Key::Text(self.user_id@)
    }

    open spec fn unique(&self) -> Option<Seq<Seq<char>>> {
        Some(seq![self.email@])
    }

    fn same_key(&self, other: &Self) -> (b: bool) {
        self.user_id == other.user_id
    }

    fn same_unique(&self, other: &Self) -> (b: bool) {
        proof {
            assert(seq![self.email@][0] == self.email@);
            assert(seq![other.email@][0] == other.email@);
        }
        self.email == other.email
    }

    fn duplicate(&self) -> (r: Self) {
        self.clone()
    }
}

/// The users with a given id.
pub struct ByUserId<'a>(pub &'a String);

impl<'a> Filter<User> for ByUserId<'a> {
    open spec fn accepts(&self, row: &User) -> bool {
        row.user_id@ == self.0@
    }

    fn test(&self, row: &User) -> (b: bool) {
        row.user_id == *self.0
    }
}

/// The users with a given e-mail address.
pub struct ByEmail<'a>(pub &'a String);

impl<'a> Filter<User> for ByEmail<'a> {
    open spec fn accepts(&self, row: &User) -> bool {
        row.email@ == self.0@
    }

    fn test(&self, row: &User) -> (b: bool) {
        row.email == *self.0
    }
}

impl ResponseUser {
    /// The user without the password.
    pub open spec fn of(data: User) -> ResponseUser {
        ResponseUser {
            user_id: data.user_id,
            fullname: data.fullname,
            profile_photo: data.profile_photo,
            email: data.email,
            birth_place: data.birth_place,
            birth_date: data.birth_date,
            bio: data.bio,
            status: data.status,
            created_at: data.created_at,
        }
    }

    /// The user without the password.
    pub fn from(data: User) -> (r: ResponseUser)
        ensures
            r == ResponseUser::of(data),
    {
        ResponseUser {
            user_id: data.user_id,
            fullname: data.fullname,
            profile_photo: data.profile_photo,
            email: data.email,
            birth_place: data.birth_place,
            birth_date: data.birth_date,
            bio: data.bio,
            status: data.status,
            created_at: data.created_at,
        }
    }

    /// Every user of `users` without the password, in the same order.
    pub fn from_iter(users: Vec<User>) -> (r: Vec<ResponseUser>)
        ensures
            r@ == users@.map_values(|u: User| ResponseUser::of(u)),
    {
        let ghost all = users@;
        let mut c: Vec<ResponseUser> = Vec::new();
        for u in it: users
            invariant
                it.seq() == all,
                c@ == all.take(it.index() as int).map_values(|u: User| ResponseUser::of(u)),
        {
            proof {
                assert(all.take(it.index() + 1).map_values(|u: User| ResponseUser::of(u)) =~= all.take(
                    it.index() as int,
                ).map_values(|u: User| ResponseUser::of(u)).push(ResponseUser::of(u)));
            }
            c.push(ResponseUser::from(u));
        }
        proof {
            assert(all.take(all.len() as int) =~= all);
        }
        c
    }
}

/// What `bcrypt::verify` answers for a password and a stored hash: whether
/// they match, or `None` where it reports an error (a hash that it cannot
/// read).
pub uninterp spec fn bcrypt_verdict(password: Seq<char>, hash: Seq<char>) -> Option<bool>;

#[verifier::external_type_specification]
#[verifier::external_body]
pub struct ExBcryptError(bcrypt::BcryptError);

/// Calls `bcrypt::verify`, which computes its answer from the password and
/// the hash alone; the contract gives that answer its name.
#[verifier::external_body]
fn bcrypt_verify(password: &String, hash: &String) -> (r: Result<bool, bcrypt::BcryptError>)
    ensures
        r is Ok <==> bcrypt_verdict(password@, hash@) is Some,
        r matches Ok(matching) ==> bcrypt_verdict(password@, hash@) == Some(matching),
{
    bcrypt::verify(password, hash)
}

/// Calls `bcrypt::hash` at `bcrypt::DEFAULT_COST`. The salt is drawn at
/// random, so nothing is said of which hash comes back, only that it is one
/// which `bcrypt::verify` accepts for the same password: `hash` writes the
/// cost and the salt into its result, and `verify` computes the hash again
/// from them.
#[verifier::external_body]
fn bcrypt_hash(password: &String) -> (r: Result<String, bcrypt::BcryptError>)
    ensures
        r matches Ok(hashed) ==> bcrypt_verdict(password@, hashed@) == Some(true),
{
    bcrypt::hash(password, bcrypt::DEFAULT_COST)
}

impl User {
    /// The user with the password replaced.
    pub open spec fn with_password(self, password: String) -> User {
        User { password, ..self }
    }

    /// The user with id `uid`; `NotFound` where there is none.
    pub fn find_user(uid: &String, connection: &DbConn) -> (r: ThearningResult<User>)
        ensures
            r == match first(connection.users@, ByUserId(uid)) {
                Some(user) => Ok::<User, ErrorKind>(user),
                None => Err::<User, ErrorKind>(ErrorKind::QueryError(QueryError::NotFound)),
            },
    {
        match connection.users.find(&ByUserId(uid)) {
            Some(user) => Ok(user),
            None => Err(ErrorKind::QueryError(QueryError::NotFound)),
        }
    }

    /// Whether a verdict of the password check lets the user in: only a
    /// clean "they match" does.
    pub fn admitted(verdict: &Result<bool, bcrypt::BcryptError>) -> (b: bool)
        ensures
            b == (verdict matches Ok(true)),
    {
        match verdict {
            Ok(matching) => *matching,
            Err(_) => false,
        }
    }

    /// The user with id `key_`, if `password_` is the user's password.
    pub fn get_by_key(key_: &String, password_: String, connection: &DbConn) -> (r: Option<User>)
        ensures
            r == match first(connection.users@, ByUserId(key_)) {
                Some(user) => if bcrypt_verdict(password_@, user.password@) == Some(true) {
                    Some(user)
                } else {
                    None
                },
                None => None,
            },
    {
        match connection.users.find(&ByUserId(key_)) {
            Some(user) => {
                let verdict = bcrypt_verify(&password_, &user.password);
                if User::admitted(&verdict) {
                    Some(user)
                } else {
                    None
                }
            },
            None => None,
        }
    }

    /// The role of the user with id `key_`: `NotFound` where there is no
    /// such user, `InvalidValue` where the user's status names no role.
    pub fn get_role(key_: &String, connection: &DbConn) -> (r: ThearningResult<Role>)
        ensures
            r == match first(connection.users@, ByUserId(key_)) {
                Some(user) => match Role::parse(user.status@) {
                    Some(role) => Ok::<Role, ErrorKind>(role),
                    None => Err::<Role, ErrorKind>(ErrorKind::InvalidValue),
                },
                None => Err::<Role, ErrorKind>(ErrorKind::QueryError(QueryError::NotFound)),
            },
    {
        match connection.users.find(&ByUserId(key_)) {
            Some(user) => Role::from_str(&user.status),
            None => Err(ErrorKind::QueryError(QueryError::NotFound)),
        }
    }

    /// The id of the user with the e-mail address `email`.
    pub fn get_id_from_email(email: &String, connection: &DbConn) -> (r: ThearningResult<String>)
        ensures
            r == match first(connection.users@, ByEmail(email)) {
                Some(user) => Ok::<String, ErrorKind>(user.user_id),
                None => Err::<String, ErrorKind>(ErrorKind::QueryError(QueryError::NotFound)),
            },
    {
        match connection.users.find(&ByEmail(email)) {
            Some(user) => Ok(user.user_id),
            None => Err(ErrorKind::QueryError(QueryError::NotFound)),
        }
    }

    /// The role of the user, where the status names one.
    pub open spec fn spec_role(&self) -> Option<Role> {
        Role::parse(self.status@)
    }

    /// The user teaches or administers: the status names the role of a
    /// teacher or of an admin. A status that names no role gives no rights.
    pub open spec fn staff(&self) -> bool {
        self.spec_role() == Some(Role::Teacher) || self.spec_role() == Some(Role::Admin)
    }

    /// The role of the user, where the status names one.
    pub fn role(&self) -> (r: Option<Role>)
        ensures
            r == self.spec_role(),
    {
        match Role::from_str(&self.status) {
            Ok(role) => Some(role),
            Err(_) => None,
        }
    }

    /// Whether the user teaches or administers.
    pub fn is_staff(&self) -> (b: bool)
        ensures
            b == self.staff(),
    {
        match self.role() {
            Some(Role::Teacher) => true,
            Some(Role::Admin) => true,
            _ => false,
        }
    }

    pub fn is_admin(&self) -> (b: bool)
        ensures
            b == (self.status@ == "admin"@),
    {
        text::is(&self.status, "admin")
    }

    pub fn is_teacher(&self) -> (b: bool)
        ensures
            b == (self.status@ == "teacher"@),
    {
        text::is(&self.status, "teacher")
    }

    pub fn is_student(&self) -> (b: bool)
        ensures
            b == (self.status@ == "student"@),
    {
        text::is(&self.status, "student")
    }
}

impl User {
    /// The user as `update` leaves it: name, photo, address, bio and birth
    /// data are taken from `update`, the rest stays.
    pub open spec fn updated(self, update: User) -> User {
        User {
            fullname: update.fullname,
            profile_photo: update.profile_photo,
            email: update.email,
            bio: update.bio,
            birth_place: update.birth_place,
            birth_date: update.birth_date,
            ..self
        }
    }

    /// Stores `new_data` with `hashed` in the place of the clear password.
    /// Fails with `InvalidValue` where hashing failed, and with
    /// `UniqueViolation` where the id or the e-mail address is taken.
    pub fn create_hashed(
        new_data: User,
        hashed: Result<String, bcrypt::BcryptError>,
        conn: &mut DbConn,
    ) -> (r: ThearningResult<User>)
        ensures
            r == match hashed {
                Ok(password) => if free_for(old(conn).users@, new_data) {
                    Ok::<User, ErrorKind>(new_data.with_password(password))
                } else {
                    Err::<User, ErrorKind>(ErrorKind::QueryError(QueryError::UniqueViolation))
                },
                Err(_) => Err::<User, ErrorKind>(ErrorKind::InvalidValue),
            },
            final(conn).users@ == match r {
                Ok(user) => old(conn).users@.push(user),
                Err(_) => old(conn).users@,
            },
            *final(conn) == (DbConn { users: final(conn).users, ..*old(conn) }),
    {
        match hashed {
            Ok(password) => {
                let row = User { password, ..new_data };
                let copy = row.clone();
                match conn.users.insert(row) {
                    Ok(_) => Ok(copy),
                    Err(e) => Err(ErrorKind::QueryError(e)),
                }
            },
            Err(_) => Err(ErrorKind::InvalidValue),
        }
    }

    /// Registers `new_data`: the password is hashed and the row stored.
    /// What is stored is `new_data` with a hash that the clear password
    /// verifies against. A taken id or e-mail address gives `UniqueViolation`.
    pub fn create(new_data: User, conn: &mut DbConn) -> (r: ThearningResult<User>)
        ensures
            match r {
                Ok(user) => {
                    &&& free_for(old(conn).users@, new_data)
                    &&& user == new_data.with_password(user.password)
                    &&& bcrypt_verdict(new_data.password@, user.password@) == Some(true)
                    &&& final(conn).users@ == old(conn).users@.push(user)
                },
                Err(e) => {
                    &&& final(conn).users@ == old(conn).users@
                    &&& e == ErrorKind::InvalidValue || e == ErrorKind::QueryError(
                        QueryError::UniqueViolation,
                    )
                    &&& e == ErrorKind::QueryError(QueryError::UniqueViolation) ==> !free_for(
                        old(conn).users@,
                        new_data,
                    )
                },
            },
            !free_for(old(conn).users@, new_data) ==> r is Err,
            *final(conn) == (DbConn { users: final(conn).users, ..*old(conn) }),
    {
        let hashed = bcrypt_hash(&new_data.password);
        User::create_hashed(new_data, hashed, conn)
    }

    /// Overwrites the profile of the user with this user's id by that of
    /// `update`, and hands back the row as it then stands. `NotFound` where
    /// the store has no such user, `UniqueViolation` where the new e-mail
    /// address belongs to another user.
    pub fn update(&self, update: User, conn: &mut DbConn) -> (r: ThearningResult<User>)
        ensures
            match first_index(old(conn).users@, ByUserId(&self.user_id)) {
                Some(i) => {
                    let row = old(conn).users@[i].updated(update);
                    if free_for(old(conn).users@.remove(i), row) {
                        &&& r == Ok::<User, ErrorKind>(row)
                        &&& final(conn).users@ == old(conn).users@.update(i, row)
                    } else {
                        &&& r == Err::<User, ErrorKind>(ErrorKind::QueryError(QueryError::UniqueViolation))
                        &&& final(conn).users@ == old(conn).users@
                    }
                },
                None => {
                    &&& r == Err::<User, ErrorKind>(ErrorKind::QueryError(QueryError::NotFound))
                    &&& final(conn).users@ == old(conn).users@
                },
            },
            *final(conn) == (DbConn { users: final(conn).users, ..*old(conn) }),
    {
        match conn.users.position(&ByUserId(&self.user_id)) {
            Some(i) => {
                let current = conn.users.get(i).clone();
                let row = User {
                    fullname: update.fullname,
                    profile_photo: update.profile_photo,
                    email: update.email,
                    bio: update.bio,
                    birth_place: update.birth_place,
                    birth_date: update.birth_date,
                    ..current
                };
                let copy = row.clone();
                match conn.users.put(i, row) {
                    Ok(_) => Ok(copy),
                    Err(e) => Err(ErrorKind::QueryError(e)),
                }
            },
            None => Err(ErrorKind::QueryError(QueryError::NotFound)),
        }
    }

    /// Takes the user with this user's id out of the store and hands the
    /// row back; `NotFound` where the store has no such user.
    pub fn delete(&self, conn: &mut DbConn) -> (r: ThearningResult<User>)
        ensures
            match first_index(old(conn).users@, ByUserId(&self.user_id)) {
                Some(i) => {
                    &&& r == Ok::<User, ErrorKind>(old(conn).users@[i])
                    &&& final(conn).users@ == old(conn).users@.remove(i)
                },
                None => {
                    &&& r == Err::<User, ErrorKind>(ErrorKind::QueryError(QueryError::NotFound))
                    &&& final(conn).users@ == old(conn).users@
                },
            },
            *final(conn) == (DbConn { users: final(conn).users, ..*old(conn) }),
    {
        match conn.users.position(&ByUserId(&self.user_id)) {
            Some(i) => Ok(conn.users.remove(i)),
            None => Err(ErrorKind::QueryError(QueryError::NotFound)),
        }
    }

    /// Every user of the store.
    pub fn get_all(conn: &DbConn) -> (r: ThearningResult<Vec<User>>)
        ensures
            r matches Ok(users) && users@ == conn.users@,
    {
        Ok(conn.users.rows())
    }

    /// Decides a change of password from what the password check and the
    /// hashing gave: where the old password was verified and the new one
    /// hashed, every row with this user's id gets the new hash.
    pub fn update_password_with(
        &self,
        verdict: Result<bool, bcrypt::BcryptError>,
        hashed: Result<String, bcrypt::BcryptError>,
        conn: &mut DbConn,
    ) -> (r: Result<(), ()>)
        ensures
            r is Ok <==> (verdict matches Ok(true)) && hashed is Ok,
            final(conn).users@ == match (r, hashed, first_index(old(conn).users@, ByUserId(&self.user_id))) {
                (Ok(_), Ok(password), Some(i)) => old(conn).users@.update(
                    i,
                    old(conn).users@[i].with_password(password),
                ),
                _ => old(conn).users@,
            },
            *final(conn) == (DbConn { users: final(conn).users, ..*old(conn) }),
    {
        if !User::admitted(&verdict) {
            return Err(());
        }
        match hashed {
            Ok(password) => {
                match conn.users.position(&ByUserId(&self.user_id)) {
                    Some(i) => {
                        let current = conn.users.get(i).clone();
                        conn.users.replace(i, User { password, ..current });
                    },
                    None => {},
                }
                Ok(())
            },
            Err(_) => Err(()),
        }
    }

    /// Replaces the user's password by `data.new_password` where
    /// `data.password` is the current one, and fails otherwise. The store
    /// then holds a hash that the new password verifies against.
    pub fn update_password(&self, data: PasswordChange, conn: &mut DbConn) -> (r: Result<(), ()>)
        ensures
            r is Ok ==> bcrypt_verdict(data.password@, self.password@) == Some(true),
            bcrypt_verdict(data.password@, self.password@) != Some(true) ==> r is Err,
            match (r, first_index(old(conn).users@, ByUserId(&self.user_id))) {
                (Ok(_), Some(i)) => exists|password: String|
                    {
                        &&& bcrypt_verdict(data.new_password@, password@) == Some(true)
                        &&& final(conn).users@ == old(conn).users@.update(
                            i,
                            #[trigger] old(conn).users@[i].with_password(password),
                        )
                    },
                _ => final(conn).users@ == old(conn).users@,
            },
            *final(conn) == (DbConn { users: final(conn).users, ..*old(conn) }),
    {
        let hashed = bcrypt_hash(&data.new_password);
        let verdict = bcrypt_verify(&data.password, &self.password);
        self.update_password_with(verdict, hashed, conn)
    }
}

/// A user's part in one classroom.
#[derive(Debug)]
pub struct Membership {
    pub id: i32,
    pub user_id: String,
    pub class_id: String,
    /// The user's role at the time of joining.
    pub role: Role,
    pub created_at: DateTime,
}

impl Clone for Membership {
    fn clone(&self) -> (r: Self)
        ensures
            r == *self,
    {
        Membership {
            id: self.id,
            user_id: self.user_id.clone(),
            class_id: self.class_id.clone(),
            role: self.role,
            created_at: self.created_at,
        }
    }
}

impl Row for Membership {
    open spec fn key(&self) -> Key {
        Key::Number(self.id as int)
    }

    /// A user is in a classroom at most once.
    open spec fn unique(&self) -> Option<Seq<Seq<char>>> {
        Some(seq![self.user_id@, self.class_id@])
    }

    fn same_key(&self, other: &Self) -> (b: bool) {
        self.id == other.id
    }

    fn same_unique(&self, other: &Self) -> (b: bool) {
        proof {
            let a = seq![self.user_id@, self.class_id@];
            let b = seq![other.user_id@, other.class_id@];
            assert(a[0] == self.user_id@ && a[1] == self.class_id@);
            assert(b[0] == other.user_id@ && b[1] == other.class_id@);
            if self.user_id@ == other.user_id@ && self.class_id@ == other.class_id@ {
                assert(a =~= b);
            }
        }
        self.user_id == other.user_id && self.class_id == other.class_id
    }

    fn duplicate(&self) -> (r: Self) {
        self.clone()
    }
}

/// The memberships of one classroom, whatever the role.
pub struct InClass<'a>(pub &'a String);

impl<'a> Filter<Membership> for InClass<'a> {
    open spec fn accepts(&self, row: &Membership) -> bool {
        row.class_id@ == self.0@
    }

    fn test(&self, row: &Membership) -> (b: bool) {
        row.class_id == *self.0
    }
}

/// The memberships of one classroom in one role.
pub struct InClassAs<'a>(pub &'a String, pub Role);

impl<'a> Filter<Membership> for InClassAs<'a> {
    open spec fn accepts(&self, row: &Membership) -> bool {
        row.class_id@ == self.0@ && row.role == self.1
    }

    fn test(&self, row: &Membership) -> (b: bool) {
        row.class_id == *self.0 && row.role == self.1
    }
}

/// The memberships of one user in one role.
pub struct OfUserAs<'a>(pub &'a String, pub Role);

impl<'a> Filter<Membership> for OfUserAs<'a> {
    open spec fn accepts(&self, row: &Membership) -> bool {
        row.user_id@ == self.0@ && row.role == self.1
    }

    fn test(&self, row: &Membership) -> (b: bool) {
        row.user_id == *self.0 && row.role == self.1
    }
}

/// The membership of one user in one classroom.
pub struct MemberOf<'a> {
    pub class_id: &'a String,
    pub user_id: &'a String,
}

impl<'a> Filter<Membership> for MemberOf<'a> {
    open spec fn accepts(&self, row: &Membership) -> bool {
        row.class_id@ == self.class_id@ && row.user_id@ == self.user_id@
    }

    fn test(&self, row: &Membership) -> (b: bool) {
        row.class_id == *self.class_id && row.user_id == *self.user_id
    }
}

/// The user `uid` takes part in the classroom `class_id`, in whatever role.
pub open spec fn is_member(rows: Seq<Membership>, class_id: Seq<char>, uid: Seq<char>) -> bool {
    exists|i: int| 0 <= i < rows.len() && #[trigger] rows[i].class_id@ == class_id && rows[i].user_id@ == uid
}

/// The number of rows of `rows` that join the user `uid` to the classroom `class_id`.
pub open spec fn memberships_of(rows: Seq<Membership>, class_id: Seq<char>, uid: Seq<char>) -> nat
    decreases rows.len(),
{
    if rows.len() == 0 {
        0
    } else {
        memberships_of(rows.drop_last(), class_id, uid) + if rows.last().class_id@ == class_id
            && rows.last().user_id@ == uid {
            1nat
        } else {
            0nat
        }
    }
}

/// The table after an attempt to store the membership `row`: with the row
/// at its end where it clashes with none, and `None` where the attempt
/// fails.
pub open spec fn joined(rows: Seq<Membership>, row: Membership) -> Option<Seq<Membership>> {
    if free_for(rows, row) {
        Some(rows.push(row))
    } else {
        None
    }
}

/// In a table whose rows do not clash, a user is in a classroom at most
/// once: the number of rows that join the two is one where the user is a
/// member, and zero where not.
pub proof fn lemma_member_at_most_once(rows: Seq<Membership>, class_id: Seq<char>, uid: Seq<char>)
    requires
        crate::db::distinct(rows),
    ensures
        memberships_of(rows, class_id, uid) == if is_member(rows, class_id, uid) {
            1nat
        } else {
            0nat
        },
    decreases rows.len(),
{
    if rows.len() > 0 {
        let front = rows.drop_last();
        let last = rows.last();
        assert forall|i: int, j: int|
            0 <= i < front.len() && 0 <= j < front.len() && i != j implies !crate::db::clash(
            front[i],
            front[j],
        ) by {
            assert(!crate::db::clash(rows[i], rows[j]));
        }
        lemma_member_at_most_once(front, class_id, uid);
        if last.class_id@ == class_id && last.user_id@ == uid {
            assert(rows[rows.len() - 1].class_id@ == class_id);
            if is_member(front, class_id, uid) {
                let i = choose|i: int|
                    0 <= i < front.len() && #[trigger] front[i].class_id@ == class_id
                        && front[i].user_id@ == uid;
                assert(rows[i].unique() =~= last.unique());
                assert(crate::db::clash(rows[i], rows[rows.len() - 1]));
            }
        } else {
            if is_member(rows, class_id, uid) {
                let i = choose|i: int|
                    0 <= i < rows.len() && #[trigger] rows[i].class_id@ == class_id
                        && rows[i].user_id@ == uid;
                assert(front[i].class_id@ == class_id);
            }
            if is_member(front, class_id, uid) {
                let i = choose|i: int|
                    0 <= i < front.len() && #[trigger] front[i].class_id@ == class_id
                        && front[i].user_id@ == uid;
                assert(rows[i].class_id@ == class_id);
            }
        }
    }
}

/// Joining twice fails the second time: where a user joins a classroom,
/// a second attempt of the same user for the same classroom is refused,
/// under whatever row id and in whatever role, and the table holds exactly
/// one row for the user and the classroom.
pub proof fn lemma_join_twice_fails(rows: Seq<Membership>, first: Membership, second: Membership)
    requires
        crate::db::distinct(rows),
        first.user_id@ == second.user_id@,
        first.class_id@ == second.class_id@,
        joined(rows, first) is Some,
    ensures
        joined(joined(rows, first)->Some_0, second) is None,
        crate::db::distinct(joined(rows, first)->Some_0),
        memberships_of(joined(rows, first)->Some_0, first.class_id@, first.user_id@) == 1,
        !is_member(rows, first.class_id@, first.user_id@),
{
    let after = rows.push(first);
    assert(after[rows.len() as int] == first);
    assert(first.unique() =~= second.unique());
    assert(crate::db::clash(after[rows.len() as int], second));
    assert forall|i: int, j: int|
        0 <= i < after.len() && 0 <= j < after.len() && i != j implies !crate::db::clash(
        after[i],
        after[j],
    ) by {
        if i < rows.len() && j < rows.len() {
            assert(!crate::db::clash(rows[i], rows[j]));
        } else if i < rows.len() {
            assert(!crate::db::clash(rows[i], first));
        } else {
            assert(!crate::db::clash(first, rows[j]));
        }
    }
    assert(after[rows.len() as int].class_id@ == first.class_id@);
    assert(is_member(after, first.class_id@, first.user_id@));
    lemma_member_at_most_once(after, first.class_id@, first.user_id@);
    if is_member(rows, first.class_id@, first.user_id@) {
        let i = choose|i: int|
            0 <= i < rows.len() && #[trigger] rows[i].class_id@ == first.class_id@
                && rows[i].user_id@ == first.user_id@;
        assert(rows[i].unique() =~= first.unique());
        assert(crate::db::clash(rows[i], first));
    }
}

impl Membership {
    /// Joins the user `uid` to the classroom `class_id` in the role `role`,
    /// under the row id `id`, at the instant `now`. Fails with
    /// `UniqueViolation`, and changes nothing, where the user is in the
    /// classroom already or the row id is taken.
    pub fn create_with(
        uid: &String,
        class_id: &String,
        role: Role,
        id: i32,
        now: DateTime,
        conn: &mut DbConn,
    ) -> (r: ThearningResult<Membership>)
        ensures
            ({
                let row = Membership { id, user_id: *uid, class_id: *class_id, role, created_at: now };
                if free_for(old(conn).memberships@, row) {
                    &&& r == Ok::<Membership, ErrorKind>(row)
                    &&& final(conn).memberships@ == old(conn).memberships@.push(row)
                } else {
                    &&& r == Err::<Membership, ErrorKind>(
                        ErrorKind::QueryError(QueryError::UniqueViolation),
                    )
                    &&& final(conn).memberships@ == old(conn).memberships@
                }
            }),
            is_member(old(conn).memberships@, class_id@, uid@) ==> r is Err,
            *final(conn) == (DbConn { memberships: final(conn).memberships, ..*old(conn) }),
    {
        let row = Membership {
            id,
            user_id: uid.clone(),
            class_id: class_id.clone(),
            role,
            created_at: now,
        };
        let copy = row.clone();
        proof {
            if is_member(conn.memberships@, class_id@, uid@) {
                let i = choose|i: int|
                    0 <= i < conn.memberships@.len() && #[trigger] conn.memberships@[i].class_id@
                        == class_id@ && conn.memberships@[i].user_id@ == uid@;
                assert(conn.memberships@[i].unique() =~= row.unique());
                assert(crate::db::clash(conn.memberships@[i], row));
            }
        }
        match conn.memberships.insert(row) {
            Ok(_) => Ok(copy),
            Err(e) => Err(ErrorKind::QueryError(e)),
        }
    }

    /// Joins the user `uid` to the classroom `class_id` in the role `role`,
    /// with a random row id and the time of the wall clock. A user who is
    /// in the classroom already is refused with `UniqueViolation`, and so is
    /// a row id that happens to be taken; nothing changes then.
    pub fn create(uid: &String, class_id: &String, role: Role, conn: &mut DbConn) -> (r:
        ThearningResult<Membership>)
        ensures
            match r {
                Ok(row) => {
                    &&& row.user_id == *uid
                    &&& row.class_id == *class_id
                    &&& row.role == role
                    &&& 0 <= row.id
                    &&& row.created_at.wf()
                    &&& free_for(old(conn).memberships@, row)
                    &&& final(conn).memberships@ == old(conn).memberships@.push(row)
                },
                Err(e) => {
                    &&& e == ErrorKind::QueryError(QueryError::UniqueViolation)
                    &&& final(conn).memberships@ == old(conn).memberships@
                },
            },
            is_member(old(conn).memberships@, class_id@, uid@) ==> r is Err,
            *final(conn) == (DbConn { memberships: final(conn).memberships, ..*old(conn) }),
    {
        let id = generate_random_id();
        let now = local_now();
        Membership::create_with(uid, class_id, role, id, now, conn)
    }

    /// The members of the classroom `class_id` in the role `role`.
    pub fn load_in_class(class_id: &String, role: Role, conn: &DbConn) -> (r: ThearningResult<
        Vec<Membership>,
    >)
        ensures
            r matches Ok(rows) && rows@ == all(conn.memberships@, InClassAs(class_id, role)),
    {
        Ok(conn.memberships.select(&InClassAs(class_id, role)))
    }

    /// The classrooms that the user `uid` has joined in the role `role`.
    pub fn find(uid: &String, role: Role, conn: &DbConn) -> (r: ThearningResult<Vec<Membership>>)
        ensures
            r matches Ok(rows) && rows@ == all(conn.memberships@, OfUserAs(uid, role)),
    {
        Ok(conn.memberships.select(&OfUserAs(uid, role)))
    }
}

} // verus!
