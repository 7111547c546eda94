use chrono::Datelike;
use rand::Rng;
use vstd::prelude::*;
use vstd::string::StringExecFns;

use crate::attachments::models::Attachment;
use crate::clock::Date;
use crate::comments::models::Commenter;
use crate::db::{first, DbConn, Filter, Row};
use crate::errors::ErrorKind;
use crate::files::models::{ByFileId, UploadedFile};
use crate::links::models::{ByLinkId, Link};
use crate::users::models::{ByUserId, Membership, ResponseUser, User};

verus! {

/// The decimal digit that stands for `d`; `'0'` where `d` is no digit.
pub open spec fn digit(d: nat) -> char {
    if d == 1 {
        '1'
    } else if d == 2 {
        '2'
    } else if d == 3 {
        '3'
    } else if d == 4 {
        '4'
    } else if d == 5 {
        '5'
    } else if d == 6 {
        '6'
    } else if d == 7 {
        '7'
    } else if d == 8 {
        '8'
    } else if d == 9 {
        '9'
    } else {
        '0'
    }
}

/// `n` written in decimal, without leading zeros.
pub open spec fn decimal(n: nat) -> Seq<char>
    decreases n,
{
    if n < 10 {
        seq![digit(n)]
    } else {
        decimal(n / 10) + seq![digit(n % 10)]
    }
}

/// The distance of `x` from zero, as far as 32 bits hold it: the least
/// number has no positive twin and gives the greatest.
pub open spec fn magnitude(x: i32) -> i32 {
    if x == i32::MIN {
        i32::MAX
    } else if x < 0 {
        (-x) as i32
    } else {
        x
    }
}

/// A key as `generate_key` makes it: two numbers, written one after the other.
pub open spec fn is_key(s: Seq<char>) -> bool {
    exists|a: nat, b: nat| a <= i32::MAX && b <= i32::MAX && s == #[trigger] decimal(a) + #[trigger] decimal(b)
}

fn digit_text(d: u32) -> (s: &'static str)
    requires
        d < 10,
    ensures
        s@ == seq![digit(d as nat)],
{
    proof {
        reveal_strlit("0");
        reveal_strlit("1");
        reveal_strlit("2");
        reveal_strlit("3");
        reveal_strlit("4");
        reveal_strlit("5");
        reveal_strlit("6");
        reveal_strlit("7");
        reveal_strlit("8");
        reveal_strlit("9");
    }
    let s = if d == 0 {
        "0"
    } else if d == 1 {
        "1"
    } else if d == 2 {
        "2"
    } else if d == 3 {
        "3"
    } else if d == 4 {
        "4"
    } else if d == 5 {
        "5"
    } else if d == 6 {
        "6"
    } else if d == 7 {
        "7"
    } else if d == 8 {
        "8"
    } else {
        "9"
    };
    assert(s@ =~= seq![digit(d as nat)]);
    s
}

/// Writes `n` in decimal.
pub fn to_decimal(n: u32) -> (s: String)
    ensures
        s@ == decimal(n as nat),
{
    let mut acc = String::from_str(digit_text(n % 10));
    let mut rest: u32 = n / 10;
    while rest > 0
        invariant
            decimal(n as nat) == if rest == 0 {
                acc@
            } else {
                decimal(rest as nat) + acc@
            },
        decreases rest,
    {
        let front = String::from_str(digit_text(rest % 10));
        proof {
            if rest >= 10 {
                assert(decimal(rest as nat) + acc@ =~= decimal((rest / 10) as nat) + (front@ + acc@));
            }
        }
        acc = front.concat(acc.as_str());
        rest = rest / 10;
    }
    acc
}

/// Turns a number of any sign into one that is not negative.
pub fn abs(x: i32) -> (r: i32)
    ensures
        r == magnitude(x),
        0 <= r,
{
    if x == i32::MIN {
        i32::MAX
    } else if x < 0 {
        -x
    } else {
        x
    }
}

/// Draws a number with `rand::thread_rng().gen::<i32>()`. Every `i32` can
/// come back, so the contract claims nothing.
#[verifier::external_body]
fn random_i32() -> (r: i32)
{
    rand::thread_rng().gen::<i32>()
}

/// A random number that is not negative, for use as an id.
pub fn generate_random_id() -> (r: i32)
    ensures
        0 <= r,
{
    abs(random_i32())
}

/// The key made of the two numbers `a` and `b`.
pub fn key_of(a: i32, b: i32) -> (s: String)
    requires
        0 <= a,
        0 <= b,
    ensures
        s@ == decimal(a as nat) + decimal(b as nat),
        is_key(s@),
{
    let front = to_decimal(a as u32);
    let back = to_decimal(b as u32);
    front.concat(back.as_str())
}

/// A random key for a new row: two random ids, written one after the other.
pub fn generate_key() -> (s: String)
    ensures
        is_key(s@),
{
    let a = generate_random_id();
    let b = generate_random_id();
    key_of(a, b)
}

/// The date that `chrono::NaiveDate::parse_from_str` reads from a text
/// under a format, or `None` where it reports an error.
pub uninterp spec fn parsed_date(value: Seq<char>, format: Seq<char>) -> Option<Date>;

#[verifier::external_type_specification]
#[verifier::external_body]
pub struct ExParseError(chrono::ParseError);

/// Calls `chrono::NaiveDate::parse_from_str` and copies year, month and
/// day of what it reads. The outcome is computed from the two texts alone;
/// the contract names it, and adds that chrono only yields dates of the
/// calendar.
#[verifier::external_body]
fn parse_date(value: &String, format: &str) -> (r: Result<Date, chrono::ParseError>)
    ensures
        r is Ok <==> parsed_date(value@, format@) is Some,
        r matches Ok(date) ==> parsed_date(value@, format@) == Some(date) && date.wf(),
{
    chrono::NaiveDate::parse_from_str(value, format).map(
        |d| Date { year: d.year(), month: d.month(), day: d.day() },
    )
}

/// A date as a form carries it: written as year, month and day with
/// hyphens between them.
#[derive(Clone, Copy, Debug, PartialEq, Eq, Structural)]
pub struct NaiveDateForm(pub Date);

impl NaiveDateForm {
    /// What a field of a form is worth, given what reading it as a date
    /// gave: the date, or `InvalidValue`.
    pub fn accept(read: Result<Date, chrono::ParseError>) -> (r: Result<NaiveDateForm, ErrorKind>)
        ensures
            r == match read {
                Ok(date) => Ok::<NaiveDateForm, ErrorKind>(NaiveDateForm(date)),
                Err(_) => Err::<NaiveDateForm, ErrorKind>(ErrorKind::InvalidValue),
            },
    {
        match read {
            Ok(date) => Ok(NaiveDateForm(date)),
            Err(_) => Err(ErrorKind::InvalidValue),
        }
    }

    /// Reads the date of a field of a form, written as `%Y-%m-%d`.
    pub fn from_value(field: &String) -> (r: Result<NaiveDateForm, ErrorKind>)
        ensures
            r == match parsed_date(field@, "%Y-%m-%d"@) {
                Some(date) => Ok::<NaiveDateForm, ErrorKind>(NaiveDateForm(date)),
                None => Err::<NaiveDateForm, ErrorKind>(ErrorKind::InvalidValue),
            },
            r matches Ok(form) ==> form.0.wf(),
    {
        NaiveDateForm::accept(parse_date(field, "%Y-%m-%d"))
    }

    /// The date.
    pub fn deref(&self) -> (r: &Date)
        ensures
            *r == self.0,
    {
        &self.0
    }
}

/// A comment together with the user who wrote it.
#[derive(Debug)]
pub struct UserComment<T> {
    pub commenter: ResponseUser,
    pub comment: T,
}

/// An attachment together with the file and the link that it names.
#[derive(Debug)]
pub struct AttachmentResponse {
    pub attachment: Attachment,
    pub file: Option<UploadedFile>,
    pub link: Option<Link>,
}

/// The author of `comment` is in `users`, and `shown` is that user without
/// the password.
pub open spec fn written_by<T: Commenter>(shown: ResponseUser, comment: T, users: Seq<User>) -> bool {
    exists|i: int|
        0 <= i < users.len() && (#[trigger] users[i]).user_id@ == comment.author() && shown
            == ResponseUser::of(users[i]) && forall|j: int|
            0 <= j < i ==> (#[trigger] users[j]).user_id@ != comment.author()
}

/// A user with the id `author` is in `users`.
pub open spec fn known(users: Seq<User>, author: Seq<char>) -> bool {
    exists|j: int| 0 <= j < users.len() && (#[trigger] users[j]).user_id@ == author
}

/// One of the comments `rows` has an author who is not in `users`.
pub open spec fn orphaned<T: Commenter>(rows: Seq<T>, users: Seq<User>) -> bool {
    exists|i: int| 0 <= i < rows.len() && !known(users, (#[trigger] rows[i]).author())
}

/// The comments of `vec` in their order, each with the user who wrote it;
/// `None` where the author of one of them is not in the store.
pub fn get_comments<T: Commenter + Row>(vec: &Vec<T>, conn: &DbConn) -> (r: Option<
    Vec<UserComment<T>>,
>)
    ensures
        r is None <==> orphaned(vec@, conn.users@),
        r matches Some(res) ==> shown_comments(res@, vec@, conn.users@),
{
    let mut res: Vec<UserComment<T>> = Vec::new();
    let mut i: usize = 0;
    while i < vec.len()
        invariant
            i <= vec@.len(),
            res@.len() == i,
            forall|k: int| 0 <= k < i ==> known(conn.users@, (#[trigger] vec@[k]).author()),
            forall|k: int|
                0 <= k < i ==> (#[trigger] res@[k]).comment == vec@[k] && written_by(
                    res@[k].commenter,
                    vec@[k],
                    conn.users@,
                ),
        decreases vec@.len() - i,
    {
        let thing = &vec[i];
        let by_id = ByUserId(thing.get_user_id());
        match conn.users.position(&by_id) {
            Some(j) => {
                let user = conn.users.get(j).clone();
                let resp = UserComment { commenter: ResponseUser::from(user), comment: thing.duplicate() };
                proof {
                    assert(conn.users@[j as int].user_id@ == vec@[i as int].author());
                    assert(known(conn.users@, vec@[i as int].author()));
                    assert(written_by(resp.commenter, vec@[i as int], conn.users@));
                }
                res.push(resp);
            },
            None => {
                proof {
                    assert(!known(conn.users@, vec@[i as int].author())) by {
                        if known(conn.users@, vec@[i as int].author()) {
                            let j = choose|j: int|
                                0 <= j < conn.users@.len() && (#[trigger] conn.users@[j]).user_id@
                                    == vec@[i as int].author();
                            assert(by_id.accepts(&conn.users@[j]));
                        }
                    }
                }
                return None;
            },
        }
        i += 1;
    }
    Some(res)
}

/// `resp` shows `attachment` with the file and the link that it names, as
/// far as the store knows them.
pub open spec fn embeds(resp: AttachmentResponse, attachment: Attachment, conn: DbConn) -> bool {
    &&& resp.attachment == attachment
    &&& resp.file == match attachment.file_id {
        Some(id) => first(conn.files@, ByFileId(&id)),
        None => None,
    }
    &&& resp.link == match attachment.link_id {
        Some(id) => first(conn.links@, ByLinkId(&id)),
        None => None,
    }
}

/// `resp` shows the attachments `rows`, one for one and in their order,
/// each with its file and its link.
pub open spec fn shown_attachments(resp: Seq<AttachmentResponse>, rows: Seq<Attachment>, conn: DbConn) -> bool {
    resp.len() == rows.len() && forall|i: int|
        0 <= i < resp.len() ==> embeds(#[trigger] resp[i], rows[i], conn)
}

/// `resp` shows the comments `rows`, one for one and in their order, each
/// with its author.
pub open spec fn shown_comments<T: Commenter>(resp: Seq<UserComment<T>>, rows: Seq<T>, users: Seq<User>) -> bool {
    resp.len() == rows.len() && forall|i: int|
        0 <= i < resp.len() ==> (#[trigger] resp[i]).comment == rows[i] && written_by(
            resp[i].commenter,
            rows[i],
            users,
        )
}

/// The attachments of `vec` in their order, each with its file and its link.
pub fn get_attachments(vec: &Vec<Attachment>, conn: &DbConn) -> (res: Vec<AttachmentResponse>)
    ensures
        shown_attachments(res@, vec@, *conn),
{
    let mut res: Vec<AttachmentResponse> = Vec::new();
    let mut i: usize = 0;
    while i < vec.len()
        invariant
            i <= vec@.len(),
            res@.len() == i,
            forall|k: int| 0 <= k < i ==> embeds(#[trigger] res@[k], vec@[k], *conn),
        decreases vec@.len() - i,
    {
        let thing = &vec[i];
        let resp = AttachmentResponse {
            attachment: thing.clone(),
            file: match &thing.file_id {
                Some(id) => conn.files.find(&ByFileId(id)),
                None => None,
            },
            link: match &thing.link_id {
                Some(id) => conn.links.find(&ByLinkId(id)),
                None => None,
            },
        };
        res.push(resp);
        i += 1;
    }
    res
}

/// A notice that is to be sent to `recipients` by e-mail. Sending is left
/// to the caller, and nothing is heard back of it.
#[derive(Debug)]
pub struct Mail {
    pub recipients: Vec<String>,
    pub subject: String,
    pub html: String,
}

/// The page that tells a class of something new of the kind `kind`
/// (`Assignment` or `Announcement`) called `name`, from the user `from`,
/// with the text `text`.
pub open spec fn notice_html(kind: Seq<char>, from: Seq<char>, name: Seq<char>, text: Seq<char>) -> Seq<
    char,
> {
    "<!DOCTYPE html>\n<html lang=\"en\">\n<head>\n    <meta charset=\"UTF-8\">\n    <meta name=\"viewport\" content=\"width=device-width, initial-scale=1.0\">\n    <title>New "@
        + kind
        + "!</title>\n</head>\n<body>\n    <div style=\"display: block; align-items: center;\">\n        <h2 style=\"font-family: Arial, Helvetica, sans-serif;\">New "@
        + kind + " from "@ + from + ": "@ + name
        + "</h2>\n        <br>\n        <h4 style=\"font-family: Arial, Helvetica, sans-serif;\">"@
        + text + "</h4>\n    </div>\n</body>\n</html>"@
}

/// Writes the page that tells a class of something new.
pub fn notice(kind: &str, from: &String, name: &String, text: &String) -> (r: String)
    ensures
        r@ == notice_html(kind@, from@, name@, text@),
{
    String::from_str(
        "<!DOCTYPE html>\n<html lang=\"en\">\n<head>\n    <meta charset=\"UTF-8\">\n    <meta name=\"viewport\" content=\"width=device-width, initial-scale=1.0\">\n    <title>New ",
    ).concat(kind).concat(
        "!</title>\n</head>\n<body>\n    <div style=\"display: block; align-items: center;\">\n        <h2 style=\"font-family: Arial, Helvetica, sans-serif;\">New ",
    ).concat(kind).concat(" from ").concat(from.as_str()).concat(": ").concat(name.as_str()).concat(
        "</h2>\n        <br>\n        <h4 style=\"font-family: Arial, Helvetica, sans-serif;\">",
    ).concat(text.as_str()).concat("</h4>\n    </div>\n</body>\n</html>")
}

/// The addresses of the members `members` who are in `users`, in the
/// order of the memberships.
pub open spec fn addresses(members: Seq<Membership>, users: Seq<User>) -> Seq<String>
    decreases members.len(),
{
    if members.len() == 0 {
        Seq::empty()
    } else {
        let front = addresses(members.drop_last(), users);
        match first(users, ByUserId(&members.last().user_id)) {
            Some(user) => front.push(user.email),
            None => front,
        }
    }
}

/// The e-mail addresses of the members `members`, in their order; a
/// member who is not in the store is passed over.
pub fn emails_of(members: &Vec<Membership>, conn: &DbConn) -> (r: Vec<String>)
    ensures
        r@ == addresses(members@, conn.users@),
{
    let mut emails: Vec<String> = Vec::new();
    let mut i: usize = 0;
    proof {
        assert(members@.take(0) =~= Seq::<Membership>::empty());
    }
    while i < members.len()
        invariant
            i <= members@.len(),
            emails@ == addresses(members@.take(i as int), conn.users@),
        decreases members@.len() - i,
    {
        proof {
            assert(members@.take(i + 1).drop_last() =~= members@.take(i as int));
        }
        match conn.users.find(&ByUserId(&members[i].user_id)) {
            Some(user) => {
                emails.push(user.email);
            },
            None => {},
        }
        i += 1;
    }
    proof {
        assert(members@.take(i as int) =~= members@);
    }
    emails
}

} // verus!
