use rand::Rng;
use vstd::prelude::*;

use crate::db::DbConn;

verus! {

/// The length of the code of a classroom.
pub const CODE_LENGTH: usize = 10;

/// How many codes are drawn before the search for a free one is given up.
pub const CODE_ATTEMPTS: usize = 64;

/// A letter of the English alphabet or a digit.
pub open spec fn is_alphanumeric(c: char) -> bool {
    ('a' <= c && c <= 'z') || ('A' <= c && c <= 'Z') || ('0' <= c && c <= '9')
}

/// A text that can be the code of a classroom: ten letters or digits.
pub open spec fn is_code(s: Seq<char>) -> bool {
    s.len() == CODE_LENGTH && forall|i: int| 0 <= i < s.len() ==> is_alphanumeric(#[trigger] s[i])
}

/// `code` is among `codes`.
pub open spec fn taken(codes: Seq<String>, code: Seq<char>) -> bool {
    exists|i: int| 0 <= i < codes.len() && (#[trigger] codes[i])@ == code
}

/// The codes of all classrooms, in table order.
pub fn get_class_codes(connection: &DbConn) -> (r: Result<Vec<String>, crate::db::QueryError>)
    ensures
        r matches Ok(codes) && codes@.len() == connection.classes@.len() && forall|i: int|
            0 <= i < codes@.len() ==> #[trigger] codes@[i] == connection.classes@[i].class_id,
{
    let n = connection.classes.len();
    let mut codes: Vec<String> = Vec::new();
    let mut i: usize = 0;
    while i < n
        invariant
            i <= n,
            n == connection.classes@.len(),
            codes@.len() == i,
            forall|j: int| 0 <= j < i ==> #[trigger] codes@[j] == connection.classes@[j].class_id,
        decreases n - i,
    {
        codes.push(connection.classes.get(i).class_id.clone());
        i += 1;
    }
    Ok(codes)
}

/// Whether `code` is among `codes`.
pub fn is_taken(codes: &Vec<String>, code: &String) -> (b: bool)
    ensures
        b == taken(codes@, code@),
{
    let mut i: usize = 0;
    while i < codes.len()
        invariant
            i <= codes@.len(),
            forall|j: int| 0 <= j < i ==> (#[trigger] codes@[j])@ != code@,
        decreases codes@.len() - i,
    {
        if codes[i] == *code {
            return true;
        }
        i += 1;
    }
    false
}

/// Draws `n` characters with `rand::distributions::Alphanumeric` from
/// `rand::thread_rng()` and strings them together. The distribution yields
/// ASCII letters and digits only; which ones is left open.
#[verifier::external_body]
fn random_alphanumeric(n: usize) -> (r: String)
    ensures
        r@.len() == n,
        forall|i: int| 0 <= i < r@.len() ==> is_alphanumeric(#[trigger] r@[i]),
{
    rand::thread_rng().sample_iter(&rand::distributions::Alphanumeric).take(n).map(char::from).collect::<
        String,
    >()
}

/// The candidate, if no classroom has it as its code.
pub fn free_code(existing_codes: &Vec<String>, candidate: String) -> (r: Option<String>)
    ensures
        r == if taken(existing_codes@, candidate@) {
            None::<String>
        } else {
            Some(candidate)
        },
{
    if is_taken(existing_codes, &candidate) {
        None
    } else {
        Some(candidate)
    }
}

/// A random code that no classroom has yet: the first free one of up to
/// `CODE_ATTEMPTS` codes drawn in turn; `None` where all of those are taken.
pub fn generate_class_code(existing_codes: &Vec<String>) -> (r: Option<String>)
    ensures
        exists|drawn: Seq<String>|
            {
                &&& drawn.len() <= CODE_ATTEMPTS
                &&& forall|k: int| 0 <= k < drawn.len() ==> is_code((#[trigger] drawn[k])@)
                &&& r == #[trigger] first_free(existing_codes@, drawn)
                &&& r is None ==> drawn.len() == CODE_ATTEMPTS
            },
        r matches Some(code) ==> is_code(code@) && !taken(existing_codes@, code@),
        (forall|i: int| 0 <= i < existing_codes@.len() ==> !is_code((#[trigger] existing_codes@[i])@))
            ==> r is Some,
{
    let ghost mut drawn: Seq<String> = Seq::empty();
    let mut attempt: usize = 0;
    while attempt < CODE_ATTEMPTS
        invariant
            attempt <= CODE_ATTEMPTS,
            drawn.len() == attempt,
            forall|k: int| 0 <= k < drawn.len() ==> is_code((#[trigger] drawn[k])@),
            first_free(existing_codes@, drawn) is None,
            attempt > 0 ==> exists|i: int|
                0 <= i < existing_codes@.len() && is_code((#[trigger] existing_codes@[i])@),
        decreases CODE_ATTEMPTS - attempt,
    {
        let candidate = random_alphanumeric(CODE_LENGTH);
        let ghost before = drawn;
        proof {
            drawn = drawn.push(candidate);
            assert(drawn.drop_last() =~= before);
            assert(drawn.last() == candidate);
            assert(is_code(candidate@));
            assert forall|k: int| 0 <= k < drawn.len() implies is_code((#[trigger] drawn[k])@) by {
                if k < before.len() {
                    assert(drawn[k] == before[k]);
                }
            }
        }
        match free_code(existing_codes, candidate) {
            Some(code) => {
                assert(first_free(existing_codes@, drawn) == Some(code));
                return Some(code);
            },
            None => {
                proof {
                    let i = choose|i: int|
                        0 <= i < existing_codes@.len() && (#[trigger] existing_codes@[i])@
                            == candidate@;
                    assert(is_code(existing_codes@[i]@));
                }
            },
        }
        attempt += 1;
    }
    None
}

/// The first of the codes `drawn`, in the order in which they were drawn,
/// that is not among `codes`; `None` where all of them are.
pub open spec fn first_free(codes: Seq<String>, drawn: Seq<String>) -> Option<String>
    decreases drawn.len(),
{
    if drawn.len() == 0 {
        None
    } else {
        match first_free(codes, drawn.drop_last()) {
            Some(code) => Some(code),
            None => if taken(codes, drawn.last()@) {
                None
            } else {
                Some(drawn.last())
            },
        }
    }
}

} // verus!
