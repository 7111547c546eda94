use vstd::prelude::*;

use crate::announcements::models::Announcement;
use crate::assignments::models::Assignment;
use crate::attachments::models::Attachment;
use crate::classes::models::{Classroom, Topic};
use crate::comments::models::{Comment, PrivateComment};
use crate::files::models::UploadedFile;
use crate::links::models::Link;
use crate::submissions::models::{Mark, Submissions};
use crate::users::models::{Membership, User};

verus! {

/// Why the store turned a statement down.
#[derive(Clone, Copy, Debug, PartialEq, Eq, Structural)]
pub enum QueryError {
    /// No row answers the query.
    NotFound,
    /// The row would repeat a key that has to stay unique.
    UniqueViolation,
}

/// The value of a primary key: a text or a number.
pub enum Key {
    Text(Seq<char>),
    Number(int),
}

/// A row of a table: it names the columns that identify it.
pub trait Row: Sized {
    /// The primary key.
    spec fn key(&self) -> Key;

    /// The columns that must be unique together besides the primary key;
    /// `None` where the table has no such rule.
    spec fn unique(&self) -> Option<Seq<Seq<char>>>;

    /// Whether the two rows have the same primary key.
    fn same_key(&self, other: &Self) -> (b: bool)
        ensures
            b == (self.key() == other.key()),
    ;

    /// Whether the two rows agree on the columns that must be unique together.
    fn same_unique(&self, other: &Self) -> (b: bool)
        ensures
            b == (self.unique() is Some && self.unique() == other.unique()),
    ;

    /// A copy of the row.
    fn duplicate(&self) -> (r: Self)
        ensures
            r == *self,
    ;
}

/// A condition on the rows of a table, as a query states it.
pub trait Filter<T> {
    /// The rows that the condition lets through.
    spec fn accepts(&self, row: &T) -> bool;

    /// Tests one row.
    fn test(&self, row: &T) -> (b: bool)
        ensures
            b == self.accepts(row),
    ;
}

/// Two rows that cannot stand in one table.
pub open spec fn clash<T: Row>(a: T, b: T) -> bool {
    a.key() == b.key() || (a.unique() is Some && a.unique() == b.unique())
}

/// No two rows of `rows` clash.
pub open spec fn distinct<T: Row>(rows: Seq<T>) -> bool {
    forall|i: int, j: int| 0 <= i < rows.len() && 0 <= j < rows.len() && i != j ==> !clash(rows[i], rows[j])
}

/// `row` clashes with no row of `rows`, so that it can join them.
pub open spec fn free_for<T: Row>(rows: Seq<T>, row: T) -> bool {
    forall|j: int| 0 <= j < rows.len() ==> !clash(#[trigger] rows[j], row) && !clash(row, rows[j])
}

/// `i` is the first index at which `f` accepts a row of `rows`.
pub open spec fn is_first<T, F: Filter<T>>(rows: Seq<T>, f: F, i: int) -> bool {
    &&& 0 <= i < rows.len()
    &&& f.accepts(&rows[i])
    &&& forall|j: int| 0 <= j < i ==> !f.accepts(&#[trigger] rows[j])
}

/// `f` accepts no row of `rows`.
pub open spec fn no_match<T, F: Filter<T>>(rows: Seq<T>, f: F) -> bool {
    forall|j: int| 0 <= j < rows.len() ==> !f.accepts(&#[trigger] rows[j])
}

/// The first index at which `f` accepts a row of `rows`, if there is one.
pub open spec fn first_index<T, F: Filter<T>>(rows: Seq<T>, f: F) -> Option<int> {
    if exists|i: int| is_first(rows, f, i) {
        Some(choose|i: int| is_first(rows, f, i))
    } else {
        None
    }
}

/// The first row of `rows` that `f` accepts, if there is one: what a query
/// for a single row gives.
pub open spec fn first<T, F: Filter<T>>(rows: Seq<T>, f: F) -> Option<T> {
    match first_index(rows, f) {
        Some(i) => Some(rows[i]),
        None => None,
    }
}

/// The rows of `rows` that `f` accepts, in order: what a query for many rows gives.
pub open spec fn all<T, F: Filter<T>>(rows: Seq<T>, f: F) -> Seq<T> {
    rows.filter(|row: T| f.accepts(&row))
}

/// There is at most one first match, so `first_index` is any index that is
/// one; and `first_index` is `None` exactly where nothing matches.
pub proof fn lemma_first<T, F: Filter<T>>(rows: Seq<T>, f: F, i: int)
    ensures
        is_first(rows, f, i) <==> first_index(rows, f) == Some(i),
        no_match(rows, f) <==> first_index(rows, f) is None,
{
    if is_first(rows, f, i) {
        let k = choose|k: int| is_first(rows, f, k);
        assert(k == i) by {
            if k < i {
                assert(!f.accepts(&rows[k]));
            }
            if i < k {
                assert(!f.accepts(&rows[i]));
            }
        }
    }
    if first_index(rows, f) is None && !no_match(rows, f) {
        lemma_least_match(rows, f, rows.len() as int);
    }
    if first_index(rows, f) is Some && no_match(rows, f) {
        let k = choose|k: int| is_first(rows, f, k);
        assert(!f.accepts(&rows[k]));
    }
}

/// Where `f` accepts a row below index `n`, some index is the first match.
proof fn lemma_least_match<T, F: Filter<T>>(rows: Seq<T>, f: F, n: int)
    requires
        0 <= n <= rows.len(),
    ensures
        (exists|j: int| 0 <= j < n && f.accepts(&rows[j])) ==> exists|i: int| is_first(rows, f, i),
    decreases n,
{
    if n > 0 {
        lemma_least_match(rows, f, n - 1);
        if !(exists|j: int| 0 <= j < n - 1 && f.accepts(&rows[j])) {
            if f.accepts(&rows[n - 1]) {
                assert(is_first(rows, f, n - 1));
            }
        }
    }
}

/// In rows that do not clash, a key names one row: two places whose rows
/// have the same primary key, or agree on the columns that must be unique
/// together, are one place.
pub proof fn lemma_keys_identify<T: Row>(rows: Seq<T>, i: int, j: int)
    requires
        distinct(rows),
        0 <= i < rows.len(),
        0 <= j < rows.len(),
        clash(rows[i], rows[j]),
    ensures
        i == j,
{
}

/// A row that clashes with a row of the table cannot join it.
pub proof fn lemma_clash_is_refused<T: Row>(rows: Seq<T>, row: T, i: int)
    requires
        0 <= i < rows.len(),
        clash(rows[i], row) || clash(row, rows[i]),
    ensures
        !free_for(rows, row),
{
}

/// A query for many rows gives none exactly where nothing matches.
pub proof fn lemma_all_empty<T, F: Filter<T>>(rows: Seq<T>, f: F)
    ensures
        all(rows, f).len() == 0 <==> no_match(rows, f),
    decreases rows.len(),
{
    reveal(Seq::filter);
    let pred = |row: T| f.accepts(&row);
    if rows.len() > 0 {
        let front = rows.drop_last();
        lemma_all_empty(front, f);
        assert(all(front, f) == front.filter(pred));
        if no_match(rows, f) {
            assert(!f.accepts(&rows[rows.len() - 1]));
            assert forall|j: int| 0 <= j < front.len() implies !f.accepts(&#[trigger] front[j]) by {
                assert(front[j] == rows[j]);
            }
        }
        if all(rows, f).len() == 0 {
            assert(!pred(rows.last()));
            assert forall|j: int| 0 <= j < rows.len() implies !f.accepts(&#[trigger] rows[j]) by {
                if j < front.len() {
                    assert(front[j] == rows[j]);
                }
            }
        }
    }
}

/// A table of the store: its rows in the order in which they were inserted,
/// no two of them with the same key.
pub struct Table<T: Row> {
    rows: Vec<T>,
}

impl<T: Row> View for Table<T> {
    type V = Seq<T>;

    closed spec fn view(&self) -> Seq<T> {
        self.rows@
    }
}

impl<T: Row> Table<T> {
    #[verifier::type_invariant]
    spec fn inv(&self) -> bool {
        distinct(self.rows@)
    }

    /// Does nothing when run. To the verifier it recalls what every table
    /// guarantees: no two of its rows clash.
    pub fn keys_apart(&self)
        ensures
            distinct(self@),
    {
        proof {
            use_type_invariant(self);
        }
    }

    /// An empty table.
    pub fn new() -> (r: Self)
        ensures
            r@ == Seq::<T>::empty(),
    {
        Table { rows: Vec::new() }
    }

    /// The number of rows.
    pub fn len(&self) -> (n: usize)
        ensures
            n == self@.len(),
    {
        self.rows.len()
    }

    /// The row at index `i`.
    pub fn get(&self, i: usize) -> (r: &T)
        requires
            i < self@.len(),
        ensures
            *r == self@[i as int],
    {
        &self.rows[i]
    }

    /// The index of the first row that `f` accepts.
    pub fn position<F: Filter<T>>(&self, f: &F) -> (r: Option<usize>)
        ensures
            match r {
                Some(i) => first_index(self@, *f) == Some(i as int) && is_first(self@, *f, i as int),
                None => first_index(self@, *f) is None && no_match(self@, *f),
            },
    {
        let mut i: usize = 0;
        while i < self.rows.len()
            invariant
                i <= self.rows@.len(),
                forall|j: int| 0 <= j < i ==> !f.accepts(&#[trigger] self.rows@[j]),
            decreases self.rows@.len() - i,
        {
            if f.test(&self.rows[i]) {
                proof {
                    lemma_first(self.rows@, *f, i as int);
                }
                return Some(i);
            }
            i += 1;
        }
        proof {
            lemma_first(self.rows@, *f, 0);
        }
        None
    }

    /// A copy of the first row that `f` accepts.
    pub fn find<F: Filter<T>>(&self, f: &F) -> (r: Option<T>)
        ensures
            r == first(self@, *f),
    {
        match self.position(f) {
            Some(i) => Some(self.rows[i].duplicate()),
            None => None,
        }
    }

    /// Copies of the rows that `f` accepts, in table order.
    pub fn select<F: Filter<T>>(&self, f: &F) -> (r: Vec<T>)
        ensures
            r@ == all(self@, *f),
    {
        let ghost pred = |row: T| f.accepts(&row);
        let mut out: Vec<T> = Vec::new();
        let mut i: usize = 0;
        proof {
            reveal(Seq::filter);
            assert(self.rows@.take(0) =~= Seq::<T>::empty());
        }
        while i < self.rows.len()
            invariant
                i <= self.rows@.len(),
                pred == (|row: T| f.accepts(&row)),
                out@ == self.rows@.take(i as int).filter(pred),
            decreases self.rows@.len() - i,
        {
            proof {
                reveal(Seq::filter);
                assert(self.rows@.take(i + 1).drop_last() =~= self.rows@.take(i as int));
            }
            if f.test(&self.rows[i]) {
                out.push(self.rows[i].duplicate());
            }
            i += 1;
        }
        proof {
            assert(self.rows@.take(i as int) =~= self.rows@);
        }
        out
    }

    /// Adds `row` at the end, unless it clashes with a row of the table.
    pub fn insert(&mut self, row: T) -> (r: Result<(), QueryError>)
        ensures
            r is Ok <==> free_for(old(self)@, row),
            r is Ok ==> final(self)@ == old(self)@.push(row),
            r is Err ==> r == Err::<(), QueryError>(QueryError::UniqueViolation) && final(self)@ == old(self)@,
    {
        proof {
            use_type_invariant(&*self);
        }
        let mut i: usize = 0;
        while i < self.rows.len()
            invariant
                i <= self.rows@.len(),
                self.rows@ == old(self).rows@,
                forall|j: int| 0 <= j < i ==> !clash(#[trigger] self.rows@[j], row) && !clash(row, self.rows@[j]),
            decreases self.rows@.len() - i,
        {
            let other = &self.rows[i];
            if other.same_key(&row) || other.same_unique(&row) || row.same_unique(other) {
                assert(clash(self.rows@[i as int], row) || clash(row, self.rows@[i as int]));
                return Err(QueryError::UniqueViolation);
            }
            i += 1;
        }
        let mut rows: Vec<T> = Vec::new();
        std::mem::swap(&mut self.rows, &mut rows);
        rows.push(row);
        std::mem::swap(&mut self.rows, &mut rows);
        Ok(())
    }

    /// Puts `row` in the place of the row at index `i`, whose keys it shares.
    pub fn replace(&mut self, i: usize, row: T)
        requires
            i < old(self)@.len(),
            row.key() == old(self)@[i as int].key(),
            row.unique() == old(self)@[i as int].unique(),
        ensures
            final(self)@ == old(self)@.update(i as int, row),
    {
        proof {
            use_type_invariant(&*self);
        }
        let mut rows: Vec<T> = Vec::new();
        std::mem::swap(&mut self.rows, &mut rows);
        let ghost before = rows@;
        rows.set(i, row);
        proof {
            assert forall|a: int, b: int|
                0 <= a < rows@.len() && 0 <= b < rows@.len() && a != b implies !clash(
                rows@[a],
                rows@[b],
            ) by {
                assert(!clash(before[a], before[b]));
            }
        }
        std::mem::swap(&mut self.rows, &mut rows);
    }

    /// Puts `row` in the place of the row at index `i`, unless it clashes
    /// with another row of the table.
    pub fn put(&mut self, i: usize, row: T) -> (r: Result<(), QueryError>)
        requires
            i < old(self)@.len(),
        ensures
            r is Ok <==> free_for(old(self)@.remove(i as int), row),
            r is Ok ==> final(self)@ == old(self)@.update(i as int, row),
            r is Err ==> r == Err::<(), QueryError>(QueryError::UniqueViolation) && final(self)@ == old(self)@,
    {
        proof {
            use_type_invariant(&*self);
        }
        let ghost others = self.rows@.remove(i as int);
        let mut j: usize = 0;
        while j < self.rows.len()
            invariant
                j <= self.rows@.len(),
                i < self.rows@.len(),
                self.rows@ == old(self).rows@,
                others == self.rows@.remove(i as int),
                forall|k: int|
                    0 <= k < j && k != i ==> !clash(#[trigger] self.rows@[k], row) && !clash(
                        row,
                        self.rows@[k],
                    ),
            decreases self.rows@.len() - j,
        {
            let other = &self.rows[j];
            if j != i && (other.same_key(&row) || other.same_unique(&row) || row.same_unique(other)) {
                proof {
                    let k = if j < i { j as int } else { j - 1 };
                    assert(others[k] == self.rows@[j as int]);
                    assert(clash(others[k], row) || clash(row, others[k]));
                }
                return Err(QueryError::UniqueViolation);
            }
            j += 1;
        }
        proof {
            assert forall|k: int| 0 <= k < others.len() implies !clash(#[trigger] others[k], row)
                && !clash(row, others[k]) by {
                let k0 = if k < i { k } else { k + 1 };
                assert(others[k] == self.rows@[k0]);
            }
        }
        let mut rows: Vec<T> = Vec::new();
        std::mem::swap(&mut self.rows, &mut rows);
        let ghost before = rows@;
        rows.set(i, row);
        proof {
            assert forall|a: int, b: int|
                0 <= a < rows@.len() && 0 <= b < rows@.len() && a != b implies !clash(
                rows@[a],
                rows@[b],
            ) by {
                assert(!clash(before[a], before[b]));
                if a == i {
                    assert(!clash(row, before[b]));
                }
                if b == i {
                    assert(!clash(before[a], row));
                }
            }
        }
        std::mem::swap(&mut self.rows, &mut rows);
        Ok(())
    }

    /// Takes the row at index `i` out of the table.
    pub fn remove(&mut self, i: usize) -> (r: T)
        requires
            i < old(self)@.len(),
        ensures
            r == old(self)@[i as int],
            final(self)@ == old(self)@.remove(i as int),
    {
        proof {
            use_type_invariant(&*self);
        }
        let mut rows: Vec<T> = Vec::new();
        std::mem::swap(&mut self.rows, &mut rows);
        let ghost before = rows@;
        let row = rows.remove(i);
        proof {
            assert forall|a: int, b: int|
                0 <= a < rows@.len() && 0 <= b < rows@.len() && a != b implies !clash(
                rows@[a],
                rows@[b],
            ) by {
                let a0 = if a < i { a } else { a + 1 };
                let b0 = if b < i { b } else { b + 1 };
                assert(!clash(before[a0], before[b0]));
            }
        }
        std::mem::swap(&mut self.rows, &mut rows);
        row
    }

    /// Copies of all rows, in table order.
    pub fn rows(&self) -> (r: Vec<T>)
        ensures
            r@ == self@,
    {
        let mut out: Vec<T> = Vec::new();
        let mut i: usize = 0;
        while i < self.rows.len()
            invariant
                i <= self.rows@.len(),
                out@ == self.rows@.take(i as int),
            decreases self.rows@.len() - i,
        {
            out.push(self.rows[i].duplicate());
            proof {
                assert(self.rows@.take(i + 1) =~= self.rows@.take(i as int).push(self.rows@[i as int]));
            }
            i += 1;
        }
        proof {
            assert(self.rows@.take(i as int) =~= self.rows@);
        }
        out
    }
}

/// The store that the models read and write: one table per kind of row.
pub struct DbConn {
    pub users: Table<User>,
    pub memberships: Table<Membership>,
    pub classes: Table<Classroom>,
    pub topics: Table<Topic>,
    pub assignments: Table<Assignment>,
    pub submissions: Table<Submissions>,
    pub marks: Table<Mark>,
    pub attachments: Table<Attachment>,
    pub files: Table<UploadedFile>,
    pub links: Table<Link>,
    pub comments: Table<Comment>,
    pub private_comments: Table<PrivateComment>,
    pub announcements: Table<Announcement>,
}

impl DbConn {
    /// A store with nothing in it.
    pub fn new() -> (r: DbConn)
        ensures
            r.users@.len() == 0,
            r.memberships@.len() == 0,
            r.classes@.len() == 0,
            r.topics@.len() == 0,
            r.assignments@.len() == 0,
            r.submissions@.len() == 0,
            r.marks@.len() == 0,
            r.attachments@.len() == 0,
            r.files@.len() == 0,
            r.links@.len() == 0,
            r.comments@.len() == 0,
            r.private_comments@.len() == 0,
            r.announcements@.len() == 0,
    {
        DbConn {
            users: Table::new(),
            memberships: Table::new(),
            classes: Table::new(),
            topics: Table::new(),
            assignments: Table::new(),
            submissions: Table::new(),
            marks: Table::new(),
            attachments: Table::new(),
            files: Table::new(),
            links: Table::new(),
            comments: Table::new(),
            private_comments: Table::new(),
            announcements: Table::new(),
        }
    }
}

} // verus!
