use vstd::prelude::*;

use crate::clock::DateTime;
use crate::db::{first, free_for, DbConn, Filter, Key, QueryError, Row};
use crate::errors::{ErrorKind, ThearningResult};
use crate::text;
use crate::traits::Embedable;

verus! {

/// A link with the preview that was made of its target.
#[derive(Debug)]
pub struct Link {
    pub id: String,
    pub title: Option<String>,
    pub description: Option<String>,
    pub thumbnail: Option<String>,
    pub url: Option<String>,
    pub created_at: DateTime,
}

impl Clone for Link {
    fn clone(&self) -> (r: Self)
        ensures
            r == *self,
    {
        Link {
            id: self.id.clone(),
            title: text::copy_of(&self.title),
            description: text::copy_of(&self.description),
            thumbnail: text::copy_of(&self.thumbnail),
            url: text::copy_of(&self.url),
            created_at: self.created_at,
        }
    }
}

impl Row for Link {
    open spec fn key(&self) -> Key {
        Key::Text(self.id@)
    }

    open spec fn unique(&self) -> Option<Seq<Seq<char>>> {
        None
    }

    fn same_key(&self, other: &Self) -> (b: bool) {
        self.id == other.id
    }

    fn same_unique(&self, other: &Self) -> (b: bool) {
        false
    }

    fn duplicate(&self) -> (r: Self) {
        self.clone()
    }
}

impl Embedable for Link {

}

/// The link with a given id.
pub struct ByLinkId<'a>(pub &'a String);

impl<'a> Filter<Link> for ByLinkId<'a> {
    open spec fn accepts(&self, row: &Link) -> bool {
        row.id@ == self.0@
    }

    fn test(&self, row: &Link) -> (b: bool) {
        row.id == *self.0
    }
}

impl Link {
    /// The link with the id `id`.
    pub fn receive(id: &String, conn: &DbConn) -> (r: ThearningResult<Link>)
        ensures
            r == match first(conn.links@, ByLinkId(id)) {
                Some(found) => Ok::<Link, ErrorKind>(found),
                None => Err::<Link, ErrorKind>(ErrorKind::QueryError(QueryError::NotFound)),
            },
    {
        match conn.links.find(&ByLinkId(id)) {
            Some(found) => Ok(found),
            None => Err(ErrorKind::QueryError(QueryError::NotFound)),
        }
    }

    /// Stores the link; `UniqueViolation` where its id is taken.
    pub fn create(new_data: Link, conn: &mut DbConn) -> (r: ThearningResult<Link>)
        ensures
            if free_for(old(conn).links@, new_data) {
                &&& r == Ok::<Link, ErrorKind>(new_data)
                &&& final(conn).links@ == old(conn).links@.push(new_data)
            } else {
                &&& r == Err::<Link, ErrorKind>(ErrorKind::QueryError(QueryError::UniqueViolation))
                &&& final(conn).links@ == old(conn).links@
            },
            *final(conn) == (DbConn { links: final(conn).links, ..*old(conn) }),
    {
        let copy = new_data.clone();
        match conn.links.insert(new_data) {
            Ok(_) => Ok(copy),
            Err(e) => Err(ErrorKind::QueryError(e)),
        }
    }
}

} // verus!
