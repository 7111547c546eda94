use vstd::prelude::*;
use vstd::string::StringExecFns;

use crate::clock::{local_now, DateTime};
use crate::db::{first, free_for, DbConn, Filter, Key, QueryError, Row};
use crate::errors::ErrorKind;
use crate::text;
use crate::traits::Embedable;

verus! {

/// The kinds of file that can be attached.
#[derive(Clone, Copy, Debug, PartialEq, Eq, Structural)]
pub enum FileType {
    MP4,
    MKV,
    JPEG,
    PNG,
    PDF,
    Text,
    RAR,
    ZIP,
    WordDocument,
    ExcelDocument,
}

/// What an upload is for.
#[derive(Clone, Copy, Debug, PartialEq, Eq, Structural)]
pub enum UploadType {
    ProfilePhoto,
    ClassPicture,
    AssignmentFile,
}

impl FileType {
    /// The kind of file that a content type names, if it names one.
    pub open spec fn parse(filetype: Seq<char>) -> Option<FileType> {
        if filetype == "video/mp4"@ {
            Some(FileType::MP4)
        } else if filetype == "video/x-matroska"@ {
            Some(FileType::MKV)
        } else if filetype == "image/jpeg"@ {
            Some(FileType::JPEG)
        } else if filetype == "image/png"@ {
            Some(FileType::PNG)
        } else if filetype == "application/pdf"@ {
            Some(FileType::PDF)
        } else if filetype == "text/plain"@ {
            Some(FileType::Text)
        } else if filetype == "application/vnd.rar"@ {
            Some(FileType::RAR)
        } else if filetype == "application/zip"@ {
            Some(FileType::ZIP)
        } else if filetype
            == "application/vnd.openxmlformats-officedocument.wordprocessingml.document"@ {
            Some(FileType::WordDocument)
        } else if filetype == "application/vnd.openxmlformats-officedocument.spreadsheetml.sheet"@ {
            Some(FileType::ExcelDocument)
        } else {
            None
        }
    }

    /// The extension of files of the kind.
    pub open spec fn spec_ext(self) -> Seq<char> {
        match self {
            FileType::MP4 => "mp4"@,
            FileType::MKV => "mkv"@,
            FileType::JPEG => "jpeg"@,
            FileType::PNG => "png"@,
            FileType::PDF => "pdf"@,
            FileType::Text => "txt"@,
            FileType::RAR => "rar"@,
            FileType::ZIP => "zip"@,
            FileType::WordDocument => "docx"@,
            FileType::ExcelDocument => "xlsx"@,
        }
    }

    /// The name under which the kind is stored with a file.
    pub open spec fn spec_name(self) -> Seq<char> {
        match self {
            FileType::MP4 => "mp4"@,
            FileType::MKV => "matroshka"@,
            FileType::JPEG => "jpeg"@,
            FileType::PNG => "png"@,
            FileType::PDF => "pdf"@,
            FileType::Text => "text"@,
            FileType::RAR => "rar"@,
            FileType::ZIP => "zip"@,
            FileType::WordDocument => "docx"@,
            FileType::ExcelDocument => "xlsx"@,
        }
    }

    /// Reads the kind of a file from its content type; a content type that
    /// is not among the ten known ones is refused with `InvalidValue`.
    pub fn from_str(filetype: &String) -> (r: Result<FileType, ErrorKind>)
        ensures
            r == match FileType::parse(filetype@) {
                Some(kind) => Ok::<FileType, ErrorKind>(kind),
                None => Err::<FileType, ErrorKind>(ErrorKind::InvalidValue),
            },
    {
        if text::is(filetype, "video/mp4") {
            Ok(FileType::MP4)
        } else if text::is(filetype, "video/x-matroska") {
            Ok(FileType::MKV)
        } else if text::is(filetype, "image/jpeg") {
            Ok(FileType::JPEG)
        } else if text::is(filetype, "image/png") {
            Ok(FileType::PNG)
        } else if text::is(filetype, "application/pdf") {
            Ok(FileType::PDF)
        } else if text::is(filetype, "text/plain") {
            Ok(FileType::Text)
        } else if text::is(filetype, "application/vnd.rar") {
            Ok(FileType::RAR)
        } else if text::is(filetype, "application/zip") {
            Ok(FileType::ZIP)
        } else if text::is(
            filetype,
            "application/vnd.openxmlformats-officedocument.wordprocessingml.document",
        ) {
            Ok(FileType::WordDocument)
        } else if text::is(
            filetype,
            "application/vnd.openxmlformats-officedocument.spreadsheetml.sheet",
        ) {
            Ok(FileType::ExcelDocument)
        } else {
            Err(ErrorKind::InvalidValue)
        }
    }

    /// The extension of files of the kind.
    pub fn ext(&self) -> (s: &'static str)
        ensures
            s@ == self.spec_ext(),
    {
        match self {
            FileType::MP4 => "mp4",
            FileType::MKV => "mkv",
            FileType::JPEG => "jpeg",
            FileType::PNG => "png",
            FileType::PDF => "pdf",
            FileType::Text => "txt",
            FileType::RAR => "rar",
            FileType::ZIP => "zip",
            FileType::WordDocument => "docx",
            FileType::ExcelDocument => "xlsx",
        }
    }

    /// The name under which the kind is stored with a file.
    pub fn to_string(&self) -> (s: String)
        ensures
            s@ == self.spec_name(),
    {
        let name = match self {
            FileType::MP4 => "mp4",
            FileType::MKV => "matroshka",
            FileType::JPEG => "jpeg",
            FileType::PNG => "png",
            FileType::PDF => "pdf",
            FileType::Text => "text",
            FileType::RAR => "rar",
            FileType::ZIP => "zip",
            FileType::WordDocument => "docx",
            FileType::ExcelDocument => "xlsx",
        };
        String::from_str(name)
    }
}

/// A file that was uploaded.
#[derive(Debug)]
pub struct UploadedFile {
    pub file_id: String,
    pub filename: String,
    pub file_path: String,
    pub file_url: String,
    pub filetype: String,
    pub created_at: DateTime,
}

impl Clone for UploadedFile {
    fn clone(&self) -> (r: Self)
        ensures
            r == *self,
    {
        UploadedFile {
            file_id: self.file_id.clone(),
            filename: self.filename.clone(),
            file_path: self.file_path.clone(),
            file_url: self.file_url.clone(),
            filetype: self.filetype.clone(),
            created_at: self.created_at,
        }
    }
}

impl Row for UploadedFile {
    open spec fn key(&self) -> Key {
        Key::Text(self.file_id@)
    }

    open spec fn unique(&self) -> Option<Seq<Seq<char>>> {
        None
    }

    fn same_key(&self, other: &Self) -> (b: bool) {
        self.file_id == other.file_id
    }

    fn same_unique(&self, other: &Self) -> (b: bool) {
        false
    }

    fn duplicate(&self) -> (r: Self) {
        self.clone()
    }
}

impl Embedable for UploadedFile {

}

/// The file with a given id.
pub struct ByFileId<'a>(pub &'a String);

impl<'a> Filter<UploadedFile> for ByFileId<'a> {
    open spec fn accepts(&self, row: &UploadedFile) -> bool {
        row.file_id@ == self.0@
    }

    fn test(&self, row: &UploadedFile) -> (b: bool) {
        row.file_id == *self.0
    }
}

/// The file that is served under a given address.
pub struct ByFileUrl<'a>(pub &'a String);

impl<'a> Filter<UploadedFile> for ByFileUrl<'a> {
    open spec fn accepts(&self, row: &UploadedFile) -> bool {
        row.file_url@ == self.0@
    }

    fn test(&self, row: &UploadedFile) -> (b: bool) {
        row.file_url == *self.0
    }
}

impl UploadedFile {
    /// Records a file as uploaded at `now`; `UniqueViolation` where its id
    /// is taken.
    pub fn new_at(
        file_id: &String,
        filename: &String,
        file_path: &String,
        file_url: &String,
        filetype: &String,
        now: DateTime,
        conn: &mut DbConn,
    ) -> (r: Result<UploadedFile, QueryError>)
        ensures
            ({
                let row = UploadedFile {
                    file_id: *file_id,
                    filename: *filename,
                    file_path: *file_path,
                    file_url: *file_url,
                    filetype: *filetype,
                    created_at: now,
                };
                if free_for(old(conn).files@, row) {
                    &&& r == Ok::<UploadedFile, QueryError>(row)
                    &&& final(conn).files@ == old(conn).files@.push(row)
                } else {
                    &&& r == Err::<UploadedFile, QueryError>(QueryError::UniqueViolation)
                    &&& final(conn).files@ == old(conn).files@
                }
            }),
            *final(conn) == (DbConn { files: final(conn).files, ..*old(conn) }),
    {
        let row = UploadedFile {
            file_id: file_id.clone(),
            filename: filename.clone(),
            file_path: file_path.clone(),
            file_url: file_url.clone(),
            filetype: filetype.clone(),
            created_at: now,
        };
        let copy = row.clone();
        match conn.files.insert(row) {
            Ok(_) => Ok(copy),
            Err(e) => Err(e),
        }
    }

    /// Records a file as uploaded at the time of the wall clock.
    pub fn new(
        file_id: &String,
        filename: &String,
        file_path: &String,
        file_url: &String,
        filetype: &String,
        conn: &mut DbConn,
    ) -> (r: Result<UploadedFile, QueryError>)
        ensures
            match r {
                Ok(row) => {
                    &&& row == UploadedFile {
                        file_id: *file_id,
                        filename: *filename,
                        file_path: *file_path,
                        file_url: *file_url,
                        filetype: *filetype,
                        created_at: row.created_at,
                    }
                    &&& row.created_at.wf()
                    &&& free_for(old(conn).files@, row)
                    &&& final(conn).files@ == old(conn).files@.push(row)
                },
                Err(e) => e == QueryError::UniqueViolation && final(conn).files@ == old(conn).files@,
            },
            *final(conn) == (DbConn { files: final(conn).files, ..*old(conn) }),
    {
        let now = local_now();
        UploadedFile::new_at(file_id, filename, file_path, file_url, filetype, now, conn)
    }

    /// The file with the id `file_id`.
    pub fn receive(file_id: &String, conn: &DbConn) -> (r: Result<UploadedFile, QueryError>)
        ensures
            r == match first(conn.files@, ByFileId(file_id)) {
                Some(found) => Ok::<UploadedFile, QueryError>(found),
                None => Err::<UploadedFile, QueryError>(QueryError::NotFound),
            },
    {
        match conn.files.find(&ByFileId(file_id)) {
            Some(found) => Ok(found),
            None => Err(QueryError::NotFound),
        }
    }

    /// The file that is served under the address `url`.
    pub fn get_from_url(url: &String, conn: &DbConn) -> (r: Result<UploadedFile, QueryError>)
        ensures
            r == match first(conn.files@, ByFileUrl(url)) {
                Some(found) => Ok::<UploadedFile, QueryError>(found),
                None => Err::<UploadedFile, QueryError>(QueryError::NotFound),
            },
    {
        match conn.files.find(&ByFileUrl(url)) {
            Some(found) => Ok(found),
            None => Err(QueryError::NotFound),
        }
    }
}

} // verus!
