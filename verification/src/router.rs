use vstd::prelude::*;

use crate::errors::Status;

verus! {

/// The HTTP methods that the service answers.
#[derive(Clone, Copy, Debug, PartialEq, Eq, Structural)]
pub enum Method {
    Get,
    Post,
    Patch,
    Delete,
    Options,
}

/// The operations of the service, one for each route.
#[derive(Clone, Copy, Debug, PartialEq, Eq, Structural)]
pub enum Endpoint {
    HandleCors,
    CreateUser,
    Info,
    DeleteUser,
    PasswordChange,
    UpdateUser,
    Login,
    CreateClassroom,
    Join,
    Classrooms,
    Topic,
    Class,
    Draft,
    UpdateAssignment,
    DeleteAssignment,
    StudentsAssignment,
    TeachersAssignment,
    SubmitSubmission,
    UnsubmitSubmission,
    TeachersSubmission,
    AllTeachersAssignment,
    PostComment,
    PostPrivateComment,
    DeleteComment,
    DeletePrivateComment,
    DraftAnnouncement,
    UpdateAnnouncement,
    DeleteAnnouncement,
    GetAnnouncements,
    GetAnnouncement,
    MarkSubmission,
    UpdateMark,
    UpdateClass,
    UploadFile,
    HandleLink,
    DeleteAttachment,
}

/// The directories of uploaded media that are served as they are.
#[derive(Clone, Copy, Debug, PartialEq, Eq, Structural)]
pub enum MediaDir {
    Profiles,
    Classes,
    Attachments,
}

impl Endpoint {
    /// The method of the route.
    pub open spec fn spec_method(self) -> Method {
        match self {
            Endpoint::HandleCors => Method::Options,
            Endpoint::Info
            | Endpoint::Classrooms
            | Endpoint::Class
            | Endpoint::StudentsAssignment
            | Endpoint::TeachersAssignment
            | Endpoint::TeachersSubmission
            | Endpoint::AllTeachersAssignment
            | Endpoint::GetAnnouncements
            | Endpoint::GetAnnouncement => Method::Get,
            Endpoint::DeleteUser
            | Endpoint::DeleteAssignment
            | Endpoint::DeleteComment
            | Endpoint::DeletePrivateComment
            | Endpoint::DeleteAnnouncement
            | Endpoint::DeleteAttachment => Method::Delete,
            Endpoint::UpdateAssignment
            | Endpoint::UpdateAnnouncement
            | Endpoint::UpdateMark
            | Endpoint::UpdateClass => Method::Patch,
            _ => Method::Post,
        }
    }

    /// The prefix under which the route is mounted.
    pub open spec fn spec_base(self) -> Seq<char> {
        match self {
            Endpoint::HandleCors => "/"@,
            Endpoint::CreateUser
            | Endpoint::Info
            | Endpoint::DeleteUser
            | Endpoint::PasswordChange
            | Endpoint::UpdateUser => "/api/user"@,
            Endpoint::Login => "/api/auth"@,
            Endpoint::UploadFile => "/api/upload"@,
            Endpoint::HandleLink => "/api/links"@,
            Endpoint::DeleteAttachment => "/api/attachments"@,
            _ => "/api/classroom"@,
        }
    }

    /// The path of the route below its prefix, with the parameters in
    /// angle brackets.
    pub open spec fn spec_path(self) -> Seq<char> {
        match self {
            Endpoint::HandleCors => "/<_..>"@,
            Endpoint::CreateUser
            | Endpoint::Info
            | Endpoint::DeleteUser
            | Endpoint::Login
            | Endpoint::CreateClassroom
            | Endpoint::Classrooms
            | Endpoint::UploadFile
            | Endpoint::HandleLink => "/"@,
            Endpoint::PasswordChange => "/password_change"@,
            Endpoint::UpdateUser => "/update"@,
            Endpoint::Join | Endpoint::Class | Endpoint::UpdateClass => "/<class_id>"@,
            Endpoint::Topic => "/topic"@,
            Endpoint::Draft | Endpoint::UpdateAssignment => "/<class_id>/assignments"@,
            Endpoint::DeleteAssignment => "/<class_id>/assignments/<assignment_id>"@,
            Endpoint::StudentsAssignment => "/<class_id>/assignments/students/<assignment_id>"@,
            Endpoint::TeachersAssignment => "/<class_id>/assignments/teachers/<assignment_id>"@,
            Endpoint::TeachersSubmission => "/<class_id>/assignments/teachers/<assignment_id>/submissions/<submission_id>"@,
            Endpoint::AllTeachersAssignment => "/<class_id>/assignments/teachers/<teacher_id>?<draft>"@,
            Endpoint::SubmitSubmission => "/<class_id>/submissions/<submission_id>/submit"@,
            Endpoint::UnsubmitSubmission => "/<class_id>/submissions/<submission_id>/unsubmit"@,
            Endpoint::MarkSubmission | Endpoint::UpdateMark => "/<class_id>/submissions/<submission_id>/mark"@,
            Endpoint::PostComment | Endpoint::DeleteComment => "/<class_id>/comments"@,
            Endpoint::PostPrivateComment | Endpoint::DeletePrivateComment => "/<class_id>/privatecomments"@,
            Endpoint::DraftAnnouncement
            | Endpoint::UpdateAnnouncement
            | Endpoint::GetAnnouncements => "/<class_id>/announcements"@,
            Endpoint::DeleteAnnouncement | Endpoint::GetAnnouncement => "/<class_id>/announcements/<announcement_id>"@,
            Endpoint::DeleteAttachment => "/<attachment_id>"@,
        }
    }

    /// The method of the route.
    pub fn method(&self) -> (m: Method)
        ensures
            m == self.spec_method(),
    {
        match self {
            Endpoint::HandleCors => Method::Options,
            Endpoint::Info
            | Endpoint::Classrooms
            | Endpoint::Class
            | Endpoint::StudentsAssignment
            | Endpoint::TeachersAssignment
            | Endpoint::TeachersSubmission
            | Endpoint::AllTeachersAssignment
            | Endpoint::GetAnnouncements
            | Endpoint::GetAnnouncement => Method::Get,
            Endpoint::DeleteUser
            | Endpoint::DeleteAssignment
            | Endpoint::DeleteComment
            | Endpoint::DeletePrivateComment
            | Endpoint::DeleteAnnouncement
            | Endpoint::DeleteAttachment => Method::Delete,
            Endpoint::UpdateAssignment
            | Endpoint::UpdateAnnouncement
            | Endpoint::UpdateMark
            | Endpoint::UpdateClass => Method::Patch,
            _ => Method::Post,
        }
    }

    /// The prefix under which the route is mounted.
    pub fn base(&self) -> (s: &'static str)
        ensures
            s@ == self.spec_base(),
    {
        match self {
            Endpoint::HandleCors => "/",
            Endpoint::CreateUser
            | Endpoint::Info
            | Endpoint::DeleteUser
            | Endpoint::PasswordChange
            | Endpoint::UpdateUser => "/api/user",
            Endpoint::Login => "/api/auth",
            Endpoint::UploadFile => "/api/upload",
            Endpoint::HandleLink => "/api/links",
            Endpoint::DeleteAttachment => "/api/attachments",
            _ => "/api/classroom",
        }
    }

    /// The path of the route below its prefix.
    pub fn path(&self) -> (s: &'static str)
        ensures
            s@ == self.spec_path(),
    {
        match self {
            Endpoint::HandleCors => "/<_..>",
            Endpoint::CreateUser
            | Endpoint::Info
            | Endpoint::DeleteUser
            | Endpoint::Login
            | Endpoint::CreateClassroom
            | Endpoint::Classrooms
            | Endpoint::UploadFile
            | Endpoint::HandleLink => "/",
            Endpoint::PasswordChange => "/password_change",
            Endpoint::UpdateUser => "/update",
            Endpoint::Join | Endpoint::Class | Endpoint::UpdateClass => "/<class_id>",
            Endpoint::Topic => "/topic",
            Endpoint::Draft | Endpoint::UpdateAssignment => "/<class_id>/assignments",
            Endpoint::DeleteAssignment => "/<class_id>/assignments/<assignment_id>",
            Endpoint::StudentsAssignment => "/<class_id>/assignments/students/<assignment_id>",
            Endpoint::TeachersAssignment => "/<class_id>/assignments/teachers/<assignment_id>",
            Endpoint::TeachersSubmission => "/<class_id>/assignments/teachers/<assignment_id>/submissions/<submission_id>",
            Endpoint::AllTeachersAssignment => "/<class_id>/assignments/teachers/<teacher_id>?<draft>",
            Endpoint::SubmitSubmission => "/<class_id>/submissions/<submission_id>/submit",
            Endpoint::UnsubmitSubmission => "/<class_id>/submissions/<submission_id>/unsubmit",
            Endpoint::MarkSubmission | Endpoint::UpdateMark => "/<class_id>/submissions/<submission_id>/mark",
            Endpoint::PostComment | Endpoint::DeleteComment => "/<class_id>/comments",
            Endpoint::PostPrivateComment | Endpoint::DeletePrivateComment => "/<class_id>/privatecomments",
            Endpoint::DraftAnnouncement
            | Endpoint::UpdateAnnouncement
            | Endpoint::GetAnnouncements => "/<class_id>/announcements",
            Endpoint::DeleteAnnouncement | Endpoint::GetAnnouncement => "/<class_id>/announcements/<announcement_id>",
            Endpoint::DeleteAttachment => "/<attachment_id>",
        }
    }
}

impl MediaDir {
    /// The prefix under which the directory is served.
    pub open spec fn spec_base(self) -> Seq<char> {
        match self {
            MediaDir::Profiles => "/api/media/img/profiles"@,
            MediaDir::Classes => "/api/media/img/classes"@,
            MediaDir::Attachments => "/api/media/attachments"@,
        }
    }

    /// The directory on the disk, relative to the directory of the service.
    pub open spec fn spec_dir(self) -> Seq<char> {
        match self {
            MediaDir::Profiles => "media/profiles"@,
            MediaDir::Classes => "media/classes"@,
            MediaDir::Attachments => "media/attachments"@,
        }
    }

    /// The prefix under which the directory is served.
    pub fn base(&self) -> (s: &'static str)
        ensures
            s@ == self.spec_base(),
    {
        match self {
            MediaDir::Profiles => "/api/media/img/profiles",
            MediaDir::Classes => "/api/media/img/classes",
            MediaDir::Attachments => "/api/media/attachments",
        }
    }

    /// The directory on the disk, relative to the directory of the service.
    pub fn dir(&self) -> (s: &'static str)
        ensures
            s@ == self.spec_dir(),
    {
        match self {
            MediaDir::Profiles => "media/profiles",
            MediaDir::Classes => "media/classes",
            MediaDir::Attachments => "media/attachments",
        }
    }
}

/// What the service serves: its routes, the statuses that it answers
/// with a body of its own, and the directories that it serves as they are,
/// each list in the order in which the entries were mounted.
#[derive(Debug)]
pub struct Router {
    pub routes: Vec<Endpoint>,
    pub catchers: Vec<Status>,
    pub file_servers: Vec<MediaDir>,
}

impl Router {
    /// A service that serves nothing yet.
    pub fn build() -> (r: Router)
        ensures
            r.routes@ == Seq::<Endpoint>::empty(),
            r.catchers@ == Seq::<Status>::empty(),
            r.file_servers@ == Seq::<MediaDir>::empty(),
    {
        Router { routes: Vec::new(), catchers: Vec::new(), file_servers: Vec::new() }
    }

    /// Adds the routes `routes`, in their order, behind those that are mounted.
    pub fn mount(self, routes: Vec<Endpoint>) -> (r: Router)
        ensures
            r.routes@ == self.routes@ + routes@,
            r.catchers@ == self.catchers@,
            r.file_servers@ == self.file_servers@,
    {
        let mut all = self.routes;
        let mut routes = routes;
        all.append(&mut routes);
        Router { routes: all, catchers: self.catchers, file_servers: self.file_servers }
    }

    /// Adds the catchers `catchers`, in their order, behind those that are
    /// registered.
    pub fn register(self, catchers: Vec<Status>) -> (r: Router)
        ensures
            r.routes@ == self.routes@,
            r.catchers@ == self.catchers@ + catchers@,
            r.file_servers@ == self.file_servers@,
    {
        let mut all = self.catchers;
        let mut catchers = catchers;
        all.append(&mut catchers);
        Router { routes: self.routes, catchers: all, file_servers: self.file_servers }
    }

    /// Adds the directory `dir` behind those that are served.
    pub fn serve(self, dir: MediaDir) -> (r: Router)
        ensures
            r.routes@ == self.routes@,
            r.catchers@ == self.catchers@,
            r.file_servers@ == self.file_servers@.push(dir),
    {
        let mut all = self.file_servers;
        all.push(dir);
        Router { routes: self.routes, catchers: self.catchers, file_servers: all }
    }
}

} // verus!
