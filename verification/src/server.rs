use vstd::prelude::*;

use crate::errors::Status;
use crate::router::{Endpoint, MediaDir, Method, Router};

verus! {

/// Which origins may call the service from a browser.
#[derive(Debug)]
pub enum AllowedOrigins {
    All,
    Exact(String),
}

/// The rules for calls from other origins.
#[derive(Debug)]
pub struct Cors {
    pub allowed_origins: AllowedOrigins,
    pub allowed_methods: Vec<Method>,
    pub all_headers: bool,
    pub allow_credentials: bool,
}

/// The origins that may call the service: the one domain that is
/// configured, or all where none is.
pub fn allowed_origins(domain: Option<String>) -> (r: AllowedOrigins)
    ensures
        r == match domain {
            Some(d) => AllowedOrigins::Exact(d),
            None => AllowedOrigins::All,
        },
{
    match domain {
        Some(d) => AllowedOrigins::Exact(d),
        None => AllowedOrigins::All,
    }
}

/// The rules for calls from other origins: the five methods that the
/// service answers, every header, and credentials.
pub fn make_cors(domain: Option<String>) -> (r: Cors)
    ensures
        r.allowed_origins == match domain {
            Some(d) => AllowedOrigins::Exact(d),
            None => AllowedOrigins::All,
        },
        r.allowed_methods@ == seq![
            Method::Get,
            Method::Post,
            Method::Options,
            Method::Delete,
            Method::Patch,
        ],
        r.all_headers,
        r.allow_credentials,
{
    let allowed_origins = allowed_origins(domain);
    let mut allowed_methods: Vec<Method> = Vec::new();
    allowed_methods.push(Method::Get);
    allowed_methods.push(Method::Post);
    allowed_methods.push(Method::Options);
    allowed_methods.push(Method::Delete);
    allowed_methods.push(Method::Patch);
    Cors { allowed_origins, allowed_methods, all_headers: true, allow_credentials: true }
}

/// The answer to every preflight request.
pub fn handle_cors() -> (r: Status)
    ensures
        r == Status::Success,
{
    Status::Success
}

/// The whole service: the preflight route, then the routes of the users,
/// of the classrooms, of the files and of the links, the catchers, and the
/// routes of the attachments.
pub fn rocket() -> (r: Router)
    ensures
        r.routes@ == seq![Endpoint::HandleCors] + crate::users::routes::routes()
            + crate::classes::routes::routes() + crate::files::routes::routes()
            + crate::links::routes::routes() + crate::attachments::routes::routes(),
        r.catchers@ == crate::catchers::caught(),
        r.file_servers@ == seq![MediaDir::Profiles, MediaDir::Classes, MediaDir::Attachments],
{
    let mut cors: Vec<Endpoint> = Vec::new();
    cors.push(Endpoint::HandleCors);
    let mut rocket = Router::build().mount(cors);
    rocket = crate::users::routes::mount(rocket);
    rocket = crate::classes::routes::mount(rocket);
    rocket = crate::files::routes::mount(rocket);
    rocket = crate::links::routes::mount(rocket);
    rocket = crate::errors::mount(rocket);
    rocket = crate::attachments::routes::mount(rocket);
    rocket
}

} // verus!
