pub mod announcements;
pub mod assignments;
pub mod attachments;
pub mod auth;
pub mod catchers;
pub mod classes;
pub mod clock;
pub mod comments;
pub mod db;
pub mod errors;
pub mod files;
pub mod links;
pub mod pagination;
pub mod router;
pub mod scrape;
pub mod server;
pub mod submissions;
pub mod text;
pub mod traits;
pub mod users;
pub mod utils;
