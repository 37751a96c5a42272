//! What the API endpoints decide

pub mod aliases;
pub mod current_user;
pub mod destinations;
pub mod notes;
pub mod request;
pub mod response;
pub mod users;
pub mod utils;

pub use current_user::CurrentUser;
pub use request::parse_slug;
pub use request::parse_url;
pub use request::Form;
pub use request::PathParameters;
pub use response::Error;
pub use response::Success;
