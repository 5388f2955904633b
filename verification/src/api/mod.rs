pub mod router;
pub mod socket;
pub mod types;
pub mod user;
pub mod utils;

pub use router::RouterState;
pub use types::{ResponseData, ResponseSpotify};
pub use user::UserResponse;
pub use utils::{is_active, ok_or_status, StatusCode};
