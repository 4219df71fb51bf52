//! Domain value kinds shared by requests and the decoded entity.

pub mod priority;
pub mod status;

pub use self::priority::Priority;
pub use self::priority::priority_of;
pub use self::priority::priority_wire;
pub use self::status::Status;
pub use self::status::status_of;
pub use self::status::status_wire;
