
pub mod error;
pub mod gateway;
pub mod http;
pub mod model;
pub mod store;

pub use error::{PersonError, UpstreamError};
pub use gateway::{PersonPage, PersonsPage};
pub use http::{Body, Response};
pub use model::{CreatePersonDto, Person};
pub use store::MemoryStore;

