//! What holds of the library, stated over the values that go in and the values that come out.

pub mod load;
pub mod reply;
pub mod request;
pub mod session;
pub mod split;
pub mod text;
pub mod values;
