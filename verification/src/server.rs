pub mod pipeline;
pub mod response;
