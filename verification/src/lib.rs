pub mod assemble;
pub mod policy;
pub mod response;
pub mod subject;
