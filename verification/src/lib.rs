//! A content-addressed cache for compiled format files, shared by
//! independent processes through one directory.

pub mod digits;
pub mod digest;
pub mod errors;
pub mod layout;
pub mod marker;
pub mod cache;
pub mod publish;
pub mod lookup;
pub mod model;
