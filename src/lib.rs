//! Page/field content model of a CMS admin panel, with a verified codec to
//! and from a schemaless document form, request validation and pagination.
pub mod document;
pub mod field;
pub mod page;
pub mod codec;
pub mod validation;
pub mod request;
pub mod pagination;
pub mod responses;
pub mod admin_user;
