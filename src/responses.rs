//! Bodies that the API hands back.
use vstd::prelude::*;
use crate::page::NewPageModel;

verus! {

/// The link sent to a user who asked to reset their password.
#[derive(Clone, Debug, PartialEq, Default)]
pub struct ForgotPasswordViewModel {
    pub link: String,
}

/// Whether a requested action was carried out.
#[derive(Clone, Copy, Debug, PartialEq, Eq, Structural)]
pub struct ResponseData {
    pub status: bool,
}

/// The page as stored after a successful update.
#[derive(Clone, Debug, PartialEq)]
pub struct UpdatablePageResponse {
    pub status: bool,
    pub page_model: NewPageModel,
}

impl UpdatablePageResponse {
    /// The response to an update that the store accepted.
    pub fn updated(page_model: NewPageModel) -> (r: UpdatablePageResponse)
        ensures
            r.status,
            r.page_model == page_model,
    {
        UpdatablePageResponse { status: true, page_model }
    }
}

} // verus!
