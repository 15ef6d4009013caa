//! The page aggregate: identity, audit stamps and an ordered list of fields.
use vstd::prelude::*;
use crate::document::Timestamp;
use crate::field::{FieldView, PageFieldModel, fields_view, field_consistent};

verus! {

/// A stored page.
#[derive(Clone, Debug, PartialEq)]
pub struct NewPageModel {
    pub id: String,
    pub name: String,
    pub identifier: String,
    pub page_fields: Vec<PageFieldModel>,
    pub created_at: Timestamp,
    pub updated_at: Timestamp,
    pub created_by: String,
    pub updated_by: String,
}

pub struct PageView {
    pub id: Seq<char>,
    pub name: Seq<char>,
    pub identifier: Seq<char>,
    pub fields: Seq<FieldView>,
    pub created_at: Timestamp,
    pub updated_at: Timestamp,
    pub created_by: Seq<char>,
    pub updated_by: Seq<char>,
}

impl NewPageModel {
    pub open spec fn view(&self) -> PageView {
        PageView {
            id: self.id@,
            name: self.name@,
            identifier: self.identifier@,
            fields: fields_view(self.page_fields@),
            created_at: self.created_at,
            updated_at: self.updated_at,
            created_by: self.created_by@,
            updated_by: self.updated_by@,
        }
    }
}

/// Every field of the page carries content of the variant its types call for.
pub open spec fn page_well_formed(p: PageView) -> bool {
    forall|i: int| 0 <= i < p.fields.len() ==> field_consistent(#[trigger] p.fields[i])
}

} // verus!
