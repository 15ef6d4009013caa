//! Create and update requests, and how they become pages.
use vstd::prelude::*;
use crate::document::Timestamp;
use crate::field::{
    FieldView, PageDataType, PageFieldContentType, PageFieldDataOption, PageFieldModel,
    PageFieldType, fields_view, options_view,
};
use crate::page::{NewPageModel, PageView};
use crate::validation::{ErrorMessage, errors_view, required_errors, validate_required};

verus! {

/// A field as a create request carries it.
#[derive(Clone, Debug, PartialEq)]
pub struct CreatablePageField {
    pub name: String,
    pub identifier: String,
    pub data_type: PageDataType,
    pub field_type: PageFieldType,
    pub field_content: PageFieldContentType,
}

/// A field as an update request carries it.
#[derive(Clone, Debug, PartialEq)]
pub struct UpdatablePageField {
    pub name: String,
    pub identifier: String,
    pub data_type: PageDataType,
    pub field_type: PageFieldType,
    pub field_content: PageFieldContentType,
}

/// A page to create, with the user who creates it.
#[derive(Clone, Debug, PartialEq)]
pub struct NewCreatablePageModel {
    pub name: String,
    pub identifier: String,
    pub logged_in_username: String,
    pub page_fields: Vec<CreatablePageField>,
}

/// A page to update: its stored identity and creation stamps, the user who
/// updates it, and the fields that replace the stored ones.
#[derive(Clone, Debug, PartialEq)]
pub struct NewUpdatablePageModel {
    pub id: String,
    pub name: String,
    pub identifier: String,
    pub logged_in_username: String,
    pub created_at: Timestamp,
    pub created_by: String,
    pub page_fields: Vec<UpdatablePageField>,
}

/// A change of a page's identifier.
#[derive(Clone, Debug, PartialEq)]
pub struct PutPageIdentifierModel {
    pub id: String,
    pub identifier: String,
    pub logged_in_username: String,
}

/// The body of a page update request.
#[derive(Clone, Debug, PartialEq)]
pub struct UpdatePageRequest {
    pub name: String,
    pub identifier: String,
    pub page_fields: Vec<UpdatablePageField>,
}

/// The body of a role update request.
#[derive(Clone, Debug, PartialEq)]
pub struct UpdateRoleRequest {
    pub name: String,
    pub identifier: String,
    pub permissions: Vec<String>,
}

impl CreatablePageField {
    pub open spec fn view(&self) -> FieldView {
        FieldView {
            name: self.name@,
            identifier: self.identifier@,
            data_type: self.data_type,
            field_type: self.field_type,
            content: self.field_content@,
        }
    }
}

impl UpdatablePageField {
    pub open spec fn view(&self) -> FieldView {
        FieldView {
            name: self.name@,
            identifier: self.identifier@,
            data_type: self.data_type,
            field_type: self.field_type,
            content: self.field_content@,
        }
    }

    fn copy(&self) -> (r: UpdatablePageField)
        ensures
            r@ == self@,
    {
        UpdatablePageField {
            name: self.name.clone(),
            identifier: self.identifier.clone(),
            data_type: self.data_type,
            field_type: self.field_type,
            field_content: copy_content(&self.field_content),
        }
    }
}

pub open spec fn creatable_fields_view(fs: Seq<CreatablePageField>) -> Seq<FieldView> {
    fs.map_values(|f: CreatablePageField| f@)
}

pub open spec fn updatable_fields_view(fs: Seq<UpdatablePageField>) -> Seq<FieldView> {
    fs.map_values(|f: UpdatablePageField| f@)
}

fn copy_content(c: &PageFieldContentType) -> (r: PageFieldContentType)
    ensures
        r@ == c@,
{
    match c {
        PageFieldContentType::Text(s) => PageFieldContentType::Text(s.clone()),
        PageFieldContentType::Int(n) => PageFieldContentType::Int(*n),
        PageFieldContentType::Options(os) => {
            let mut out: Vec<PageFieldDataOption> = Vec::new();
            let mut i: usize = 0;
            while i < os.len()
                invariant
                    i <= os.len(),
                    out@.len() == i,
                    forall|j: int| 0 <= j < i ==> (#[trigger] out@[j])@ == os@[j]@,
                decreases os.len() - i,
            {
                out.push(
                    PageFieldDataOption { label: os[i].label.clone(), value: os[i].value.clone() },
                );
                i = i + 1;
            }
            assert(options_view(out@) =~= options_view(os@));
            PageFieldContentType::Options(out)
        },
    }
}

fn field_model(
    name: &String,
    identifier: &String,
    data_type: PageDataType,
    field_type: PageFieldType,
    content: &PageFieldContentType,
) -> (r: PageFieldModel)
    ensures
        r@ == (FieldView {
            name: name@,
            identifier: identifier@,
            data_type,
            field_type,
            content: content@,
        }),
{
    PageFieldModel {
        name: name.clone(),
        identifier: identifier.clone(),
        data_type,
        field_type,
        field_content: copy_content(content),
    }
}

/// Maps create-request fields one to one, in order, to page fields.
pub fn creatable_fields_to_models(fs: &Vec<CreatablePageField>) -> (r: Vec<PageFieldModel>)
    ensures
        fields_view(r@) == creatable_fields_view(fs@),
{
    let mut out: Vec<PageFieldModel> = Vec::new();
    let mut i: usize = 0;
    while i < fs.len()
        invariant
            i <= fs.len(),
            out@.len() == i,
            forall|j: int| 0 <= j < i ==> (#[trigger] out@[j])@ == fs@[j]@,
        decreases fs.len() - i,
    {
        let f = &fs[i];
        out.push(field_model(&f.name, &f.identifier, f.data_type, f.field_type, &f.field_content));
        i = i + 1;
    }
    assert(fields_view(out@) =~= creatable_fields_view(fs@));
    out
}

/// Maps update-request fields one to one, in order, to page fields.
pub fn updatable_fields_to_models(fs: &Vec<UpdatablePageField>) -> (r: Vec<PageFieldModel>)
    ensures
        fields_view(r@) == updatable_fields_view(fs@),
{
    let mut out: Vec<PageFieldModel> = Vec::new();
    let mut i: usize = 0;
    while i < fs.len()
        invariant
            i <= fs.len(),
            out@.len() == i,
            forall|j: int| 0 <= j < i ==> (#[trigger] out@[j])@ == fs@[j]@,
        decreases fs.len() - i,
    {
        let f = &fs[i];
        out.push(field_model(&f.name, &f.identifier, f.data_type, f.field_type, &f.field_content));
        i = i + 1;
    }
    assert(fields_view(out@) =~= updatable_fields_view(fs@));
    out
}


fn copy_field_models(fs: &Vec<PageFieldModel>) -> (r: Vec<PageFieldModel>)
    ensures
        fields_view(r@) == fields_view(fs@),
{
    let mut out: Vec<PageFieldModel> = Vec::new();
    let mut i: usize = 0;
    while i < fs.len()
        invariant
            i <= fs.len(),
            out@.len() == i,
            forall|j: int| 0 <= j < i ==> (#[trigger] out@[j])@ == fs@[j]@,
        decreases fs.len() - i,
    {
        let f = &fs[i];
        out.push(field_model(&f.name, &f.identifier, f.data_type, f.field_type, &f.field_content));
        i = i + 1;
    }
    assert(fields_view(out@) =~= fields_view(fs@));
    out
}

impl NewCreatablePageModel {
    /// Every validation failure of this request; empty when it is valid.
    pub fn validate(&self) -> (r: Vec<ErrorMessage>)
        ensures
            errors_view(r@) == required_errors(self.name@, self.identifier@),
    {
        validate_required(&self.name, &self.identifier)
    }

    /// The page this request creates, with the identity and time that the
    /// store assigns; the creator is stamped as creator and last updater.
    pub fn into_page(&self, id: &String, now: Timestamp) -> (r: NewPageModel)
        ensures
            r@ == (PageView {
                id: id@,
                name: self.name@,
                identifier: self.identifier@,
                fields: creatable_fields_view(self.page_fields@),
                created_at: now,
                updated_at: now,
                created_by: self.logged_in_username@,
                updated_by: self.logged_in_username@,
            }),
    {
        NewPageModel {
            id: id.clone(),
            name: self.name.clone(),
            identifier: self.identifier.clone(),
            page_fields: creatable_fields_to_models(&self.page_fields),
            created_at: now,
            updated_at: now,
            created_by: self.logged_in_username.clone(),
            updated_by: self.logged_in_username.clone(),
        }
    }
}

impl NewUpdatablePageModel {
    /// The page after this update: creation stamps kept, fields replaced
    /// wholesale, the updater and time stamped.
    pub fn into_page(&self, now: Timestamp) -> (r: NewPageModel)
        ensures
            r@ == (PageView {
                id: self.id@,
                name: self.name@,
                identifier: self.identifier@,
                fields: updatable_fields_view(self.page_fields@),
                created_at: self.created_at,
                updated_at: now,
                created_by: self.created_by@,
                updated_by: self.logged_in_username@,
            }),
    {
        NewPageModel {
            id: self.id.clone(),
            name: self.name.clone(),
            identifier: self.identifier.clone(),
            page_fields: updatable_fields_to_models(&self.page_fields),
            created_at: self.created_at,
            updated_at: now,
            created_by: self.created_by.clone(),
            updated_by: self.logged_in_username.clone(),
        }
    }
}

impl PutPageIdentifierModel {
    /// `page` with this identifier, stamped as updated by this user at `now`.
    pub fn apply_to(&self, page: &NewPageModel, now: Timestamp) -> (r: NewPageModel)
        ensures
            r@ == (PageView {
                identifier: self.identifier@,
                updated_at: now,
                updated_by: self.logged_in_username@,
                ..page@
            }),
    {
        NewPageModel {
            id: page.id.clone(),
            name: page.name.clone(),
            identifier: self.identifier.clone(),
            page_fields: copy_field_models(&page.page_fields),
            created_at: page.created_at,
            updated_at: now,
            created_by: page.created_by.clone(),
            updated_by: self.logged_in_username.clone(),
        }
    }
}

/// Why a page update is refused before it reaches the store.
#[derive(Clone, Debug, PartialEq)]
pub enum PageUpdateError {
    /// The acting user may not edit pages.
    Forbidden,
    /// The request failed validation; every failure is listed.
    BadRequest(Vec<ErrorMessage>),
}

impl UpdatePageRequest {
    /// Every validation failure of this request; empty when it is valid.
    pub fn validate(&self) -> (r: Vec<ErrorMessage>)
        ensures
            errors_view(r@) == required_errors(self.name@, self.identifier@),
    {
        validate_required(&self.name, &self.identifier)
    }

    /// The update this request asks for on the page `id`, by the user
    /// `logged_in_username`, keeping the stored creation stamps.
    pub fn into_updatable(
        &self,
        id: &String,
        logged_in_username: &String,
        created_at: Timestamp,
        created_by: &String,
    ) -> (r: NewUpdatablePageModel)
        ensures
            r.id@ == id@,
            r.name@ == self.name@,
            r.identifier@ == self.identifier@,
            r.logged_in_username@ == logged_in_username@,
            r.created_at == created_at,
            r.created_by@ == created_by@,
            updatable_fields_view(r.page_fields@) == updatable_fields_view(self.page_fields@),
    {
        let mut fields: Vec<UpdatablePageField> = Vec::new();
        let mut i: usize = 0;
        while i < self.page_fields.len()
            invariant
                i <= self.page_fields.len(),
                fields@.len() == i,
                forall|j: int| 0 <= j < i ==> (#[trigger] fields@[j])@ == self.page_fields@[j]@,
            decreases self.page_fields.len() - i,
        {
            fields.push(self.page_fields[i].copy());
            i = i + 1;
        }
        assert(updatable_fields_view(fields@) =~= updatable_fields_view(self.page_fields@));
        NewUpdatablePageModel {
            id: id.clone(),
            name: self.name.clone(),
            identifier: self.identifier.clone(),
            logged_in_username: logged_in_username.clone(),
            created_at,
            created_by: created_by.clone(),
            page_fields: fields,
        }
    }
}

impl UpdateRoleRequest {
    /// Every validation failure of this request; empty when it is valid.
    pub fn validate(&self) -> (r: Vec<ErrorMessage>)
        ensures
            errors_view(r@) == required_errors(self.name@, self.identifier@),
    {
        validate_required(&self.name, &self.identifier)
    }
}

/// Whether a page update may go ahead: refused when the user lacks the
/// permission to edit pages, then when the request fails validation.
pub fn decide_page_update(has_permission: bool, request: &UpdatePageRequest) -> (r: Result<
    (),
    PageUpdateError,
>)
    ensures
        !has_permission ==> r == Err::<(), PageUpdateError>(PageUpdateError::Forbidden),
        has_permission && required_errors(request.name@, request.identifier@).len() > 0 ==> (
        match r {
            Err(PageUpdateError::BadRequest(es)) => errors_view(es@) == required_errors(
                request.name@,
                request.identifier@,
            ),
            _ => false,
        }),
        has_permission && required_errors(request.name@, request.identifier@).len() == 0 ==> r
            is Ok,
{
    if !has_permission {
        return Err(PageUpdateError::Forbidden);
    }
    let errors = request.validate();
    if errors.len() > 0 {
        Err(PageUpdateError::BadRequest(errors))
    } else {
        Ok(())
    }
}

/// Validating a request depends on its name and identifier alone, so
/// validating the same request twice gives the same failures.
pub proof fn lemma_validation_repeatable(a: &UpdatePageRequest, b: &UpdatePageRequest)
    requires
        a.name@ == b.name@,
        a.identifier@ == b.identifier@,
    ensures
        required_errors(a.name@, a.identifier@) == required_errors(b.name@, b.identifier@),
{
}

} // verus!
