use avored_cms::request::{
    decide_page_update, PageUpdateError, UpdatablePageField, UpdatePageRequest, UpdateRoleRequest,
};
use avored_cms::field::{PageDataType, PageFieldContentType, PageFieldType};
use avored_cms::validation::{is_blank_str, validate_required, ErrorMessage};

fn s(x: &str) -> String {
    x.to_string()
}

fn request(name: &str, identifier: &str) -> UpdatePageRequest {
    UpdatePageRequest {
        name: s(name),
        identifier: s(identifier),
        page_fields: vec![UpdatablePageField {
            name: s("Title"),
            identifier: s("title"),
            data_type: PageDataType::Text,
            field_type: PageFieldType::Plain,
            field_content: PageFieldContentType::Text(s("x")),
        }],
    }
}

fn required(attr: &str) -> ErrorMessage {
    ErrorMessage { key: s(attr), message_key: s("validation_required"), attribute: s(attr) }
}

#[test]
fn both_blank_gives_two_errors() {
    let errors = request("", "").validate();
    assert_eq!(errors, vec![required("name"), required("identifier")]);
}

#[test]
fn white_space_only_is_blank() {
    let errors = request(" \t\n", "\u{3000}").validate();
    assert_eq!(errors, vec![required("name"), required("identifier")]);
    assert!(is_blank_str(""));
    assert!(is_blank_str("\u{a0}\u{2009}"));
    assert!(!is_blank_str(" a "));
}

#[test]
fn only_the_blank_attribute_is_reported() {
    assert_eq!(request("Home", "  ").validate(), vec![required("identifier")]);
    assert_eq!(request("", "home").validate(), vec![required("name")]);
}

#[test]
fn valid_request_has_no_errors() {
    assert!(request("Home", "home").validate().is_empty());
}

#[test]
fn validating_twice_gives_the_same_result() {
    let r = request("", "home");
    let first = r.validate();
    let second = r.validate();
    assert_eq!(first, second);
    assert_eq!(r, request("", "home"));
}

#[test]
fn role_request_is_validated_the_same_way() {
    let role = UpdateRoleRequest { name: s(""), identifier: s(""), permissions: vec![s("page_edit")] };
    assert_eq!(role.validate(), vec![required("name"), required("identifier")]);
    let ok = UpdateRoleRequest { name: s("Editor"), identifier: s("editor"), permissions: vec![] };
    assert!(ok.validate().is_empty());
    assert_eq!(validate_required(&s("a"), &s("")), vec![required("identifier")]);
}

#[test]
fn update_without_permission_is_forbidden() {
    assert_eq!(decide_page_update(false, &request("", "")), Err(PageUpdateError::Forbidden));
}

#[test]
fn invalid_update_is_a_bad_request() {
    assert_eq!(
        decide_page_update(true, &request("", "home")),
        Err(PageUpdateError::BadRequest(vec![required("name")]))
    );
}

#[test]
fn valid_update_may_proceed() {
    assert_eq!(decide_page_update(true, &request("Home", "home")), Ok(()));
}
