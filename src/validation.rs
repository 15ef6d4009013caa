//! Structural validation of inbound requests: required non-blank attributes.
use vstd::prelude::*;

verus! {

/// One validation failure: the attribute it concerns, and the localization
/// key and argument from which its message is rendered.
#[derive(Clone, Debug, PartialEq)]
pub struct ErrorMessage {
    pub key: String,
    pub message_key: String,
    pub attribute: String,
}

pub struct ErrorView {
    pub key: Seq<char>,
    pub message_key: Seq<char>,
    pub attribute: Seq<char>,
}

impl ErrorMessage {
    pub open spec fn view(&self) -> ErrorView {
        ErrorView { key: self.key@, message_key: self.message_key@, attribute: self.attribute@ }
    }
}

pub open spec fn errors_view(errors: Seq<ErrorMessage>) -> Seq<ErrorView> {
    errors.map_values(|e: ErrorMessage| e@)
}

/// Unicode `White_Space` characters.
pub open spec fn is_white_space(c: char) -> bool {
    let u = c as u32;
    ||| 0x9 <= u <= 0xD
    ||| u == 0x20
    ||| u == 0x85
    ||| u == 0xA0
    ||| u == 0x1680
    ||| 0x2000 <= u <= 0x200A
    ||| u == 0x2028
    ||| u == 0x2029
    ||| u == 0x202F
    ||| u == 0x205F
    ||| u == 0x3000
}

/// Empty or made only of white space.
pub open spec fn is_blank(s: Seq<char>) -> bool {
    forall|i: int| 0 <= i < s.len() ==> is_white_space(#[trigger] s[i])
}

/// The failure reported for a required attribute that is blank.
pub open spec fn required_error(attribute: Seq<char>) -> ErrorView {
    ErrorView { key: attribute, message_key: "validation_required"@, attribute }
}

/// All failures of a request with these `name` and `identifier`, in that
/// order.
pub open spec fn required_errors(name: Seq<char>, identifier: Seq<char>) -> Seq<ErrorView> {
    (if is_blank(name) {
        seq![required_error("name"@)]
    } else {
        Seq::empty()
    }) + (if is_blank(identifier) {
        seq![required_error("identifier"@)]
    } else {
        Seq::empty()
    })
}

pub fn is_white_space_char(c: char) -> (r: bool)
    ensures
        r == is_white_space(c),
{
    let u = c as u32;
    (0x9 <= u && u <= 0xD) || u == 0x20 || u == 0x85 || u == 0xA0 || u == 0x1680 || (0x2000 <= u
        && u <= 0x200A) || u == 0x2028 || u == 0x2029 || u == 0x202F || u == 0x205F || u == 0x3000
}

/// Whether `s` is empty or white space only.
pub fn is_blank_str(s: &str) -> (r: bool)
    ensures
        r == is_blank(s@),
{
    let n = s.unicode_len();
    let mut i: usize = 0;
    while i < n
        invariant
            n == s@.len(),
            i <= n,
            forall|j: int| 0 <= j < i ==> is_white_space(#[trigger] s@[j]),
        decreases n - i,
    {
        if !is_white_space_char(s.get_char(i)) {
            return false;
        }
        i = i + 1;
    }
    true
}

fn required_error_for(attribute: &str) -> (r: ErrorMessage)
    ensures
        r@ == required_error(attribute@),
{
    ErrorMessage {
        key: String::from_str(attribute),
        message_key: String::from_str("validation_required"),
        attribute: String::from_str(attribute),
    }
}

/// Checks that `name` and `identifier` are not blank, reporting every
/// failure rather than the first.
pub fn validate_required(name: &String, identifier: &String) -> (r: Vec<ErrorMessage>)
    ensures
        errors_view(r@) == required_errors(name@, identifier@),
{
    let mut errors: Vec<ErrorMessage> = Vec::new();
    if is_blank_str(name.as_str()) {
        errors.push(required_error_for("name"));
    }
    if is_blank_str(identifier.as_str()) {
        errors.push(required_error_for("identifier"));
    }
    assert(errors_view(errors@) =~= required_errors(name@, identifier@));
    errors
}

/// When both `name` and `identifier` are blank, exactly two failures are
/// reported, keyed `name` and `identifier`.
pub proof fn lemma_both_blank_two_errors(name: Seq<char>, identifier: Seq<char>)
    requires
        is_blank(name),
        is_blank(identifier),
    ensures
        required_errors(name, identifier).len() == 2,
        required_errors(name, identifier)[0].key == "name"@,
        required_errors(name, identifier)[1].key == "identifier"@,
{
}

} // verus!
