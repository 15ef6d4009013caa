//! The field value model: one named, typed content unit of a page.
use vstd::prelude::*;

verus! {

/// How a field's scalar content is typed.
#[derive(Clone, Copy, Debug, PartialEq, Eq, Structural)]
pub enum PageDataType {
    Text,
    Int,
}

/// How a field is edited and rendered.
#[derive(Clone, Copy, Debug, PartialEq, Eq, Structural)]
pub enum PageFieldType {
    Plain,
    Textarea,
    Select,
    Radio,
}

/// One label/value choice of an option-list field.
#[derive(Clone, Debug, PartialEq)]
pub struct PageFieldDataOption {
    pub label: String,
    pub value: String,
}

/// The content of a field: a scalar or an ordered list of options.
#[derive(Clone, Debug, PartialEq)]
pub enum PageFieldContentType {
    Text(String),
    Int(i64),
    Options(Vec<PageFieldDataOption>),
}

/// One field of a page.
#[derive(Clone, Debug, PartialEq)]
pub struct PageFieldModel {
    pub name: String,
    pub identifier: String,
    pub data_type: PageDataType,
    pub field_type: PageFieldType,
    pub field_content: PageFieldContentType,
}

pub struct OptionView {
    pub label: Seq<char>,
    pub value: Seq<char>,
}

pub enum ContentView {
    Text(Seq<char>),
    Int(int),
    Options(Seq<OptionView>),
}

pub struct FieldView {
    pub name: Seq<char>,
    pub identifier: Seq<char>,
    pub data_type: PageDataType,
    pub field_type: PageFieldType,
    pub content: ContentView,
}

impl PageFieldDataOption {
    pub open spec fn view(&self) -> OptionView {
        OptionView { label: self.label@, value: self.value@ }
    }
}

pub open spec fn options_view(options: Seq<PageFieldDataOption>) -> Seq<OptionView> {
    options.map_values(|o: PageFieldDataOption| o@)
}

impl PageFieldContentType {
    pub open spec fn view(&self) -> ContentView {
        match self {
            PageFieldContentType::Text(s) => ContentView::Text(s@),
            PageFieldContentType::Int(n) => ContentView::Int(*n as int),
            PageFieldContentType::Options(os) => ContentView::Options(options_view(os@)),
        }
    }
}

impl PageFieldModel {
    pub open spec fn view(&self) -> FieldView {
        FieldView {
            name: self.name@,
            identifier: self.identifier@,
            data_type: self.data_type,
            field_type: self.field_type,
            content: self.field_content@,
        }
    }
}

pub open spec fn fields_view(fields: Seq<PageFieldModel>) -> Seq<FieldView> {
    fields.map_values(|f: PageFieldModel| f@)
}

/// Field types whose content is a list of options.
pub open spec fn is_option_list(t: PageFieldType) -> bool {
    t is Select || t is Radio
}

/// The content variant that a data type and field type call for.
pub open spec fn content_fits(dt: PageDataType, ft: PageFieldType, c: ContentView) -> bool {
    if is_option_list(ft) {
        c is Options
    } else if dt is Int {
        c is Int
    } else {
        c is Text
    }
}

/// A field whose content is of the variant its types call for.
pub open spec fn field_consistent(f: FieldView) -> bool {
    content_fits(f.data_type, f.field_type, f.content)
}

pub open spec fn data_type_name(t: PageDataType) -> Seq<char> {
    match t {
        PageDataType::Text => "TEXT"@,
        PageDataType::Int => "INT"@,
    }
}

pub open spec fn field_type_name(t: PageFieldType) -> Seq<char> {
    match t {
        PageFieldType::Plain => "PLAIN"@,
        PageFieldType::Textarea => "TEXTAREA"@,
        PageFieldType::Select => "SELECT"@,
        PageFieldType::Radio => "RADIO"@,
    }
}

/// The data type a stored name stands for; an unknown name gives `Text`.
pub open spec fn data_type_from_name(s: Seq<char>) -> PageDataType {
    if s == "INT"@ {
        PageDataType::Int
    } else {
        PageDataType::Text
    }
}

/// The field type a stored name stands for; an unknown name gives `Plain`.
pub open spec fn field_type_from_name(s: Seq<char>) -> PageFieldType {
    if s == "TEXTAREA"@ {
        PageFieldType::Textarea
    } else if s == "SELECT"@ {
        PageFieldType::Select
    } else if s == "RADIO"@ {
        PageFieldType::Radio
    } else {
        PageFieldType::Plain
    }
}

impl PageDataType {
    /// The stored name of this data type.
    pub fn name(&self) -> (r: String)
        ensures
            r@ == data_type_name(*self),
    {
        match self {
            PageDataType::Text => String::from_str("TEXT"),
            PageDataType::Int => String::from_str("INT"),
        }
    }

    /// Reads a stored name; an unknown name gives the default, `Text`.
    pub fn from_name(s: &String) -> (r: PageDataType)
        ensures
            r == data_type_from_name(s@),
    {
        if s.eq(&String::from_str("INT")) {
            PageDataType::Int
        } else {
            PageDataType::Text
        }
    }

    pub fn is_int(&self) -> (r: bool)
        ensures
            r == (*self is Int),
    {
        match self {
            PageDataType::Int => true,
            _ => false,
        }
    }
}

impl PageFieldType {
    /// The stored name of this field type.
    pub fn name(&self) -> (r: String)
        ensures
            r@ == field_type_name(*self),
    {
        match self {
            PageFieldType::Plain => String::from_str("PLAIN"),
            PageFieldType::Textarea => String::from_str("TEXTAREA"),
            PageFieldType::Select => String::from_str("SELECT"),
            PageFieldType::Radio => String::from_str("RADIO"),
        }
    }

    /// Reads a stored name; an unknown name gives the default, `Plain`.
    pub fn from_name(s: &String) -> (r: PageFieldType)
        ensures
            r == field_type_from_name(s@),
    {
        if s.eq(&String::from_str("TEXTAREA")) {
            PageFieldType::Textarea
        } else if s.eq(&String::from_str("SELECT")) {
            PageFieldType::Select
        } else if s.eq(&String::from_str("RADIO")) {
            PageFieldType::Radio
        } else {
            PageFieldType::Plain
        }
    }

    /// Whether this field type holds a list of options.
    pub fn is_option_list(&self) -> (r: bool)
        ensures
            r == is_option_list(*self),
    {
        match self {
            PageFieldType::Select | PageFieldType::Radio => true,
            _ => false,
        }
    }
}

/// Stored names read back as the type they name.
pub proof fn lemma_type_names_round_trip(dt: PageDataType, ft: PageFieldType)
    ensures
        data_type_from_name(data_type_name(dt)) == dt,
        field_type_from_name(field_type_name(ft)) == ft,
{
    reveal_strlit("TEXT");
    reveal_strlit("INT");
    reveal_strlit("PLAIN");
    reveal_strlit("TEXTAREA");
    reveal_strlit("SELECT");
    reveal_strlit("RADIO");
    assert("TEXT"@.len() != "INT"@.len());
    assert("PLAIN"@.len() != "TEXTAREA"@.len());
    assert("PLAIN"@.len() != "SELECT"@.len());
    assert("PLAIN"@[0] != "RADIO"@[0]);
    assert("SELECT"@.len() != "TEXTAREA"@.len());
    assert("RADIO"@.len() != "TEXTAREA"@.len());
    assert("RADIO"@.len() != "SELECT"@.len());
}

} // verus!
