//! Conversion between the page model and the schemaless document form.
use vstd::prelude::*;
use crate::document::{Timestamp, Doc, DocEntry, DocValue, Document, entries_view, first_match, lookup, get, lemma_array_view, lemma_object_view};
use crate::field::{PageDataType, PageFieldType, ContentView, FieldView, OptionView, PageFieldContentType, PageFieldDataOption, PageFieldModel, options_view, fields_view, data_type_name, field_type_name, data_type_from_name, field_type_from_name, field_consistent, content_fits, is_option_list, lemma_type_names_round_trip};
use crate::page::{NewPageModel, PageView, page_well_formed};

verus! {

pub open spec fn option_doc(o: OptionView) -> Doc {
    Doc::Object(seq![("label"@, Doc::Str(o.label)), ("value"@, Doc::Str(o.value))])
}

/// Scalar content is a leaf; option-list content an ordered array of
/// two-key objects.
pub open spec fn content_doc(c: ContentView) -> Doc {
    match c {
        ContentView::Text(s) => Doc::Str(s),
        ContentView::Int(n) => Doc::Int(n),
        ContentView::Options(os) => Doc::Array(os.map_values(|o: OptionView| option_doc(o))),
    }
}

pub open spec fn field_doc(f: FieldView) -> Doc {
    Doc::Object(
        seq![
            ("name"@, Doc::Str(f.name)),
            ("identifier"@, Doc::Str(f.identifier)),
            ("data_type"@, Doc::Str(data_type_name(f.data_type))),
            ("field_type"@, Doc::Str(field_type_name(f.field_type))),
            ("field_content"@, content_doc(f.content)),
        ],
    )
}

/// The document that a page is stored as.
pub open spec fn page_doc(p: PageView) -> Seq<(Seq<char>, Doc)> {
    seq![
        ("id"@, Doc::Str(p.id)),
        ("name"@, Doc::Str(p.name)),
        ("identifier"@, Doc::Str(p.identifier)),
        ("page_fields"@, Doc::Array(p.fields.map_values(|f: FieldView| field_doc(f)))),
        ("created_at"@, Doc::Datetime(p.created_at)),
        ("updated_at"@, Doc::Datetime(p.updated_at)),
        ("created_by"@, Doc::Str(p.created_by)),
        ("updated_by"@, Doc::Str(p.updated_by)),
    ]
}

fn entry(key: &str, value: DocValue) -> (r: DocEntry)
    ensures
        r.key@ == key@,
        r.value == value,
{
    DocEntry { key: String::from_str(key), value }
}

fn encode_option(o: &PageFieldDataOption) -> (r: DocValue)
    ensures
        r@ == option_doc(o@),
{
    let mut es: Vec<DocEntry> = Vec::new();
    es.push(entry("label", DocValue::Str(o.label.clone())));
    es.push(entry("value", DocValue::Str(o.value.clone())));
    let r = DocValue::Object(es);
    proof {
        lemma_object_view(es);
        assert(entries_view(es@) =~= seq![("label"@, Doc::Str(o.label@)), ("value"@, Doc::Str(o.value@))]);
    }
    r
}

fn encode_content(c: &PageFieldContentType) -> (r: DocValue)
    ensures
        r@ == content_doc(c@),
{
    match c {
        PageFieldContentType::Text(s) => DocValue::Str(s.clone()),
        PageFieldContentType::Int(n) => DocValue::Int(*n),
        PageFieldContentType::Options(os) => {
            let mut items: Vec<DocValue> = Vec::new();
            let mut i: usize = 0;
            while i < os.len()
                invariant
                    i <= os.len(),
                    items@.len() == i,
                    forall|j: int| 0 <= j < i ==> (#[trigger] items@[j])@ == option_doc(os@[j]@),
                decreases os.len() - i,
            {
                items.push(encode_option(&os[i]));
                i = i + 1;
            }
            let r = DocValue::Array(items);
            proof {
                lemma_array_view(items);
                let ov = options_view(os@);
                assert(Seq::new(items.len() as nat, |j: int| items@[j]@) =~= ov.map_values(|o: OptionView| option_doc(o)));
            }
            r
        },
    }
}

/// Encodes one field as a document object.
pub fn encode_field(f: &PageFieldModel) -> (r: DocValue)
    ensures
        r@ == field_doc(f@),
{
    let mut es: Vec<DocEntry> = Vec::new();
    es.push(entry("name", DocValue::Str(f.name.clone())));
    es.push(entry("identifier", DocValue::Str(f.identifier.clone())));
    es.push(entry("data_type", DocValue::Str(f.data_type.name())));
    es.push(entry("field_type", DocValue::Str(f.field_type.name())));
    es.push(entry("field_content", encode_content(&f.field_content)));
    let r = DocValue::Object(es);
    proof {
        lemma_object_view(es);
        assert(entries_view(es@) =~= field_doc(f@)->Object_0);
    }
    r
}

/// Encodes a page as a document, keeping the order of its fields and of
/// their options.
pub fn to_document(p: &NewPageModel) -> (r: Document)
    ensures
        r@ == page_doc(p@),
{
    let mut items: Vec<DocValue> = Vec::new();
    let mut i: usize = 0;
    while i < p.page_fields.len()
        invariant
            i <= p.page_fields.len(),
            items@.len() == i,
            forall|j: int|
                0 <= j < i ==> (#[trigger] items@[j])@ == field_doc(p.page_fields@[j]@),
        decreases p.page_fields.len() - i,
    {
        items.push(encode_field(&p.page_fields[i]));
        i = i + 1;
    }
    let mut es: Vec<DocEntry> = Vec::new();
    es.push(entry("id", DocValue::Str(p.id.clone())));
    es.push(entry("name", DocValue::Str(p.name.clone())));
    es.push(entry("identifier", DocValue::Str(p.identifier.clone())));
    es.push(entry("page_fields", DocValue::Array(items)));
    es.push(entry("created_at", DocValue::Datetime(p.created_at)));
    es.push(entry("updated_at", DocValue::Datetime(p.updated_at)));
    es.push(entry("created_by", DocValue::Str(p.created_by.clone())));
    es.push(entry("updated_by", DocValue::Str(p.updated_by.clone())));
    let r = Document { entries: es };
    proof {
        lemma_array_view(items);
        let fv = fields_view(p.page_fields@);
        assert(Seq::new(items.len() as nat, |j: int| items@[j]@) =~= fv.map_values(|f: FieldView| field_doc(f)));
        assert(r@ =~= page_doc(p@));
    }
    r
}


/// Why a stored document could not be read as a page.
#[derive(Clone, Debug, PartialEq)]
pub enum DecodeError {
    /// A required attribute is absent or not of the expected kind.
    MissingField(String),
    /// An optional attribute is present but not of the expected kind.
    TypeMismatch(String),
}

pub enum DecodeErrorView {
    MissingField(Seq<char>),
    TypeMismatch(Seq<char>),
}

impl DecodeError {
    pub open spec fn view(&self) -> DecodeErrorView {
        match self {
            DecodeError::MissingField(k) => DecodeErrorView::MissingField(k@),
            DecodeError::TypeMismatch(k) => DecodeErrorView::TypeMismatch(k@),
        }
    }
}

pub open spec fn decode_option(d: Doc) -> Option<OptionView> {
    match d {
        Doc::Object(es) => match (lookup(es, "label"@), lookup(es, "value"@)) {
            (Some(Doc::Str(l)), Some(Doc::Str(v))) => Some(OptionView { label: l, value: v }),
            _ => None,
        },
        _ => None,
    }
}

/// An option list decodes only when every element is a label/value object.
pub open spec fn decode_options(items: Seq<Doc>) -> Option<Seq<OptionView>> {
    if forall|i: int| 0 <= i < items.len() ==> (#[trigger] decode_option(items[i])) is Some {
        Some(Seq::new(items.len(), |i: int| decode_option(items[i])->Some_0))
    } else {
        None
    }
}

/// Reads content in the shape that the field's types call for.
pub open spec fn decode_content(v: Option<Doc>, dt: PageDataType, ft: PageFieldType) -> Option<
    ContentView,
> {
    if is_option_list(ft) {
        match v {
            Some(Doc::Array(items)) => match decode_options(items) {
                Some(os) => Some(ContentView::Options(os)),
                None => None,
            },
            _ => None,
        }
    } else if dt is Int {
        match v {
            Some(Doc::Int(n)) => Some(ContentView::Int(n)),
            _ => None,
        }
    } else {
        match v {
            Some(Doc::Str(s)) => Some(ContentView::Text(s)),
            _ => None,
        }
    }
}

/// A missing or unreadable data type defaults to `Text`.
pub open spec fn decode_data_type(v: Option<Doc>) -> PageDataType {
    match v {
        Some(Doc::Str(s)) => data_type_from_name(s),
        _ => PageDataType::Text,
    }
}

/// A missing or unreadable field type defaults to `Plain`.
pub open spec fn decode_field_type(v: Option<Doc>) -> PageFieldType {
    match v {
        Some(Doc::Str(s)) => field_type_from_name(s),
        _ => PageFieldType::Plain,
    }
}

pub open spec fn decode_field(d: Doc) -> Option<FieldView> {
    match d {
        Doc::Object(es) => {
            let dt = decode_data_type(lookup(es, "data_type"@));
            let ft = decode_field_type(lookup(es, "field_type"@));
            match (
                lookup(es, "name"@),
                lookup(es, "identifier"@),
                decode_content(lookup(es, "field_content"@), dt, ft),
            ) {
                (Some(Doc::Str(n)), Some(Doc::Str(id)), Some(c)) => Some(
                    FieldView { name: n, identifier: id, data_type: dt, field_type: ft, content: c },
                ),
                _ => None,
            }
        },
        _ => None,
    }
}

/// The fields of a `page_fields` array, in order; elements that do not
/// decode are skipped.
pub open spec fn decode_fields(items: Seq<Doc>) -> Seq<FieldView>
    decreases items.len(),
{
    if items.len() == 0 {
        Seq::empty()
    } else {
        let rest = decode_fields(items.drop_last());
        match decode_field(items.last()) {
            Some(f) => rest.push(f),
            None => rest,
        }
    }
}

pub open spec fn required_str(es: Seq<(Seq<char>, Doc)>, key: Seq<char>) -> Result<
    Seq<char>,
    DecodeErrorView,
> {
    match lookup(es, key) {
        Some(Doc::Str(s)) => Ok(s),
        _ => Err(DecodeErrorView::MissingField(key)),
    }
}

pub open spec fn required_datetime(es: Seq<(Seq<char>, Doc)>, key: Seq<char>) -> Result<
    Timestamp,
    DecodeErrorView,
> {
    match lookup(es, key) {
        Some(Doc::Datetime(t)) => Ok(t),
        _ => Err(DecodeErrorView::MissingField(key)),
    }
}

/// An absent (or null) `page_fields` reads as no fields; one that is not an
/// array is a type mismatch.
pub open spec fn optional_fields(es: Seq<(Seq<char>, Doc)>) -> Result<
    Seq<FieldView>,
    DecodeErrorView,
> {
    match lookup(es, "page_fields"@) {
        None => Ok(Seq::empty()),
        Some(Doc::Null) => Ok(Seq::empty()),
        Some(Doc::Array(items)) => Ok(decode_fields(items)),
        Some(_) => Err(DecodeErrorView::TypeMismatch("page_fields"@)),
    }
}

/// Reads a page from a document; the first attribute that fails, in the
/// order below, gives the error.
pub open spec fn decode_page(es: Seq<(Seq<char>, Doc)>) -> Result<PageView, DecodeErrorView> {
    let id = required_str(es, "id"@);
    let name = required_str(es, "name"@);
    let identifier = required_str(es, "identifier"@);
    let fields = optional_fields(es);
    let created_at = required_datetime(es, "created_at"@);
    let updated_at = required_datetime(es, "updated_at"@);
    let created_by = required_str(es, "created_by"@);
    let updated_by = required_str(es, "updated_by"@);
    if id is Err {
        Err(id->Err_0)
    } else if name is Err {
        Err(name->Err_0)
    } else if identifier is Err {
        Err(identifier->Err_0)
    } else if fields is Err {
        Err(fields->Err_0)
    } else if created_at is Err {
        Err(created_at->Err_0)
    } else if updated_at is Err {
        Err(updated_at->Err_0)
    } else if created_by is Err {
        Err(created_by->Err_0)
    } else if updated_by is Err {
        Err(updated_by->Err_0)
    } else {
        Ok(
            PageView {
                id: id->Ok_0,
                name: name->Ok_0,
                identifier: identifier->Ok_0,
                fields: fields->Ok_0,
                created_at: created_at->Ok_0,
                updated_at: updated_at->Ok_0,
                created_by: created_by->Ok_0,
                updated_by: updated_by->Ok_0,
            },
        )
    }
}


fn decode_option_value(d: &DocValue) -> (r: Option<PageFieldDataOption>)
    ensures
        match r {
            Some(o) => decode_option(d@) == Some(o@),
            None => decode_option(d@) is None,
        },
{
    match d {
        DocValue::Object(es) => {
            proof {
                lemma_object_view(*es);
            }
            let label = match get(es, &String::from_str("label")) {
                Some(DocValue::Str(l)) => l.clone(),
                _ => {
                    return None;
                },
            };
            let value = match get(es, &String::from_str("value")) {
                Some(DocValue::Str(v)) => v.clone(),
                _ => {
                    return None;
                },
            };
            Some(PageFieldDataOption { label, value })
        },
        _ => None,
    }
}

fn decode_option_values(items: &Vec<DocValue>) -> (r: Option<Vec<PageFieldDataOption>>)
    ensures
        match r {
            Some(os) => decode_options(Seq::new(items.len() as nat, |i: int| items@[i]@)) == Some(
                options_view(os@),
            ),
            None => decode_options(Seq::new(items.len() as nat, |i: int| items@[i]@)) is None,
        },
{
    let ghost views = Seq::new(items.len() as nat, |i: int| items@[i]@);
    let mut out: Vec<PageFieldDataOption> = Vec::new();
    let mut i: usize = 0;
    while i < items.len()
        invariant
            i <= items.len(),
            views == Seq::new(items.len() as nat, |i: int| items@[i]@),
            out@.len() == i,
            forall|j: int|
                0 <= j < i ==> decode_option(views[j]) == Some((#[trigger] out@[j])@),
        decreases items.len() - i,
    {
        match decode_option_value(&items[i]) {
            Some(o) => {
                out.push(o);
            },
            None => {
                assert(decode_option(views[i as int]) is None);
                return None;
            },
        }
        i = i + 1;
    }
    assert forall|j: int| 0 <= j < views.len() implies (#[trigger] decode_option(views[j])) is Some by {
        assert(decode_option(views[j]) == Some(out@[j]@));
    }
    assert(options_view(out@) =~= Seq::new(views.len(), |j: int| decode_option(views[j])->Some_0));
    Some(out)
}

pub open spec fn opt_view(v: Option<&DocValue>) -> Option<Doc> {
    match v {
        Some(d) => Some(d@),
        None => None,
    }
}

fn decode_content_value(v: Option<&DocValue>, dt: PageDataType, ft: PageFieldType) -> (r: Option<
    PageFieldContentType,
>)
    ensures
        match r {
            Some(c) => decode_content(opt_view(v), dt, ft) == Some(c@),
            None => decode_content(opt_view(v), dt, ft) is None,
        },
{
    if ft.is_option_list() {
        match v {
            Some(DocValue::Array(items)) => {
                proof {
                    lemma_array_view(*items);
                }
                match decode_option_values(items) {
                    Some(os) => Some(PageFieldContentType::Options(os)),
                    None => None,
                }
            },
            _ => None,
        }
    } else if dt.is_int() {
        match v {
            Some(DocValue::Int(n)) => Some(PageFieldContentType::Int(*n)),
            _ => None,
        }
    } else {
        match v {
            Some(DocValue::Str(s)) => Some(PageFieldContentType::Text(s.clone())),
            _ => None,
        }
    }
}

/// Decodes one element of a `page_fields` array; `None` when it is not an
/// object or lacks a readable name, identifier or content.
pub fn decode_field_value(d: &DocValue) -> (r: Option<PageFieldModel>)
    ensures
        match r {
            Some(f) => decode_field(d@) == Some(f@),
            None => decode_field(d@) is None,
        },
{
    match d {
        DocValue::Object(es) => {
            proof {
                lemma_object_view(*es);
            }
            let data_type = match get(es, &String::from_str("data_type")) {
                Some(DocValue::Str(s)) => PageDataType::from_name(s),
                _ => PageDataType::Text,
            };
            let field_type = match get(es, &String::from_str("field_type")) {
                Some(DocValue::Str(s)) => PageFieldType::from_name(s),
                _ => PageFieldType::Plain,
            };
            let name = match get(es, &String::from_str("name")) {
                Some(DocValue::Str(s)) => s.clone(),
                _ => {
                    return None;
                },
            };
            let identifier = match get(es, &String::from_str("identifier")) {
                Some(DocValue::Str(s)) => s.clone(),
                _ => {
                    return None;
                },
            };
            let c = get(es, &String::from_str("field_content"));
            assert(opt_view(c) == lookup(entries_view(es@), "field_content"@));
            let field_content = match decode_content_value(c, data_type, field_type) {
                Some(fc) => fc,
                None => {
                    return None;
                },
            };
            Some(PageFieldModel { name, identifier, data_type, field_type, field_content })
        },
        _ => None,
    }
}


pub open spec fn str_result_view(r: Result<String, DecodeError>) -> Result<Seq<char>, DecodeErrorView> {
    match r {
        Ok(s) => Ok(s@),
        Err(e) => Err(e@),
    }
}

pub open spec fn time_result_view(r: Result<Timestamp, DecodeError>) -> Result<Timestamp, DecodeErrorView> {
    match r {
        Ok(t) => Ok(t),
        Err(e) => Err(e@),
    }
}

/// The string stored under `key`, or `MissingField(key)`.
pub fn get_required_string(entries: &Vec<DocEntry>, key: &str) -> (r: Result<String, DecodeError>)
    ensures
        str_result_view(r) == required_str(entries_view(entries@), key@),
{
    let k = String::from_str(key);
    match get(entries, &k) {
        Some(DocValue::Str(s)) => Ok(s.clone()),
        _ => Err(DecodeError::MissingField(k)),
    }
}

/// The datetime stored under `key`, or `MissingField(key)`.
pub fn get_required_datetime(entries: &Vec<DocEntry>, key: &str) -> (r: Result<Timestamp, DecodeError>)
    ensures
        time_result_view(r) == required_datetime(entries_view(entries@), key@),
{
    let k = String::from_str(key);
    match get(entries, &k) {
        Some(DocValue::Datetime(t)) => Ok(*t),
        _ => Err(DecodeError::MissingField(k)),
    }
}

/// The array stored under `key`: `Ok(None)` when the key is absent or null,
/// `TypeMismatch(key)` when it holds anything else.
pub fn get_optional_array<'a>(entries: &'a Vec<DocEntry>, key: &str) -> (r: Result<
    Option<&'a Vec<DocValue>>,
    DecodeError,
>)
    ensures
        match r {
            Ok(Some(items)) => lookup(entries_view(entries@), key@) == Some(
                Doc::Array(Seq::new(items.len() as nat, |i: int| items@[i]@)),
            ),
            Ok(None) => lookup(entries_view(entries@), key@) is None || lookup(
                entries_view(entries@),
                key@,
            ) == Some(Doc::Null),
            Err(e) => e@ == DecodeErrorView::TypeMismatch(key@) && match lookup(
                entries_view(entries@),
                key@,
            ) {
                Some(Doc::Null) => false,
                Some(Doc::Array(_)) => false,
                Some(_) => true,
                None => false,
            },
        },
{
    let k = String::from_str(key);
    match get(entries, &k) {
        None => Ok(None),
        Some(DocValue::Null) => Ok(None),
        Some(DocValue::Array(items)) => {
            proof {
                lemma_array_view(*items);
            }
            Ok(Some(items))
        },
        Some(_) => Err(DecodeError::TypeMismatch(k)),
    }
}

/// Decodes the elements of a `page_fields` array in order, skipping those
/// that do not decode.
pub fn decode_field_values(items: &Vec<DocValue>) -> (r: Vec<PageFieldModel>)
    ensures
        fields_view(r@) == decode_fields(Seq::new(items.len() as nat, |i: int| items@[i]@)),
{
    let ghost views = Seq::new(items.len() as nat, |i: int| items@[i]@);
    let mut out: Vec<PageFieldModel> = Vec::new();
    let mut i: usize = 0;
    while i < items.len()
        invariant
            i <= items.len(),
            views == Seq::new(items.len() as nat, |i: int| items@[i]@),
            fields_view(out@) == decode_fields(views.take(i as int)),
        decreases items.len() - i,
    {
        let ghost before = out@;
        let f = decode_field_value(&items[i]);
        assert(views.take(i + 1).drop_last() =~= views.take(i as int));
        assert(views.take(i + 1).last() == views[i as int]);
        match f {
            Some(f) => {
                out.push(f);
                assert(fields_view(out@) =~= fields_view(before).push(f@));
            },
            None => {},
        }
        i = i + 1;
    }
    assert(views.take(items.len() as int) =~= views);
    out
}

pub open spec fn page_result_view(r: Result<NewPageModel, DecodeError>) -> Result<PageView, DecodeErrorView> {
    match r {
        Ok(p) => Ok(p@),
        Err(e) => Err(e@),
    }
}

/// Reads a page from a stored document. Required attributes that are absent
/// or of the wrong kind fail the decode; `page_fields` may be absent, and its
/// malformed elements are skipped.
pub fn from_document(doc: &Document) -> (r: Result<NewPageModel, DecodeError>)
    ensures
        page_result_view(r) == decode_page(doc@),
        r is Ok ==> page_well_formed(r->Ok_0@),
{
    proof {
        lemma_decoded_page_well_formed(doc@);
    }
    let es = &doc.entries;
    let id = get_required_string(es, "id")?;
    let name = get_required_string(es, "name")?;
    let identifier = get_required_string(es, "identifier")?;
    let page_fields = match get_optional_array(es, "page_fields")? {
        Some(items) => decode_field_values(items),
        None => Vec::new(),
    };
    assert(fields_view(page_fields@) == optional_fields(doc@)->Ok_0);
    let created_at = get_required_datetime(es, "created_at")?;
    let updated_at = get_required_datetime(es, "updated_at")?;
    let created_by = get_required_string(es, "created_by")?;
    let updated_by = get_required_string(es, "updated_by")?;
    Ok(NewPageModel { id, name, identifier, page_fields, created_at, updated_at, created_by, updated_by })
}


proof fn lemma_lookup_at(es: Seq<(Seq<char>, Doc)>, key: Seq<char>, i: int)
    requires
        0 <= i < es.len(),
        es[i].0 == key,
        forall|j: int| 0 <= j < i ==> es[j].0 != key,
    ensures
        lookup(es, key) == Some(es[i].1),
{
    assert(first_match(es, key, i));
    let k = choose|k: int| first_match(es, key, k);
    assert(k == i) by {
        if k < i {
            assert(es[k].0 != key);
        } else if k > i {
            assert(es[i].0 == key);
        }
    }
}

proof fn lemma_option_doc_decodes(o: OptionView)
    ensures
        decode_option(option_doc(o)) == Some(o),
{
    let es = option_doc(o)->Object_0;
    reveal_strlit("label");
    reveal_strlit("value");
    assert("label"@[0] != "value"@[0]);
    lemma_lookup_at(es, "label"@, 0);
    lemma_lookup_at(es, "value"@, 1);
}

proof fn lemma_field_doc_decodes(f: FieldView)
    requires
        field_consistent(f),
    ensures
        decode_field(field_doc(f)) == Some(f),
{
    let es = field_doc(f)->Object_0;
    reveal_strlit("name");
    reveal_strlit("identifier");
    reveal_strlit("data_type");
    reveal_strlit("field_type");
    reveal_strlit("field_content");
    assert("identifier"@[0] != "field_type"@[0]);
    assert("name"@.len() != "identifier"@.len());
    assert("name"@.len() != "data_type"@.len());
    assert("name"@.len() != "field_type"@.len());
    assert("name"@.len() != "field_content"@.len());
    assert("identifier"@.len() != "data_type"@.len());
    assert("identifier"@.len() != "field_content"@.len());
    assert("data_type"@.len() != "field_type"@.len());
    assert("data_type"@.len() != "field_content"@.len());
    assert("field_type"@.len() != "field_content"@.len());
    lemma_lookup_at(es, "name"@, 0);
    lemma_lookup_at(es, "identifier"@, 1);
    lemma_lookup_at(es, "data_type"@, 2);
    lemma_lookup_at(es, "field_type"@, 3);
    lemma_lookup_at(es, "field_content"@, 4);
    lemma_type_names_round_trip(f.data_type, f.field_type);
    match f.content {
        ContentView::Options(os) => {
            let items = os.map_values(|o: OptionView| option_doc(o));
            assert forall|i: int| 0 <= i < items.len() implies (#[trigger] decode_option(
                items[i],
            )) == Some(os[i]) by {
                lemma_option_doc_decodes(os[i]);
            }
            assert(decode_options(items)->Some_0 =~= os);
        },
        _ => {},
    }
}

proof fn lemma_fields_decode(fs: Seq<FieldView>)
    requires
        forall|i: int| 0 <= i < fs.len() ==> field_consistent(#[trigger] fs[i]),
    ensures
        decode_fields(fs.map_values(|f: FieldView| field_doc(f))) == fs,
    decreases fs.len(),
{
    let items = fs.map_values(|f: FieldView| field_doc(f));
    if fs.len() == 0 {
        assert(fs =~= Seq::empty());
    } else {
        let init = fs.drop_last();
        assert(items.drop_last() =~= init.map_values(|f: FieldView| field_doc(f)));
        lemma_fields_decode(init);
        lemma_field_doc_decodes(fs.last());
        assert(init.push(fs.last()) =~= fs);
    }
}

/// Decoding the document that a well-formed page is stored as gives the page
/// back, with its fields and their options in the same order.
pub proof fn lemma_round_trip(p: PageView)
    requires
        page_well_formed(p),
    ensures
        decode_page(page_doc(p)) == Ok::<PageView, DecodeErrorView>(p),
{
    let es = page_doc(p);
    reveal_strlit("id");
    reveal_strlit("name");
    reveal_strlit("identifier");
    reveal_strlit("page_fields");
    reveal_strlit("created_at");
    reveal_strlit("updated_at");
    reveal_strlit("created_by");
    reveal_strlit("updated_by");
    assert("id"@.len() != "name"@.len());
    assert("id"@.len() != "identifier"@.len());
    assert("name"@.len() != "identifier"@.len());
    assert("identifier"@.len() != "page_fields"@.len());
    assert("identifier"@[0] != "created_at"@[0]);
    assert("identifier"@[0] != "updated_at"@[0]);
    assert("identifier"@[0] != "created_by"@[0]);
    assert("identifier"@[0] != "updated_by"@[0]);
    assert("created_at"@[0] != "updated_at"@[0]);
    assert("created_at"@[0] != "updated_by"@[0]);
    assert("created_by"@[0] != "updated_by"@[0]);
    assert("created_at"@[8] != "created_by"@[8]);
    assert("updated_at"@[8] != "updated_by"@[8]);
    lemma_lookup_at(es, "id"@, 0);
    lemma_lookup_at(es, "name"@, 1);
    lemma_lookup_at(es, "identifier"@, 2);
    lemma_lookup_at(es, "page_fields"@, 3);
    lemma_lookup_at(es, "created_at"@, 4);
    lemma_lookup_at(es, "updated_at"@, 5);
    lemma_lookup_at(es, "created_by"@, 6);
    lemma_lookup_at(es, "updated_by"@, 7);
    lemma_fields_decode(p.fields);
}


/// Encoding is a function of the page's content: two equal pages give the
/// same document, and re-encoding what a stored page decodes to gives the
/// stored document again.
pub proof fn lemma_encode_idempotent(a: PageView, b: PageView)
    requires
        a == b,
        page_well_formed(a),
    ensures
        page_doc(a) == page_doc(b),
        page_doc(decode_page(page_doc(a))->Ok_0) == page_doc(a),
{
    lemma_round_trip(a);
}

/// A document without `page_fields` never fails on it: it either decodes to
/// a page with no fields or fails on a missing required attribute.
pub proof fn lemma_absent_fields_decode_empty(es: Seq<(Seq<char>, Doc)>)
    requires
        lookup(es, "page_fields"@) is None,
    ensures
        decode_page(es) is Ok ==> decode_page(es)->Ok_0.fields.len() == 0,
        decode_page(es) is Err ==> decode_page(es)->Err_0 is MissingField,
{
}

/// In a `page_fields` array, a non-object element after a well-formed field
/// is skipped and the field is kept.
pub proof fn lemma_malformed_element_skipped(f: FieldView, bad: Doc)
    requires
        field_consistent(f),
        !(bad is Object),
    ensures
        decode_fields(seq![field_doc(f), bad]) == seq![f],
{
    let items = seq![field_doc(f), bad];
    let one = seq![field_doc(f)];
    lemma_field_doc_decodes(f);
    assert(decode_fields(Seq::<Doc>::empty()) == Seq::<FieldView>::empty());
    assert(one.drop_last() =~= Seq::<Doc>::empty());
    assert(decode_fields(one) =~= seq![f]);
    assert(items.drop_last() =~= one);
    assert(decode_field(items.last()) is None);
}


proof fn lemma_decoded_fields_consistent(items: Seq<Doc>)
    ensures
        forall|i: int|
            0 <= i < decode_fields(items).len() ==> field_consistent(
                #[trigger] decode_fields(items)[i],
            ),
    decreases items.len(),
{
    if items.len() > 0 {
        let rest = decode_fields(items.drop_last());
        lemma_decoded_fields_consistent(items.drop_last());
        match decode_field(items.last()) {
            Some(f) => {
                assert(field_consistent(f));
                assert forall|i: int| 0 <= i < rest.push(f).len() implies field_consistent(
                    #[trigger] rest.push(f)[i],
                ) by {
                    if i < rest.len() {
                        assert(rest.push(f)[i] == rest[i]);
                    }
                }
            },
            None => {},
        }
    }
}

/// Whatever a document decodes to is a well-formed page: each field's
/// content is of the variant its types call for.
pub proof fn lemma_decoded_page_well_formed(es: Seq<(Seq<char>, Doc)>)
    ensures
        decode_page(es) is Ok ==> page_well_formed(decode_page(es)->Ok_0),
{
    match lookup(es, "page_fields"@) {
        Some(Doc::Array(items)) => lemma_decoded_fields_consistent(items),
        _ => {},
    }
}

} // verus!
