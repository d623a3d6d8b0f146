//! Multipart forms: building them field by field, and turning them into the
//! body that the HTTP layer sends.

use std::collections::HashMap;

use vstd::prelude::*;
use vstd::utf8::encode_utf8;

use reqwest::multipart::Form as ReqwestForm;
use reqwest::multipart::Part as ReqwestPart;
use reqwest::Error as ReqwestError;

verus! {

/// A multipart form: named parts, kept in the order they were added.
#[derive(Debug)]
pub struct Form {
    parts: Vec<(String, Part)>,
}

/// One part of a [`Form`].
#[derive(Debug)]
pub enum Part {
    /// A text field.
    Text(String),
    /// A binary field, with an optional file name and MIME type.
    Bytes {
        data: Vec<u8>,
        file_name: Option<String>,
        mime: Option<String>,
        headers: HashMap<String, String>,
    },
}

impl View for Form {
    type V = Seq<(String, Part)>;

    /// The parts of the form, in the order they were added.
    closed spec fn view(&self) -> Seq<(String, Part)> {
        self.parts@
    }
}

impl Form {
    /// An empty form.
    #[must_use]
    pub fn new() -> (r: Self)
        ensures
            r@ == Seq::<(String, Part)>::empty(),
    {
        Self { parts: Vec::new() }
    }

    /// The form with a text part `name` holding `value` added at the end.
    #[must_use]
    pub fn text(self, name: String, value: String) -> (r: Self)
        ensures
            r@ == self@.push((name, Part::Text(value))),
    {
        let mut form = self;
        form.parts.push((name, Part::Text(value)));
        form
    }

    /// The form with a binary part `name` added at the end, holding `data`,
    /// the given file name and MIME type, and no headers of its own.
    #[must_use]
    pub fn bytes(
        self,
        name: String,
        data: Vec<u8>,
        file_name: Option<String>,
        mime: Option<String>,
    ) -> (r: Self)
        ensures
            r@.len() == self@.len() + 1,
            r@.drop_last() == self@,
            r@.last().0 == name,
            r@.last().1 matches Part::Bytes { data: d, file_name: f, mime: m, headers: h }
                && d == data && f == file_name && m == mime && h@ == Map::<String, String>::empty(),
    {
        let mut form = self;
        form.parts.push((name, Part::Bytes { data, file_name, mime, headers: HashMap::new() }));
        assert(form@.drop_last() =~= self@);
        form
    }
}

impl Default for Form {
    /// An empty form.
    fn default() -> (r: Self)
        ensures
            r@ == Seq::<(String, Part)>::empty(),
    {
        Self::new()
    }
}

/// A multipart field as the HTTP layer holds it: the bytes of its body, its
/// file name, and its MIME type as the `mime` crate stores it after parsing.
pub struct FieldModel {
    pub body: Seq<u8>,
    pub file_name: Option<Seq<char>>,
    pub mime: Option<Seq<char>>,
}

/// The named fields that a `reqwest::multipart::Form` holds, in order.
pub uninterp spec fn multipart_fields(form: ReqwestForm) -> Seq<(Seq<char>, FieldModel)>;

/// The field that a `reqwest::multipart::Part` holds.
pub uninterp spec fn multipart_part(part: ReqwestPart) -> FieldModel;

/// Whether `reqwest::multipart::Part::mime_str` accepts a MIME type, that is,
/// whether the text parses as a MIME type.
pub uninterp spec fn mime_parses(mime: Seq<char>) -> bool;

/// The MIME type that parsing a text gives, as the `mime` crate stores it
/// (for instance with the type and subtype lower-cased).
pub uninterp spec fn parsed_mime(mime: Seq<char>) -> Seq<char>;

/// `reqwest::multipart::Form::new`: a form with no fields.
#[verifier::external_body]
fn reqwest_form_new() -> (r: ReqwestForm)
    ensures
        multipart_fields(r) == Seq::<(Seq<char>, FieldModel)>::empty(),
{
    ReqwestForm::new()
}

/// `reqwest::multipart::Form::text`: the form with a field added at the end
/// (the source adds `Part::text(value)` under `name`), whose body is the UTF-8
/// bytes of `value`.
#[verifier::external_body]
fn reqwest_form_text(form: ReqwestForm, name: String, value: String) -> (r: ReqwestForm)
    ensures
        multipart_fields(r) == multipart_fields(form).push(
            (name@, FieldModel { body: encode_utf8(value@), file_name: None, mime: None }),
        ),
{
    form.text(name, value)
}

/// `reqwest::multipart::Form::part`: the form with `part` added at the end
/// under `name`.
#[verifier::external_body]
fn reqwest_form_part(form: ReqwestForm, name: String, part: ReqwestPart) -> (r: ReqwestForm)
    ensures
        multipart_fields(r) == multipart_fields(form).push((name@, multipart_part(part))),
{
    form.part(name, part)
}

/// `reqwest::multipart::Part::text`: a part whose body is the UTF-8 bytes of
/// `value`, with no file name and no MIME type.
#[verifier::external_body]
fn reqwest_part_text(value: String) -> (r: ReqwestPart)
    ensures
        multipart_part(r) == (FieldModel { body: encode_utf8(value@), file_name: None, mime: None }),
{
    ReqwestPart::text(value)
}

/// `reqwest::multipart::Part::bytes`: a binary part with no file name and no
/// MIME type.
#[verifier::external_body]
fn reqwest_part_bytes(data: Vec<u8>) -> (r: ReqwestPart)
    ensures
        multipart_part(r) == (FieldModel { body: data@, file_name: None, mime: None }),
{
    ReqwestPart::bytes(data)
}

/// `reqwest::multipart::Part::file_name`: the part with its file name set and
/// all else kept.
#[verifier::external_body]
fn reqwest_part_file_name(part: ReqwestPart, file_name: String) -> (r: ReqwestPart)
    ensures
        multipart_part(r) == (FieldModel { file_name: Some(file_name@), ..multipart_part(part) }),
{
    part.file_name(file_name)
}

/// `reqwest::multipart::Part::mime_str`: succeeds exactly when the text parses
/// as a MIME type (the source parses it and nothing else), and then returns
/// the part with the parsed type and all else kept.
#[verifier::external_body]
fn reqwest_part_mime_str(part: ReqwestPart, mime: &str) -> (r: Result<ReqwestPart, ReqwestError>)
    ensures
        r is Ok <==> mime_parses(mime@),
        r matches Ok(p) ==> multipart_part(p) == (FieldModel { mime: Some(parsed_mime(mime@)), ..multipart_part(part) }),
{
    part.mime_str(mime)
}

/// The field that a binary part becomes: its data and file name, and the
/// parsed form of its MIME type only where that type parses.
pub open spec fn bytes_field(data: Vec<u8>, file_name: Option<String>, mime: Option<String>) -> FieldModel {
    FieldModel {
        body: data@,
        file_name: match file_name {
            Some(f) => Some(f@),
            None => None,
        },
        mime: match mime {
            Some(m) => if mime_parses(m@) {
                Some(parsed_mime(m@))
            } else {
                None
            },
            None => None,
        },
    }
}

/// The field that a part of a [`Form`] becomes: text becomes its UTF-8 bytes;
/// binary parts become `bytes_field`.
pub open spec fn field_of(part: Part) -> FieldModel {
    match part {
        Part::Text(v) => FieldModel { body: encode_utf8(v@), file_name: None, mime: None },
        Part::Bytes { data, file_name, mime, .. } => bytes_field(data, file_name, mime),
    }
}

/// The named field that a named part of a [`Form`] becomes.
pub open spec fn named_field_of(entry: (String, Part)) -> (Seq<char>, FieldModel) {
    (entry.0@, field_of(entry.1))
}

/// Whether a MIME type would be accepted for a part: checked on an empty
/// text part, as the conversion does before it sets the type.
fn mime_is_valid(mime: &str) -> (r: bool)
    ensures
        r == mime_parses(mime@),
{
    let probe = reqwest_part_text(String::new());
    reqwest_part_mime_str(probe, mime).is_ok()
}

/// The HTTP layer's part for a binary part of a [`Form`]: its data, its file
/// name if any, and its MIME type if any and valid.
fn bytes_part(data: Vec<u8>, file_name: Option<String>, mime: Option<String>) -> (r: ReqwestPart)
    ensures
        multipart_part(r) == bytes_field(data, file_name, mime),
{
    let mime = match mime {
        Some(m) => if mime_is_valid(m.as_str()) {
            Some(m)
        } else {
            None
        },
        None => None,
    };
    let mut p = reqwest_part_bytes(data);
    if let Some(f) = file_name {
        p = reqwest_part_file_name(p, f);
    }
    if let Some(m) = mime {
        p = match reqwest_part_mime_str(p, m.as_str()) {
            Ok(p) => p,
            Err(_) => {
                // The MIME type was checked above, so this cannot happen.
                assert(false);
                return reqwest_part_bytes(Vec::new());
            },
        };
    }
    p
}

impl From<Form> for ReqwestForm {
    /// The multipart body for a form: one field per part, in order, under the
    /// part's name. A text part becomes a field holding its UTF-8 bytes; a
    /// binary part keeps its data and file name, and its MIME type, as parsed,
    /// where that type parses (an invalid one is dropped rather than failing
    /// the form). A part's own headers are not sent.
    fn from(value: Form) -> (out: ReqwestForm)
        ensures
            multipart_fields(out) == value@.map_values(|e: (String, Part)| named_field_of(e)),
            multipart_fields(out).len() == value@.len(),
            forall|i: int| 0 <= i < value@.len() ==> {
                let (name, field) = #[trigger] multipart_fields(out)[i];
                &&& name == value@[i].0@
                &&& value@[i].1 matches Part::Text(v) ==> field == (FieldModel {
                    body: encode_utf8(v@),
                    file_name: None,
                    mime: None,
                })
                &&& value@[i].1 matches Part::Bytes { data, file_name, mime, .. } ==> {
                    &&& field.body == data@
                    &&& file_name matches Some(f) ==> field.file_name == Some(f@)
                    &&& file_name is None ==> field.file_name is None
                    &&& mime matches Some(m) ==> field.mime == if mime_parses(m@) {
                        Some(parsed_mime(m@))
                    } else {
                        None
                    }
                    &&& mime is None ==> field.mime is None
                }
            },
    {
        let ghost parts = value@;
        let mut out = reqwest_form_new();
        for entry in it: value.parts.into_iter()
            invariant
                it.seq() == parts,
                multipart_fields(out) == parts.take(it.index() as int).map_values(
                    |e: (String, Part)| named_field_of(e),
                ),
        {
            let (name, part) = entry;
            out = match part {
                Part::Text(v) => reqwest_form_text(out, name, v),
                Part::Bytes { data, file_name, mime, .. } => reqwest_form_part(
                    out,
                    name,
                    bytes_part(data, file_name, mime),
                ),
            };
            assert(parts.take(it.index() + 1) =~= parts.take(it.index() as int).push(parts[it.index() as int]));
        }
        assert(parts.take(parts.len() as int) =~= parts);
        proof {
            assert forall|i: int| 0 <= i < parts.len() implies #[trigger] multipart_fields(out)[i]
                == named_field_of(parts[i]) by {
                lemma_field_of_parts(parts[i].1);
            }
        }
        out
    }
}

/// What each kind of part becomes, stated on the part's own contents: a text
/// part becomes a field whose body is the UTF-8 bytes of its whole value, with
/// no file name and no MIME type; a binary part keeps its data as the body
/// and its file name, and gets its MIME type, as parsed, exactly when that
/// type parses.
pub proof fn lemma_field_of_parts(part: Part)
    ensures
        part matches Part::Text(v) ==> field_of(part) == (FieldModel {
            body: encode_utf8(v@),
            file_name: None,
            mime: None,
        }),
        part matches Part::Bytes { data, file_name, mime, .. } ==> {
            &&& field_of(part).body == data@
            &&& file_name matches Some(f) ==> field_of(part).file_name == Some(f@)
            &&& file_name is None ==> field_of(part).file_name is None
            &&& mime matches Some(m) ==> field_of(part).mime == if mime_parses(m@) {
                Some(parsed_mime(m@))
            } else {
                None
            }
            &&& mime is None ==> field_of(part).mime is None
        },
{
}

/// Adding a part to a form adds the field it becomes at the end of the
/// multipart body, and leaves the fields before it as they were.
pub proof fn lemma_added_part_becomes_last_field(form: Form, name: String, part: Part)
    ensures
        form@.push((name, part)).map_values(|e: (String, Part)| named_field_of(e))
            == form@.map_values(|e: (String, Part)| named_field_of(e)).push(
            named_field_of((name, part)),
        ),
{
    assert(form@.push((name, part)).map_values(|e: (String, Part)| named_field_of(e))
        =~= form@.map_values(|e: (String, Part)| named_field_of(e)).push(
        named_field_of((name, part)),
    ));
}

/// The generic `From` law is not claimed: the result is an outside value that
/// no spec function can build. The contract of `from` above states it.
impl vstd::std_specs::convert::FromSpecImpl<Form> for ReqwestForm {
    open spec fn obeys_from_spec() -> bool {
        false
    }

    open spec fn from_spec(v: Form) -> ReqwestForm {
        vstd::pervasive::arbitrary()
    }
}

} // verus!
