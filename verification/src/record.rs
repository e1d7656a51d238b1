//! The record of personal fields, the mask that selects among them, and the
//! borrowed form of a record that is sent to a remote service.

use vstd::prelude::*;

verus! {

/// The fields of a record, in the order in which they are written.
#[derive(Clone, Copy, Debug, PartialEq, Eq, Structural)]
pub enum Field {
    Name,
    Email,
    PhoneNumber,
    Id,
    ProfilePicture,
    License,
    IdImage,
}

/// Which fields of a record a remote service asks for.
#[derive(Clone, Copy, Debug, PartialEq, Eq, Structural)]
pub struct RequestedAutofillFields {
    pub name: bool,
    pub email: bool,
    pub phone_number: bool,
    pub id: bool,
    pub profile_picture: bool,
    pub license: bool,
    pub id_image: bool,
}

/// The personal fields of one user. Every field is present or absent on its own.
#[derive(Debug)]
pub struct AutofillData {
    /// Given name, then family name.
    pub name: Option<[String; 2]>,
    pub email: Option<String>,
    pub phone_number: Option<String>,
    pub id: Option<String>,
    /// An image in base64.
    pub profile_picture: Option<String>,
    /// An image in base64.
    pub license: Option<String>,
    /// An image in base64.
    pub id_image: Option<String>,
}

/// A record whose texts are borrowed from an `AutofillData`.
#[derive(Clone, Copy, Debug)]
pub struct AutofillDataRef<'a> {
    pub name: Option<[&'a str; 2]>,
    pub email: Option<&'a str>,
    pub phone_number: Option<&'a str>,
    pub id: Option<&'a str>,
    pub profile_picture: Option<&'a str>,
    pub license: Option<&'a str>,
    pub id_image: Option<&'a str>,
}

/// What a record says: each field absent, or the text it holds.
pub struct AutofillView {
    pub name: Option<(Seq<char>, Seq<char>)>,
    pub email: Option<Seq<char>>,
    pub phone_number: Option<Seq<char>>,
    pub id: Option<Seq<char>>,
    pub profile_picture: Option<Seq<char>>,
    pub license: Option<Seq<char>>,
    pub id_image: Option<Seq<char>>,
}

/// What an owned text field says.
pub open spec fn text_view(field: Option<String>) -> Option<Seq<char>> {
    match field {
        Some(s) => Some(s@),
        None => None,
    }
}

/// What a borrowed text field says.
pub open spec fn str_view(field: Option<&str>) -> Option<Seq<char>> {
    match field {
        Some(s) => Some(s@),
        None => None,
    }
}

/// What an owned name says: its given and its family part.
pub open spec fn name_view(field: Option<[String; 2]>) -> Option<(Seq<char>, Seq<char>)> {
    match field {
        Some(parts) => Some((parts@[0]@, parts@[1]@)),
        None => None,
    }
}

/// What a borrowed name says: its given and its family part.
pub open spec fn name_ref_view(field: Option<[&str; 2]>) -> Option<(Seq<char>, Seq<char>)> {
    match field {
        Some(parts) => Some((parts@[0]@, parts@[1]@)),
        None => None,
    }
}

impl AutofillView {
    /// Whether the record has the field.
    pub open spec fn has(self, field: Field) -> bool {
        match field {
            Field::Name => self.name is Some,
            Field::Email => self.email is Some,
            Field::PhoneNumber => self.phone_number is Some,
            Field::Id => self.id is Some,
            Field::ProfilePicture => self.profile_picture is Some,
            Field::License => self.license is Some,
            Field::IdImage => self.id_image is Some,
        }
    }

    /// The record with no field present.
    pub open spec fn empty() -> AutofillView {
        AutofillView {
            name: None,
            email: None,
            phone_number: None,
            id: None,
            profile_picture: None,
            license: None,
            id_image: None,
        }
    }

    /// The record that stands in when no stored record can be read.
    pub open spec fn fallback() -> AutofillView {
        AutofillView {
            name: Some(("foo"@, "bar"@)),
            email: Some("mail@mail.com"@),
            phone_number: Some("0567814779"@),
            id: Some("1122334466"@),
            profile_picture: None,
            license: None,
            id_image: None,
        }
    }

    /// What is left of the record when only the fields that `mask` asks for are kept: a
    /// field is in it exactly when the mask asks for it and the record has it.
    pub open spec fn disclosed(self, mask: RequestedAutofillFields) -> AutofillView {
        AutofillView {
            name: if mask.name { self.name } else { None },
            email: if mask.email { self.email } else { None },
            phone_number: if mask.phone_number { self.phone_number } else { None },
            id: if mask.id { self.id } else { None },
            profile_picture: if mask.profile_picture { self.profile_picture } else { None },
            license: if mask.license { self.license } else { None },
            id_image: if mask.id_image { self.id_image } else { None },
        }
    }
}

impl View for AutofillData {
    type V = AutofillView;

    open spec fn view(&self) -> AutofillView {
        AutofillView {
            name: name_view(self.name),
            email: text_view(self.email),
            phone_number: text_view(self.phone_number),
            id: text_view(self.id),
            profile_picture: text_view(self.profile_picture),
            license: text_view(self.license),
            id_image: text_view(self.id_image),
        }
    }
}

impl<'a> View for AutofillDataRef<'a> {
    type V = AutofillView;

    open spec fn view(&self) -> AutofillView {
        AutofillView {
            name: name_ref_view(self.name),
            email: str_view(self.email),
            phone_number: str_view(self.phone_number),
            id: str_view(self.id),
            profile_picture: str_view(self.profile_picture),
            license: str_view(self.license),
            id_image: str_view(self.id_image),
        }
    }
}

fn clone_text(field: &Option<String>) -> (r: Option<String>)
    ensures
        text_view(r) == text_view(*field),
{
    match field {
        Some(s) => Some(s.clone()),
        None => None,
    }
}

fn clone_name(field: &Option<[String; 2]>) -> (r: Option<[String; 2]>)
    ensures
        name_view(r) == name_view(*field),
{
    match field {
        Some(parts) => Some([parts[0].clone(), parts[1].clone()]),
        None => None,
    }
}

fn same_text(a: &Option<String>, b: &Option<String>) -> (r: bool)
    ensures
        r == (text_view(*a) == text_view(*b)),
{
    match (a, b) {
        (Some(x), Some(y)) => *x == *y,
        (None, None) => true,
        _ => false,
    }
}

fn same_name(a: &Option<[String; 2]>, b: &Option<[String; 2]>) -> (r: bool)
    ensures
        r == (name_view(*a) == name_view(*b)),
{
    match (a, b) {
        (Some(x), Some(y)) => x[0] == y[0] && x[1] == y[1],
        (None, None) => true,
        _ => false,
    }
}

fn borrow_text<'a>(field: &'a Option<String>) -> (r: Option<&'a str>)
    ensures
        str_view(r) == text_view(*field),
{
    match field {
        Some(s) => Some(s.as_str()),
        None => None,
    }
}

fn borrow_name<'a>(field: &'a Option<[String; 2]>) -> (r: Option<[&'a str; 2]>)
    ensures
        name_ref_view(r) == name_view(*field),
{
    match field {
        Some(parts) => Some([parts[0].as_str(), parts[1].as_str()]),
        None => None,
    }
}

fn own_text(field: Option<&str>) -> (r: Option<String>)
    ensures
        text_view(r) == str_view(field),
{
    match field {
        Some(s) => Some(s.to_owned()),
        None => None,
    }
}

fn own_name(field: Option<[&str; 2]>) -> (r: Option<[String; 2]>)
    ensures
        name_view(r) == name_ref_view(field),
{
    match field {
        Some(parts) => Some([parts[0].to_owned(), parts[1].to_owned()]),
        None => None,
    }
}

impl RequestedAutofillFields {
    /// Whether the mask asks for the field.
    pub open spec fn asks(self, field: Field) -> bool {
        match field {
            Field::Name => self.name,
            Field::Email => self.email,
            Field::PhoneNumber => self.phone_number,
            Field::Id => self.id,
            Field::ProfilePicture => self.profile_picture,
            Field::License => self.license,
            Field::IdImage => self.id_image,
        }
    }

    /// The mask that asks for nothing.
    pub fn none() -> (mask: Self)
        ensures
            mask == (RequestedAutofillFields {
                name: false,
                email: false,
                phone_number: false,
                id: false,
                profile_picture: false,
                license: false,
                id_image: false,
            }),
    {
        RequestedAutofillFields {
            name: false,
            email: false,
            phone_number: false,
            id: false,
            profile_picture: false,
            license: false,
            id_image: false,
        }
    }

    /// The mask that asks for every field.
    pub fn all() -> (mask: Self)
        ensures
            mask == (RequestedAutofillFields {
                name: true,
                email: true,
                phone_number: true,
                id: true,
                profile_picture: true,
                license: true,
                id_image: true,
            }),
    {
        RequestedAutofillFields {
            name: true,
            email: true,
            phone_number: true,
            id: true,
            profile_picture: true,
            license: true,
            id_image: true,
        }
    }
}

impl Default for AutofillData {
    /// The record with no field present.
    fn default() -> (r: Self)
        ensures
            r@ == AutofillView::empty(),
    {
        AutofillData {
            name: None,
            email: None,
            phone_number: None,
            id: None,
            profile_picture: None,
            license: None,
            id_image: None,
        }
    }
}

impl Clone for AutofillData {
    fn clone(&self) -> (r: Self)
        ensures
            r@ == self@,
    {
        AutofillData {
            name: clone_name(&self.name),
            email: clone_text(&self.email),
            phone_number: clone_text(&self.phone_number),
            id: clone_text(&self.id),
            profile_picture: clone_text(&self.profile_picture),
            license: clone_text(&self.license),
            id_image: clone_text(&self.id_image),
        }
    }
}

impl PartialEq for AutofillData {
    fn eq(&self, other: &Self) -> (r: bool) {
        self.same_as(other)
    }
}

impl vstd::std_specs::cmp::PartialEqSpecImpl for AutofillData {
    open spec fn obeys_eq_spec() -> bool {
        true
    }

    open spec fn eq_spec(&self, other: &Self) -> bool {
        self@ == other@
    }
}

impl Eq for AutofillData {

}

impl AutofillData {
    /// The record that stands in when no stored record can be read.
    pub fn fallback() -> (r: Self)
        ensures
            r@ == AutofillView::fallback(),
    {
        AutofillData {
            name: Some(["foo".to_owned(), "bar".to_owned()]),
            email: Some("mail@mail.com".to_owned()),
            phone_number: Some("0567814779".to_owned()),
            id: Some("1122334466".to_owned()),
            profile_picture: None,
            license: None,
            id_image: None,
        }
    }

    /// Whether two records say the same: field by field, text by text.
    pub fn same_as(&self, other: &Self) -> (r: bool)
        ensures
            r == (self@ == other@),
    {
        same_name(&self.name, &other.name) && same_text(&self.email, &other.email) && same_text(
            &self.phone_number,
            &other.phone_number,
        ) && same_text(&self.id, &other.id) && same_text(
            &self.profile_picture,
            &other.profile_picture,
        ) && same_text(&self.license, &other.license) && same_text(&self.id_image, &other.id_image)
    }

    /// The whole record, borrowed.
    pub fn as_ref(&self) -> (r: AutofillDataRef<'_>)
        ensures
            r@ == self@,
    {
        AutofillDataRef {
            name: borrow_name(&self.name),
            email: borrow_text(&self.email),
            phone_number: borrow_text(&self.phone_number),
            id: borrow_text(&self.id),
            profile_picture: borrow_text(&self.profile_picture),
            license: borrow_text(&self.license),
            id_image: borrow_text(&self.id_image),
        }
    }

    /// The fields that `mask` asks for, borrowed: a field is in the result exactly when
    /// the mask asks for it and the record has it.
    pub fn disclose(&self, mask: RequestedAutofillFields) -> (r: AutofillDataRef<'_>)
        ensures
            r@ == self@.disclosed(mask),
    {
        AutofillDataRef {
            name: if mask.name { borrow_name(&self.name) } else { None },
            email: if mask.email { borrow_text(&self.email) } else { None },
            phone_number: if mask.phone_number { borrow_text(&self.phone_number) } else { None },
            id: if mask.id { borrow_text(&self.id) } else { None },
            profile_picture: if mask.profile_picture {
                borrow_text(&self.profile_picture)
            } else {
                None
            },
            license: if mask.license { borrow_text(&self.license) } else { None },
            id_image: if mask.id_image { borrow_text(&self.id_image) } else { None },
        }
    }
}

impl<'a> AutofillDataRef<'a> {
    /// A record of its own with the same fields.
    pub fn to_owned(&self) -> (r: AutofillData)
        ensures
            r@ == self@,
    {
        AutofillData {
            name: own_name(self.name),
            email: own_text(self.email),
            phone_number: own_text(self.phone_number),
            id: own_text(self.id),
            profile_picture: own_text(self.profile_picture),
            license: own_text(self.license),
            id_image: own_text(self.id_image),
        }
    }
}

} // verus!
