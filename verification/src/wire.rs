//! Records and masks as JSON documents: which member stands for which field, what an
//! absent member means, and which documents are refused.

use crate::json::{
    item_views, lemma_members_map_push, member_views, members_map, parsed_json, printed_json, Json,
    JsonView,
};
use crate::record::{
    name_ref_view, name_view, str_view, text_view, AutofillData, AutofillDataRef, AutofillView,
    Field, RequestedAutofillFields,
};
use vstd::prelude::*;

verus! {

/// Why a text was not read as a record or as a mask.
#[derive(Debug)]
pub enum WireError {
    /// The text is no JSON document; the parser's message.
    Syntax(String),
    /// The document is not an object.
    NotAnObject,
    /// The member of this field holds a value of the wrong kind.
    WrongKind(Field),
}

/// What a `WireError` says.
pub enum WireErrorView {
    Syntax(Seq<char>),
    NotAnObject,
    WrongKind(Field),
}

impl View for WireError {
    type V = WireErrorView;

    open spec fn view(&self) -> WireErrorView {
        match self {
            WireError::Syntax(message) => WireErrorView::Syntax(message@),
            WireError::NotAnObject => WireErrorView::NotAnObject,
            WireError::WrongKind(field) => WireErrorView::WrongKind(*field),
        }
    }
}

impl Field {
    /// The key of the member that stands for the field.
    pub open spec fn key(self) -> Seq<char> {
        match self {
            Field::Name => "name"@,
            Field::Email => "email"@,
            Field::PhoneNumber => "phone_number"@,
            Field::Id => "id"@,
            Field::ProfilePicture => "profile_picture"@,
            Field::License => "license"@,
            Field::IdImage => "id_image"@,
        }
    }

    /// The key of the member that stands for the field.
    pub fn wire_name(self) -> (r: &'static str)
        ensures
            r@ == self.key(),
    {
        match self {
            Field::Name => "name",
            Field::Email => "email",
            Field::PhoneNumber => "phone_number",
            Field::Id => "id",
            Field::ProfilePicture => "profile_picture",
            Field::License => "license",
            Field::IdImage => "id_image",
        }
    }
}

/// No two fields share a key.
pub proof fn lemma_keys_differ(a: Field, b: Field)
    ensures
        a.key() == b.key() <==> a == b,
{
    reveal_strlit("name");
    reveal_strlit("email");
    reveal_strlit("phone_number");
    reveal_strlit("id");
    reveal_strlit("profile_picture");
    reveal_strlit("license");
    reveal_strlit("id_image");
    assert(Field::Name.key().len() == 4);
    assert(Field::Email.key().len() == 5);
    assert(Field::PhoneNumber.key().len() == 12);
    assert(Field::Id.key().len() == 2);
    assert(Field::ProfilePicture.key().len() == 15);
    assert(Field::License.key().len() == 7);
    assert(Field::IdImage.key().len() == 8);
}

impl WireErrorView {
    /// The error in words.
    pub open spec fn message(self) -> Seq<char> {
        match self {
            WireErrorView::Syntax(message) => message,
            WireErrorView::NotAnObject => "a JSON object was expected"@,
            WireErrorView::WrongKind(field) => "a value of the wrong kind in the member "@
                + field.key(),
        }
    }
}

impl WireError {
    /// The error in words.
    pub fn message(&self) -> (r: String)
        ensures
            r@ == self@.message(),
    {
        match self {
            WireError::Syntax(message) => message.clone(),
            WireError::NotAnObject => "a JSON object was expected".to_owned(),
            WireError::WrongKind(field) => "a value of the wrong kind in the member ".to_owned().concat(
                field.wire_name(),
            ),
        }
    }
}

/// The document that stands for a text field, where the field is present.
pub open spec fn text_tree(field: Option<Seq<char>>) -> Option<JsonView> {
    match field {
        Some(s) => Some(JsonView::Text(s)),
        None => None,
    }
}

/// The document that stands for a name, where it is present: a list of its two parts.
pub open spec fn name_tree(field: Option<(Seq<char>, Seq<char>)>) -> Option<JsonView> {
    match field {
        Some((given, family)) => Some(
            JsonView::List(seq![JsonView::Text(given), JsonView::Text(family)]),
        ),
        None => None,
    }
}

/// The members with one more, where there is a value to add.
pub open spec fn with_member(
    members: Map<Seq<char>, JsonView>,
    key: Seq<char>,
    value: Option<JsonView>,
) -> Map<Seq<char>, JsonView> {
    match value {
        Some(v) => members.insert(key, v),
        None => members,
    }
}

/// The members of the document that stands for a record: one for each field that is
/// present, and no other.
pub open spec fn record_members(r: AutofillView) -> Map<Seq<char>, JsonView> {
    let m = Map::<Seq<char>, JsonView>::empty();
    let m = with_member(m, Field::Name.key(), name_tree(r.name));
    let m = with_member(m, Field::Email.key(), text_tree(r.email));
    let m = with_member(m, Field::PhoneNumber.key(), text_tree(r.phone_number));
    let m = with_member(m, Field::Id.key(), text_tree(r.id));
    let m = with_member(m, Field::ProfilePicture.key(), text_tree(r.profile_picture));
    let m = with_member(m, Field::License.key(), text_tree(r.license));
    with_member(m, Field::IdImage.key(), text_tree(r.id_image))
}

/// The document that stands for a record.
pub open spec fn record_tree(r: AutofillView) -> JsonView {
    JsonView::Object(record_members(r))
}

/// What an object says of a text field: absent where there is no member or the member
/// is null, the text where the member is a text, an error otherwise.
pub open spec fn text_member(members: Map<Seq<char>, JsonView>, field: Field) -> Result<
    Option<Seq<char>>,
    WireErrorView,
> {
    if !members.contains_key(field.key()) {
        Ok(None)
    } else {
        match members[field.key()] {
            JsonView::Null => Ok(None),
            JsonView::Text(s) => Ok(Some(s)),
            _ => Err(WireErrorView::WrongKind(field)),
        }
    }
}

/// What an object says of the name: absent where there is no member or the member is
/// null, the two parts where the member is a list of exactly two texts, an error
/// otherwise.
pub open spec fn name_member(members: Map<Seq<char>, JsonView>) -> Result<
    Option<(Seq<char>, Seq<char>)>,
    WireErrorView,
> {
    if !members.contains_key(Field::Name.key()) {
        Ok(None)
    } else {
        match members[Field::Name.key()] {
            JsonView::Null => Ok(None),
            JsonView::List(parts) => {
                if parts.len() == 2 && parts[0] is Text && parts[1] is Text {
                    Ok(Some((parts[0]->Text_0, parts[1]->Text_0)))
                } else {
                    Err(WireErrorView::WrongKind(Field::Name))
                }
            },
            _ => Err(WireErrorView::WrongKind(Field::Name)),
        }
    }
}

/// What an object says of a mask's field: not asked for where there is no member, the
/// member's value where it is a boolean, an error otherwise.
pub open spec fn flag_member(members: Map<Seq<char>, JsonView>, field: Field) -> Result<
    bool,
    WireErrorView,
> {
    if !members.contains_key(field.key()) {
        Ok(false)
    } else {
        match members[field.key()] {
            JsonView::Bool(b) => Ok(b),
            _ => Err(WireErrorView::WrongKind(field)),
        }
    }
}

/// The record that a document stands for. Members with other keys are passed over; of
/// several members of the wrong kind the first in the order of the fields is reported.
pub open spec fn tree_record(tree: JsonView) -> Result<AutofillView, WireErrorView> {
    match tree {
        JsonView::Object(m) => {
            if name_member(m) is Err {
                Err(name_member(m)->Err_0)
            } else if text_member(m, Field::Email) is Err {
                Err(text_member(m, Field::Email)->Err_0)
            } else if text_member(m, Field::PhoneNumber) is Err {
                Err(text_member(m, Field::PhoneNumber)->Err_0)
            } else if text_member(m, Field::Id) is Err {
                Err(text_member(m, Field::Id)->Err_0)
            } else if text_member(m, Field::ProfilePicture) is Err {
                Err(text_member(m, Field::ProfilePicture)->Err_0)
            } else if text_member(m, Field::License) is Err {
                Err(text_member(m, Field::License)->Err_0)
            } else if text_member(m, Field::IdImage) is Err {
                Err(text_member(m, Field::IdImage)->Err_0)
            } else {
                Ok(
                    AutofillView {
                        name: name_member(m)->Ok_0,
                        email: text_member(m, Field::Email)->Ok_0,
                        phone_number: text_member(m, Field::PhoneNumber)->Ok_0,
                        id: text_member(m, Field::Id)->Ok_0,
                        profile_picture: text_member(m, Field::ProfilePicture)->Ok_0,
                        license: text_member(m, Field::License)->Ok_0,
                        id_image: text_member(m, Field::IdImage)->Ok_0,
                    },
                )
            }
        },
        _ => Err(WireErrorView::NotAnObject),
    }
}

/// The mask that a document stands for. A field without a member is not asked for.
pub open spec fn tree_mask(tree: JsonView) -> Result<RequestedAutofillFields, WireErrorView> {
    match tree {
        JsonView::Object(m) => {
            if flag_member(m, Field::Name) is Err {
                Err(flag_member(m, Field::Name)->Err_0)
            } else if flag_member(m, Field::Email) is Err {
                Err(flag_member(m, Field::Email)->Err_0)
            } else if flag_member(m, Field::PhoneNumber) is Err {
                Err(flag_member(m, Field::PhoneNumber)->Err_0)
            } else if flag_member(m, Field::Id) is Err {
                Err(flag_member(m, Field::Id)->Err_0)
            } else if flag_member(m, Field::ProfilePicture) is Err {
                Err(flag_member(m, Field::ProfilePicture)->Err_0)
            } else if flag_member(m, Field::License) is Err {
                Err(flag_member(m, Field::License)->Err_0)
            } else if flag_member(m, Field::IdImage) is Err {
                Err(flag_member(m, Field::IdImage)->Err_0)
            } else {
                Ok(
                    RequestedAutofillFields {
                        name: flag_member(m, Field::Name)->Ok_0,
                        email: flag_member(m, Field::Email)->Ok_0,
                        phone_number: flag_member(m, Field::PhoneNumber)->Ok_0,
                        id: flag_member(m, Field::Id)->Ok_0,
                        profile_picture: flag_member(m, Field::ProfilePicture)->Ok_0,
                        license: flag_member(m, Field::License)->Ok_0,
                        id_image: flag_member(m, Field::IdImage)->Ok_0,
                    },
                )
            }
        },
        _ => Err(WireErrorView::NotAnObject),
    }
}

/// The record that a text stands for. In a text that writes a key twice, the later
/// member is the one that is read.
pub open spec fn text_record(text: Seq<char>) -> Result<AutofillView, WireErrorView> {
    match parsed_json(text) {
        Ok(tree) => tree_record(tree),
        Err(message) => Err(WireErrorView::Syntax(message)),
    }
}

/// The mask that a text stands for. In a text that writes a key twice, the later
/// member is the one that is read.
pub open spec fn text_mask(text: Seq<char>) -> Result<RequestedAutofillFields, WireErrorView> {
    match parsed_json(text) {
        Ok(tree) => tree_mask(tree),
        Err(message) => Err(WireErrorView::Syntax(message)),
    }
}

/// The text that is written for a record.
pub open spec fn record_text(r: AutofillView) -> Seq<char> {
    printed_json(record_tree(r))
}

/// A record that is written as a document and read back is the same record, whichever
/// of its fields are present.
pub proof fn lemma_record_round_trip(r: AutofillView)
    ensures
        tree_record(record_tree(r)) == Ok::<AutofillView, WireErrorView>(r),
{
    assert forall|a: Field, b: Field| #[trigger] a.key() == #[trigger] b.key() implies a == b by {
        lemma_keys_differ(a, b);
    }
    let m = record_members(r);
    assert(name_member(m) == Ok::<Option<(Seq<char>, Seq<char>)>, WireErrorView>(r.name));
    assert(text_member(m, Field::Email) == Ok::<Option<Seq<char>>, WireErrorView>(r.email));
    assert(text_member(m, Field::PhoneNumber) == Ok::<Option<Seq<char>>, WireErrorView>(
        r.phone_number,
    ));
    assert(text_member(m, Field::Id) == Ok::<Option<Seq<char>>, WireErrorView>(r.id));
    assert(text_member(m, Field::ProfilePicture) == Ok::<Option<Seq<char>>, WireErrorView>(
        r.profile_picture,
    ));
    assert(text_member(m, Field::License) == Ok::<Option<Seq<char>>, WireErrorView>(r.license));
    assert(text_member(m, Field::IdImage) == Ok::<Option<Seq<char>>, WireErrorView>(r.id_image));
}

/// A record comes back from the text that was written for it, wherever `serde_json`
/// reads that text as the document that it printed.
pub proof fn lemma_record_text_round_trip(r: AutofillView)
    ensures
        parsed_json(record_text(r)) == Ok::<JsonView, Seq<char>>(record_tree(r)) ==> text_record(
            record_text(r),
        ) == Ok::<AutofillView, WireErrorView>(r),
{
    lemma_record_round_trip(r);
}

/// The document that stands for a record has a member for a field exactly when the
/// record has the field, and no member besides those of the fields.
pub proof fn lemma_members_are_present_fields(r: AutofillView, field: Field)
    ensures
        record_members(r).contains_key(field.key()) <==> r.has(field),
        forall|key: Seq<char>| #[trigger]
            record_members(r).contains_key(key) ==> exists|f: Field| key == #[trigger] f.key(),
{
    assert forall|a: Field, b: Field| #[trigger] a.key() == #[trigger] b.key() implies a == b by {
        lemma_keys_differ(a, b);
    }
    assert forall|key: Seq<char>| #[trigger]
        record_members(r).contains_key(key) implies exists|f: Field| key == #[trigger] f.key() by {
        if key == Field::Name.key() {
        } else if key == Field::Email.key() {
        } else if key == Field::PhoneNumber.key() {
        } else if key == Field::Id.key() {
        } else if key == Field::ProfilePicture.key() {
        } else if key == Field::License.key() {
        } else if key == Field::IdImage.key() {
        } else {
        }
    }
}

/// What is sent of a record under a mask has a member for a field exactly when the
/// mask asks for the field and the record has it: a field that is not asked for is not
/// in it, whatever the record holds.
pub proof fn lemma_payload_members(r: AutofillView, mask: RequestedAutofillFields, field: Field)
    ensures
        record_members(r.disclosed(mask)).contains_key(field.key()) <==> mask.asks(field)
            && r.has(field),
        !mask.asks(field) ==> !record_members(r.disclosed(mask)).contains_key(field.key()),
{
    lemma_members_are_present_fields(r.disclosed(mask), field);
}

fn put_member(members: &mut Vec<(String, Json)>, field: Field, value: Option<Json>)
    ensures
        members_map(member_views(final(members)@)) == with_member(
            members_map(member_views(old(members)@)),
            field.key(),
            match value {
                Some(v) => Some(v@),
                None => None,
            },
        ),
{
    match value {
        Some(v) => {
            let ghost before = member_views(members@);
            let ghost tree = v@;
            members.push((field.wire_name().to_owned(), v));
            proof {
                assert(member_views(members@) =~= before.push((field.key(), tree)));
                lemma_members_map_push(before, field.key(), tree);
            }
        },
        None => {},
    }
}

fn text_json(field: Option<&str>) -> (r: Option<Json>)
    ensures
        match r {
            Some(v) => text_tree(str_view(field)) == Some(v@),
            None => text_tree(str_view(field)) is None,
        },
{
    match field {
        Some(s) => Some(Json::text(s)),
        None => None,
    }
}

fn name_json(field: Option<[&str; 2]>) -> (r: Option<Json>)
    ensures
        match r {
            Some(v) => name_tree(name_ref_view(field)) == Some(v@),
            None => name_tree(name_ref_view(field)) is None,
        },
{
    match field {
        Some(parts) => {
            let mut items: Vec<Json> = Vec::new();
            items.push(Json::text(parts[0]));
            items.push(Json::text(parts[1]));
            proof {
                assert(item_views(items@) =~= seq![
                    JsonView::Text(parts@[0]@),
                    JsonView::Text(parts@[1]@),
                ]);
            }
            Some(Json::list(items))
        },
        None => None,
    }
}

fn read_text(doc: &Json, field: Field) -> (r: Result<Option<String>, WireError>)
    requires
        doc@ is Object,
    ensures
        match r {
            Ok(v) => text_member(doc@->Object_0, field) == Ok::<Option<Seq<char>>, WireErrorView>(
                text_view(v),
            ),
            Err(e) => text_member(doc@->Object_0, field) == Err::<
                Option<Seq<char>>,
                WireErrorView,
            >(e@),
        },
{
    match doc.get(field.wire_name()) {
        None => Ok(None),
        Some(Json::Null) => Ok(None),
        Some(Json::Text(s)) => Ok(Some(s.clone())),
        Some(_) => Err(WireError::WrongKind(field)),
    }
}

fn read_name(doc: &Json) -> (r: Result<Option<[String; 2]>, WireError>)
    requires
        doc@ is Object,
    ensures
        match r {
            Ok(v) => name_member(doc@->Object_0) == Ok::<
                Option<(Seq<char>, Seq<char>)>,
                WireErrorView,
            >(name_view(v)),
            Err(e) => name_member(doc@->Object_0) == Err::<
                Option<(Seq<char>, Seq<char>)>,
                WireErrorView,
            >(e@),
        },
{
    match doc.get(Field::Name.wire_name()) {
        None => Ok(None),
        Some(Json::Null) => Ok(None),
        Some(Json::List(parts)) => {
            if parts.len() == 2 {
                assert(item_views(parts@)[0] == parts@[0]@);
                assert(item_views(parts@)[1] == parts@[1]@);
                match (&parts[0], &parts[1]) {
                    (Json::Text(given), Json::Text(family)) => Ok(
                        Some([given.clone(), family.clone()]),
                    ),
                    _ => Err(WireError::WrongKind(Field::Name)),
                }
            } else {
                Err(WireError::WrongKind(Field::Name))
            }
        },
        Some(_) => Err(WireError::WrongKind(Field::Name)),
    }
}

fn read_flag(doc: &Json, field: Field) -> (r: Result<bool, WireError>)
    requires
        doc@ is Object,
    ensures
        match r {
            Ok(v) => flag_member(doc@->Object_0, field) == Ok::<bool, WireErrorView>(v),
            Err(e) => flag_member(doc@->Object_0, field) == Err::<bool, WireErrorView>(e@),
        },
{
    match doc.get(field.wire_name()) {
        None => Ok(false),
        Some(Json::Bool(b)) => Ok(*b),
        Some(_) => Err(WireError::WrongKind(field)),
    }
}

impl<'a> AutofillDataRef<'a> {
    /// The document that stands for the record: a member for each field that is
    /// present, and no other.
    pub fn to_json(&self) -> (doc: Json)
        ensures
            doc@ == record_tree(self@),
    {
        let mut members: Vec<(String, Json)> = Vec::new();
        assert(members_map(member_views(members@)) =~= Map::<Seq<char>, JsonView>::empty());
        put_member(&mut members, Field::Name, name_json(self.name));
        put_member(&mut members, Field::Email, text_json(self.email));
        put_member(&mut members, Field::PhoneNumber, text_json(self.phone_number));
        put_member(&mut members, Field::Id, text_json(self.id));
        put_member(&mut members, Field::ProfilePicture, text_json(self.profile_picture));
        put_member(&mut members, Field::License, text_json(self.license));
        put_member(&mut members, Field::IdImage, text_json(self.id_image));
        Json::object(members)
    }

    /// The text that stands for the record.
    pub fn to_json_text(&self) -> (text: String)
        ensures
            text@ == record_text(self@),
    {
        self.to_json().print()
    }
}

impl AutofillData {
    /// The document that stands for the record.
    pub fn to_json(&self) -> (doc: Json)
        ensures
            doc@ == record_tree(self@),
    {
        self.as_ref().to_json()
    }

    /// The text that stands for the record, as it is stored.
    pub fn to_json_text(&self) -> (text: String)
        ensures
            text@ == record_text(self@),
    {
        self.as_ref().to_json_text()
    }

    /// The record that a document stands for.
    pub fn from_json(doc: &Json) -> (r: Result<AutofillData, WireError>)
        ensures
            match r {
                Ok(record) => tree_record(doc@) == Ok::<AutofillView, WireErrorView>(record@),
                Err(e) => tree_record(doc@) == Err::<AutofillView, WireErrorView>(e@),
            },
    {
        match doc {
            Json::Object(_) => {},
            _ => {
                return Err(WireError::NotAnObject);
            },
        }
        let name = match read_name(doc) {
            Ok(v) => v,
            Err(e) => {
                return Err(e);
            },
        };
        let email = match read_text(doc, Field::Email) {
            Ok(v) => v,
            Err(e) => {
                return Err(e);
            },
        };
        let phone_number = match read_text(doc, Field::PhoneNumber) {
            Ok(v) => v,
            Err(e) => {
                return Err(e);
            },
        };
        let id = match read_text(doc, Field::Id) {
            Ok(v) => v,
            Err(e) => {
                return Err(e);
            },
        };
        let profile_picture = match read_text(doc, Field::ProfilePicture) {
            Ok(v) => v,
            Err(e) => {
                return Err(e);
            },
        };
        let license = match read_text(doc, Field::License) {
            Ok(v) => v,
            Err(e) => {
                return Err(e);
            },
        };
        let id_image = match read_text(doc, Field::IdImage) {
            Ok(v) => v,
            Err(e) => {
                return Err(e);
            },
        };
        Ok(AutofillData { name, email, phone_number, id, profile_picture, license, id_image })
    }

    /// The record that a text stands for.
    pub fn from_json_text(text: &str) -> (r: Result<AutofillData, WireError>)
        ensures
            match r {
                Ok(record) => text_record(text@) == Ok::<AutofillView, WireErrorView>(record@),
                Err(e) => text_record(text@) == Err::<AutofillView, WireErrorView>(e@),
            },
    {
        match Json::parse(text) {
            Ok(doc) => AutofillData::from_json(&doc),
            Err(message) => Err(WireError::Syntax(message)),
        }
    }
}

impl RequestedAutofillFields {
    /// The mask that a document stands for.
    pub fn from_json(doc: &Json) -> (r: Result<RequestedAutofillFields, WireError>)
        ensures
            match r {
                Ok(mask) => tree_mask(doc@) == Ok::<RequestedAutofillFields, WireErrorView>(mask),
                Err(e) => tree_mask(doc@) == Err::<RequestedAutofillFields, WireErrorView>(e@),
            },
    {
        match doc {
            Json::Object(_) => {},
            _ => {
                return Err(WireError::NotAnObject);
            },
        }
        let name = match read_flag(doc, Field::Name) {
            Ok(v) => v,
            Err(e) => {
                return Err(e);
            },
        };
        let email = match read_flag(doc, Field::Email) {
            Ok(v) => v,
            Err(e) => {
                return Err(e);
            },
        };
        let phone_number = match read_flag(doc, Field::PhoneNumber) {
            Ok(v) => v,
            Err(e) => {
                return Err(e);
            },
        };
        let id = match read_flag(doc, Field::Id) {
            Ok(v) => v,
            Err(e) => {
                return Err(e);
            },
        };
        let profile_picture = match read_flag(doc, Field::ProfilePicture) {
            Ok(v) => v,
            Err(e) => {
                return Err(e);
            },
        };
        let license = match read_flag(doc, Field::License) {
            Ok(v) => v,
            Err(e) => {
                return Err(e);
            },
        };
        let id_image = match read_flag(doc, Field::IdImage) {
            Ok(v) => v,
            Err(e) => {
                return Err(e);
            },
        };
        Ok(
            RequestedAutofillFields {
                name,
                email,
                phone_number,
                id,
                profile_picture,
                license,
                id_image,
            },
        )
    }

    /// The mask that a text stands for.
    pub fn from_json_text(text: &str) -> (r: Result<RequestedAutofillFields, WireError>)
        ensures
            match r {
                Ok(mask) => text_mask(text@) == Ok::<RequestedAutofillFields, WireErrorView>(mask),
                Err(e) => text_mask(text@) == Err::<RequestedAutofillFields, WireErrorView>(e@),
            },
    {
        match Json::parse(text) {
            Ok(doc) => RequestedAutofillFields::from_json(&doc),
            Err(message) => Err(WireError::Syntax(message)),
        }
    }
}

} // verus!
