//! The JSON schema of the domain model: which document stands for a value, and
//! which value a document stands for.

use crate::errors::ModelError;
use crate::json::{
    items, json_members, json_model, json_models, json_parsed, json_rendered, list_value, member,
    parse, record_value, render, text, text_value, unsigned, Json,
};
use crate::models::{pairs, ObjectPhoto, PhotoView, Receiver, Settings, SettingsView};
use vstd::prelude::*;

verus! {

/// The document that stands for one setting: an object with the members
/// `key` and `value`, both strings.
pub open spec fn entry_document(entry: (Seq<char>, Seq<char>)) -> Json {
    Json::Record(map!["key"@ => Json::Text(entry.0), "value"@ => Json::Text(entry.1)])
}

/// The documents that stand for a sequence of settings.
pub open spec fn entry_documents(entries: Seq<(Seq<char>, Seq<char>)>) -> Seq<Json> {
    Seq::new(entries.len(), |i: int| entry_document(entries[i]))
}

/// The document that stands for the settings of a receiver: an object with
/// the member `receiver`, the receiver's token, and the member `settings`, the
/// array of the settings in their order.
pub open spec fn settings_document(settings: SettingsView) -> Json {
    Json::Record(
        map![
            "receiver"@ => Json::Text(settings.receiver.token()),
            "settings"@ => Json::List(entry_documents(settings.entries)),
        ],
    )
}

/// The setting that a document stands for: the document must have the members
/// `key` and `value`, both strings. Other members are not read.
pub open spec fn document_entry(document: Json) -> Option<(Seq<char>, Seq<char>)> {
    match (document.member("key"@), document.member("value"@)) {
        (Some(Json::Text(key)), Some(Json::Text(value))) => Some((key, value)),
        _ => None,
    }
}

/// The settings that a sequence of documents stands for, if each of them
/// stands for one.
pub open spec fn document_entries(documents: Seq<Json>) -> Option<Seq<(Seq<char>, Seq<char>)>> {
    if forall|i: int| 0 <= i < documents.len() ==> document_entry(#[trigger] documents[i]) is Some {
        Some(Seq::new(documents.len(), |i: int| document_entry(documents[i])->0))
    } else {
        None
    }
}

/// The settings that a document stands for: the document must have the
/// member `receiver`, a string that is the token of a receiver, and the member
/// `settings`, an array of documents that each stand for a setting. Other
/// members are not read.
pub open spec fn document_settings(document: Json) -> Option<SettingsView> {
    match (document.member("receiver"@), document.member("settings"@)) {
        (Some(Json::Text(token)), Some(Json::List(documents))) => match (
            Receiver::parse(token),
            document_entries(documents),
        ) {
            (Some(receiver), Some(entries)) => Some(SettingsView { receiver, entries }),
            _ => None,
        },
        _ => None,
    }
}

/// The photo that a document stands for: the document must have the members
/// `height` and `width`, whole numbers from 0 to 2^32 - 1, and the member
/// `image`, a string. Other members are not read.
pub open spec fn document_photo(document: Json) -> Option<PhotoView> {
    match (document.member("height"@), document.member("width"@), document.member("image"@)) {
        (Some(Json::Unsigned(height)), Some(Json::Unsigned(width)), Some(Json::Text(image))) => {
            if height <= u32::MAX && width <= u32::MAX {
                Some(PhotoView { height: height as u32, width: width as u32, image })
            } else {
                None
            }
        },
        _ => None,
    }
}

/// The settings that a text stands for: the text must be a JSON document that
/// stands for settings.
pub open spec fn text_settings(text: Seq<char>) -> Option<SettingsView> {
    match json_parsed(text) {
        Some(document) => document_settings(document),
        None => None,
    }
}

/// The photo that a text stands for: the text must be a JSON document that
/// stands for a photo.
pub open spec fn text_photo(text: Seq<char>) -> Option<PhotoView> {
    match json_parsed(text) {
        Some(document) => document_photo(document),
        None => None,
    }
}

/// The text that stands for the settings of a receiver.
pub open spec fn settings_text(settings: SettingsView) -> Seq<char> {
    json_rendered(settings_document(settings))
}

/// Two values under two names that differ make the object with these two
/// members.
proof fn lemma_two_members(named: Seq<(String, serde_json::Value)>)
    requires
        named.len() == 2,
        named[0].0@ != named[1].0@,
    ensures
        json_members(named) == map![
            named[0].0@ => json_model(named[0].1),
            named[1].0@ => json_model(named[1].1),
        ],
{
    let built = json_members(named);
    let wanted = map![
        named[0].0@ => json_model(named[0].1),
        named[1].0@ => json_model(named[1].1),
    ];
    assert forall|name: Seq<char>| built.contains_key(name) <==> wanted.contains_key(name) by {
        if name == named[0].0@ {
            assert(0 <= 0 < named.len() && named[0].0@ == name);
        }
        if name == named[1].0@ {
            assert(0 <= 1 < named.len() && named[1].0@ == name);
        }
    }
    assert forall|name: Seq<char>| built.contains_key(name) implies built[name] == wanted[name] by {
        let i = choose|i: int| 0 <= i < named.len() && #[trigger] named[i].0@ == name;
        assert(i == 0 || i == 1);
    }
    assert(built =~= wanted);
}

/// The member names of the schema differ from each other.
pub proof fn lemma_member_names()
    ensures
        "key"@ != "value"@,
        "receiver"@ != "settings"@,
        "height"@ != "width"@,
        "height"@ != "image"@,
        "width"@ != "image"@,
{
    reveal_strlit("key");
    reveal_strlit("value");
    reveal_strlit("receiver");
    reveal_strlit("settings");
    reveal_strlit("height");
    reveal_strlit("width");
    reveal_strlit("image");
    assert("key"@.len() == 3);
    assert("value"@.len() == 5);
    assert("receiver"@[0] == 'r');
    assert("settings"@[0] == 's');
    assert("height"@.len() == 6);
    assert("width"@.len() == 5);
    assert("image"@[0] == 'i');
    assert("width"@[0] == 'w');
}

/// Makes the JSON value that stands for one setting.
fn entry_value(key: &str, value: &str) -> (document: serde_json::Value)
    ensures
        json_model(document) == entry_document((key@, value@)),
{
    let mut named: Vec<(String, serde_json::Value)> = Vec::new();
    named.push(("key".to_owned(), text_value(key.to_owned())));
    named.push(("value".to_owned(), text_value(value.to_owned())));
    proof {
        lemma_member_names();
        lemma_two_members(named@);
    }
    record_value(named)
}

/// Reads one setting from a JSON value.
fn value_entry(document: &serde_json::Value) -> (entry: Option<(String, String)>)
    ensures
        match entry {
            Some(pair) => document_entry(json_model(*document)) == Some((pair.0@, pair.1@)),
            None => document_entry(json_model(*document)) is None,
        },
{
    let key = match member(document, "key") {
        Some(inner) => match text(inner) {
            Some(key) => key,
            None => return None,
        },
        None => return None,
    };
    let value = match member(document, "value") {
        Some(inner) => match text(inner) {
            Some(value) => value,
            None => return None,
        },
        None => return None,
    };
    Some((key.to_owned(), value.to_owned()))
}

impl Settings {
    /// Makes the JSON value that stands for these settings.
    pub fn to_value(&self) -> (document: serde_json::Value)
        ensures
            json_model(document) == settings_document(self@),
    {
        let entries = self.entries();
        let mut documents: Vec<serde_json::Value> = Vec::new();
        let mut i: usize = 0;
        while i < entries.len()
            invariant
                i <= entries@.len(),
                pairs(entries@) == self@.entries,
                documents@.len() == i,
                forall|j: int|
                    0 <= j < i ==> json_model(#[trigger] documents@[j]) == entry_document(
                        self@.entries[j],
                    ),
            decreases entries@.len() - i,
        {
            let document = entry_value(entries[i].0.as_str(), entries[i].1.as_str());
            assert(pairs(entries@)[i as int] == (entries@[i as int].0@, entries@[i as int].1@));
            documents.push(document);
            i += 1;
        }
        assert(json_models(documents@) =~= entry_documents(self@.entries));
        let mut named: Vec<(String, serde_json::Value)> = Vec::new();
        named.push(("receiver".to_owned(), text_value(self.receiver().to_string())));
        named.push(("settings".to_owned(), list_value(documents)));
        proof {
            lemma_member_names();
            lemma_two_members(named@);
        }
        record_value(named)
    }

    /// Reads settings from a JSON value. A value that does not stand for
    /// settings is rejected.
    pub fn from_value(document: &serde_json::Value) -> (result: Result<Settings, ModelError>)
        ensures
            match result {
                Ok(settings) => document_settings(json_model(*document)) == Some(settings@),
                Err(error) => {
                    &&& document_settings(json_model(*document)) is None
                    &&& error == ModelError::InvalidSettings
                },
            },
    {
        let token = match member(document, "receiver") {
            Some(inner) => match text(inner) {
                Some(token) => token,
                None => return Err(ModelError::InvalidSettings),
            },
            None => return Err(ModelError::InvalidSettings),
        };
        let documents = match member(document, "settings") {
            Some(inner) => match items(inner) {
                Some(documents) => documents,
                None => return Err(ModelError::InvalidSettings),
            },
            None => return Err(ModelError::InvalidSettings),
        };
        let receiver = match Receiver::try_from(token.to_owned()) {
            Ok(receiver) => receiver,
            Err(_) => return Err(ModelError::InvalidSettings),
        };
        let ghost models = json_models(documents@);
        let mut entries: Vec<(String, String)> = Vec::new();
        let mut i: usize = 0;
        while i < documents.len()
            invariant
                i <= documents@.len(),
                models == json_models(documents@),
                json_model(*document).member("receiver"@) == Some(Json::Text(token@)),
                json_model(*document).member("settings"@) == Some(Json::List(models)),
                Receiver::parse(token@) == Some(receiver),
                entries@.len() == i,
                forall|j: int|
                    0 <= j < i ==> document_entry(#[trigger] models[j]) == Some(
                        (entries@[j].0@, entries@[j].1@),
                    ),
            decreases documents@.len() - i,
        {
            match value_entry(&documents[i]) {
                Some(entry) => {
                    assert(models[i as int] == json_model(documents@[i as int]));
                    entries.push(entry);
                },
                None => {
                    assert(models[i as int] == json_model(documents@[i as int]));
                    assert(document_entry(models[i as int]) is None);
                    return Err(ModelError::InvalidSettings);
                },
            }
            i += 1;
        }
        assert(document_entries(models) is Some);
        assert(document_entries(models)->0 =~= pairs(entries@));
        Ok(Settings::new(receiver, entries))
    }

    /// Writes these settings as JSON text.
    pub fn to_json(&self) -> (out: String)
        ensures
            out@ == settings_text(self@),
    {
        let document = self.to_value();
        render(&document)
    }

    /// Reads settings from JSON text. A text that is no JSON document, or
    /// whose document does not stand for settings, is rejected.
    pub fn from_json(body: &str) -> (result: Result<Settings, ModelError>)
        ensures
            match result {
                Ok(settings) => text_settings(body@) == Some(settings@),
                Err(error) => text_settings(body@) is None && error == ModelError::InvalidSettings,
            },
    {
        match parse(body) {
            Ok(document) => Settings::from_value(&document),
            Err(_) => Err(ModelError::InvalidSettings),
        }
    }
}

impl ObjectPhoto {
    /// Reads a photo from a JSON value, if the value stands for one.
    pub fn from_value(document: &serde_json::Value) -> (result: Option<ObjectPhoto>)
        ensures
            match result {
                Some(photo) => document_photo(json_model(*document)) == Some(photo@),
                None => document_photo(json_model(*document)) is None,
            },
    {
        let height = match member(document, "height") {
            Some(inner) => match unsigned(inner) {
                Some(height) => height,
                None => return None,
            },
            None => return None,
        };
        let width = match member(document, "width") {
            Some(inner) => match unsigned(inner) {
                Some(width) => width,
                None => return None,
            },
            None => return None,
        };
        let image = match member(document, "image") {
            Some(inner) => match text(inner) {
                Some(image) => image,
                None => return None,
            },
            None => return None,
        };
        if height > 0xFFFF_FFFF || width > 0xFFFF_FFFF {
            return None;
        }
        Some(ObjectPhoto::new(height as u32, width as u32, image.to_owned()))
    }

    /// Reads a photo from JSON text, if the text is a JSON document that
    /// stands for one.
    pub fn from_json(body: &str) -> (result: Option<ObjectPhoto>)
        ensures
            match result {
                Some(photo) => text_photo(body@) == Some(photo@),
                None => text_photo(body@) is None,
            },
    {
        match parse(body) {
            Ok(document) => ObjectPhoto::from_value(&document),
            Err(_) => None,
        }
    }
}

/// Reading the document that stands for settings gives these settings back.
pub proof fn lemma_settings_round_trip(settings: SettingsView)
    ensures
        document_settings(settings_document(settings)) == Some(settings),
{
    lemma_member_names();
    crate::models::lemma_receiver_round_trip(settings.receiver, settings.receiver.token());
    let documents = entry_documents(settings.entries);
    assert forall|i: int| 0 <= i < documents.len() implies document_entry(
        #[trigger] documents[i],
    ) == Some(settings.entries[i]) by {}
    assert(document_entries(documents)->0 =~= settings.entries);
}

} // verus!
