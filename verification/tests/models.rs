use camera_bot::errors::{ModelError, RequestError};
use camera_bot::models::{ObjectPhoto, Receiver, Settings};

fn pair(key: &str, value: &str) -> (String, String) {
    (key.to_string(), value.to_string())
}

#[test]
fn receiver_tokens_read_back() {
    for receiver in Receiver::all() {
        assert_eq!(Receiver::try_from(receiver.to_string()), Ok(receiver));
    }
}

#[test]
fn receiver_tokens_are_lowercase_names() {
    assert_eq!(Receiver::Camera.to_string(), "camera");
    assert_eq!(Receiver::Model.to_string(), "model");
    assert_eq!(Receiver::Db.to_string(), "db");
    assert_eq!(Receiver::Fs.to_string(), "fs");
    assert_eq!(Receiver::Camera.as_str(), "camera");
    assert_eq!(
        Receiver::all(),
        [Receiver::Camera, Receiver::Model, Receiver::Db, Receiver::Fs]
    );
}

#[test]
fn receiver_markers() {
    assert_eq!(Receiver::Camera.marker_str(), "📷");
    assert_eq!(Receiver::Model.marker_str(), "🧠");
    assert_eq!(Receiver::Db.marker_str(), "⛁");
    assert_eq!(Receiver::Fs.marker_str(), "📁");
}

#[test]
fn unknown_tokens_are_rejected_with_a_message() {
    assert_eq!(
        Receiver::try_from("nonexistent".to_string()),
        Err(ModelError::InvalidReceiver("nonexistent is not a valid receiver".to_string()))
    );
    assert_eq!(
        Receiver::try_from("Camera".to_string()),
        Err(ModelError::InvalidReceiver("Camera is not a valid receiver".to_string()))
    );
    assert_eq!(
        Receiver::try_from(String::new()),
        Err(ModelError::InvalidReceiver(" is not a valid receiver".to_string()))
    );
    assert_eq!(
        Receiver::try_from(" camera".to_string()),
        Err(ModelError::InvalidReceiver(" camera is not a valid receiver".to_string()))
    );
}

#[test]
fn settings_show_one_line_for_each_pair() {
    let settings = Settings::new(Receiver::Camera, vec![pair("FPS", "30")]);
    assert_eq!(settings.to_string(), "Settings for 📷 are:\nFPS: 30\n");
    let settings =
        Settings::new(Receiver::Model, vec![pair("threshold", "0.5"), pair("classes", "cup, key")]);
    assert_eq!(settings.to_string(), "Settings for 🧠 are:\nthreshold: 0.5\nclasses: cup, key\n");
    let settings = Settings::new(Receiver::Fs, vec![]);
    assert_eq!(settings.to_string(), "Settings for 📁 are:\n");
    let settings = Settings::new(Receiver::Db, vec![pair("", "")]);
    assert_eq!(settings.to_string(), "Settings for ⛁ are:\n: \n");
}

#[test]
fn settings_give_their_parts() {
    let settings = Settings::new(Receiver::Db, vec![pair("host", "local"), pair("port", "5432")]);
    assert_eq!(settings.receiver(), Receiver::Db);
    assert_eq!(settings.entries(), &vec![pair("host", "local"), pair("port", "5432")]);
}

#[test]
fn settings_write_compact_json() {
    let settings = Settings::new(Receiver::Camera, vec![pair("FPS", "30")]);
    assert_eq!(
        settings.to_json(),
        "{\"receiver\":\"camera\",\"settings\":[{\"key\":\"FPS\",\"value\":\"30\"}]}"
    );
    let settings = Settings::new(Receiver::Fs, vec![]);
    assert_eq!(settings.to_json(), "{\"receiver\":\"fs\",\"settings\":[]}");
    let settings = Settings::new(Receiver::Db, vec![pair("a\"b", "x\ny")]);
    assert_eq!(
        settings.to_json(),
        "{\"receiver\":\"db\",\"settings\":[{\"key\":\"a\\\"b\",\"value\":\"x\\ny\"}]}"
    );
}

#[test]
fn settings_json_agrees_with_the_document() {
    let settings = Settings::new(Receiver::Model, vec![pair("a", "1"), pair("b", "2")]);
    let document = settings.to_value();
    assert_eq!(document["receiver"].as_str(), Some("model"));
    assert_eq!(document["settings"].as_array().map(Vec::len), Some(2));
    assert_eq!(document["settings"][1]["key"].as_str(), Some("b"));
    assert_eq!(document["settings"][1]["value"].as_str(), Some("2"));
    assert_eq!(Settings::from_value(&document), Ok(settings));
}

#[test]
fn settings_read_from_json() {
    let settings = Settings::from_json(
        "{ \"settings\": [ {\"value\": \"30\", \"key\": \"FPS\", \"unit\": \"Hz\"} ], \"receiver\": \"camera\", \"more\": 1 }",
    );
    assert_eq!(settings, Ok(Settings::new(Receiver::Camera, vec![pair("FPS", "30")])));
}

#[test]
fn settings_are_rejected_where_the_schema_is_not_met() {
    let rejected = [
        "",
        "not json",
        "[]",
        "{}",
        "{\"receiver\":\"camera\"}",
        "{\"settings\":[]}",
        "{\"receiver\":\"apple\",\"settings\":[]}",
        "{\"receiver\":\"Camera\",\"settings\":[]}",
        "{\"receiver\":1,\"settings\":[]}",
        "{\"receiver\":\"camera\",\"settings\":{}}",
        "{\"receiver\":\"camera\",\"settings\":[1]}",
        "{\"receiver\":\"camera\",\"settings\":[{\"key\":\"FPS\"}]}",
        "{\"receiver\":\"camera\",\"settings\":[{\"key\":\"FPS\",\"value\":30}]}",
        "{\"receiver\":\"camera\",\"settings\":[{\"key\":\"a\",\"value\":\"b\"},{\"value\":\"b\"}]}",
        "{\"receiver\":\"camera\", \"settings_incorrect\":[{\"key\":\"FPS\",\"value\":\"30\"}]}",
        "{\"receiver\":\"camera\",\"settings\":[]} trailing",
    ];
    for body in rejected {
        assert_eq!(Settings::from_json(body), Err(ModelError::InvalidSettings), "{}", body);
    }
}

#[test]
fn settings_are_equal_whatever_their_order() {
    let first = Settings::new(Receiver::Camera, vec![pair("a", "1"), pair("b", "2"), pair("a", "1")]);
    let second =
        Settings::new(Receiver::Camera, vec![pair("a", "1"), pair("a", "1"), pair("b", "2")]);
    assert_eq!(first, second);
    assert_eq!(second, first);
    let fewer = Settings::new(Receiver::Camera, vec![pair("a", "1"), pair("b", "2")]);
    assert_ne!(first, fewer);
    let other = Settings::new(Receiver::Camera, vec![pair("a", "1"), pair("b", "2"), pair("b", "2")]);
    assert_ne!(first, other);
    assert_ne!(other, first);
    let elsewhere =
        Settings::new(Receiver::Model, vec![pair("a", "1"), pair("b", "2"), pair("a", "1")]);
    assert_ne!(first, elsewhere);
    let swapped = Settings::new(Receiver::Camera, vec![pair("1", "a"), pair("2", "b"), pair("1", "a")]);
    assert_ne!(first, swapped);
    assert_eq!(Settings::new(Receiver::Fs, vec![]), Settings::new(Receiver::Fs, vec![]));
}

#[test]
fn photo_reads_from_json() {
    let photo =
        ObjectPhoto::from_json("{\"height\":224,\"width\":224,\"image\":\"aboba\"}").unwrap();
    assert_eq!(photo, ObjectPhoto::new(224, 224, "aboba".to_string()));
    assert_eq!(photo.image(), "aboba");
    assert_eq!(photo.height(), 224);
    assert_eq!(photo.width(), 224);
    let photo = ObjectPhoto::from_json(
        "{\"width\":4294967295,\"image\":\"\",\"height\":0,\"taken\":\"now\"}",
    )
    .unwrap();
    assert_eq!(photo, ObjectPhoto::new(0, 4294967295, String::new()));
}

#[test]
fn photo_is_rejected_where_the_schema_is_not_met() {
    let rejected = [
        "",
        "{}",
        "[224,224,\"aboba\"]",
        "{\"height\":224,\"width\":224}",
        "{\"height\":224,\"image\":\"aboba\"}",
        "{\"width\":224,\"image\":\"aboba\"}",
        "{\"height\":-1,\"width\":224,\"image\":\"aboba\"}",
        "{\"height\":224.5,\"width\":224,\"image\":\"aboba\"}",
        "{\"height\":4294967296,\"width\":224,\"image\":\"aboba\"}",
        "{\"height\":224,\"width\":4294967296,\"image\":\"aboba\"}",
        "{\"height\":\"224\",\"width\":224,\"image\":\"aboba\"}",
        "{\"height\":224,\"width\":224,\"image\":7}",
    ];
    for body in rejected {
        assert_eq!(ObjectPhoto::from_json(body), None, "{}", body);
    }
}

#[test]
fn photo_reads_from_a_document() {
    let document = serde_json::from_str::<serde_json::Value>(
        "{\"height\":2,\"width\":3,\"image\":\"c2hvcnQ=\"}",
    )
    .unwrap();
    assert_eq!(
        ObjectPhoto::from_value(&document),
        Some(ObjectPhoto::new(2, 3, "c2hvcnQ=".to_string()))
    );
    assert_eq!(ObjectPhoto::from_value(&serde_json::Value::Null), None);
}

#[test]
fn errors_have_their_messages() {
    assert_eq!(RequestError::NoSuchSetting.to_string(), "No such setting");
    assert_eq!(RequestError::NoSuchReceiver.to_string(), "No such reciever");
    assert_eq!(RequestError::UnknownError.to_string(), "Unknown error");
    assert_eq!(ModelError::InvalidSettings.to_string(), "");
    assert_eq!(ModelError::InvalidReceiver("x is not a valid receiver".to_string()).to_string(), "");
}
