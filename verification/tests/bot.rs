use camera_bot::api_client::{ApiClient, Method, Request, Response};
use camera_bot::bot::{answer, convert_to_image, get_api_address, ApiCall, Command, Reply, Step};
use camera_bot::errors::ImageError;
use camera_bot::models::{Receiver, Settings};

const HOST: &str = "127.0.0.1:5000";

/// A backend that knows one route, answers it with one status and body, and
/// counts the requests that reach it.
struct Backend {
    method: Method,
    path: &'static str,
    status: u16,
    body: String,
    hits: usize,
}

impl Backend {
    fn new(method: Method, path: &'static str, status: u16, body: &str) -> Backend {
        Backend { method, path, status, body: body.to_string(), hits: 0 }
    }

    /// A backend without routes: every request that reaches it is counted
    /// and not found.
    fn silent() -> Backend {
        Backend::new(Method::Get, "", 404, "")
    }

    fn serve(&mut self, request: &Request) -> Response {
        self.hits += 1;
        let url = format!("http://{}{}", HOST, self.path);
        if request.method == self.method && request.url == url {
            Response::Answered { status: self.status, body: Some(self.body.clone()) }
        } else {
            Response::Answered { status: 404, body: Some(String::new()) }
        }
    }
}

/// Runs one command to its reply, as the program around the library does.
fn dispatch(command: Command, backend: &mut Backend) -> Reply {
    let api = ApiClient::new(HOST.to_string());
    match answer(command) {
        Step::Reply(reply) => reply,
        Step::Call(call) => {
            let request = call.request(&api);
            let response = backend.serve(&request);
            call.reply(&api, &response)
        }
    }
}

fn text(reply: Reply) -> String {
    match reply {
        Reply::Text(text) => text,
        Reply::Photo(_) => panic!("Should be a text sent"),
    }
}

fn photo(reply: Reply) -> Vec<u8> {
    match reply {
        Reply::Photo(bytes) => bytes,
        Reply::Text(_) => panic!("Should be a photo sent"),
    }
}

#[test]
fn bot_test_erroneous_server() {
    let mut backend = Backend::new(Method::Get, "/objects", 421, "");
    let reply = dispatch(Command::CurrentState, &mut backend);
    assert_eq!(text(reply), "Error retrieving image");
    assert_eq!(backend.hits, 1);

    let mut backend = Backend::new(Method::Get, "/object/apple", 421, "");
    let reply = dispatch(Command::WhereIs("apple".to_string()), &mut backend);
    assert_eq!(text(reply), "Error retrieving image");
    assert_eq!(backend.hits, 1);

    let mut backend = Backend::new(Method::Get, "/settings/camera", 421, "");
    let reply = dispatch(Command::GetSettings("camera".to_string()), &mut backend);
    assert_eq!(text(reply), "Error getting a response from an API server");
    assert_eq!(backend.hits, 1);
}

#[test]
fn bot_test_incorrect_base64() {
    let body = "{\"width\":224,\"height\":224,\"image\":\"aboba\"}";
    let mut backend = Backend::new(Method::Get, "/objects", 200, body);
    let reply = dispatch(Command::CurrentState, &mut backend);
    assert_eq!(text(reply), "Incorrect base64 image string received");
    assert_eq!(backend.hits, 1);

    let mut backend = Backend::new(Method::Get, "/object/apple", 200, body);
    let reply = dispatch(Command::WhereIs("apple".to_string()), &mut backend);
    assert_eq!(text(reply), "Incorrect base64 image string received");
    assert_eq!(backend.hits, 1);
}

#[test]
fn bot_test_correct() {
    let image = "c2hvcnQ=";
    let body = "{\"width\":224,\"height\":224,\"image\":\"".to_owned() + image + "\"}";
    let mut backend = Backend::new(Method::Get, "/objects", 200, &body);
    let reply = dispatch(Command::CurrentState, &mut backend);
    assert_eq!(backend.hits, 1);
    assert_eq!(photo(reply), b"short".to_vec());

    let mut backend = Backend::new(Method::Get, "/object/apple", 200, &body);
    let reply = dispatch(Command::WhereIs("apple".to_string()), &mut backend);
    assert_eq!(backend.hits, 1);
    assert_eq!(photo(reply), b"short".to_vec());

    let body = "{\"receiver\":\"camera\", \"settings\":[{\"key\":\"FPS\",\"value\":\"30\"}]}";
    let mut backend = Backend::new(Method::Get, "/settings/camera", 200, body);
    let reply = dispatch(Command::GetSettings("camera".to_string()), &mut backend);
    assert_eq!(backend.hits, 1);
    assert_eq!(text(reply), Settings::from_json(body).unwrap().to_string());

    let body = "camera FPS 30";
    let mut backend = Backend::new(Method::Post, "/settings", 200, body);
    let reply = dispatch(Command::ChangeSettings(body.to_string()), &mut backend);
    assert_eq!(backend.hits, 1);
    assert_eq!(text(reply), "Settings changed successfully");
}

#[test]
fn bot_test_incorrect_receiver() {
    let mut backend = Backend::silent();
    let reply = dispatch(Command::GetSettings("apple".to_string()), &mut backend);
    assert_eq!(text(reply), "Incorrect receiver specified");
    assert_eq!(backend.hits, 0);
}

#[test]
fn test_incorrect_response() {
    let body =
        "{\"receiver\":\"camera\", \"settings_incorrect\":[{\"key\":\"FPS\",\"value\":\"30\"}]}";
    let mut backend = Backend::new(Method::Get, "/settings/camera", 200, body);
    let reply = dispatch(Command::GetSettings("camera".to_string()), &mut backend);
    assert_eq!(text(reply), "Incorrectly formatted settings");
    assert_eq!(backend.hits, 1);
}

#[test]
fn test_incorrect_settings() {
    let mut backend = Backend::silent();
    let body = "value value value value";
    let reply = dispatch(Command::ChangeSettings(body.to_string()), &mut backend);
    assert_eq!(text(reply), "Incorrectly formatted settings");
    assert_eq!(backend.hits, 0);
}

#[test]
fn test_fail() {
    let body = "camera FPS 30";
    let mut backend = Backend::new(Method::Post, "/settings", 421, body);
    let reply = dispatch(Command::ChangeSettings(body.to_string()), &mut backend);
    assert_eq!(text(reply), "Failed to change settings");
    assert_eq!(backend.hits, 1);
}

#[test]
fn help_lists_the_commands() {
    let mut backend = Backend::silent();
    let reply = dispatch(Command::Help, &mut backend);
    let lines = [
        "These commands are supported:",
        "",
        "/help \u{2014} List all available commands",
        "/currentstate \u{2014} Display current objects",
        "/whereis \u{2014} Search for object",
        "/getsettings \u{2014} Get settings",
        "/changesettings \u{2014} Change settings",
    ];
    assert_eq!(text(reply), lines.join("\n"));
    assert_eq!(backend.hits, 0);
}

#[test]
fn change_settings_sends_one_setting() {
    let step = answer(Command::ChangeSettings("  model\tthreshold \n 0.5 ".to_string()));
    let settings =
        Settings::new(Receiver::Model, vec![("threshold".to_string(), "0.5".to_string())]);
    assert_eq!(step, Step::Call(ApiCall::ChangeSettings(settings)));
}

#[test]
fn change_settings_lists_the_receivers() {
    let mut backend = Backend::silent();
    let reply = dispatch(Command::ChangeSettings("apple FPS 30".to_string()), &mut backend);
    assert_eq!(
        text(reply),
        "Reciever formatted incorrectly, should be one of: camera, model, db, fs"
    );
    assert_eq!(backend.hits, 0);
}

#[test]
fn change_settings_wants_three_words() {
    for argument in ["", "   ", "camera", "camera FPS", "camera FPS 30 now"] {
        let mut backend = Backend::silent();
        let reply = dispatch(Command::ChangeSettings(argument.to_string()), &mut backend);
        assert_eq!(text(reply), "Incorrectly formatted settings");
        assert_eq!(backend.hits, 0);
    }
}

#[test]
fn commands_name_their_calls() {
    assert_eq!(answer(Command::CurrentState), Step::Call(ApiCall::GetObjects));
    assert_eq!(
        answer(Command::WhereIs("red cup".to_string())),
        Step::Call(ApiCall::GetObject("red cup".to_string()))
    );
    for receiver in Receiver::all() {
        assert_eq!(
            answer(Command::GetSettings(receiver.to_string())),
            Step::Call(ApiCall::GetSettings(receiver))
        );
    }
}

#[test]
fn settings_failures_choose_the_reply() {
    let mut backend = Backend::new(Method::Get, "/settings/db", 422, "");
    let reply = dispatch(Command::GetSettings("db".to_string()), &mut backend);
    assert_eq!(text(reply), "Error getting a response from an API server");

    let mut backend = Backend::new(Method::Get, "/settings/db", 200, "not json");
    let reply = dispatch(Command::GetSettings("db".to_string()), &mut backend);
    assert_eq!(text(reply), "Incorrectly formatted settings");

    let api = ApiClient::new(HOST.to_string());
    let call = ApiCall::GetSettings(Receiver::Db);
    assert_eq!(
        text(call.reply(&api, &Response::Unreachable)),
        "Error getting a response from an API server"
    );
    let call = ApiCall::GetObjects;
    assert_eq!(text(call.reply(&api, &Response::Unreachable)), "Error retrieving image");
    let call = ApiCall::ChangeSettings(Settings::new(Receiver::Db, vec![]));
    assert_eq!(text(call.reply(&api, &Response::Unreachable)), "Failed to change settings");
}

#[test]
fn unreadable_photo_is_not_retrieved() {
    let mut backend = Backend::new(Method::Get, "/objects", 200, "{\"image\":\"c2hvcnQ=\"}");
    let reply = dispatch(Command::CurrentState, &mut backend);
    assert_eq!(text(reply), "Error retrieving image");
}

#[test]
fn images_decode_from_base64() {
    assert_eq!(convert_to_image("c2hvcnQ="), Ok(b"short".to_vec()));
    assert_eq!(convert_to_image(""), Ok(Vec::new()));
    assert_eq!(convert_to_image("aboba"), Err(ImageError::InvalidBase64));
    assert_eq!(convert_to_image("c2hvcnQ"), Err(ImageError::InvalidBase64));
}

#[test]
fn api_address_defaults_to_loopback() {
    assert_eq!(get_api_address(None), "127.0.0.1:19841");
    assert_eq!(get_api_address(Some("camera.local:8080".to_string())), "camera.local:8080");
}
