use pastemyst::data::{get_language_by_extension_request, get_language_by_name_request};
use pastemyst::paste::{
    create_paste_request, create_private_paste_request, delete_paste_request, edit_paste_request,
    get_paste_request, get_private_paste_request, CreateObject, EditObject, PastyObject,
};
use pastemyst::request::{Header, Method, Payload, Reply, Request};

fn pasty(title: &str, language: &str, code: &str) -> PastyObject {
    PastyObject {
        _id: String::new(),
        language: String::from(language),
        title: String::from(title),
        code: String::from(code),
    }
}

fn two_pasties() -> Vec<PastyObject> {
    vec![
        pasty("Pasty1", "autodetect", "fn main() {}"),
        pasty("Pasty2", "Python", "print('Hello World!')"),
    ]
}

fn new_paste() -> CreateObject {
    CreateObject {
        title: String::from("This is a title"),
        expiresIn: String::from("1d"),
        isPrivate: false,
        isPublic: true,
        tags: String::from("rust, verified"),
        pasties: two_pasties(),
    }
}

fn edited_paste() -> EditObject {
    EditObject {
        title: String::from("My title"),
        isPrivate: true,
        isPublic: false,
        tags: String::from("Hello, World"),
        pasties: two_pasties(),
    }
}

fn header_pairs(request: &Request) -> Vec<(String, String)> {
    let mut pairs = Vec::new();
    for Header { name, value } in request.headers() {
        pairs.push((name, value));
    }
    pairs
}

fn pair(name: &str, value: &str) -> (String, String) {
    (String::from(name), String::from(value))
}

#[test]
fn get_paste_is_a_plain_fetch() {
    let request = get_paste_request("hipfqanx");
    assert_eq!(request.method, Method::Get);
    assert_eq!(request.url, "https://paste.myst.rs/api/v2/paste/hipfqanx");
    assert!(request.authorization.is_none());
    assert!(request.body.is_none());
    assert_eq!(request.reply, Reply::Record);
    assert!(header_pairs(&request).is_empty());
}

#[test]
fn get_private_paste_carries_the_token_verbatim() {
    let request = get_private_paste_request("hipfqanx", "my-token");
    assert_eq!(request.method, Method::Get);
    assert_eq!(request.url, "https://paste.myst.rs/api/v2/paste/hipfqanx");
    assert_eq!(request.authorization.as_deref(), Some("my-token"));
    assert!(request.body.is_none());
    assert_eq!(request.reply, Reply::Record);
    assert_eq!(header_pairs(&request), vec![pair("Authorization", "my-token")]);
}

#[test]
fn the_token_gets_no_scheme_and_no_trimming() {
    let request = get_private_paste_request("id", " Bearer x ");
    assert_eq!(request.authorization.as_deref(), Some(" Bearer x "));
    assert_eq!(header_pairs(&request), vec![pair("Authorization", " Bearer x ")]);
}

#[test]
fn create_paste_posts_the_contents() {
    let request = create_paste_request(new_paste());
    assert_eq!(request.method, Method::Post);
    assert_eq!(request.url, "https://paste.myst.rs/api/v2/paste");
    assert!(request.authorization.is_none());
    assert_eq!(request.reply, Reply::Record);
    assert_eq!(header_pairs(&request), vec![pair("Content-Type", "application/json")]);
    match request.body {
        Some(Payload::Create(contents)) => {
            assert_eq!(contents.title, "This is a title");
            assert_eq!(contents.expiresIn, "1d");
            assert!(!contents.isPrivate);
            assert!(contents.isPublic);
            assert_eq!(contents.tags, "rust, verified");
            assert_eq!(contents.pasties.len(), 2);
        }
        _ => panic!("the body is not the new paste"),
    }
}

#[test]
fn create_paste_keeps_two_pasties_in_order() {
    let request = create_paste_request(new_paste());
    match request.body {
        Some(Payload::Create(contents)) => {
            assert_eq!(contents.pasties.len(), 2);
            assert_eq!(contents.pasties[0].title, "Pasty1");
            assert_eq!(contents.pasties[0].language, "autodetect");
            assert_eq!(contents.pasties[0].code, "fn main() {}");
            assert_eq!(contents.pasties[0]._id, "");
            assert_eq!(contents.pasties[1].title, "Pasty2");
            assert_eq!(contents.pasties[1].language, "Python");
            assert_eq!(contents.pasties[1].code, "print('Hello World!')");
        }
        _ => panic!("the body is not the new paste"),
    }
}

#[test]
fn create_paste_does_not_look_at_the_pasties() {
    let mut contents = new_paste();
    contents.pasties.clear();
    let request = create_paste_request(contents);
    match request.body {
        Some(Payload::Create(contents)) => assert!(contents.pasties.is_empty()),
        _ => panic!("the body is not the new paste"),
    }
}

#[test]
fn create_private_paste_sends_token_then_format() {
    let request = create_private_paste_request(new_paste(), "my-token");
    assert_eq!(request.method, Method::Post);
    assert_eq!(request.url, "https://paste.myst.rs/api/v2/paste");
    assert_eq!(request.authorization.as_deref(), Some("my-token"));
    assert_eq!(request.reply, Reply::Record);
    assert_eq!(
        header_pairs(&request),
        vec![
            pair("Authorization", "my-token"),
            pair("Content-Type", "application/json"),
        ]
    );
    assert!(matches!(request.body, Some(Payload::Create(_))));
}

#[test]
fn edit_paste_patches_the_paste() {
    let request = edit_paste_request(edited_paste(), "PasteID", "my-token");
    assert_eq!(request.method, Method::Patch);
    assert_eq!(request.url, "https://paste.myst.rs/api/v2/paste/PasteID");
    assert_eq!(request.authorization.as_deref(), Some("my-token"));
    assert_eq!(request.reply, Reply::Record);
    assert_eq!(
        header_pairs(&request),
        vec![
            pair("Authorization", "my-token"),
            pair("Content-Type", "application/json"),
        ]
    );
    match request.body {
        Some(Payload::Edit(contents)) => {
            assert_eq!(contents.title, "My title");
            assert!(contents.isPrivate);
            assert!(!contents.isPublic);
            assert_eq!(contents.tags, "Hello, World");
            assert_eq!(contents.pasties.len(), 2);
            assert_eq!(contents.pasties[0].title, "Pasty1");
            assert_eq!(contents.pasties[1].title, "Pasty2");
        }
        _ => panic!("the body is not the edit"),
    }
}

#[test]
fn delete_paste_reads_the_status_alone() {
    let request = delete_paste_request("PasteID", "my-token");
    assert_eq!(request.method, Method::Delete);
    assert_eq!(request.url, "https://paste.myst.rs/api/v2/paste/PasteID");
    assert_eq!(request.authorization.as_deref(), Some("my-token"));
    assert!(request.body.is_none());
    assert_eq!(request.reply, Reply::Status);
    assert_eq!(header_pairs(&request), vec![pair("Authorization", "my-token")]);
}

#[test]
fn language_by_name_is_a_plain_fetch() {
    let request = get_language_by_name_request("D");
    assert_eq!(request.method, Method::Get);
    assert_eq!(request.url, "https://paste.myst.rs/api/v2/data/language?name=D");
    assert!(request.authorization.is_none());
    assert!(request.body.is_none());
    assert_eq!(request.reply, Reply::Record);
}

#[test]
fn language_by_extension_is_a_plain_fetch() {
    let request = get_language_by_extension_request("cs");
    assert_eq!(request.method, Method::Get);
    assert_eq!(
        request.url,
        "https://paste.myst.rs/api/v2/data/languageExt?extension=cs"
    );
    assert!(request.authorization.is_none());
    assert!(request.body.is_none());
    assert_eq!(request.reply, Reply::Record);
}
