use room_state::error::StateError;
use room_state::events::Event;
use room_state::message::{
    AudioInfo, AudioMessage, FileInfo, FileMessage, ImageInfo, ImageMessage, LocationMessage,
    MessageContent, TextMessage, ThumbnailInfo,
};
use room_state::value::{Content, Value};

fn text(s: &str) -> Value {
    Value::Text(s.to_string())
}

fn video_payload(duration: Option<u64>) -> Content {
    let mut thumb = Content::new();
    thumb.insert("h".to_string(), Value::Number(90));
    thumb.insert("w".to_string(), Value::Number(160));
    thumb.insert("mimetype".to_string(), text("image/png"));
    thumb.insert("size".to_string(), Value::Number(2048));
    let mut info = Content::new();
    info.insert("h".to_string(), Value::Number(720));
    info.insert("w".to_string(), Value::Number(1280));
    info.insert("mimetype".to_string(), text("video/mp4"));
    info.insert("size".to_string(), Value::Number(1_000_000));
    info.insert("thumbnail_info".to_string(), Value::Object(thumb));
    info.insert("thumbnail_url".to_string(), text("mxc://example.org/thumb"));
    if let Some(d) = duration {
        info.insert("duration".to_string(), Value::Number(d));
    }
    let mut content = Content::new();
    content.insert("msgtype".to_string(), text("m.video"));
    content.insert("body".to_string(), text("clip.mp4"));
    content.insert("url".to_string(), text("mxc://example.org/clip"));
    content.insert("info".to_string(), Value::Object(info));
    content
}

fn message_event(content: Content) -> Event {
    Event::new(
        None,
        Some("@alice:example.org".to_string()),
        Some("m.room.message".to_string()),
        42,
        Some("$e".to_string()),
        Some("!room:example.org".to_string()),
        None,
        None,
        Some(content),
        None,
        true,
    )
    .unwrap()
}

#[test]
fn video_keeps_its_duration() {
    let event = message_event(video_payload(Some(1500)));
    match event.message() {
        Ok(MessageContent::Video(v)) => {
            assert_eq!(v.message_type, "m.video");
            assert_eq!(v.body, "clip.mp4");
            assert_eq!(v.url, "mxc://example.org/clip");
            assert_eq!(v.info.duration, 1500);
            assert_eq!(v.info.height, 720);
            assert_eq!(v.info.width, 1280);
            assert_eq!(v.info.mime_type, "video/mp4");
            assert_eq!(v.info.size, 1_000_000);
            let thumb = v.info.thumbnail_info.unwrap();
            assert_eq!(thumb.height, 90);
            assert_eq!(thumb.width, 160);
            assert_eq!(thumb.mime_type, "image/png");
            assert_eq!(thumb.size, 2048);
            assert_eq!(v.info.thumbnail_url.unwrap(), "mxc://example.org/thumb");
        }
        _ => panic!("not a video"),
    }
}

#[test]
fn video_without_duration_is_malformed() {
    let event = message_event(video_payload(None));
    assert!(matches!(event.message(), Err(StateError::MalformedEvent)));
}

#[test]
fn text_without_format_is_plain() {
    let mut content = Content::new();
    content.insert("msgtype".to_string(), text("m.text"));
    content.insert("body".to_string(), text("hello"));
    match MessageContent::parse(&content) {
        Ok(MessageContent::Text(t)) => {
            assert_eq!(t.message_type, "m.text");
            assert_eq!(t.body, "hello");
            assert!(t.formatted_body.is_none());
            assert!(t.format.is_none());
        }
        _ => panic!("not a text"),
    }
}

#[test]
fn text_with_a_number_for_body_is_malformed() {
    let mut content = Content::new();
    content.insert("msgtype".to_string(), text("m.text"));
    content.insert("body".to_string(), Value::Number(7));
    assert!(matches!(MessageContent::parse(&content), Err(StateError::MalformedEvent)));
}

#[test]
fn unknown_kind_is_kept_whole() {
    let mut content = Content::new();
    content.insert("msgtype".to_string(), text("m.sticker"));
    content.insert("weight".to_string(), Value::Number(3));
    match MessageContent::parse(&content) {
        Ok(MessageContent::Unknown(raw)) => {
            assert!(matches!(raw.get(&"msgtype".to_string()), Some(Value::Text(t)) if t == "m.sticker"));
            assert!(matches!(raw.get(&"weight".to_string()), Some(Value::Number(3))));
            assert!(raw.get(&"body".to_string()).is_none());
        }
        _ => panic!("not kept"),
    }
}

#[test]
fn body_and_message_type_are_looked_up() {
    let event = message_event(video_payload(Some(1)));
    assert!(matches!(event.body(), Some(Value::Text(t)) if t == "clip.mp4"));
    assert!(matches!(event.message_type(), Some(Value::Text(t)) if t == "m.video"));
    let bare = message_event(Content::new());
    assert!(bare.body().is_none());
    assert!(bare.message_type().is_none());
}

#[test]
fn event_without_sender_is_malformed() {
    let r = Event::new(
        None,
        None,
        Some("m.room.message".to_string()),
        0,
        Some("$e".to_string()),
        Some("!r".to_string()),
        None,
        None,
        Some(Content::new()),
        None,
        false,
    );
    assert!(matches!(r, Err(StateError::MalformedEvent)));
}

fn reparsed(m: &MessageContent) -> MessageContent {
    MessageContent::parse(&m.to_content()).unwrap()
}

#[test]
fn video_is_written_with_the_same_duration() {
    let parsed = MessageContent::parse(&video_payload(Some(1500))).unwrap();
    let written = parsed.to_content();
    match written.get(&"info".to_string()) {
        Some(Value::Object(info)) => {
            assert!(matches!(info.get(&"duration".to_string()), Some(Value::Number(1500))));
            assert!(matches!(info.get(&"h".to_string()), Some(Value::Number(720))));
            assert!(matches!(info.get(&"thumbnail_info".to_string()), Some(Value::Object(_))));
        }
        _ => panic!("no info"),
    }
    match reparsed(&parsed) {
        MessageContent::Video(v) => {
            assert_eq!(v.info.duration, 1500);
            assert_eq!(v.info.thumbnail_info.unwrap().size, 2048);
            assert_eq!(v.url, "mxc://example.org/clip");
        }
        _ => panic!("not a video"),
    }
}

#[test]
fn text_is_written_and_read_again() {
    let m = MessageContent::Text(TextMessage {
        message_type: "m.text".to_string(),
        body: "hi".to_string(),
        formatted_body: Some("<b>hi</b>".to_string()),
        format: Some("org.matrix.custom.html".to_string()),
    });
    let c = m.to_content();
    assert!(matches!(c.get(&"msgtype".to_string()), Some(Value::Text(t)) if t == "m.text"));
    assert!(matches!(c.get(&"formatted_body".to_string()), Some(Value::Text(t)) if t == "<b>hi</b>"));
    match reparsed(&m) {
        MessageContent::Text(t) => {
            assert_eq!(t.body, "hi");
            assert_eq!(t.formatted_body.unwrap(), "<b>hi</b>");
            assert_eq!(t.format.unwrap(), "org.matrix.custom.html");
        }
        _ => panic!("not a text"),
    }
}

#[test]
fn image_audio_file_location_are_written_and_read_again() {
    let image = MessageContent::Image(ImageMessage {
        message_type: "m.image".to_string(),
        body: "cat.png".to_string(),
        url: "mxc://x/cat".to_string(),
        info: ImageInfo {
            height: 10,
            width: 20,
            mime_type: "image/png".to_string(),
            size: 300,
            thumbnail_info: None,
            thumbnail_url: None,
        },
    });
    match reparsed(&image) {
        MessageContent::Image(i) => {
            assert_eq!((i.info.height, i.info.width, i.info.size), (10, 20, 300));
            assert_eq!(i.info.mime_type, "image/png");
            assert!(i.info.thumbnail_info.is_none());
            assert!(i.info.thumbnail_url.is_none());
        }
        _ => panic!("not an image"),
    }
    let audio = MessageContent::Audio(AudioMessage {
        message_type: "m.audio".to_string(),
        body: "song.ogg".to_string(),
        url: "mxc://x/song".to_string(),
        info: AudioInfo { mime_type: "audio/ogg".to_string(), size: 9, duration: u64::MAX },
    });
    match reparsed(&audio) {
        MessageContent::Audio(a) => {
            assert_eq!(a.info.duration, u64::MAX);
            assert_eq!(a.info.size, 9);
            assert_eq!(a.body, "song.ogg");
        }
        _ => panic!("not audio"),
    }
    let file = MessageContent::File(FileMessage {
        message_type: "m.file".to_string(),
        body: "notes.txt".to_string(),
        url: "mxc://x/notes".to_string(),
        info: FileInfo { mime_type: "text/plain".to_string(), size: 0 },
    });
    match reparsed(&file) {
        MessageContent::File(f) => {
            assert_eq!(f.info.mime_type, "text/plain");
            assert_eq!(f.info.size, 0);
        }
        _ => panic!("not a file"),
    }
    let location = MessageContent::Location(LocationMessage {
        message_type: "m.location".to_string(),
        body: "home".to_string(),
        geo_uri: "geo:1,2".to_string(),
        thumbnail_info: Some(ThumbnailInfo {
            height: 1,
            width: 2,
            mime_type: "image/jpeg".to_string(),
            size: 3,
        }),
        thumbnail_url: Some("mxc://x/map".to_string()),
    });
    match reparsed(&location) {
        MessageContent::Location(l) => {
            assert_eq!(l.geo_uri, "geo:1,2");
            let t = l.thumbnail_info.unwrap();
            assert_eq!((t.height, t.width, t.size), (1, 2, 3));
            assert_eq!(l.thumbnail_url.unwrap(), "mxc://x/map");
        }
        _ => panic!("not a location"),
    }
}

#[test]
fn location_without_geo_uri_is_malformed() {
    let mut content = Content::new();
    content.insert("msgtype".to_string(), text("m.location"));
    content.insert("body".to_string(), text("home"));
    assert!(matches!(MessageContent::parse(&content), Err(StateError::MalformedEvent)));
}

#[test]
fn a_thumbnail_that_is_no_object_is_malformed() {
    let mut content = Content::new();
    content.insert("msgtype".to_string(), text("m.location"));
    content.insert("body".to_string(), text("home"));
    content.insert("geo_uri".to_string(), text("geo:1,2"));
    content.insert("thumbnail_info".to_string(), text("none"));
    assert!(matches!(MessageContent::parse(&content), Err(StateError::MalformedEvent)));
}

#[test]
fn payload_without_a_kind_is_kept_whole() {
    let mut content = Content::new();
    content.insert("body".to_string(), text("stray"));
    match MessageContent::parse(&content) {
        Ok(MessageContent::Unknown(raw)) => {
            assert!(matches!(raw.get(&"body".to_string()), Some(Value::Text(t)) if t == "stray"));
            let again = MessageContent::Unknown(raw).to_content();
            assert!(matches!(again.get(&"body".to_string()), Some(Value::Text(t)) if t == "stray"));
        }
        _ => panic!("not kept"),
    }
}

#[test]
fn values_are_copied_deeply() {
    let source = Value::Object(video_payload(Some(3)));
    let copy = source.clone();
    match (copy.as_object(), source.as_text(), source.as_number()) {
        (Some(c), None, None) => match c.get(&"info".to_string()) {
            Some(Value::Object(info)) => {
                assert_eq!(info.get(&"duration".to_string()).unwrap().as_number(), Some(3));
                assert_eq!(
                    info.get(&"mimetype".to_string()).unwrap().as_text(),
                    Some(&"video/mp4".to_string())
                );
            }
            _ => panic!("no info"),
        },
        _ => panic!("not an object"),
    }
}

#[test]
fn a_later_insert_replaces_the_value() {
    let mut c = Content::new();
    c.insert("k".to_string(), Value::Number(1));
    c.insert("k".to_string(), Value::Number(2));
    assert!(matches!(c.get(&"k".to_string()), Some(Value::Number(2))));
    assert!(c.get(&"K".to_string()).is_none());
}
