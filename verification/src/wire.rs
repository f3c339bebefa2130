use crate::error::StateError;
use crate::events::Event;
use crate::message::{
    message_result, optional_text, optional_thumbnail, AudioInfo, AudioInfoView, AudioMessage, AudioMessageView, FileInfo,
    FileInfoView, FileMessage, FileMessageView, ImageInfo, ImageInfoView, ImageMessage,
    ImageMessageView, LocationMessage, LocationMessageView, MessageContent, MessageView,
    TextMessage, TextMessageView, ThumbnailInfo, ThumbnailInfoView, VideoInfo, VideoInfoView,
    VideoMessage, VideoMessageView,
};
use crate::value::{Content, Value, ValueView};
use vstd::prelude::*;

verus! {

/// A payload as it stands for: values under text keys.
pub type Fields = Map<Seq<char>, ValueView>;

/// The text under `key`, where there is text under it.
pub open spec fn text_in(c: Fields, key: Seq<char>) -> Option<Seq<char>> {
    if c.contains_key(key) {
        match c[key] {
            ValueView::Text(t) => Some(t),
            _ => None,
        }
    } else {
        None
    }
}

/// The number under `key`, where there is a number under it.
pub open spec fn number_in(c: Fields, key: Seq<char>) -> Option<u64> {
    if c.contains_key(key) {
        match c[key] {
            ValueView::Number(n) => Some(n),
            _ => None,
        }
    } else {
        None
    }
}

/// The object under `key`, where there is an object under it.
pub open spec fn object_in(c: Fields, key: Seq<char>) -> Option<Fields> {
    if c.contains_key(key) {
        match c[key] {
            ValueView::Object(o) => Some(o),
            _ => None,
        }
    } else {
        None
    }
}

/// A field that may be missing: nothing where the key is absent, the text
/// where text stands under it, and no reading at all where something else
/// stands there.
pub open spec fn optional_text_in(c: Fields, key: Seq<char>) -> Option<Option<Seq<char>>> {
    if !c.contains_key(key) {
        Some(None)
    } else {
        match c[key] {
            ValueView::Text(t) => Some(Some(t)),
            _ => None,
        }
    }
}

/// The thumbnail that an object describes: its height `h`, width `w`,
/// `mimetype` and `size`, all of which it must state.
pub open spec fn parsed_thumbnail(c: Fields) -> Option<ThumbnailInfoView> {
    if number_in(c, "h"@).is_some() && number_in(c, "w"@).is_some() && text_in(
        c,
        "mimetype"@,
    ).is_some() && number_in(c, "size"@).is_some() {
        Some(
            ThumbnailInfoView {
                height: number_in(c, "h"@).unwrap(),
                width: number_in(c, "w"@).unwrap(),
                mime_type: text_in(c, "mimetype"@).unwrap(),
                size: number_in(c, "size"@).unwrap(),
            },
        )
    } else {
        None
    }
}

/// The thumbnail under `thumbnail_info`, which may be missing: nothing where
/// the key is absent, and no reading where what stands there is no thumbnail.
pub open spec fn optional_thumbnail_in(c: Fields) -> Option<Option<ThumbnailInfoView>> {
    if !c.contains_key("thumbnail_info"@) {
        Some(None)
    } else {
        match c["thumbnail_info"@] {
            ValueView::Object(o) => match parsed_thumbnail(o) {
                Some(t) => Some(Some(t)),
                None => None,
            },
            _ => None,
        }
    }
}

/// The image that an `info` object describes.
pub open spec fn parsed_image_info(c: Fields) -> Option<ImageInfoView> {
    if number_in(c, "h"@).is_some() && number_in(c, "w"@).is_some() && text_in(
        c,
        "mimetype"@,
    ).is_some() && number_in(c, "size"@).is_some() && optional_thumbnail_in(c).is_some()
        && optional_text_in(c, "thumbnail_url"@).is_some() {
        Some(
            ImageInfoView {
                height: number_in(c, "h"@).unwrap(),
                width: number_in(c, "w"@).unwrap(),
                mime_type: text_in(c, "mimetype"@).unwrap(),
                size: number_in(c, "size"@).unwrap(),
                thumbnail_info: optional_thumbnail_in(c).unwrap(),
                thumbnail_url: optional_text_in(c, "thumbnail_url"@).unwrap(),
            },
        )
    } else {
        None
    }
}

/// The video that an `info` object describes.
pub open spec fn parsed_video_info(c: Fields) -> Option<VideoInfoView> {
    if parsed_image_info(c).is_some() && number_in(c, "duration"@).is_some() {
        let image = parsed_image_info(c).unwrap();
        Some(
            VideoInfoView {
                height: image.height,
                width: image.width,
                mime_type: image.mime_type,
                size: image.size,
                thumbnail_info: image.thumbnail_info,
                thumbnail_url: image.thumbnail_url,
                duration: number_in(c, "duration"@).unwrap(),
            },
        )
    } else {
        None
    }
}

/// The file that an `info` object describes.
pub open spec fn parsed_file_info(c: Fields) -> Option<FileInfoView> {
    if text_in(c, "mimetype"@).is_some() && number_in(c, "size"@).is_some() {
        Some(
            FileInfoView {
                mime_type: text_in(c, "mimetype"@).unwrap(),
                size: number_in(c, "size"@).unwrap(),
            },
        )
    } else {
        None
    }
}

/// The recording that an `info` object describes.
pub open spec fn parsed_audio_info(c: Fields) -> Option<AudioInfoView> {
    if parsed_file_info(c).is_some() && number_in(c, "duration"@).is_some() {
        Some(
            AudioInfoView {
                mime_type: parsed_file_info(c).unwrap().mime_type,
                size: parsed_file_info(c).unwrap().size,
                duration: number_in(c, "duration"@).unwrap(),
            },
        )
    } else {
        None
    }
}

/// The text message that a payload of type `tag` writes.
pub open spec fn parsed_text(c: Fields, tag: Seq<char>) -> Option<TextMessageView> {
    if text_in(c, "body"@).is_some() && optional_text_in(c, "formatted_body"@).is_some()
        && optional_text_in(c, "format"@).is_some() {
        Some(
            TextMessageView {
                message_type: tag,
                body: text_in(c, "body"@).unwrap(),
                formatted_body: optional_text_in(c, "formatted_body"@).unwrap(),
                format: optional_text_in(c, "format"@).unwrap(),
            },
        )
    } else {
        None
    }
}

/// The `info` object of a payload, read by `read`.
pub open spec fn info_in<T>(c: Fields, read: spec_fn(Fields) -> Option<T>) -> Option<T> {
    match object_in(c, "info"@) {
        Some(info) => read(info),
        None => None,
    }
}

/// The image message that a payload of type `tag` writes.
pub open spec fn parsed_image(c: Fields, tag: Seq<char>) -> Option<ImageMessageView> {
    let info = info_in(c, |o: Fields| parsed_image_info(o));
    if text_in(c, "body"@).is_some() && text_in(c, "url"@).is_some() && info.is_some() {
        Some(
            ImageMessageView {
                message_type: tag,
                body: text_in(c, "body"@).unwrap(),
                url: text_in(c, "url"@).unwrap(),
                info: info.unwrap(),
            },
        )
    } else {
        None
    }
}

/// The video message that a payload of type `tag` writes.
pub open spec fn parsed_video(c: Fields, tag: Seq<char>) -> Option<VideoMessageView> {
    let info = info_in(c, |o: Fields| parsed_video_info(o));
    if text_in(c, "body"@).is_some() && text_in(c, "url"@).is_some() && info.is_some() {
        Some(
            VideoMessageView {
                message_type: tag,
                body: text_in(c, "body"@).unwrap(),
                url: text_in(c, "url"@).unwrap(),
                info: info.unwrap(),
            },
        )
    } else {
        None
    }
}

/// The audio message that a payload of type `tag` writes.
pub open spec fn parsed_audio(c: Fields, tag: Seq<char>) -> Option<AudioMessageView> {
    let info = info_in(c, |o: Fields| parsed_audio_info(o));
    if text_in(c, "body"@).is_some() && text_in(c, "url"@).is_some() && info.is_some() {
        Some(
            AudioMessageView {
                message_type: tag,
                body: text_in(c, "body"@).unwrap(),
                url: text_in(c, "url"@).unwrap(),
                info: info.unwrap(),
            },
        )
    } else {
        None
    }
}

/// The file message that a payload of type `tag` writes.
pub open spec fn parsed_file(c: Fields, tag: Seq<char>) -> Option<FileMessageView> {
    let info = info_in(c, |o: Fields| parsed_file_info(o));
    if text_in(c, "body"@).is_some() && text_in(c, "url"@).is_some() && info.is_some() {
        Some(
            FileMessageView {
                message_type: tag,
                body: text_in(c, "body"@).unwrap(),
                url: text_in(c, "url"@).unwrap(),
                info: info.unwrap(),
            },
        )
    } else {
        None
    }
}

/// The location message that a payload of type `tag` writes.
pub open spec fn parsed_location(c: Fields, tag: Seq<char>) -> Option<LocationMessageView> {
    if text_in(c, "body"@).is_some() && text_in(c, "geo_uri"@).is_some() && optional_thumbnail_in(
        c,
    ).is_some() && optional_text_in(c, "thumbnail_url"@).is_some() {
        Some(
            LocationMessageView {
                message_type: tag,
                body: text_in(c, "body"@).unwrap(),
                geo_uri: text_in(c, "geo_uri"@).unwrap(),
                thumbnail_info: optional_thumbnail_in(c).unwrap(),
                thumbnail_url: optional_text_in(c, "thumbnail_url"@).unwrap(),
            },
        )
    } else {
        None
    }
}

/// A message that could be read, or the complaint that its payload lacks
/// something that its kind must have.
pub open spec fn read_or_malformed<T>(m: Option<T>, wrap: spec_fn(T) -> MessageView) -> Result<
    MessageView,
    StateError,
> {
    match m {
        Some(message) => Ok(wrap(message)),
        None => Err(StateError::MalformedEvent),
    }
}

/// The message that a payload writes. Its `msgtype` decides the kind; a
/// payload with another `msgtype`, or with none that is text, is kept whole
/// as an unknown one. A payload of a known kind must hold what that kind
/// requires, each under its key and of its type, and is malformed otherwise.
pub open spec fn parsed(c: Fields) -> Result<MessageView, StateError> {
    match text_in(c, "msgtype"@) {
        Some(tag) => if tag == "m.text"@ {
            read_or_malformed(parsed_text(c, tag), |m: TextMessageView| MessageView::Text(m))
        } else if tag == "m.image"@ {
            read_or_malformed(parsed_image(c, tag), |m: ImageMessageView| MessageView::Image(m))
        } else if tag == "m.video"@ {
            read_or_malformed(parsed_video(c, tag), |m: VideoMessageView| MessageView::Video(m))
        } else if tag == "m.audio"@ {
            read_or_malformed(parsed_audio(c, tag), |m: AudioMessageView| MessageView::Audio(m))
        } else if tag == "m.file"@ {
            read_or_malformed(parsed_file(c, tag), |m: FileMessageView| MessageView::File(m))
        } else if tag == "m.location"@ {
            read_or_malformed(
                parsed_location(c, tag),
                |m: LocationMessageView| MessageView::Location(m),
            )
        } else {
            Ok(MessageView::Unknown(c))
        },
        None => Ok(MessageView::Unknown(c)),
    }
}

/// Reads the text under `key`.
pub fn read_text(c: &Content, key: &str) -> (r: Option<String>)
    ensures
        optional_text(r) == text_in(c@, key@),
{
    match c.get(&key.to_owned()) {
        Some(value) => match value.as_text() {
            Some(t) => Some(t.clone()),
            None => None,
        },
        None => None,
    }
}

/// Reads the number under `key`.
pub fn read_number(c: &Content, key: &str) -> (r: Option<u64>)
    ensures
        r == number_in(c@, key@),
{
    match c.get(&key.to_owned()) {
        Some(value) => value.as_number(),
        None => None,
    }
}

/// Reads the object under `key`.
pub fn read_object<'a>(c: &'a Content, key: &str) -> (r: Option<&'a Content>)
    ensures
        match r {
            Some(o) => object_in(c@, key@) == Some(o@),
            None => object_in(c@, key@).is_none(),
        },
{
    match c.get(&key.to_owned()) {
        Some(value) => value.as_object(),
        None => None,
    }
}

/// Reads text that may be missing under `key`.
pub fn read_optional_text(c: &Content, key: &str) -> (r: Option<Option<String>>)
    ensures
        match r {
            Some(t) => optional_text_in(c@, key@) == Some(optional_text(t)),
            None => optional_text_in(c@, key@).is_none(),
        },
{
    match c.get(&key.to_owned()) {
        Some(value) => match value.as_text() {
            Some(t) => Some(Some(t.clone())),
            None => None,
        },
        None => Some(None),
    }
}

impl ThumbnailInfo {
    /// Reads a thumbnail's description.
    pub fn parse(c: &Content) -> (r: Option<ThumbnailInfo>)
        ensures
            optional_thumbnail(r) == parsed_thumbnail(c@),
    {
        match (
            read_number(c, "h"),
            read_number(c, "w"),
            read_text(c, "mimetype"),
            read_number(c, "size"),
        ) {
            (Some(height), Some(width), Some(mime_type), Some(size)) => Some(
                ThumbnailInfo { height, width, mime_type, size },
            ),
            _ => None,
        }
    }
}

/// Reads the thumbnail that may stand under `thumbnail_info`.
pub fn read_optional_thumbnail(c: &Content) -> (r: Option<Option<ThumbnailInfo>>)
    ensures
        match r {
            Some(t) => optional_thumbnail_in(c@) == Some(optional_thumbnail(t)),
            None => optional_thumbnail_in(c@).is_none(),
        },
{
    match c.get(&"thumbnail_info".to_owned()) {
        Some(value) => match value.as_object() {
            Some(o) => match ThumbnailInfo::parse(o) {
                Some(t) => Some(Some(t)),
                None => None,
            },
            None => None,
        },
        None => Some(None),
    }
}

impl ImageInfo {
    /// Reads an image's description.
    pub fn parse(c: &Content) -> (r: Option<ImageInfo>)
        ensures
            match r {
                Some(info) => parsed_image_info(c@) == Some(info@),
                None => parsed_image_info(c@).is_none(),
            },
    {
        match (
            read_number(c, "h"),
            read_number(c, "w"),
            read_text(c, "mimetype"),
            read_number(c, "size"),
            read_optional_thumbnail(c),
            read_optional_text(c, "thumbnail_url"),
        ) {
            (
                Some(height),
                Some(width),
                Some(mime_type),
                Some(size),
                Some(thumbnail_info),
                Some(thumbnail_url),
            ) => Some(
                ImageInfo { height, width, mime_type, size, thumbnail_info, thumbnail_url },
            ),
            _ => None,
        }
    }
}

impl VideoInfo {
    /// Reads a video's description.
    pub fn parse(c: &Content) -> (r: Option<VideoInfo>)
        ensures
            match r {
                Some(info) => parsed_video_info(c@) == Some(info@),
                None => parsed_video_info(c@).is_none(),
            },
    {
        match (ImageInfo::parse(c), read_number(c, "duration")) {
            (Some(image), Some(duration)) => Some(
                VideoInfo {
                    height: image.height,
                    width: image.width,
                    mime_type: image.mime_type,
                    size: image.size,
                    thumbnail_info: image.thumbnail_info,
                    thumbnail_url: image.thumbnail_url,
                    duration,
                },
            ),
            _ => None,
        }
    }
}

impl FileInfo {
    /// Reads a file's description.
    pub fn parse(c: &Content) -> (r: Option<FileInfo>)
        ensures
            match r {
                Some(info) => parsed_file_info(c@) == Some(info@),
                None => parsed_file_info(c@).is_none(),
            },
    {
        match (read_text(c, "mimetype"), read_number(c, "size")) {
            (Some(mime_type), Some(size)) => Some(FileInfo { mime_type, size }),
            _ => None,
        }
    }
}

impl AudioInfo {
    /// Reads a recording's description.
    pub fn parse(c: &Content) -> (r: Option<AudioInfo>)
        ensures
            match r {
                Some(info) => parsed_audio_info(c@) == Some(info@),
                None => parsed_audio_info(c@).is_none(),
            },
    {
        match (FileInfo::parse(c), read_number(c, "duration")) {
            (Some(file), Some(duration)) => Some(
                AudioInfo { mime_type: file.mime_type, size: file.size, duration },
            ),
            _ => None,
        }
    }
}

impl TextMessage {
    /// Reads a text message of type `message_type`.
    pub fn parse(c: &Content, message_type: String) -> (r: Option<TextMessage>)
        ensures
            match r {
                Some(m) => parsed_text(c@, message_type@) == Some(m@),
                None => parsed_text(c@, message_type@).is_none(),
            },
    {
        match (
            read_text(c, "body"),
            read_optional_text(c, "formatted_body"),
            read_optional_text(c, "format"),
        ) {
            (Some(body), Some(formatted_body), Some(format)) => Some(
                TextMessage { message_type, body, formatted_body, format },
            ),
            _ => None,
        }
    }
}

impl ImageMessage {
    /// Reads an image message of type `message_type`.
    pub fn parse(c: &Content, message_type: String) -> (r: Option<ImageMessage>)
        ensures
            match r {
                Some(m) => parsed_image(c@, message_type@) == Some(m@),
                None => parsed_image(c@, message_type@).is_none(),
            },
    {
        let info = match read_object(c, "info") {
            Some(o) => ImageInfo::parse(o),
            None => None,
        };
        match (read_text(c, "body"), read_text(c, "url"), info) {
            (Some(body), Some(url), Some(info)) => Some(
                ImageMessage { message_type, body, url, info },
            ),
            _ => None,
        }
    }
}

impl VideoMessage {
    /// Reads a video message of type `message_type`.
    pub fn parse(c: &Content, message_type: String) -> (r: Option<VideoMessage>)
        ensures
            match r {
                Some(m) => parsed_video(c@, message_type@) == Some(m@),
                None => parsed_video(c@, message_type@).is_none(),
            },
    {
        let info = match read_object(c, "info") {
            Some(o) => VideoInfo::parse(o),
            None => None,
        };
        match (read_text(c, "body"), read_text(c, "url"), info) {
            (Some(body), Some(url), Some(info)) => Some(
                VideoMessage { message_type, body, url, info },
            ),
            _ => None,
        }
    }
}

impl AudioMessage {
    /// Reads an audio message of type `message_type`.
    pub fn parse(c: &Content, message_type: String) -> (r: Option<AudioMessage>)
        ensures
            match r {
                Some(m) => parsed_audio(c@, message_type@) == Some(m@),
                None => parsed_audio(c@, message_type@).is_none(),
            },
    {
        let info = match read_object(c, "info") {
            Some(o) => AudioInfo::parse(o),
            None => None,
        };
        match (read_text(c, "body"), read_text(c, "url"), info) {
            (Some(body), Some(url), Some(info)) => Some(
                AudioMessage { message_type, body, url, info },
            ),
            _ => None,
        }
    }
}

impl FileMessage {
    /// Reads a file message of type `message_type`.
    pub fn parse(c: &Content, message_type: String) -> (r: Option<FileMessage>)
        ensures
            match r {
                Some(m) => parsed_file(c@, message_type@) == Some(m@),
                None => parsed_file(c@, message_type@).is_none(),
            },
    {
        let info = match read_object(c, "info") {
            Some(o) => FileInfo::parse(o),
            None => None,
        };
        match (read_text(c, "body"), read_text(c, "url"), info) {
            (Some(body), Some(url), Some(info)) => Some(
                FileMessage { message_type, body, url, info },
            ),
            _ => None,
        }
    }
}

impl LocationMessage {
    /// Reads a location message of type `message_type`.
    pub fn parse(c: &Content, message_type: String) -> (r: Option<LocationMessage>)
        ensures
            match r {
                Some(m) => parsed_location(c@, message_type@) == Some(m@),
                None => parsed_location(c@, message_type@).is_none(),
            },
    {
        match (
            read_text(c, "body"),
            read_text(c, "geo_uri"),
            read_optional_thumbnail(c),
            read_optional_text(c, "thumbnail_url"),
        ) {
            (Some(body), Some(geo_uri), Some(thumbnail_info), Some(thumbnail_url)) => Some(
                LocationMessage { message_type, body, geo_uri, thumbnail_info, thumbnail_url },
            ),
            _ => None,
        }
    }
}

/// Whether `text` reads `literal`.
fn reads(text: &String, literal: &str) -> (r: bool)
    ensures
        r == (text@ == literal@),
{
    *text == literal.to_owned()
}

impl MessageContent {
    /// Reads the message that a payload writes. A payload of a known kind
    /// that lacks what the kind requires is malformed; a payload of any
    /// other kind is kept whole.
    pub fn parse(c: &Content) -> (r: Result<MessageContent, StateError>)
        ensures
            message_result(r) == parsed(c@),
    {
        let tag = match read_text(c, "msgtype") {
            Some(tag) => tag,
            None => {
                return Ok(MessageContent::Unknown(c.clone()));
            },
        };
        if reads(&tag, "m.text") {
            match TextMessage::parse(c, tag) {
                Some(m) => Ok(MessageContent::Text(m)),
                None => Err(StateError::MalformedEvent),
            }
        } else if reads(&tag, "m.image") {
            match ImageMessage::parse(c, tag) {
                Some(m) => Ok(MessageContent::Image(m)),
                None => Err(StateError::MalformedEvent),
            }
        } else if reads(&tag, "m.video") {
            match VideoMessage::parse(c, tag) {
                Some(m) => Ok(MessageContent::Video(m)),
                None => Err(StateError::MalformedEvent),
            }
        } else if reads(&tag, "m.audio") {
            match AudioMessage::parse(c, tag) {
                Some(m) => Ok(MessageContent::Audio(m)),
                None => Err(StateError::MalformedEvent),
            }
        } else if reads(&tag, "m.file") {
            match FileMessage::parse(c, tag) {
                Some(m) => Ok(MessageContent::File(m)),
                None => Err(StateError::MalformedEvent),
            }
        } else if reads(&tag, "m.location") {
            match LocationMessage::parse(c, tag) {
                Some(m) => Ok(MessageContent::Location(m)),
                None => Err(StateError::MalformedEvent),
            }
        } else {
            Ok(MessageContent::Unknown(c.clone()))
        }
    }
}

/// A payload with `value` under `key`, where there is a value to write.
pub open spec fn with_optional_text(c: Fields, key: Seq<char>, value: Option<Seq<char>>) -> Fields {
    match value {
        Some(text) => c.insert(key, ValueView::Text(text)),
        None => c,
    }
}

/// The object that describes a thumbnail.
pub open spec fn thumbnail_fields(t: ThumbnailInfoView) -> Fields {
    Map::<Seq<char>, ValueView>::empty().insert("h"@, ValueView::Number(t.height)).insert(
        "w"@,
        ValueView::Number(t.width),
    ).insert("mimetype"@, ValueView::Text(t.mime_type)).insert("size"@, ValueView::Number(t.size))
}

/// A payload with a thumbnail's description under `thumbnail_info`, where
/// there is a thumbnail.
pub open spec fn with_optional_thumbnail(c: Fields, t: Option<ThumbnailInfoView>) -> Fields {
    match t {
        Some(info) => c.insert("thumbnail_info"@, ValueView::Object(thumbnail_fields(info))),
        None => c,
    }
}

/// The `info` object of an image.
pub open spec fn image_info_fields(i: ImageInfoView) -> Fields {
    with_optional_text(
        with_optional_thumbnail(
            Map::<Seq<char>, ValueView>::empty().insert("h"@, ValueView::Number(i.height)).insert(
                "w"@,
                ValueView::Number(i.width),
            ).insert("mimetype"@, ValueView::Text(i.mime_type)).insert(
                "size"@,
                ValueView::Number(i.size),
            ),
            i.thumbnail_info,
        ),
        "thumbnail_url"@,
        i.thumbnail_url,
    )
}

/// A video's description without its duration.
pub open spec fn still_of(v: VideoInfoView) -> ImageInfoView {
    ImageInfoView {
        height: v.height,
        width: v.width,
        mime_type: v.mime_type,
        size: v.size,
        thumbnail_info: v.thumbnail_info,
        thumbnail_url: v.thumbnail_url,
    }
}

/// The `info` object of a video.
pub open spec fn video_info_fields(v: VideoInfoView) -> Fields {
    image_info_fields(still_of(v)).insert("duration"@, ValueView::Number(v.duration))
}

/// The `info` object of a file.
pub open spec fn file_info_fields(f: FileInfoView) -> Fields {
    Map::<Seq<char>, ValueView>::empty().insert("mimetype"@, ValueView::Text(f.mime_type)).insert(
        "size"@,
        ValueView::Number(f.size),
    )
}

/// The `info` object of a recording.
pub open spec fn audio_info_fields(a: AudioInfoView) -> Fields {
    file_info_fields(FileInfoView { mime_type: a.mime_type, size: a.size }).insert(
        "duration"@,
        ValueView::Number(a.duration),
    )
}

/// The start of every payload of a known kind: its type and its body.
pub open spec fn headed(message_type: Seq<char>, body: Seq<char>) -> Fields {
    Map::<Seq<char>, ValueView>::empty().insert("msgtype"@, ValueView::Text(message_type)).insert(
        "body"@,
        ValueView::Text(body),
    )
}

/// The payload of a message that points to media: type, body, the address
/// of the media and its description.
pub open spec fn media_fields(
    message_type: Seq<char>,
    body: Seq<char>,
    url: Seq<char>,
    info: Fields,
) -> Fields {
    headed(message_type, body).insert("url"@, ValueView::Text(url)).insert(
        "info"@,
        ValueView::Object(info),
    )
}

/// The payload that writes a message.
pub open spec fn written(m: MessageView) -> Fields {
    match m {
        MessageView::Text(t) => with_optional_text(
            with_optional_text(headed(t.message_type, t.body), "formatted_body"@, t.formatted_body),
            "format"@,
            t.format,
        ),
        MessageView::Image(i) => media_fields(
            i.message_type,
            i.body,
            i.url,
            image_info_fields(i.info),
        ),
        MessageView::Video(v) => media_fields(
            v.message_type,
            v.body,
            v.url,
            video_info_fields(v.info),
        ),
        MessageView::Audio(a) => media_fields(
            a.message_type,
            a.body,
            a.url,
            audio_info_fields(a.info),
        ),
        MessageView::File(f) => media_fields(f.message_type, f.body, f.url, file_info_fields(f.info)),
        MessageView::Location(l) => with_optional_text(
            with_optional_thumbnail(
                headed(l.message_type, l.body).insert("geo_uri"@, ValueView::Text(l.geo_uri)),
                l.thumbnail_info,
            ),
            "thumbnail_url"@,
            l.thumbnail_url,
        ),
        MessageView::Unknown(raw) => raw,
    }
}

/// Writes `value` under `key`, where there is a value to write.
pub fn write_optional_text(c: &mut Content, key: &str, value: &Option<String>)
    ensures
        final(c)@ == with_optional_text(old(c)@, key@, optional_text(*value)),
{
    match value {
        Some(text) => {
            c.insert(key.to_owned(), Value::Text(text.clone()));
        },
        None => {},
    }
}

/// Writes a number under `key`.
pub fn write_number(c: &mut Content, key: &str, value: u64)
    ensures
        final(c)@ == old(c)@.insert(key@, ValueView::Number(value)),
{
    c.insert(key.to_owned(), Value::Number(value));
}

/// Writes text under `key`.
pub fn write_text(c: &mut Content, key: &str, value: &String)
    ensures
        final(c)@ == old(c)@.insert(key@, ValueView::Text(value@)),
{
    c.insert(key.to_owned(), Value::Text(value.clone()));
}

/// Writes an object under `key`.
pub fn write_object(c: &mut Content, key: &str, value: Content)
    ensures
        final(c)@ == old(c)@.insert(key@, ValueView::Object(value@)),
{
    c.insert(key.to_owned(), Value::Object(value));
}

impl ThumbnailInfo {
    /// The object that describes this thumbnail.
    pub fn to_content(&self) -> (c: Content)
        ensures
            c@ == thumbnail_fields(self@),
    {
        let mut c = Content::new();
        write_number(&mut c, "h", self.height);
        write_number(&mut c, "w", self.width);
        write_text(&mut c, "mimetype", &self.mime_type);
        write_number(&mut c, "size", self.size);
        c
    }
}

/// Writes a thumbnail's description under `thumbnail_info`, where there is
/// a thumbnail.
pub fn write_optional_thumbnail(c: &mut Content, t: &Option<ThumbnailInfo>)
    ensures
        final(c)@ == with_optional_thumbnail(old(c)@, optional_thumbnail(*t)),
{
    match t {
        Some(info) => {
            write_object(c, "thumbnail_info", info.to_content());
        },
        None => {},
    }
}

impl ImageInfo {
    /// The `info` object of this image.
    pub fn to_content(&self) -> (c: Content)
        ensures
            c@ == image_info_fields(self@),
    {
        let mut c = Content::new();
        write_number(&mut c, "h", self.height);
        write_number(&mut c, "w", self.width);
        write_text(&mut c, "mimetype", &self.mime_type);
        write_number(&mut c, "size", self.size);
        write_optional_thumbnail(&mut c, &self.thumbnail_info);
        write_optional_text(&mut c, "thumbnail_url", &self.thumbnail_url);
        c
    }
}

impl VideoInfo {
    /// The `info` object of this video.
    pub fn to_content(&self) -> (c: Content)
        ensures
            c@ == video_info_fields(self@),
    {
        let mut c = Content::new();
        write_number(&mut c, "h", self.height);
        write_number(&mut c, "w", self.width);
        write_text(&mut c, "mimetype", &self.mime_type);
        write_number(&mut c, "size", self.size);
        write_optional_thumbnail(&mut c, &self.thumbnail_info);
        write_optional_text(&mut c, "thumbnail_url", &self.thumbnail_url);
        write_number(&mut c, "duration", self.duration);
        c
    }
}

impl FileInfo {
    /// The `info` object of this file.
    pub fn to_content(&self) -> (c: Content)
        ensures
            c@ == file_info_fields(self@),
    {
        let mut c = Content::new();
        write_text(&mut c, "mimetype", &self.mime_type);
        write_number(&mut c, "size", self.size);
        c
    }
}

impl AudioInfo {
    /// The `info` object of this recording.
    pub fn to_content(&self) -> (c: Content)
        ensures
            c@ == audio_info_fields(self@),
    {
        let mut c = Content::new();
        write_text(&mut c, "mimetype", &self.mime_type);
        write_number(&mut c, "size", self.size);
        write_number(&mut c, "duration", self.duration);
        c
    }
}

/// Writes the payload of a message that points to media.
pub fn write_media(message_type: &String, body: &String, url: &String, info: Content) -> (c:
    Content)
    ensures
        c@ == media_fields(message_type@, body@, url@, info@),
{
    let mut c = Content::new();
    write_text(&mut c, "msgtype", message_type);
    write_text(&mut c, "body", body);
    write_text(&mut c, "url", url);
    write_object(&mut c, "info", info);
    c
}

impl MessageContent {
    /// The payload that writes this message. An unknown message is written
    /// as it came.
    pub fn to_content(&self) -> (c: Content)
        ensures
            c@ == written(self@),
    {
        match self {
            MessageContent::Text(t) => {
                let mut c = Content::new();
                write_text(&mut c, "msgtype", &t.message_type);
                write_text(&mut c, "body", &t.body);
                write_optional_text(&mut c, "formatted_body", &t.formatted_body);
                write_optional_text(&mut c, "format", &t.format);
                c
            },
            MessageContent::Image(i) => write_media(
                &i.message_type,
                &i.body,
                &i.url,
                i.info.to_content(),
            ),
            MessageContent::Video(v) => write_media(
                &v.message_type,
                &v.body,
                &v.url,
                v.info.to_content(),
            ),
            MessageContent::Audio(a) => write_media(
                &a.message_type,
                &a.body,
                &a.url,
                a.info.to_content(),
            ),
            MessageContent::File(f) => write_media(
                &f.message_type,
                &f.body,
                &f.url,
                f.info.to_content(),
            ),
            MessageContent::Location(l) => {
                let mut c = Content::new();
                write_text(&mut c, "msgtype", &l.message_type);
                write_text(&mut c, "body", &l.body);
                write_text(&mut c, "geo_uri", &l.geo_uri);
                write_optional_thumbnail(&mut c, &l.thumbnail_info);
                write_optional_text(&mut c, "thumbnail_url", &l.thumbnail_url);
                c
            },
            MessageContent::Unknown(raw) => raw.clone(),
        }
    }
}

/// The keys of the wire are different words, and so are the kinds.
proof fn lemma_wire_words()
    ensures
        "h"@.len() == 1 && "h"@[0] == 'h',
        "w"@.len() == 1 && "w"@[0] == 'w',
        "url"@.len() == 3,
        "body"@.len() == 4 && "body"@[0] == 'b',
        "info"@.len() == 4 && "info"@[0] == 'i',
        "size"@.len() == 4 && "size"@[0] == 's',
        "format"@.len() == 6,
        "msgtype"@.len() == 7 && "msgtype"@[0] == 'm',
        "geo_uri"@.len() == 7 && "geo_uri"@[0] == 'g',
        "mimetype"@.len() == 8 && "mimetype"@[0] == 'm',
        "duration"@.len() == 8 && "duration"@[0] == 'd',
        "thumbnail_url"@.len() == 13,
        "thumbnail_info"@.len() == 14 && "thumbnail_info"@[0] == 't',
        "formatted_body"@.len() == 14 && "formatted_body"@[0] == 'f',
        "m.text"@.len() == 6 && "m.text"@[2] == 't',
        "m.file"@.len() == 6 && "m.file"@[2] == 'f',
        "m.image"@.len() == 7 && "m.image"@[2] == 'i',
        "m.video"@.len() == 7 && "m.video"@[2] == 'v',
        "m.audio"@.len() == 7 && "m.audio"@[2] == 'a',
        "m.location"@.len() == 10,
{
    reveal_strlit("h");
    reveal_strlit("w");
    reveal_strlit("url");
    reveal_strlit("body");
    reveal_strlit("info");
    reveal_strlit("size");
    reveal_strlit("format");
    reveal_strlit("msgtype");
    reveal_strlit("geo_uri");
    reveal_strlit("mimetype");
    reveal_strlit("duration");
    reveal_strlit("thumbnail_url");
    reveal_strlit("thumbnail_info");
    reveal_strlit("formatted_body");
    reveal_strlit("m.text");
    reveal_strlit("m.file");
    reveal_strlit("m.image");
    reveal_strlit("m.video");
    reveal_strlit("m.audio");
    reveal_strlit("m.location");
}

/// Whether a message names the kind that it is: a message of a known kind
/// carries that kind's `msgtype`, and an unknown one carries none of them.
pub open spec fn well_tagged(m: MessageView) -> bool {
    match m {
        MessageView::Text(t) => t.message_type == "m.text"@,
        MessageView::Image(i) => i.message_type == "m.image"@,
        MessageView::Video(v) => v.message_type == "m.video"@,
        MessageView::Audio(a) => a.message_type == "m.audio"@,
        MessageView::File(f) => f.message_type == "m.file"@,
        MessageView::Location(l) => l.message_type == "m.location"@,
        MessageView::Unknown(raw) => match text_in(raw, "msgtype"@) {
            Some(tag) => tag != "m.text"@ && tag != "m.image"@ && tag != "m.video"@ && tag
                != "m.audio"@ && tag != "m.file"@ && tag != "m.location"@,
            None => true,
        },
    }
}

/// A thumbnail's description reads back as the thumbnail.
pub proof fn lemma_thumbnail_reads_back(t: ThumbnailInfoView)
    ensures
        parsed_thumbnail(thumbnail_fields(t)) == Some(t),
{
    lemma_wire_words();
}

/// An image's description reads back as the image.
pub proof fn lemma_image_info_reads_back(i: ImageInfoView)
    ensures
        parsed_image_info(image_info_fields(i)) == Some(i),
{
    lemma_wire_words();
    if let Some(t) = i.thumbnail_info {
        lemma_thumbnail_reads_back(t);
    }
}

/// A video's description reads back as the video.
pub proof fn lemma_video_info_reads_back(v: VideoInfoView)
    ensures
        parsed_video_info(video_info_fields(v)) == Some(v),
{
    lemma_wire_words();
    lemma_image_info_reads_back(still_of(v));
    let c = image_info_fields(still_of(v));
    let d = video_info_fields(v);
    assert(number_in(d, "h"@) == number_in(c, "h"@));
    assert(number_in(d, "w"@) == number_in(c, "w"@));
    assert(text_in(d, "mimetype"@) == text_in(c, "mimetype"@));
    assert(number_in(d, "size"@) == number_in(c, "size"@));
    assert(optional_thumbnail_in(d) == optional_thumbnail_in(c));
    assert(optional_text_in(d, "thumbnail_url"@) == optional_text_in(c, "thumbnail_url"@));
}

/// A file's description reads back as the file.
pub proof fn lemma_file_info_reads_back(f: FileInfoView)
    ensures
        parsed_file_info(file_info_fields(f)) == Some(f),
{
    lemma_wire_words();
}

/// A recording's description reads back as the recording.
pub proof fn lemma_audio_info_reads_back(a: AudioInfoView)
    ensures
        parsed_audio_info(audio_info_fields(a)) == Some(a),
{
    lemma_wire_words();
}

/// A message that is written and read again is the same message.
pub proof fn lemma_written_reads_back(m: MessageView)
    requires
        well_tagged(m),
    ensures
        parsed(written(m)) == Ok::<MessageView, StateError>(m),
{
    lemma_wire_words();
    match m {
        MessageView::Text(t) => {},
        MessageView::Image(i) => {
            lemma_image_info_reads_back(i.info);
        },
        MessageView::Video(v) => {
            lemma_video_info_reads_back(v.info);
        },
        MessageView::Audio(a) => {
            lemma_audio_info_reads_back(a.info);
        },
        MessageView::File(f) => {
            lemma_file_info_reads_back(f.info);
        },
        MessageView::Location(l) => {
            if let Some(t) = l.thumbnail_info {
                lemma_thumbnail_reads_back(t);
            }
        },
        MessageView::Unknown(raw) => {},
    }
}

impl Event {
    /// The message that this event's payload writes.
    pub fn message(&self) -> (r: Result<MessageContent, StateError>)
        ensures
            message_result(r) == parsed(self@.content),
    {
        MessageContent::parse(&self.content)
    }
}

} // verus!
