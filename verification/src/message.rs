use crate::error::StateError;
use crate::value::{Content, ValueView};
use vstd::prelude::*;

verus! {

/// A plain text message, with its formatted form where it has one.
#[derive(Clone, Debug)]
pub struct TextMessage {
    pub message_type: String,
    pub body: String,
    pub formatted_body: Option<String>,
    pub format: Option<String>,
}

/// What is known of a thumbnail.
#[derive(Clone, Debug)]
pub struct ThumbnailInfo {
    pub height: u64,
    pub width: u64,
    pub mime_type: String,
    pub size: u64,
}

/// What is known of an image.
#[derive(Clone, Debug)]
pub struct ImageInfo {
    pub height: u64,
    pub width: u64,
    pub mime_type: String,
    pub size: u64,
    pub thumbnail_info: Option<ThumbnailInfo>,
    pub thumbnail_url: Option<String>,
}

/// What is known of a video.
#[derive(Clone, Debug)]
pub struct VideoInfo {
    pub height: u64,
    pub width: u64,
    pub mime_type: String,
    pub size: u64,
    pub thumbnail_info: Option<ThumbnailInfo>,
    pub thumbnail_url: Option<String>,
    /// In milliseconds.
    pub duration: u64,
}

#[derive(Clone, Debug)]
pub struct VideoMessage {
    pub message_type: String,
    pub body: String,
    pub url: String,
    pub info: VideoInfo,
}

#[derive(Clone, Debug)]
pub struct ImageMessage {
    pub message_type: String,
    pub body: String,
    pub url: String,
    pub info: ImageInfo,
}

/// A text message whose body was derived from HTML markup.
#[derive(Clone, Debug)]
pub struct HTMLMessage {
    pub message_type: String,
    /// The plain text of the markup.
    pub body: String,
    /// The markup as it was written.
    pub formatted_body: String,
    pub format: String,
}

/// What is known of a file.
#[derive(Clone, Debug)]
pub struct FileInfo {
    pub mime_type: String,
    pub size: u64,
}

#[derive(Clone, Debug)]
pub struct FileMessage {
    pub message_type: String,
    pub body: String,
    pub url: String,
    pub info: FileInfo,
}

#[derive(Clone, Debug)]
pub struct LocationMessage {
    pub message_type: String,
    pub body: String,
    pub geo_uri: String,
    pub thumbnail_info: Option<ThumbnailInfo>,
    pub thumbnail_url: Option<String>,
}

/// What is known of a sound recording.
#[derive(Clone, Debug)]
pub struct AudioInfo {
    pub mime_type: String,
    pub size: u64,
    /// In milliseconds.
    pub duration: u64,
}

#[derive(Clone, Debug)]
pub struct AudioMessage {
    pub message_type: String,
    pub body: String,
    pub url: String,
    pub info: AudioInfo,
}

/// The payload of a message event, by its kind. A payload of a kind that is
/// not known is kept as it came.
#[derive(Clone, Debug)]
pub enum MessageContent {
    Text(TextMessage),
    Image(ImageMessage),
    Video(VideoMessage),
    Audio(AudioMessage),
    File(FileMessage),
    Location(LocationMessage),
    Unknown(Content),
}

pub struct TextMessageView {
    pub message_type: Seq<char>,
    pub body: Seq<char>,
    pub formatted_body: Option<Seq<char>>,
    pub format: Option<Seq<char>>,
}

pub struct ThumbnailInfoView {
    pub height: u64,
    pub width: u64,
    pub mime_type: Seq<char>,
    pub size: u64,
}

pub struct ImageInfoView {
    pub height: u64,
    pub width: u64,
    pub mime_type: Seq<char>,
    pub size: u64,
    pub thumbnail_info: Option<ThumbnailInfoView>,
    pub thumbnail_url: Option<Seq<char>>,
}

pub struct VideoInfoView {
    pub height: u64,
    pub width: u64,
    pub mime_type: Seq<char>,
    pub size: u64,
    pub thumbnail_info: Option<ThumbnailInfoView>,
    pub thumbnail_url: Option<Seq<char>>,
    pub duration: u64,
}

pub struct VideoMessageView {
    pub message_type: Seq<char>,
    pub body: Seq<char>,
    pub url: Seq<char>,
    pub info: VideoInfoView,
}

pub struct ImageMessageView {
    pub message_type: Seq<char>,
    pub body: Seq<char>,
    pub url: Seq<char>,
    pub info: ImageInfoView,
}

pub struct FileInfoView {
    pub mime_type: Seq<char>,
    pub size: u64,
}

pub struct FileMessageView {
    pub message_type: Seq<char>,
    pub body: Seq<char>,
    pub url: Seq<char>,
    pub info: FileInfoView,
}

pub struct LocationMessageView {
    pub message_type: Seq<char>,
    pub body: Seq<char>,
    pub geo_uri: Seq<char>,
    pub thumbnail_info: Option<ThumbnailInfoView>,
    pub thumbnail_url: Option<Seq<char>>,
}

pub struct AudioInfoView {
    pub mime_type: Seq<char>,
    pub size: u64,
    pub duration: u64,
}

pub struct AudioMessageView {
    pub message_type: Seq<char>,
    pub body: Seq<char>,
    pub url: Seq<char>,
    pub info: AudioInfoView,
}

pub enum MessageView {
    Text(TextMessageView),
    Image(ImageMessageView),
    Video(VideoMessageView),
    Audio(AudioMessageView),
    File(FileMessageView),
    Location(LocationMessageView),
    Unknown(Map<Seq<char>, ValueView>),
}

/// The text of an optional string.
pub open spec fn optional_text(s: Option<String>) -> Option<Seq<char>> {
    match s {
        Some(t) => Some(t@),
        None => None,
    }
}

impl ThumbnailInfo {
    pub open spec fn view(&self) -> ThumbnailInfoView {
        ThumbnailInfoView {
            height: self.height,
            width: self.width,
            mime_type: self.mime_type@,
            size: self.size,
        }
    }
}

/// What an optional thumbnail stands for.
pub open spec fn optional_thumbnail(t: Option<ThumbnailInfo>) -> Option<ThumbnailInfoView> {
    match t {
        Some(info) => Some(info@),
        None => None,
    }
}

impl TextMessage {
    pub open spec fn view(&self) -> TextMessageView {
        TextMessageView {
            message_type: self.message_type@,
            body: self.body@,
            formatted_body: optional_text(self.formatted_body),
            format: optional_text(self.format),
        }
    }
}

impl ImageInfo {
    pub open spec fn view(&self) -> ImageInfoView {
        ImageInfoView {
            height: self.height,
            width: self.width,
            mime_type: self.mime_type@,
            size: self.size,
            thumbnail_info: optional_thumbnail(self.thumbnail_info),
            thumbnail_url: optional_text(self.thumbnail_url),
        }
    }
}

impl VideoInfo {
    pub open spec fn view(&self) -> VideoInfoView {
        VideoInfoView {
            height: self.height,
            width: self.width,
            mime_type: self.mime_type@,
            size: self.size,
            thumbnail_info: optional_thumbnail(self.thumbnail_info),
            thumbnail_url: optional_text(self.thumbnail_url),
            duration: self.duration,
        }
    }
}

impl VideoMessage {
    pub open spec fn view(&self) -> VideoMessageView {
        VideoMessageView {
            message_type: self.message_type@,
            body: self.body@,
            url: self.url@,
            info: self.info@,
        }
    }
}

impl ImageMessage {
    pub open spec fn view(&self) -> ImageMessageView {
        ImageMessageView {
            message_type: self.message_type@,
            body: self.body@,
            url: self.url@,
            info: self.info@,
        }
    }
}

impl FileInfo {
    pub open spec fn view(&self) -> FileInfoView {
        FileInfoView { mime_type: self.mime_type@, size: self.size }
    }
}

impl FileMessage {
    pub open spec fn view(&self) -> FileMessageView {
        FileMessageView {
            message_type: self.message_type@,
            body: self.body@,
            url: self.url@,
            info: self.info@,
        }
    }
}

impl LocationMessage {
    pub open spec fn view(&self) -> LocationMessageView {
        LocationMessageView {
            message_type: self.message_type@,
            body: self.body@,
            geo_uri: self.geo_uri@,
            thumbnail_info: optional_thumbnail(self.thumbnail_info),
            thumbnail_url: optional_text(self.thumbnail_url),
        }
    }
}

impl AudioInfo {
    pub open spec fn view(&self) -> AudioInfoView {
        AudioInfoView { mime_type: self.mime_type@, size: self.size, duration: self.duration }
    }
}

impl AudioMessage {
    pub open spec fn view(&self) -> AudioMessageView {
        AudioMessageView {
            message_type: self.message_type@,
            body: self.body@,
            url: self.url@,
            info: self.info@,
        }
    }
}

impl MessageContent {
    pub open spec fn view(&self) -> MessageView {
        match self {
            MessageContent::Text(m) => MessageView::Text(m@),
            MessageContent::Image(m) => MessageView::Image(m@),
            MessageContent::Video(m) => MessageView::Video(m@),
            MessageContent::Audio(m) => MessageView::Audio(m@),
            MessageContent::File(m) => MessageView::File(m@),
            MessageContent::Location(m) => MessageView::Location(m@),
            MessageContent::Unknown(raw) => MessageView::Unknown(raw@),
        }
    }
}

/// What a parse returned, or its error.
pub open spec fn message_result(r: Result<MessageContent, StateError>) -> Result<
    MessageView,
    StateError,
> {
    match r {
        Ok(m) => Ok(m@),
        Err(e) => Err(e),
    }
}

} // verus!
