//! Rendering of an entity in the wire formats the service offers.

use crate::decimal::{decimal, signed_text};
use crate::entity::{Entity, EntityView};
use crate::error::{viewed, Error};
use crate::response::{Asset, Body, BodyView, MediaType, Response, ResponseView, Status};
use crate::text::same_text;
use vstd::prelude::*;
use vstd::string::*;

verus! {

/// The renderings a client can ask for.
#[derive(Clone, Copy, Debug, PartialEq, Eq, Structural)]
pub enum Format {
    Png,
    Jpg,
    Gif,
    Svg,
    Json,
    Txt,
}

/// The format a tag selects. Tags are matched exactly; any other text
/// selects nothing.
pub open spec fn format_of(tag: Seq<char>) -> Option<Format> {
    if tag == "png"@ {
        Some(Format::Png)
    } else if tag == "jpg"@ {
        Some(Format::Jpg)
    } else if tag == "gif"@ {
        Some(Format::Gif)
    } else if tag == "svg"@ {
        Some(Format::Svg)
    } else if tag == "json"@ {
        Some(Format::Json)
    } else if tag == "txt"@ {
        Some(Format::Txt)
    } else {
        None
    }
}

/// Each of the six tags selects the format of its name, and no text of
/// another length than theirs selects any.
pub proof fn lemma_format_tags()
    ensures
        format_of("png"@) == Some(Format::Png),
        format_of("jpg"@) == Some(Format::Jpg),
        format_of("gif"@) == Some(Format::Gif),
        format_of("svg"@) == Some(Format::Svg),
        format_of("json"@) == Some(Format::Json),
        format_of("txt"@) == Some(Format::Txt),
        forall|tag: Seq<char>| tag.len() != 3 && tag.len() != 4 ==> format_of(tag) is None,
{
    reveal_strlit("png");
    reveal_strlit("jpg");
    reveal_strlit("gif");
    reveal_strlit("svg");
    reveal_strlit("json");
    reveal_strlit("txt");
    let first = |tag: Seq<char>| tag[0];
    assert(first("png"@) == 'p');
    assert(first("jpg"@) == 'j');
    assert(first("gif"@) == 'g');
    assert(first("svg"@) == 's');
    assert(first("txt"@) == 't');
    assert("json"@.len() == 4);
}

/// The empty vector image served for the `svg` format.
pub open spec fn svg_placeholder() -> Seq<char> {
    "<svg xmlns=\"http://www.w3.org/2000/svg\"/>"@
}

/// The content type announced for a format. The JPEG image is announced
/// as `image/png`, like the PNG one.
pub open spec fn media_type_of(format: Format) -> MediaType {
    match format {
        Format::Png => MediaType::Png,
        Format::Jpg => MediaType::Png,
        Format::Gif => MediaType::Gif,
        Format::Svg => MediaType::Svg,
        Format::Json => MediaType::Json,
        Format::Txt => MediaType::PlainText,
    }
}

/// The content of a rendering. Only the two textual formats show the
/// value, as its decimal notation; the image formats are fixed placeholders
/// that look the same for every entity.
pub open spec fn body_of(value: i64, format: Format) -> BodyView {
    match format {
        Format::Png => BodyView::Asset(Asset::Png),
        Format::Jpg => BodyView::Asset(Asset::Jpg),
        Format::Gif => BodyView::Asset(Asset::Gif),
        Format::Svg => BodyView::Text(svg_placeholder()),
        Format::Json => BodyView::Text(decimal(value as int)),
        Format::Txt => BodyView::Text(decimal(value as int)),
    }
}

/// The rendering of an entity in a format: a success that announces the
/// format's content type, carries the format's content, and is dated with
/// the entity's last write.
pub open spec fn rendering(entity: EntityView, format: Format) -> ResponseView {
    ResponseView {
        status: Status::Success,
        content_type: Some(media_type_of(format)),
        location: None,
        last_modified: Some(entity.updated_at),
        body: body_of(entity.value, format),
    }
}

/// What rendering under a tag yields: the rendering in the selected format,
/// or `UnsupportedFormat` when the tag selects none.
pub open spec fn rendering_by_tag(entity: EntityView, tag: Seq<char>) -> Result<
    ResponseView,
    Error,
> {
    match format_of(tag) {
        Some(format) => Ok(rendering(entity, format)),
        None => Err(Error::UnsupportedFormat),
    }
}

/// The text of a metric exposition: a type declaration line, then one
/// sample named after the identifier.
pub open spec fn exposition(entity: EntityView) -> Seq<char> {
    "# TYPE "@ + entity.id + " "@ + entity.kind.spec_label() + "\n"@ + entity.id + "_count "@
        + decimal(entity.value as int)
}

/// The metric exposition of an entity as a response.
pub open spec fn open_metrics(entity: EntityView) -> ResponseView {
    ResponseView {
        status: Status::Success,
        content_type: Some(MediaType::OpenMetrics),
        location: None,
        last_modified: Some(entity.updated_at),
        body: BodyView::Text(exposition(entity)),
    }
}

impl Format {
    /// Reads a format tag.
    pub fn parse(tag: &str) -> (format: Option<Format>)
        ensures
            format == format_of(tag@),
    {
        if same_text(tag, "png") {
            Some(Format::Png)
        } else if same_text(tag, "jpg") {
            Some(Format::Jpg)
        } else if same_text(tag, "gif") {
            Some(Format::Gif)
        } else if same_text(tag, "svg") {
            Some(Format::Svg)
        } else if same_text(tag, "json") {
            Some(Format::Json)
        } else if same_text(tag, "txt") {
            Some(Format::Txt)
        } else {
            None
        }
    }

    /// The content type announced for the format.
    pub fn media_type(self) -> (media: MediaType)
        ensures
            media == media_type_of(self),
    {
        match self {
            Format::Png => MediaType::Png,
            Format::Jpg => MediaType::Png,
            Format::Gif => MediaType::Gif,
            Format::Svg => MediaType::Svg,
            Format::Json => MediaType::Json,
            Format::Txt => MediaType::PlainText,
        }
    }
}

/// Renders `entity` in `format`.
pub fn render_as(entity: &Entity, format: Format) -> (response: Response)
    ensures
        response@ == rendering(entity@, format),
{
    let body = match format {
        Format::Png => Body::Asset(Asset::Png),
        Format::Jpg => Body::Asset(Asset::Jpg),
        Format::Gif => Body::Asset(Asset::Gif),
        Format::Svg => Body::Text("<svg xmlns=\"http://www.w3.org/2000/svg\"/>".to_owned()),
        Format::Json => Body::Text(signed_text(entity.value())),
        Format::Txt => Body::Text(signed_text(entity.value())),
    };
    Response {
        status: Status::Success,
        content_type: Some(format.media_type()),
        location: None,
        last_modified: Some(entity.updated_at()),
        body,
    }
}

/// Renders `entity` in the format that `tag` selects, and fails with
/// `UnsupportedFormat` exactly when the tag selects none.
pub fn render(entity: &Entity, tag: &str) -> (result: Result<Response, Error>)
    ensures
        viewed(result) == rendering_by_tag(entity@, tag@),
{
    match Format::parse(tag) {
        Some(format) => Ok(render_as(entity, format)),
        None => Err(Error::UnsupportedFormat),
    }
}

/// Renders `entity` as a metric exposition.
pub fn render_open_metrics(entity: &Entity) -> (response: Response)
    ensures
        response@ == open_metrics(entity@),
{
    let mut text = "# TYPE ".to_owned();
    text.append(entity.id());
    text.append(" ");
    text.append(entity.kind().label());
    text.append("\n");
    text.append(entity.id());
    text.append("_count ");
    let value = signed_text(entity.value());
    text.append(value.as_str());
    Response {
        status: Status::Success,
        content_type: Some(MediaType::OpenMetrics),
        location: None,
        last_modified: Some(entity.updated_at()),
        body: Body::Text(text),
    }
}

} // verus!
