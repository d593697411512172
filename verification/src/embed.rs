//! The report in the shape of a rich chat embed, as plain values, and its
//! one-for-one conversion to the chat model's embed type.

use vstd::prelude::*;

use twilight_model::channel::message::embed::{
    EmbedAuthor, EmbedField, EmbedFooter, EmbedImage, EmbedProvider, EmbedThumbnail, EmbedVideo,
};
use twilight_model::channel::message::Embed;
use twilight_model::util::Timestamp;

use crate::actions::option_string_view;

verus! {

#[verifier::external_type_specification]
#[verifier::external_body]
pub struct ExEmbed(twilight_model::channel::message::Embed);

/// The author line of an embed.
#[derive(Clone, Debug, PartialEq, Eq)]
pub struct ReportEmbedAuthor {
    pub icon_url: Option<String>,
    pub name: String,
    pub proxy_icon_url: Option<String>,
    pub url: Option<String>,
}

/// The footer of an embed.
#[derive(Clone, Debug, PartialEq, Eq)]
pub struct ReportEmbedFooter {
    pub icon_url: Option<String>,
    pub proxy_icon_url: Option<String>,
    pub text: String,
}

/// A named field of an embed.
#[derive(Clone, Debug, PartialEq, Eq)]
pub struct ReportEmbedField {
    pub inline: bool,
    pub name: String,
    pub value: String,
}

/// An image or thumbnail of an embed.
#[derive(Clone, Debug, PartialEq, Eq)]
pub struct ReportEmbedImage {
    pub height: Option<u64>,
    pub proxy_url: Option<String>,
    pub url: String,
    pub width: Option<u64>,
}

/// The provider of an embed.
#[derive(Clone, Debug, PartialEq, Eq)]
pub struct ReportEmbedProvider {
    pub name: Option<String>,
    pub url: Option<String>,
}

/// A video of an embed.
#[derive(Clone, Debug, PartialEq, Eq)]
pub struct ReportEmbedVideo {
    pub height: Option<u64>,
    pub proxy_url: Option<String>,
    pub url: Option<String>,
    pub width: Option<u64>,
}

/// A rich chat embed, part for part.
#[derive(Clone, Debug, PartialEq, Eq)]
pub struct ReportEmbed {
    pub author: Option<ReportEmbedAuthor>,
    pub color: Option<u32>,
    pub description: Option<String>,
    pub fields: Vec<ReportEmbedField>,
    pub footer: Option<ReportEmbedFooter>,
    pub image: Option<ReportEmbedImage>,
    pub kind: String,
    pub provider: Option<ReportEmbedProvider>,
    pub thumbnail: Option<ReportEmbedImage>,
    /// Seconds from the Unix epoch.
    pub timestamp_secs: Option<i64>,
    pub title: Option<String>,
    pub url: Option<String>,
    pub video: Option<ReportEmbedVideo>,
}

pub struct AuthorView {
    pub icon_url: Option<Seq<char>>,
    pub name: Seq<char>,
    pub proxy_icon_url: Option<Seq<char>>,
    pub url: Option<Seq<char>>,
}

pub struct FooterView {
    pub icon_url: Option<Seq<char>>,
    pub proxy_icon_url: Option<Seq<char>>,
    pub text: Seq<char>,
}

pub struct FieldView {
    pub inline: bool,
    pub name: Seq<char>,
    pub value: Seq<char>,
}

pub struct ImageView {
    pub height: Option<u64>,
    pub proxy_url: Option<Seq<char>>,
    pub url: Seq<char>,
    pub width: Option<u64>,
}

pub struct ProviderView {
    pub name: Option<Seq<char>>,
    pub url: Option<Seq<char>>,
}

pub struct VideoView {
    pub height: Option<u64>,
    pub proxy_url: Option<Seq<char>>,
    pub url: Option<Seq<char>>,
    pub width: Option<u64>,
}

/// The mathematical value of a [`ReportEmbed`].
pub struct ReportEmbedView {
    pub author: Option<AuthorView>,
    pub color: Option<u32>,
    pub description: Option<Seq<char>>,
    pub fields: Seq<FieldView>,
    pub footer: Option<FooterView>,
    pub image: Option<ImageView>,
    pub kind: Seq<char>,
    pub provider: Option<ProviderView>,
    pub thumbnail: Option<ImageView>,
    pub timestamp_secs: Option<i64>,
    pub title: Option<Seq<char>>,
    pub url: Option<Seq<char>>,
    pub video: Option<VideoView>,
}

impl View for ReportEmbedAuthor {
    type V = AuthorView;

    open spec fn view(&self) -> AuthorView {
        AuthorView {
            icon_url: option_string_view(self.icon_url),
            name: self.name@,
            proxy_icon_url: option_string_view(self.proxy_icon_url),
            url: option_string_view(self.url),
        }
    }
}

impl View for ReportEmbedFooter {
    type V = FooterView;

    open spec fn view(&self) -> FooterView {
        FooterView {
            icon_url: option_string_view(self.icon_url),
            proxy_icon_url: option_string_view(self.proxy_icon_url),
            text: self.text@,
        }
    }
}

impl View for ReportEmbedField {
    type V = FieldView;

    open spec fn view(&self) -> FieldView {
        FieldView { inline: self.inline, name: self.name@, value: self.value@ }
    }
}

impl View for ReportEmbedImage {
    type V = ImageView;

    open spec fn view(&self) -> ImageView {
        ImageView {
            height: self.height,
            proxy_url: option_string_view(self.proxy_url),
            url: self.url@,
            width: self.width,
        }
    }
}

impl View for ReportEmbedProvider {
    type V = ProviderView;

    open spec fn view(&self) -> ProviderView {
        ProviderView { name: option_string_view(self.name), url: option_string_view(self.url) }
    }
}

impl View for ReportEmbedVideo {
    type V = VideoView;

    open spec fn view(&self) -> VideoView {
        VideoView {
            height: self.height,
            proxy_url: option_string_view(self.proxy_url),
            url: option_string_view(self.url),
            width: self.width,
        }
    }
}

impl View for ReportEmbed {
    type V = ReportEmbedView;

    open spec fn view(&self) -> ReportEmbedView {
        ReportEmbedView {
            author: match self.author {
                Some(a) => Some(a@),
                None => None,
            },
            color: self.color,
            description: option_string_view(self.description),
            fields: self.fields@.map_values(|f: ReportEmbedField| f@),
            footer: match self.footer {
                Some(f) => Some(f@),
                None => None,
            },
            image: match self.image {
                Some(i) => Some(i@),
                None => None,
            },
            kind: self.kind@,
            provider: match self.provider {
                Some(p) => Some(p@),
                None => None,
            },
            thumbnail: match self.thumbnail {
                Some(i) => Some(i@),
                None => None,
            },
            timestamp_secs: self.timestamp_secs,
            title: option_string_view(self.title),
            url: option_string_view(self.url),
            video: match self.video {
                Some(v) => Some(v@),
                None => None,
            },
        }
    }
}

/// Converts `e` to the chat model's `Embed`, part for part and field for
/// field; the timestamp through `Timestamp::from_secs`. Used by the wrapper
/// that builds the request posting the embed.
#[verifier::external_body]
pub(crate) fn twilight_embed(e: ReportEmbed) -> Embed {
    let author = e.author.map(|ReportEmbedAuthor { icon_url, name, proxy_icon_url, url }| EmbedAuthor { icon_url, name, proxy_icon_url, url });
    let footer = e.footer.map(|ReportEmbedFooter { icon_url, proxy_icon_url, text }| EmbedFooter { icon_url, proxy_icon_url, text });
    let timestamp = e.timestamp_secs.map(Timestamp::from_secs).and_then(Result::ok);
    let embed = Embed { author, color: e.color, description: e.description, fields: Vec::new(), footer, image: None, kind: e.kind, provider: None, thumbnail: None, timestamp, title: e.title, url: e.url, video: None };
    with_fields_and_media(embed, e.fields, e.image, e.provider, e.thumbnail, e.video)
}

/// Sets the fields, image, provider, thumbnail and video of `embed` to the
/// given parts, converted field for field to the chat model's types.
#[verifier::external_body]
fn with_fields_and_media(
    mut embed: Embed,
    fields: Vec<ReportEmbedField>,
    image: Option<ReportEmbedImage>,
    provider: Option<ReportEmbedProvider>,
    thumbnail: Option<ReportEmbedImage>,
    video: Option<ReportEmbedVideo>,
) -> Embed {
    embed.fields = fields.into_iter().map(|ReportEmbedField { inline, name, value }| EmbedField { inline, name, value }).collect();
    embed.image = image.map(|ReportEmbedImage { height, proxy_url, url, width }| EmbedImage { height, proxy_url, url, width });
    embed.provider = provider.map(|ReportEmbedProvider { name, url }| EmbedProvider { name, url });
    embed.thumbnail = thumbnail.map(|ReportEmbedImage { height, proxy_url, url, width }| EmbedThumbnail { height, proxy_url, url, width });
    embed.video = video.map(|ReportEmbedVideo { height, proxy_url, url, width }| EmbedVideo { height, proxy_url, url, width });
    embed
}

} // verus!
