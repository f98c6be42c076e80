use vstd::prelude::*;

use crate::vendor::{
    lemma_render_then_parse, lemma_vendor_parts_well_formed, media_captures, opt_string_chars,
    render_vendor_parts, vendor_parts, well_formed_parts, VendorCaptures, VendorParts,
};

verus! {

/// The top-level part of a media type (`application` in `application/json`).
#[derive(Debug)]
pub enum TopLevel {
    Star,
    Text,
    Image,
    Audio,
    Video,
    Application,
    Multipart,
    Message,
    Model,
    Ext(String),
}

/// The sub-level part of a media type (`json` in `application/json`).
#[derive(Debug)]
pub enum SubLevel {
    Star,
    Plain,
    Html,
    Xml,
    Javascript,
    Css,
    EventStream,
    Json,
    WwwFormUrlEncoded,
    Msgpack,
    OctetStream,
    FormData,
    Png,
    Gif,
    Bmp,
    Jpeg,
    Mpeg,
    Mp4,
    Ogg,
    Ext(String),
}

/// A media type: top level, sub level and its parameters as
/// (attribute, value) pairs.
#[derive(Debug)]
pub struct MediaType {
    pub top: TopLevel,
    pub sub: SubLevel,
    pub params: Vec<(String, String)>,
}

/// What a media type is, for contracts: its parameters as a sequence.
pub struct MediaTypeView {
    pub top: TopLevel,
    pub sub: SubLevel,
    pub params: Seq<(String, String)>,
}

impl View for MediaType {
    type V = MediaTypeView;

    open spec fn view(&self) -> MediaTypeView {
        MediaTypeView { top: self.top, sub: self.sub, params: self.params@ }
    }
}

impl Clone for TopLevel {
    fn clone(&self) -> (r: Self)
        ensures
            r == *self,
    {
        match self {
            TopLevel::Star => TopLevel::Star,
            TopLevel::Text => TopLevel::Text,
            TopLevel::Image => TopLevel::Image,
            TopLevel::Audio => TopLevel::Audio,
            TopLevel::Video => TopLevel::Video,
            TopLevel::Application => TopLevel::Application,
            TopLevel::Multipart => TopLevel::Multipart,
            TopLevel::Message => TopLevel::Message,
            TopLevel::Model => TopLevel::Model,
            TopLevel::Ext(s) => TopLevel::Ext(s.clone()),
        }
    }
}

impl Clone for SubLevel {
    fn clone(&self) -> (r: Self)
        ensures
            r == *self,
    {
        match self {
            SubLevel::Star => SubLevel::Star,
            SubLevel::Plain => SubLevel::Plain,
            SubLevel::Html => SubLevel::Html,
            SubLevel::Xml => SubLevel::Xml,
            SubLevel::Javascript => SubLevel::Javascript,
            SubLevel::Css => SubLevel::Css,
            SubLevel::EventStream => SubLevel::EventStream,
            SubLevel::Json => SubLevel::Json,
            SubLevel::WwwFormUrlEncoded => SubLevel::WwwFormUrlEncoded,
            SubLevel::Msgpack => SubLevel::Msgpack,
            SubLevel::OctetStream => SubLevel::OctetStream,
            SubLevel::FormData => SubLevel::FormData,
            SubLevel::Png => SubLevel::Png,
            SubLevel::Gif => SubLevel::Gif,
            SubLevel::Bmp => SubLevel::Bmp,
            SubLevel::Jpeg => SubLevel::Jpeg,
            SubLevel::Mpeg => SubLevel::Mpeg,
            SubLevel::Mp4 => SubLevel::Mp4,
            SubLevel::Ogg => SubLevel::Ogg,
            SubLevel::Ext(s) => SubLevel::Ext(s.clone()),
        }
    }
}

impl Clone for MediaType {
    fn clone(&self) -> (r: Self)
        ensures
            r@ == self@,
    {
        let mut params: Vec<(String, String)> = Vec::new();
        let mut i: usize = 0;
        while i < self.params.len()
            invariant
                i <= self.params@.len(),
                params@ == self.params@.subrange(0, i as int),
            decreases self.params@.len() - i,
        {
            let (attr, value) = &self.params[i];
            params.push((attr.clone(), value.clone()));
            i = i + 1;
        }
        assert(params@ =~= self.params@);
        MediaType { top: self.top.clone(), sub: self.sub.clone(), params }
    }
}

/// `application/json`, whatever its parameters.
pub open spec fn spec_is_json(m: MediaTypeView) -> bool {
    m.top is Application && m.sub is Json
}

/// `application/x-www-form-urlencoded`, whatever its parameters.
pub open spec fn spec_is_urlencoded(m: MediaTypeView) -> bool {
    m.top is Application && m.sub is WwwFormUrlEncoded
}

/// `multipart/form-data`, whatever its parameters.
pub open spec fn spec_is_form_data(m: MediaTypeView) -> bool {
    m.top is Multipart && m.sub is FormData
}

/// Whether `mime` is `application/json`.
pub fn is_json(mime: &MediaType) -> (r: bool)
    ensures
        r == spec_is_json(mime@),
{
    match (&mime.top, &mime.sub) {
        (TopLevel::Application, SubLevel::Json) => true,
        _ => false,
    }
}

/// Whether `mime` is `application/x-www-form-urlencoded`.
pub fn is_urlencoded(mime: &MediaType) -> (r: bool)
    ensures
        r == spec_is_urlencoded(mime@),
{
    match (&mime.top, &mime.sub) {
        (TopLevel::Application, SubLevel::WwwFormUrlEncoded) => true,
        _ => false,
    }
}

/// Whether `mime` is `multipart/form-data`.
pub fn is_form_data(mime: &MediaType) -> (r: bool)
    ensures
        r == spec_is_form_data(mime@),
{
    match (&mime.top, &mime.sub) {
        (TopLevel::Multipart, SubLevel::FormData) => true,
        _ => false,
    }
}

/// The format in which a response is written.
#[derive(Debug)]
pub enum Format {
    JsonFormat,
    PlainTextFormat,
    OtherFormat(MediaType),
}

pub enum FormatView {
    JsonFormat,
    PlainTextFormat,
    OtherFormat(MediaTypeView),
}

impl View for Format {
    type V = FormatView;

    open spec fn view(&self) -> FormatView {
        match self {
            Format::JsonFormat => FormatView::JsonFormat,
            Format::PlainTextFormat => FormatView::PlainTextFormat,
            Format::OtherFormat(m) => FormatView::OtherFormat(m@),
        }
    }
}

/// `text/plain` is plain text, `application/json` is JSON, and every other
/// media type is a format of its own, parameters included.
pub open spec fn format_of(m: MediaTypeView) -> FormatView {
    if m.top is Text && m.sub is Plain {
        FormatView::PlainTextFormat
    } else if m.top is Application && m.sub is Json {
        FormatView::JsonFormat
    } else {
        FormatView::OtherFormat(m)
    }
}

impl Format {
    /// The format that `mime` names.
    pub fn from_mime(mime: &MediaType) -> (r: Format)
        ensures
            r@ == format_of(mime@),
    {
        match (&mime.top, &mime.sub) {
            (TopLevel::Text, SubLevel::Plain) => Format::PlainTextFormat,
            (TopLevel::Application, SubLevel::Json) => Format::JsonFormat,
            _ => Format::OtherFormat(mime.clone()),
        }
    }
}

/// What a negotiated media is, for contracts.
pub struct MediaView {
    pub vendor: Seq<char>,
    pub version: Option<Seq<char>>,
    pub param: Option<Seq<char>>,
    pub format: FormatView,
}

/// A negotiated media: vendor, optional version and parameter, and format.
#[derive(Debug)]
pub struct Media {
    pub vendor: String,
    pub version: Option<String>,
    pub param: Option<String>,
    pub format: Format,
}

impl View for Media {
    type V = MediaView;

    open spec fn view(&self) -> MediaView {
        MediaView {
            vendor: self.vendor@,
            version: opt_string_chars(self.version),
            param: opt_string_chars(self.param),
            format: self.format@,
        }
    }
}

/// The vendor name given to a media that names none.
pub open spec fn default_vendor() -> Seq<char> {
    seq!['d', 'e', 'f', 'a', 'u', 'l', 't']
}

/// The media of a plain media type: default vendor, no version, no
/// parameter, and the format that the media type names.
pub open spec fn media_of(m: MediaTypeView) -> MediaView {
    MediaView { vendor: default_vendor(), version: None, param: None, format: format_of(m) }
}

impl Media {
    /// The media for `text/plain`.
    pub fn default() -> (r: Media)
        ensures
            r@ == (MediaView {
                vendor: default_vendor(),
                version: None,
                param: None,
                format: FormatView::PlainTextFormat,
            }),
    {
        Media::from_mime(&MediaType { top: TopLevel::Text, sub: SubLevel::Plain, params: Vec::new() })
    }

    /// The media for a plain media type.
    pub fn from_mime(mime: &MediaType) -> (r: Media)
        ensures
            r@ == media_of(mime@),
    {
        proof {
            reveal_strlit("default");
            assert("default"@ =~= default_vendor());
        }
        Media {
            vendor: "default".to_owned(),
            version: None,
            param: None,
            format: Format::from_mime(mime),
        }
    }
}

/// The format that a vendor media type names: `json` is JSON, `txt` is
/// plain text, and any other format, or none, is the format of the media
/// type itself.
pub open spec fn vendor_format(format: Option<Seq<char>>, m: MediaTypeView) -> FormatView {
    match format {
        Some(f) => if f == seq!['j', 's', 'o', 'n'] {
            FormatView::JsonFormat
        } else if f == seq!['t', 'x', 't'] {
            FormatView::PlainTextFormat
        } else {
            format_of(m)
        },
        None => format_of(m),
    }
}

/// The media of a vendor media type: for `application/<ext>` whose `<ext>`
/// holds a vendor media subtype, its vendor, version, parameter and format;
/// `None` for every other media type.
pub open spec fn vendor_media(m: MediaTypeView) -> Option<MediaView> {
    match m.sub {
        SubLevel::Ext(ext) => if m.top is Application {
            match vendor_parts(ext@) {
                Some(parts) => Some(
                    MediaView {
                        vendor: parts.vendor,
                        version: parts.version,
                        param: parts.param,
                        format: vendor_format(parts.format, m),
                    },
                ),
                None => None,
            }
        } else {
            None
        },
        _ => None,
    }
}

/// The view of an optional media.
pub open spec fn opt_media_view(o: Option<Media>) -> Option<MediaView> {
    match o {
        Some(media) => Some(media@),
        None => None,
    }
}

impl Media {
    /// The media that a vendor media type such as
    /// `application/vnd.github.v3.raw+json` names, or `None` where `mime`
    /// is no vendor media type.
    pub fn from_vendor(mime: &MediaType) -> (r: Option<Media>)
        ensures
            opt_media_view(r) == vendor_media(mime@),
    {
        match (&mime.top, &mime.sub) {
            (TopLevel::Application, SubLevel::Ext(ext)) => {
                match media_captures(ext.as_str()) {
                    Some(captures) => {
                        let VendorCaptures { vendor, version, param, format } = captures;
                        let format = match format {
                            Some(f) => {
                                proof {
                                    reveal_strlit("json");
                                    reveal_strlit("txt");
                                    assert("json"@ =~= seq!['j', 's', 'o', 'n']);
                                    assert("txt"@ =~= seq!['t', 'x', 't']);
                                }
                                if f == "json".to_owned() {
                                    Format::JsonFormat
                                } else if f == "txt".to_owned() {
                                    Format::PlainTextFormat
                                } else {
                                    Format::from_mime(mime)
                                }
                            },
                            None => Format::from_mime(mime),
                        };
                        Some(Media { vendor, version, param, format })
                    },
                    None => None,
                }
            },
            _ => None,
        }
    }
}

/// No media type is more than one of JSON, URL-encoded form and multipart
/// form: a request body is of one kind at most.
pub proof fn lemma_body_kinds_exclusive(m: MediaTypeView)
    ensures
        !(spec_is_json(m) && spec_is_urlencoded(m)),
        !(spec_is_json(m) && spec_is_form_data(m)),
        !(spec_is_urlencoded(m) && spec_is_form_data(m)),
{
}

/// The format of a media type is JSON exactly when the media type is
/// `application/json`, plain text exactly when it is `text/plain`, and
/// otherwise the media type itself.
pub proof fn lemma_format_agrees_with_kind(m: MediaTypeView)
    ensures
        format_of(m) is JsonFormat <==> spec_is_json(m),
        format_of(m) is PlainTextFormat <==> (m.top is Text && m.sub is Plain),
        format_of(m) is OtherFormat ==> format_of(m) == FormatView::OtherFormat(m),
{
}

/// A vendor media comes only from an `application/<ext>` media type; its
/// vendor name is never empty; and its format is JSON, plain text, or the
/// media type itself.
pub proof fn lemma_vendor_media_shape(m: MediaTypeView)
    ensures
        vendor_media(m) matches Some(v) ==> {
            &&& m.top is Application
            &&& m.sub is Ext
            &&& v.vendor.len() > 0
            &&& (v.format is JsonFormat || v.format is PlainTextFormat || v.format
                == FormatView::OtherFormat(m))
        },
{
    if let SubLevel::Ext(ext) = m.sub {
        lemma_vendor_parts_well_formed(ext@);
    }
}

/// For well-formed components written out as the sub level of an
/// `application/...` media type, the vendor media holds those components,
/// and its format is that which the format component names.
pub proof fn lemma_vendor_media_of_rendered(parts: VendorParts, ext: String, params: Seq<(String, String)>)
    requires
        well_formed_parts(parts),
        ext@ == render_vendor_parts(parts),
    ensures
        ({
            let m = MediaTypeView { top: TopLevel::Application, sub: SubLevel::Ext(ext), params };
            vendor_media(m) == Some(
                MediaView {
                    vendor: parts.vendor,
                    version: parts.version,
                    param: parts.param,
                    format: vendor_format(parts.format, m),
                },
            )
        }),
{
    lemma_render_then_parse(parts);
}

/// The kind of a body is decided by the top and sub levels alone:
/// JSON is `application/json`, URL-encoded is
/// `application/x-www-form-urlencoded`, form data is `multipart/form-data`,
/// whatever the parameters; and two media types with the same levels are
/// of the same kind, have formats of the same kind and media of the same
/// format kind.
pub proof fn lemma_kinds_ignore_params(m1: MediaTypeView, m2: MediaTypeView)
    requires
        m1.top == m2.top,
        m1.sub == m2.sub,
    ensures
        spec_is_json(m1) <==> (m1.top is Application && m1.sub is Json),
        spec_is_urlencoded(m1) <==> (m1.top is Application && m1.sub is WwwFormUrlEncoded),
        spec_is_form_data(m1) <==> (m1.top is Multipart && m1.sub is FormData),
        spec_is_json(m1) == spec_is_json(m2),
        spec_is_urlencoded(m1) == spec_is_urlencoded(m2),
        spec_is_form_data(m1) == spec_is_form_data(m2),
        (format_of(m1) is JsonFormat) == (format_of(m2) is JsonFormat),
        (format_of(m1) is PlainTextFormat) == (format_of(m2) is PlainTextFormat),
        (media_of(m1).format is JsonFormat) == (media_of(m2).format is JsonFormat),
        (media_of(m1).format is PlainTextFormat) == (media_of(m2).format is PlainTextFormat),
{
}

/// The media of a plain media type has the vendor name `default`, no
/// version and no parameter; its format is JSON exactly for
/// `application/json` and plain text exactly for `text/plain`, whatever the
/// parameters, and otherwise the media type itself.
pub proof fn lemma_media_of_format(m: MediaTypeView)
    ensures
        media_of(m).vendor == seq!['d', 'e', 'f', 'a', 'u', 'l', 't'],
        media_of(m).version is None,
        media_of(m).param is None,
        media_of(m).format is JsonFormat <==> (m.top is Application && m.sub is Json),
        media_of(m).format is PlainTextFormat <==> (m.top is Text && m.sub is Plain),
        !(m.top is Application && m.sub is Json) && !(m.top is Text && m.sub is Plain)
            ==> media_of(m).format == FormatView::OtherFormat(m),
{
}

/// The vendor media does not depend on the parameters of the media type:
/// two media types with the same levels both have a vendor media or both
/// lack one, with the same vendor, version and parameter, and formats of
/// the same kind; and a `json` format gives JSON, a `txt` format plain
/// text, whatever the parameters.
pub proof fn lemma_vendor_media_ignores_params(m1: MediaTypeView, m2: MediaTypeView)
    requires
        m1.top == m2.top,
        m1.sub == m2.sub,
    ensures
        vendor_media(m1) is Some <==> vendor_media(m2) is Some,
        vendor_media(m1) matches Some(v1) ==> vendor_media(m2) matches Some(v2) && {
            &&& v1.vendor == v2.vendor
            &&& v1.version == v2.version
            &&& v1.param == v2.param
            &&& (v1.format is JsonFormat) == (v2.format is JsonFormat)
            &&& (v1.format is PlainTextFormat) == (v2.format is PlainTextFormat)
        },
        m1.sub matches SubLevel::Ext(e) ==> (vendor_media(m1) matches Some(v) ==> {
            &&& vendor_parts(e@) matches Some(p)
            &&& (v.format is JsonFormat <==> p.format == Some(seq!['j', 's', 'o', 'n']))
            &&& (v.format is PlainTextFormat <==> p.format == Some(seq!['t', 'x', 't']))
        }),
{
}

/// A vendor media exists only for an `application/<ext>` media type, and
/// then exactly when `<ext>` holds a vendor media subtype; its vendor,
/// version and parameter are the components found there.
pub proof fn lemma_vendor_media_components(m: MediaTypeView)
    ensures
        !(m.top is Application && m.sub is Ext) ==> vendor_media(m) is None,
        m.sub matches SubLevel::Ext(e) ==> (m.top is Application ==> {
            &&& (vendor_media(m) is Some <==> vendor_parts(e@) is Some)
            &&& (vendor_media(m) matches Some(v) ==> (vendor_parts(e@) matches Some(p) && {
                &&& v.vendor == p.vendor
                &&& v.version == p.version
                &&& v.param == p.param
            }))
        }),
{
}

} // verus!
