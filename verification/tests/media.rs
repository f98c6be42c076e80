use rustless::{
    is_form_data, is_form_data_body, is_json, is_json_body, is_urlencoded, is_urlencoded_body,
    media_captures, Format, Media, MediaType, SubLevel, TopLevel,
};

fn mt(top: TopLevel, sub: SubLevel) -> MediaType {
    MediaType { top, sub, params: vec![] }
}

fn app_ext(ext: &str) -> MediaType {
    mt(TopLevel::Application, SubLevel::Ext(ext.to_string()))
}

#[test]
fn asset_regexp() {
    let captures = media_captures("application/vnd.github.v3.raw+json").unwrap();
    assert_eq!(captures.vendor, "github");
    assert_eq!(captures.version.unwrap(), "v3");
    assert_eq!(captures.param.unwrap(), "raw");
    assert_eq!(captures.format.unwrap(), "json");

    let captures = media_captures("application/vnd.github.v3+json").unwrap();
    assert_eq!(captures.vendor, "github");
    assert_eq!(captures.version.unwrap(), "v3");
    assert_eq!(captures.param, None);
    assert_eq!(captures.format.unwrap(), "json");

    let captures = media_captures("application/vnd.github+json").unwrap();
    assert_eq!(captures.vendor, "github");
    assert_eq!(captures.version, None);
    assert_eq!(captures.param, None);
    assert_eq!(captures.format.unwrap(), "json");

    let captures = media_captures("application/vnd.github").unwrap();
    assert_eq!(captures.vendor, "github");
    assert_eq!(captures.version, None);
    assert_eq!(captures.param, None);
    assert_eq!(captures.format, None);

    let captures = media_captures("application/vnd");
    assert!(captures.is_none());
}

#[test]
fn assert_media() {
    match Media::from_mime(&mt(TopLevel::Application, SubLevel::Json)).format {
        Format::JsonFormat => (),
        _ => panic!("Wrong format"),
    }

    match Media::from_mime(&mt(TopLevel::Text, SubLevel::Plain)).format {
        Format::PlainTextFormat => (),
        _ => panic!("Wrong format"),
    }

    match Media::from_mime(&mt(TopLevel::Application, SubLevel::OctetStream)).format {
        Format::OtherFormat(_) => (),
        _ => panic!("Wrong format"),
    }
}

#[test]
fn body_kinds_are_recognised() {
    let json = mt(TopLevel::Application, SubLevel::Json);
    let form = mt(TopLevel::Application, SubLevel::WwwFormUrlEncoded);
    let multipart = mt(TopLevel::Multipart, SubLevel::FormData);
    assert!(is_json(&json) && !is_urlencoded(&json) && !is_form_data(&json));
    assert!(!is_json(&form) && is_urlencoded(&form) && !is_form_data(&form));
    assert!(!is_json(&multipart) && !is_urlencoded(&multipart) && is_form_data(&multipart));
    // The sub level alone does not decide.
    assert!(!is_json(&mt(TopLevel::Text, SubLevel::Json)));
    assert!(!is_form_data(&mt(TopLevel::Application, SubLevel::FormData)));
    // A sub level written out as a name of its own is not the known one.
    assert!(!is_json(&app_ext("json")));
}

#[test]
fn body_kinds_of_requests() {
    let json = mt(TopLevel::Application, SubLevel::Json);
    let form = mt(TopLevel::Application, SubLevel::WwwFormUrlEncoded);
    let multipart = mt(TopLevel::Multipart, SubLevel::FormData);
    assert!(is_json_body(Some(&json)));
    assert!(!is_json_body(Some(&form)));
    assert!(!is_json_body(None));
    assert!(is_urlencoded_body(Some(&form)));
    assert!(!is_urlencoded_body(None));
    assert!(is_form_data_body(Some(&multipart)));
    assert!(!is_form_data_body(Some(&json)));
    assert!(!is_form_data_body(None));
}

#[test]
fn other_format_keeps_the_media_type() {
    let mut html = mt(TopLevel::Text, SubLevel::Html);
    html.params.push(("charset".to_string(), "utf-8".to_string()));
    match Format::from_mime(&html) {
        Format::OtherFormat(m) => {
            assert!(matches!(m.top, TopLevel::Text));
            assert!(matches!(m.sub, SubLevel::Html));
            assert_eq!(m.params, vec![("charset".to_string(), "utf-8".to_string())]);
        },
        _ => panic!("Wrong format"),
    }
    // text/plain with parameters is still plain text.
    let mut plain = mt(TopLevel::Text, SubLevel::Plain);
    plain.params.push(("charset".to_string(), "utf-8".to_string()));
    assert!(matches!(Format::from_mime(&plain), Format::PlainTextFormat));
}

#[test]
fn media_type_clone_is_equal() {
    let mut m = mt(TopLevel::Ext("x-top".to_string()), SubLevel::Ext("x-sub".to_string()));
    m.params.push(("q".to_string(), "0.5".to_string()));
    let c = m.clone();
    assert!(matches!(&c.top, TopLevel::Ext(s) if s == "x-top"));
    assert!(matches!(&c.sub, SubLevel::Ext(s) if s == "x-sub"));
    assert_eq!(c.params, m.params);
}

#[test]
fn default_media_is_plain_text() {
    let media = Media::default();
    assert_eq!(media.vendor, "default");
    assert_eq!(media.version, None);
    assert_eq!(media.param, None);
    assert!(matches!(media.format, Format::PlainTextFormat));
}

#[test]
fn media_from_mime_uses_default_vendor() {
    let media = Media::from_mime(&mt(TopLevel::Application, SubLevel::Json));
    assert_eq!(media.vendor, "default");
    assert_eq!(media.version, None);
    assert_eq!(media.param, None);
    assert!(matches!(media.format, Format::JsonFormat));
}

#[test]
fn vendor_media_with_json_format() {
    let media = Media::from_vendor(&app_ext("vnd.github.v3+json")).unwrap();
    assert_eq!(media.vendor, "github");
    assert_eq!(media.version.as_deref(), Some("v3"));
    assert_eq!(media.param, None);
    assert!(matches!(media.format, Format::JsonFormat));
}

#[test]
fn vendor_media_with_txt_format() {
    let media = Media::from_vendor(&app_ext("vnd.acme.v1.full+txt")).unwrap();
    assert_eq!(media.vendor, "acme");
    assert_eq!(media.version.as_deref(), Some("v1"));
    assert_eq!(media.param.as_deref(), Some("full"));
    assert!(matches!(media.format, Format::PlainTextFormat));
}

#[test]
fn vendor_media_with_other_or_no_format() {
    let mime = app_ext("vnd.acme+xml");
    let media = Media::from_vendor(&mime).unwrap();
    match media.format {
        Format::OtherFormat(m) => {
            assert!(matches!(m.top, TopLevel::Application));
            assert!(matches!(&m.sub, SubLevel::Ext(s) if s == "vnd.acme+xml"));
        },
        _ => panic!("Wrong format"),
    }
    let media = Media::from_vendor(&app_ext("vnd.acme")).unwrap();
    assert_eq!(media.vendor, "acme");
    assert!(matches!(media.format, Format::OtherFormat(_)));
    // The format name is compared exactly.
    let media = Media::from_vendor(&app_ext("vnd.acme+JSON")).unwrap();
    assert!(matches!(media.format, Format::OtherFormat(_)));
}

#[test]
fn vendor_media_needs_application_ext() {
    assert!(Media::from_vendor(&mt(TopLevel::Text, SubLevel::Ext("vnd.github+json".to_string()))).is_none());
    assert!(Media::from_vendor(&mt(TopLevel::Application, SubLevel::Json)).is_none());
    assert!(Media::from_vendor(&app_ext("x-custom")).is_none());
    assert!(Media::from_vendor(&app_ext("vnd.")).is_none());
    assert!(Media::from_vendor(&app_ext("vnd.1abc")).is_none());
}

#[test]
fn captures_take_the_leftmost_occurrence() {
    let c = media_captures("xvnd.1vnd.ok").unwrap();
    assert_eq!(c.vendor, "ok");
    let c = media_captures("vnd.a vnd.b").unwrap();
    assert_eq!(c.vendor, "a");
    let c = media_captures("vnd.vnd.x").unwrap();
    assert_eq!(c.vendor, "vnd");
    assert_eq!(c.version.as_deref(), Some("x"));
}

#[test]
fn captures_components_run_as_far_as_they_go() {
    let c = media_captures("vnd.my-api_x.v2.full.more+json").unwrap();
    assert_eq!(c.vendor, "my-api_x");
    assert_eq!(c.version.as_deref(), Some("v2"));
    assert_eq!(c.param.as_deref(), Some("full"));
    // `.more` is no component, so no format follows it.
    assert_eq!(c.format, None);
    let c = media_captures("vnd.a.+json").unwrap();
    assert_eq!(c.vendor, "a");
    assert_eq!(c.version, None);
    assert_eq!(c.format, None);
    let c = media_captures("vnd.a+").unwrap();
    assert_eq!(c.format, None);
}

#[test]
fn captures_handle_non_ascii_text() {
    let c = media_captures("é/vnd.a.ü").unwrap();
    assert_eq!(c.vendor, "a");
    assert_eq!(c.version, None);
    assert!(media_captures("vnd.ß").is_none());
    let c = media_captures("ü vnd.x.y+z ü").unwrap();
    assert_eq!(c.vendor, "x");
    assert_eq!(c.version.as_deref(), Some("y"));
    assert_eq!(c.format.as_deref(), Some("z"));
}

#[test]
fn rendered_components_parse_back() {
    let c = media_captures("vnd.my-api.v2.compact+json").unwrap();
    assert_eq!(c.vendor, "my-api");
    assert_eq!(c.version.as_deref(), Some("v2"));
    assert_eq!(c.param.as_deref(), Some("compact"));
    assert_eq!(c.format.as_deref(), Some("json"));
    let c = media_captures("vnd.only+fmt").unwrap();
    assert_eq!(c.vendor, "only");
    assert_eq!(c.version, None);
    assert_eq!(c.param, None);
    assert_eq!(c.format.as_deref(), Some("fmt"));
}
