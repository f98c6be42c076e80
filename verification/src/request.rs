use vstd::prelude::*;

use crate::media::{
    is_form_data, is_json, is_urlencoded, spec_is_form_data, spec_is_json, spec_is_urlencoded,
    MediaType, MediaTypeView,
};

verus! {

/// The media type of an optional `Content-Type`.
pub open spec fn content_type_view(content_type: Option<&MediaType>) -> Option<MediaTypeView> {
    match content_type {
        Some(m) => Some(m@),
        None => None,
    }
}

/// A request carries a JSON body when its `Content-Type` is JSON.
pub open spec fn spec_is_json_body(ct: Option<MediaTypeView>) -> bool {
    ct matches Some(m) && spec_is_json(m)
}

/// A request carries a URL-encoded body when its `Content-Type` is URL-encoded.
pub open spec fn spec_is_urlencoded_body(ct: Option<MediaTypeView>) -> bool {
    ct matches Some(m) && spec_is_urlencoded(m)
}

/// A request carries a multipart form body when its `Content-Type` is form data.
pub open spec fn spec_is_form_data_body(ct: Option<MediaTypeView>) -> bool {
    ct matches Some(m) && spec_is_form_data(m)
}

/// A request without `Content-Type` has no body of any kind; with one, the
/// kind is decided by its top and sub levels alone, whatever its
/// parameters.
pub proof fn lemma_body_kind_of_request(ct: Option<MediaTypeView>)
    ensures
        spec_is_json_body(ct) <==> (ct matches Some(m) && m.top is Application && m.sub is Json),
        spec_is_urlencoded_body(ct) <==> (ct matches Some(m) && m.top is Application
            && m.sub is WwwFormUrlEncoded),
        spec_is_form_data_body(ct) <==> (ct matches Some(m) && m.top is Multipart
            && m.sub is FormData),
{
}

/// Whether a request with this `Content-Type` carries a JSON body; a
/// request without one does not.
pub fn is_json_body(content_type: Option<&MediaType>) -> (r: bool)
    ensures
        r == spec_is_json_body(content_type_view(content_type)),
{
    match content_type {
        Some(m) => is_json(m),
        None => false,
    }
}

/// Whether a request with this `Content-Type` carries a URL-encoded form
/// body; a request without one does not.
pub fn is_urlencoded_body(content_type: Option<&MediaType>) -> (r: bool)
    ensures
        r == spec_is_urlencoded_body(content_type_view(content_type)),
{
    match content_type {
        Some(m) => is_urlencoded(m),
        None => false,
    }
}

/// Whether a request with this `Content-Type` carries a multipart form
/// body; a request without one does not.
pub fn is_form_data_body(content_type: Option<&MediaType>) -> (r: bool)
    ensures
        r == spec_is_form_data_body(content_type_view(content_type)),
{
    match content_type {
        Some(m) => is_form_data(m),
        None => false,
    }
}

} // verus!
