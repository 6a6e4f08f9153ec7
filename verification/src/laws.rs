//! Relations between the builder operations.

use vstd::prelude::*;

use crate::form::PartView;
use crate::request::{
    accept_only_headers, form_data_ok_view, multipart_ok_view, negotiation_headers, HeaderView,
};

verus! {

/// Given identical form-data input, `try_new_multipart` and
/// `try_new_post_form_data` agree on everything but the headers: both succeed
/// exactly when `path` parses as a URL (so their success never depends on the
/// base server URL), and on success they produce the same method, the same
/// URL and the same multipart body. They differ only in the headers:
/// `try_new_post_form_data` attaches an explicit `Content-Type` header before
/// the `Accept` header, while `try_new_multipart` attaches the `Accept`
/// header alone.
pub proof fn lemma_multipart_form_data_agree(
    path: Seq<char>,
    accepts: Seq<char>,
    content_type: Seq<char>,
    form: Seq<PartView>,
)
    ensures
        multipart_ok_view(path, accepts, form).method == form_data_ok_view(
            path,
            accepts,
            content_type,
            form,
        ).method,
        multipart_ok_view(path, accepts, form).url == form_data_ok_view(
            path,
            accepts,
            content_type,
            form,
        ).url,
        multipart_ok_view(path, accepts, form).body == form_data_ok_view(
            path,
            accepts,
            content_type,
            form,
        ).body,
        multipart_ok_view(path, accepts, form).headers == accept_only_headers(accepts),
        form_data_ok_view(path, accepts, content_type, form).headers == negotiation_headers(
            content_type,
            accepts,
        ),
        negotiation_headers(content_type, accepts) == accept_only_headers(accepts).insert(
            0,
            HeaderView { name: "content-type"@, value: content_type },
        ),
{
    assert(negotiation_headers(content_type, accepts) =~= accept_only_headers(accepts).insert(
        0,
        HeaderView { name: "content-type"@, value: content_type },
    ));
}

} // verus!
