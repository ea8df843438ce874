use vstd::prelude::*;

use crate::text::str_equals;

verus! {

/// The MIME type served for a file with the given extension; an unknown or
/// absent extension gives `text/plain`. Extensions match case-sensitively.
pub open spec fn content_type_of(extension: Option<Seq<char>>) -> Seq<char> {
    match extension {
        Some(e) => if e == "html"@ {
            "text/html"@
        } else if e == "js"@ {
            "application/javascript"@
        } else if e == "css"@ {
            "text/css"@
        } else if e == "json"@ {
            "application/json"@
        } else if e == "png"@ {
            "image/png"@
        } else if e == "jpg"@ {
            "image/jpg"@
        } else if e == "svg"@ {
            "image/svg+xml"@
        } else if e == "wasm"@ {
            "application/wasm"@
        } else if e == "pdf"@ {
            "application/pdf"@
        } else if e == "docx"@ {
            "application/vnd.openxmlformats-officedocument.wordprocessingml.document"@
        } else {
            "text/plain"@
        },
        None => "text/plain"@,
    }
}

/// Maps a file extension to the `Content-Type` it is served with.
pub fn get_content_type(extension: Option<&str>) -> (r: &'static str)
    ensures
        r@ == content_type_of(
            match extension {
                Some(e) => Some(e@),
                None => None,
            },
        ),
{
    match extension {
        Some(v) => {
            if str_equals(v, "html") {
                "text/html"
            } else if str_equals(v, "js") {
                "application/javascript"
            } else if str_equals(v, "css") {
                "text/css"
            } else if str_equals(v, "json") {
                "application/json"
            } else if str_equals(v, "png") {
                "image/png"
            } else if str_equals(v, "jpg") {
                "image/jpg"
            } else if str_equals(v, "svg") {
                "image/svg+xml"
            } else if str_equals(v, "wasm") {
                "application/wasm"
            } else if str_equals(v, "pdf") {
                "application/pdf"
            } else if str_equals(v, "docx") {
                "application/vnd.openxmlformats-officedocument.wordprocessingml.document"
            } else {
                "text/plain"
            }
        },
        None => "text/plain",
    }
}

} // verus!
