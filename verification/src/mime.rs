//! Export mime resolver: which interchange format a Drive-native document is
//! exported to, if any.

use vstd::prelude::*;
use crate::text::same_text;

verus! {

/// Mime type of a Drive-native spreadsheet.
pub open spec fn native_spreadsheet() -> Seq<char> {
    "application/vnd.google-apps.spreadsheet"@
}

/// Mime type of a Drive-native text document.
pub open spec fn native_document() -> Seq<char> {
    "application/vnd.google-apps.document"@
}

/// Mime type of a Drive-native drawing.
pub open spec fn native_drawing() -> Seq<char> {
    "application/vnd.google-apps.drawing"@
}

/// Mime type of a Drive-native presentation.
pub open spec fn native_presentation() -> Seq<char> {
    "application/vnd.google-apps.presentation"@
}

/// Whether a mime type is one of the Drive-native types that must be exported.
pub open spec fn is_native_type(mime: Seq<char>) -> bool {
    ||| mime == native_spreadsheet()
    ||| mime == native_document()
    ||| mime == native_drawing()
    ||| mime == native_presentation()
}

/// The export table. The empty sequence stands for "no export: download the
/// raw bytes".
pub open spec fn export_mime_type(mime: Seq<char>) -> Seq<char> {
    if mime == native_spreadsheet() {
        "application/vnd.openxmlformats-officedocument.spreadsheetml.sheet"@
    } else if mime == native_document() {
        "application/vnd.openxmlformats-officedocument.wordprocessingml.document"@
    } else if mime == native_drawing() {
        "image/svg+xml"@
    } else if mime == native_presentation() {
        "application/vnd.openxmlformats-officedocument.presentationml.presentation"@
    } else {
        Seq::empty()
    }
}

/// Looks a mime type up in the export table. Returns the empty string for
/// every type that is not Drive-native.
pub fn export_mime_types_from(k: &str) -> (r: &'static str)
    ensures
        r@ == export_mime_type(k@),
{
    if same_text(k, "application/vnd.google-apps.spreadsheet") {
        "application/vnd.openxmlformats-officedocument.spreadsheetml.sheet"
    } else if same_text(k, "application/vnd.google-apps.document") {
        "application/vnd.openxmlformats-officedocument.wordprocessingml.document"
    } else if same_text(k, "application/vnd.google-apps.drawing") {
        "image/svg+xml"
    } else if same_text(k, "application/vnd.google-apps.presentation") {
        "application/vnd.openxmlformats-officedocument.presentationml.presentation"
    } else {
        proof {
            reveal_strlit("");
        }
        ""
    }
}

/// The export table is total, and a type has an export format exactly when
/// it is one of the four Drive-native types.
pub proof fn lemma_export_exactly_for_native_types(mime: Seq<char>)
    ensures
        export_mime_type(mime).len() > 0 <==> is_native_type(mime),
        !is_native_type(mime) ==> export_mime_type(mime) == Seq::<char>::empty(),
{
    reveal_strlit("application/vnd.openxmlformats-officedocument.spreadsheetml.sheet");
    reveal_strlit("application/vnd.openxmlformats-officedocument.wordprocessingml.document");
    reveal_strlit("image/svg+xml");
    reveal_strlit("application/vnd.openxmlformats-officedocument.presentationml.presentation");
}

} // verus!
