//! The JSON documents that answer the front end, as text.
//!
//! Strings are quoted and escaped by `serde_json`; this module puts the
//! quoted strings together.

use vstd::prelude::*;
use vstd::string::StringExecFns;

verus! {

/// `text` as a JSON string: in double quotes, escaped as `serde_json` escapes it.
pub uninterp spec fn json_string(text: Seq<char>) -> Seq<char>;

/// The strings of `items` as JSON strings, with a comma between each two.
pub open spec fn json_joined(items: Seq<Seq<char>>) -> Seq<char>
    decreases items.len(),
{
    if items.len() == 0 {
        Seq::empty()
    } else if items.len() == 1 {
        json_string(items[0])
    } else {
        json_joined(items.drop_last()) + ","@ + json_string(items.last())
    }
}

/// The JSON array of the strings of `items`, without white space.
pub open spec fn json_array(items: Seq<Seq<char>>) -> Seq<char> {
    "["@ + json_joined(items) + "]"@
}

/// The JSON object that reports a failure: its one member, `description`,
/// is the string `description`.
pub open spec fn json_failure(description: Seq<char>) -> Seq<char> {
    "{\"description\":"@ + json_string(description) + "}"@
}

/// Calls `serde_json::to_string` on a string. The result depends on the
/// string alone and is named `json_string`; nothing else is claimed of it.
/// Serialising a string into memory has no way to fail, so the fallback
/// is never taken.
#[verifier::external_body]
fn quote(text: &str) -> (quoted: String)
    ensures
        quoted@ == json_string(text@),
{
    serde_json::to_string(text).unwrap_or_default()
}

/// The JSON array of `items`.
pub fn array_document(items: &Vec<String>) -> (document: String)
    ensures
        document@ == json_array(items.deep_view()),
{
    let mut document = "[".to_owned();
    let ghost views = items.deep_view();
    let mut i: usize = 0;
    while i < items.len()
        invariant
            i <= items@.len(),
            views == items.deep_view(),
            document@ == "["@ + json_joined(views.take(i as int)),
        decreases items@.len() - i,
    {
        let quoted = quote(items[i].as_str());
        proof {
            let done = views.take(i as int);
            let next = views.take(i + 1);
            assert(next.drop_last() =~= done);
            assert(next.last() == items@[i as int]@);
            if i == 0 {
                assert("["@ + json_joined(done) + quoted@ =~= "["@ + json_joined(next));
            } else {
                assert("["@ + json_joined(done) + ","@ + quoted@ =~= "["@ + json_joined(next));
            }
        }
        if i > 0 {
            document.append(",");
        }
        document.append(quoted.as_str());
        i += 1;
    }
    proof {
        assert(views.take(i as int) =~= views);
    }
    document.append("]");
    document
}

/// The JSON object that reports a failure described by `description`.
pub fn failure_document(description: &str) -> (document: String)
    ensures
        document@ == json_failure(description@),
{
    let mut document = "{\"description\":".to_owned();
    let quoted = quote(description);
    document.append(quoted.as_str());
    document.append("}");
    document
}

} // verus!
