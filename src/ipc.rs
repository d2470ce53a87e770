use vstd::prelude::*;
use crate::text::append_str;

verus! {

/// Why a property query failed.
#[derive(Clone, Copy, Debug, PartialEq, Eq, Structural)]
pub enum IpcError {
    /// The player closed the socket: a read returned no bytes.
    ConnectionClosed,
    /// The reply line is not a well-formed response.
    Decode,
}

/// What `serde_json::to_string` makes of a string: its JSON string literal.
pub uninterp spec fn json_text_of(s: Seq<char>) -> Seq<char>;

/// A character that a JSON string literal holds as it is: not a control
/// character, a quote or a backslash.
pub open spec fn json_plain(c: char) -> bool {
    c as u32 >= 0x20 && c != '"' && c != '\\'
}

/// Relies on `serde_json::to_string` on a `str`, which writes its JSON
/// string literal and does not fail for a string. Only control characters,
/// `"` and `\\` are escaped; the rest is copied between two quotes.
#[verifier::external_body]
fn json_string(s: &str) -> (r: String)
    ensures
        r@ == json_text_of(s@),
        (forall|i: int| 0 <= i < s@.len() ==> json_plain(#[trigger] s@[i])) ==> r@ == seq!['"']
            + s@ + seq!['"'],
{
    match serde_json::to_string(s) {
        Ok(t) => t,
        Err(_) => String::new(),
    }
}

pub open spec fn request_line(name: Seq<char>) -> Seq<char> {
    "{\"command\":[\"get_property\","@ + json_text_of(name) + "]}\n"@
}

/// The line that asks the player for property `name`, newline included.
pub fn property_request(name: &str) -> (r: String)
    ensures
        r@ == request_line(name@),
        (forall|i: int| 0 <= i < name@.len() ==> json_plain(#[trigger] name@[i])) ==> r@
            == "{\"command\":[\"get_property\","@ + seq!['"'] + name@ + seq!['"'] + "]}\n"@,
{
    let mut r = "{\"command\":[\"get_property\",".to_string();
    let q = json_string(name);
    append_str(&mut r, q.as_str());
    append_str(&mut r, "]}\n");
    r
}

/// The outcome of one query, from the number of bytes that the read of the
/// reply line returned and the decoded line (`None` where it did not decode;
/// `Some(None)` where the reply has no `data`).
pub fn reply_outcome<T>(bytes_read: usize, decoded: Option<Option<T>>) -> (r: Result<
    Option<T>,
    IpcError,
>)
    ensures
        bytes_read == 0 ==> r == Err::<Option<T>, IpcError>(IpcError::ConnectionClosed),
        bytes_read > 0 && decoded is None ==> r == Err::<Option<T>, IpcError>(IpcError::Decode),
        bytes_read > 0 && decoded is Some ==> r == Ok::<Option<T>, IpcError>(decoded->0),
{
    if bytes_read == 0 {
        Err(IpcError::ConnectionClosed)
    } else {
        match decoded {
            Some(v) => Ok(v),
            None => Err(IpcError::Decode),
        }
    }
}

} // verus!
