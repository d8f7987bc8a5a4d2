//! Tokenized protocol values, as handed over by the frame reader.

use vstd::prelude::*;

verus! {

/// One decoded element of the wire protocol: a request arrives as an
/// ordered sequence of these tokens.
///
/// The command decoder reads only the two textual variants, `String` and
/// `BulkString`, which carry a raw byte payload; the remaining kinds
/// (integer count, nested array, error reply, null) are opaque to it.
#[derive(Debug)]
pub enum RESP {
    String(Vec<u8>),
    BulkString(Vec<u8>),
    Integer(i64),
    Array(Vec<RESP>),
    ErrorReply(Vec<u8>),
    Null,
}

/// The byte payload of a textual token; `None` for every other token kind.
pub open spec fn token_bytes(t: RESP) -> Option<Seq<u8>> {
    match t {
        RESP::String(b) => Some(b@),
        RESP::BulkString(b) => Some(b@),
        _ => None,
    }
}

} // verus!
