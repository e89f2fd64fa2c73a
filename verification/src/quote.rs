//! What is read off a message that quotes another one.
use vstd::prelude::*;

use crate::decimal::{decimal, u64_to_decimal};
use crate::errors::BrowseError;
use crate::protocol::opt_seq;

verus! {

/// A reply message and the message it quotes.
pub struct QuoteInfo {
    /// Id of the reply message, in decimal.
    pub message_id: String,
    /// Author of the quoted message.
    pub quoted_author: String,
    /// Text of the quoted message.
    pub quoted_text: String,
    /// Text of the reply, where it could be read.
    pub reply_text: Option<String>,
}

/// Outcome of looking up an element inside a message and reading its text.
pub enum TextLookup {
    /// The element was found and its text read.
    Text(String),
    /// No element matched.
    NotFound,
    /// The element was found but reading its text failed; the driver's report.
    ReadFailed(String),
}

/// What a lookup yields, where a missing element is reported as `missing`.
pub open spec fn lookup_result(lookup: TextLookup, missing: BrowseError) -> Result<Seq<char>, BrowseError> {
    match lookup {
        TextLookup::Text(t) => Ok(t@),
        TextLookup::NotFound => Err(missing),
        TextLookup::ReadFailed(d) => Err(BrowseError::Driver { detail: d }),
    }
}

/// The text that a lookup read, or the failure: `missing` where no element
/// matched, the driver's report where reading failed.
pub fn read_lookup(lookup: TextLookup, missing: BrowseError) -> (res: Result<String, BrowseError>)
    ensures
        match (res, lookup_result(lookup, missing)) {
            (Ok(t), Ok(u)) => t@ == u,
            (Err(e), Err(f)) => e == f,
            _ => false,
        },
{
    match lookup {
        TextLookup::Text(t) => Ok(t),
        TextLookup::NotFound => Err(missing),
        TextLookup::ReadFailed(d) => Err(BrowseError::Driver { detail: d }),
    }
}

/// The quote read off message `message_id`: the quoted author is looked up
/// first, then the quoted text; the reply text is optional. A missing author
/// or text is reported as such, a failed read by the driver's report.
pub fn assemble_quote(
    message_id: u64,
    reply_text: Option<String>,
    author: TextLookup,
    quoted: TextLookup,
) -> (res: Result<QuoteInfo, BrowseError>)
    ensures
        match lookup_result(author, BrowseError::QuoteAuthorMissing) {
            Err(e) => res == Err::<QuoteInfo, BrowseError>(e),
            Ok(a) => match lookup_result(quoted, BrowseError::QuoteTextMissing) {
                Err(e) => res == Err::<QuoteInfo, BrowseError>(e),
                Ok(q) => res matches Ok(info) && info.message_id@ == decimal(message_id as nat)
                    && info.quoted_author@ == a && info.quoted_text@ == q
                    && opt_seq(info.reply_text) == opt_seq(reply_text),
            },
        },
{
    let quoted_author = match read_lookup(author, BrowseError::QuoteAuthorMissing) {
        Ok(a) => a,
        Err(e) => return Err(e),
    };
    let quoted_text = match read_lookup(quoted, BrowseError::QuoteTextMissing) {
        Ok(q) => q,
        Err(e) => return Err(e),
    };
    Ok(QuoteInfo { message_id: u64_to_decimal(message_id), quoted_author, quoted_text, reply_text })
}

} // verus!
