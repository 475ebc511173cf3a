//! The exact text of the outgoing notification mail.
//!
//! One message is built per recipient: a fixed sender name, a fixed
//! subject, and a plain-text body that embeds the day's fact between a
//! fixed greeting and a closing question mark.

use vstd::prelude::*;
use vstd::string::StringExecFns;

verus! {

/// The greeting that opens every notification body.
pub open spec fn body_prefix() -> Seq<char> {
    "Hey there! You're receiving this message because you're subscribed to Cat Facts. \n\nDid you know "@
}

/// The closing of every notification body.
pub open spec fn body_suffix() -> Seq<char> {
    "?"@
}

/// The full body for a given fact: greeting, fact text, question mark.
pub open spec fn body_of(fact: Seq<char>) -> Seq<char> {
    body_prefix() + fact + body_suffix()
}

/// Builds the plain-text body that embeds `fact`.
pub fn message_body(fact: &str) -> (r: String)
    ensures
        r@ == body_of(fact@),
{
    let mut body = String::from_str(
        "Hey there! You're receiving this message because you're subscribed to Cat Facts. \n\nDid you know ",
    );
    body.append(fact);
    body.append("?");
    body
}

/// The fixed subject line of every notification.
pub fn message_subject() -> (r: String)
    ensures
        r@ == "Happy new year"@,
{
    String::from_str("Happy new year")
}

/// The fixed sender display name.
pub fn sender_name() -> (r: String)
    ensures
        r@ == "Cat Facts"@,
{
    String::from_str("Cat Facts")
}

} // verus!
