use vstd::prelude::*;
use crate::item::Item;

verus! {

/// The epoch timestamp (seconds) encoded by an RFC 2822 date string, or
/// `None` when the string does not parse. Names the result of
/// `chrono::DateTime::parse_from_rfc2822` followed by `timestamp()`: the
/// offset is part of the text, so the answer is a function of the text
/// alone.
pub uninterp spec fn rfc2822_epoch(s: Seq<char>) -> Option<i64>;

/// The plain-text (Markdown) rendering of an HTML fragment. Names the
/// result of `html2md::parse_html`, a function of the input text alone.
pub uninterp spec fn markdown_of(s: Seq<char>) -> Seq<char>;

/// Relies on `chrono::DateTime::parse_from_rfc2822` and
/// `chrono::DateTime::timestamp`: parsing succeeds or fails, and yields
/// the epoch seconds, depending on the text alone.
#[verifier::external_body]
fn parse_pub_date(s: &str) -> (r: Option<i64>)
    ensures
        r == rfc2822_epoch(s@),
{
    match chrono::DateTime::parse_from_rfc2822(s) {
        Ok(dt) => Some(dt.timestamp()),
        Err(_) => None,
    }
}

/// Relies on `html2md::parse_html`: converts an HTML fragment to Markdown
/// text, depending on the fragment alone.
#[verifier::external_body]
fn html_to_text(s: &str) -> (r: String)
    ensures
        r@ == markdown_of(s@),
{
    html2md::parse_html(s)
}

/// Build the in-memory item for one entry fetched from the feed at
/// `channel`: an unread, unstarred item retrieved `now`, whose publication
/// time comes from parsing the entry's RFC 2822 date (an absent or
/// malformed date leaves it unset) and whose description is the entry's
/// HTML converted to text.
pub fn build_item(
    channel: &String,
    title: Option<String>,
    url: Option<String>,
    pub_date: Option<String>,
    description: Option<String>,
    now: i64,
) -> (it: Item)
    ensures
        it.channel@ == channel@,
        it.title == title,
        it.url == url,
        !it.read,
        !it.starred,
        it.retrieved_at == now,
        match pub_date {
            Some(s) => it.published_at == rfc2822_epoch(s@),
            None => it.published_at is None,
        },
        match description {
            Some(d) => it.description matches Some(t) && t@ == markdown_of(d@),
            None => it.description is None,
        },
{
    let published_at: Option<i64> = match &pub_date {
        Some(s) => parse_pub_date(s.as_str()),
        None => None,
    };
    let text: Option<String> = match &description {
        Some(d) => Some(html_to_text(d.as_str())),
        None => None,
    };
    Item {
        title,
        url,
        channel: channel.clone(),
        description: text,
        published_at,
        retrieved_at: now,
        read: false,
        starred: false,
    }
}

} // verus!
