//! Request headers as the checks read them.

use vstd::prelude::*;
use vstd::string::*;

use crate::text::same_text;

verus! {

/// A request header: its lowercase name and its raw value.
#[derive(Debug)]
pub struct HeaderEntry {
    pub name: String,
    pub value: Vec<u8>,
}

/// A header as contracts see it.
pub struct HeaderView {
    pub name: Seq<char>,
    pub value: Seq<u8>,
}

impl View for HeaderEntry {
    type V = HeaderView;

    open spec fn view(&self) -> HeaderView {
        HeaderView { name: self.name@, value: self.value@ }
    }
}

/// The headers as contracts see them.
pub open spec fn header_views(headers: Seq<HeaderEntry>) -> Seq<HeaderView> {
    headers.map_values(|entry: HeaderEntry| entry@)
}

/// The value of the first header with this name.
pub open spec fn first_value(headers: Seq<HeaderView>, name: Seq<char>) -> Option<Seq<u8>>
    decreases headers.len(),
{
    if headers.len() == 0 {
        None
    } else if headers[0].name == name {
        Some(headers[0].value)
    } else {
        first_value(headers.drop_first(), name)
    }
}

/// Whether a byte is visible ASCII, a space or a tab.
pub open spec fn is_visible(byte: u8) -> bool {
    32 <= byte < 127 || byte == 9
}

/// Whether every byte of a header value is visible.
pub open spec fn all_visible(value: Seq<u8>) -> bool {
    forall|i: int| 0 <= i < value.len() ==> is_visible(#[trigger] value[i])
}

/// The text of an ASCII value.
pub open spec fn ascii_text(value: Seq<u8>) -> Seq<char> {
    Seq::new(value.len(), |i: int| value[i] as char)
}

/// The text of the first header with this name, if it is there and visible.
pub open spec fn header_text(headers: Seq<HeaderView>, name: Seq<char>) -> Option<Seq<char>> {
    match first_value(headers, name) {
        Some(value) => if all_visible(value) {
            Some(ascii_text(value))
        } else {
            None
        },
        None => None,
    }
}

/// Turns a visible header value into text.
pub fn visible_text(value: &Vec<u8>) -> (text: Option<String>)
    ensures
        text is Some <==> all_visible(value@),
        text is Some ==> text->0@ == ascii_text(value@),
{
    let mut text = String::new();
    let mut i: usize = 0;
    while i < value.len()
        invariant
            i <= value@.len(),
            text@ =~= ascii_text(value@).take(i as int),
            forall|j: int| 0 <= j < i ==> is_visible(#[trigger] value@[j]),
        decreases value@.len() - i,
    {
        let byte = value[i];
        if !((32 <= byte && byte < 127) || byte == 9) {
            return None;
        }
        text.push(byte as char);
        i += 1;
    }
    assert(text@ =~= ascii_text(value@));
    Some(text)
}

/// Reads the first header with this name.
pub fn header(headers: &Vec<HeaderEntry>, name: &str) -> (text: Option<String>)
    ensures
        text is Some <==> header_text(header_views(headers@), name@) is Some,
        text is Some ==> text->0@ == header_text(header_views(headers@), name@)->0,
{
    let ghost views = header_views(headers@);
    let mut i: usize = 0;
    assert(views.skip(0) =~= views);
    while i < headers.len()
        invariant
            i <= headers@.len(),
            views == header_views(headers@),
            first_value(views, name@) == first_value(views.skip(i as int), name@),
        decreases headers@.len() - i,
    {
        assert(views.skip(i as int)[0] == headers@[i as int]@);
        if same_text(headers[i].name.as_str(), name) {
            return visible_text(&headers[i].value);
        }
        assert(views.skip(i as int).drop_first() =~= views.skip(i + 1));
        i += 1;
    }
    None
}

} // verus!
