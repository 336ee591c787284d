//! Header fields, of requests and of responses.

use vstd::prelude::*;
use crate::scan::same_bytes;

verus! {

/// One header field: a name and a value, both as they stand on the wire.
#[derive(Clone, Debug, PartialEq, Eq)]
pub struct Header {
    pub name: Vec<u8>,
    pub value: Vec<u8>,
}

/// A header field as a pair of byte sequences.
pub struct HeaderView {
    pub name: Seq<u8>,
    pub value: Seq<u8>,
}

impl View for Header {
    type V = HeaderView;

    open spec fn view(&self) -> HeaderView {
        HeaderView { name: self.name@, value: self.value@ }
    }
}

/// The views of a sequence of headers, in the same order.
pub open spec fn header_views(headers: Seq<Header>) -> Seq<HeaderView> {
    headers.map_values(|header: Header| header@)
}

/// The value of the first header that bears `name`, if one does. Names
/// are compared byte for byte, so the case of letters counts.
pub open spec fn first_value(headers: Seq<HeaderView>, name: Seq<u8>) -> Option<Seq<u8>>
    decreases headers.len(),
{
    if headers.len() == 0 {
        None
    } else if headers[0].name == name {
        Some(headers[0].value)
    } else {
        first_value(headers.drop_first(), name)
    }
}

/// Looks up the first header that bears `name` and hands out its value.
pub fn find_value<'a>(headers: &'a Vec<Header>, name: &[u8]) -> (value: Option<&'a Vec<u8>>)
    ensures
        match value {
            Some(bytes) => first_value(header_views(headers@), name@) == Some(bytes@),
            None => first_value(header_views(headers@), name@) is None,
        },
{
    let ghost views = header_views(headers@);
    let mut i: usize = 0;
    assert(views.skip(0) =~= views);
    while i < headers.len()
        invariant
            i <= headers.len(),
            views == header_views(headers@),
            first_value(views.skip(i as int), name@) == first_value(views, name@),
        decreases headers.len() - i,
    {
        assert(views.skip(i as int).drop_first() =~= views.skip(i + 1));
        if same_bytes(headers[i].name.as_slice(), name) {
            return Some(&headers[i].value);
        }
        i += 1;
    }
    None
}

} // verus!
