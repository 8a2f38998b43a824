//! The headers of a request.

use vstd::prelude::*;
use vstd::string::StringSliceAdditionalSpecFns;
use vstd::utf8::*;

verus! {

/// One header: its name, and its value as it was sent.
#[derive(Clone, Debug, PartialEq, Eq)]
pub struct Header {
    pub name: String,
    pub value: Vec<u8>,
}

/// A header as a pair of values; the name by its UTF-8 bytes.
pub struct HeaderView {
    pub name: Seq<u8>,
    pub value: Seq<u8>,
}

impl View for Header {
    type V = HeaderView;

    open spec fn view(&self) -> HeaderView {
        HeaderView { name: encode_utf8(self.name@), value: self.value@ }
    }
}

/// The headers of a request as values, in the order of the request.
pub open spec fn headers_view(headers: Seq<Header>) -> Seq<HeaderView> {
    Seq::new(headers.len(), |i: int| headers[i]@)
}

/// A letter in lower case; any other byte as it is.
pub open spec fn lowered(byte: u8) -> u8 {
    if 0x41 <= byte <= 0x5a {
        (byte + 0x20) as u8
    } else {
        byte
    }
}

/// Whether two header names are the same: names do not tell upper case from
/// lower case.
pub open spec fn same_name(left: Seq<u8>, right: Seq<u8>) -> bool {
    &&& left.len() == right.len()
    &&& forall|i: int| 0 <= i < left.len() ==> lowered(#[trigger] left[i]) == lowered(right[i])
}

/// The value of the first header that goes by `name`.
pub open spec fn header_value(headers: Seq<HeaderView>, name: Seq<u8>) -> Option<Seq<u8>>
    decreases headers.len(),
{
    if headers.len() == 0 {
        None
    } else if same_name(headers[0].name, name) {
        Some(headers[0].value)
    } else {
        header_value(headers.skip(1), name)
    }
}

fn lower(byte: u8) -> (low: u8)
    ensures
        low == lowered(byte),
{
    if 0x41 <= byte && byte <= 0x5a {
        byte + 0x20
    } else {
        byte
    }
}

/// Whether two header names are the same.
pub fn names_match(left: &[u8], right: &[u8]) -> (same: bool)
    ensures
        same == same_name(left@, right@),
{
    if left.len() != right.len() {
        return false;
    }
    let mut i: usize = 0;
    while i < left.len()
        invariant
            i <= left.len() == right.len(),
            forall|k: int| 0 <= k < i ==> lowered(#[trigger] left@[k]) == lowered(right@[k]),
        decreases left.len() - i,
    {
        if lower(left[i]) != lower(right[i]) {
            return false;
        }
        i += 1;
    }
    true
}

/// The value of the first header that goes by `name`.
pub fn find_header<'a>(headers: &'a Vec<Header>, name: &str) -> (found: Option<&'a [u8]>)
    ensures
        match found {
            Some(value) => header_value(headers_view(headers@), name.spec_bytes()) == Some(
                value@,
            ),
            None => header_value(headers_view(headers@), name.spec_bytes()) is None,
        },
{
    let ghost all = headers_view(headers@);
    let mut i: usize = 0;
    assert(all.skip(0) =~= all);
    while i < headers.len()
        invariant
            i <= headers.len(),
            all == headers_view(headers@),
            header_value(all, name.spec_bytes()) == header_value(
                all.skip(i as int),
                name.spec_bytes(),
            ),
        decreases headers.len() - i,
    {
        let header = &headers[i];
        assert(all.skip(i as int)[0] == header@);
        if names_match(header.name.as_str().as_bytes(), name.as_bytes()) {
            return Some(header.value.as_slice());
        }
        assert(all.skip(i as int).skip(1) =~= all.skip(i + 1));
        i += 1;
    }
    None
}

} // verus!
