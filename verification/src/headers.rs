//! Read access to an HTTP header map.

use axum::http::HeaderMap;
use vstd::prelude::*;

verus! {

#[verifier::external_type_specification]
#[verifier::external_body]
#[verifier::reject_recursive_types(T)]
pub struct ExHeaderMap<T>(axum::http::HeaderMap<T>);

#[verifier::external_type_specification]
#[verifier::external_body]
pub struct ExHeaderValue(axum::http::HeaderValue);

/// The fields of a header map in the order in which the map yields them: each
/// name (always lower case) with the bytes of one of its values.
pub uninterp spec fn header_fields(headers: HeaderMap) -> Seq<(Seq<char>, Seq<u8>)>;

/// A byte that may stand in a header value that is read as text.
pub open spec fn is_visible_ascii(b: u8) -> bool {
    (32 <= b && b < 127) || b == 9
}

/// A character of a header name that lookups take as it is written.
pub open spec fn is_name_char(c: char) -> bool {
    ('a' <= c && c <= 'z') || ('0' <= c && c <= '9') || c == '-'
}

/// A non-empty header name of lower-case letters, digits and hyphens.
pub open spec fn is_plain_name(name: Seq<char>) -> bool {
    &&& 0 < name.len() <= 64
    &&& forall|i: int| 0 <= i < name.len() ==> is_name_char(#[trigger] name[i])
}

/// The bytes of the first field called `name`, if there is one.
pub open spec fn first_value(fields: Seq<(Seq<char>, Seq<u8>)>, name: Seq<char>) -> Option<Seq<u8>>
    decreases fields.len(),
{
    if fields.len() == 0 {
        None
    } else if fields[0].0 == name {
        Some(fields[0].1)
    } else {
        first_value(fields.drop_first(), name)
    }
}

/// A header value read as text: defined when every byte is visible ASCII.
pub open spec fn text_of(value: Seq<u8>) -> Option<Seq<char>> {
    if forall|i: int| 0 <= i < value.len() ==> is_visible_ascii(#[trigger] value[i]) {
        Some(Seq::new(value.len(), |i: int| value[i] as char))
    } else {
        None
    }
}

/// The text of the first field called `name`; `None` when there is no such
/// field or its value is not text.
pub open spec fn first_text(fields: Seq<(Seq<char>, Seq<u8>)>, name: Seq<char>) -> Option<Seq<char>> {
    match first_value(fields, name) {
        Some(value) => text_of(value),
        None => None,
    }
}

/// The view of an optional string.
pub open spec fn text_view(text: Option<String>) -> Option<Seq<char>> {
    match text {
        Some(s) => Some(s@),
        None => None,
    }
}

/// Looks a header up by name with `HeaderMap::get` and reads its value with
/// `HeaderValue::to_str`. Trusted: for a plain lower-case name the result is
/// the text of the first field of that name, and absent when the map has no
/// such field or the value holds a byte that is not visible ASCII.
#[verifier::external_body]
pub(crate) fn get_header_value(headers: &HeaderMap, name: &str) -> (res: Option<String>)
    ensures
        is_plain_name(name@) ==> text_view(res) == first_text(header_fields(*headers), name@),
{
    headers.get(name).and_then(|value| value.to_str().ok()).map(|s| s.to_string())
}

/// Copies the fields out of a header map with `HeaderMap::iter`. Trusted: the
/// result lists every field once, in the map's own order.
#[verifier::external_body]
pub(crate) fn header_entries(headers: &HeaderMap) -> (res: Vec<(String, Vec<u8>)>)
    ensures
        res@.len() == header_fields(*headers).len(),
        forall|i: int| 0 <= i < res@.len() ==> (#[trigger] res@[i]).0@ == header_fields(*headers)[i].0
            && res@[i].1@ == header_fields(*headers)[i].1,
{
    headers.iter().map(|(name, value)| (name.as_str().to_string(), value.as_bytes().to_vec())).collect()
}

/// The text of the first of `names`, in their order, that the fields hold as
/// text.
pub open spec fn first_present(fields: Seq<(Seq<char>, Seq<u8>)>, names: Seq<Seq<char>>) -> Option<
    Seq<char>,
>
    decreases names.len(),
{
    if names.len() == 0 {
        None
    } else {
        match first_text(fields, names[0]) {
            Some(text) => Some(text),
            None => first_present(fields, names.drop_first()),
        }
    }
}

/// The views of a list of names.
pub open spec fn name_views(names: Seq<&'static str>) -> Seq<Seq<char>> {
    Seq::new(names.len(), |i: int| names[i]@)
}

/// Where the names before position `k` are absent, the first present one is
/// looked for from `k` on.
pub proof fn lemma_first_present_skips(
    fields: Seq<(Seq<char>, Seq<u8>)>,
    names: Seq<Seq<char>>,
    k: int,
)
    requires
        0 <= k <= names.len(),
        forall|j: int| 0 <= j < k ==> first_text(fields, #[trigger] names[j]) is None,
    ensures
        first_present(fields, names) == first_present(fields, names.subrange(k, names.len() as int)),
    decreases k,
{
    if k == 0 {
        assert(names.subrange(0, names.len() as int) =~= names);
    } else {
        let rest = names.drop_first();
        assert(first_text(fields, names[0]) is None);
        assert forall|j: int| 0 <= j < k - 1 implies first_text(fields, #[trigger] rest[j]) is None by {
            assert(rest[j] == names[j + 1]);
        }
        lemma_first_present_skips(fields, rest, k - 1);
        assert(rest.subrange(k - 1, rest.len() as int) =~= names.subrange(k, names.len() as int));
    }
}

/// The text of the first of `names` that the headers hold as text.
pub(crate) fn first_header_text(headers: &HeaderMap, names: &Vec<&'static str>) -> (res: Option<
    String,
>)
    requires
        forall|i: int| 0 <= i < names@.len() ==> is_plain_name(#[trigger] names@[i]@),
    ensures
        text_view(res) == first_present(header_fields(*headers), name_views(names@)),
{
    let ghost fields = header_fields(*headers);
    let ghost all = name_views(names@);
    let mut i: usize = 0;
    while i < names.len()
        invariant
            0 <= i <= names@.len(),
            fields == header_fields(*headers),
            all == name_views(names@),
            forall|i: int| 0 <= i < names@.len() ==> is_plain_name(#[trigger] names@[i]@),
            forall|j: int| 0 <= j < i ==> first_text(fields, #[trigger] all[j]) is None,
        decreases names@.len() - i,
    {
        let found = get_header_value(headers, names[i]);
        assert(all[i as int] == names@[i as int]@);
        if found.is_some() {
            proof {
                lemma_first_present_skips(fields, all, i as int);
                let tail = all.subrange(i as int, all.len() as int);
                assert(tail[0] == all[i as int]);
            }
            return found;
        }
        i += 1;
    }
    proof {
        lemma_first_present_skips(fields, all, all.len() as int);
        assert(all.subrange(all.len() as int, all.len() as int) =~= Seq::<Seq<char>>::empty());
    }
    None
}

} // verus!
