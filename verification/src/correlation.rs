//! Correlation identifiers: taken from the request where it carries one,
//! made afresh where it does not.

use crate::headers::{
    first_header_text, first_present, first_text, header_fields, is_plain_name, name_views,
    text_view, lemma_first_present_skips,
};
use axum::http::HeaderMap;
use vstd::prelude::*;

verus! {

/// The header names that carry a correlation id, in priority order.
pub open spec fn correlation_header_names() -> Seq<Seq<char>> {
    seq![
        "x-correlation-id"@,
        "x-request-id"@,
        "x-trace-id"@,
        "request-id"@,
        "correlation-id"@,
    ]
}

/// The correlation id that a request brings with it: the text of the first
/// recognized header, in priority order, that it holds.
pub open spec fn propagated_correlation_id(fields: Seq<(Seq<char>, Seq<u8>)>) -> Option<Seq<char>> {
    first_present(fields, correlation_header_names())
}

/// A digit of lower-case hexadecimal.
pub open spec fn is_lower_hex(c: char) -> bool {
    ('0' <= c && c <= '9') || ('a' <= c && c <= 'f')
}

/// The form of a generated identifier: 36 characters, hyphens after the
/// 8th, 12th, 16th and 20th digit, lower-case hexadecimal digits elsewhere.
pub open spec fn is_generated_id(id: Seq<char>) -> bool {
    &&& id.len() == 36
    &&& forall|i: int|
        0 <= i < 36 ==> if i == 8 || i == 13 || i == 18 || i == 23 {
            id[i] == '-'
        } else {
            is_lower_hex(#[trigger] id[i])
        }
}

/// The correlation id of a request that brought `found` and for which
/// `fresh` was generated: what it brought, else the generated one.
pub open spec fn resolved_correlation_id(found: Option<Seq<char>>, fresh: Seq<char>) -> Seq<char> {
    match found {
        Some(id) => id,
        None => fresh,
    }
}

/// A new identifier from `Uuid::new_v4`, in its hyphenated form. Trusted:
/// it has the form of a generated identifier. Which one it is is random.
#[verifier::external_body]
pub(crate) fn fresh_correlation_id() -> (id: String)
    ensures
        is_generated_id(id@),
{
    uuid::Uuid::new_v4().to_string()
}

/// The header names that carry a correlation id, in priority order.
pub fn correlation_headers() -> (names: Vec<&'static str>)
    ensures
        name_views(names@) == correlation_header_names(),
        forall|i: int| 0 <= i < names@.len() ==> is_plain_name(#[trigger] names@[i]@),
{
    let names = vec![
        "x-correlation-id",
        "x-request-id",
        "x-trace-id",
        "request-id",
        "correlation-id",
    ];
    proof {
        reveal_strlit("x-correlation-id");
        reveal_strlit("x-request-id");
        reveal_strlit("x-trace-id");
        reveal_strlit("request-id");
        reveal_strlit("correlation-id");
        assert(name_views(names@) =~= correlation_header_names());
    }
    names
}

/// The correlation id that the headers bring, if any.
pub fn find_correlation_id(headers: &HeaderMap) -> (res: Option<String>)
    ensures
        text_view(res) == propagated_correlation_id(header_fields(*headers)),
{
    let names = correlation_headers();
    first_header_text(headers, &names)
}

/// The correlation id of a request, given what it brought and an
/// identifier generated for it: what it brought, else the generated one.
pub fn resolve_correlation_id(found: Option<String>, fresh: String) -> (id: String)
    ensures
        id@ == resolved_correlation_id(text_view(found), fresh@),
{
    match found {
        Some(id) => id,
        None => fresh,
    }
}

/// The correlation id of a request: the one it brings, else a newly
/// generated one.
pub fn extract_or_generate_correlation_id(headers: &HeaderMap) -> (id: String)
    ensures
        match propagated_correlation_id(header_fields(*headers)) {
            Some(brought) => id@ == brought,
            None => is_generated_id(id@),
        },
{
    match find_correlation_id(headers) {
        Some(id) => id,
        None => resolve_correlation_id(None, fresh_correlation_id()),
    }
}

/// Priority decides: the recognized header at position `k` gives the
/// correlation id exactly when none before it is present, whatever else the
/// request holds and in whatever order its fields stand.
pub proof fn lemma_correlation_priority(fields: Seq<(Seq<char>, Seq<u8>)>, k: int)
    requires
        0 <= k < correlation_header_names().len(),
        first_text(fields, correlation_header_names()[k]) is Some,
        forall|j: int|
            0 <= j < k ==> first_text(fields, #[trigger] correlation_header_names()[j]) is None,
    ensures
        propagated_correlation_id(fields) == first_text(fields, correlation_header_names()[k]),
{
    let names = correlation_header_names();
    lemma_first_present_skips(fields, names, k);
    let tail = names.subrange(k, names.len() as int);
    assert(tail[0] == names[k]);
}

/// Two sets of fields that agree on every recognized header bring the same
/// correlation id.
pub proof fn lemma_correlation_deterministic(
    a: Seq<(Seq<char>, Seq<u8>)>,
    b: Seq<(Seq<char>, Seq<u8>)>,
)
    requires
        forall|j: int|
            0 <= j < correlation_header_names().len() ==> first_text(
                a,
                #[trigger] correlation_header_names()[j],
            ) == first_text(b, correlation_header_names()[j]),
    ensures
        propagated_correlation_id(a) == propagated_correlation_id(b),
{
    lemma_first_present_agrees(a, b, correlation_header_names());
}

/// Two sets of fields that agree on every one of `names` have the same first
/// present text among them.
pub proof fn lemma_first_present_agrees(
    a: Seq<(Seq<char>, Seq<u8>)>,
    b: Seq<(Seq<char>, Seq<u8>)>,
    names: Seq<Seq<char>>,
)
    requires
        forall|j: int|
            0 <= j < names.len() ==> first_text(a, #[trigger] names[j]) == first_text(b, names[j]),
    ensures
        first_present(a, names) == first_present(b, names),
    decreases names.len(),
{
    if names.len() > 0 {
        let rest = names.drop_first();
        assert(first_text(a, names[0]) == first_text(b, names[0]));
        assert forall|j: int| 0 <= j < rest.len() implies first_text(a, #[trigger] rest[j])
            == first_text(b, rest[j]) by {
            assert(rest[j] == names[j + 1]);
        }
        lemma_first_present_agrees(a, b, rest);
    }
}

} // verus!
