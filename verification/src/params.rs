//! Query parameters: ordered `(name, value)` pairs, stated by their views.
use vstd::prelude::*;

verus! {

/// Appends one `(key, value)` pair.
pub fn push_param(params: &mut Vec<(String, String)>, key: String, value: String)
    ensures
        final(params).deep_view() == old(params).deep_view().push((key@, value@)),
{
    params.push((key, value));
    assert(params.deep_view() =~= old(params).deep_view().push((key@, value@)));
}

/// Appends every pair of `more`, in order.
pub fn append_params(params: &mut Vec<(String, String)>, more: Vec<(String, String)>)
    ensures
        final(params).deep_view() == old(params).deep_view() + more.deep_view(),
{
    let mut more = more;
    let ghost added = more.deep_view();
    params.append(&mut more);
    assert(params.deep_view() =~= old(params).deep_view() + added);
}

/// One parameter when the value is present, none otherwise.
pub open spec fn optional_param(key: Seq<char>, value: Option<String>) -> Seq<(Seq<char>, Seq<char>)> {
    match value {
        Some(v) => seq![(key, v@)],
        None => Seq::empty(),
    }
}

/// Appends one pair when the value is present.
pub fn push_optional(params: &mut Vec<(String, String)>, key: String, value: &Option<String>)
    ensures
        final(params).deep_view() == old(params).deep_view() + optional_param(key@, *value),
{
    match value {
        Some(v) => {
            push_param(params, key, v.clone());
        },
        None => {
            assert(params.deep_view() =~= old(params).deep_view() + optional_param(key@, *value));
        },
    }
}

} // verus!
