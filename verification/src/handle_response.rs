//! What is common to all three response decoders: the success-status
//! range, the API's error envelope, and the decoding of a JSON array
//! element by element.
//!
//! Every decoder classifies a status/document pair the same way: a body
//! carrying the error envelope is an API error whatever the status (the
//! API is known to wrap errors in success-status bodies); a non-success
//! status without the envelope is a decode failure; a success status is
//! decoded against the endpoint's schema, and the first missing or
//! mistyped required field fails the whole decode.

use vstd::prelude::*;

use crate::json::JsonValue;
use crate::json::field;
use crate::json::str_field;

verus! {

/// The HTTP status range in which a response body carries a result.
pub open spec fn is_success(status: int) -> bool {
    200 <= status < 300
}

/// The message of the API's error envelope: an object whose `error`
/// field holds an object with a string `text` field.
pub open spec fn envelope_text(j: JsonValue) -> Option<Seq<char>> {
    match field(j, "error"@) {
        Some(e) => str_field(e, "text"@),
        None => None,
    }
}

/// Extract the error envelope's message, when the body carries one.
pub fn envelope(j: &JsonValue) -> (r: Option<String>)
    ensures
        match r {
            Some(s) => envelope_text(*j) == Some(s@),
            None => envelope_text(*j) is None,
        },
{
    match j.get("error") {
        Some(e) => match e.get_str("text") {
            Some(s) => Some(s.clone()),
            None => None,
        },
        None => None,
    }
}

/// Decode a JSON array element by element with a given element decoder:
/// the models in order if every element decodes, else the failure of the
/// first element that does not.
pub open spec fn decode_list<T>(
    items: Seq<JsonValue>,
    f: spec_fn(JsonValue) -> Result<T, Seq<char>>,
) -> Result<Seq<T>, Seq<char>>
    decreases items.len(),
{
    if items.len() == 0 {
        Ok(Seq::empty())
    } else {
        match f(items[0]) {
            Err(e) => Err(e),
            Ok(m) => match decode_list(items.drop_first(), f) {
                Err(e) => Err(e),
                Ok(rest) => Ok(seq![m] + rest),
            },
        }
    }
}

/// A list whose every element decodes, decodes to the element-wise
/// models in the order of the input array.
pub proof fn lemma_decode_list_pointwise<T>(
    items: Seq<JsonValue>,
    f: spec_fn(JsonValue) -> Result<T, Seq<char>>,
    ms: Seq<T>,
)
    requires
        ms.len() == items.len(),
        forall|k: int| 0 <= k < items.len() ==> #[trigger] f(items[k]) == Ok::<T, Seq<char>>(ms[k]),
    ensures
        decode_list(items, f) == Ok::<Seq<T>, Seq<char>>(ms),
    decreases items.len(),
{
    if items.len() == 0 {
        assert(ms =~= Seq::<T>::empty());
    } else {
        assert(f(items[0]) == Ok::<T, Seq<char>>(ms[0]));
        assert forall|k: int| 0 <= k < items.drop_first().len() implies #[trigger] f(
            items.drop_first()[k],
        ) == Ok::<T, Seq<char>>(ms.drop_first()[k]) by {
            assert(items.drop_first()[k] == items[k + 1]);
            assert(ms.drop_first()[k] == ms[k + 1]);
        }
        lemma_decode_list_pointwise(items.drop_first(), f, ms.drop_first());
        assert(seq![ms[0]] + ms.drop_first() =~= ms);
    }
}

/// A decoded list is never partial: success of the whole list means
/// every element decoded, each to the model at its own index.
pub proof fn lemma_decode_list_complete<T>(
    items: Seq<JsonValue>,
    f: spec_fn(JsonValue) -> Result<T, Seq<char>>,
    ms: Seq<T>,
)
    requires
        decode_list(items, f) == Ok::<Seq<T>, Seq<char>>(ms),
    ensures
        ms.len() == items.len(),
        forall|k: int| 0 <= k < items.len() ==> #[trigger] f(items[k]) == Ok::<T, Seq<char>>(ms[k]),
    decreases items.len(),
{
    if items.len() == 0 {
    } else {
        let m0 = f(items[0])->Ok_0;
        let rest = decode_list(items.drop_first(), f)->Ok_0;
        assert(ms == seq![m0] + rest);
        assert(ms.drop_first() =~= rest);
        lemma_decode_list_complete(items.drop_first(), f, rest);
        assert forall|k: int| 0 <= k < items.len() implies #[trigger] f(items[k]) == Ok::<
            T,
            Seq<char>,
        >(ms[k]) by {
            if k > 0 {
                assert(items.drop_first()[k - 1] == items[k]);
                assert(f(items.drop_first()[k - 1]) == Ok::<T, Seq<char>>(rest[k - 1]));
                assert(ms[k] == rest[k - 1]);
            }
        }
    }
}

/// When the elements before some index decode and that index does not,
/// the list fails with exactly that element's failure.
pub proof fn lemma_decode_list_first_err<T>(
    items: Seq<JsonValue>,
    f: spec_fn(JsonValue) -> Result<T, Seq<char>>,
    k: int,
)
    requires
        0 <= k < items.len(),
        forall|i: int| 0 <= i < k ==> #[trigger] f(items[i]) is Ok,
        f(items[k]) is Err,
    ensures
        decode_list(items, f) == Err::<Seq<T>, Seq<char>>(f(items[k])->Err_0),
    decreases k,
{
    if k == 0 {
    } else {
        assert(f(items[0]) is Ok);
        assert forall|i: int| 0 <= i < k - 1 implies #[trigger] f(items.drop_first()[i]) is Ok by {
            assert(items.drop_first()[i] == items[i + 1]);
        }
        assert(items.drop_first()[k - 1] == items[k]);
        lemma_decode_list_first_err(items.drop_first(), f, k - 1);
    }
}

/// A list holding one malformed element never decodes to a result.
pub proof fn lemma_decode_list_err<T>(
    items: Seq<JsonValue>,
    f: spec_fn(JsonValue) -> Result<T, Seq<char>>,
    k: int,
)
    requires
        0 <= k < items.len(),
        f(items[k]) is Err,
    ensures
        decode_list(items, f) is Err,
    decreases k,
{
    if f(items[0]) is Err {
    } else {
        assert(items.drop_first()[k - 1] == items[k]);
        lemma_decode_list_err(items.drop_first(), f, k - 1);
    }
}

} // verus!
