//! The properties the mapping is answerable for, stated over the models
//! that the executable functions are specified with.

use vstd::prelude::*;
use vstd::utf8::{decode_utf8, valid_utf8};
use crate::envelope::{EnvelopeModel, ExtVal, PayloadModel};
use crate::normalize::{
    find_ext, full_columns, payload_text, payload_warnings, reduced_columns, reduced_warnings,
    ColModel, WarningModel,
};
use crate::num::{dec_value, dec_magnitude, digits_val, i64_text, lemma_dec_digits_val, dec_digits};

verus! {

/// Normalization loses none of the fixed attributes: two envelopes that
/// yield the same full-envelope row agree on every attribute column's
/// source field. Reading a stored row back therefore yields the attributes
/// exactly as they were supplied.
pub proof fn lemma_full_row_determines_attributes(a: EnvelopeModel, b: EnvelopeModel)
    requires
        full_columns(a) == full_columns(b),
    ensures
        a.specversion == b.specversion,
        a.id == b.id,
        a.source == b.source,
        a.event_type == b.event_type,
        a.datacontenttype == b.datacontenttype,
        a.dataschema == b.dataschema,
        a.subject == b.subject,
        a.time == b.time,
{
    assert(full_columns(a)[0] == full_columns(b)[0]);
    assert(full_columns(a)[1] == full_columns(b)[1]);
    assert(full_columns(a)[2] == full_columns(b)[2]);
    assert(full_columns(a)[3] == full_columns(b)[3]);
    assert(full_columns(a)[4] == full_columns(b)[4]);
    assert(full_columns(a)[5] == full_columns(b)[5]);
    assert(full_columns(a)[6] == full_columns(b)[6]);
    assert(full_columns(a)[7] == full_columns(b)[7]);
}

/// In the reduced layout the promoted attributes are kept as supplied:
/// two envelopes that yield the same reduced row agree on id, source,
/// type and time.
pub proof fn lemma_reduced_row_determines_attributes(a: EnvelopeModel, b: EnvelopeModel)
    requires
        reduced_columns(a) == reduced_columns(b),
    ensures
        a.id == b.id,
        a.source == b.source,
        a.event_type == b.event_type,
        a.time == b.time,
{
    assert(reduced_columns(a)[0] == reduced_columns(b)[0]);
    assert(reduced_columns(a)[1] == reduced_columns(b)[1]);
    assert(reduced_columns(a)[2] == reduced_columns(b)[2]);
    assert(reduced_columns(a)[3] == reduced_columns(b)[3]);
}

/// Envelopes with distinct ids yield distinct rows, in either layout:
/// inserting many distinct events can never collapse two of them into one
/// row value.
pub proof fn lemma_distinct_ids_distinct_rows(a: EnvelopeModel, b: EnvelopeModel)
    requires
        a.id != b.id,
    ensures
        full_columns(a) != full_columns(b),
        reduced_columns(a) != reduced_columns(b),
{
    if full_columns(a) == full_columns(b) {
        lemma_full_row_determines_attributes(a, b);
    }
    if reduced_columns(a) == reduced_columns(b) {
        lemma_reduced_row_determines_attributes(a, b);
    }
}

/// An extension read by the integer column but supplied as text that does
/// not denote a number degrades: the column is null and a warning is
/// reported, while the rest of the row stands — the insert is not
/// rejected.
pub proof fn lemma_nonnumeric_error_code_degrades(e: EnvelopeModel, s: Seq<char>)
    requires
        find_ext(e.extensions, "knativeerrorcode"@) == Option::<ExtVal>::Some(ExtVal::Text(s)),
        dec_value(s) is None,
    ensures
        reduced_columns(e)[4] == ColModel::Null,
        reduced_warnings(e).contains(WarningModel::IntegerCoercion("knativeerrorcode"@)),
{
    assert(reduced_warnings(e)[0] == WarningModel::IntegerCoercion("knativeerrorcode"@));
}

/// Stringifying an integer loses nothing: the decimal text written into a
/// string column denotes exactly the value it came from, so reading it
/// back through the integer coercion restores the value.
pub proof fn lemma_integer_text_round_trip(v: i64)
    ensures
        dec_value(i64_text(v as int)) == Option::<i64>::Some(v),
{
    if v >= 0 {
        let s = dec_digits(v as nat);
        lemma_dec_digits_val(v as nat);
        assert(48 <= s[0] as u32 <= 57);
        assert(s[0] != '-' && s[0] != '+');
        assert(dec_value(s) == dec_magnitude(s, false));
        assert(digits_val(s) == v);
    } else {
        let m: nat = (-(v as int)) as nat;
        let d = dec_digits(m);
        lemma_dec_digits_val(m);
        let s = seq!['-'] + d;
        assert(i64_text(v as int) == s);
        assert(s[0] == '-');
        assert(s.skip(1) =~= d);
        assert(dec_value(s) == dec_magnitude(d, true));
        assert(digits_val(d) == m);
        assert(-digits_val(d) == v as int);
    }
}

/// A binary payload that is valid UTF-8 passes through as its decoded
/// text with no warning; one that is not valid UTF-8 yields a null data
/// column and a warning, never a failure.
pub proof fn lemma_binary_payload_handling(b: Seq<u8>)
    ensures
        valid_utf8(b) ==> payload_text(Option::Some(PayloadModel::Binary(b)))
            == Option::<Seq<char>>::Some(decode_utf8(b)),
        valid_utf8(b) ==> payload_warnings(Option::Some(PayloadModel::Binary(b))) =~= Seq::<
            WarningModel,
        >::empty(),
        !valid_utf8(b) ==> payload_text(Option::Some(PayloadModel::Binary(b))) is None,
        !valid_utf8(b) ==> payload_warnings(Option::Some(PayloadModel::Binary(b)))
            =~= seq![WarningModel::PayloadNotUtf8],
{
}

} // verus!
