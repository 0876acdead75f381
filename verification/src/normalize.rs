//! The event normalizer: the pure mapping from an envelope to the ordered
//! column values of the target shape. It never fails as a whole; a field
//! that cannot be coerced degrades to null with a warning.

use vstd::prelude::*;
use vstd::utf8::{decode_utf8, valid_utf8};
use crate::envelope::{
    ext_pairs_model, opt_payload_model, opt_str_model, Envelope, EnvelopeModel,
    ExtVal, ExtensionValue, Payload, PayloadModel, json_value_text,
};
use crate::json::{ext_object_text, extensions_json};
use crate::num::{bool_text, bool_to_text, dec_value, i64_text, i64_to_text, parse_i64};
use crate::text::utf8_to_text;

verus! {

/// The two column layouts a deployment can be provisioned with. The choice
/// is made once, at startup; it is not reconciled further.
#[derive(Clone, Copy)]
pub enum TableShape {
    /// Every standard attribute, the extensions as one JSON blob, the
    /// payload as text.
    FullEnvelope,
    /// The dead-letter subset: three error extensions promoted to columns.
    Reduced,
}

/// One value bound positionally into the insert statement.
#[derive(Debug, Clone, PartialEq, Eq)]
pub enum ColumnValue {
    Null,
    Text(String),
    JsonText(String),
    Timestamp(String),
    Integer(i64),
}

/// The mathematical view of a column value.
pub enum ColModel {
    Null,
    Text(Seq<char>),
    JsonText(Seq<char>),
    Timestamp(Seq<char>),
    Integer(int),
}

impl View for ColumnValue {
    type V = ColModel;

    open spec fn view(&self) -> ColModel {
        match self {
            ColumnValue::Null => ColModel::Null,
            ColumnValue::Text(s) => ColModel::Text(s@),
            ColumnValue::JsonText(s) => ColModel::JsonText(s@),
            ColumnValue::Timestamp(s) => ColModel::Timestamp(s@),
            ColumnValue::Integer(i) => ColModel::Integer(*i as int),
        }
    }
}

/// A per-field degradation, reported beside the row rather than logged
/// from within the mapping, which stays pure.
#[derive(Debug, Clone, PartialEq, Eq)]
pub enum Warning {
    /// An extension read by an integer column held text that does not
    /// denote a number, or a boolean.
    IntegerCoercion(String),
    /// A binary payload was not valid UTF-8; the data column is null.
    PayloadNotUtf8,
}

/// The mathematical view of a warning.
pub enum WarningModel {
    IntegerCoercion(Seq<char>),
    PayloadNotUtf8,
}

impl View for Warning {
    type V = WarningModel;

    open spec fn view(&self) -> WarningModel {
        match self {
            Warning::IntegerCoercion(s) => WarningModel::IntegerCoercion(s@),
            Warning::PayloadNotUtf8 => WarningModel::PayloadNotUtf8,
        }
    }
}

/// The outcome of normalization: the column values in the order of the
/// target layout, and the degradations that occurred on the way.
pub struct NormalizedRow {
    pub columns: Vec<ColumnValue>,
    pub warnings: Vec<Warning>,
}

pub open spec fn cols_model(v: Seq<ColumnValue>) -> Seq<ColModel> {
    v.map_values(|c: ColumnValue| c@)
}

pub open spec fn warns_model(v: Seq<Warning>) -> Seq<WarningModel> {
    v.map_values(|w: Warning| w@)
}

/// The text the data column receives: serialized JSON as it stands, text
/// unchanged, binary read as UTF-8 where possible and dropped otherwise.
pub open spec fn payload_text(p: Option<PayloadModel>) -> Option<Seq<char>> {
    match p {
        Option::None => Option::None,
        Option::Some(PayloadModel::Json(j)) => Option::Some(j),
        Option::Some(PayloadModel::Text(t)) => Option::Some(t),
        Option::Some(PayloadModel::Binary(b)) => if valid_utf8(b) {
            Option::Some(decode_utf8(b))
        } else {
            Option::None
        },
    }
}

pub open spec fn payload_warnings(p: Option<PayloadModel>) -> Seq<WarningModel> {
    match p {
        Option::Some(PayloadModel::Binary(b)) => if valid_utf8(b) {
            Seq::empty()
        } else {
            seq![WarningModel::PayloadNotUtf8]
        },
        _ => Seq::empty(),
    }
}

pub open spec fn opt_text_col(o: Option<Seq<char>>) -> ColModel {
    match o {
        Option::Some(s) => ColModel::Text(s),
        Option::None => ColModel::Null,
    }
}

pub open spec fn opt_time_col(o: Option<Seq<char>>) -> ColModel {
    match o {
        Option::Some(s) => ColModel::Timestamp(s),
        Option::None => ColModel::Null,
    }
}

/// The first extension of the given name, if any. Under `keys_unique` it is
/// the only one.
pub open spec fn find_ext(exts: Seq<(Seq<char>, ExtVal)>, name: Seq<char>) -> Option<ExtVal>
    decreases exts.len(),
{
    if exts.len() == 0 {
        Option::None
    } else if exts[0].0 == name {
        Option::Some(exts[0].1)
    } else {
        find_ext(exts.drop_first(), name)
    }
}

/// An extension read by an integer column: an integer passes through, text
/// is parsed as a decimal number, anything else degrades to null.
pub open spec fn integer_col(v: Option<ExtVal>) -> ColModel {
    match v {
        Option::None => ColModel::Null,
        Option::Some(ExtVal::Integer(i)) => ColModel::Integer(i),
        Option::Some(ExtVal::Text(s)) => match dec_value(s) {
            Option::Some(n) => ColModel::Integer(n as int),
            Option::None => ColModel::Null,
        },
        Option::Some(ExtVal::Boolean(_)) => ColModel::Null,
    }
}

pub open spec fn integer_col_warnings(name: Seq<char>, v: Option<ExtVal>) -> Seq<WarningModel> {
    match v {
        Option::Some(ExtVal::Text(s)) => if dec_value(s) is None {
            seq![WarningModel::IntegerCoercion(name)]
        } else {
            Seq::empty()
        },
        Option::Some(ExtVal::Boolean(_)) => seq![WarningModel::IntegerCoercion(name)],
        _ => Seq::empty(),
    }
}

/// An extension read by a string column: text passes through, a boolean or
/// an integer is stringified.
pub open spec fn ext_string_text(v: ExtVal) -> Seq<char> {
    match v {
        ExtVal::Text(s) => s,
        ExtVal::Boolean(b) => bool_text(b),
        ExtVal::Integer(i) => i64_text(i),
    }
}

pub open spec fn string_col(v: Option<ExtVal>) -> ColModel {
    match v {
        Option::None => ColModel::Null,
        Option::Some(w) => ColModel::Text(ext_string_text(w)),
    }
}

/// The columns of the full-envelope layout, in DDL order. `created_on` is
/// assigned by the storage engine and is not bound.
pub open spec fn full_columns(e: EnvelopeModel) -> Seq<ColModel> {
    seq![
        ColModel::Text(e.specversion),
        ColModel::Text(e.id),
        ColModel::Text(e.source),
        ColModel::Text(e.event_type),
        opt_text_col(e.datacontenttype),
        opt_text_col(e.dataschema),
        opt_text_col(e.subject),
        opt_time_col(e.time),
        ColModel::JsonText(ext_object_text(e.extensions)),
        opt_text_col(payload_text(e.data)),
    ]
}

pub open spec fn full_warnings(e: EnvelopeModel) -> Seq<WarningModel> {
    payload_warnings(e.data)
}

/// The columns of the reduced dead-letter layout, in DDL order.
pub open spec fn reduced_columns(e: EnvelopeModel) -> Seq<ColModel> {
    seq![
        ColModel::Text(e.id),
        ColModel::Text(e.source),
        ColModel::Text(e.event_type),
        opt_time_col(e.time),
        integer_col(find_ext(e.extensions, "knativeerrorcode"@)),
        string_col(find_ext(e.extensions, "knativeerrordata"@)),
        string_col(find_ext(e.extensions, "knativeerrordest"@)),
        opt_text_col(payload_text(e.data)),
    ]
}

pub open spec fn reduced_warnings(e: EnvelopeModel) -> Seq<WarningModel> {
    integer_col_warnings("knativeerrorcode"@, find_ext(e.extensions, "knativeerrorcode"@))
        + payload_warnings(e.data)
}

pub open spec fn shape_columns(shape: TableShape, e: EnvelopeModel) -> Seq<ColModel> {
    match shape {
        TableShape::FullEnvelope => full_columns(e),
        TableShape::Reduced => reduced_columns(e),
    }
}

pub open spec fn shape_warnings(shape: TableShape, e: EnvelopeModel) -> Seq<WarningModel> {
    match shape {
        TableShape::FullEnvelope => full_warnings(e),
        TableShape::Reduced => reduced_warnings(e),
    }
}

proof fn lemma_find_ext_step(m: Seq<(Seq<char>, ExtVal)>, name: Seq<char>, i: int)
    requires
        0 <= i < m.len(),
    ensures
        m[i].0 == name ==> find_ext(m.skip(i), name) == Option::Some(m[i].1),
        m[i].0 != name ==> find_ext(m.skip(i), name) == find_ext(m.skip(i + 1), name),
{
    assert(m.skip(i).len() == m.len() - i);
    assert(m.skip(i)[0] == m[i]);
    assert(m.skip(i).drop_first() =~= m.skip(i + 1));
}

/// Index of the first extension of the given name.
fn find_extension(exts: &Vec<(String, ExtensionValue)>, name: &String) -> (r: Option<usize>)
    ensures
        r matches Option::Some(i) ==> i < exts@.len() && ext_pairs_model(exts@)[i as int].0
            == name@ && find_ext(ext_pairs_model(exts@), name@) == Option::Some(
            ext_pairs_model(exts@)[i as int].1,
        ),
        r is None ==> find_ext(ext_pairs_model(exts@), name@) is None,
{
    let ghost m: Seq<(Seq<char>, ExtVal)> = ext_pairs_model(exts@);
    proof {
        assert(m.skip(0) =~= m);
    }
    let mut i: usize = 0;
    while i < exts.len()
        invariant
            i <= exts.len(),
            m == ext_pairs_model(exts@),
            m.len() == exts@.len(),
            find_ext(m, name@) == find_ext(m.skip(i as int), name@),
        decreases exts.len() - i,
    {
        let p: &(String, ExtensionValue) = &exts[i];
        proof {
            assert(m[i as int] == (exts@[i as int].0@, exts@[i as int].1@));
            lemma_find_ext_step(m, name@, i as int);
        }
        if p.0 == *name {
            return Option::Some(i);
        }
        i = i + 1;
    }
    proof {
        assert(m.skip(m.len() as int) =~= Seq::<(Seq<char>, ExtVal)>::empty());
    }
    Option::None
}

/// Normalize the payload to the text of the data column, accumulating a
/// warning when a binary payload is not valid UTF-8.
fn normalize_payload(data: &Option<Payload>, warnings: &mut Vec<Warning>) -> (r: Option<String>)
    ensures
        opt_str_model(r) == payload_text(opt_payload_model(*data)),
        warns_model(final(warnings)@) == warns_model(old(warnings)@) + payload_warnings(
            opt_payload_model(*data),
        ),
{
    match data {
        Option::None => {
            assert(warns_model(warnings@) =~= warns_model(warnings@) + payload_warnings(
                opt_payload_model(*data),
            ));
            Option::None
        },
        Option::Some(Payload::Json(v)) => {
            assert(warns_model(warnings@) =~= warns_model(warnings@) + payload_warnings(
                opt_payload_model(*data),
            ));
            Option::Some(json_value_text(v))
        },
        Option::Some(Payload::Text(s)) => {
            assert(warns_model(warnings@) =~= warns_model(warnings@) + payload_warnings(
                opt_payload_model(*data),
            ));
            Option::Some(s.clone())
        },
        Option::Some(Payload::Binary(b)) => {
            match utf8_to_text(b) {
                Option::Some(s) => {
                    assert(warns_model(warnings@) =~= warns_model(warnings@) + payload_warnings(
                        opt_payload_model(*data),
                    ));
                    Option::Some(s)
                },
                Option::None => {
                    warnings.push(Warning::PayloadNotUtf8);
                    assert(warns_model(warnings@) =~= warns_model(old(warnings)@)
                        + payload_warnings(opt_payload_model(*data)));
                    Option::None
                },
            }
        },
    }
}

fn opt_text_value(o: &Option<String>) -> (c: ColumnValue)
    ensures
        c@ == opt_text_col(opt_str_model(*o)),
{
    match o {
        Option::Some(s) => ColumnValue::Text(s.clone()),
        Option::None => ColumnValue::Null,
    }
}

fn opt_time_value(o: &Option<String>) -> (c: ColumnValue)
    ensures
        c@ == opt_time_col(opt_str_model(*o)),
{
    match o {
        Option::Some(s) => ColumnValue::Timestamp(s.clone()),
        Option::None => ColumnValue::Null,
    }
}

fn data_col_value(d: Option<String>) -> (c: ColumnValue)
    ensures
        c@ == opt_text_col(opt_str_model(d)),
{
    match d {
        Option::Some(s) => ColumnValue::Text(s),
        Option::None => ColumnValue::Null,
    }
}

/// An extension read by an integer column, with its degradation warning.
fn integer_ext_value(
    exts: &Vec<(String, ExtensionValue)>,
    name: &String,
    warnings: &mut Vec<Warning>,
) -> (c: ColumnValue)
    ensures
        c@ == integer_col(find_ext(ext_pairs_model(exts@), name@)),
        warns_model(final(warnings)@) == warns_model(old(warnings)@) + integer_col_warnings(
            name@,
            find_ext(ext_pairs_model(exts@), name@),
        ),
{
    let ghost found: Option<ExtVal> = find_ext(ext_pairs_model(exts@), name@);
    match find_extension(exts, name) {
        Option::None => {
            assert(warns_model(warnings@) =~= warns_model(warnings@) + integer_col_warnings(
                name@,
                found,
            ));
            ColumnValue::Null
        },
        Option::Some(i) => {
            let p: &(String, ExtensionValue) = &exts[i];
            proof {
                assert(ext_pairs_model(exts@)[i as int] == (exts@[i as int].0@, exts@[i as int].1@));
            }
            match &p.1 {
                ExtensionValue::Integer(v) => {
                    assert(warns_model(warnings@) =~= warns_model(warnings@)
                        + integer_col_warnings(name@, found));
                    ColumnValue::Integer(*v)
                },
                ExtensionValue::Boolean(_) => {
                    warnings.push(Warning::IntegerCoercion(name.clone()));
                    assert(warns_model(warnings@) =~= warns_model(old(warnings)@)
                        + integer_col_warnings(name@, found));
                    ColumnValue::Null
                },
                ExtensionValue::Text(s) => {
                    match parse_i64(s.as_str()) {
                        Option::Some(v) => {
                            assert(warns_model(warnings@) =~= warns_model(warnings@)
                                + integer_col_warnings(name@, found));
                            ColumnValue::Integer(v)
                        },
                        Option::None => {
                            warnings.push(Warning::IntegerCoercion(name.clone()));
                            assert(warns_model(warnings@) =~= warns_model(old(warnings)@)
                                + integer_col_warnings(name@, found));
                            ColumnValue::Null
                        },
                    }
                },
            }
        },
    }
}

/// An extension read by a string column.
fn string_ext_value(exts: &Vec<(String, ExtensionValue)>, name: &String) -> (c: ColumnValue)
    ensures
        c@ == string_col(find_ext(ext_pairs_model(exts@), name@)),
{
    match find_extension(exts, name) {
        Option::None => ColumnValue::Null,
        Option::Some(i) => {
            let p: &(String, ExtensionValue) = &exts[i];
            proof {
                assert(ext_pairs_model(exts@)[i as int] == (exts@[i as int].0@, exts@[i as int].1@));
            }
            match &p.1 {
                ExtensionValue::Text(s) => ColumnValue::Text(s.clone()),
                ExtensionValue::Boolean(b) => ColumnValue::Text(bool_to_text(*b)),
                ExtensionValue::Integer(v) => ColumnValue::Text(i64_to_text(*v)),
            }
        },
    }
}

fn normalize_full(env: &Envelope) -> (r: NormalizedRow)
    ensures
        cols_model(r.columns@) == full_columns(env@),
        warns_model(r.warnings@) == full_warnings(env@),
{
    let mut warnings: Vec<Warning> = Vec::new();
    let data_text: Option<String> = normalize_payload(&env.data, &mut warnings);
    let columns: Vec<ColumnValue> = vec![
        ColumnValue::Text(env.specversion.clone()),
        ColumnValue::Text(env.id.clone()),
        ColumnValue::Text(env.source.clone()),
        ColumnValue::Text(env.event_type.clone()),
        opt_text_value(&env.datacontenttype),
        opt_text_value(&env.dataschema),
        opt_text_value(&env.subject),
        opt_time_value(&env.time),
        ColumnValue::JsonText(extensions_json(&env.extensions)),
        data_col_value(data_text),
    ];
    proof {
        assert(cols_model(columns@) =~= full_columns(env@));
        assert(warns_model(warnings@) =~= full_warnings(env@));
    }
    NormalizedRow { columns, warnings }
}

fn normalize_reduced(env: &Envelope) -> (r: NormalizedRow)
    ensures
        cols_model(r.columns@) == reduced_columns(env@),
        warns_model(r.warnings@) == reduced_warnings(env@),
{
    let code_name: String = String::from_str("knativeerrorcode");
    let data_name: String = String::from_str("knativeerrordata");
    let dest_name: String = String::from_str("knativeerrordest");
    let mut warnings: Vec<Warning> = Vec::new();
    let code_col: ColumnValue = integer_ext_value(&env.extensions, &code_name, &mut warnings);
    let data_text: Option<String> = normalize_payload(&env.data, &mut warnings);
    let columns: Vec<ColumnValue> = vec![
        ColumnValue::Text(env.id.clone()),
        ColumnValue::Text(env.source.clone()),
        ColumnValue::Text(env.event_type.clone()),
        opt_time_value(&env.time),
        code_col,
        string_ext_value(&env.extensions, &data_name),
        string_ext_value(&env.extensions, &dest_name),
        data_col_value(data_text),
    ];
    proof {
        assert(cols_model(columns@) =~= reduced_columns(env@));
        assert(warns_model(warnings@) =~= reduced_warnings(env@));
    }
    NormalizedRow { columns, warnings }
}

/// Map an envelope to the ordered column values of the chosen layout. The
/// mapping is total: a field that cannot be coerced becomes null and is
/// reported as a warning, never as a failure.
pub fn normalize(env: &Envelope, shape: TableShape) -> (r: NormalizedRow)
    ensures
        cols_model(r.columns@) == shape_columns(shape, env@),
        warns_model(r.warnings@) == shape_warnings(shape, env@),
{
    match shape {
        TableShape::FullEnvelope => normalize_full(env),
        TableShape::Reduced => normalize_reduced(env),
    }
}

} // verus!
