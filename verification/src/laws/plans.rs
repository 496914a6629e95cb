//! Laws of plans.

use vstd::prelude::*;

use crate::arrow_type::{ArrowType, TimeUnit};
use crate::context::RuntimeConversionContext;
use crate::diagnostic::{DiagnosticCode, DiagnosticView, ErrorView};
use crate::direct::encoder::encoder_outcome;
use crate::direct::plan::{
    current_encoding, unsupported_diagnostics, CurrentDirectMappings, DirectColumnView,
};
use crate::laws::values::{is_bytes_type, is_text_type, writes_integers};
use crate::mapping::SchemaMappingView;
use crate::mssql_type::{MssqlTimePrecision, MssqlType};

verus! {

/// Whether columns of an Arrow type are encoded as columns of a SQL Server type.
pub open spec fn is_encoded_as(mapping: SchemaMappingView) -> bool {
    let data_type = mapping.arrow.data_type;
    match mapping.mssql.ty {
        MssqlType::Bit => data_type is Boolean,
        MssqlType::Decimal { precision, scale } => match data_type {
            ArrowType::Decimal32(_, found)
            | ArrowType::Decimal64(_, found)
            | ArrowType::Decimal128(_, found)
            | ArrowType::Decimal256(_, found) => 0 <= scale <= 37 && scale == if found < 0 {
                0
            } else {
                found as int
            },
            ArrowType::UInt64 => precision == 20 && scale == 0,
            _ => false,
        },
        MssqlType::Date => data_type is Date32,
        MssqlType::Time(precision) => match precision {
            MssqlTimePrecision::Zero => data_type == ArrowType::<Seq<char>>::Time32(
                TimeUnit::Second,
            ),
            MssqlTimePrecision::Three => data_type == ArrowType::<Seq<char>>::Time32(
                TimeUnit::Millisecond,
            ),
            MssqlTimePrecision::Six => data_type == ArrowType::<Seq<char>>::Time64(
                TimeUnit::Microsecond,
            ),
            MssqlTimePrecision::Seven => data_type == ArrowType::<Seq<char>>::Time64(
                TimeUnit::Nanosecond,
            ),
            _ => false,
        },
        MssqlType::DateTime => data_type is Timestamp,
        MssqlType::DateTime2 { precision } => data_type is Timestamp && precision <= 7 || data_type
            is Date64 && precision == 3,
        MssqlType::DateTimeOffset { precision } => data_type matches ArrowType::Timestamp(
            _,
            Some(_),
        ) && precision == 7,
        MssqlType::Real => data_type is Float16 || data_type is Float32,
        MssqlType::Float { precision } => data_type is Float64 && precision == 53,
        MssqlType::NVarChar(_) => is_text_type(data_type),
        MssqlType::VarBinary(_) => is_bytes_type(data_type),
        MssqlType::Binary(length) => data_type matches ArrowType::FixedSizeBinary(size) && 0 < size
            <= 8000 && size == length,
        ty => writes_integers(data_type, ty),
    }
}

/// A mapping is encoded exactly when its SQL Server type holds the values of its Arrow type.
pub proof fn law_mappings_are_encoded_where_they_fit(mapping: SchemaMappingView)
    ensures
        current_encoding(mapping) is Some <==> is_encoded_as(mapping),
{
}

/// Whether a planned column is that of a mapping.
pub open spec fn is_planned_from(column: DirectColumnView, mapping: SchemaMappingView) -> bool {
    &&& column.source_index == mapping.arrow.index
    &&& column.source_name == mapping.arrow.name
    &&& column.target_type == mapping.mssql.ty
    &&& column.nullable == mapping.mssql.nullable
    &&& Some(column.encoding) == current_encoding(mapping)
}

/// Whether a diagnostic reports a mapping that is not encoded.
pub open spec fn reports(diagnostic: DiagnosticView, mapping: SchemaMappingView) -> bool {
    &&& diagnostic.code == DiagnosticCode::DirectEncodingUnsupportedMapping
    &&& diagnostic.field == Some((mapping.arrow.index, mapping.arrow.name))
    &&& diagnostic.row is None
}

/// The mappings that are not encoded, in order.
pub open spec fn not_encoded(mappings: Seq<SchemaMappingView>) -> Seq<SchemaMappingView> {
    mappings.filter(|mapping: SchemaMappingView| !is_encoded_as(mapping))
}

/// An encoder has one planned column per mapping, in order, exactly when every mapping is encoded;
/// otherwise the error has one diagnostic per mapping that is not, in order.
pub proof fn law_encoders_plan_every_mapping(
    mappings: Seq<SchemaMappingView>,
    context: RuntimeConversionContext,
)
    ensures
        match encoder_outcome(CurrentDirectMappings, mappings, context) {
            Ok(encoder) => encoder.mappings == mappings && encoder.context == context
                && encoder.columns.len() == mappings.len() && (forall|i: int|
                0 <= i < mappings.len() ==> #[trigger] is_encoded_as(mappings[i])) && forall|i: int|
                0 <= i < mappings.len() ==> #[trigger] is_planned_from(
                    encoder.columns[i],
                    mappings[i],
                ),
            Err(error) => error matches ErrorView::DirectEncoding(diagnostics) && diagnostics.len()
                == not_encoded(mappings).len() && diagnostics.len() > 0 && forall|i: int|
                0 <= i < diagnostics.len() ==> #[trigger] reports(
                    diagnostics[i],
                    not_encoded(mappings)[i],
                ),
        },
{
    lemma_reported(mappings);
    assert forall|i: int| 0 <= i < mappings.len() implies (current_encoding(mappings[i]) is Some
        <==> #[trigger] is_encoded_as(mappings[i])) by {
        law_mappings_are_encoded_where_they_fit(mappings[i]);
    }
    if let Ok(encoder) = encoder_outcome(CurrentDirectMappings, mappings, context) {
        assert forall|i: int| 0 <= i < mappings.len() implies #[trigger] is_encoded_as(
            mappings[i],
        ) by {
            if !is_encoded_as(mappings[i]) {
                mappings.lemma_filter_contains(
                    |mapping: SchemaMappingView| !is_encoded_as(mapping),
                    i,
                );
            }
        }
        assert forall|i: int| 0 <= i < mappings.len() implies #[trigger] is_planned_from(
            encoder.columns[i],
            mappings[i],
        ) by {
            assert(is_encoded_as(mappings[i]));
            assert(current_encoding(mappings[i]) is Some);
        }
    }
}

/// The diagnostics of the mappings that are not encoded.
proof fn lemma_reported(mappings: Seq<SchemaMappingView>)
    ensures
        ({
            let diagnostics = unsupported_diagnostics(CurrentDirectMappings, mappings);
            &&& diagnostics.len() == not_encoded(mappings).len()
            &&& forall|i: int|
                0 <= i < diagnostics.len() ==> #[trigger] reports(
                    diagnostics[i],
                    not_encoded(mappings)[i],
                )
        }),
    decreases mappings.len(),
{
    reveal(Seq::filter);
    if mappings.len() > 0 {
        lemma_reported(mappings.drop_last());
        law_mappings_are_encoded_where_they_fit(mappings.last());
    }
}

} // verus!
