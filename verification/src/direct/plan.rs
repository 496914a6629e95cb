//! Support checks for the direct raw TDS encoder.

use vstd::prelude::*;

use crate::arrow_type::{arrow_type_name, data_type_text};
use crate::classify::{
    decimal_class, fixed_size_binary_class, primitive_class, temporal_class, uint64_class,
    variable_width_class, DecimalArrowToMssql, FixedSizeBinaryArrowToMssql, PrimitiveArrowToMssql,
    TemporalArrowToMssql, UInt64ArrowToMssql, VariableWidthArrowToMssql,
};
use crate::diagnostic::{
    Diagnostic, DiagnosticCode, DiagnosticSet, DiagnosticView, Error, ErrorView, FieldRef, Result,
};
use crate::mapping::{mapping_views, SchemaMapping, SchemaMappingView};
use crate::message::MessageOf;
use crate::mssql_type::{mssql_type_text, MssqlType};
use crate::value_error::mapping_view;

verus! {

/// Support status for one planned mapping, over the representation `S` of text.
#[derive(Debug, PartialEq, Eq)]
pub enum DirectMappingSupportOf<S> {
    /// The planned mapping is supported by the current direct encoder.
    Supported {
        /// Concrete direct encoding selected for the mapping.
        encoding: DirectColumnEncoding,
    },
    /// The planned mapping is not supported by the current direct encoder.
    Unsupported {
        /// Human-readable reason the mapping is unsupported.
        reason: S,
    },
}

/// Support status for one planned mapping in the direct encoder.
pub type DirectMappingSupport = DirectMappingSupportOf<String>;

/// Support status as contracts speak of it.
pub type DirectMappingSupportView = DirectMappingSupportOf<Seq<char>>;

impl View for DirectMappingSupportOf<String> {
    type V = DirectMappingSupportOf<Seq<char>>;

    open spec fn view(&self) -> DirectMappingSupportOf<Seq<char>> {
        match *self {
            DirectMappingSupportOf::Supported { encoding } => DirectMappingSupportOf::Supported {
                encoding,
            },
            DirectMappingSupportOf::Unsupported { reason } => DirectMappingSupportOf::Unsupported {
                reason: reason@,
            },
        }
    }
}

/// Concrete direct encoding selected for one planned column.
#[derive(Debug, Clone, Copy, PartialEq, Eq, Hash, Structural)]
pub enum DirectColumnEncoding {
    /// Fixed-width primitive encoding.
    Primitive(PrimitiveArrowToMssql),
    /// Arrow UInt64 to SQL Server `decimal(20,0)`.
    UInt64Decimal20_0,
    /// Arrow decimal to SQL Server `decimal(p,s)`.
    Decimal(DecimalArrowToMssql),
    /// Variable-width encoding.
    VariableWidth(VariableWidthArrowToMssql),
    /// Fixed-size binary encoding.
    FixedSizeBinary(FixedSizeBinaryArrowToMssql),
    /// Temporal encoding.
    Temporal(TemporalArrowToMssql),
}

/// Direct encoder support policy.
pub trait DirectEncoderSupport {
    /// The support status of a planned mapping: unsupported, unless the policy says otherwise.
    open spec fn support(&self, mapping: SchemaMappingView) -> DirectMappingSupportView {
        generic_unsupported(mapping)
    }

    /// Returns support status for a planned mapping.
    fn support_mapping(&self, mapping: &SchemaMapping) -> (support: DirectMappingSupport)
        ensures
            support@ == self.support(mapping@),
    ;
}

/// Direct encoder support policy that supports no mapping.
#[derive(Debug, Clone, Copy, PartialEq, Eq, Hash)]
pub struct NoDirectMappings;

impl DirectEncoderSupport for NoDirectMappings {
    fn support_mapping(&self, mapping: &SchemaMapping) -> (support: DirectMappingSupport) {
        DirectMappingSupportOf::Unsupported { reason: generic_unsupported_reason(mapping) }
    }
}

/// Direct encoder support policy for the direct mappings of this library.
#[derive(Debug, Clone, Copy, PartialEq, Eq, Hash)]
pub struct CurrentDirectMappings;

impl DirectEncoderSupport for CurrentDirectMappings {
    open spec fn support(&self, mapping: SchemaMappingView) -> DirectMappingSupportView {
        match current_encoding(mapping) {
            Some(encoding) => DirectMappingSupportOf::Supported { encoding },
            None => generic_unsupported(mapping),
        }
    }

    fn support_mapping(&self, mapping: &SchemaMapping) -> (support: DirectMappingSupport) {
        match PrimitiveArrowToMssql::classify(mapping) {
            Some(classification) => DirectMappingSupportOf::Supported {
                encoding: DirectColumnEncoding::Primitive(classification),
            },
            None => decimal_support(mapping),
        }
    }
}

/// The status of a mapping that nothing supports.
pub open spec fn generic_unsupported(mapping: SchemaMappingView) -> DirectMappingSupportView {
    DirectMappingSupportOf::Unsupported { reason: generic_unsupported_text(mapping) }
}

/// The reason why nothing supports a mapping.
pub open spec fn generic_unsupported_text(mapping: SchemaMappingView) -> Seq<char> {
    "direct encoding is not implemented yet for Arrow "@ + data_type_text(mapping.arrow.data_type)
        + " to SQL Server "@ + mssql_type_text(mapping.mssql.ty)
}

/// The encoding of a temporal mapping.
pub open spec fn temporal_encoding(mapping: SchemaMappingView) -> Option<DirectColumnEncoding> {
    match temporal_class(mapping) {
        Some(class) => Some(DirectColumnEncoding::Temporal(class)),
        None => None,
    }
}

/// The encoding of a fixed-size binary or temporal mapping.
pub open spec fn fixed_size_binary_encoding(mapping: SchemaMappingView) -> Option<
    DirectColumnEncoding,
> {
    match fixed_size_binary_class(mapping) {
        Some(class) => Some(DirectColumnEncoding::FixedSizeBinary(class)),
        None => temporal_encoding(mapping),
    }
}

/// The encoding of a variable-width, fixed-size binary or temporal mapping.
pub open spec fn variable_width_encoding(mapping: SchemaMappingView) -> Option<
    DirectColumnEncoding,
> {
    match variable_width_class(mapping) {
        Some(class) => Some(DirectColumnEncoding::VariableWidth(class)),
        None => fixed_size_binary_encoding(mapping),
    }
}

/// The encoding of a mapping that is neither primitive nor decimal.
pub open spec fn uint64_encoding(mapping: SchemaMappingView) -> Option<DirectColumnEncoding> {
    match uint64_class(mapping) {
        Some(UInt64ArrowToMssql::Decimal20_0) => Some(DirectColumnEncoding::UInt64Decimal20_0),
        Some(UInt64ArrowToMssql::CheckedBigInt) => Some(
            DirectColumnEncoding::Primitive(PrimitiveArrowToMssql::UInt64ToCheckedBigInt),
        ),
        None => variable_width_encoding(mapping),
    }
}

/// The encoding of a mapping that is not primitive.
pub open spec fn decimal_encoding(mapping: SchemaMappingView) -> Option<DirectColumnEncoding> {
    match decimal_class(mapping) {
        Some(class) => Some(DirectColumnEncoding::Decimal(class)),
        None => uint64_encoding(mapping),
    }
}

/// The encoding of a mapping: the first family that classifies it decides.
pub open spec fn current_encoding(mapping: SchemaMappingView) -> Option<DirectColumnEncoding> {
    match primitive_class(mapping) {
        Some(class) => Some(DirectColumnEncoding::Primitive(class)),
        None => decimal_encoding(mapping),
    }
}

/// The status of a mapping by its encoding.
pub open spec fn support_of(
    mapping: SchemaMappingView,
    encoding: Option<DirectColumnEncoding>,
) -> DirectMappingSupportView {
    match encoding {
        Some(encoding) => DirectMappingSupportOf::Supported { encoding },
        None => generic_unsupported(mapping),
    }
}

/// Returns support status for a mapping that is not primitive.
pub fn decimal_support(mapping: &SchemaMapping) -> (support: DirectMappingSupport)
    ensures
        support@ == support_of(mapping@, decimal_encoding(mapping@)),
{
    match DecimalArrowToMssql::classify(mapping) {
        Some(classification) => DirectMappingSupportOf::Supported {
            encoding: DirectColumnEncoding::Decimal(classification),
        },
        None => uint64_support(mapping),
    }
}

/// Returns support status for a mapping that is neither primitive nor decimal.
pub fn uint64_support(mapping: &SchemaMapping) -> (support: DirectMappingSupport)
    ensures
        support@ == support_of(mapping@, uint64_encoding(mapping@)),
{
    match UInt64ArrowToMssql::classify(mapping) {
        Some(UInt64ArrowToMssql::Decimal20_0) => DirectMappingSupportOf::Supported {
            encoding: DirectColumnEncoding::UInt64Decimal20_0,
        },
        Some(UInt64ArrowToMssql::CheckedBigInt) => DirectMappingSupportOf::Supported {
            encoding: DirectColumnEncoding::Primitive(PrimitiveArrowToMssql::UInt64ToCheckedBigInt),
        },
        None => variable_width_support(mapping),
    }
}

/// Returns support status for a variable-width, fixed-size binary or temporal mapping.
pub fn variable_width_support(mapping: &SchemaMapping) -> (support: DirectMappingSupport)
    ensures
        support@ == support_of(mapping@, variable_width_encoding(mapping@)),
{
    match VariableWidthArrowToMssql::classify(mapping) {
        Some(classification) => DirectMappingSupportOf::Supported {
            encoding: DirectColumnEncoding::VariableWidth(classification),
        },
        None => fixed_size_binary_support(mapping),
    }
}

/// Returns support status for a fixed-size binary or temporal mapping.
pub fn fixed_size_binary_support(mapping: &SchemaMapping) -> (support: DirectMappingSupport)
    ensures
        support@ == support_of(mapping@, fixed_size_binary_encoding(mapping@)),
{
    match FixedSizeBinaryArrowToMssql::classify(mapping) {
        Some(classification) => DirectMappingSupportOf::Supported {
            encoding: DirectColumnEncoding::FixedSizeBinary(classification),
        },
        None => temporal_support(mapping),
    }
}

/// Returns support status for a temporal mapping.
pub fn temporal_support(mapping: &SchemaMapping) -> (support: DirectMappingSupport)
    ensures
        support@ == support_of(mapping@, temporal_encoding(mapping@)),
{
    match TemporalArrowToMssql::classify(mapping) {
        Some(classification) => DirectMappingSupportOf::Supported {
            encoding: DirectColumnEncoding::Temporal(classification),
        },
        None => DirectMappingSupportOf::Unsupported { reason: generic_unsupported_reason(mapping) },
    }
}

/// Planned direct encoder column.
#[derive(Debug, PartialEq, Eq)]
pub struct DirectColumnPlan {
    source_index: usize,
    source_name: String,
    target_type: MssqlType,
    nullable: bool,
    encoding: DirectColumnEncoding,
}

/// What contracts know of a [`DirectColumnPlan`].
#[verifier::ext_equal]
pub struct DirectColumnView {
    /// Index of the source field.
    pub source_index: usize,
    /// Name of the source field.
    pub source_name: Seq<char>,
    /// SQL Server type.
    pub target_type: MssqlType,
    /// Whether the target column allows nulls.
    pub nullable: bool,
    /// Direct encoding.
    pub encoding: DirectColumnEncoding,
}

impl View for DirectColumnPlan {
    type V = DirectColumnView;

    closed spec fn view(&self) -> DirectColumnView {
        DirectColumnView {
            source_index: self.source_index,
            source_name: self.source_name@,
            target_type: self.target_type,
            nullable: self.nullable,
            encoding: self.encoding,
        }
    }
}

/// The column of a mapping with an encoding.
pub open spec fn column_of(
    mapping: SchemaMappingView,
    encoding: DirectColumnEncoding,
) -> DirectColumnView {
    DirectColumnView {
        source_index: mapping.arrow.index,
        source_name: mapping.arrow.name,
        target_type: mapping.mssql.ty,
        nullable: mapping.mssql.nullable,
        encoding,
    }
}

impl DirectColumnPlan {
    /// Creates a direct encoder column plan from a schema mapping.
    pub fn from_mapping(mapping: &SchemaMapping, encoding: DirectColumnEncoding) -> (column: Self)
        ensures
            column@ == column_of(mapping@, encoding),
    {
        DirectColumnPlan {
            source_index: mapping.arrow().index(),
            source_name: mapping.arrow().name().to_owned(),
            target_type: *mapping.mssql().ty(),
            nullable: mapping.mssql().nullable(),
            encoding,
        }
    }

    /// Returns the Arrow source index.
    pub fn source_index(&self) -> (index: usize)
        ensures
            index == self@.source_index,
    {
        self.source_index
    }

    /// Returns the Arrow source name.
    pub fn source_name(&self) -> (name: &str)
        ensures
            name@ == self@.source_name,
    {
        self.source_name.as_str()
    }

    /// Returns the planned SQL Server type.
    pub fn target_type(&self) -> (ty: &MssqlType)
        ensures
            *ty == self@.target_type,
    {
        &self.target_type
    }

    /// Returns true when the target column allows nulls.
    pub fn nullable(&self) -> (nullable: bool)
        ensures
            nullable == self@.nullable,
    {
        self.nullable
    }

    /// Returns the selected direct encoding.
    pub fn encoding(&self) -> (encoding: DirectColumnEncoding)
        ensures
            encoding == self@.encoding,
    {
        self.encoding
    }
}

/// Direct encoder support-checked plan.
#[derive(Debug, PartialEq, Eq)]
pub struct DirectEncoderPlan {
    columns: Vec<DirectColumnPlan>,
}

impl View for DirectEncoderPlan {
    type V = Seq<DirectColumnView>;

    closed spec fn view(&self) -> Seq<DirectColumnView> {
        column_views(self.columns@)
    }
}

/// The views of a list of columns.
pub open spec fn column_views(columns: Seq<DirectColumnPlan>) -> Seq<DirectColumnView> {
    columns.map_values(|column: DirectColumnPlan| column@)
}

/// The diagnostics of the mappings that a policy does not support, in order.
pub open spec fn unsupported_diagnostics<P: DirectEncoderSupport>(
    support: P,
    mappings: Seq<SchemaMappingView>,
) -> Seq<DiagnosticView>
    decreases mappings.len(),
{
    if mappings.len() == 0 {
        Seq::empty()
    } else {
        let earlier = unsupported_diagnostics(support, mappings.drop_last());
        match support.support(mappings.last()) {
            DirectMappingSupportOf::Supported { encoding } => earlier,
            DirectMappingSupportOf::Unsupported { reason } => earlier.push(
                unsupported_view(mappings.last(), reason),
            ),
        }
    }
}

/// The columns of mappings that a policy supports, one per mapping.
pub open spec fn planned_columns<P: DirectEncoderSupport>(
    support: P,
    mappings: Seq<SchemaMappingView>,
) -> Seq<DirectColumnView> {
    mappings.map_values(
        |mapping: SchemaMappingView| column_of(mapping, support.support(mapping)->encoding),
    )
}

/// The outcome of planning: the columns, or a diagnostic per unsupported mapping.
pub open spec fn plan_outcome<P: DirectEncoderSupport>(
    support: P,
    mappings: Seq<SchemaMappingView>,
) -> core::result::Result<Seq<DirectColumnView>, ErrorView> {
    let diagnostics = unsupported_diagnostics(support, mappings);
    if diagnostics.len() > 0 {
        Err(ErrorView::DirectEncoding(diagnostics))
    } else {
        Ok(planned_columns(support, mappings))
    }
}

impl DirectEncoderPlan {
    /// Builds a direct encoder plan after validating all mappings are supported.
    pub fn new<P: DirectEncoderSupport>(mappings: &[SchemaMapping], support: &P) -> (result: Result<
        Self,
    >)
        ensures
            match plan_outcome(*support, mapping_views(mappings@)) {
                Ok(columns) => result matches Ok(plan) && plan@ == columns,
                Err(view) => result matches Err(error) && error@ == view,
            },
    {
        let ghost views = mapping_views(mappings@);
        let mut diagnostics = DiagnosticSet::new();
        let mut columns: Vec<DirectColumnPlan> = Vec::with_capacity(mappings.len());
        let mut index: usize = 0;
        assert(views.take(0) =~= Seq::empty());
        while index < mappings.len()
            invariant
                index <= mappings.len(),
                views == mapping_views(mappings@),
                diagnostics@ == unsupported_diagnostics(*support, views.take(index as int)),
                diagnostics@.len() == 0 ==> column_views(columns@) == planned_columns(
                    *support,
                    views.take(index as int),
                ),
            decreases mappings.len() - index,
        {
            let mapping = &mappings[index];
            proof {
                let next = views.take(index + 1);
                assert(next.drop_last() =~= views.take(index as int));
                assert(next.last() == mapping@);
            }
            match support.support_mapping(mapping) {
                DirectMappingSupportOf::Supported { encoding } => {
                    let ghost before = columns@;
                    columns.push(DirectColumnPlan::from_mapping(mapping, encoding));
                    proof {
                        assert(column_views(columns@) =~= column_views(before).push(
                            column_of(mapping@, encoding),
                        ));
                        assert(planned_columns(*support, views.take(index + 1))
                            =~= planned_columns(*support, views.take(index as int)).push(
                            column_of(mapping@, support.support(mapping@)->encoding),
                        ));
                    }
                },
                DirectMappingSupportOf::Unsupported { reason } => {
                    diagnostics.push(unsupported_mapping_diagnostic(mapping, reason));
                },
            }
            index += 1;
        }
        assert(views.take(views.len() as int) =~= views);
        if diagnostics.has_errors() {
            return Err(Error::DirectEncoding { diagnostics });
        }
        Ok(DirectEncoderPlan { columns })
    }

    /// Returns the checked direct columns.
    pub fn columns(&self) -> (columns: &[DirectColumnPlan])
        ensures
            column_views(columns@) == self@,
    {
        self.columns.as_slice()
    }

    /// Returns the number of checked direct columns.
    pub fn column_count(&self) -> (count: usize)
        ensures
            count == self@.len(),
    {
        self.columns.len()
    }

    /// Returns true when there are no columns.
    pub fn is_empty(&self) -> (result: bool)
        ensures
            result == (self@.len() == 0),
    {
        self.columns.len() == 0
    }
}

/// The diagnostic of a mapping that a policy does not support.
pub open spec fn unsupported_view(mapping: SchemaMappingView, reason: Seq<char>) -> DiagnosticView {
    mapping_view(
        mapping,
        DiagnosticCode::DirectEncodingUnsupportedMapping,
        MessageOf::Reason { text: reason },
    )
}

/// Creates the diagnostic of a mapping that a policy does not support.
pub fn unsupported_mapping_diagnostic(mapping: &SchemaMapping, reason: String) -> (diagnostic:
    Diagnostic)
    ensures
        diagnostic@ == unsupported_view(mapping@, reason@),
{
    Diagnostic::error(
        DiagnosticCode::DirectEncodingUnsupportedMapping,
        MessageOf::Reason { text: reason },
    ).with_field(FieldRef::new(mapping.arrow().index(), mapping.arrow().name()))
}

/// Says why nothing supports a mapping.
pub fn generic_unsupported_reason(mapping: &SchemaMapping) -> (reason: String)
    ensures
        reason@ == generic_unsupported_text(mapping@),
{
    let mut reason = String::from_str("direct encoding is not implemented yet for Arrow ");
    reason.append(arrow_type_name(mapping.arrow().data_type()).as_str());
    reason.append(" to SQL Server ");
    reason.append(mapping.mssql().ty().to_sql().as_str());
    reason
}

/// A plan holds one column per mapping, in order, exactly when every mapping is supported.
pub proof fn law_plan_iff_all_supported<P: DirectEncoderSupport>(
    support: P,
    mappings: Seq<SchemaMappingView>,
)
    ensures
        plan_outcome(support, mappings) is Ok <==> (forall|i: int|
            0 <= i < mappings.len() ==> (#[trigger] support.support(
                mappings[i],
            )) is Supported),
        plan_outcome(support, mappings) is Ok ==> plan_outcome(support, mappings)->Ok_0.len()
            == mappings.len(),
    decreases mappings.len(),
{
    if mappings.len() > 0 {
        let earlier = mappings.drop_last();
        law_plan_iff_all_supported(support, earlier);
        if plan_outcome(support, mappings) is Ok {
            assert forall|i: int| 0 <= i < mappings.len() implies (#[trigger] support.support(
                mappings[i],
            )) is Supported by {
                if i < earlier.len() {
                    assert(earlier[i] == mappings[i]);
                }
            }
        }
        if forall|i: int|
            0 <= i < mappings.len() ==> (#[trigger] support.support(mappings[i])) is Supported {
            assert forall|i: int| 0 <= i < earlier.len() implies (#[trigger] support.support(
                earlier[i],
            )) is Supported by {
                assert(support.support(mappings[i]) is Supported);
            }
            assert(support.support(mappings[mappings.len() - 1]) is Supported);
        }
    }
}

} // verus!
