//! Direct raw TDS bulk encoder.

use vstd::prelude::*;

use crate::context::{MssqlProfile, NanosecondPolicy, PlanOptions, RuntimeConversionContext};
use crate::diagnostic::{
    conversion_error, invalid_payload, outcome, payload_error, Diagnostic, DiagnosticCode,
    DiagnosticView, ErrorView, FieldRef, Result,
};
use crate::direct::plan::{
    column_of, plan_outcome, CurrentDirectMappings, DirectColumnEncoding, DirectColumnPlan,
    DirectColumnView, DirectEncoderPlan, DirectEncoderSupport,
};
use crate::mapping::{clone_mappings, mapping_views, SchemaMapping, SchemaMappingView};
use crate::message::{Fault, Message, MessageView};

verus! {

/// Direct raw TDS encoder.
#[derive(Debug, PartialEq, Eq)]
pub struct DirectEncoder {
    mappings: Vec<SchemaMapping>,
    runtime_context: RuntimeConversionContext,
    plan: DirectEncoderPlan,
}

/// What contracts know of a [`DirectEncoder`].
#[verifier::ext_equal]
pub struct EncoderView {
    /// Mappings in schema order.
    pub mappings: Seq<SchemaMappingView>,
    /// Profile and conversion policies.
    pub context: RuntimeConversionContext,
    /// Planned columns, one per mapping.
    pub columns: Seq<DirectColumnView>,
}

impl EncoderView {
    /// The nanosecond policy.
    pub open spec fn policy(self) -> NanosecondPolicy {
        self.context.plan_options.nanosecond_policy
    }

    /// Whether every column is planned from the mapping at its position.
    pub open spec fn follows_mappings(self) -> bool {
        &&& self.columns.len() == self.mappings.len()
        &&& forall|i: int|
            0 <= i < self.columns.len() ==> #[trigger] self.columns[i] == column_of(
                self.mappings[i],
                self.columns[i].encoding,
            )
    }
}

impl View for DirectEncoder {
    type V = EncoderView;

    closed spec fn view(&self) -> EncoderView {
        EncoderView {
            mappings: mapping_views(self.mappings@),
            context: self.runtime_context,
            columns: self.plan@,
        }
    }
}

/// The outcome of creating an encoder.
pub open spec fn encoder_outcome<P: DirectEncoderSupport>(
    support: P,
    mappings: Seq<SchemaMappingView>,
    context: RuntimeConversionContext,
) -> core::result::Result<EncoderView, ErrorView> {
    match plan_outcome(support, mappings) {
        Ok(columns) => Ok(EncoderView { mappings, context, columns }),
        Err(error) => Err(error),
    }
}

/// Whether an encoder, or the error in its place, is as expected.
pub open spec fn is_encoder(
    result: Result<DirectEncoder>,
    expected: core::result::Result<EncoderView, ErrorView>,
) -> bool {
    match expected {
        Ok(view) => result matches Ok(encoder) && encoder@ == view,
        Err(view) => result matches Err(error) && error@ == view,
    }
}

/// The context of an encoder that was given options only.
pub open spec fn default_context(plan_options: PlanOptions) -> RuntimeConversionContext {
    RuntimeConversionContext {
        profile: MssqlProfile { release: 2016, compatibility_level: 100 },
        plan_options,
    }
}

/// The default conversion policies.
pub open spec fn default_options() -> PlanOptions {
    PlanOptions { nanosecond_policy: NanosecondPolicy::RejectNon100ns }
}

impl DirectEncoder {
    /// Every column is planned from the mapping at its position.
    #[verifier::type_invariant]
    pub open spec fn well_formed(self) -> bool {
        self@.follows_mappings()
    }

    /// Creates a direct encoder using the current supported direct mappings.
    pub fn new(mappings: &[SchemaMapping]) -> (result: Result<Self>)
        ensures
            is_encoder(
                result,
                encoder_outcome(
                    CurrentDirectMappings,
                    mapping_views(mappings@),
                    default_context(default_options()),
                ),
            ),
    {
        Self::new_with_options(mappings, PlanOptions::default())
    }

    /// Creates a direct encoder using the current supported direct mappings and runtime conversion
    /// policies.
    pub fn new_with_options(mappings: &[SchemaMapping], plan_options: PlanOptions) -> (result:
        Result<Self>)
        ensures
            is_encoder(
                result,
                encoder_outcome(
                    CurrentDirectMappings,
                    mapping_views(mappings@),
                    default_context(plan_options),
                ),
            ),
    {
        Self::new_with_context(
            mappings,
            RuntimeConversionContext::new(MssqlProfile::sql_server_2016_compat_100(), plan_options),
        )
    }

    /// Creates a direct encoder using the current supported direct mappings and runtime conversion
    /// context.
    pub fn new_with_context(mappings: &[SchemaMapping], runtime_context: RuntimeConversionContext)
        -> (result: Result<Self>)
        ensures
            is_encoder(
                result,
                encoder_outcome(
                    CurrentDirectMappings,
                    mapping_views(mappings@),
                    runtime_context,
                ),
            ),
    {
        Self::new_with_context_and_support(mappings, runtime_context, &CurrentDirectMappings)
    }

    /// Creates a direct encoder using an explicit support checker.
    pub fn new_with_support<P: DirectEncoderSupport>(mappings: &[SchemaMapping], support: &P) -> (
        result: Result<Self>)
        ensures
            is_encoder(
                result,
                encoder_outcome(
                    *support,
                    mapping_views(mappings@),
                    default_context(default_options()),
                ),
            ),
    {
        Self::new_with_context_and_support(
            mappings,
            RuntimeConversionContext::new(
                MssqlProfile::sql_server_2016_compat_100(),
                PlanOptions::default(),
            ),
            support,
        )
    }

    /// Creates a direct encoder using an explicit context and support checker.
    pub fn new_with_context_and_support<P: DirectEncoderSupport>(
        mappings: &[SchemaMapping],
        runtime_context: RuntimeConversionContext,
        support: &P,
    ) -> (result: Result<Self>)
        ensures
            is_encoder(
                result,
                encoder_outcome(*support, mapping_views(mappings@), runtime_context),
            ),
    {
        match DirectEncoderPlan::new(mappings, support) {
            Ok(plan) => Ok(
                DirectEncoder { mappings: clone_mappings(mappings), runtime_context, plan },
            ),
            Err(error) => Err(error),
        }
    }

    /// Returns the checked schema mappings consumed by this encoder.
    pub fn mappings(&self) -> (mappings: &[SchemaMapping])
        ensures
            mapping_views(mappings@) == self@.mappings,
    {
        self.mappings.as_slice()
    }

    /// Returns the profile and the conversion policies of this encoder.
    pub fn runtime_context(&self) -> (context: RuntimeConversionContext)
        ensures
            context == self@.context,
    {
        self.runtime_context
    }

    /// Returns the checked direct encoder plan.
    pub fn plan(&self) -> (plan: &DirectEncoderPlan)
        ensures
            plan@ == self@.columns,
            self@.follows_mappings(),
    {
        proof {
            use_type_invariant(self);
        }
        &self.plan
    }

    /// Returns true when this encoder contains at least one variable-width column.
    pub fn has_variable_width_column(&self) -> (result: bool)
        ensures
            result == exists|i: int|
                0 <= i < self@.columns.len() && (
                #[trigger] self@.columns[i]).encoding is VariableWidth,
    {
        let columns = self.plan.columns();
        let mut index: usize = 0;
        while index < columns.len()
            invariant
                index <= columns.len(),
                crate::direct::plan::column_views(columns@) == self@.columns,
                forall|i: int|
                    0 <= i < index ==> !((#[trigger] self@.columns[i]).encoding is VariableWidth),
            decreases columns.len() - index,
        {
            assert(self@.columns[index as int] == columns@[index as int]@);
            match columns[index].encoding() {
                DirectColumnEncoding::VariableWidth(_) => {
                    return true;
                },
                _ => {},
            }
            index += 1;
        }
        false
    }

    /// Returns the mapping at a column index.
    pub fn mapping_for_column_index(&self, column_index: usize) -> (result: Result<&SchemaMapping>)
        ensures
            match result {
                Ok(mapping) => column_index < self@.mappings.len() && mapping@
                    == self@.mappings[column_index as int],
                Err(error) => column_index >= self@.mappings.len() && error@ == payload_error(
                    Fault::MappingIndex {
                        index: column_index,
                        count: self@.mappings.len() as usize,
                    },
                ),
            },
    {
        if column_index >= self.mappings.len() {
            return Err(
                invalid_payload(
                    Fault::MappingIndex { index: column_index, count: self.mappings.len() },
                ),
            );
        }
        Ok(&self.mappings[column_index])
    }
}

/// Adds two encoded lengths.
pub fn checked_add(lhs: usize, rhs: usize) -> (result: Result<usize>)
    ensures
        outcome(result) == (if lhs + rhs > usize::MAX {
            Err(payload_error(Fault::DirectLengthOverflow))
        } else {
            Ok((lhs + rhs) as usize)
        }),
{
    match lhs.checked_add(rhs) {
        Some(sum) => Ok(sum),
        None => Err(invalid_payload(Fault::DirectLengthOverflow)),
    }
}

/// The diagnostic of a planned column at a row.
pub open spec fn column_view(
    column: DirectColumnView,
    row_index: usize,
    code: DiagnosticCode,
    message: MessageView,
) -> DiagnosticView {
    DiagnosticView {
        code,
        message,
        field: Some((column.source_index, column.source_name)),
        row: Some(row_index),
    }
}

/// The error of a planned column at a row.
pub open spec fn column_error(
    column: DirectColumnView,
    row_index: usize,
    code: DiagnosticCode,
    message: MessageView,
) -> ErrorView {
    conversion_error(column_view(column, row_index, code, message))
}

/// Creates the diagnostic of a planned column at a row.
pub fn row_column_diagnostic(
    column: &DirectColumnPlan,
    row_index: usize,
    code: DiagnosticCode,
    message: Message,
) -> (diagnostic: Diagnostic)
    ensures
        diagnostic@ == column_view(column@, row_index, code, message@),
{
    Diagnostic::error(code, message).with_field(
        FieldRef::new(column.source_index(), column.source_name()),
    ).with_row(row_index)
}

} // verus!
