//! Structured diagnostics and errors.

use vstd::prelude::*;

use crate::message::{message_text, Fault, Message, MessageOf, MessageView};

verus! {

/// Machine-readable diagnostic code.
#[derive(Debug, Clone, Copy, PartialEq, Eq, Hash, Structural)]
pub enum DiagnosticCode {
    /// A row index is outside the runtime batch.
    RowIndexOutOfBounds,
    /// The runtime batch does not match the planned schema.
    SchemaMismatch,
    /// A value is of another type than planned.
    ValueTypeMismatch,
    /// A value has no conversion yet.
    ValueConversionUnsupported,
    /// A null stands in a column that allows none.
    NullInNonNullableColumn,
    /// An integer is outside the planned range.
    IntegerOutOfRange,
    /// A decimal is outside the planned range.
    DecimalOutOfRange,
    /// A date or time is outside the planned range.
    TimestampOutOfRange,
    /// A conversion loses digits and no policy allows it.
    LossyConversionRequiresPolicy,
    /// Timezone metadata cannot be resolved.
    TimezoneUnsupported,
    /// A floating point value is not finite.
    NonFiniteFloat,
    /// A value is longer than planned.
    ValueTooLong,
    /// A direct payload or its layout is inconsistent.
    DirectEncodingInvalidPayload,
    /// A batch has no direct encoding.
    DirectEncodingUnsupportedBatch,
    /// A mapping has no direct encoding.
    DirectEncodingUnsupportedMapping,
}

/// Source field that a diagnostic speaks of.
#[derive(Debug, PartialEq, Eq)]
pub struct FieldRef {
    index: usize,
    name: String,
}

impl View for FieldRef {
    type V = (usize, Seq<char>);

    closed spec fn view(&self) -> (usize, Seq<char>) {
        (self.index, self.name@)
    }
}

impl FieldRef {
    /// Creates a field reference.
    pub fn new(index: usize, name: &str) -> (field: Self)
        ensures
            field@ == (index, name@),
    {
        FieldRef { index, name: name.to_owned() }
    }

    /// Returns the field index.
    pub fn index(&self) -> (index: usize)
        ensures
            index == self@.0,
    {
        self.index
    }

    /// Returns the field name.
    pub fn name(&self) -> (name: &str)
        ensures
            name@ == self@.1,
    {
        self.name.as_str()
    }
}

/// One diagnostic.
#[derive(Debug, PartialEq, Eq)]
pub struct Diagnostic {
    code: DiagnosticCode,
    message: Message,
    field: Option<FieldRef>,
    row: Option<usize>,
}

/// What contracts know of a [`Diagnostic`].
#[verifier::ext_equal]
pub struct DiagnosticView {
    /// Diagnostic code.
    pub code: DiagnosticCode,
    /// What went wrong.
    pub message: MessageView,
    /// Index and name of the source field.
    pub field: Option<(usize, Seq<char>)>,
    /// Row of the batch.
    pub row: Option<usize>,
}

impl View for Diagnostic {
    type V = DiagnosticView;

    closed spec fn view(&self) -> DiagnosticView {
        DiagnosticView {
            code: self.code,
            message: self.message@,
            field: match self.field {
                Some(field) => Some(field@),
                None => None,
            },
            row: self.row,
        }
    }
}

impl Diagnostic {
    /// Creates an error diagnostic.
    pub fn error(code: DiagnosticCode, message: Message) -> (diagnostic: Self)
        ensures
            diagnostic@ == (DiagnosticView { code, message: message@, field: None, row: None }),
    {
        Diagnostic { code, message, field: None, row: None }
    }

    /// Attaches a source field.
    pub fn with_field(self, field: FieldRef) -> (diagnostic: Self)
        ensures
            diagnostic@ == (DiagnosticView { field: Some(field@), ..self@ }),
    {
        Diagnostic { code: self.code, message: self.message, field: Some(field), row: self.row }
    }

    /// Attaches a row index.
    pub fn with_row(self, row: usize) -> (diagnostic: Self)
        ensures
            diagnostic@ == (DiagnosticView { row: Some(row), ..self@ }),
    {
        Diagnostic { code: self.code, message: self.message, field: self.field, row: Some(row) }
    }

    /// Returns the diagnostic code.
    pub fn code(&self) -> (code: DiagnosticCode)
        ensures
            code == self@.code,
    {
        self.code
    }

    /// Returns the text of the message.
    pub fn message(&self) -> (text: String)
        ensures
            text@ == message_text(self@.message),
    {
        self.message.to_text()
    }

    /// Returns the source field.
    pub fn field(&self) -> (field: Option<&FieldRef>)
        ensures
            self@.field == (match field {
                Some(field) => Some(field@),
                None => None,
            }),
    {
        match &self.field {
            Some(field) => Some(field),
            None => None,
        }
    }

    /// Returns the row index.
    pub fn row(&self) -> (row: Option<usize>)
        ensures
            row == self@.row,
    {
        self.row
    }
}

/// Diagnostics in the order in which they were found.
#[derive(Debug, PartialEq, Eq)]
pub struct DiagnosticSet {
    diagnostics: Vec<Diagnostic>,
}

impl View for DiagnosticSet {
    type V = Seq<DiagnosticView>;

    closed spec fn view(&self) -> Seq<DiagnosticView> {
        self.diagnostics@.map_values(|diagnostic: Diagnostic| diagnostic@)
    }
}

impl DiagnosticSet {
    /// Creates an empty set.
    pub fn new() -> (set: Self)
        ensures
            set@ == Seq::<DiagnosticView>::empty(),
    {
        let set = DiagnosticSet { diagnostics: Vec::new() };
        assert(set@ =~= Seq::<DiagnosticView>::empty());
        set
    }

    /// Creates a set of one diagnostic.
    pub fn single(diagnostic: Diagnostic) -> (set: Self)
        ensures
            set@ == seq![diagnostic@],
    {
        let mut set = DiagnosticSet::new();
        set.push(diagnostic);
        assert(set@ =~= seq![diagnostic@]);
        set
    }

    /// Adds a diagnostic behind the others.
    pub fn push(&mut self, diagnostic: Diagnostic)
        ensures
            final(self)@ == old(self)@.push(diagnostic@),
    {
        self.diagnostics.push(diagnostic);
        assert(self@ =~= old(self)@.push(diagnostic@));
    }

    /// Returns the number of diagnostics.
    pub fn len(&self) -> (len: usize)
        ensures
            len == self@.len(),
    {
        self.diagnostics.len()
    }

    /// Returns true when there are no diagnostics.
    pub fn is_empty(&self) -> (result: bool)
        ensures
            result == (self@.len() == 0),
    {
        self.diagnostics.len() == 0
    }

    /// Returns true when the set holds an error.
    pub fn has_errors(&self) -> (result: bool)
        ensures
            result == (self@.len() > 0),
    {
        self.diagnostics.len() > 0
    }

    /// Returns the diagnostics.
    pub fn all(&self) -> (diagnostics: &Vec<Diagnostic>)
        ensures
            diagnostics@.len() == self@.len(),
            forall|i: int| 0 <= i < self@.len() ==> (#[trigger] diagnostics@[i])@ == self@[i],
    {
        &self.diagnostics
    }
}

/// Error of a conversion or of an encoding.
#[derive(Debug, PartialEq, Eq)]
pub enum Error {
    /// A value or a batch does not convert as planned.
    ValueConversion {
        /// Diagnostics of the conversion.
        diagnostics: DiagnosticSet,
    },
    /// A direct encoding is unsupported or inconsistent.
    DirectEncoding {
        /// Diagnostics of the encoding.
        diagnostics: DiagnosticSet,
    },
}

/// What contracts know of an [`Error`].
pub enum ErrorView {
    /// See [`Error::ValueConversion`].
    ValueConversion(Seq<DiagnosticView>),
    /// See [`Error::DirectEncoding`].
    DirectEncoding(Seq<DiagnosticView>),
}

impl View for Error {
    type V = ErrorView;

    open spec fn view(&self) -> ErrorView {
        match *self {
            Error::ValueConversion { diagnostics } => ErrorView::ValueConversion(diagnostics@),
            Error::DirectEncoding { diagnostics } => ErrorView::DirectEncoding(diagnostics@),
        }
    }
}

/// Result of a fallible conversion or encoding.
pub type Result<T> = core::result::Result<T, Error>;

/// A result with its error as contracts speak of it.
pub open spec fn outcome<T>(result: core::result::Result<T, Error>) -> core::result::Result<
    T,
    ErrorView,
> {
    match result {
        Ok(value) => Ok(value),
        Err(error) => Err(error@),
    }
}

/// The error of one value-conversion diagnostic.
pub open spec fn conversion_error(diagnostic: DiagnosticView) -> ErrorView {
    ErrorView::ValueConversion(seq![diagnostic])
}

/// The error of one direct-encoding fault, of no field and no row.
pub open spec fn direct_error(code: DiagnosticCode, fault: Fault) -> ErrorView {
    ErrorView::DirectEncoding(
        seq![
            DiagnosticView { code, message: MessageOf::Fault(fault), field: None, row: None },
        ],
    )
}

/// The error of an inconsistent direct payload.
pub open spec fn payload_error(fault: Fault) -> ErrorView {
    direct_error(DiagnosticCode::DirectEncodingInvalidPayload, fault)
}

/// The error of an inconsistent direct payload, with a message that carries text.
pub open spec fn payload_message_error(message: MessageView) -> ErrorView {
    ErrorView::DirectEncoding(
        seq![
            DiagnosticView {
                code: DiagnosticCode::DirectEncodingInvalidPayload,
                message,
                field: None,
                row: None,
            },
        ],
    )
}

/// Creates a value-conversion error of one diagnostic.
pub fn value_conversion_error(diagnostic: Diagnostic) -> (error: Error)
    ensures
        error@ == conversion_error(diagnostic@),
{
    Error::ValueConversion { diagnostics: DiagnosticSet::single(diagnostic) }
}

/// Creates the error of an inconsistent direct payload.
pub fn invalid_payload(fault: Fault) -> (error: Error)
    ensures
        error@ == payload_error(fault),
{
    Error::DirectEncoding {
        diagnostics: DiagnosticSet::single(
            Diagnostic::error(
                DiagnosticCode::DirectEncodingInvalidPayload,
                MessageOf::Fault(fault),
            ),
        ),
    }
}

/// Creates the error of an inconsistent direct payload, with a message that carries text.
pub fn invalid_payload_message(message: Message) -> (error: Error)
    ensures
        error@ == payload_message_error(message@),
{
    Error::DirectEncoding {
        diagnostics: DiagnosticSet::single(
            Diagnostic::error(DiagnosticCode::DirectEncodingInvalidPayload, message),
        ),
    }
}

/// Creates the error of a batch without a direct encoding.
pub fn unsupported_batch(fault: Fault) -> (error: Error)
    ensures
        error@ == direct_error(DiagnosticCode::DirectEncodingUnsupportedBatch, fault),
{
    Error::DirectEncoding {
        diagnostics: DiagnosticSet::single(
            Diagnostic::error(
                DiagnosticCode::DirectEncodingUnsupportedBatch,
                MessageOf::Fault(fault),
            ),
        ),
    }
}

} // verus!
