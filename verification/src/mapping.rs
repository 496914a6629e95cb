//! Planned mappings from Arrow fields to SQL Server columns.

use vstd::prelude::*;

use crate::arrow_type::{DataType, DataTypeView};
use crate::mssql_type::MssqlType;

verus! {

/// Planned Arrow source field.
#[derive(Debug, PartialEq, Eq)]
pub struct ArrowFieldRef {
    index: usize,
    name: String,
    nullable: bool,
    data_type: DataType,
}

/// What contracts know of an [`ArrowFieldRef`].
#[verifier::ext_equal]
pub struct ArrowFieldView {
    /// Position in the Arrow schema.
    pub index: usize,
    /// Field name.
    pub name: Seq<char>,
    /// Whether the field allows nulls.
    pub nullable: bool,
    /// Planned data type.
    pub data_type: DataTypeView,
}

impl View for ArrowFieldRef {
    type V = ArrowFieldView;

    closed spec fn view(&self) -> ArrowFieldView {
        ArrowFieldView {
            index: self.index,
            name: self.name@,
            nullable: self.nullable,
            data_type: self.data_type@,
        }
    }
}

impl ArrowFieldRef {
    /// Creates a planned source field.
    pub fn new(index: usize, name: String, nullable: bool, data_type: DataType) -> (field: Self)
        ensures
            field@ == (ArrowFieldView { index, name: name@, nullable, data_type: data_type@ }),
    {
        ArrowFieldRef { index, name, nullable, data_type }
    }

    /// Returns the position in the Arrow schema.
    pub fn index(&self) -> (index: usize)
        ensures
            index == self@.index,
    {
        self.index
    }

    /// Returns the field name.
    pub fn name(&self) -> (name: &str)
        ensures
            name@ == self@.name,
    {
        self.name.as_str()
    }

    /// Returns true when the field allows nulls.
    pub fn nullable(&self) -> (nullable: bool)
        ensures
            nullable == self@.nullable,
    {
        self.nullable
    }

    /// Returns the planned data type.
    pub fn data_type(&self) -> (data_type: &DataType)
        ensures
            data_type@ == self@.data_type,
    {
        &self.data_type
    }
}

impl Clone for ArrowFieldRef {
    fn clone(&self) -> (result: Self)
        ensures
            result@ == self@,
    {
        ArrowFieldRef {
            index: self.index,
            name: self.name.clone(),
            nullable: self.nullable,
            data_type: self.data_type.clone(),
        }
    }
}

/// Planned SQL Server target column.
#[derive(Debug, PartialEq, Eq)]
pub struct MssqlColumn {
    name: String,
    ty: MssqlType,
    nullable: bool,
}

/// What contracts know of a [`MssqlColumn`].
#[verifier::ext_equal]
pub struct MssqlColumnView {
    /// Column name.
    pub name: Seq<char>,
    /// Column type.
    pub ty: MssqlType,
    /// Whether the column allows nulls.
    pub nullable: bool,
}

impl View for MssqlColumn {
    type V = MssqlColumnView;

    closed spec fn view(&self) -> MssqlColumnView {
        MssqlColumnView { name: self.name@, ty: self.ty, nullable: self.nullable }
    }
}

impl MssqlColumn {
    /// Creates a planned target column.
    pub fn new(name: String, ty: MssqlType, nullable: bool) -> (column: Self)
        ensures
            column@ == (MssqlColumnView { name: name@, ty, nullable }),
    {
        MssqlColumn { name, ty, nullable }
    }

    /// Returns the column name.
    pub fn name(&self) -> (name: &str)
        ensures
            name@ == self@.name,
    {
        self.name.as_str()
    }

    /// Returns the column type.
    pub fn ty(&self) -> (ty: &MssqlType)
        ensures
            *ty == self@.ty,
    {
        &self.ty
    }

    /// Returns true when the column allows nulls.
    pub fn nullable(&self) -> (nullable: bool)
        ensures
            nullable == self@.nullable,
    {
        self.nullable
    }
}

impl Clone for MssqlColumn {
    fn clone(&self) -> (result: Self)
        ensures
            result@ == self@,
    {
        MssqlColumn { name: self.name.clone(), ty: self.ty, nullable: self.nullable }
    }
}

/// Planned mapping of one Arrow field to one SQL Server column.
#[derive(Debug, PartialEq, Eq)]
pub struct SchemaMapping {
    arrow: ArrowFieldRef,
    mssql: MssqlColumn,
}

/// What contracts know of a [`SchemaMapping`].
#[verifier::ext_equal]
pub struct SchemaMappingView {
    /// Source field.
    pub arrow: ArrowFieldView,
    /// Target column.
    pub mssql: MssqlColumnView,
}

impl View for SchemaMapping {
    type V = SchemaMappingView;

    closed spec fn view(&self) -> SchemaMappingView {
        SchemaMappingView { arrow: self.arrow@, mssql: self.mssql@ }
    }
}

impl SchemaMapping {
    /// Creates a mapping.
    pub fn new(arrow: ArrowFieldRef, mssql: MssqlColumn) -> (mapping: Self)
        ensures
            mapping@ == (SchemaMappingView { arrow: arrow@, mssql: mssql@ }),
    {
        SchemaMapping { arrow, mssql }
    }

    /// Returns the source field.
    pub fn arrow(&self) -> (arrow: &ArrowFieldRef)
        ensures
            arrow@ == self@.arrow,
    {
        &self.arrow
    }

    /// Returns the target column.
    pub fn mssql(&self) -> (mssql: &MssqlColumn)
        ensures
            mssql@ == self@.mssql,
    {
        &self.mssql
    }
}

impl Clone for SchemaMapping {
    fn clone(&self) -> (result: Self)
        ensures
            result@ == self@,
    {
        SchemaMapping { arrow: self.arrow.clone(), mssql: self.mssql.clone() }
    }
}

/// The views of a list of mappings.
pub open spec fn mapping_views(mappings: Seq<SchemaMapping>) -> Seq<SchemaMappingView> {
    mappings.map_values(|mapping: SchemaMapping| mapping@)
}

/// Copies a list of mappings.
pub fn clone_mappings(mappings: &[SchemaMapping]) -> (result: Vec<SchemaMapping>)
    ensures
        mapping_views(result@) == mapping_views(mappings@),
{
    let mut result: Vec<SchemaMapping> = Vec::new();
    let mut index: usize = 0;
    while index < mappings.len()
        invariant
            index <= mappings.len(),
            result.len() == index,
            forall|i: int| 0 <= i < index ==> (#[trigger] result@[i])@ == mappings@[i]@,
        decreases mappings.len() - index,
    {
        result.push(mappings[index].clone());
        index += 1;
    }
    assert(mapping_views(result@) =~= mapping_views(mappings@));
    result
}

} // verus!
