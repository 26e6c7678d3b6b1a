use vstd::prelude::*;

verus! {

/// The closed set of failures an engine operation can report.
#[derive(Debug, Clone, Copy, PartialEq, Eq, Structural)]
pub enum GraphError {
    /// A family (partition) that the operation needs does not exist.
    PartitionNotFound,
    /// No record is stored under the identifier.
    KeyNotFound,
    /// The codec could not encode a record.
    EncodeFailed,
    /// The stored bytes could not be decoded as the requested kind of record.
    DecodeFailed,
    /// The identifier holds no `:` separator.
    IdentifierParseFailed,
    /// The store reported an error (disk, corruption, conflict abort).
    StoreIoFailed,
    /// The store could not create a family.
    FamilyCreationFailed,
    /// The store could not list its families.
    FamilyEnumerationFailed,
}

/// Why a schema, or a value built against it, is rejected.
#[derive(Debug, Clone, Copy, PartialEq, Eq, Structural)]
pub enum SchemaError {
    /// A kind name is empty or holds a `:`, so it cannot prefix an identifier.
    InvalidKindName,
    /// Two kinds (node or edge) share a name.
    DuplicateKind,
    /// A connection rule names a node kind that the schema does not declare.
    UnknownNodeKind,
    /// A field is declared with a type other than `string`, `String`, `int`, `i64` or `bool`.
    UnknownFieldType,
    /// No edge kind of that name is declared.
    UnknownEdgeKind,
    /// The edge kind declares no connection rule of that name.
    UnknownConnection,
    /// An endpoint identifier is not of the node kind that the rule demands.
    EndpointKindMismatch,
    /// The fields given are not those the kind declares (names, in order, and types).
    FieldMismatch,
}

} // verus!
