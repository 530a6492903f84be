//! Exclusion-constraint implementation-function transform-converter evidence.
//!
//! `pg_proc.protrftypes` names the SQL types a function elects to transform, but not the
//! converter functions themselves: those live in `pg_transform`, keyed by `(trftype, trflang)`,
//! with optional `trffromsql` and `trftosql` function identities. `CREATE OR REPLACE TRANSFORM`
//! can change conversion code without changing the target function or its transform-type set.
//!
//! This layer binds every selected transform type to the target function's language and to its
//! converter directions. Each converter is resolved to its schema, name, required `internal`
//! argument, return type, implementation language and a digest of its definition; plaintext
//! converter bodies are never retained.

use vstd::prelude::*;

use crate::catalog::{lemma_coordinate_lt_irreflexive, validate_nonblank, LineageView, QualifiedNameView, QualifiedTypeName};
use crate::digest::{digest_text, frame_len, frame_str, put_len, put_str, put_tag};
use crate::error::{fails_with_text, invalid, ObservationError};
use crate::exclusion_constraint::{constraint_key, IndexExclusionConstraintCoordinate};
use crate::order::{
    compare_text, compare_u32, has_key_collision, lemma_sorted_by_key_order_independent, lemma_text_lt_irreflexive,
    lemma_text_lt_total, lemma_text_lt_transitive, same_elements, same_key, sort_by_key, sorted_by_key, strictly_sorted,
    text_eq, text_lt, KeyOrder, SortKey,
};
use crate::procedure_binding::{
    binding_lt, bindings_of, bound_at, bound_preimage, compute_bound_digest, duplicate_position, find_bound,
    lemma_position_collision, positions_match, same_positions, sorted_by_binding, BindingView, ProcedureBound,
    ProcedurePropertyView,
};
use crate::procedure_definition::{
    IndexExclusionConstraintOperatorProcedureDefinitionObservation, IndexExclusionConstraintOperatorProcedureDefinitionSnapshot,
};
use crate::procedure_material::{DefinitionMaterialView, IndexExclusionConstraintOperatorProcedureTransformConverterFunctionDefinition};
use crate::procedure_transform_types::{IssuedTransformTypes, TransformTypesEntry};
use crate::procedure_parallel_safety::{procedure_property_location, render_procedure_property_location};
use crate::signatures::{frame_type, put_type, type_views, QualifiedOperatorSignature, QualifiedProcedureSignature};
use crate::text::is_blank;

verus! {

/// Field reported for a blank converter schema.
pub const FUNCTION_SCHEMA_FIELD: &'static str =
    "index_exclusion_constraint_operator_procedure_transform_converter_function_schema";

/// Field reported for a blank converter name.
pub const FUNCTION_NAME_FIELD: &'static str =
    "index_exclusion_constraint_operator_procedure_transform_converter_function_name";

/// Field reported for a converter whose argument is not `pg_catalog.internal`.
pub const ARGUMENT_TYPE_FIELD: &'static str =
    "index_exclusion_constraint_operator_procedure_transform_converter_argument_type";

/// Field reported for a transform row with neither converter direction.
pub const DIRECTION_FIELD: &'static str =
    "index_exclusion_constraint_operator_procedure_transform_converter_direction";

/// Field reported for a `trffromsql` converter that does not return `pg_catalog.internal`.
pub const FROM_SQL_RETURN_FIELD: &'static str =
    "index_exclusion_constraint_operator_procedure_transform_converter_from_sql_return_type";

/// Field reported for a `trftosql` converter that does not return the transform type.
pub const TO_SQL_RETURN_FIELD: &'static str =
    "index_exclusion_constraint_operator_procedure_transform_converter_to_sql_return_type";

/// Field reported for a blank target-function language.
pub const TARGET_LANGUAGE_FIELD: &'static str =
    "index_exclusion_constraint_operator_procedure_transform_converter_target_language";

/// Field reported for a transform type listed twice for one function.
pub const DUPLICATE_FIELD: &'static str =
    "index_exclusion_constraint_operator_procedure_transform_converter_duplicate";

/// `pg_catalog.internal`, the only argument type a transform converter may take.
pub open spec fn is_pg_catalog_internal(t: QualifiedNameView) -> bool {
    t.schema_name == "pg_catalog"@ && t.name == "internal"@
}

fn is_internal_type(t: &QualifiedTypeName) -> (b: bool)
    ensures
        b == is_pg_catalog_internal(t@),
{
    text_eq(t.schema_name(), "pg_catalog") && text_eq(t.name(), "internal")
}

/// The value of one converter function.
pub struct ConverterFunctionView {
    pub schema_name: Seq<char>,
    pub function_name: Seq<char>,
    pub argument_type: QualifiedNameView,
    pub return_type: QualifiedNameView,
    pub definition: DefinitionMaterialView,
}

/// Content-bound identity of one `pg_transform` converter function.
#[derive(Debug, PartialEq, Eq)]
pub struct IndexExclusionConstraintOperatorProcedureTransformConverterFunction {
    schema_name: String,
    function_name: String,
    argument_type: QualifiedTypeName,
    return_type: QualifiedTypeName,
    definition: IndexExclusionConstraintOperatorProcedureTransformConverterFunctionDefinition,
}

impl View for IndexExclusionConstraintOperatorProcedureTransformConverterFunction {
    type V = ConverterFunctionView;

    closed spec fn view(&self) -> ConverterFunctionView {
        ConverterFunctionView {
            schema_name: self.schema_name@,
            function_name: self.function_name@,
            argument_type: self.argument_type@,
            return_type: self.return_type@,
            definition: self.definition@,
        }
    }
}

impl Clone for IndexExclusionConstraintOperatorProcedureTransformConverterFunction {
    fn clone(&self) -> (c: Self)
        ensures
            c@ == self@,
    {
        IndexExclusionConstraintOperatorProcedureTransformConverterFunction {
            schema_name: self.schema_name.clone(),
            function_name: self.function_name.clone(),
            argument_type: self.argument_type.clone(),
            return_type: self.return_type.clone(),
            definition: self.definition.clone(),
        }
    }
}

impl IndexExclusionConstraintOperatorProcedureTransformConverterFunction {
    /// Resolves one converter function: nonblank schema and name, and a single
    /// `pg_catalog.internal` argument. Direction-specific return types are checked by the binding.
    pub fn new(
        schema_name: &str,
        function_name: &str,
        argument_type: QualifiedTypeName,
        return_type: QualifiedTypeName,
        definition: IndexExclusionConstraintOperatorProcedureTransformConverterFunctionDefinition,
    ) -> (r: Result<Self, ObservationError>)
        ensures
            r is Ok <==> !is_blank(schema_name@) && !is_blank(function_name@) && is_pg_catalog_internal(argument_type@),
            is_blank(schema_name@) ==> fails_with_text(r, FUNCTION_SCHEMA_FIELD@),
            !is_blank(schema_name@) && is_blank(function_name@) ==> fails_with_text(r, FUNCTION_NAME_FIELD@),
            !is_blank(schema_name@) && !is_blank(function_name@) && !is_pg_catalog_internal(argument_type@)
                ==> fails_with_text(r, ARGUMENT_TYPE_FIELD@),
            r matches Ok(f) ==> f@ == (ConverterFunctionView {
                schema_name: schema_name@,
                function_name: function_name@,
                argument_type: argument_type@,
                return_type: return_type@,
                definition: definition@,
            }),
    {
        validate_nonblank(schema_name, FUNCTION_SCHEMA_FIELD)?;
        validate_nonblank(function_name, FUNCTION_NAME_FIELD)?;
        if !is_internal_type(&argument_type) {
            return Err(invalid(ARGUMENT_TYPE_FIELD));
        }
        Ok(IndexExclusionConstraintOperatorProcedureTransformConverterFunction {
            schema_name: schema_name.to_owned(),
            function_name: function_name.to_owned(),
            argument_type,
            return_type,
            definition,
        })
    }

    /// Returns the schema containing the converter function.
    pub fn schema_name(&self) -> (s: &str)
        ensures
            s@ == self@.schema_name,
    {
        self.schema_name.as_str()
    }

    /// Returns the converter-function name.
    pub fn function_name(&self) -> (s: &str)
        ensures
            s@ == self@.function_name,
    {
        self.function_name.as_str()
    }

    /// Returns the single `pg_catalog.internal` argument type.
    pub fn argument_type(&self) -> (t: &QualifiedTypeName)
        ensures
            t@ == self@.argument_type,
    {
        &self.argument_type
    }

    /// Returns the resolved converter return type.
    pub fn return_type(&self) -> (t: &QualifiedTypeName)
        ensures
            t@ == self@.return_type,
    {
        &self.return_type
    }

    /// Returns the implementation language of the converter function itself.
    pub fn implementation_language_name(&self) -> (s: &str)
        ensures
            s@ == self@.definition.language_name,
    {
        self.definition.implementation_language_name()
    }

    /// Returns the content digest of the converter's implementation material.
    pub fn definition_digest(&self) -> (s: &str)
        ensures
            s@ == self@.definition.definition_digest,
    {
        self.definition.definition_digest()
    }
}

/// The value of an optional converter function.
pub open spec fn optional_function_view(
    f: Option<IndexExclusionConstraintOperatorProcedureTransformConverterFunction>,
) -> Option<ConverterFunctionView> {
    match f {
        Some(x) => Some(x@),
        None => None,
    }
}

/// The value of one `pg_transform` row: the transform type and its converter directions.
pub struct ConverterBindingView {
    pub transform_type: QualifiedNameView,
    pub from_sql: Option<ConverterFunctionView>,
    pub to_sql: Option<ConverterFunctionView>,
}

/// Why a transform row is refused, or `None`: no direction at all; then a `trffromsql`
/// converter that does not return `pg_catalog.internal`; then a `trftosql` converter that does
/// not return the transform type.
pub open spec fn converter_binding_refusal(
    transform_type: QualifiedNameView,
    from_sql: Option<ConverterFunctionView>,
    to_sql: Option<ConverterFunctionView>,
) -> Option<Seq<char>> {
    if from_sql is None && to_sql is None {
        Some(DIRECTION_FIELD@)
    } else if from_sql matches Some(f) && !is_pg_catalog_internal(f.return_type) {
        Some(FROM_SQL_RETURN_FIELD@)
    } else if to_sql matches Some(f) && f.return_type != transform_type {
        Some(TO_SQL_RETURN_FIELD@)
    } else {
        None
    }
}

/// One `pg_transform` row resolved for a selected transform type.
#[derive(Debug, PartialEq, Eq)]
pub struct IndexExclusionConstraintOperatorProcedureTransformConverterBinding {
    transform_type: QualifiedTypeName,
    from_sql: Option<IndexExclusionConstraintOperatorProcedureTransformConverterFunction>,
    to_sql: Option<IndexExclusionConstraintOperatorProcedureTransformConverterFunction>,
}

impl View for IndexExclusionConstraintOperatorProcedureTransformConverterBinding {
    type V = ConverterBindingView;

    closed spec fn view(&self) -> ConverterBindingView {
        ConverterBindingView {
            transform_type: self.transform_type@,
            from_sql: optional_function_view(self.from_sql),
            to_sql: optional_function_view(self.to_sql),
        }
    }
}

fn clone_optional_function(
    f: &Option<IndexExclusionConstraintOperatorProcedureTransformConverterFunction>,
) -> (c: Option<IndexExclusionConstraintOperatorProcedureTransformConverterFunction>)
    ensures
        optional_function_view(c) == optional_function_view(*f),
{
    match f {
        Some(x) => Some(x.clone()),
        None => None,
    }
}

impl Clone for IndexExclusionConstraintOperatorProcedureTransformConverterBinding {
    fn clone(&self) -> (c: Self)
        ensures
            c@ == self@,
    {
        IndexExclusionConstraintOperatorProcedureTransformConverterBinding {
            transform_type: self.transform_type.clone(),
            from_sql: clone_optional_function(&self.from_sql),
            to_sql: clone_optional_function(&self.to_sql),
        }
    }
}

impl IndexExclusionConstraintOperatorProcedureTransformConverterBinding {
    /// Records the optional converter directions of one `(trftype, trflang)` row.
    pub fn new(
        transform_type: QualifiedTypeName,
        from_sql: Option<IndexExclusionConstraintOperatorProcedureTransformConverterFunction>,
        to_sql: Option<IndexExclusionConstraintOperatorProcedureTransformConverterFunction>,
    ) -> (r: Result<Self, ObservationError>)
        ensures
            ({
                let refusal = converter_binding_refusal(
                    transform_type@,
                    optional_function_view(from_sql),
                    optional_function_view(to_sql),
                );
                &&& r is Ok <==> refusal is None
                &&& refusal is Some ==> fails_with_text(r, refusal->0)
            }),
            r matches Ok(b) ==> b@ == (ConverterBindingView {
                transform_type: transform_type@,
                from_sql: optional_function_view(from_sql),
                to_sql: optional_function_view(to_sql),
            }),
    {
        if from_sql.is_none() && to_sql.is_none() {
            return Err(invalid(DIRECTION_FIELD));
        }
        if let Some(f) = &from_sql {
            if !is_internal_type(f.return_type()) {
                return Err(invalid(FROM_SQL_RETURN_FIELD));
            }
        }
        if let Some(f) = &to_sql {
            if !f.return_type().same_as(&transform_type) {
                return Err(invalid(TO_SQL_RETURN_FIELD));
            }
        }
        Ok(IndexExclusionConstraintOperatorProcedureTransformConverterBinding { transform_type, from_sql, to_sql })
    }

    /// Returns the resolved `pg_transform.trftype`.
    pub fn transform_type(&self) -> (t: &QualifiedTypeName)
        ensures
            t@ == self@.transform_type,
    {
        &self.transform_type
    }

    /// Returns the `trffromsql` converter when the row has one.
    pub fn from_sql(&self) -> (f: Option<&IndexExclusionConstraintOperatorProcedureTransformConverterFunction>)
        ensures
            match f {
                Some(x) => self@.from_sql == Some(x@),
                None => self@.from_sql is None,
            },
    {
        match &self.from_sql {
            Some(x) => Some(x),
            None => None,
        }
    }

    /// Returns the `trftosql` converter when the row has one.
    pub fn to_sql(&self) -> (f: Option<&IndexExclusionConstraintOperatorProcedureTransformConverterFunction>)
        ensures
            match f {
                Some(x) => self@.to_sql == Some(x@),
                None => self@.to_sql is None,
            },
    {
        match &self.to_sql {
            Some(x) => Some(x),
            None => None,
        }
    }
}

/// Type-name order: by schema name, then by type name.
pub open spec fn type_name_lt(a: QualifiedNameView, b: QualifiedNameView) -> bool {
    if a.schema_name != b.schema_name {
        text_lt(a.schema_name, b.schema_name)
    } else {
        text_lt(a.name, b.name)
    }
}

/// Two type names share a key exactly when they are the same name.
pub proof fn lemma_type_name_same_key(a: QualifiedNameView, b: QualifiedNameView)
    ensures
        (!type_name_lt(a, b) && !type_name_lt(b, a)) <==> a == b,
{
    lemma_text_lt_irreflexive(a.name);
    if a.schema_name != b.schema_name {
        lemma_text_lt_total(a.schema_name, b.schema_name);
    } else if a.name != b.name {
        lemma_text_lt_total(a.name, b.name);
    }
}

impl SortKey for IndexExclusionConstraintOperatorProcedureTransformConverterBinding {
    open spec fn key_lt(self, other: Self) -> bool {
        type_name_lt(self@.transform_type, other@.transform_type)
    }

    proof fn lemma_key_lt_transitive(a: Self, b: Self, c: Self) {
        let (x, y, z) = (a@.transform_type, b@.transform_type, c@.transform_type);
        lemma_text_lt_irreflexive(x.schema_name);
        if text_lt(x.schema_name, y.schema_name) && text_lt(y.schema_name, z.schema_name) {
            lemma_text_lt_transitive(x.schema_name, y.schema_name, z.schema_name);
        }
        if text_lt(x.name, y.name) && text_lt(y.name, z.name) {
            lemma_text_lt_transitive(x.name, y.name, z.name);
        }
    }

    proof fn lemma_key_lt_irreflexive(a: Self) {
        lemma_text_lt_irreflexive(a@.transform_type.name);
    }

    fn compare_key(&self, other: &Self) -> (o: KeyOrder) {
        proof {
            lemma_text_lt_irreflexive(self@.transform_type.schema_name);
            lemma_text_lt_irreflexive(other@.transform_type.schema_name);
        }
        let by_schema = compare_text(self.transform_type.schema_name(), other.transform_type.schema_name());
        if by_schema != KeyOrder::Equal {
            return by_schema;
        }
        compare_text(self.transform_type.name(), other.transform_type.name())
    }
}

/// The values of converter rows, in order.
pub open spec fn converter_views(
    s: Seq<IndexExclusionConstraintOperatorProcedureTransformConverterBinding>,
) -> Seq<ConverterBindingView> {
    s.map_values(|b: IndexExclusionConstraintOperatorProcedureTransformConverterBinding| b@)
}

/// Two rows of one function name the same transform type.
pub open spec fn repeats_transform_type(s: Seq<ConverterBindingView>) -> bool {
    exists|i: int, j: int| 0 <= i < j < s.len() && (#[trigger] s[i]).transform_type == (#[trigger] s[j]).transform_type
}

proof fn lemma_transform_type_collision(s: Seq<IndexExclusionConstraintOperatorProcedureTransformConverterBinding>)
    ensures
        has_key_collision(s) <==> repeats_transform_type(converter_views(s)),
{
    let v = converter_views(s);
    if has_key_collision(s) {
        let (i, j) = choose|i: int, j: int| 0 <= i < j < s.len() && same_key(#[trigger] s[i], #[trigger] s[j]);
        lemma_type_name_same_key(s[i]@.transform_type, s[j]@.transform_type);
        assert(v[i] == s[i]@ && v[j] == s[j]@);
    }
    if repeats_transform_type(v) {
        let (i, j) = choose|i: int, j: int|
            0 <= i < j < v.len() && (#[trigger] v[i]).transform_type == (#[trigger] v[j]).transform_type;
        lemma_type_name_same_key(s[i]@.transform_type, s[j]@.transform_type);
        assert(v[i] == s[i]@ && v[j] == s[j]@);
        assert(same_key(s[i], s[j]));
    }
}

/// The value of one function's converter evidence: its language and its rows in type order.
pub struct ConverterSetView {
    pub target_language_name: Seq<char>,
    pub converters: Seq<ConverterBindingView>,
}

/// Transform-converter evidence for one governed exclusion-constraint implementation function.
#[derive(Debug, PartialEq, Eq)]
pub struct IndexExclusionConstraintOperatorProcedureTransformConverterObservation {
    coordinate: IndexExclusionConstraintCoordinate,
    key_position: u32,
    operator: QualifiedOperatorSignature,
    procedure: QualifiedProcedureSignature,
    target_language_name: String,
    converters: Vec<IndexExclusionConstraintOperatorProcedureTransformConverterBinding>,
}

impl View for IndexExclusionConstraintOperatorProcedureTransformConverterObservation {
    type V = ProcedurePropertyView<ConverterSetView>;

    closed spec fn view(&self) -> ProcedurePropertyView<ConverterSetView> {
        ProcedurePropertyView {
            binding: BindingView {
                coordinate: self.coordinate@,
                key_position: self.key_position,
                operator: self.operator@,
                procedure: self.procedure@,
            },
            property: ConverterSetView {
                target_language_name: self.target_language_name@,
                converters: converter_views(self.converters@),
            },
        }
    }
}

fn clone_converters(
    s: &[IndexExclusionConstraintOperatorProcedureTransformConverterBinding],
) -> (c: Vec<IndexExclusionConstraintOperatorProcedureTransformConverterBinding>)
    ensures
        converter_views(c@) == converter_views(s@),
{
    let mut out: Vec<IndexExclusionConstraintOperatorProcedureTransformConverterBinding> = Vec::new();
    let mut i: usize = 0;
    while i < s.len()
        invariant
            i <= s@.len(),
            out@.len() == i,
            forall|k: int| 0 <= k < i ==> (#[trigger] out@[k])@ == s@[k]@,
        decreases s@.len() - i,
    {
        out.push(s[i].clone());
        i = i + 1;
    }
    assert(converter_views(out@) =~= converter_views(s@));
    out
}

impl Clone for IndexExclusionConstraintOperatorProcedureTransformConverterObservation {
    fn clone(&self) -> (c: Self)
        ensures
            c@ == self@,
    {
        IndexExclusionConstraintOperatorProcedureTransformConverterObservation {
            coordinate: self.coordinate.clone(),
            key_position: self.key_position,
            operator: self.operator.clone(),
            procedure: self.procedure.clone(),
            target_language_name: self.target_language_name.clone(),
            converters: clone_converters(self.converters.as_slice()),
        }
    }
}

/// Location suffix of transform-converter evidence.
pub const CONVERTER_LOCATION_SUFFIX: &'static str = "procedure-transform-converters";

impl IndexExclusionConstraintOperatorProcedureTransformConverterObservation {
    /// Records the `pg_transform` rows of one target function's transform set, in type order;
    /// the key position is one-based.
    pub fn new(
        coordinate: IndexExclusionConstraintCoordinate,
        key_position: u32,
        operator: QualifiedOperatorSignature,
        procedure: QualifiedProcedureSignature,
        target_language_name: &str,
        converters: Vec<IndexExclusionConstraintOperatorProcedureTransformConverterBinding>,
    ) -> (r: Result<Self, ObservationError>)
        ensures
            r is Ok <==> key_position != 0 && !is_blank(target_language_name@) && !repeats_transform_type(
                converter_views(converters@),
            ),
            key_position == 0 ==> r matches Err(ObservationError::InvalidOrdinalPosition),
            key_position != 0 && is_blank(target_language_name@) ==> fails_with_text(r, TARGET_LANGUAGE_FIELD@),
            key_position != 0 && !is_blank(target_language_name@) && repeats_transform_type(converter_views(converters@))
                ==> fails_with_text(r, DUPLICATE_FIELD@),
            r matches Ok(o) ==> o@ == (ProcedurePropertyView {
                binding: BindingView {
                    coordinate: coordinate@,
                    key_position,
                    operator: operator@,
                    procedure: procedure@,
                },
                property: ConverterSetView {
                    target_language_name: target_language_name@,
                    converters: converter_views(sorted_by_key(converters@)),
                },
            }),
    {
        if key_position == 0 {
            return Err(ObservationError::InvalidOrdinalPosition);
        }
        validate_nonblank(target_language_name, TARGET_LANGUAGE_FIELD)?;
        proof {
            lemma_transform_type_collision(converters@);
        }
        let converters = match sort_by_key(converters) {
            Some(v) => v,
            None => {
                return Err(invalid(DUPLICATE_FIELD));
            },
        };
        Ok(IndexExclusionConstraintOperatorProcedureTransformConverterObservation {
            coordinate,
            key_position,
            operator,
            procedure,
            target_language_name: target_language_name.to_owned(),
            converters,
        })
    }

    /// Returns the exact exclusion-constraint coordinate.
    pub fn coordinate(&self) -> (c: &IndexExclusionConstraintCoordinate)
        ensures
            c@ == self@.binding.coordinate,
    {
        &self.coordinate
    }

    /// Returns the one-based exclusion-key position.
    pub fn key_position(&self) -> (p: u32)
        ensures
            p == self@.binding.key_position,
    {
        self.key_position
    }

    /// Returns the governed exclusion operator repeated for predecessor binding.
    pub fn operator(&self) -> (o: &QualifiedOperatorSignature)
        ensures
            o@ == self@.binding.operator,
    {
        &self.operator
    }

    /// Returns the target `pg_operator.oprcode` function repeated for predecessor binding.
    pub fn procedure(&self) -> (p: &QualifiedProcedureSignature)
        ensures
            p@ == self@.binding.procedure,
    {
        &self.procedure
    }

    /// Returns the target function's language, resolved from its `pg_proc.prolang` row.
    pub fn target_language_name(&self) -> (s: &str)
        ensures
            s@ == self@.property.target_language_name,
    {
        self.target_language_name.as_str()
    }

    /// Returns the selected transform rows in type order.
    pub fn converters(&self) -> (c: &[IndexExclusionConstraintOperatorProcedureTransformConverterBinding])
        ensures
            converter_views(c@) == self@.property.converters,
    {
        self.converters.as_slice()
    }

    /// Returns the collision-safe evidence location for this transform-converter fact.
    pub fn canonical_location(&self) -> (s: String)
        ensures
            s@ == procedure_property_location(self@.binding.coordinate, self@.binding.key_position, CONVERTER_LOCATION_SUFFIX@),
    {
        render_procedure_property_location(&self.coordinate, self.key_position, CONVERTER_LOCATION_SUFFIX)
    }
}

} // verus!

verus! {

/// Framing of an optional converter: tag 0 for none, else tag 1, schema, name, argument and
/// return types, implementation language and definition digest.
pub open spec fn frame_optional_function(f: Option<ConverterFunctionView>) -> Seq<u8> {
    match f {
        Some(x) => seq![1u8] + frame_str(x.schema_name) + frame_str(x.function_name) + frame_type(x.argument_type)
            + frame_type(x.return_type) + frame_str(x.definition.language_name) + frame_str(x.definition.definition_digest),
        None => seq![0u8],
    }
}

/// Framing of one transform row: its type, then its `trffromsql` and `trftosql` converters.
pub open spec fn frame_converter(b: ConverterBindingView) -> Seq<u8> {
    frame_type(b.transform_type) + frame_optional_function(b.from_sql) + frame_optional_function(b.to_sql)
}

/// Framing of transform rows, in order.
pub open spec fn frame_converters(s: Seq<ConverterBindingView>) -> Seq<u8>
    decreases s.len(),
{
    if s.len() == 0 {
        Seq::empty()
    } else {
        frame_converters(s.drop_last()) + frame_converter(s.last())
    }
}

/// Framing of one function's converter evidence: its language, the row count and the rows.
pub open spec fn frame_converter_set(c: ConverterSetView) -> Seq<u8> {
    frame_str(c.target_language_name) + frame_len(c.converters.len()) + frame_converters(c.converters)
}

fn put_optional_function(out: &mut Vec<u8>, f: Option<&IndexExclusionConstraintOperatorProcedureTransformConverterFunction>)
    ensures
        final(out)@ == old(out)@ + frame_optional_function(
            match f {
                Some(x) => Some(x@),
                None => None,
            },
        ),
{
    match f {
        Some(x) => {
            put_tag(out, 1u8);
            put_str(out, x.schema_name());
            put_str(out, x.function_name());
            put_type(out, x.argument_type());
            put_type(out, x.return_type());
            put_str(out, x.implementation_language_name());
            put_str(out, x.definition_digest());
            proof {
                assert(final(out)@ =~= old(out)@ + frame_optional_function(Some(x@)));
            }
        },
        None => {
            put_tag(out, 0u8);
            proof {
                assert(final(out)@ =~= old(out)@ + frame_optional_function(None));
            }
        },
    }
}

fn put_converter(out: &mut Vec<u8>, b: &IndexExclusionConstraintOperatorProcedureTransformConverterBinding)
    ensures
        final(out)@ == old(out)@ + frame_converter(b@),
{
    let ghost s0 = out@;
    put_type(out, b.transform_type());
    let ghost s1 = out@;
    put_optional_function(out, b.from_sql());
    let ghost s2 = out@;
    put_optional_function(out, b.to_sql());
    proof {
        assert(s1 == s0 + frame_type(b@.transform_type));
        assert(s2 == s1 + frame_optional_function(b@.from_sql));
        assert(final(out)@ =~= old(out)@ + frame_converter(b@));
    }
}

fn put_converters(out: &mut Vec<u8>, s: &[IndexExclusionConstraintOperatorProcedureTransformConverterBinding])
    ensures
        final(out)@ == old(out)@ + frame_converters(converter_views(s@)),
{
    let ghost start = out@;
    let ghost views = converter_views(s@);
    let mut i: usize = 0;
    assert(views.subrange(0, 0) =~= Seq::<ConverterBindingView>::empty());
    assert(start + Seq::<u8>::empty() =~= start);
    while i < s.len()
        invariant
            i <= s@.len(),
            views == converter_views(s@),
            out@ == start + frame_converters(views.subrange(0, i as int)),
        decreases s@.len() - i,
    {
        put_converter(out, &s[i]);
        proof {
            let next = views.subrange(0, i + 1);
            assert(next.drop_last() =~= views.subrange(0, i as int));
            assert(next.last() == s@[i as int]@);
            assert(out@ =~= start + frame_converters(next));
        }
        i = i + 1;
    }
    proof {
        assert(views.subrange(0, s@.len() as int) =~= views);
    }
}

impl ProcedureBound for IndexExclusionConstraintOperatorProcedureTransformConverterObservation {
    open spec fn binding(&self) -> BindingView {
        self@.binding
    }

    open spec fn property_frame(&self) -> Seq<u8> {
        frame_converter_set(self@.property)
    }

    fn binding_coordinate(&self) -> (c: &IndexExclusionConstraintCoordinate) {
        &self.coordinate
    }

    fn binding_key_position(&self) -> (p: u32) {
        self.key_position
    }

    fn binding_operator(&self) -> (o: &QualifiedOperatorSignature) {
        &self.operator
    }

    fn binding_procedure(&self) -> (p: &QualifiedProcedureSignature) {
        &self.procedure
    }

    fn put_property(&self, out: &mut Vec<u8>) {
        let ghost s0 = out@;
        put_str(out, self.target_language_name.as_str());
        let ghost s1 = out@;
        put_len(out, self.converters.len());
        let ghost s2 = out@;
        put_converters(out, self.converters.as_slice());
        proof {
            assert(s1 == s0 + frame_str(self@.property.target_language_name));
            assert(s2 == s1 + frame_len(self@.property.converters.len()));
            assert(final(out)@ =~= old(out)@ + frame_converter_set(self@.property));
        }
    }
}

impl SortKey for IndexExclusionConstraintOperatorProcedureTransformConverterObservation {
    open spec fn key_lt(self, other: Self) -> bool {
        binding_lt(self@.binding, other@.binding)
    }

    proof fn lemma_key_lt_transitive(a: Self, b: Self, c: Self) {
        crate::procedure_binding::lemma_binding_lt_transitive(a@.binding, b@.binding, c@.binding);
    }

    proof fn lemma_key_lt_irreflexive(a: Self) {
        lemma_coordinate_lt_irreflexive(constraint_key(a@.binding.coordinate));
    }

    fn compare_key(&self, other: &Self) -> (o: KeyOrder) {
        proof {
            lemma_coordinate_lt_irreflexive(constraint_key(self@.binding.coordinate));
            lemma_coordinate_lt_irreflexive(constraint_key(other@.binding.coordinate));
        }
        let by_coordinate = self.coordinate.compare(&other.coordinate);
        if by_coordinate != KeyOrder::Equal {
            return by_coordinate;
        }
        compare_u32(self.key_position, other.key_position)
    }
}

/// Immutable provenance receipt for one exact transform-converter observation.
#[derive(Debug, PartialEq, Eq)]
pub struct IndexExclusionConstraintOperatorProcedureTransformConverterSourceReceipt {
    source_id: String,
    connection_policy_binding: String,
    source_digest: String,
    extractor_revision: String,
    observed_at_utc: String,
    location: IndexExclusionConstraintOperatorProcedureTransformConverterObservation,
}

impl IndexExclusionConstraintOperatorProcedureTransformConverterSourceReceipt {
    /// The provenance carried by this receipt.
    pub closed spec fn lineage(&self) -> LineageView {
        LineageView {
            source_connection_key: self.source_id@,
            connection_policy_binding: self.connection_policy_binding@,
            snapshot_digest: self.source_digest@,
            extractor_revision: self.extractor_revision@,
            observed_at_utc: self.observed_at_utc@,
        }
    }

    /// The observation covered by this receipt.
    pub closed spec fn location_view(&self) -> ProcedurePropertyView<ConverterSetView> {
        self.location@
    }

    /// Returns the stable source registry key, never credential material.
    pub fn source_id(&self) -> (s: &str)
        ensures
            s@ == self.lineage().source_connection_key,
    {
        self.source_id.as_str()
    }

    /// Returns the immutable source-policy binding.
    pub fn connection_policy_binding(&self) -> (s: &str)
        ensures
            s@ == self.lineage().connection_policy_binding,
    {
        self.connection_policy_binding.as_str()
    }

    /// Returns the transform-converter successor digest.
    pub fn source_digest(&self) -> (s: &str)
        ensures
            s@ == self.lineage().snapshot_digest,
    {
        self.source_digest.as_str()
    }

    /// Returns the exact extractor revision inherited from the predecessor chain.
    pub fn extractor_revision(&self) -> (s: &str)
        ensures
            s@ == self.lineage().extractor_revision,
    {
        self.extractor_revision.as_str()
    }

    /// Returns the exact canonical UTC observation time inherited from the predecessor chain.
    pub fn observed_at_utc(&self) -> (s: &str)
        ensures
            s@ == self.lineage().observed_at_utc,
    {
        self.observed_at_utc.as_str()
    }

    /// Returns the exact validated transform-converter observation.
    pub fn location(&self) -> (o: &IndexExclusionConstraintOperatorProcedureTransformConverterObservation)
        ensures
            o@ == self.location_view(),
    {
        &self.location
    }
}

} // verus!

verus! {

/// Field reported when the transform-type and definition evidence come from different
/// generations, or the definition evidence lacks or contradicts a governed function.
pub const GENERATION_FIELD: &'static str =
    "index_exclusion_constraint_operator_procedure_transform_converter_generation";

/// Field reported for a repeated (constraint, key) position.
pub const COORDINATE_FIELD: &'static str =
    "index_exclusion_constraint_operator_procedure_transform_converter_coordinate";

/// Field reported when positions or transform rows differ from the transform-type evidence.
pub const COMPLETENESS_FIELD: &'static str =
    "index_exclusion_constraint_operator_procedure_transform_converter_completeness";

/// Field reported for an operator or procedure other than the transform-type evidence's.
pub const BINDING_FIELD: &'static str =
    "index_exclusion_constraint_operator_procedure_transform_converter_binding";

/// Field reported for a target language other than the definition evidence's.
pub const LANGUAGE_BINDING_FIELD: &'static str =
    "index_exclusion_constraint_operator_procedure_transform_converter_language_binding";

/// Domain separator of the transform-converter digest.
pub const CONVERTER_DIGEST_DOMAIN: &'static str =
    "conceptweave.postgres_schema_snapshot.v3.relation_partition.index_partition.exclusion_constraint.operator.procedure.transform_converter.v1";

/// Two lineages come from one generation: same source, policy, extractor and observation time.
pub open spec fn same_generation(a: LineageView, b: LineageView) -> bool {
    &&& a.source_connection_key == b.source_connection_key
    &&& a.connection_policy_binding == b.connection_policy_binding
    &&& a.extractor_revision == b.extractor_revision
    &&& a.observed_at_utc == b.observed_at_utc
}

/// The rows of one function are exactly its selected transform types, in order; a function
/// that selects none has no rows.
pub open spec fn converters_cover(types: Option<Seq<QualifiedNameView>>, rows: Seq<ConverterBindingView>) -> bool {
    match types {
        None => rows.len() == 0,
        Some(t) => rows.len() == t.len() && forall|i: int| 0 <= i < t.len() ==> (#[trigger] rows[i]).transform_type == t[i],
    }
}

/// The refusal of the first observation, in order, that fails: its operator or procedure differ
/// from the transform-type evidence; the definition evidence lacks its position or records
/// another operator or procedure; its language differs from the definition's; its rows are not
/// exactly the selected transform types.
pub open spec fn first_converter_refusal(
    pred: Seq<TransformTypesEntry>,
    defs: Seq<IndexExclusionConstraintOperatorProcedureDefinitionObservation>,
    s: Seq<IndexExclusionConstraintOperatorProcedureTransformConverterObservation>,
) -> Option<Seq<char>>
    decreases s.len(),
{
    if s.len() == 0 {
        None
    } else {
        let o = s[0]@;
        match bound_at(pred, o.binding.coordinate, o.binding.key_position) {
            None => Some(COMPLETENESS_FIELD@),
            Some(p) => if p@.binding.operator != o.binding.operator || p@.binding.procedure != o.binding.procedure {
                Some(BINDING_FIELD@)
            } else {
                match bound_at(defs, o.binding.coordinate, o.binding.key_position) {
                    None => Some(GENERATION_FIELD@),
                    Some(d) => if d@.binding.operator != o.binding.operator || d@.binding.procedure
                        != o.binding.procedure {
                        Some(GENERATION_FIELD@)
                    } else if d@.property.language_name != o.property.target_language_name {
                        Some(LANGUAGE_BINDING_FIELD@)
                    } else if !converters_cover(p@.property, o.property.converters) {
                        Some(COMPLETENESS_FIELD@)
                    } else {
                        first_converter_refusal(pred, defs, s.drop_first())
                    },
                }
            },
        }
    }
}

/// Why transform-converter evidence is refused, or `None` when it is issued: another
/// generation; then a repeated position; then positions other than exactly the transform-type
/// evidence's; then the first failing observation in (constraint, key) order.
pub open spec fn converter_refusal(
    types_lineage: LineageView,
    definition_lineage: LineageView,
    pred: Seq<TransformTypesEntry>,
    defs: Seq<IndexExclusionConstraintOperatorProcedureDefinitionObservation>,
    obs: Seq<IndexExclusionConstraintOperatorProcedureTransformConverterObservation>,
) -> Option<Seq<char>> {
    if !same_generation(types_lineage, definition_lineage) {
        Some(GENERATION_FIELD@)
    } else if duplicate_position(bindings_of(obs)) {
        Some(COORDINATE_FIELD@)
    } else if !same_positions(bindings_of(pred), bindings_of(sorted_by_key(obs))) {
        Some(COMPLETENESS_FIELD@)
    } else {
        first_converter_refusal(pred, defs, sorted_by_key(obs))
    }
}

/// The values of optional borrowed transform types.
pub open spec fn optional_type_slice(t: Option<&[QualifiedTypeName]>) -> Option<Seq<QualifiedNameView>> {
    match t {
        Some(s) => Some(type_views(s@)),
        None => None,
    }
}

fn rows_cover(
    types: Option<&[QualifiedTypeName]>,
    rows: &[IndexExclusionConstraintOperatorProcedureTransformConverterBinding],
) -> (b: bool)
    ensures
        b == converters_cover(optional_type_slice(types), converter_views(rows@)),
{
    match types {
        None => rows.len() == 0,
        Some(t) => {
            if rows.len() != t.len() {
                return false;
            }
            let ghost tv = type_views(t@);
            let ghost rv = converter_views(rows@);
            let mut i: usize = 0;
            while i < t.len()
                invariant
                    i <= t@.len(),
                    optional_type_slice(types) == Some(tv),
                    rows@.len() == t@.len(),
                    tv == type_views(t@),
                    rv == converter_views(rows@),
                    forall|k: int| 0 <= k < i ==> (#[trigger] rv[k]).transform_type == tv[k],
                decreases t@.len() - i,
            {
                assert(rv[i as int] == rows@[i as int]@ && tv[i as int] == t@[i as int]@);
                if !rows[i].transform_type().same_as(&t[i]) {
                    assert(rv[i as int].transform_type != tv[i as int]);
                    return false;
                }
                i = i + 1;
            }
            true
        },
    }
}

fn check_converters(
    pred: &[TransformTypesEntry],
    defs: &[IndexExclusionConstraintOperatorProcedureDefinitionObservation],
    obs: &[IndexExclusionConstraintOperatorProcedureTransformConverterObservation],
) -> (r: Result<(), ObservationError>)
    ensures
        r is Ok <==> first_converter_refusal(pred@, defs@, obs@) is None,
        r is Err ==> fails_with_text(r, first_converter_refusal(pred@, defs@, obs@)->0),
{
    let mut i: usize = 0;
    assert(obs@.skip(0) =~= obs@);
    while i < obs.len()
        invariant
            i <= obs@.len(),
            first_converter_refusal(pred@, defs@, obs@) == first_converter_refusal(pred@, defs@, obs@.skip(i as int)),
        decreases obs@.len() - i,
    {
        assert(obs@.skip(i as int)[0] == obs@[i as int]);
        assert(obs@.skip(i as int).drop_first() =~= obs@.skip(i + 1));
        let o = &obs[i];
        let p = match find_bound(pred, o.coordinate(), o.key_position()) {
            Some(p) => p,
            None => {
                return Err(invalid(COMPLETENESS_FIELD));
            },
        };
        if !p.binding_operator().same_as(o.operator()) || !p.binding_procedure().same_as(o.procedure()) {
            return Err(invalid(BINDING_FIELD));
        }
        let d = match find_bound(defs, o.coordinate(), o.key_position()) {
            Some(d) => d,
            None => {
                return Err(invalid(GENERATION_FIELD));
            },
        };
        if !d.operator().same_as(o.operator()) || !d.procedure().same_as(o.procedure()) {
            return Err(invalid(GENERATION_FIELD));
        }
        if !text_eq(d.language_name(), o.target_language_name()) {
            return Err(invalid(LANGUAGE_BINDING_FIELD));
        }
        if !rows_cover(p.transform_types(), o.converters()) {
            return Err(invalid(COMPLETENESS_FIELD));
        }
        i = i + 1;
    }
    Ok(())
}

/// Complete `pg_transform` converter evidence over issued transform-type evidence: exactly its
/// (constraint, key) positions, each repeating its operator and procedure, written in the
/// language recorded by same-generation definition evidence, with one row per selected type.
#[derive(Debug, PartialEq, Eq)]
pub struct IndexExclusionConstraintOperatorProcedureTransformConverterSnapshot {
    source_connection_key: String,
    connection_policy_binding: String,
    snapshot_digest: String,
    extractor_revision: String,
    observed_at_utc: String,
    observations: Vec<IndexExclusionConstraintOperatorProcedureTransformConverterObservation>,
}

impl IndexExclusionConstraintOperatorProcedureTransformConverterSnapshot {
    /// The provenance of this snapshot, with its own digest.
    pub closed spec fn lineage(&self) -> LineageView {
        LineageView {
            source_connection_key: self.source_connection_key@,
            connection_policy_binding: self.connection_policy_binding@,
            snapshot_digest: self.snapshot_digest@,
            extractor_revision: self.extractor_revision@,
            observed_at_utc: self.observed_at_utc@,
        }
    }

    /// The observations held, in (constraint, key) order.
    pub closed spec fn entries(&self) -> Seq<IndexExclusionConstraintOperatorProcedureTransformConverterObservation> {
        self.observations@
    }

    /// Creates complete converter evidence over issued transform-type evidence and cross-checks
    /// each target language against same-generation definition evidence.
    pub fn new(
        transform_types_snapshot: &IssuedTransformTypes,
        definition_snapshot: &IndexExclusionConstraintOperatorProcedureDefinitionSnapshot,
        observations: Vec<IndexExclusionConstraintOperatorProcedureTransformConverterObservation>,
    ) -> (r: Result<Self, ObservationError>)
        ensures
            ({
                let refusal = converter_refusal(
                    transform_types_snapshot.lineage(),
                    definition_snapshot.lineage(),
                    transform_types_snapshot.entry_values(),
                    definition_snapshot.entries(),
                    observations@,
                );
                &&& r is Ok <==> refusal is None
                &&& refusal is Some ==> fails_with_text(r, refusal->0)
            }),
            r matches Ok(s) ==> {
                &&& s.entries() == sorted_by_key(observations@)
                &&& s.lineage() == (LineageView {
                    snapshot_digest: digest_text(
                        bound_preimage(CONVERTER_DIGEST_DOMAIN@, transform_types_snapshot.lineage().snapshot_digest, s.entries()),
                    ),
                    ..transform_types_snapshot.lineage()
                })
            },
    {
        if !text_eq(transform_types_snapshot.source_connection_key(), definition_snapshot.source_connection_key())
            || !text_eq(transform_types_snapshot.connection_policy_binding(), definition_snapshot.connection_policy_binding())
            || !text_eq(transform_types_snapshot.extractor_revision(), definition_snapshot.extractor_revision())
            || !text_eq(transform_types_snapshot.observed_at_utc(), definition_snapshot.observed_at_utc()) {
            return Err(invalid(GENERATION_FIELD));
        }
        proof {
            assert(sorted_by_binding::<IndexExclusionConstraintOperatorProcedureTransformConverterObservation>());
            lemma_position_collision(observations@);
        }
        let sorted = match sort_by_key(observations) {
            Some(v) => v,
            None => {
                return Err(invalid(COORDINATE_FIELD));
            },
        };
        if !positions_match(transform_types_snapshot.entries(), sorted.as_slice()) {
            return Err(invalid(COMPLETENESS_FIELD));
        }
        check_converters(transform_types_snapshot.entries(), definition_snapshot.observations(), sorted.as_slice())?;
        let snapshot_digest = compute_bound_digest(
            CONVERTER_DIGEST_DOMAIN,
            transform_types_snapshot.snapshot_digest(),
            sorted.as_slice(),
        );
        Ok(IndexExclusionConstraintOperatorProcedureTransformConverterSnapshot {
            source_connection_key: transform_types_snapshot.source_connection_key().to_owned(),
            connection_policy_binding: transform_types_snapshot.connection_policy_binding().to_owned(),
            snapshot_digest,
            extractor_revision: transform_types_snapshot.extractor_revision().to_owned(),
            observed_at_utc: transform_types_snapshot.observed_at_utc().to_owned(),
            observations: sorted,
        })
    }

    /// Returns the stable source-connection registry key.
    pub fn source_connection_key(&self) -> (s: &str)
        ensures
            s@ == self.lineage().source_connection_key,
    {
        self.source_connection_key.as_str()
    }

    /// Returns the immutable source-policy binding.
    pub fn connection_policy_binding(&self) -> (s: &str)
        ensures
            s@ == self.lineage().connection_policy_binding,
    {
        self.connection_policy_binding.as_str()
    }

    /// Returns the domain-separated transform-converter successor digest.
    pub fn snapshot_digest(&self) -> (s: &str)
        ensures
            s@ == self.lineage().snapshot_digest,
    {
        self.snapshot_digest.as_str()
    }

    /// Returns the exact extractor revision inherited from the predecessor chain.
    pub fn extractor_revision(&self) -> (s: &str)
        ensures
            s@ == self.lineage().extractor_revision,
    {
        self.extractor_revision.as_str()
    }

    /// Returns the exact canonical UTC observation time inherited from the predecessor chain.
    pub fn observed_at_utc(&self) -> (s: &str)
        ensures
            s@ == self.lineage().observed_at_utc,
    {
        self.observed_at_utc.as_str()
    }

    /// Returns complete transform-converter observations in (constraint, key) order.
    pub fn observations(&self) -> (o: &[IndexExclusionConstraintOperatorProcedureTransformConverterObservation])
        ensures
            o@ == self.entries(),
    {
        self.observations.as_slice()
    }

    /// Issues exact provenance for one observed transform-converter position.
    pub fn source_receipt(&self, coordinate: IndexExclusionConstraintCoordinate, key_position: u32) -> (r: Result<
        IndexExclusionConstraintOperatorProcedureTransformConverterSourceReceipt,
        ObservationError,
    >)
        ensures
            r is Ok <==> bound_at(self.entries(), coordinate@, key_position) is Some,
            r matches Ok(receipt) ==> receipt.lineage() == self.lineage() && receipt.location_view() == bound_at(
                self.entries(),
                coordinate@,
                key_position,
            )->0@,
            r matches Err(e) ==> e matches ObservationError::UnknownObservationLocation { location: l } && l@
                == procedure_property_location(coordinate@, key_position, CONVERTER_LOCATION_SUFFIX@),
    {
        let observation = match find_bound(self.observations.as_slice(), &coordinate, key_position) {
            Some(o) => o,
            None => {
                return Err(
                    ObservationError::UnknownObservationLocation {
                        location: render_procedure_property_location(&coordinate, key_position, CONVERTER_LOCATION_SUFFIX),
                    },
                );
            },
        };
        Ok(IndexExclusionConstraintOperatorProcedureTransformConverterSourceReceipt {
            source_id: self.source_connection_key.clone(),
            connection_policy_binding: self.connection_policy_binding.clone(),
            source_digest: self.snapshot_digest.clone(),
            extractor_revision: self.extractor_revision.clone(),
            observed_at_utc: self.observed_at_utc.clone(),
            location: observation.clone(),
        })
    }
}

/// The order in which observations are supplied is not semantic: two supplies holding the same
/// observations, one of which is issued, give the same entries and digest preimage.
pub proof fn lemma_converter_supply_order(
    predecessor_digest: Seq<char>,
    first: Seq<IndexExclusionConstraintOperatorProcedureTransformConverterObservation>,
    second: Seq<IndexExclusionConstraintOperatorProcedureTransformConverterObservation>,
)
    requires
        same_elements(first, second),
        strictly_sorted(sorted_by_key(first)),
        same_elements(sorted_by_key(first), first),
    ensures
        sorted_by_key(first) == sorted_by_key(second),
        bound_preimage(CONVERTER_DIGEST_DOMAIN@, predecessor_digest, sorted_by_key(first)) == bound_preimage(
            CONVERTER_DIGEST_DOMAIN@,
            predecessor_digest,
            sorted_by_key(second),
        ),
{
    lemma_sorted_by_key_order_independent(first, second);
}

/// Converter-row order is not semantic: two row lists holding the same rows, one of which an
/// observation accepts, are recorded identically.
pub proof fn lemma_converter_row_order(
    first: Seq<IndexExclusionConstraintOperatorProcedureTransformConverterBinding>,
    second: Seq<IndexExclusionConstraintOperatorProcedureTransformConverterBinding>,
)
    requires
        same_elements(first, second),
        strictly_sorted(sorted_by_key(first)),
        same_elements(sorted_by_key(first), first),
    ensures
        converter_views(sorted_by_key(first)) == converter_views(sorted_by_key(second)),
{
    lemma_sorted_by_key_order_independent(first, second);
}

} // verus!
