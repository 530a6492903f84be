//! Resolved PostgreSQL operator, procedure and function signatures.

use vstd::prelude::*;

use crate::catalog::{validate_nonblank, QualifiedNameView, QualifiedTypeName};
use crate::error::{fails_with, invalid, is_invalid_field, ObservationError};
use crate::text::{contains_nul, has_nul, is_blank};

verus! {

/// Fails with the named field when `value` is empty or contains NUL.
pub fn validate_identifier(value: &str, field: &'static str) -> (r: Result<(), ObservationError>)
    ensures
        r is Ok <==> value@.len() > 0 && !has_nul(value@),
        r matches Err(e) ==> is_invalid_field(e, field),
{
    if value.is_empty() || contains_nul(value) {
        return Err(invalid(field));
    }
    Ok(())
}

/// The values of a sequence of qualified type names.
pub open spec fn type_views(s: Seq<QualifiedTypeName>) -> Seq<QualifiedNameView> {
    s.map_values(|t: QualifiedTypeName| t@)
}

/// Copies a list of qualified type names.
pub fn clone_types(types: &[QualifiedTypeName]) -> (c: Vec<QualifiedTypeName>)
    ensures
        c@ == types@,
        type_views(c@) == type_views(types@),
{
    let mut out: Vec<QualifiedTypeName> = Vec::new();
    let mut i: usize = 0;
    while i < types.len()
        invariant
            i <= types@.len(),
            out@ == types@.subrange(0, i as int),
        decreases types@.len() - i,
    {
        out.push(types[i].clone());
        proof {
            assert(out@ =~= types@.subrange(0, i + 1));
        }
        i = i + 1;
    }
    proof {
        assert(types@.subrange(0, types@.len() as int) =~= types@);
    }
    out
}

/// Reports whether two lists of qualified type names are equal.
pub fn same_types(a: &[QualifiedTypeName], b: &[QualifiedTypeName]) -> (r: bool)
    ensures
        r == (type_views(a@) == type_views(b@)),
{
    if a.len() != b.len() {
        proof {
            assert(type_views(a@).len() != type_views(b@).len());
        }
        return false;
    }
    let mut i: usize = 0;
    while i < a.len()
        invariant
            i <= a@.len(),
            a@.len() == b@.len(),
            forall|k: int| 0 <= k < i ==> (#[trigger] a@[k])@ == b@[k]@,
        decreases a@.len() - i,
    {
        if !a[i].same_as(&b[i]) {
            proof {
                assert(type_views(a@)[i as int] != type_views(b@)[i as int]);
            }
            return false;
        }
        i = i + 1;
    }
    proof {
        assert(type_views(a@) =~= type_views(b@));
    }
    true
}

/// The value of an operator signature.
pub struct OperatorView {
    pub schema_name: Seq<char>,
    pub operator_name: Seq<char>,
    pub left_type: QualifiedNameView,
    pub right_type: QualifiedNameView,
}

/// Stable PostgreSQL binary operator identity: schema, name and both operand types.
#[derive(Debug, PartialEq, Eq)]
pub struct QualifiedOperatorSignature {
    schema_name: String,
    operator_name: String,
    left_type: QualifiedTypeName,
    right_type: QualifiedTypeName,
}

impl View for QualifiedOperatorSignature {
    type V = OperatorView;

    closed spec fn view(&self) -> OperatorView {
        OperatorView {
            schema_name: self.schema_name@,
            operator_name: self.operator_name@,
            left_type: self.left_type@,
            right_type: self.right_type@,
        }
    }
}

impl Clone for QualifiedOperatorSignature {
    fn clone(&self) -> (c: Self)
        ensures
            c@ == self@,
            c == *self,
    {
        QualifiedOperatorSignature {
            schema_name: self.schema_name.clone(),
            operator_name: self.operator_name.clone(),
            left_type: self.left_type.clone(),
            right_type: self.right_type.clone(),
        }
    }
}

impl QualifiedOperatorSignature {
    /// Creates one exact binary operator signature.
    pub fn new(
        schema_name: &str,
        operator_name: &str,
        left_type: QualifiedTypeName,
        right_type: QualifiedTypeName,
    ) -> (r: Result<Self, ObservationError>)
        ensures
            r is Ok <==> schema_name@.len() > 0 && !has_nul(schema_name@) && !is_blank(operator_name@),
            r matches Ok(o) ==> o@ == (OperatorView {
                schema_name: schema_name@,
                operator_name: operator_name@,
                left_type: left_type@,
                right_type: right_type@,
            }),
            !(schema_name@.len() > 0 && !has_nul(schema_name@)) ==> fails_with(
                r,
                "exclusion_operator_schema_name",
            ),
            schema_name@.len() > 0 && !has_nul(schema_name@) && is_blank(operator_name@)
                ==> fails_with(r, "exclusion_operator_name"),
    {
        validate_identifier(schema_name, "exclusion_operator_schema_name")?;
        validate_nonblank(operator_name, "exclusion_operator_name")?;
        Ok(QualifiedOperatorSignature {
            schema_name: schema_name.to_owned(),
            operator_name: operator_name.to_owned(),
            left_type,
            right_type,
        })
    }

    /// Returns the exact operator schema.
    pub fn schema_name(&self) -> (s: &str)
        ensures
            s@ == self@.schema_name,
    {
        self.schema_name.as_str()
    }

    /// Returns the exact operator name.
    pub fn operator_name(&self) -> (s: &str)
        ensures
            s@ == self@.operator_name,
    {
        self.operator_name.as_str()
    }

    /// Returns the exact left operand type.
    pub fn left_type(&self) -> (t: &QualifiedTypeName)
        ensures
            t@ == self@.left_type,
    {
        &self.left_type
    }

    /// Returns the exact right operand type.
    pub fn right_type(&self) -> (t: &QualifiedTypeName)
        ensures
            t@ == self@.right_type,
    {
        &self.right_type
    }

    /// Reports whether two operator signatures are equal.
    pub fn same_as(&self, other: &Self) -> (b: bool)
        ensures
            b == (self@ == other@),
    {
        self.schema_name == other.schema_name && self.operator_name == other.operator_name
            && self.left_type.same_as(&other.left_type) && self.right_type.same_as(&other.right_type)
    }
}

/// The value of a procedure signature.
pub struct ProcedureView {
    pub schema_name: Seq<char>,
    pub procedure_name: Seq<char>,
    pub argument_types: Seq<QualifiedNameView>,
}

/// Stable PostgreSQL procedure identity for an exclusion operator or planner-support function.
#[derive(Debug, PartialEq, Eq)]
pub struct QualifiedProcedureSignature {
    schema_name: String,
    procedure_name: String,
    argument_types: Vec<QualifiedTypeName>,
}

impl View for QualifiedProcedureSignature {
    type V = ProcedureView;

    closed spec fn view(&self) -> ProcedureView {
        ProcedureView {
            schema_name: self.schema_name@,
            procedure_name: self.procedure_name@,
            argument_types: type_views(self.argument_types@),
        }
    }
}

impl Clone for QualifiedProcedureSignature {
    fn clone(&self) -> (c: Self)
        ensures
            c@ == self@,
    {
        QualifiedProcedureSignature {
            schema_name: self.schema_name.clone(),
            procedure_name: self.procedure_name.clone(),
            argument_types: clone_types(self.argument_types.as_slice()),
        }
    }
}

impl QualifiedProcedureSignature {
    /// Creates an exact operator or planner-support procedure signature with one or two
    /// argument types.
    pub fn new(schema_name: &str, procedure_name: &str, argument_types: Vec<QualifiedTypeName>) -> (r:
        Result<Self, ObservationError>)
        ensures
            r is Ok <==> schema_name@.len() > 0 && !has_nul(schema_name@) && procedure_name@.len()
                > 0 && !has_nul(procedure_name@) && 1 <= argument_types@.len() <= 2,
            r matches Ok(p) ==> p@ == (ProcedureView {
                schema_name: schema_name@,
                procedure_name: procedure_name@,
                argument_types: type_views(argument_types@),
            }),
            !(schema_name@.len() > 0 && !has_nul(schema_name@)) ==> fails_with(
                r,
                "exclusion_procedure_schema_name",
            ),
            schema_name@.len() > 0 && !has_nul(schema_name@) && !(procedure_name@.len() > 0
                && !has_nul(procedure_name@)) ==> fails_with(r, "exclusion_procedure_name"),
            schema_name@.len() > 0 && !has_nul(schema_name@) && procedure_name@.len() > 0
                && !has_nul(procedure_name@) && !(1 <= argument_types@.len() <= 2) ==> fails_with(
                r,
                "exclusion_procedure_argument_types",
            ),
    {
        validate_identifier(schema_name, "exclusion_procedure_schema_name")?;
        validate_identifier(procedure_name, "exclusion_procedure_name")?;
        if argument_types.len() < 1 || argument_types.len() > 2 {
            return Err(invalid("exclusion_procedure_argument_types"));
        }
        Ok(QualifiedProcedureSignature {
            schema_name: schema_name.to_owned(),
            procedure_name: procedure_name.to_owned(),
            argument_types,
        })
    }

    /// Returns the exact procedure schema.
    pub fn schema_name(&self) -> (s: &str)
        ensures
            s@ == self@.schema_name,
    {
        self.schema_name.as_str()
    }

    /// Returns the exact procedure name.
    pub fn procedure_name(&self) -> (s: &str)
        ensures
            s@ == self@.procedure_name,
    {
        self.procedure_name.as_str()
    }

    /// Returns the exact argument-type signature.
    pub fn argument_types(&self) -> (t: &[QualifiedTypeName])
        ensures
            type_views(t@) == self@.argument_types,
    {
        self.argument_types.as_slice()
    }

    /// Reports whether two procedure signatures are equal.
    pub fn same_as(&self, other: &Self) -> (b: bool)
        ensures
            b == (self@ == other@),
    {
        crate::order::text_eq(self.schema_name.as_str(), other.schema_name.as_str()) && crate::order::text_eq(
            self.procedure_name.as_str(),
            other.procedure_name.as_str(),
        ) && same_types(self.argument_types.as_slice(), other.argument_types.as_slice())
    }
}

/// The value of a function signature.
pub struct FunctionView {
    pub schema_name: Seq<char>,
    pub function_name: Seq<char>,
    pub argument_types: Seq<QualifiedNameView>,
    pub return_type: QualifiedNameView,
}

/// Stable PostgreSQL function identity: schema, name, input argument types and return type.
#[derive(Debug, PartialEq, Eq)]
pub struct QualifiedFunctionSignature {
    schema_name: String,
    function_name: String,
    argument_types: Vec<QualifiedTypeName>,
    return_type: QualifiedTypeName,
}

impl View for QualifiedFunctionSignature {
    type V = FunctionView;

    closed spec fn view(&self) -> FunctionView {
        FunctionView {
            schema_name: self.schema_name@,
            function_name: self.function_name@,
            argument_types: type_views(self.argument_types@),
            return_type: self.return_type@,
        }
    }
}

impl Clone for QualifiedFunctionSignature {
    fn clone(&self) -> (c: Self)
        ensures
            c@ == self@,
    {
        QualifiedFunctionSignature {
            schema_name: self.schema_name.clone(),
            function_name: self.function_name.clone(),
            argument_types: clone_types(self.argument_types.as_slice()),
            return_type: self.return_type.clone(),
        }
    }
}

impl QualifiedFunctionSignature {
    /// Creates one resolved function signature without retaining a catalog OID.
    pub fn new(
        schema_name: &str,
        function_name: &str,
        argument_types: Vec<QualifiedTypeName>,
        return_type: QualifiedTypeName,
    ) -> (r: Result<Self, ObservationError>)
        ensures
            r is Ok <==> !is_blank(schema_name@) && !is_blank(function_name@),
            r matches Ok(f) ==> f@ == (FunctionView {
                schema_name: schema_name@,
                function_name: function_name@,
                argument_types: type_views(argument_types@),
                return_type: return_type@,
            }),
            is_blank(schema_name@) ==> fails_with(r, "expression_function_schema_name"),
            !is_blank(schema_name@) && is_blank(function_name@) ==> fails_with(
                r,
                "expression_function_name",
            ),
    {
        validate_nonblank(schema_name, "expression_function_schema_name")?;
        validate_nonblank(function_name, "expression_function_name")?;
        Ok(QualifiedFunctionSignature {
            schema_name: schema_name.to_owned(),
            function_name: function_name.to_owned(),
            argument_types,
            return_type,
        })
    }

    /// Returns the exact function schema.
    pub fn schema_name(&self) -> (s: &str)
        ensures
            s@ == self@.schema_name,
    {
        self.schema_name.as_str()
    }

    /// Returns the exact function name.
    pub fn function_name(&self) -> (s: &str)
        ensures
            s@ == self@.function_name,
    {
        self.function_name.as_str()
    }

    /// Returns the ordered input argument-type signature.
    pub fn argument_types(&self) -> (t: &[QualifiedTypeName])
        ensures
            type_views(t@) == self@.argument_types,
    {
        self.argument_types.as_slice()
    }

    /// Returns the resolved function result type.
    pub fn return_type(&self) -> (t: &QualifiedTypeName)
        ensures
            t@ == self@.return_type,
    {
        &self.return_type
    }

    /// Reports whether two function signatures are equal.
    pub fn same_as(&self, other: &Self) -> (b: bool)
        ensures
            b == (self@ == other@),
    {
        self.schema_name == other.schema_name && self.function_name == other.function_name
            && same_types(self.argument_types.as_slice(), other.argument_types.as_slice())
            && self.return_type.same_as(&other.return_type)
    }
}

/// The value of a unary operator signature.
pub struct UnaryOperatorView {
    pub schema_name: Seq<char>,
    pub operator_name: Seq<char>,
    pub operand_type: QualifiedNameView,
}

/// Stable unary PostgreSQL operator identity: schema, name and single operand type.
#[derive(Debug, PartialEq, Eq)]
pub struct QualifiedUnaryOperatorSignature {
    schema_name: String,
    operator_name: String,
    operand_type: QualifiedTypeName,
}

impl View for QualifiedUnaryOperatorSignature {
    type V = UnaryOperatorView;

    closed spec fn view(&self) -> UnaryOperatorView {
        UnaryOperatorView {
            schema_name: self.schema_name@,
            operator_name: self.operator_name@,
            operand_type: self.operand_type@,
        }
    }
}

impl Clone for QualifiedUnaryOperatorSignature {
    fn clone(&self) -> (c: Self)
        ensures
            c@ == self@,
    {
        QualifiedUnaryOperatorSignature {
            schema_name: self.schema_name.clone(),
            operator_name: self.operator_name.clone(),
            operand_type: self.operand_type.clone(),
        }
    }
}

impl QualifiedUnaryOperatorSignature {
    /// Creates one exact unary operator signature.
    pub fn new(schema_name: &str, operator_name: &str, operand_type: QualifiedTypeName) -> (r: Result<
        Self,
        ObservationError,
    >)
        ensures
            r is Ok <==> !is_blank(schema_name@) && !is_blank(operator_name@),
            r matches Ok(o) ==> o@ == (UnaryOperatorView {
                schema_name: schema_name@,
                operator_name: operator_name@,
                operand_type: operand_type@,
            }),
            is_blank(schema_name@) ==> fails_with(r, "expression_unary_operator_schema_name"),
            !is_blank(schema_name@) && is_blank(operator_name@) ==> fails_with(
                r,
                "expression_unary_operator_name",
            ),
    {
        validate_nonblank(schema_name, "expression_unary_operator_schema_name")?;
        validate_nonblank(operator_name, "expression_unary_operator_name")?;
        Ok(QualifiedUnaryOperatorSignature {
            schema_name: schema_name.to_owned(),
            operator_name: operator_name.to_owned(),
            operand_type,
        })
    }

    /// Returns the exact operator schema.
    pub fn schema_name(&self) -> (s: &str)
        ensures
            s@ == self@.schema_name,
    {
        self.schema_name.as_str()
    }

    /// Returns the exact operator name.
    pub fn operator_name(&self) -> (s: &str)
        ensures
            s@ == self@.operator_name,
    {
        self.operator_name.as_str()
    }

    /// Returns the exact unary operand type.
    pub fn operand_type(&self) -> (t: &QualifiedTypeName)
        ensures
            t@ == self@.operand_type,
    {
        &self.operand_type
    }

    /// Reports whether two unary operator signatures are equal.
    pub fn same_as(&self, other: &Self) -> (b: bool)
        ensures
            b == (self@ == other@),
    {
        self.schema_name == other.schema_name && self.operator_name == other.operator_name
            && self.operand_type.same_as(&other.operand_type)
    }
}

} // verus!

verus! {

/// Framing of a qualified type name: schema then name.
pub open spec fn frame_type(t: QualifiedNameView) -> Seq<u8> {
    crate::digest::frame_str(t.schema_name) + crate::digest::frame_str(t.name)
}

/// Framing of a sequence of qualified type names, in order.
pub open spec fn frame_types(s: Seq<QualifiedNameView>) -> Seq<u8>
    decreases s.len(),
{
    if s.len() == 0 {
        Seq::empty()
    } else {
        frame_types(s.drop_last()) + frame_type(s.last())
    }
}

/// Appends the framing of a qualified type name.
pub fn put_type(out: &mut Vec<u8>, t: &QualifiedTypeName)
    ensures
        final(out)@ == old(out)@ + frame_type(t@),
{
    crate::digest::put_str(out, t.schema_name());
    crate::digest::put_str(out, t.name());
    proof {
        assert(final(out)@ =~= old(out)@ + frame_type(t@));
    }
}

/// Appends the framing of each qualified type name, in order.
pub fn put_types(out: &mut Vec<u8>, types: &[QualifiedTypeName])
    ensures
        final(out)@ == old(out)@ + frame_types(type_views(types@)),
{
    let ghost start = out@;
    let ghost views = type_views(types@);
    let mut i: usize = 0;
    while i < types.len()
        invariant
            i <= types@.len(),
            views == type_views(types@),
            out@ == start + frame_types(views.subrange(0, i as int)),
        decreases types@.len() - i,
    {
        put_type(out, &types[i]);
        proof {
            let next = views.subrange(0, i + 1);
            assert(next.drop_last() =~= views.subrange(0, i as int));
            assert(next.last() == types@[i as int]@);
            assert(out@ =~= start + frame_types(next));
        }
        i = i + 1;
    }
    proof {
        assert(views.subrange(0, types@.len() as int) =~= views);
    }
}

} // verus!
