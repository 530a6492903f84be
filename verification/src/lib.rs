//! Verified PostgreSQL 18 relation-partition collation and expression evidence.

pub mod error;
pub mod text;
pub mod digest;
pub mod order;
pub mod catalog;
pub mod collation_identity;
pub mod signatures;
pub mod expression_semantics;
pub mod expression_semantics_snapshot;
pub mod procedure_material;
pub mod catalog_shape;
pub mod expression_schema;
pub mod expression_var;
pub mod expression_relation_var_schema;
pub mod expression_collation_identity;
pub mod collation_database_encoding;
pub mod collation_definition;
pub mod database_default_collation;
pub mod exclusion;
pub mod exclusion_constraint;
pub mod procedure_binding;
pub mod procedure_parallel_safety;
pub mod procedure_kind;
pub mod procedure_security_definer;
pub mod constraint_property;
pub mod constraint_no_inherit;
pub mod constraint_namespace;
pub mod constraint_catalog_shape;
pub mod constraint_parentage;
pub mod constraint_inheritance;
pub mod constraint_access_method;
pub mod procedure_configuration;
pub mod procedure_access_control;
pub mod procedure_definition;
pub mod procedure_planner_support;
pub mod relation_var_snapshot;
pub mod constraint_index_name;
pub mod constraint_index_namespace;
pub mod constraint_index_lifecycle;
pub mod constraint_timing;
pub mod constraint_enforcement;
pub mod constraint_immediacy;
pub mod constraint_index_role;
pub mod constraint_key;
pub mod constraint_operator;
pub mod constraint_commutator;
pub mod constraint_operator_kind;
pub mod constraint_procedure_scalar;
pub mod procedure_transform_types;
pub mod procedure_transform_converter;
