//! A static type-flow analysis for a dynamically typed, prototype-based scripting
//! language.
//!
//! The analysis takes a parsed program and finds likely type errors in it: accesses
//! to properties that no object has, assignments and comparisons of unlike types,
//! computed member keys that are no strings, and comparisons whose outcome is known.
//! It runs in three passes over the program. The declaration walk builds the scope
//! of the module ([`analysis`]), the tracing pass records where the types of
//! variables and the shapes of objects change ([`tracing`]), and the validation
//! pass checks every expression against what is known at its place
//! ([`validation`]).
//!
//! Everything that the passes share lives in a [`store::Store`] and is named by
//! handle. Each type of the library has a mathematical value, its view, and every
//! function states over these values what it returns and what it changes.

pub mod location;
pub mod text;
pub mod search;
pub mod name_map;
pub mod traits;
pub mod types;
pub mod change_trace;
pub mod custom_type;
pub mod object_type;
pub mod variable;
pub mod function_type;
pub mod owner;
pub mod error;
pub mod scope;
pub mod store;
pub mod lattice;
pub mod scoped;
pub mod ast;
pub mod expressions;
pub mod typing_laws;
pub mod nodes;
pub mod traveler;
pub mod travel_order;
pub mod tracing;
pub mod analysis;
pub mod expression_meta_data;
pub mod error_vec;
pub mod context;
pub mod meta_data_collection;
pub mod validation;
pub mod emission;
pub mod published;
pub mod validation_laws;
pub mod history;
