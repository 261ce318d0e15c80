//! Declared types and their classification.
//!
//! A field is *declared optional* when its type is written as the bare name
//! `Option`, with or without generic arguments. The test is on the syntax
//! alone: a qualified path such as `std::option::Option<T>` or `::Option<T>`,
//! or an alias of the wrapper, is a required field.

use vstd::prelude::*;
use vstd::string::*;

verus! {

/// What classification reads from the syntax of a declared type.
#[derive(Debug, PartialEq, Eq)]
pub enum TypeShape {
    /// A path such as `u8`, `Option<T>` or `<T as Tr>::Out`.
    Path {
        /// The path starts with `::`.
        leading_colon: bool,
        /// The path is qualified by a self type, as in `<T as Tr>::Out`.
        self_qualified: bool,
        /// The names of the path's segments, in order, without their
        /// generic arguments.
        segments: Vec<String>,
    },
    /// Any other syntax: a reference, a tuple, an array, and so on.
    Other,
}

/// Mathematical model of a [`TypeShape`].
pub enum ShapeModel {
    Path { leading_colon: bool, self_qualified: bool, segments: Seq<Seq<char>> },
    Other,
}

impl View for TypeShape {
    type V = ShapeModel;

    open spec fn view(&self) -> ShapeModel {
        match *self {
            TypeShape::Path { leading_colon, self_qualified, segments } => ShapeModel::Path {
                leading_colon,
                self_qualified,
                segments: segments@.map_values(|s: String| s@),
            },
            TypeShape::Other => ShapeModel::Other,
        }
    }
}

/// The name of the optional wrapper.
pub open spec fn optional_wrapper_name() -> Seq<char> {
    "Option"@
}

impl ShapeModel {
    /// A shape is optional exactly when it is a path without leading `::`
    /// and without self qualifier whose only segment is the wrapper's name.
    pub open spec fn is_optional(self) -> bool {
        match self {
            ShapeModel::Path { leading_colon, self_qualified, segments } => {
                &&& !leading_colon
                &&& !self_qualified
                &&& segments.len() == 1
                &&& segments[0] == optional_wrapper_name()
            },
            ShapeModel::Other => false,
        }
    }
}

/// A declared type: its text as written, and its shape.
#[derive(Debug, PartialEq, Eq)]
pub struct TypeExpr {
    /// The type as source text.
    pub text: String,
    /// The shape of that text.
    pub shape: TypeShape,
}

/// Mathematical model of a [`TypeExpr`].
pub struct TypeModel {
    pub text: Seq<char>,
    pub shape: ShapeModel,
}

impl View for TypeExpr {
    type V = TypeModel;

    open spec fn view(&self) -> TypeModel {
        TypeModel { text: self.text@, shape: self.shape@ }
    }
}

impl TypeModel {
    /// Whether a field of this type is declared optional.
    pub open spec fn is_optional(self) -> bool {
        self.shape.is_optional()
    }
}

/// Classifies a declared type: `true` for a declared-optional field, `false`
/// for a required one.
pub fn is_optional(ty: &TypeExpr) -> (r: bool)
    ensures
        r == ty@.is_optional(),
{
    match &ty.shape {
        TypeShape::Path { leading_colon, self_qualified, segments } => {
            if *leading_colon || *self_qualified || segments.len() != 1 {
                false
            } else {
                let wrapper = String::from_str("Option");
                segments[0] == wrapper
            }
        },
        TypeShape::Other => false,
    }
}

} // verus!
