use vstd::prelude::*;
use crate::error::{opt_text, ValueError};

verus! {

/// The operations that a value type may leave undefined; a value of such a type answers
/// each of them with an `OperationNotSupported` error that names the operation.
#[derive(Clone, Copy, PartialEq, Eq, Structural, Debug)]
pub enum Operation {
    /// Conversion to an integer, `int()`.
    ToInt,
    /// A hash, `hash()`.
    Hash,
    /// A call, `call()`.
    Call,
    /// An indexing, `[]`.
    At,
    /// An assignment to an index, `[] =`.
    SetAt,
    /// A slicing, `[::]`.
    Slice,
    /// The length, `len()`.
    Length,
    /// The test for an attribute, `has_attr()`.
    HasAttr,
    /// The list of attributes, `dir()`.
    DirAttr,
    /// The membership test, `in`.
    In,
    /// The unary `+`.
    Plus,
    /// The unary `-`.
    Minus,
    /// The binary `+`.
    Add,
    /// The binary `-`.
    Sub,
    /// The binary `*`.
    Mul,
    /// The binary `%`.
    Percent,
    /// The binary `/`.
    Div,
    /// The binary `//`.
    FloorDiv,
    /// The binary `|`.
    Pipe,
}

/// How an operation is named in error messages.
pub open spec fn operation_text(op: Operation) -> Seq<char> {
    match op {
        Operation::ToInt => "int()"@,
        Operation::Hash => "hash()"@,
        Operation::Call => "call()"@,
        Operation::At => "[]"@,
        Operation::SetAt => "[] ="@,
        Operation::Slice => "[::]"@,
        Operation::Length => "len()"@,
        Operation::HasAttr => "has_attr()"@,
        Operation::DirAttr => "dir()"@,
        Operation::In => "in"@,
        Operation::Plus => "+"@,
        Operation::Minus => "-"@,
        Operation::Add => "+"@,
        Operation::Sub => "-"@,
        Operation::Mul => "*"@,
        Operation::Percent => "%"@,
        Operation::Div => "/"@,
        Operation::FloorDiv => "//"@,
        Operation::Pipe => "|"@,
    }
}

/// Whether an operation has a right operand, whose type its error names.
pub open spec fn has_right_operand(op: Operation) -> bool {
    match op {
        Operation::At | Operation::SetAt | Operation::In | Operation::Add | Operation::Sub
        | Operation::Mul | Operation::Percent | Operation::Div | Operation::FloorDiv
        | Operation::Pipe => true,
        _ => false,
    }
}

impl Operation {
    /// Whether the operation has a right operand, whose type its error names.
    pub fn has_right_operand(&self) -> (r: bool)
        ensures
            r == has_right_operand(*self),
    {
        match self {
            Operation::At | Operation::SetAt | Operation::In | Operation::Add | Operation::Sub
            | Operation::Mul | Operation::Percent | Operation::Div | Operation::FloorDiv
            | Operation::Pipe => true,
            _ => false,
        }
    }

    /// The name of the operation in error messages.
    pub fn text(&self) -> (r: &'static str)
        ensures
            r@ == operation_text(*self),
    {
        match self {
            Operation::ToInt => "int()",
            Operation::Hash => "hash()",
            Operation::Call => "call()",
            Operation::At => "[]",
            Operation::SetAt => "[] =",
            Operation::Slice => "[::]",
            Operation::Length => "len()",
            Operation::HasAttr => "has_attr()",
            Operation::DirAttr => "dir()",
            Operation::In => "in",
            Operation::Plus => "+",
            Operation::Minus => "-",
            Operation::Add => "+",
            Operation::Sub => "-",
            Operation::Mul => "*",
            Operation::Percent => "%",
            Operation::Div => "/",
            Operation::FloorDiv => "//",
            Operation::Pipe => "|",
        }
    }
}

/// The text of an optional string slice.
pub open spec fn opt_str_text(s: Option<&str>) -> Option<Seq<char>> {
    match s {
        Some(t) => Some(t@),
        None => None,
    }
}

fn opt_string(s: Option<&str>) -> (r: Option<String>)
    ensures
        opt_text(r) == opt_str_text(s),
{
    match s {
        Some(t) => Some(String::from_str(t)),
        None => None,
    }
}

/// The error of an operation `op` that the type `left` does not support. The error names the
/// type `right` of the right operand when the operation has one, and no right type otherwise.
pub fn unsupported(op: Operation, left: &str, right: Option<&str>) -> (e: ValueError)
    ensures
        e.is_unsupported(
            operation_text(op),
            left@,
            if has_right_operand(op) { opt_str_text(right) } else { None },
        ),
{
    let right = if op.has_right_operand() { opt_string(right) } else { None };
    ValueError::OperationNotSupported {
        op: String::from_str(op.text()),
        left: String::from_str(left),
        right,
    }
}

/// The error of testing whether a value of type `element` is in a value of type `container`
/// that is not a container: the operation `in` names the tested value on the left and the
/// container on the right.
pub fn unsupported_in(container: &str, element: &str) -> (e: ValueError)
    ensures
        e.is_unsupported(operation_text(Operation::In), element@, Some(container@)),
{
    unsupported(Operation::In, element, Some(container))
}

/// The error of reading the attribute `attribute` (the operation `.attribute`) of a value
/// of type `left` that has no attributes.
pub fn unsupported_get_attr(attribute: &str, left: &str) -> (e: ValueError)
    ensures
        e.is_unsupported("."@ + attribute@, left@, None),
{
    let mut op = String::from_str(".");
    op.append(attribute);
    ValueError::OperationNotSupported { op, left: String::from_str(left), right: None }
}

/// The error of assigning the attribute `attribute` (the operation `.attribute =`) of a
/// value of type `left` that has no attributes.
pub fn unsupported_set_attr(attribute: &str, left: &str) -> (e: ValueError)
    ensures
        e.is_unsupported("."@ + attribute@ + " ="@, left@, None),
{
    let mut op = String::from_str(".");
    op.append(attribute);
    op.append(" =");
    ValueError::OperationNotSupported { op, left: String::from_str(left), right: None }
}

/// The error of iterating over a value of type `object_type` that is not iterable.
pub fn not_iterable(object_type: &str) -> (e: ValueError)
    ensures
        e.is_type_not(object_type@, "iterable"@),
{
    ValueError::TypeNotX { object_type: String::from_str(object_type), op: String::from_str("iterable") }
}

/// The representation of a value of type `kind` whose type defines none: `<kind>`.
pub fn default_repr(kind: &str) -> (r: String)
    ensures
        r@ == "<"@ + kind@ + ">"@,
{
    let mut r = String::from_str("<");
    r.append(kind);
    r.append(">");
    r
}

/// How a value of type `kind` whose representation is `repr` shows in debugging output:
/// `Value[kind](repr)`.
pub fn debug_text(kind: &str, repr: &str) -> (r: String)
    ensures
        r@ == "Value["@ + kind@ + "]("@ + repr@ + ")"@,
{
    let mut r = String::from_str("Value[");
    r.append(kind);
    r.append("](");
    r.append(repr);
    r.append(")");
    r
}

} // verus!
