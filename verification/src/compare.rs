use vstd::prelude::*;
use std::cmp::Ordering;
use crate::error::ValueError;
use crate::text::{common_prefix_len, position};

verus! {

/// Lexicographic order of two character sequences, by code point.
pub open spec fn lex_order(a: Seq<char>, b: Seq<char>) -> Ordering
    decreases a.len(),
{
    if a.len() == 0 {
        if b.len() == 0 { Ordering::Equal } else { Ordering::Less }
    } else if b.len() == 0 {
        Ordering::Greater
    } else if a[0] < b[0] {
        Ordering::Less
    } else if b[0] < a[0] {
        Ordering::Greater
    } else {
        lex_order(a.drop_first(), b.drop_first())
    }
}

/// The reverse of an ordering.
pub open spec fn flipped(o: Ordering) -> Ordering {
    match o {
        Ordering::Less => Ordering::Greater,
        Ordering::Equal => Ordering::Equal,
        Ordering::Greater => Ordering::Less,
    }
}

/// Two character sequences are in the `Equal` order exactly when they are the same.
pub proof fn lemma_lex_order_equal(a: Seq<char>, b: Seq<char>)
    ensures
        (lex_order(a, b) == Ordering::Equal) <==> (a == b),
    decreases a.len(),
{
    if a.len() == 0 || b.len() == 0 {
        assert(a.len() == b.len() ==> a =~= b);
    } else {
        lemma_lex_order_equal(a.drop_first(), b.drop_first());
        if a == b {
            assert(a.drop_first() =~= b.drop_first());
        } else if a[0] == b[0] {
            // the first characters agree, so the sequences differ in their rest
            assert(a.drop_first() != b.drop_first()) by {
                if a.drop_first() == b.drop_first() {
                    assert(a =~= seq![a[0]] + a.drop_first());
                    assert(b =~= seq![b[0]] + b.drop_first());
                }
            }
        }
    }
}

/// Swapping the operands of the lexicographic order reverses it.
pub proof fn lemma_lex_order_antisymmetric(a: Seq<char>, b: Seq<char>)
    ensures
        lex_order(b, a) == flipped(lex_order(a, b)),
    decreases a.len(),
{
    if a.len() != 0 && b.len() != 0 {
        lemma_lex_order_antisymmetric(a.drop_first(), b.drop_first());
    }
}

/// The lexicographic order is transitive.
pub proof fn lemma_lex_order_transitive(a: Seq<char>, b: Seq<char>, c: Seq<char>)
    requires
        lex_order(a, b) == Ordering::Less,
        lex_order(b, c) == Ordering::Less,
    ensures
        lex_order(a, c) == Ordering::Less,
    decreases a.len(),
{
    if a.len() != 0 && b.len() != 0 && c.len() != 0 {
        if a[0] == b[0] && b[0] == c[0] {
            lemma_lex_order_transitive(a.drop_first(), b.drop_first(), c.drop_first());
        }
    }
}

/// Two sequences that agree on their first `k` characters are in the same lexicographic
/// order as what follows those characters.
proof fn lemma_lex_order_after_prefix(a: Seq<char>, b: Seq<char>, k: int)
    requires
        0 <= k <= a.len(),
        k <= b.len(),
        forall|j: int| 0 <= j < k ==> a[j] == b[j],
    ensures
        lex_order(a, b) == lex_order(a.skip(k), b.skip(k)),
    decreases k,
{
    if k == 0 {
        assert(a.skip(0) =~= a);
        assert(b.skip(0) =~= b);
    } else {
        assert(a[0] == b[0]);
        lemma_lex_order_after_prefix(a.drop_first(), b.drop_first(), k - 1);
        assert(a.drop_first().skip(k - 1) =~= a.skip(k));
        assert(b.drop_first().skip(k - 1) =~= b.skip(k));
    }
}

/// Lexicographic order by code point: at the first position `k` where two sequences differ,
/// the one with the smaller character there comes first; and a proper prefix comes before
/// the sequence it begins.
pub proof fn lemma_lex_order_first_difference(a: Seq<char>, b: Seq<char>, k: int)
    requires
        0 <= k <= a.len(),
        k <= b.len(),
        forall|j: int| 0 <= j < k ==> a[j] == b[j],
    ensures
        k < a.len() && k < b.len() && a[k] < b[k] ==> lex_order(a, b) == Ordering::Less,
        k < a.len() && k < b.len() && b[k] < a[k] ==> lex_order(a, b) == Ordering::Greater,
        k == a.len() && k < b.len() ==> lex_order(a, b) == Ordering::Less,
        k < a.len() && k == b.len() ==> lex_order(a, b) == Ordering::Greater,
{
    lemma_lex_order_after_prefix(a, b, k);
    if k < a.len() {
        assert(a.skip(k)[0] == a[k]);
    }
    if k < b.len() {
        assert(b.skip(k)[0] == b[k]);
    }
}

/// Orders two strings lexicographically, character by character.
fn str_order(a: &str, b: &str) -> (r: Ordering)
    ensures
        r == lex_order(a@, b@),
{
    let i = common_prefix_len(a, b);
    let la = a.unicode_len();
    let lb = b.unicode_len();
    proof {
        lemma_lex_order_after_prefix(a@, b@, position(i));
    }
    if i < la && i < lb {
        let ca = a.get_char(i);
        let cb = b.get_char(i);
        assert(a@.skip(position(i))[0] == ca && b@.skip(position(i))[0] == cb);
        if ca < cb {
            Ordering::Less
        } else {
            Ordering::Greater
        }
    } else {
        assert(a@.skip(position(i)).len() == la - i && b@.skip(position(i)).len() == lb - i);
        if i == la {
            if i == lb {
                Ordering::Equal
            } else {
                Ordering::Less
            }
        } else {
            Ordering::Greater
        }
    }
}

/// Whether two strings are the same.
pub(crate) fn same_text(a: &str, b: &str) -> (r: bool)
    ensures
        r == (a@ == b@),
{
    let o = str_order(a, b);
    proof {
        lemma_lex_order_equal(a@, b@);
    }
    matches!(o, Ordering::Equal)
}

/// The type names whose values compare by their integer value.
pub open spec fn is_numeric(kind: Seq<char>) -> bool {
    kind == "bool"@ || kind == "int"@
}

/// The order of two integers.
pub open spec fn int_order(a: i64, b: i64) -> Ordering {
    if a < b {
        Ordering::Less
    } else if a == b {
        Ordering::Equal
    } else {
        Ordering::Greater
    }
}

/// The order of two values that the names of their types decide: none when both are numeric
/// (`bool` or `int`; their integer values decide), a numeric value before any other, and
/// values of other types by the names of their types.
pub open spec fn type_order(left_type: Seq<char>, right_type: Seq<char>) -> Option<Ordering> {
    if is_numeric(left_type) && is_numeric(right_type) {
        None
    } else if is_numeric(left_type) {
        Some(Ordering::Less)
    } else if is_numeric(right_type) {
        Some(Ordering::Greater)
    } else {
        Some(lex_order(left_type, right_type))
    }
}

/// The order of two numeric values whose conversions to integers gave `left_int` and
/// `right_int`: the order of the integers, or the first failed conversion.
pub open spec fn int_comparison(left_int: Result<i64, ValueError>, right_int: Result<i64, ValueError>) -> Result<Ordering, ValueError> {
    match left_int {
        Err(e) => Err(e),
        Ok(a) => match right_int {
            Err(e) => Err(e),
            Ok(b) => Ok(int_order(a, b)),
        },
    }
}

/// The default comparison of a value of type `left_type` whose integer value is `left_int`
/// with one of type `right_type` whose integer value is `right_int`: by the type names where
/// they decide, else by the integer values.
pub open spec fn default_order(
    left_type: Seq<char>,
    left_int: Result<i64, ValueError>,
    right_type: Seq<char>,
    right_int: Result<i64, ValueError>,
) -> Result<Ordering, ValueError> {
    match type_order(left_type, right_type) {
        Some(o) => Ok(o),
        None => int_comparison(left_int, right_int),
    }
}

/// Whether values of type `kind` compare by their integer value.
fn is_numeric_type(kind: &str) -> (r: bool)
    ensures
        r == is_numeric(kind@),
{
    same_text(kind, "bool") || same_text(kind, "int")
}

/// Orders two integers.
fn order_ints(a: i64, b: i64) -> (r: Ordering)
    ensures
        r == int_order(a, b),
{
    if a < b {
        Ordering::Less
    } else if a == b {
        Ordering::Equal
    } else {
        Ordering::Greater
    }
}

/// The part of the default comparison that the type names `left_type` and `right_type`
/// decide; `None` when both values are numeric and their integer values must be compared
/// with `compare_ints`.
pub fn compare_types(left_type: &str, right_type: &str) -> (r: Option<Ordering>)
    ensures
        r == type_order(left_type@, right_type@),
{
    let left_numeric = is_numeric_type(left_type);
    let right_numeric = is_numeric_type(right_type);
    if left_numeric && right_numeric {
        None
    } else if left_numeric {
        Some(Ordering::Less)
    } else if right_numeric {
        Some(Ordering::Greater)
    } else {
        Some(str_order(left_type, right_type))
    }
}

/// The default comparison of two numeric values from their conversions to integers.
pub fn compare_ints(left_int: Result<i64, ValueError>, right_int: Result<i64, ValueError>) -> (r: Result<Ordering, ValueError>)
    ensures
        r == int_comparison(left_int, right_int),
{
    match left_int {
        Err(e) => Err(e),
        Ok(a) => match right_int {
            Err(e) => Err(e),
            Ok(b) => Ok(order_ints(a, b)),
        },
    }
}

/// The default comparison, usable by value types when the two values have different types
/// or are numeric: `left_type` and `right_type` are the types of the two values, and
/// `left_int` and `right_int` what their conversion to an integer gives.
pub fn default_compare(
    left_type: &str,
    left_int: Result<i64, ValueError>,
    right_type: &str,
    right_int: Result<i64, ValueError>,
) -> (r: Result<Ordering, ValueError>)
    ensures
        r == default_order(left_type@, left_int, right_type@, right_int),
{
    match compare_types(left_type, right_type) {
        Some(o) => Ok(o),
        None => compare_ints(left_int, right_int),
    }
}

/// What a comparison at nesting depth `recursion`, with `max_recursion` the deepest depth
/// allowed, answers before asking the value's type: a refusal past the limit, `Equal` when the
/// value is compared with itself, and nothing otherwise.
pub open spec fn shortcut(recursion: u32, max_recursion: u32, same_object: bool) -> Option<Result<Ordering, ValueError>> {
    if recursion > max_recursion {
        Some(Err(ValueError::TooManyRecursionLevel))
    } else if same_object {
        Some(Ok(Ordering::Equal))
    } else {
        None
    }
}

/// The part of comparing a value with another that does not depend on the value's type:
/// `recursion` is the nesting depth of the comparison, `max_recursion` the deepest depth
/// allowed, and `same_object` tells whether the other value is the value itself. `None`
/// means that the value's type decides.
pub fn comparison_shortcut(recursion: u32, max_recursion: u32, same_object: bool) -> (r: Option<Result<Ordering, ValueError>>)
    ensures
        r == shortcut(recursion, max_recursion, same_object),
{
    if recursion > max_recursion {
        Some(Err(ValueError::TooManyRecursionLevel))
    } else if same_object {
        Some(Ok(Ordering::Equal))
    } else {
        None
    }
}

/// The result of comparing a value with another: the shortcut when there is one, else
/// `by_type`, the answer of the value's type.
pub open spec fn comparison(
    recursion: u32,
    max_recursion: u32,
    same_object: bool,
    by_type: Result<Ordering, ValueError>,
) -> Result<Ordering, ValueError> {
    match shortcut(recursion, max_recursion, same_object) {
        Some(r) => r,
        None => by_type,
    }
}

/// Two values are equal when their comparison succeeds with `Equal`.
pub fn equal_by(comparison: &Result<Ordering, ValueError>) -> (r: bool)
    ensures
        r == (comparison matches Ok(Ordering::Equal)),
{
    match comparison {
        Ok(Ordering::Equal) => true,
        _ => false,
    }
}

/// The partial order of two values: the result of their comparison when it succeeds,
/// and no order when it fails.
pub fn partial_order(comparison: Result<Ordering, ValueError>) -> (r: Option<Ordering>)
    ensures
        r == (match comparison {
            Ok(o) => Some(o),
            Err(_) => None,
        }),
{
    match comparison {
        Ok(o) => Some(o),
        Err(_) => None,
    }
}

/// The default comparison is antisymmetric: swapping the two values succeeds exactly when
/// the comparison does, and then gives the reverse order (`a < b` exactly when `b > a`).
pub proof fn lemma_default_order_antisymmetric(
    left_type: Seq<char>,
    left_int: Result<i64, ValueError>,
    right_type: Seq<char>,
    right_int: Result<i64, ValueError>,
)
    ensures
        (default_order(left_type, left_int, right_type, right_int) is Ok)
            <==> (default_order(right_type, right_int, left_type, left_int) is Ok),
        default_order(left_type, left_int, right_type, right_int) matches Ok(o)
            ==> default_order(right_type, right_int, left_type, left_int) == Ok::<Ordering, ValueError>(flipped(o)),
{
    lemma_lex_order_antisymmetric(left_type, right_type);
}

/// The default comparison is transitive: when `a < b` and `b < c`, then `a < c`.
pub proof fn lemma_default_order_transitive(
    a_type: Seq<char>,
    a_int: Result<i64, ValueError>,
    b_type: Seq<char>,
    b_int: Result<i64, ValueError>,
    c_type: Seq<char>,
    c_int: Result<i64, ValueError>,
)
    requires
        default_order(a_type, a_int, b_type, b_int) == Ok::<Ordering, ValueError>(Ordering::Less),
        default_order(b_type, b_int, c_type, c_int) == Ok::<Ordering, ValueError>(Ordering::Less),
    ensures
        default_order(a_type, a_int, c_type, c_int) == Ok::<Ordering, ValueError>(Ordering::Less),
{
    if !is_numeric(a_type) && !is_numeric(b_type) && !is_numeric(c_type) {
        lemma_lex_order_transitive(a_type, b_type, c_type);
    }
}

/// Numeric values are ordered as their integers: smaller first, equal integers equal.
pub proof fn lemma_numeric_values_ordered_by_integer(left_type: Seq<char>, a: i64, right_type: Seq<char>, b: i64)
    requires
        is_numeric(left_type),
        is_numeric(right_type),
    ensures
        (default_order(left_type, Ok(a), right_type, Ok(b)) == Ok::<Ordering, ValueError>(Ordering::Less)) <==> a < b,
        (default_order(left_type, Ok(a), right_type, Ok(b)) == Ok::<Ordering, ValueError>(Ordering::Equal)) <==> a == b,
        (default_order(left_type, Ok(a), right_type, Ok(b)) == Ok::<Ordering, ValueError>(Ordering::Greater)) <==> a > b,
{
}

/// Values of two non-numeric types are ordered by the names of their types, by code point:
/// at the first position `k` where the names differ, the name with the smaller character
/// comes first, and a name that begins the other comes first.
pub proof fn lemma_type_names_ordered_by_code_point(
    left_type: Seq<char>,
    left_int: Result<i64, ValueError>,
    right_type: Seq<char>,
    right_int: Result<i64, ValueError>,
    k: int,
)
    requires
        !is_numeric(left_type),
        !is_numeric(right_type),
        0 <= k <= left_type.len(),
        k <= right_type.len(),
        forall|j: int| 0 <= j < k ==> left_type[j] == right_type[j],
    ensures
        k < left_type.len() && k < right_type.len() && left_type[k] < right_type[k]
            ==> default_order(left_type, left_int, right_type, right_int) == Ok::<Ordering, ValueError>(Ordering::Less),
        k < left_type.len() && k < right_type.len() && right_type[k] < left_type[k]
            ==> default_order(left_type, left_int, right_type, right_int) == Ok::<Ordering, ValueError>(Ordering::Greater),
        k == left_type.len() && k < right_type.len()
            ==> default_order(left_type, left_int, right_type, right_int) == Ok::<Ordering, ValueError>(Ordering::Less),
{
    lemma_lex_order_first_difference(left_type, right_type, k);
}

/// Two values of the same non-numeric type are equal under the default comparison, and
/// values of different non-numeric types are not.
pub proof fn lemma_same_type_names_equal(
    left_type: Seq<char>,
    left_int: Result<i64, ValueError>,
    right_type: Seq<char>,
    right_int: Result<i64, ValueError>,
)
    requires
        !is_numeric(left_type),
        !is_numeric(right_type),
    ensures
        (default_order(left_type, left_int, right_type, right_int) == Ok::<Ordering, ValueError>(Ordering::Equal))
            <==> left_type == right_type,
{
    lemma_lex_order_equal(left_type, right_type);
}

/// Under the default comparison a numeric value is smaller than any value of another type.
pub proof fn lemma_numeric_values_come_first(
    left_type: Seq<char>,
    left_int: Result<i64, ValueError>,
    right_type: Seq<char>,
    right_int: Result<i64, ValueError>,
)
    requires
        is_numeric(left_type),
        !is_numeric(right_type),
    ensures
        default_order(left_type, left_int, right_type, right_int) == Ok::<Ordering, ValueError>(Ordering::Less),
        default_order(right_type, right_int, left_type, left_int) == Ok::<Ordering, ValueError>(Ordering::Greater),
{
}

/// Under the default comparison two values are equal only when both are numeric with the
/// same integer value, or when they have the same non-numeric type.
pub proof fn lemma_default_equal_only_when_same(
    left_type: Seq<char>,
    left_int: Result<i64, ValueError>,
    right_type: Seq<char>,
    right_int: Result<i64, ValueError>,
)
    requires
        default_order(left_type, left_int, right_type, right_int) == Ok::<Ordering, ValueError>(Ordering::Equal),
    ensures
        (is_numeric(left_type) && is_numeric(right_type) && left_int is Ok && left_int == right_int)
            || (!is_numeric(left_type) && left_type == right_type),
{
    lemma_lex_order_equal(left_type, right_type);
}

/// Within the recursion limit a value compared with itself is equal to itself and two
/// distinct values are compared by the value's type; past the limit every comparison is
/// refused.
pub proof fn lemma_comparison_shortcut(
    recursion: u32,
    max_recursion: u32,
    same_object: bool,
    by_type: Result<Ordering, ValueError>,
)
    ensures
        recursion <= max_recursion && same_object
            ==> comparison(recursion, max_recursion, same_object, by_type) == Ok::<Ordering, ValueError>(Ordering::Equal),
        recursion <= max_recursion && !same_object
            ==> comparison(recursion, max_recursion, same_object, by_type) == by_type,
        recursion > max_recursion
            ==> comparison(recursion, max_recursion, same_object, by_type) == Err::<Ordering, ValueError>(ValueError::TooManyRecursionLevel),
{
}

/// Comparing values is antisymmetric (`a < b` exactly when `b > a`) whenever the value types
/// compare antisymmetrically, as their comparison is required to: `ab` and `ba` are what the
/// types answer for `a` against `b` and for `b` against `a`.
pub proof fn lemma_comparison_antisymmetric(
    recursion: u32,
    max_recursion: u32,
    same_object: bool,
    ab: Result<Ordering, ValueError>,
    ba: Result<Ordering, ValueError>,
)
    requires
        ab matches Ok(o) ==> ba == Ok::<Ordering, ValueError>(flipped(o)),
    ensures
        comparison(recursion, max_recursion, same_object, ab) matches Ok(o)
            ==> comparison(recursion, max_recursion, same_object, ba) == Ok::<Ordering, ValueError>(flipped(o)),
{
}

/// Two values are equal exactly when their partial order is `Equal`.
pub proof fn lemma_equal_iff_partial_equal(comparison: Result<Ordering, ValueError>)
    ensures
        (comparison matches Ok(Ordering::Equal)) <==> (match comparison {
            Ok(o) => Some(o),
            Err(_) => None,
        }) == Some(Ordering::Equal),
{
}

} // verus!
