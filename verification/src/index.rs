use vstd::prelude::*;
use crate::compare::same_text;
use crate::error::ValueError;

verus! {

/// What an index or slice conversion reads from an optional index value.
#[derive(Clone, Copy, PartialEq, Eq, Structural, Debug)]
pub enum IndexArg {
    /// No value was given, or the value given is `None`: the default applies.
    Default,
    /// The value converts to this integer.
    Int(i64),
    /// The value has no conversion to an integer.
    NotInt,
}

/// What an optional index value gives to an index or slice conversion, from the value's type
/// `kind` and what its conversion to an integer gave: an absent value and the `None` value
/// leave the default, an integer counts as itself, anything else is not an index.
pub open spec fn index_arg_of(value: Option<(Seq<char>, Result<i64, ValueError>)>) -> IndexArg {
    match value {
        None => IndexArg::Default,
        Some((kind, int_value)) => if kind == "NoneType"@ {
            IndexArg::Default
        } else {
            match int_value {
                Ok(x) => IndexArg::Int(x),
                Err(_) => IndexArg::NotInt,
            }
        },
    }
}

/// Reads an optional index value, given as its type and the result of its conversion to an
/// integer, as `index_arg_of` describes.
pub fn index_arg(value: Option<(&str, Result<i64, ValueError>)>) -> (r: IndexArg)
    ensures
        r == index_arg_of(match value {
            None => None,
            Some((kind, int_value)) => Some((kind@, int_value)),
        }),
{
    match value {
        None => IndexArg::Default,
        Some((kind, int_value)) => {
            if same_text(kind, "NoneType") {
                IndexArg::Default
            } else {
                match int_value {
                    Ok(x) => IndexArg::Int(x),
                    Err(..) => IndexArg::NotInt,
                }
            }
        },
    }
}

/// An index counted from the end when negative: `x` itself when `x >= 0`, else `len + x`.
pub open spec fn recentered(x: i64, len: i64) -> int {
    if x < 0 {
        len + x
    } else {
        x as int
    }
}

/// Recentering `x` against `len` stays within the range of `i64`.
pub open spec fn recenter_fits(x: i64, len: i64) -> bool {
    x >= 0 || len + x >= i64::MIN
}

/// The index that a value whose integer conversion gave `int_value` designates in a
/// sequence of length `len`: a negative index counts from the end; an index outside
/// `0..len` is out of bound, and a value with no integer is a wrong parameter.
pub open spec fn index_result(int_value: Result<i64, ValueError>, len: i64) -> Result<i64, ValueError> {
    match int_value {
        Ok(x) => {
            let i = recentered(x, len);
            if i < 0 || i >= len {
                Err(ValueError::IndexOutOfBound(i as i64))
            } else {
                Ok(i as i64)
            }
        },
        Err(_) => Err(ValueError::IncorrectParameterType),
    }
}

/// Converts an index for the `at` and `set_at` operations of a sequence of length `len`.
/// `int_value` is what the integer conversion of the index value gave.
///
/// A negative index counts from the end (`-1` is the last element). The result is the
/// index in `0..len`, `IndexOutOfBound` with the recentered index when it is outside,
/// and `IncorrectParameterType` when the index value is not an integer.
pub fn convert_index(int_value: Result<i64, ValueError>, len: i64) -> (r: Result<i64, ValueError>)
    requires
        int_value matches Ok(x) ==> recenter_fits(x, len),
    ensures
        r == index_result(int_value, len),
{
    match int_value {
        Ok(x) => {
            let i = if x < 0 { len + x } else { x };
            if i < 0 || i >= len {
                Err(ValueError::IndexOutOfBound(i))
            } else {
                Ok(i)
            }
        },
        Err(..) => Err(ValueError::IncorrectParameterType),
    }
}

/// Whether converting the index whose integer conversion gave `int_value` against `len`
/// stays within the range of `i64`, as `convert_index` requires.
pub fn index_fits(int_value: &Result<i64, ValueError>, len: i64) -> (r: bool)
    ensures
        r == (*int_value matches Ok(x) ==> recenter_fits(x, len)),
{
    match int_value {
        Ok(x) => *x >= 0 || len >= i64::MIN - *x,
        Err(..) => true,
    }
}

/// A slice bound read as `arg`: `default` when absent, else the recentered index clamped
/// into `min..=max`; a value with no integer is a wrong parameter.
pub open spec fn clamped_index(len: i64, arg: IndexArg, default: i64, min: i64, max: i64) -> Result<i64, ValueError> {
    match arg {
        IndexArg::Default => Ok(default),
        IndexArg::NotInt => Err(ValueError::IncorrectParameterType),
        IndexArg::Int(x) => {
            let i = recentered(x, len);
            Ok(
                if i < min {
                    min
                } else if i > max {
                    max
                } else {
                    i as i64
                },
            )
        },
    }
}

/// Recentering a slice bound stays within the range of `i64`.
pub open spec fn arg_fits(arg: IndexArg, len: i64) -> bool {
    arg matches IndexArg::Int(x) ==> recenter_fits(x, len)
}

fn clamp_index(len: i64, arg: IndexArg, default: i64, min: i64, max: i64) -> (r: Result<i64, ValueError>)
    requires
        arg_fits(arg, len),
    ensures
        r == clamped_index(len, arg, default, min, max),
{
    match arg {
        IndexArg::Default => Ok(default),
        IndexArg::Int(x) => {
            let i = if x < 0 { len + x } else { x };
            if i < min {
                Ok(min)
            } else if i > max {
                Ok(max)
            } else {
                Ok(i)
            }
        },
        IndexArg::NotInt => Err(ValueError::IncorrectParameterType),
    }
}

/// The stride that a stride argument gives: 1 by default, its integer otherwise, and none
/// when it is not an integer.
pub open spec fn stride_of(stride: IndexArg) -> Option<i64> {
    match stride {
        IndexArg::Default => Some(1),
        IndexArg::Int(s) => Some(s),
        IndexArg::NotInt => None,
    }
}

/// The lowest bound a slice with stride `s` is clamped to: `-1` when going backwards
/// (so that the first element can be included), `0` otherwise.
pub open spec fn slice_floor(s: i64) -> int {
    if s < 0 {
        -1
    } else {
        0
    }
}

/// The slice `(start, stop, stride)` that the arguments designate in a sequence of length
/// `len`: a zero stride is out of bound and a non-integer stride a wrong parameter; absent
/// bounds default to the whole sequence in the direction of the stride, and given bounds are
/// recentered and clamped between `slice_floor(stride)` and `len + slice_floor(stride)`.
pub open spec fn slice_result(len: i64, start: IndexArg, stop: IndexArg, stride: IndexArg) -> Result<(i64, i64, i64), ValueError> {
    match stride_of(stride) {
        None => Err(ValueError::IncorrectParameterType),
        Some(s) => if s == 0 {
            Err(ValueError::IndexOutOfBound(0))
        } else {
            let lo = slice_floor(s);
            let hi = len + lo;
            let def_start = if s < 0 { len - 1 } else { 0 };
            let def_stop = if s < 0 { -1 } else { len as int };
            match clamped_index(len, start, def_start as i64, lo as i64, hi as i64) {
                Err(e) => Err(e),
                Ok(a) => match clamped_index(len, stop, def_stop as i64, lo as i64, hi as i64) {
                    Err(e) => Err(e),
                    Ok(b) => Ok((a, b, s)),
                },
            }
        },
    }
}

/// The arithmetic of a slice conversion stays within the range of `i64`.
pub open spec fn slice_fits(len: i64, start: IndexArg, stop: IndexArg, stride: IndexArg) -> bool {
    match stride_of(stride) {
        Some(s) => s != 0 ==> {
            &&& s < 0 ==> len > i64::MIN
            &&& arg_fits(start, len)
            &&& arg_fits(stop, len)
        },
        None => true,
    }
}

/// Whether converting the arguments of a slice of a sequence of length `len` stays within the
/// range of `i64`, as `convert_slice_indices` requires.
pub fn slice_indices_fit(len: i64, start: IndexArg, stop: IndexArg, stride: IndexArg) -> (r: bool)
    ensures
        r == slice_fits(len, start, stop, stride),
{
    let s = match stride {
        IndexArg::Default => 1i64,
        IndexArg::Int(s) => s,
        IndexArg::NotInt => return true,
    };
    if s == 0 {
        return true;
    }
    if s < 0 && len == i64::MIN {
        return false;
    }
    arg_fits_check(start, len) && arg_fits_check(stop, len)
}

fn arg_fits_check(arg: IndexArg, len: i64) -> (r: bool)
    ensures
        r == arg_fits(arg, len),
{
    match arg {
        IndexArg::Int(x) => x >= 0 || len >= i64::MIN - x,
        _ => true,
    }
}

/// Converts the arguments of a slice of a sequence of length `len` into
/// `(start, stop, stride)`, as `slice_result` describes.
pub fn convert_slice_indices(len: i64, start: IndexArg, stop: IndexArg, stride: IndexArg) -> (r: Result<(i64, i64, i64), ValueError>)
    requires
        slice_fits(len, start, stop, stride),
    ensures
        r == slice_result(len, start, stop, stride),
{
    let stride = match stride {
        IndexArg::Default => Ok(1i64),
        IndexArg::Int(s) => Ok(s),
        IndexArg::NotInt => Err(ValueError::IncorrectParameterType),
    };
    match stride {
        Ok(0) => Err(ValueError::IndexOutOfBound(0)),
        Ok(stride) => {
            let def_start = if stride < 0 { len - 1 } else { 0 };
            let def_end = if stride < 0 { -1 } else { len };
            let clamp = if stride < 0 { -1 } else { 0 };
            let start = clamp_index(len, start, def_start, clamp, len + clamp);
            let stop = clamp_index(len, stop, def_end, clamp, len + clamp);
            match (start, stop) {
                (Ok(s1), Ok(s2)) => Ok((s1, s2, stride)),
                (Err(x), ..) => Err(x),
                (Ok(..), Err(x)) => Err(x),
            }
        },
        Err(e) => Err(e),
    }
}

/// A converted index always lies in `0..len`; a non-negative index below `len` is kept and a
/// negative one down to `-len` counts from the end; any other integer is out of bound with
/// its recentered value.
pub proof fn lemma_index_in_range(int_value: Result<i64, ValueError>, len: i64)
    requires
        int_value matches Ok(x) ==> recenter_fits(x, len),
    ensures
        index_result(int_value, len) matches Ok(i) ==> 0 <= i < len,
        match int_value {
            Ok(x) => {
                &&& 0 <= x < len ==> index_result(int_value, len) == Ok::<i64, ValueError>(x)
                &&& -len <= x < 0 ==> index_result(int_value, len) == Ok::<i64, ValueError>((len + x) as i64)
                &&& !(-len <= x < len) ==> index_result(int_value, len)
                    == Err::<i64, ValueError>(ValueError::IndexOutOfBound(recentered(x, len) as i64))
            },
            Err(_) => true,
        },
        int_value is Err ==> index_result(int_value, len) == Err::<i64, ValueError>(ValueError::IncorrectParameterType),
{
}

/// The bounds of a converted slice of a sequence of length `len >= 0` lie between
/// `slice_floor(stride)` and `len + slice_floor(stride)`, and its stride is never zero.
pub proof fn lemma_slice_in_range(len: i64, start: IndexArg, stop: IndexArg, stride: IndexArg)
    requires
        len >= 0,
        slice_fits(len, start, stop, stride),
    ensures
        slice_result(len, start, stop, stride) matches Ok((a, b, s)) ==> {
            &&& s != 0
            &&& slice_floor(s) <= a <= len + slice_floor(s)
            &&& slice_floor(s) <= b <= len + slice_floor(s)
        },
{
}

/// A slice bound that lies inside the sequence is kept in place, counted from the end when
/// negative: with any non-zero stride, a bound `x` with `-len <= x < len` converts to `x`
/// when `x >= 0` and to `len + x` when `x < 0`, whichever bound it is and whatever the other
/// bound is (as long as it is an integer or absent).
pub proof fn lemma_slice_bounds_inside_are_kept(len: i64, x: i64, other: IndexArg, stride: IndexArg)
    requires
        len >= 0,
        -len <= x < len,
        other != IndexArg::NotInt,
        stride != IndexArg::NotInt,
        stride != IndexArg::Int(0),
        arg_fits(other, len),
    ensures
        slice_result(len, IndexArg::Int(x), other, stride) matches Ok((a, _, _))
            && a == (if x < 0 { len + x } else { x as int }),
        slice_result(len, other, IndexArg::Int(x), stride) matches Ok((_, b, _))
            && b == (if x < 0 { len + x } else { x as int }),
{
}

/// A slice bound beyond the sequence is clamped to its edge in the direction of the stride:
/// going forwards, to `0` below the start and to `len` past the end; going backwards, to `-1`
/// (before the first element) below the start and to `len - 1` (the last element) past the end.
pub proof fn lemma_slice_bounds_outside_are_clamped(len: i64, x: i64, other: IndexArg, s: i64)
    requires
        len >= 0,
        x < -len || x >= len,
        other != IndexArg::NotInt,
        s != 0,
        arg_fits(other, len),
        recenter_fits(x, len),
    ensures
        slice_result(len, IndexArg::Int(x), other, IndexArg::Int(s)) matches Ok((a, _, _)) && a == (
            if s > 0 { if x < 0 { 0 } else { len as int } } else { if x < 0 { -1 } else { len - 1 } }),
        slice_result(len, other, IndexArg::Int(x), IndexArg::Int(s)) matches Ok((_, b, _)) && b == (
            if s > 0 { if x < 0 { 0 } else { len as int } } else { if x < 0 { -1 } else { len - 1 } }),
{
}

/// A slice bound that is not an integer is a wrong parameter, whatever the other arguments,
/// as long as the stride is a valid one.
pub proof fn lemma_slice_bound_not_int(len: i64, other: IndexArg, stride: IndexArg)
    requires
        stride != IndexArg::NotInt,
        stride != IndexArg::Int(0),
        arg_fits(other, len),
    ensures
        slice_result(len, IndexArg::NotInt, other, stride)
            == Err::<(i64, i64, i64), ValueError>(ValueError::IncorrectParameterType),
        slice_result(len, other, IndexArg::NotInt, stride)
            == Err::<(i64, i64, i64), ValueError>(ValueError::IncorrectParameterType),
{
}

/// A successful slice conversion keeps the stride that was given, and uses 1 when none was.
pub proof fn lemma_slice_keeps_the_stride(len: i64, start: IndexArg, stop: IndexArg, stride: IndexArg)
    requires
        slice_fits(len, start, stop, stride),
    ensures
        stride matches IndexArg::Int(s) ==> (slice_result(len, start, stop, stride) matches Ok((_, _, t)) ==> t == s),
        stride == IndexArg::Default ==> (slice_result(len, start, stop, stride) matches Ok((_, _, t)) ==> t == 1),
        start != IndexArg::NotInt && stop != IndexArg::NotInt && stride != IndexArg::NotInt
            && stride != IndexArg::Int(0) ==> slice_result(len, start, stop, stride) is Ok,
{
}

/// Without arguments a slice covers the whole sequence forwards; with a negative stride and
/// no bounds it covers the whole sequence backwards, from the last element down to before the
/// first.
pub proof fn lemma_slice_defaults(len: i64, s: i64)
    requires
        len >= 0,
        s < 0,
    ensures
        slice_result(len, IndexArg::Default, IndexArg::Default, IndexArg::Default)
            == Ok::<(i64, i64, i64), ValueError>((0, len, 1)),
        slice_result(len, IndexArg::Default, IndexArg::Default, IndexArg::Int(s))
            == Ok::<(i64, i64, i64), ValueError>(((len - 1) as i64, -1i64, s)),
{
}

/// A zero stride is refused as out of bound, and a stride that is not an integer as a wrong
/// parameter, whatever the bounds.
pub proof fn lemma_slice_stride_errors(len: i64, start: IndexArg, stop: IndexArg)
    ensures
        slice_result(len, start, stop, IndexArg::Int(0))
            == Err::<(i64, i64, i64), ValueError>(ValueError::IndexOutOfBound(0)),
        slice_result(len, start, stop, IndexArg::NotInt)
            == Err::<(i64, i64, i64), ValueError>(ValueError::IncorrectParameterType),
{
}

} // verus!
