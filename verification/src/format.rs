//! The format bridge: optionally rewriting a single-value input through an
//! externally registered "serialize as this format" transformation before
//! coercion.
//!
//! The bridge applies only on the materialize-then-put path, and only when
//! raw mode is not requested and the input is not already a string value.
//! The target format is the destination path's file extension; without an
//! extension there is no transformation. The registry of transformations is
//! host-defined and open-ended, so the library only decides *whether* and
//! *what* to look up, and handles whatever the lookup and invocation
//! reported.

use vstd::prelude::*;

use crate::error::{SaveError, Span};
use crate::value::{value_bytes, value_bytes_ok, value_to_bytes, Value};

verus! {

/// One past the index of the last `/` in the string, or `0` if there is
/// none: where the final path component starts.
pub open spec fn last_slash_end(s: Seq<char>) -> int
    decreases s.len(),
{
    if s.len() == 0 {
        0
    } else if s[s.len() - 1] == '/' {
        s.len() as int
    } else {
        last_slash_end(s.drop_last())
    }
}

/// The index of the last `.` strictly after position `start`, or `-1` if
/// there is none. A dot at `start` itself does not count: a file name that
/// begins with a dot and has no other dot has no extension.
pub open spec fn last_dot(s: Seq<char>, start: int) -> int
    decreases s.len(),
{
    if s.len() == 0 || s.len() <= start + 1 {
        -1
    } else if s[s.len() - 1] == '.' {
        s.len() - 1
    } else {
        last_dot(s.drop_last(), start)
    }
}

/// Whether the string ends in a lone `.` path segment: `.` itself, or a
/// final `/.`. Path parsing drops such segments.
pub open spec fn ends_with_dot_segment(s: Seq<char>) -> bool {
    s.len() >= 1 && s[s.len() - 1] == '.' && (s.len() == 1 || s[s.len() - 2] == '/')
}

/// The string with trailing separators and lone-`.` segments removed: what
/// remains decides the final path component, as path parsing does.
pub open spec fn strip_trailing(s: Seq<char>) -> Seq<char>
    decreases s.len(),
{
    if s.len() == 0 {
        s
    } else if s[s.len() - 1] == '/' || ends_with_dot_segment(s) {
        strip_trailing(s.drop_last())
    } else {
        s
    }
}

/// The final path component: what follows the last separator once trailing
/// separators and lone-`.` segments are dropped.
pub open spec fn final_component(s: Seq<char>) -> Seq<char> {
    strip_trailing(s).skip(last_slash_end(strip_trailing(s)))
}

/// The file name of a destination path, under path rules: its final
/// component, unless there is none or it is the parent-directory segment
/// `..`.
pub open spec fn spec_file_name(s: Seq<char>) -> Option<Seq<char>> {
    let c = final_component(s);
    if c.len() == 0 || c == seq!['.', '.'] {
        None
    } else {
        Some(c)
    }
}

/// The file extension of a destination path: what follows the last dot of
/// the path's file name, provided that dot is not the file name's first
/// character; `None` when there is no file name or no such dot.
pub open spec fn spec_extension(s: Seq<char>) -> Option<Seq<char>> {
    let t = strip_trailing(s);
    let d = last_dot(t, last_slash_end(t));
    if spec_file_name(s) is Some && d >= 0 {
        Some(t.skip(d + 1))
    } else {
        None
    }
}

proof fn lemma_slash_step(s: Seq<char>, i: int)
    requires
        0 <= i < s.len(),
    ensures
        last_slash_end(s.take(i + 1)) == if s[i] == '/' {
            i + 1
        } else {
            last_slash_end(s.take(i))
        },
{
    assert(s.take(i + 1).drop_last() =~= s.take(i));
    assert(s.take(i + 1)[i] == s[i]);
}

proof fn lemma_dot_step(s: Seq<char>, i: int, start: int)
    requires
        0 <= i < s.len(),
    ensures
        last_dot(s.take(i + 1), start) == if i + 1 <= start + 1 {
            -1
        } else if s[i] == '.' {
            i
        } else {
            last_dot(s.take(i), start)
        },
{
    assert(s.take(i + 1).drop_last() =~= s.take(i));
    assert(s.take(i + 1)[i] == s[i]);
}

/// The file extension of the destination path, owned; `None` when the path
/// has none.
#[verifier::loop_isolation(false)]
pub fn path_extension(path: &str) -> (r: Option<String>)
    ensures
        r is Some <==> spec_extension(path@) is Some,
        r matches Some(e) ==> spec_extension(path@) == Some(e@),
{
    let len = path.unicode_len();
    proof {
        assert(path@.take(len as int) =~= path@);
    }
    // drop trailing separators and lone-`.` segments
    let mut end: usize = len;
    while end > 0 && (path.get_char(end - 1) == '/' || (path.get_char(end - 1) == '.' && (end == 1
        || path.get_char(end - 2) == '/')))
        invariant
            end <= len,
            len == path@.len(),
            strip_trailing(path@) == strip_trailing(path@.take(end as int)),
        decreases end,
    {
        proof {
            assert(path@.take(end as int).drop_last() =~= path@.take(end as int - 1));
            assert(path@.take(end as int)[end - 1] == path@[end as int - 1]);
            if end >= 2 {
                assert(path@.take(end as int)[end - 2] == path@[end as int - 2]);
            }
        }
        end -= 1;
    }
    let ghost t = strip_trailing(path@);
    proof {
        if end > 0 {
            assert(path@.take(end as int)[end - 1] == path@[end as int - 1]);
            if end >= 2 {
                assert(path@.take(end as int)[end - 2] == path@[end as int - 2]);
            }
        }
        assert(t == path@.take(end as int));
    }
    // find where the final component starts
    let mut st: usize = 0;
    let mut i: usize = 0;
    while i < end
        invariant
            i <= end <= len,
            len == path@.len(),
            t == path@.take(end as int),
            st <= i,
            st == last_slash_end(t.take(i as int)),
        decreases end - i,
    {
        proof {
            lemma_slash_step(t, i as int);
            assert(t[i as int] == path@[i as int]);
        }
        if path.get_char(i) == '/' {
            st = i + 1;
        }
        i += 1;
    }
    proof {
        assert(t.take(end as int) =~= t);
    }
    // no file name: an empty component, or the parent-directory segment
    if end == st {
        return None;
    }
    if end - st == 2 && path.get_char(st) == '.' && path.get_char(st + 1) == '.' {
        proof {
            assert(t.skip(st as int) =~= seq!['.', '.']);
        }
        return None;
    }
    proof {
        assert(t.skip(st as int).len() > 0);
        if t.skip(st as int) == seq!['.', '.'] {
            assert(end == st + 2);
            assert(t.skip(st as int)[0] == path@[st as int]);
            assert(t.skip(st as int)[1] == path@[st as int + 1]);
        }
        assert(spec_file_name(path@) is Some);
    }
    // find the last dot of the file name, ignoring one at its first position
    let mut dot: usize = 0;
    let mut has_dot: bool = false;
    let mut j: usize = 0;
    while j < end
        invariant
            j <= end <= len,
            len == path@.len(),
            t == path@.take(end as int),
            st == last_slash_end(t),
            has_dot ==> dot < j,
            has_dot ==> last_dot(t.take(j as int), st as int) == dot as int,
            !has_dot ==> last_dot(t.take(j as int), st as int) == -1,
        decreases end - j,
    {
        proof {
            lemma_dot_step(t, j as int, st as int);
            assert(t[j as int] == path@[j as int]);
        }
        if j > st && path.get_char(j) == '.' {
            dot = j;
            has_dot = true;
        }
        j += 1;
    }
    proof {
        assert(t.take(end as int) =~= t);
    }
    if has_dot {
        let e = path.substring_char(dot + 1, end);
        proof {
            assert(path@.subrange(dot + 1 as int, end as int) =~= t.skip(dot as int + 1));
        }
        Some(e.to_owned())
    } else {
        None
    }
}

/// The format the single-value path should try to convert to: the
/// destination path's extension, unless raw mode is requested or the input
/// is already a string value.
pub open spec fn spec_conversion_extension(v: Value, raw: bool, path: Seq<char>) -> Option<
    Seq<char>,
> {
    if raw {
        None::<Seq<char>>
    } else if v matches Value::Str { .. } {
        None::<Seq<char>>
    } else {
        spec_extension(path)
    }
}

/// Decide whether the format bridge applies to a single-value input, and
/// with which target format.
pub fn conversion_extension(input: &Value, raw: bool, dest_path: &str) -> (r: Option<String>)
    ensures
        r is Some <==> spec_conversion_extension(*input, raw, dest_path@) is Some,
        r matches Some(e) ==> spec_conversion_extension(*input, raw, dest_path@) == Some(e@),
{
    if raw {
        None
    } else if let Value::Str { .. } = input {
        None
    } else {
        path_extension(dest_path)
    }
}

/// The name of the transformation to look up in the host registry for a
/// target format: `to` followed by the extension.
pub fn conversion_command(extension: &str) -> (r: String)
    ensures
        r@ == "to "@ + extension@,
{
    let mut s = String::from_str("to ");
    s.append(extension);
    s
}

/// What the surrounding program reports back from looking up the
/// transformation in the host registry and, when found, invoking it.
pub enum TransformOutcome {
    /// No transformation of that name is registered.
    NotFound,
    /// The transformation ran and produced this value.
    Transformed { value: Value },
    /// The transformation ran and failed with this message.
    Failed { msg: String },
}

/// Apply the outcome of the format bridge: an unregistered transformation
/// passes the input through unchanged, a successful one replaces it, and a
/// failed one fails the invocation with `TransformFailed` — no retry, no
/// fallback.
pub fn apply_transform_outcome(original: Value, outcome: TransformOutcome, span: Span) -> (r:
    Result<Value, SaveError>)
    ensures
        outcome is NotFound ==> r == Ok::<Value, SaveError>(original),
        outcome matches TransformOutcome::Transformed { value } ==> r == Ok::<Value, SaveError>(
            value,
        ),
        outcome matches TransformOutcome::Failed { msg } ==> r == Err::<Value, SaveError>(
            SaveError::TransformFailed { msg, span },
        ),
{
    match outcome {
        TransformOutcome::NotFound => Ok(original),
        TransformOutcome::Transformed { value } => Ok(value),
        TransformOutcome::Failed { msg } => Err(SaveError::TransformFailed { msg, span }),
    }
}

/// Whether the format bridge reported a failed transformation.
pub open spec fn bridge_failed(bridge: Option<TransformOutcome>) -> bool {
    bridge matches Some(TransformOutcome::Failed { .. })
}

/// The value the single-value path coerces: the transformation's result
/// when one ran successfully, the input unchanged otherwise.
pub open spec fn effective_value(input: Value, bridge: Option<TransformOutcome>) -> Value {
    match bridge {
        Some(TransformOutcome::Transformed { value }) => value,
        _ => input,
    }
}

/// The whole materialize-then-put path up to the put itself: apply the
/// format bridge's outcome (`None` when the bridge does not apply), then
/// coerce the resulting value into the one complete byte buffer to be
/// written with a single direct put.
pub fn input_to_bytes(input: Value, bridge: Option<TransformOutcome>, span: Span) -> (r: Result<
    Vec<u8>,
    SaveError,
>)
    ensures
        bridge matches Some(o) ==> (o matches TransformOutcome::Failed { msg } ==> r == Err::<
            Vec<u8>,
            SaveError,
        >(SaveError::TransformFailed { msg, span })),
        !bridge_failed(bridge) ==> (value_bytes_ok(effective_value(input, bridge)) ==> (r
            matches Ok(b) && b@ == value_bytes(effective_value(input, bridge)))),
        !bridge_failed(bridge) ==> (!value_bytes_ok(effective_value(input, bridge)) ==> r is Err),
        !bridge_failed(bridge) ==> (effective_value(input, bridge) matches Value::Error {
            error,
            ..
        } ==> r == Err::<Vec<u8>, SaveError>(*error)),
{
    match bridge {
        None => value_to_bytes(input),
        Some(outcome) => match apply_transform_outcome(input, outcome, span) {
            Ok(v) => value_to_bytes(v),
            Err(e) => Err(e),
        },
    }
}

} // verus!
