//! Byte coercion: converting one typed pipeline value into a raw byte
//! sequence, or failing.
//!
//! The rules, in the order they are checked:
//! - a string value becomes its UTF-8 bytes, as-is;
//! - a binary value becomes its bytes, as-is;
//! - an ordered list becomes each element's string representation joined
//!   with a single newline between consecutive elements, plus one trailing
//!   newline, encoded as UTF-8; a list fails as a whole if any element has
//!   no string representation;
//! - an error-carrying value fails immediately, propagating the carried
//!   error unchanged;
//! - any other value kind becomes the UTF-8 bytes of its string
//!   representation.
//!
//! Detecting the error case before the generic string case matters: an
//! error-carrying value must never silently turn into an error-message
//! string.

use vstd::prelude::*;
use vstd::utf8::*;

use crate::error::{SaveError, Span};

verus! {

/// One typed value received from the surrounding pipeline, reduced to what
/// the coercion rules read: its kind, its payload as plain data, and its
/// source span for error attribution.
///
/// Value kinds other than strings, binary data, lists and errors carry only
/// their string representation here, since that is all byte coercion uses
/// of them.
#[derive(Debug, PartialEq, Eq)]
pub enum Value {
    /// A string value.
    Str { val: String, span: Span },
    /// A binary value.
    Binary { bytes: Vec<u8>, span: Span },
    /// An ordered list of values.
    List { vals: Vec<Value>, span: Span },
    /// A propagated error carried as a value.
    Error { error: Box<SaveError>, span: Span },
    /// Any other value kind, carrying its string representation.
    Other { repr: String, span: Span },
}

/// The source span a value carries.
pub open spec fn span_of(v: Value) -> Span {
    match v {
        Value::Str { span, .. } => span,
        Value::Binary { span, .. } => span,
        Value::List { span, .. } => span,
        Value::Error { span, .. } => span,
        Value::Other { span, .. } => span,
    }
}

/// Whether a value has a string representation: strings and "other" kinds
/// do; binary values, lists and error values do not.
pub open spec fn coercible(v: Value) -> bool {
    v matches Value::Str { .. } || v matches Value::Other { .. }
}

/// The string representation of a coercible value.
pub open spec fn coerced_chars(v: Value) -> Seq<char> {
    match v {
        Value::Str { val, .. } => val@,
        Value::Other { repr, .. } => repr@,
        _ => Seq::<char>::empty(),
    }
}

/// Whether every element of a list has a string representation.
pub open spec fn all_coercible(vs: Seq<Value>) -> bool {
    forall|i: int| 0 <= i < vs.len() ==> coercible(#[trigger] vs[i])
}

/// The index of the first element without a string representation.
pub open spec fn first_uncoercible(vs: Seq<Value>) -> int
    decreases vs.len(),
{
    if vs.len() == 0 {
        0
    } else if !coercible(vs[0]) {
        0
    } else {
        1 + first_uncoercible(vs.drop_first())
    }
}

/// Each element's string representation followed by one newline.
pub open spec fn joined_chars(vs: Seq<Value>) -> Seq<char>
    decreases vs.len(),
{
    if vs.len() == 0 {
        Seq::<char>::empty()
    } else {
        coerced_chars(vs[0]) + seq!['\n'] + joined_chars(vs.drop_first())
    }
}

/// The string representation of a whole list: elements joined with a
/// newline between consecutive elements, plus one trailing newline. An
/// empty list joins to the empty string, so only the trailing newline
/// remains.
pub open spec fn list_chars(vs: Seq<Value>) -> Seq<char> {
    if vs.len() == 0 {
        seq!['\n']
    } else {
        joined_chars(vs)
    }
}

/// Whether byte coercion of a value succeeds.
pub open spec fn value_bytes_ok(v: Value) -> bool {
    match v {
        Value::Str { .. } => true,
        Value::Binary { .. } => true,
        Value::Other { .. } => true,
        Value::Error { .. } => false,
        Value::List { vals, .. } => all_coercible(vals@),
    }
}

/// The byte sequence coercion produces when it succeeds.
pub open spec fn value_bytes(v: Value) -> Seq<u8> {
    match v {
        Value::Str { val, .. } => encode_utf8(val@),
        Value::Binary { bytes, .. } => bytes@,
        Value::Other { repr, .. } => encode_utf8(repr@),
        Value::List { vals, .. } => encode_utf8(list_chars(vals@)),
        Value::Error { .. } => Seq::<u8>::empty(),
    }
}

/// Convert a value into its string representation, or fail.
///
/// An error-carrying value propagates its carried error unchanged; a binary
/// value or a list has no string representation and fails with a coercion
/// error attributed to the value's own span.
pub fn coerce_into_string(value: Value) -> (r: Result<String, SaveError>)
    ensures
        coercible(value) ==> (r matches Ok(s) && s@ == coerced_chars(value)),
        !coercible(value) ==> r is Err,
        value matches Value::Error { error, .. } ==> r == Err::<String, SaveError>(*error),
        (value matches Value::Binary { .. } || value matches Value::List { .. }) ==> (r matches Err(
            e,
        ) && e matches SaveError::CoercionFailed { span, .. } && span == span_of(value)),
{
    match value {
        Value::Str { val, .. } => Ok(val),
        Value::Other { repr, .. } => Ok(repr),
        Value::Binary { span, .. } => Err(
            SaveError::CoercionFailed {
                msg: String::from_str("cannot coerce a binary value into a string"),
                span,
            },
        ),
        Value::List { span, .. } => Err(
            SaveError::CoercionFailed {
                msg: String::from_str("cannot coerce a list into a string"),
                span,
            },
        ),
        Value::Error { error, .. } => Err(*error),
    }
}

proof fn lemma_first_uncoercible_at(vs: Seq<Value>, i: int)
    requires
        0 <= i < vs.len(),
        !coercible(vs[i]),
        forall|j: int| 0 <= j < i ==> coercible(#[trigger] vs[j]),
    ensures
        first_uncoercible(vs) == i,
    decreases vs.len(),
{
    if i == 0 {
    } else {
        assert forall|j: int| 0 <= j < i - 1 implies coercible(#[trigger] vs.drop_first()[j]) by {
            assert(vs.drop_first()[j] == vs[j + 1]);
        }
        assert(vs.drop_first()[i - 1] == vs[i]);
        lemma_first_uncoercible_at(vs.drop_first(), i - 1);
    }
}

proof fn lemma_joined_snoc(vs: Seq<Value>, v: Value)
    ensures
        joined_chars(vs.push(v)) == joined_chars(vs) + coerced_chars(v) + seq!['\n'],
    decreases vs.len(),
{
    if vs.len() == 0 {
        assert(vs.push(v).drop_first() =~= Seq::<Value>::empty());
        assert(joined_chars(Seq::<Value>::empty()) =~= Seq::<char>::empty());
        assert(vs.push(v)[0] == v);
        assert(joined_chars(vs.push(v)) =~= coerced_chars(v) + seq!['\n']);
        assert(joined_chars(vs) + coerced_chars(v) + seq!['\n'] =~= coerced_chars(v)
            + seq!['\n']);
    } else {
        assert(vs.push(v).drop_first() =~= vs.drop_first().push(v));
        lemma_joined_snoc(vs.drop_first(), v);
        assert(joined_chars(vs.push(v)) =~= joined_chars(vs) + coerced_chars(v) + seq!['\n']);
    }
}

/// What byte coercion returns when a list has an element without a string
/// representation: the first offending element decides, and an
/// error-carrying element propagates its carried error unchanged.
pub open spec fn list_error_ok<T>(vals: Seq<Value>, r: Result<T, SaveError>) -> bool {
    let bad = vals[first_uncoercible(vals)];
    &&& (bad matches Value::Error { error, .. } ==> r == Err::<T, SaveError>(*error))
    &&& (!(bad matches Value::Error { .. }) ==> (r matches Err(e)
        && e matches SaveError::CoercionFailed { span, .. } && span == span_of(bad)))
}

/// Convert a value into the byte sequence to be written, or fail.
///
/// On success the bytes are exactly `value_bytes(value)`. A top-level
/// error-carrying value, or an error-carrying element of a list, propagates
/// its carried error unchanged; a list element without a string
/// representation fails the whole list with a coercion error attributed to
/// that element. The first offending element decides the error.
#[verifier::loop_isolation(false)]
pub fn value_to_bytes(value: Value) -> (r: Result<Vec<u8>, SaveError>)
    ensures
        value_bytes_ok(value) ==> (r matches Ok(b) && b@ == value_bytes(value)),
        !value_bytes_ok(value) ==> r is Err,
        value matches Value::Error { error, .. } ==> r == Err::<Vec<u8>, SaveError>(*error),
        value matches Value::List { vals, .. } ==> (!all_coercible(vals@) ==> list_error_ok(
            vals@,
            r,
        )),
{
    match value {
        Value::Str { val, .. } => Ok(val.as_str().as_bytes_vec()),
        Value::Binary { bytes, .. } => Ok(bytes),
        Value::Other { repr, .. } => Ok(repr.as_str().as_bytes_vec()),
        Value::Error { error, .. } => Err(*error),
        Value::List { vals, span } => {
            let ghost all = vals@;
            let mut vals = vals;
            let mut joined = String::new();
            if vals.len() == 0 {
                joined.append("\n");
                proof {
                    reveal_strlit("\n");
                    assert(joined@ =~= list_chars(all));
                }
            } else {
                let n = vals.len();
                let mut i: usize = 0;
                while i < n
                    invariant
                        i <= n,
                        n == all.len(),
                        vals@ =~= all.skip(i as int),
                        joined@ == joined_chars(all.take(i as int)),
                        forall|j: int| 0 <= j < i ==> coercible(#[trigger] all[j]),
                    decreases n - i,
                {
                    let v = vals.remove(0);
                    proof {
                        assert(v == all[i as int]);
                        assert(vals@ =~= all.skip(i as int + 1));
                    }
                    match coerce_into_string(v) {
                        Ok(s) => {
                            joined.append(s.as_str());
                            joined.append("\n");
                            proof {
                                reveal_strlit("\n");
                                assert(all.take(i as int).push(v) =~= all.take(i as int + 1));
                                lemma_joined_snoc(all.take(i as int), v);
                                assert(joined@ =~= joined_chars(all.take(i as int + 1)));
                            }
                        },
                        Err(e) => {
                            proof {
                                lemma_first_uncoercible_at(all, i as int);
                                assert(first_uncoercible(all) == i as int);
                                assert(all[i as int] == v);
                                assert(!coercible(v));
                                assert(!all_coercible(all));
                                assert(list_error_ok(all, Err::<Vec<u8>, SaveError>(e)));
                            }
                            return Err(e);
                        },
                    }
                    i += 1;
                }
                proof {
                    assert(all.take(n as int) =~= all);
                    assert(joined@ == joined_chars(all));
                }
            }
            Ok(joined.as_str().as_bytes_vec())
        },
    }
}

/// The UTF-8 encoding of a concatenation is the concatenation of the
/// UTF-8 encodings.
pub proof fn lemma_encode_utf8_concat(a: Seq<char>, b: Seq<char>)
    ensures
        encode_utf8(a + b) == encode_utf8(a) + encode_utf8(b),
    decreases a.len(),
{
    if a.len() == 0 {
        assert(a + b =~= b);
        assert(encode_utf8(a) + encode_utf8(b) =~= encode_utf8(b));
    } else {
        assert((a + b).drop_first() =~= a.drop_first() + b);
        lemma_encode_utf8_concat(a.drop_first(), b);
        assert(encode_utf8(a + b) =~= encode_utf8(a) + encode_utf8(b));
    }
}

/// A newline encodes in UTF-8 as the single byte `0x0A`.
pub proof fn lemma_encode_newline()
    ensures
        encode_utf8(seq!['\n']) == seq![10u8],
{
    let s = seq!['\n'];
    assert(s.drop_first() =~= Seq::<char>::empty());
    assert(encode_utf8(Seq::<char>::empty()) =~= Seq::<u8>::empty());
    assert(s[0] == '\n');
    assert('\n' as u32 == 10);
    assert((10u32 & 0x7F) == 10) by (bit_vector);
    assert(encode_scalar(10u32) =~= seq![10u8]);
    assert(encode_utf8(s) == encode_scalar(s[0] as u32) + encode_utf8(s.drop_first()));
    assert(encode_utf8(s) =~= seq![10u8]);
}

/// The bytes of a list coercion, element by element: each element's UTF-8
/// bytes followed by one newline byte.
pub open spec fn element_bytes(vs: Seq<Value>) -> Seq<u8>
    decreases vs.len(),
{
    if vs.len() == 0 {
        Seq::<u8>::empty()
    } else {
        encode_utf8(coerced_chars(vs[0])) + seq![10u8] + element_bytes(vs.drop_first())
    }
}

/// Law: coercing a non-empty list of coercible values produces each
/// element's coerced bytes with exactly one newline byte between
/// consecutive elements and one trailing newline byte after the last.
pub proof fn lemma_list_coercion_bytes(vs: Seq<Value>)
    requires
        vs.len() > 0,
        all_coercible(vs),
    ensures
        encode_utf8(list_chars(vs)) == element_bytes(vs),
    decreases vs.len(),
{
    lemma_encode_utf8_concat(coerced_chars(vs[0]) + seq!['\n'], joined_chars(vs.drop_first()));
    lemma_encode_utf8_concat(coerced_chars(vs[0]), seq!['\n']);
    lemma_encode_newline();
    if vs.len() == 1 {
        assert(vs.drop_first() =~= Seq::<Value>::empty());
        assert(joined_chars(Seq::<Value>::empty()) =~= Seq::<char>::empty());
        assert(element_bytes(Seq::<Value>::empty()) =~= Seq::<u8>::empty());
        assert(encode_utf8(Seq::<char>::empty()) =~= Seq::<u8>::empty());
        assert(list_chars(vs) == coerced_chars(vs[0]) + seq!['\n'] + joined_chars(
            Seq::<Value>::empty(),
        ));
        assert(coerced_chars(vs[0]) + seq!['\n'] + Seq::<char>::empty() =~= coerced_chars(vs[0])
            + seq!['\n']);
        assert(encode_utf8(list_chars(vs)) =~= element_bytes(vs));
    } else {
        assert(all_coercible(vs.drop_first())) by {
            assert forall|i: int| 0 <= i < vs.drop_first().len() implies coercible(
                #[trigger] vs.drop_first()[i],
            ) by {
                assert(vs.drop_first()[i] == vs[i + 1]);
            }
        }
        lemma_list_coercion_bytes(vs.drop_first());
        assert(joined_chars(vs.drop_first()) == list_chars(vs.drop_first()));
        assert(encode_utf8(joined_chars(vs)) =~= encode_utf8(coerced_chars(vs[0])) + seq![10u8]
            + element_bytes(vs.drop_first()));
        assert(encode_utf8(list_chars(vs)) =~= element_bytes(vs));
    }
}

/// Law: byte coercion of a string value round-trips — the produced bytes
/// are valid UTF-8 and decode back to exactly the original characters.
pub proof fn lemma_string_coercion_roundtrip(s: Seq<char>)
    ensures
        valid_utf8(encode_utf8(s)),
        decode_utf8(encode_utf8(s)) == s,
{
    encode_utf8_valid_utf8(s);
    encode_utf8_decode_utf8(s);
}

} // verus!

