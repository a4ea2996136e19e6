use vstd::prelude::*;
use vstd::string::StrSliceExecFns;

use crate::error::{ConfigError, FieldErrorKind};
use crate::value::{entries_of, lookup, find_entry, ConfigValue};

verus! {

/// A non-empty string of decimal digits.
pub open spec fn is_dec_digits(s: Seq<char>) -> bool {
    s.len() > 0 && forall|i: int| 0 <= i < s.len() ==> '0' <= #[trigger] s[i] <= '9'
}

/// The number that a string of decimal digits denotes.
pub open spec fn dec_value(s: Seq<char>) -> int
    decreases s.len(),
{
    if s.len() == 0 {
        0
    } else {
        dec_value(s.drop_last()) * 10 + (s.last() as int - 48)
    }
}

/// A string of decimal digits denotes a nonnegative number.
proof fn lemma_dec_value_nonneg(s: Seq<char>)
    requires
        forall|i: int| 0 <= i < s.len() ==> '0' <= #[trigger] s[i] <= '9',
    ensures
        dec_value(s) >= 0,
    decreases s.len(),
{
    if s.len() > 0 {
        lemma_dec_value_nonneg(s.drop_last());
        assert(dec_value(s.drop_last()) * 10 >= 0) by (nonlinear_arith)
            requires
                dec_value(s.drop_last()) >= 0,
        ;
    }
}

/// A digit string denotes a value at least as large as any of its prefixes.
proof fn lemma_dec_value_prefix(s: Seq<char>, j: int)
    requires
        forall|i: int| 0 <= i < s.len() ==> '0' <= #[trigger] s[i] <= '9',
        0 <= j <= s.len(),
    ensures
        0 <= dec_value(s.take(j)) <= dec_value(s),
    decreases s.len() - j,
{
    assert(forall|i: int| 0 <= i < s.take(j).len() ==> '0' <= #[trigger] s.take(j)[i] <= '9');
    lemma_dec_value_nonneg(s.take(j));
    if j == s.len() {
        assert(s.take(j) =~= s);
    } else {
        lemma_dec_value_prefix(s, j + 1);
        assert(s.take(j + 1).drop_last() =~= s.take(j));
        assert(s.take(j + 1).last() == s[j]);
        assert(dec_value(s.take(j + 1)) == dec_value(s.take(j)) * 10 + (s[j] as int - 48));
        assert(dec_value(s.take(j)) <= dec_value(s.take(j)) * 10) by (nonlinear_arith)
            requires
                dec_value(s.take(j)) >= 0,
        ;
    }
}

/// Read an unsigned number from a decimal lexeme. Succeeds exactly on a
/// non-empty all-digit lexeme whose value fits in a `u64`; in particular a
/// signed, fractional or exponent form is refused.
pub fn parse_u64_lexeme(s: &str) -> (r: Option<u64>)
    ensures
        r is Some <==> is_dec_digits(s@) && dec_value(s@) <= u64::MAX,
        r matches Some(n) ==> n == dec_value(s@),
{
    let len = s.unicode_len();
    if len == 0 {
        return None;
    }
    let mut i: usize = 0;
    let mut acc: u64 = 0;
    while i < len
        invariant
            0 < len == s@.len(),
            0 <= i <= len,
            forall|j: int| 0 <= j < i ==> '0' <= #[trigger] s@[j] <= '9',
            acc == dec_value(s@.take(i as int)),
        decreases len - i,
    {
        let c = s.get_char(i);
        if c < '0' || c > '9' {
            assert(!is_dec_digits(s@));
            return None;
        }
        let d: u64 = (c as u8) as u64 - 48;
        proof {
            assert(s@.take(i + 1).drop_last() =~= s@.take(i as int));
            assert(s@.take(i + 1).last() == s@[i as int]);
            assert(d == s@[i as int] as int - 48);
        }
        if acc > (u64::MAX - d) / 10 {
            proof {
                assert(dec_value(s@.take(i + 1)) == acc * 10 + d);
                assert(acc * 10 + d > u64::MAX) by (nonlinear_arith)
                    requires
                        acc > (u64::MAX - d) / 10,
                        0 <= d <= 9,
                        acc >= 0,
                ;
                if is_dec_digits(s@) {
                    lemma_dec_value_prefix(s@, i + 1);
                }
            }
            return None;
        }
        acc = acc * 10 + d;
        i = i + 1;
    }
    proof {
        assert(s@.take(len as int) =~= s@);
    }
    Some(acc)
}

/// The value of the required field `key` in the root of `document`; its
/// absence is reported against exactly that field path.
pub fn get_field<'a>(document: &'a ConfigValue, key: &str) -> (r: Result<
    &'a ConfigValue,
    ConfigError,
>)
    requires
        document is Object,
    ensures
        r matches Ok(v) ==> lookup(entries_of(*document), key@) == Some(*v),
        r is Ok <==> lookup(entries_of(*document), key@) is Some,
        r matches Err(e) ==> e matches ConfigError::Deserialize { path, kind } && path@ == key@
            && kind == FieldErrorKind::MissingField,
{
    let entries = match document {
        ConfigValue::Object(es) => es,
        _ => vstd::pervasive::unreached(),
    };
    match find_entry(entries, key) {
        Some(i) => Ok(&entries[i].1),
        None => Err(
            ConfigError::Deserialize {
                path: key.to_owned(),
                kind: FieldErrorKind::MissingField,
            },
        ),
    }
}

/// The required boolean field `key`: a missing field and a field of another
/// shape are told apart, both reported against the field path.
pub fn get_bool(document: &ConfigValue, key: &str) -> (r: Result<bool, ConfigError>)
    requires
        document is Object,
    ensures
        r matches Ok(b) ==> lookup(entries_of(*document), key@) == Some(ConfigValue::Bool(b)),
        r is Ok <==> (lookup(entries_of(*document), key@) matches Some(v) && v is Bool),
        r matches Err(e) ==> e matches ConfigError::Deserialize { path, kind } && path@ == key@
            && kind == (if lookup(entries_of(*document), key@) is Some {
                FieldErrorKind::TypeMismatch
            } else {
                FieldErrorKind::MissingField
            }),
{
    match get_field(document, key)? {
        ConfigValue::Bool(b) => Ok(*b),
        _ => Err(
            ConfigError::Deserialize {
                path: key.to_owned(),
                kind: FieldErrorKind::TypeMismatch,
            },
        ),
    }
}

/// The required string field `key`.
pub fn get_text(document: &ConfigValue, key: &str) -> (r: Result<String, ConfigError>)
    requires
        document is Object,
    ensures
        r matches Ok(s) ==> ({
            &&& lookup(entries_of(*document), key@) matches Some(v)
            &&& v matches ConfigValue::Text(t)
            &&& t@ == s@
        }),
        r is Ok <==> (lookup(entries_of(*document), key@) matches Some(v) && v is Text),
        r matches Err(e) ==> e matches ConfigError::Deserialize { path, kind } && path@ == key@
            && kind == (if lookup(entries_of(*document), key@) is Some {
                FieldErrorKind::TypeMismatch
            } else {
                FieldErrorKind::MissingField
            }),
{
    match get_field(document, key)? {
        ConfigValue::Text(t) => Ok(t.clone()),
        _ => Err(
            ConfigError::Deserialize {
                path: key.to_owned(),
                kind: FieldErrorKind::TypeMismatch,
            },
        ),
    }
}

/// The required unsigned-number field `key`. A field that is not a number, a
/// number that is not a plain unsigned integer, and one too large for a `u64`
/// are all type mismatches at that field path.
pub fn get_u64(document: &ConfigValue, key: &str) -> (r: Result<u64, ConfigError>)
    requires
        document is Object,
    ensures
        r matches Ok(n) ==> ({
            &&& lookup(entries_of(*document), key@) matches Some(v)
            &&& v matches ConfigValue::Number(lex)
            &&& is_dec_digits(lex@)
            &&& n == dec_value(lex@)
        }),
        r is Ok <==> ({
            &&& lookup(entries_of(*document), key@) matches Some(v)
            &&& v matches ConfigValue::Number(lex)
            &&& is_dec_digits(lex@)
            &&& dec_value(lex@) <= u64::MAX
        }),
        r matches Err(e) ==> e matches ConfigError::Deserialize { path, kind } && path@ == key@
            && kind == (if lookup(entries_of(*document), key@) is Some {
                FieldErrorKind::TypeMismatch
            } else {
                FieldErrorKind::MissingField
            }),
{
    match get_field(document, key)? {
        ConfigValue::Number(lex) => match parse_u64_lexeme(lex.as_str()) {
            Some(n) => Ok(n),
            None => Err(
                ConfigError::Deserialize {
                    path: key.to_owned(),
                    kind: FieldErrorKind::TypeMismatch,
                },
            ),
        },
        _ => Err(
            ConfigError::Deserialize {
                path: key.to_owned(),
                kind: FieldErrorKind::TypeMismatch,
            },
        ),
    }
}

} // verus!
