//! The descriptor decoder: parses Java field and method type descriptors
//! and narrows each decoded type to the operand-stack `Value` category.
//!
//! A field descriptor is zero or more `[` array markers followed by a
//! primitive letter or an object form `L<class-name>;` with a non-empty
//! class name. A method descriptor is `(` followed by field descriptors,
//! `)`, and one return field descriptor or `V` for void.

use vstd::prelude::*;
use crate::error::ErrorKind;
use crate::value::Value;

verus! {

/// Position of the first `;` at index `i` or later, if any.
pub open spec fn semi_pos(s: Seq<u8>, i: int) -> Option<int>
    decreases s.len() - i,
{
    if i < 0 || i >= s.len() {
        None
    } else if s[i] == 59 {
        Some(i)
    } else {
        semi_pos(s, i + 1)
    }
}

/// The grammar of one field descriptor starting at index `i`: on success,
/// the stack `Value` it narrows to and the index just past it.
/// Boolean, byte, char, short and int all narrow to the 32-bit integer
/// category; any array or object reference narrows to the reference
/// category.
pub open spec fn field_end(s: Seq<u8>, i: int) -> Option<(Value, int)>
    decreases s.len() - i,
{
    if i < 0 || i >= s.len() {
        None
    } else if s[i] == 91 {  // '['
        match field_end(s, i + 1) {
            Some((_, j)) => Some((Value::Ref, j)),
            None => None,
        }
    } else if s[i] == 76 {  // 'L'
        match semi_pos(s, i + 1) {
            Some(j) => if j > i + 1 {
                Some((Value::Ref, j + 1))
            } else {
                None
            },
            None => None,
        }
    } else if s[i] == 66 || s[i] == 67 || s[i] == 73 || s[i] == 83 || s[i] == 90 {
        // 'B' | 'C' | 'I' | 'S' | 'Z'
        Some((Value::I32, i + 1))
    } else if s[i] == 70 {  // 'F'
        Some((Value::F32, i + 1))
    } else if s[i] == 74 {  // 'J'
        Some((Value::I64, i + 1))
    } else if s[i] == 68 {  // 'D'
        Some((Value::F64, i + 1))
    } else {
        None
    }
}

/// The `Value` a complete field descriptor narrows to, if well-formed.
pub open spec fn spec_field_descriptor(s: Seq<u8>) -> Option<Value> {
    match field_end(s, 0) {
        Some((v, j)) => if j == s.len() {
            Some(v)
        } else {
            None
        },
        None => None,
    }
}

/// The parameter list of a method descriptor from index `i` up to and
/// including the closing `)`: the parameter `Value`s in declaration order
/// and the index just past the `)`.
pub open spec fn params_end(s: Seq<u8>, i: int) -> Option<(Seq<Value>, int)>
    decreases s.len() - i,
{
    if i < 0 || i >= s.len() {
        None
    } else if s[i] == 41 {  // ')'
        Some((Seq::empty(), i + 1))
    } else {
        match field_end(s, i) {
            Some((v, j)) => if i < j <= s.len() {
                match params_end(s, j) {
                    Some((rest, k)) => Some((seq![v] + rest, k)),
                    None => None,
                }
            } else {
                None
            },
            None => None,
        }
    }
}

/// A complete method descriptor: the parameter `Value`s in declaration
/// order and the return `Value`, `None` standing for void.
pub open spec fn spec_method_descriptor(s: Seq<u8>) -> Option<(Seq<Value>, Option<Value>)> {
    if s.len() == 0 || s[0] != 40 {  // '('
        None
    } else {
        match params_end(s, 1) {
            Some((params, j)) => if j < s.len() && s[j] == 86 {  // 'V'
                if j + 1 == s.len() {
                    Some((params, None))
                } else {
                    None
                }
            } else {
                match field_end(s, j) {
                    Some((v, k)) => if k == s.len() {
                        Some((params, Some(v)))
                    } else {
                        None
                    },
                    None => None,
                }
            },
            None => None,
        }
    }
}

/// A well-formed field descriptor ends after its start and within the text.
pub proof fn lemma_field_end_bounds(s: Seq<u8>, i: int)
    ensures
        field_end(s, i) matches Some((v, j)) ==> i < j <= s.len(),
    decreases s.len() - i,
{
    if 0 <= i < s.len() {
        if s[i] == 91 {
            lemma_field_end_bounds(s, i + 1);
        } else if s[i] == 76 {
            lemma_semi_pos_bounds(s, i + 1);
        }
    }
}

/// A found `;` lies at or after the search start and within the text.
pub proof fn lemma_semi_pos_bounds(s: Seq<u8>, i: int)
    ensures
        semi_pos(s, i) matches Some(j) ==> i <= j < s.len() && s[j] == 59,
    decreases s.len() - i,
{
    if 0 <= i < s.len() && s[i] != 59 {
        lemma_semi_pos_bounds(s, i + 1);
    }
}

/// Finds the first `;` at index `from` or later.
fn find_semi(d: &[u8], from: usize) -> (r: Option<usize>)
    ensures
        match r {
            Some(j) => semi_pos(d@, from as int) == Some(j as int) && from <= j < d@.len(),
            None => semi_pos(d@, from as int) is None,
        },
{
    let mut cur: usize = from;
    loop
        invariant
            from <= cur,
            semi_pos(d@, from as int) == semi_pos(d@, cur as int),
        ensures
            match semi_pos(d@, from as int) {
                Some(j) => cur == j && cur < d@.len() && d@[cur as int] == 59,
                None => cur >= d@.len(),
            },
        decreases d@.len() - cur,
    {
        if cur >= d.len() {
            break;
        }
        if d[cur] == 59 {
            break;
        }
        cur += 1;
    }
    if cur < d.len() {
        Some(cur)
    } else {
        None
    }
}

/// Parses one field descriptor starting at index `i`, yielding its
/// `Value` and the index just past it, exactly as the grammar derives.
fn parse_field_at(d: &[u8], i: usize) -> (r: Result<(Value, usize), ErrorKind>)
    ensures
        match r {
            Ok((v, j)) => field_end(d@, i as int) == Some((v, j as int)) && i < j && j <= d@.len(),
            Err(e) => field_end(d@, i as int) is None && e == ErrorKind::InvalidDescriptor,
        },
    decreases d@.len() - i,
{
    if i >= d.len() {
        return Err(ErrorKind::InvalidDescriptor);
    }
    let c = d[i];
    if c == 91 {
        match parse_field_at(d, i + 1) {
            Ok((_, j)) => Ok((Value::Ref, j)),
            Err(e) => Err(e),
        }
    } else if c == 76 {
        match find_semi(d, i + 1) {
            Some(j) => if j > i + 1 {
                Ok((Value::Ref, j + 1))
            } else {
                Err(ErrorKind::InvalidDescriptor)
            },
            None => Err(ErrorKind::InvalidDescriptor),
        }
    } else if c == 66 || c == 67 || c == 73 || c == 83 || c == 90 {
        Ok((Value::I32, i + 1))
    } else if c == 70 {
        Ok((Value::F32, i + 1))
    } else if c == 74 {
        Ok((Value::I64, i + 1))
    } else if c == 68 {
        Ok((Value::F64, i + 1))
    } else {
        Err(ErrorKind::InvalidDescriptor)
    }
}

/// Parses a complete field descriptor and narrows it to its stack `Value`.
pub fn parse_field_descriptor(d: &[u8]) -> (r: Result<Value, ErrorKind>)
    ensures
        match r {
            Ok(v) => spec_field_descriptor(d@) == Some(v),
            Err(e) => spec_field_descriptor(d@) is None && e == ErrorKind::InvalidDescriptor,
        },
{
    match parse_field_at(d, 0) {
        Ok((v, j)) => if j == d.len() {
            Ok(v)
        } else {
            Err(ErrorKind::InvalidDescriptor)
        },
        Err(e) => Err(e),
    }
}

/// Parses a complete method descriptor: the parameter `Value`s in
/// declaration order, and the return `Value` or `None` for void.
pub fn parse_method_descriptor(d: &[u8]) -> (r: Result<(Vec<Value>, Option<Value>), ErrorKind>)
    ensures
        match r {
            Ok(t) => spec_method_descriptor(d@) == Some((t.0@, t.1)),
            Err(e) => spec_method_descriptor(d@) is None && e == ErrorKind::InvalidDescriptor,
        },
{
    if d.len() == 0 {
        return Err(ErrorKind::InvalidDescriptor);
    }
    if d[0] != 40 {
        return Err(ErrorKind::InvalidDescriptor);
    }
    let mut params: Vec<Value> = Vec::new();
    let mut cur: usize = 1;
    loop
        invariant_except_break
            match params_end(d@, cur as int) {
                Some((rest, k)) => params_end(d@, 1) == Some((params@ + rest, k)),
                None => params_end(d@, 1) is None,
            },
        invariant
            1 <= cur <= d@.len(),
            d@.len() > 0 && d@[0] == 40,
        ensures
            params_end(d@, 1) == Some((params@, cur as int)),
            cur <= d@.len(),
        decreases d@.len() - cur,
    {
        if cur >= d.len() {
            return Err(ErrorKind::InvalidDescriptor);
        }
        if d[cur] == 41 {
            proof {
                assert(params@ + Seq::<Value>::empty() =~= params@);
            }
            cur += 1;
            break;
        }
        match parse_field_at(d, cur) {
            Ok((v, j)) => {
                proof {
                    let tail = params_end(d@, j as int);
                    if tail is Some {
                        let (rest, k) = tail->Some_0;
                        assert(params_end(d@, cur as int) == Some((seq![v] + rest, k)));
                        assert(params@ + (seq![v] + rest) =~= params@.push(v) + rest);
                    }
                }
                params.push(v);
                cur = j;
            },
            Err(_) => {
                return Err(ErrorKind::InvalidDescriptor);
            },
        }
    }
    if cur < d.len() && d[cur] == 86 {
        if cur + 1 == d.len() {
            return Ok((params, None));
        } else {
            return Err(ErrorKind::InvalidDescriptor);
        }
    }
    match parse_field_at(d, cur) {
        Ok((v, j)) => if j == d.len() {
            Ok((params, Some(v)))
        } else {
            Err(ErrorKind::InvalidDescriptor)
        },
        Err(_) => Err(ErrorKind::InvalidDescriptor),
    }
}

} // verus!
