//! The value types a tool can take and give: each has a parser from text and
//! a renderer to text, and a type without them is no part of the registry.

use vstd::prelude::*;
use vstd::string::*;
use crate::text::{push_char, range_equals, text_of, to_chars};

verus! {

/// A type that can be parsed from text and rendered to text.
#[derive(Clone, Copy, Debug, PartialEq, Eq, Structural)]
pub enum ValueType {
    I8,
    I16,
    I32,
    I64,
    U8,
    U16,
    U32,
    U64,
    I128,
    U128,
    Isize,
    Usize,
    Bool,
    Char,
    Text,
}

impl ValueType {
    pub open spec fn is_integer(self) -> bool {
        self != ValueType::Bool && self != ValueType::Text && self != ValueType::Char
    }

    /// The least value of an integer type.
    pub open spec fn lower(self) -> int {
        match self {
            ValueType::I8 => -0x80,
            ValueType::I16 => -0x8000,
            ValueType::I32 => -0x8000_0000,
            ValueType::I64 => -0x8000_0000_0000_0000,
            ValueType::I128 => -0x8000_0000_0000_0000_0000_0000_0000_0000,
            ValueType::Isize => isize::MIN as int,
            _ => 0,
        }
    }

    /// The greatest value of an integer type.
    pub open spec fn upper(self) -> int {
        match self {
            ValueType::I8 => 0x7f,
            ValueType::I16 => 0x7fff,
            ValueType::I32 => 0x7fff_ffff,
            ValueType::I64 => 0x7fff_ffff_ffff_ffff,
            ValueType::U8 => 0xff,
            ValueType::U16 => 0xffff,
            ValueType::U32 => 0xffff_ffff,
            ValueType::U64 => 0xffff_ffff_ffff_ffff,
            ValueType::I128 => 0x7fff_ffff_ffff_ffff_ffff_ffff_ffff_ffff,
            ValueType::U128 => 0xffff_ffff_ffff_ffff_ffff_ffff_ffff_ffff,
            ValueType::Isize => isize::MAX as int,
            ValueType::Usize => usize::MAX as int,
            _ => 0,
        }
    }

    pub fn lower_bound(self) -> (r: i128)
        ensures
            r == self.lower(),
    {
        match self {
            ValueType::I8 => -0x80,
            ValueType::I16 => -0x8000,
            ValueType::I32 => -0x8000_0000,
            ValueType::I64 => -0x8000_0000_0000_0000,
            ValueType::I128 => i128::MIN,
            ValueType::Isize => isize::MIN as i128,
            _ => 0,
        }
    }

    pub fn upper_bound(self) -> (r: u128)
        ensures
            r == self.upper(),
    {
        match self {
            ValueType::I8 => 0x7f,
            ValueType::I16 => 0x7fff,
            ValueType::I32 => 0x7fff_ffff,
            ValueType::I64 => 0x7fff_ffff_ffff_ffff,
            ValueType::U8 => 0xff,
            ValueType::U16 => 0xffff,
            ValueType::U32 => 0xffff_ffff,
            ValueType::U64 => 0xffff_ffff_ffff_ffff,
            ValueType::I128 => 0x7fff_ffff_ffff_ffff_ffff_ffff_ffff_ffff,
            ValueType::U128 => u128::MAX,
            ValueType::Isize => isize::MAX as u128,
            ValueType::Usize => usize::MAX as u128,
            _ => 0,
        }
    }

    /// Looks a type up by its name; `None` where the registry has no such
    /// type.
    pub fn from_name(name: &str) -> (r: Option<ValueType>)
        ensures
            r == type_of_name(name@),
    {
        let v = to_chars(name);
        let n: usize = v.len();
        assert(v@.subrange(0, n as int) =~= name@);
        if range_equals(&v, 0, n, "i8") {
            Some(ValueType::I8)
        } else if range_equals(&v, 0, n, "i16") {
            Some(ValueType::I16)
        } else if range_equals(&v, 0, n, "i32") {
            Some(ValueType::I32)
        } else if range_equals(&v, 0, n, "i64") {
            Some(ValueType::I64)
        } else if range_equals(&v, 0, n, "u8") {
            Some(ValueType::U8)
        } else if range_equals(&v, 0, n, "u16") {
            Some(ValueType::U16)
        } else if range_equals(&v, 0, n, "u32") {
            Some(ValueType::U32)
        } else if range_equals(&v, 0, n, "u64") {
            Some(ValueType::U64)
        } else if range_equals(&v, 0, n, "i128") {
            Some(ValueType::I128)
        } else if range_equals(&v, 0, n, "u128") {
            Some(ValueType::U128)
        } else if range_equals(&v, 0, n, "isize") {
            Some(ValueType::Isize)
        } else if range_equals(&v, 0, n, "usize") {
            Some(ValueType::Usize)
        } else if range_equals(&v, 0, n, "char") {
            Some(ValueType::Char)
        } else if range_equals(&v, 0, n, "bool") {
            Some(ValueType::Bool)
        } else if range_equals(&v, 0, n, "String") {
            Some(ValueType::Text)
        } else {
            None
        }
    }
}

/// The registry: the type that each supported name stands for.
pub open spec fn type_of_name(name: Seq<char>) -> Option<ValueType> {
    if name == "i8"@ {
        Some(ValueType::I8)
    } else if name == "i16"@ {
        Some(ValueType::I16)
    } else if name == "i32"@ {
        Some(ValueType::I32)
    } else if name == "i64"@ {
        Some(ValueType::I64)
    } else if name == "u8"@ {
        Some(ValueType::U8)
    } else if name == "u16"@ {
        Some(ValueType::U16)
    } else if name == "u32"@ {
        Some(ValueType::U32)
    } else if name == "u64"@ {
        Some(ValueType::U64)
    } else if name == "i128"@ {
        Some(ValueType::I128)
    } else if name == "u128"@ {
        Some(ValueType::U128)
    } else if name == "isize"@ {
        Some(ValueType::Isize)
    } else if name == "usize"@ {
        Some(ValueType::Usize)
    } else if name == "char"@ {
        Some(ValueType::Char)
    } else if name == "bool"@ {
        Some(ValueType::Bool)
    } else if name == "String"@ {
        Some(ValueType::Text)
    } else {
        None
    }
}

/// A value of one of the supported types.
#[derive(Clone, Debug, PartialEq, Eq)]
pub enum Value {
    Int(i128),
    /// An integer beyond the signed range.
    Unsigned(u128),
    Bool(bool),
    Char(char),
    Text(String),
}

pub ghost enum ValueModel {
    Int(int),
    Bool(bool),
    Char(char),
    Text(Seq<char>),
}

impl View for Value {
    type V = ValueModel;

    open spec fn view(&self) -> ValueModel {
        match self {
            Value::Int(i) => ValueModel::Int(*i as int),
            Value::Unsigned(n) => ValueModel::Int(*n as int),
            Value::Bool(b) => ValueModel::Bool(*b),
            Value::Char(c) => ValueModel::Char(*c),
            Value::Text(t) => ValueModel::Text(t@),
        }
    }
}

/// Whether `v` is a value of type `ty`.
pub open spec fn has_type(v: ValueModel, ty: ValueType) -> bool {
    match v {
        ValueModel::Int(i) => ty.is_integer() && ty.lower() <= i <= ty.upper(),
        ValueModel::Bool(_) => ty == ValueType::Bool,
        ValueModel::Char(_) => ty == ValueType::Char,
        ValueModel::Text(_) => ty == ValueType::Text,
    }
}

pub open spec fn is_digit(c: char) -> bool {
    '0' <= c <= '9'
}

pub open spec fn digit_value(c: char) -> nat {
    (c as int - '0' as int) as nat
}

pub open spec fn all_digits(s: Seq<char>) -> bool {
    forall|i: int| 0 <= i < s.len() ==> is_digit(#[trigger] s[i])
}

/// The number that a run of decimal digits spells.
pub open spec fn decimal_value(s: Seq<char>) -> nat
    decreases s.len(),
{
    if s.len() == 0 {
        0
    } else {
        decimal_value(s.drop_last()) * 10 + digit_value(s.last())
    }
}

pub open spec fn reason_empty() -> Seq<char> {
    "cannot parse integer from empty string"@
}

pub open spec fn reason_invalid_digit() -> Seq<char> {
    "invalid digit found in string"@
}

pub open spec fn reason_too_large() -> Seq<char> {
    "number too large to fit in target type"@
}

pub open spec fn reason_too_small() -> Seq<char> {
    "number too small to fit in target type"@
}

pub open spec fn reason_not_bool() -> Seq<char> {
    "provided string was not `true` or `false`"@
}

pub open spec fn reason_empty_char() -> Seq<char> {
    "cannot parse char from empty string"@
}

pub open spec fn reason_many_chars() -> Seq<char> {
    "too many characters in string"@
}

/// The length of the sign that `s` starts with: a plus, or for a signed
/// type a minus.
pub open spec fn sign_len(s: Seq<char>, signed: bool) -> int {
    if s.len() > 0 && (s[0] == '+' || (signed && s[0] == '-')) {
        1
    } else {
        0
    }
}

/// What the text `s` is as an integer of type `ty`, or why it is none.
pub open spec fn parse_integer(s: Seq<char>, ty: ValueType) -> Result<int, Seq<char>> {
    let start = sign_len(s, ty.lower() < 0);
    let body = s.skip(start);
    let v = if start == 1 && s[0] == '-' {
        -(decimal_value(body) as int)
    } else {
        decimal_value(body) as int
    };
    if s.len() == 0 {
        Err(reason_empty())
    } else if body.len() == 0 || !all_digits(body) {
        Err(reason_invalid_digit())
    } else if v > ty.upper() {
        Err(reason_too_large())
    } else if v < ty.lower() {
        Err(reason_too_small())
    } else {
        Ok(v)
    }
}

/// What the text `s` is as a value of type `ty`, or why it is none.
pub open spec fn parse_value(s: Seq<char>, ty: ValueType) -> Result<ValueModel, Seq<char>> {
    match ty {
        ValueType::Bool => if s == "true"@ {
            Ok(ValueModel::Bool(true))
        } else if s == "false"@ {
            Ok(ValueModel::Bool(false))
        } else {
            Err(reason_not_bool())
        },
        ValueType::Char => if s.len() == 1 {
            Ok(ValueModel::Char(s[0]))
        } else if s.len() == 0 {
            Err(reason_empty_char())
        } else {
            Err(reason_many_chars())
        },
        ValueType::Text => Ok(ValueModel::Text(s)),
        _ => match parse_integer(s, ty) {
            Ok(v) => Ok(ValueModel::Int(v)),
            Err(why) => Err(why),
        },
    }
}

pub open spec fn digit_char(d: nat) -> char {
    if d == 0 {
        '0'
    } else if d == 1 {
        '1'
    } else if d == 2 {
        '2'
    } else if d == 3 {
        '3'
    } else if d == 4 {
        '4'
    } else if d == 5 {
        '5'
    } else if d == 6 {
        '6'
    } else if d == 7 {
        '7'
    } else if d == 8 {
        '8'
    } else {
        '9'
    }
}

/// The decimal digits of `n`, without leading zeros.
pub open spec fn decimal_digits(n: nat) -> Seq<char>
    decreases n,
{
    if n < 10 {
        seq![digit_char(n)]
    } else {
        decimal_digits(n / 10).push(digit_char(n % 10))
    }
}

pub open spec fn render_integer(v: int) -> Seq<char> {
    if v < 0 {
        seq!['-'] + decimal_digits((-v) as nat)
    } else {
        decimal_digits(v as nat)
    }
}

/// The text of a value.
pub open spec fn render_value(v: ValueModel) -> Seq<char> {
    match v {
        ValueModel::Int(i) => render_integer(i),
        ValueModel::Bool(b) => if b {
            "true"@
        } else {
            "false"@
        },
        ValueModel::Char(c) => seq![c],
        ValueModel::Text(t) => t,
    }
}

fn digit_of(d: u128) -> (c: char)
    requires
        d < 10,
    ensures
        c == digit_char(d as nat),
{
    if d == 0 {
        '0'
    } else if d == 1 {
        '1'
    } else if d == 2 {
        '2'
    } else if d == 3 {
        '3'
    } else if d == 4 {
        '4'
    } else if d == 5 {
        '5'
    } else if d == 6 {
        '6'
    } else if d == 7 {
        '7'
    } else if d == 8 {
        '8'
    } else {
        '9'
    }
}

/// The decimal digits of a number.
pub fn digits_of(magnitude: u128) -> (digits: Vec<char>)
    ensures
        digits@ == decimal_digits(magnitude as nat),
{
    let mut digits: Vec<char> = Vec::new();
    digits.push(digit_of(magnitude % 10));
    let mut rest: u128 = magnitude / 10;
    assert(decimal_digits(magnitude as nat) =~= (if rest > 0 {
        decimal_digits(rest as nat)
    } else {
        Seq::empty()
    }) + digits@);
    while rest > 0
        invariant
            decimal_digits(magnitude as nat) == (if rest > 0 {
                decimal_digits(rest as nat)
            } else {
                Seq::empty()
            }) + digits@,
        decreases rest,
    {
        let ghost before = digits@;
        digits.insert(0, digit_of(rest % 10));
        assert(decimal_digits(rest as nat) + before =~= (if rest / 10 > 0 {
            decimal_digits((rest / 10) as nat)
        } else {
            Seq::empty()
        }) + digits@);
        rest = rest / 10;
    }
    assert(digits@ =~= Seq::<char>::empty() + digits@);
    digits
}

/// Renders an integer in decimal, with a minus sign where it is negative.
pub fn render_int(v: i128) -> (s: String)
    ensures
        s@ == render_integer(v as int),
{
    let magnitude: u128 = if v < 0 {
        ((-(v + 1)) as u128) + 1
    } else {
        v as u128
    };
    let mut digits = digits_of(magnitude);
    if v < 0 {
        let ghost before = digits@;
        digits.insert(0, '-');
        assert(digits@ =~= seq!['-'] + before);
    }
    let n: usize = digits.len();
    let s = text_of(&digits, 0, n);
    assert(digits@.subrange(0, n as int) =~= digits@);
    s
}

/// Renders an integer that is not negative in decimal.
pub fn render_unsigned(v: u128) -> (s: String)
    ensures
        s@ == render_integer(v as int),
{
    let digits = digits_of(v);
    let n: usize = digits.len();
    let s = text_of(&digits, 0, n);
    assert(digits@.subrange(0, n as int) =~= digits@);
    s
}

impl Value {
    /// Renders the value as text; this never fails.
    pub fn render(&self) -> (s: String)
        ensures
            s@ == render_value(self@),
    {
        match self {
            Value::Int(i) => render_int(*i),
            Value::Unsigned(n) => render_unsigned(*n),
            Value::Char(c) => {
                let mut s = String::new();
                push_char(&mut s, *c);
                assert(s@ =~= seq![*c]);
                s
            },
            Value::Bool(b) => if *b {
                String::from_str("true")
            } else {
                String::from_str("false")
            },
            Value::Text(t) => t.clone(),
        }
    }
}

pub fn is_digit_char(c: char) -> (r: bool)
    ensures
        r == is_digit(c),
{
    c >= '0' && c <= '9'
}

proof fn lemma_decimal_value_push(s: Seq<char>, c: char)
    ensures
        decimal_value(s.push(c)) == decimal_value(s) * 10 + digit_value(c),
{
    assert(s.push(c).drop_last() =~= s);
}

/// Reads decimal text: an optional sign, a minus only where `signed`, then
/// digits only. Hands out whether the sign is a minus, and the number that
/// the digits spell, or `None` where it is beyond 128 bits.
pub fn parse_magnitude(raw: &str, signed: bool) -> (r: Result<(bool, Option<u128>), String>)
    ensures
        ({
            let start = sign_len(raw@, signed);
            let body = raw@.skip(start);
            match r {
                Err(e) => if raw@.len() == 0 {
                    e@ == reason_empty()
                } else {
                    (body.len() == 0 || !all_digits(body)) && e@ == reason_invalid_digit()
                },
                Ok((negative, magnitude)) => raw@.len() > 0 && body.len() > 0 && all_digits(body)
                    && negative == (start == 1 && raw@[0] == '-') && match magnitude {
                    Some(m) => m == decimal_value(body),
                    None => decimal_value(body) > 0xffff_ffff_ffff_ffff_ffff_ffff_ffff_ffff,
                },
            }
        }),
{
    let v = to_chars(raw);
    let n: usize = v.len();
    if n == 0 {
        return Err(String::from_str("cannot parse integer from empty string"));
    }
    let first = v[0];
    let start: usize = if first == '+' || (signed && first == '-') {
        1
    } else {
        0
    };
    let negative = start == 1 && first == '-';
    let ghost body = raw@.skip(start as int);
    if start == n {
        return Err(String::from_str("invalid digit found in string"));
    }
    let mut acc: u128 = 0;
    let mut over = false;
    let mut i: usize = start;
    assert(body.take(0) =~= Seq::<char>::empty());
    while i < n
        invariant
            start <= i <= n,
            n == v@.len(),
            v@ == raw@,
            body == raw@.skip(start as int),
            sign_len(raw@, signed) == start,
            forall|j: int| 0 <= j < i - start ==> is_digit(#[trigger] body[j]),
            !over ==> acc == decimal_value(body.take(i - start)),
            over ==> decimal_value(body.take(i - start)) > 0xffff_ffff_ffff_ffff_ffff_ffff_ffff_ffff,
        decreases n - i,
    {
        let c = v[i];
        assert(body[i - start] == c);
        if !is_digit_char(c) {
            assert(body.len() == n - start);
            assert(!is_digit(body[i - start]));
            return Err(String::from_str("invalid digit found in string"));
        }
        let d: u128 = (c as u32 - '0' as u32) as u128;
        proof {
            lemma_decimal_value_push(body.take(i - start), c);
            assert(body.take(i - start).push(c) =~= body.take(i + 1 - start));
            assert(d == digit_value(c));
        }
        if !over {
            if acc > 34028236692093846346337460743176821145 || (acc
                == 34028236692093846346337460743176821145 && d > 5) {
                over = true;
            } else {
                acc = acc * 10 + d;
            }
        }
        i = i + 1;
    }
    assert(body.take(n - start) =~= body);
    assert(all_digits(body));
    if over {
        Ok((negative, None))
    } else {
        Ok((negative, Some(acc)))
    }
}

/// Parses an integer of a type of at most 128 bits with a sign, or fewer
/// without: the value is handed out as a signed number.
pub fn parse_int(raw: &str, ty: ValueType) -> (r: Result<i128, String>)
    requires
        ty.is_integer(),
        ty != ValueType::U128,
    ensures
        match (r, parse_integer(raw@, ty)) {
            (Ok(v), Ok(m)) => v == m,
            (Err(e), Err(why)) => e@ == why,
            _ => false,
        },
{
    let low: i128 = ty.lower_bound();
    let high: u128 = ty.upper_bound();
    match parse_magnitude(raw, low < 0) {
        Err(e) => Err(e),
        Ok((negative, None)) => if negative {
            Err(String::from_str("number too small to fit in target type"))
        } else {
            Err(String::from_str("number too large to fit in target type"))
        },
        Ok((negative, Some(m))) => if negative {
            let most: u128 = if low == i128::MIN {
                0x8000_0000_0000_0000_0000_0000_0000_0000
            } else {
                (-low) as u128
            };
            if m > most {
                Err(String::from_str("number too small to fit in target type"))
            } else if m == 0x8000_0000_0000_0000_0000_0000_0000_0000 {
                Ok(i128::MIN)
            } else {
                Ok(-(m as i128))
            }
        } else if m > high {
            Err(String::from_str("number too large to fit in target type"))
        } else {
            Ok(m as i128)
        },
    }
}

/// Parses an integer of the widest type without a sign.
pub fn parse_unsigned(raw: &str) -> (r: Result<u128, String>)
    ensures
        match (r, parse_integer(raw@, ValueType::U128)) {
            (Ok(v), Ok(m)) => v == m,
            (Err(e), Err(why)) => e@ == why,
            _ => false,
        },
{
    match parse_magnitude(raw, false) {
        Err(e) => Err(e),
        Ok((_, None)) => Err(String::from_str("number too large to fit in target type")),
        Ok((_, Some(m))) => Ok(m),
    }
}

/// Parses a value of type `ty` from text.
pub fn parse_text(raw: &str, ty: ValueType) -> (r: Result<Value, String>)
    ensures
        match (r, parse_value(raw@, ty)) {
            (Ok(v), Ok(m)) => v@ == m,
            (Err(e), Err(why)) => e@ == why,
            _ => false,
        },
        r matches Ok(v) ==> has_type(v@, ty),
{
    match ty {
        ValueType::Bool => {
            let v = to_chars(raw);
            let n: usize = v.len();
            assert(v@.subrange(0, n as int) =~= raw@);
            if range_equals(&v, 0, n, "true") {
                Ok(Value::Bool(true))
            } else if range_equals(&v, 0, n, "false") {
                Ok(Value::Bool(false))
            } else {
                Err(String::from_str("provided string was not `true` or `false`"))
            }
        },
        ValueType::Char => {
            let v = to_chars(raw);
            if v.len() == 1 {
                Ok(Value::Char(v[0]))
            } else if v.len() == 0 {
                Err(String::from_str("cannot parse char from empty string"))
            } else {
                Err(String::from_str("too many characters in string"))
            }
        },
        ValueType::Text => Ok(Value::Text(String::from_str(raw))),
        ValueType::U128 => match parse_unsigned(raw) {
            Ok(n) => Ok(Value::Unsigned(n)),
            Err(why) => Err(why),
        },
        _ => match parse_int(raw, ty) {
            Ok(i) => Ok(Value::Int(i)),
            Err(why) => Err(why),
        },
    }
}

/// The digits of a number are digits, and spell that number.
pub proof fn lemma_digits_spell_number(n: nat)
    ensures
        decimal_digits(n).len() >= 1,
        all_digits(decimal_digits(n)),
        decimal_value(decimal_digits(n)) == n,
    decreases n,
{
    if n < 10 {
        let s = seq![digit_char(n)];
        assert(s.drop_last() =~= Seq::<char>::empty());
        assert(decimal_value(s.drop_last()) == 0);
        assert(s.last() == digit_char(n));
    } else {
        lemma_digits_spell_number(n / 10);
        lemma_decimal_value_push(decimal_digits(n / 10), digit_char(n % 10));
    }
}

/// The text of an integer of a type parses back, as that type, to the same
/// integer.
pub proof fn lemma_integer_round_trip(v: int, ty: ValueType)
    requires
        ty.is_integer(),
        ty.lower() <= v <= ty.upper(),
    ensures
        parse_integer(render_integer(v), ty) == Ok::<int, Seq<char>>(v),
{
    let s = render_integer(v);
    if v >= 0 {
        lemma_digits_spell_number(v as nat);
        assert(is_digit(s[0]));
        assert(s.skip(0) =~= s);
    } else {
        lemma_digits_spell_number((-v) as nat);
        assert(s[0] == '-');
        assert(s.skip(1) =~= decimal_digits((-v) as nat));
    }
}

/// The text of a value of a type parses back, as that type, to the same
/// value.
pub proof fn lemma_value_round_trip(v: ValueModel, ty: ValueType)
    requires
        has_type(v, ty),
    ensures
        parse_value(render_value(v), ty) == Ok::<ValueModel, Seq<char>>(v),
{
    match v {
        ValueModel::Int(i) => {
            lemma_integer_round_trip(i, ty);
        },
        ValueModel::Bool(b) => {
            reveal_strlit("true");
            reveal_strlit("false");
            assert("true"@.len() != "false"@.len());
        },
        ValueModel::Char(c) => {},
        ValueModel::Text(t) => {},
    }
}

} // verus!
