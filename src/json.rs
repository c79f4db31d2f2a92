//! JSON text for the wire form: strings with their escapes, integers, and flat objects.
use vstd::prelude::*;
use vstd::string::StrSliceExecFns;

verus! {

/// A leaf of the wire form: the value under one key of a parameter bag.
pub enum WireValue {
    Null,
    Int(i64),
    Bool(bool),
    Str(String),
    /// The decimal `units / 10^scale`, written with a fractional part.
    Decimal(i64, u8),
}

/// The mathematical value of a [`WireValue`].
pub enum WireModel {
    Null,
    Int(int),
    Bool(bool),
    Str(Seq<char>),
    Decimal(int, nat),
}

impl View for WireValue {
    type V = WireModel;

    open spec fn view(&self) -> WireModel {
        match self {
            WireValue::Null => WireModel::Null,
            WireValue::Int(i) => WireModel::Int(*i as int),
            WireValue::Bool(b) => WireModel::Bool(*b),
            WireValue::Str(s) => WireModel::Str(s@),
            WireValue::Decimal(u, k) => WireModel::Decimal(*u as int, *k as nat),
        }
    }
}

pub open spec fn hex_digit(d: int) -> char {
    "0123456789abcdef"@[d]
}

/// The escape of one character inside a JSON string.
pub open spec fn escape_char(c: char) -> Seq<char> {
    if c == '"' {
        seq!['\\', '"']
    } else if c == '\\' {
        seq!['\\', '\\']
    } else if c == '\n' {
        seq!['\\', 'n']
    } else if c == '\r' {
        seq!['\\', 'r']
    } else if c == '\t' {
        seq!['\\', 't']
    } else if c == '\x08' {
        seq!['\\', 'b']
    } else if c == '\x0c' {
        seq!['\\', 'f']
    } else if (c as u32) < 0x20 {
        seq!['\\', 'u', '0', '0', hex_digit(((c as u32) / 16) as int), hex_digit(((c as u32) % 16) as int)]
    } else {
        seq![c]
    }
}

/// The escapes of all characters of `s`, in order.
pub open spec fn escape_text(s: Seq<char>) -> Seq<char>
    decreases s.len(),
{
    if s.len() == 0 {
        Seq::empty()
    } else {
        escape_text(s.drop_last()) + escape_char(s.last())
    }
}

/// `s` as a quoted JSON string.
pub open spec fn string_text(s: Seq<char>) -> Seq<char> {
    seq!['"'] + escape_text(s) + seq!['"']
}

/// The character of the decimal digit `d`.
pub open spec fn digit(d: int) -> char {
    "0123456789"@[d]
}

/// The decimal digits of `n`, without leading zeros.
pub open spec fn nat_text(n: nat) -> Seq<char>
    decreases n,
{
    if n < 10 {
        seq![digit(n as int)]
    } else {
        nat_text(n / 10).push(digit((n % 10) as int))
    }
}

/// `n` with its last `k` decimal digits dropped.
pub open spec fn shift_down(n: nat, k: nat) -> nat
    decreases k,
{
    if k == 0 {
        n
    } else {
        shift_down(n / 10, (k - 1) as nat)
    }
}

/// The last `k` decimal digits of `n`, with leading zeros.
pub open spec fn low_digits(n: nat, k: nat) -> Seq<char>
    decreases k,
{
    if k == 0 {
        Seq::empty()
    } else {
        low_digits(n / 10, (k - 1) as nat).push(digit((n % 10) as int))
    }
}

/// The notation of `units / 10^scale` with `scale` fractional digits, and a
/// single `0` after the point when `scale` is zero.
pub open spec fn decimal_text(units: int, scale: nat) -> Seq<char> {
    let a = if units < 0 { -units } else { units };
    let sign = if units < 0 { seq!['-'] } else { Seq::empty() };
    let frac = if scale == 0 { seq!['0'] } else { low_digits(a as nat, scale) };
    sign + nat_text(shift_down(a as nat, scale)) + seq!['.'] + frac
}

/// The decimal notation of `i`, with a leading `-` when negative.
pub open spec fn int_text(i: int) -> Seq<char> {
    if i < 0 {
        seq!['-'] + nat_text((-i) as nat)
    } else {
        nat_text(i as nat)
    }
}

/// The JSON text of one leaf value.
pub open spec fn value_text(v: WireModel) -> Seq<char> {
    match v {
        WireModel::Null => "null"@,
        WireModel::Int(i) => int_text(i),
        WireModel::Bool(b) => if b { "true"@ } else { "false"@ },
        WireModel::Str(s) => string_text(s),
        WireModel::Decimal(u, k) => decimal_text(u, k),
    }
}

/// The JSON text of one object member.
pub open spec fn entry_text(e: (Seq<char>, WireModel)) -> Seq<char> {
    string_text(e.0) + seq![':'] + value_text(e.1)
}

/// The members of an object, separated by commas.
pub open spec fn entries_text(es: Seq<(Seq<char>, WireModel)>) -> Seq<char>
    decreases es.len(),
{
    if es.len() == 0 {
        Seq::empty()
    } else if es.len() == 1 {
        entry_text(es[0])
    } else {
        entries_text(es.drop_last()) + seq![','] + entry_text(es.last())
    }
}

/// A flat JSON object made of the given members, in order.
pub open spec fn object_text(es: Seq<(Seq<char>, WireModel)>) -> Seq<char> {
    seq!['{'] + entries_text(es) + seq!['}']
}

/// Parts separated by commas.
pub open spec fn join_text(parts: Seq<Seq<char>>) -> Seq<char>
    decreases parts.len(),
{
    if parts.len() == 0 {
        Seq::empty()
    } else if parts.len() == 1 {
        parts[0]
    } else {
        join_text(parts.drop_last()) + seq![','] + parts.last()
    }
}

/// Relies on `String::push`: appends one character.
#[verifier::external_body]
pub(crate) fn push_char(s: &mut String, c: char)
    ensures
        final(s)@ == old(s)@.push(c),
{
    s.push(c)
}

/// Appends the decimal digits of `n`.
fn write_nat(out: &mut String, n: u64)
    ensures
        final(out)@ == old(out)@ + nat_text(n as nat),
    decreases n,
{
    let digits = "0123456789";
    proof {
        reveal_strlit("0123456789");
    }
    if n >= 10 {
        write_nat(out, n / 10);
    }
    let c = digits.get_char((n % 10) as usize);
    push_char(out, c);
    proof {
        if n < 10 {
            assert(nat_text(n as nat) =~= seq![c]);
        } else {
            assert(nat_text(n as nat) == nat_text((n / 10) as nat).push(c));
        }
    }
    assert(out@ =~= old(out)@ + nat_text(n as nat));
}

/// Appends the decimal notation of `i`.
pub fn write_int(out: &mut String, i: i64)
    ensures
        final(out)@ == old(out)@ + int_text(i as int),
{
    if i < 0 {
        push_char(out, '-');
        let n: u64 = ((-(i + 1)) as u64) + 1;
        write_nat(out, n);
        assert(out@ =~= old(out)@ + int_text(i as int));
    } else {
        write_nat(out, i as u64);
    }
}

/// Appends the last `k` decimal digits of `n`, with leading zeros.
fn write_low_digits(out: &mut String, n: u64, k: u8)
    ensures
        final(out)@ == old(out)@ + low_digits(n as nat, k as nat),
    decreases k,
{
    let digits = "0123456789";
    proof {
        reveal_strlit("0123456789");
    }
    if k > 0 {
        write_low_digits(out, n / 10, k - 1);
        let c = digits.get_char((n % 10) as usize);
        push_char(out, c);
        assert(out@ =~= old(out)@ + low_digits(n as nat, k as nat));
    } else {
        assert(out@ =~= old(out)@ + low_digits(n as nat, k as nat));
    }
}

/// Appends the notation of `units / 10^scale`.
pub fn write_decimal(out: &mut String, units: i64, scale: u8)
    ensures
        final(out)@ == old(out)@ + decimal_text(units as int, scale as nat),
{
    let a: u64 = if units < 0 {
        ((-(units + 1)) as u64) + 1
    } else {
        units as u64
    };
    if units < 0 {
        push_char(out, '-');
    }
    let mut q: u64 = a;
    let mut i: u8 = 0;
    while i < scale
        invariant
            i <= scale,
            shift_down(a as nat, scale as nat) == shift_down(q as nat, (scale - i) as nat),
        decreases scale - i,
    {
        q = q / 10;
        i = i + 1;
    }
    assert(shift_down(q as nat, 0) == q);
    write_nat(out, q);
    push_char(out, '.');
    if scale == 0 {
        push_char(out, '0');
    } else {
        write_low_digits(out, a, scale);
    }
    assert(out@ =~= old(out)@ + decimal_text(units as int, scale as nat));
}

/// Appends `s` as a quoted JSON string.
pub fn write_string(out: &mut String, s: &str)
    ensures
        final(out)@ == old(out)@ + string_text(s@),
{
    let hex = "0123456789abcdef";
    proof {
        reveal_strlit("0123456789abcdef");
    }
    push_char(out, '"');
    let ghost start = out@;
    let n = s.unicode_len();
    let mut i: usize = 0;
    while i < n
        invariant
            n == s@.len(),
            i <= n,
            out@ == start + escape_text(s@.subrange(0, i as int)),
            hex@ == "0123456789abcdef"@,
            hex@.len() == 16,
        decreases n - i,
    {
        let c = s.get_char(i);
        let ghost before = out@;
        if c == '"' {
            out.append("\\\"");
        } else if c == '\\' {
            out.append("\\\\");
        } else if c == '\n' {
            out.append("\\n");
        } else if c == '\r' {
            out.append("\\r");
        } else if c == '\t' {
            out.append("\\t");
        } else if c == '\x08' {
            out.append("\\b");
        } else if c == '\x0c' {
            out.append("\\f");
        } else if (c as u32) < 0x20 {
            out.append("\\u00");
            push_char(out, hex.get_char(((c as u32) / 16) as usize));
            push_char(out, hex.get_char(((c as u32) % 16) as usize));
        } else {
            push_char(out, c);
        }
        proof {
            reveal_strlit("\\\"");
            reveal_strlit("\\\\");
            reveal_strlit("\\n");
            reveal_strlit("\\r");
            reveal_strlit("\\t");
            reveal_strlit("\\b");
            reveal_strlit("\\f");
            reveal_strlit("\\u00");
            assert(out@ =~= before + escape_char(c));
            assert(s@.subrange(0, i + 1).drop_last() =~= s@.subrange(0, i as int));
        }
        i = i + 1;
    }
    push_char(out, '"');
    assert(s@.subrange(0, n as int) =~= s@);
    assert(out@ =~= old(out)@ + string_text(s@));
}

/// Appends the JSON text of one leaf value.
pub fn write_value(out: &mut String, v: &WireValue)
    ensures
        final(out)@ == old(out)@ + value_text(v@),
{
    match v {
        WireValue::Null => out.append("null"),
        WireValue::Int(i) => write_int(out, *i),
        WireValue::Bool(b) => {
            if *b {
                out.append("true");
            } else {
                out.append("false");
            }
        },
        WireValue::Str(s) => write_string(out, s.as_str()),
        WireValue::Decimal(u, k) => write_decimal(out, *u, *k),
    }
}

/// The model of a list of object members.
pub open spec fn entries_view(es: Seq<(String, WireValue)>) -> Seq<(Seq<char>, WireModel)> {
    es.map_values(|e: (String, WireValue)| (e.0@, e.1@))
}

/// Appends a flat JSON object made of the given members, in order.
pub fn write_object(out: &mut String, es: &Vec<(String, WireValue)>)
    ensures
        final(out)@ == old(out)@ + object_text(entries_view(es@)),
{
    push_char(out, '{');
    let ghost start = out@;
    let mut i: usize = 0;
    while i < es.len()
        invariant
            i <= es@.len(),
            out@ == start + entries_text(entries_view(es@.subrange(0, i as int))),
        decreases es@.len() - i,
    {
        if i > 0 {
            push_char(out, ',');
        }
        write_string(out, es[i].0.as_str());
        push_char(out, ':');
        write_value(out, &es[i].1);
        proof {
            let pre = entries_view(es@.subrange(0, i as int));
            let cur = entries_view(es@.subrange(0, i + 1));
            assert(cur.drop_last() =~= pre);
            assert(cur.last() == (es@[i as int].0@, es@[i as int].1@));
            if i == 0 {
                assert(cur.len() == 1);
                assert(out@ =~= start + entries_text(cur));
            } else {
                assert(out@ =~= start + entries_text(cur));
            }
        }
        i = i + 1;
    }
    push_char(out, '}');
    assert(es@.subrange(0, es@.len() as int) =~= es@);
    assert(out@ =~= old(out)@ + object_text(entries_view(es@)));
}

} // verus!
