//! The wire grammar shared with the remote services.
//!
//! Responses of the administrative API and of the authorization services
//! carry small JSON objects.  This module defines the exact shape this core
//! reads — an object of scalar fields (strings with the standard escapes,
//! integers of at most eighteen digits, `true`, `false`, `null`) and of
//! nested objects of such scalars, one level deep — and a verified parser
//! for it.  Any body outside this shape is reported as unparseable, and the
//! callers degrade to a transport-failure result carrying the raw payload;
//! nothing panics on malformed input.

use vstd::prelude::*;
use crate::text::chars_of;
use crate::text::str_eq;

verus! {

/// A scalar of the wire grammar, at the specification level.
pub enum ScalarV {
    Null,
    Bool(bool),
    Int(int),
    Text(Seq<char>),
}

/// A field value of the wire grammar, at the specification level: a scalar
/// or a one-level object of scalars.
pub enum ValueV {
    Scalar(ScalarV),
    Object(Seq<(Seq<char>, ScalarV)>),
}

/// A parsed scalar.
pub enum JsonScalar {
    Null,
    Bool(bool),
    Int(i64),
    Text(String),
}

impl View for JsonScalar {
    type V = ScalarV;

    open spec fn view(&self) -> ScalarV {
        match self {
            JsonScalar::Null => ScalarV::Null,
            JsonScalar::Bool(b) => ScalarV::Bool(*b),
            JsonScalar::Int(n) => ScalarV::Int(*n as int),
            JsonScalar::Text(s) => ScalarV::Text(s@),
        }
    }
}

/// A parsed field value.
pub enum JsonValue {
    Scalar(JsonScalar),
    Object(Vec<(String, JsonScalar)>),
}

/// The view of a sequence of parsed scalar members.
pub open spec fn scalar_members_view(m: Seq<(String, JsonScalar)>) -> Seq<(Seq<char>, ScalarV)> {
    Seq::new(m.len(), |k: int| (m[k].0@, m[k].1@))
}

/// The view of a sequence of parsed top-level members.
pub open spec fn members_view(m: Seq<(String, JsonValue)>) -> Seq<(Seq<char>, ValueV)> {
    Seq::new(m.len(), |k: int| (m[k].0@, m[k].1@))
}

impl View for JsonValue {
    type V = ValueV;

    open spec fn view(&self) -> ValueV {
        match self {
            JsonValue::Scalar(s) => ValueV::Scalar(s@),
            JsonValue::Object(m) => ValueV::Object(scalar_members_view(m@)),
        }
    }
}

/// Whether `c` is insignificant whitespace of the grammar.
pub open spec fn is_ws(c: char) -> bool {
    c == ' ' || c == '\t' || c == '\n' || c == '\r'
}

/// The first position at or after `i` holding no whitespace.
pub open spec fn skip_ws(s: Seq<char>, i: nat) -> nat
    decreases s.len() - i,
{
    if i < s.len() && is_ws(s[i as int]) {
        skip_ws(s, i + 1)
    } else {
        i
    }
}

/// The character an escape introducer stands for, if it is one the
/// grammar knows.
pub open spec fn unescape(c: char) -> Option<char> {
    if c == '"' {
        Some('"')
    } else if c == '\\' {
        Some('\\')
    } else if c == '/' {
        Some('/')
    } else if c == 'b' {
        Some('\u{8}')
    } else if c == 'f' {
        Some('\u{c}')
    } else if c == 'n' {
        Some('\n')
    } else if c == 'r' {
        Some('\r')
    } else if c == 't' {
        Some('\t')
    } else {
        None
    }
}

/// The body of a quoted string from position `i` (past the opening quote),
/// with `acc` the characters already read: the decoded text and the
/// position past the closing quote.
pub open spec fn str_body(s: Seq<char>, i: nat, acc: Seq<char>) -> Option<(Seq<char>, nat)>
    decreases s.len() - i,
{
    if i >= s.len() {
        None
    } else if s[i as int] == '"' {
        Some((acc, (i + 1) as nat))
    } else if s[i as int] == '\\' {
        if i + 1 < s.len() {
            match unescape(s[i + 1 as int]) {
                Some(c) => str_body(s, i + 2, acc.push(c)),
                None => None,
            }
        } else {
            None
        }
    } else if (s[i as int] as u32) < 32 {
        None
    } else {
        str_body(s, i + 1, acc.push(s[i as int]))
    }
}

/// A quoted string at position `i`.
pub open spec fn parse_qstring(s: Seq<char>, i: nat) -> Option<(Seq<char>, nat)> {
    if i < s.len() && s[i as int] == '"' {
        str_body(s, i + 1, Seq::empty())
    } else {
        None
    }
}

/// Whether `c` is a decimal digit.
pub open spec fn is_digit(c: char) -> bool {
    48 <= c as u32 && c as u32 <= 57
}

/// The value of a decimal digit.
pub open spec fn digit_val(c: char) -> nat {
    (c as u32 - 48) as nat
}

/// Ten to the `n`.
pub open spec fn pow10(n: nat) -> nat
    decreases n,
{
    if n == 0 {
        1
    } else {
        10 * pow10((n - 1) as nat)
    }
}

/// A run of decimal digits from `i`, at most eighteen in all, with `acc`
/// the value and `cnt` the count already read: the value and the position
/// past the run.  Longer runs are outside the grammar.
pub open spec fn digits_body(s: Seq<char>, i: nat, acc: nat, cnt: nat) -> Option<(nat, nat)>
    decreases s.len() - i,
{
    if i < s.len() && is_digit(s[i as int]) {
        if cnt >= 18 {
            None
        } else {
            digits_body(s, i + 1, acc * 10 + digit_val(s[i as int]), cnt + 1)
        }
    } else if cnt == 0 {
        None
    } else {
        Some((acc, i))
    }
}

pub proof fn lemma_pow10_mono(a: nat, b: nat)
    requires
        a <= b,
    ensures
        pow10(a) <= pow10(b),
    decreases b,
{
    if a < b {
        lemma_pow10_mono(a, (b - 1) as nat);
        assert(pow10(b) == 10 * pow10((b - 1) as nat));
    }
}

/// A signed integer at position `i`.
pub open spec fn parse_int(s: Seq<char>, i: nat) -> Option<(int, nat)> {
    if i < s.len() && s[i as int] == '-' {
        match digits_body(s, i + 1, 0, 0) {
            Some((v, j)) => Some((-(v as int), j)),
            None => None,
        }
    } else {
        match digits_body(s, i, 0, 0) {
            Some((v, j)) => Some((v as int, j)),
            None => None,
        }
    }
}

/// Whether the characters of `lit` stand at position `i` of `s`.
pub open spec fn lit_at(s: Seq<char>, i: nat, lit: Seq<char>) -> bool {
    i + lit.len() <= s.len() && s.subrange(i as int, i + lit.len() as int) == lit
}

/// A scalar at position `i`: a quoted string, an integer, or one of the
/// literal words.
pub open spec fn parse_scalar(s: Seq<char>, i: nat) -> Option<(ScalarV, nat)> {
    if i >= s.len() {
        None
    } else if s[i as int] == '"' {
        match parse_qstring(s, i) {
            Some((t, j)) => Some((ScalarV::Text(t), j)),
            None => None,
        }
    } else if s[i as int] == '-' || is_digit(s[i as int]) {
        match parse_int(s, i) {
            Some((v, j)) => Some((ScalarV::Int(v), j)),
            None => None,
        }
    } else if lit_at(s, i, "true"@) {
        Some((ScalarV::Bool(true), (i + 4) as nat))
    } else if lit_at(s, i, "false"@) {
        Some((ScalarV::Bool(false), (i + 5) as nat))
    } else if lit_at(s, i, "null"@) {
        Some((ScalarV::Null, (i + 4) as nat))
    } else {
        None
    }
}

/// The members of an object of scalars, from position `i` (past the
/// opening brace, before the first key), with `acc` the members already
/// read: the members and the position past the closing brace.  The guard
/// on the recursion restates that a member consumes at least one
/// character, which every parse does.
pub open spec fn flat_members(s: Seq<char>, i: nat, acc: Seq<(Seq<char>, ScalarV)>) -> Option<
    (Seq<(Seq<char>, ScalarV)>, nat),
>
    decreases s.len() - i,
{
    let i0 = skip_ws(s, i);
    match parse_qstring(s, i0) {
        None => None,
        Some((key, i1)) => {
            let i2 = skip_ws(s, i1);
            if i2 < s.len() && s[i2 as int] == ':' {
                let i3 = skip_ws(s, (i2 + 1) as nat);
                match parse_scalar(s, i3) {
                    None => None,
                    Some((v, i4)) => {
                        let acc2 = acc.push((key, v));
                        let i5 = skip_ws(s, i4);
                        if i5 < s.len() && s[i5 as int] == ',' {
                            if s.len() - (i5 + 1) < s.len() - i {
                                flat_members(s, (i5 + 1) as nat, acc2)
                            } else {
                                None
                            }
                        } else if i5 < s.len() && s[i5 as int] == '}' {
                            Some((acc2, (i5 + 1) as nat))
                        } else {
                            None
                        }
                    },
                }
            } else {
                None
            }
        },
    }
}

/// A field value at position `i`: a scalar, or a one-level object.
pub open spec fn parse_value(s: Seq<char>, i: nat) -> Option<(ValueV, nat)> {
    if i < s.len() && s[i as int] == '{' {
        let i1 = skip_ws(s, (i + 1) as nat);
        if i1 < s.len() && s[i1 as int] == '}' {
            Some((ValueV::Object(Seq::empty()), (i1 + 1) as nat))
        } else {
            match flat_members(s, (i + 1) as nat, Seq::empty()) {
                Some((m, j)) => Some((ValueV::Object(m), j)),
                None => None,
            }
        }
    } else {
        match parse_scalar(s, i) {
            Some((v, j)) => Some((ValueV::Scalar(v), j)),
            None => None,
        }
    }
}

/// The members of the top-level object, from position `i` (past the
/// opening brace, before the first key), as `flat_members` but with
/// one-level objects allowed as values.
pub open spec fn top_members(s: Seq<char>, i: nat, acc: Seq<(Seq<char>, ValueV)>) -> Option<
    (Seq<(Seq<char>, ValueV)>, nat),
>
    decreases s.len() - i,
{
    let i0 = skip_ws(s, i);
    match parse_qstring(s, i0) {
        None => None,
        Some((key, i1)) => {
            let i2 = skip_ws(s, i1);
            if i2 < s.len() && s[i2 as int] == ':' {
                let i3 = skip_ws(s, (i2 + 1) as nat);
                match parse_value(s, i3) {
                    None => None,
                    Some((v, i4)) => {
                        let acc2 = acc.push((key, v));
                        let i5 = skip_ws(s, i4);
                        if i5 < s.len() && s[i5 as int] == ',' {
                            if s.len() - (i5 + 1) < s.len() - i {
                                top_members(s, (i5 + 1) as nat, acc2)
                            } else {
                                None
                            }
                        } else if i5 < s.len() && s[i5 as int] == '}' {
                            Some((acc2, (i5 + 1) as nat))
                        } else {
                            None
                        }
                    },
                }
            } else {
                None
            }
        },
    }
}

/// The whole document: one object, surrounded by whitespace only.
pub open spec fn parse_document(s: Seq<char>) -> Option<Seq<(Seq<char>, ValueV)>> {
    let i0 = skip_ws(s, 0);
    if i0 < s.len() && s[i0 as int] == '{' {
        let i1 = skip_ws(s, (i0 + 1) as nat);
        if i1 < s.len() && s[i1 as int] == '}' {
            if skip_ws(s, (i1 + 1) as nat) == s.len() {
                Some(Seq::empty())
            } else {
                None
            }
        } else {
            match top_members(s, (i0 + 1) as nat, Seq::empty()) {
                Some((m, j)) => {
                    if skip_ws(s, j) == s.len() {
                        Some(m)
                    } else {
                        None
                    }
                },
                None => None,
            }
        }
    } else {
        None
    }
}

/// The value of the first member named `k` among top-level members.
pub open spec fn find_key(m: Seq<(Seq<char>, ValueV)>, k: Seq<char>) -> Option<ValueV>
    decreases m.len(),
{
    if m.len() == 0 {
        None
    } else if m[0].0 == k {
        Some(m[0].1)
    } else {
        find_key(m.drop_first(), k)
    }
}

/// The value of the first member named `k` among scalar members.
pub open spec fn find_scalar(m: Seq<(Seq<char>, ScalarV)>, k: Seq<char>) -> Option<ScalarV>
    decreases m.len(),
{
    if m.len() == 0 {
        None
    } else if m[0].0 == k {
        Some(m[0].1)
    } else {
        find_scalar(m.drop_first(), k)
    }
}

// ------------------------------------------------------------------
// Executable parser
// ------------------------------------------------------------------

fn is_ws_exec(c: char) -> (r: bool)
    ensures
        r == is_ws(c),
{
    c == ' ' || c == '\t' || c == '\n' || c == '\r'
}

fn skip_ws_exec(s: &Vec<char>, i: usize) -> (r: usize)
    requires
        i <= s@.len(),
    ensures
        r as nat == skip_ws(s@, i as nat),
        i <= r <= s@.len(),
{
    let mut j = i;
    loop
        invariant_except_break
            i <= j <= s@.len(),
            skip_ws(s@, i as nat) == skip_ws(s@, j as nat),
        ensures
            i <= j <= s@.len(),
            j as nat == skip_ws(s@, i as nat),
        decreases s@.len() - j,
    {
        if j < s.len() {
            let c = s[j];
            if is_ws_exec(c) {
                assert(skip_ws(s@, j as nat) == skip_ws(s@, (j + 1) as nat));
                j += 1;
                continue ;
            }
        }
        assert(skip_ws(s@, j as nat) == j as nat);
        break ;
    }
    j
}

fn unescape_exec(c: char) -> (r: Option<char>)
    ensures
        r == unescape(c),
{
    if c == '"' {
        Some('"')
    } else if c == '\\' {
        Some('\\')
    } else if c == '/' {
        Some('/')
    } else if c == 'b' {
        Some('\u{8}')
    } else if c == 'f' {
        Some('\u{c}')
    } else if c == 'n' {
        Some('\n')
    } else if c == 'r' {
        Some('\r')
    } else if c == 't' {
        Some('\t')
    } else {
        None
    }
}

fn parse_qstring_exec(s: &Vec<char>, i: usize) -> (r: Option<(String, usize)>)
    requires
        i <= s@.len(),
    ensures
        match r {
            Some((t, j)) => parse_qstring(s@, i as nat) == Some((t@, j as nat)) && i < j
                <= s@.len(),
            None => parse_qstring(s@, i as nat) is None,
        },
{
    if !(i < s.len() && s[i] == '"') {
        return None;
    }
    let mut j = i + 1;
    let mut acc = String::new();
    loop
        invariant
            i + 1 <= j <= s@.len(),
            i < s@.len() && s@[i as int] == '"',
            str_body(s@, (i + 1) as nat, Seq::empty()) == str_body(s@, j as nat, acc@),
        decreases s@.len() - j,
    {
        let ghost pj = j as nat;
        let ghost pacc = acc@;
        if j >= s.len() {
            assert(str_body(s@, pj, pacc) is None);
            return None;
        }
        let c = s[j];
        if c == '"' {
            assert(str_body(s@, pj, pacc) == Some((pacc, pj + 1)));
            return Some((acc, j + 1));
        } else if c == '\\' {
            if j + 1 >= s.len() {
                assert(str_body(s@, pj, pacc) is None);
                return None;
            }
            match unescape_exec(s[j + 1]) {
                Some(c2) => {
                    acc.push(c2);
                    j += 2;
                    assert(str_body(s@, pj, pacc) == str_body(s@, pj + 2, pacc.push(c2)));
                },
                None => {
                    assert(str_body(s@, pj, pacc) is None);
                    return None;
                },
            }
        } else if (c as u32) < 32 {
            assert(str_body(s@, pj, pacc) is None);
            return None;
        } else {
            acc.push(c);
            j += 1;
            assert(str_body(s@, pj, pacc) == str_body(s@, pj + 1, pacc.push(c)));
        }
    }
}

fn parse_uint_exec(s: &Vec<char>, i: usize) -> (r: Option<(u64, usize)>)
    requires
        i <= s@.len(),
    ensures
        match r {
            Some((v, j)) => digits_body(s@, i as nat, 0, 0) == Some((v as nat, j as nat)) && i
                < j <= s@.len() && v < 1000000000000000000u64,
            None => digits_body(s@, i as nat, 0, 0) is None,
        },
{
    proof {
        reveal_with_fuel(pow10, 19);
        assert(pow10(18) == 1000000000000000000);
    }
    let mut j = i;
    let mut acc: u64 = 0;
    let mut cnt: usize = 0;
    loop
        invariant
            i <= j <= s@.len(),
            cnt <= 18,
            (acc as nat) < pow10(cnt as nat),
            pow10(18) == 1000000000000000000,
            digits_body(s@, i as nat, 0, 0) == digits_body(s@, j as nat, acc as nat, cnt as nat),
            cnt == 0 ==> j == i && acc == 0,
            cnt != 0 ==> i < j,
        decreases s@.len() - j,
    {
        let ghost pj = j as nat;
        let ghost pacc = acc as nat;
        let ghost pcnt = cnt as nat;
        if j < s.len() {
            let c = s[j];
            let u = c as u32;
            if 48 <= u && u <= 57 {
                assert(is_digit(s@[pj as int]));
                if cnt >= 18 {
                    assert(digits_body(s@, pj, pacc, pcnt) is None);
                    return None;
                }
                proof {
                    lemma_pow10_mono(cnt as nat, 17);
                    assert(pacc * 10 + digit_val(c) < pow10((pcnt + 1) as nat)) by {
                        assert(pacc * 10 <= (pow10(pcnt) - 1) * 10) by (nonlinear_arith)
                            requires
                                pacc < pow10(pcnt),
                        ;
                        assert(pow10((pcnt + 1) as nat) == 10 * pow10(pcnt));
                        assert(digit_val(c) <= 9);
                    }
                    assert(pow10(17) == 100000000000000000);
                }
                let d = (u - 48) as u64;
                assert(d == digit_val(c));
                acc = acc * 10 + d;
                cnt += 1;
                j += 1;
                assert(digits_body(s@, pj, pacc, pcnt) == digits_body(
                    s@,
                    pj + 1,
                    pacc * 10 + digit_val(c),
                    pcnt + 1,
                ));
                continue ;
            }
        }
        if cnt == 0 {
            assert(digits_body(s@, pj, pacc, pcnt) is None);
            return None;
        }
        assert(digits_body(s@, pj, pacc, pcnt) == Some((pacc, pj)));
        proof {
            lemma_pow10_mono(cnt as nat, 18);
        }
        return Some((acc, j));
    }
}

fn parse_int_exec(s: &Vec<char>, i: usize) -> (r: Option<(i64, usize)>)
    requires
        i <= s@.len(),
    ensures
        match r {
            Some((v, j)) => parse_int(s@, i as nat) == Some((v as int, j as nat)) && i < j
                <= s@.len(),
            None => parse_int(s@, i as nat) is None,
        },
{
    if i < s.len() && s[i] == '-' {
        match parse_uint_exec(s, i + 1) {
            Some((v, j)) => Some((-(v as i64), j)),
            None => None,
        }
    } else {
        match parse_uint_exec(s, i) {
            Some((v, j)) => Some((v as i64, j)),
            None => None,
        }
    }
}

fn lit_at_exec(s: &Vec<char>, i: usize, lit: &str) -> (r: bool)
    requires
        i <= s@.len(),
    ensures
        r == lit_at(s@, i as nat, lit@),
{
    let lv = chars_of(lit);
    let n = s.len();
    if n < lv.len() || i > n - lv.len() {
        return false;
    }
    let mut k: usize = 0;
    while k < lv.len()
        invariant
            0 <= k <= lv@.len(),
            lv@ == lit@,
            n == s@.len(),
            i + lv@.len() <= s@.len(),
            forall|t: int| 0 <= t < k ==> s@[i + t] == lv@[t],
        decreases lv@.len() - k,
    {
        if s[i + k] != lv[k] {
            assert(s@.subrange(i as int, i + lit@.len() as int) != lit@) by {
                assert(s@.subrange(i as int, i + lit@.len() as int)[k as int] != lit@[k as int]);
            }
            return false;
        }
        k += 1;
    }
    assert(s@.subrange(i as int, i + lit@.len() as int) =~= lit@);
    true
}

fn parse_scalar_exec(s: &Vec<char>, i: usize) -> (r: Option<(JsonScalar, usize)>)
    requires
        i <= s@.len(),
    ensures
        match r {
            Some((v, j)) => parse_scalar(s@, i as nat) == Some((v@, j as nat)) && i < j
                <= s@.len(),
            None => parse_scalar(s@, i as nat) is None,
        },
{
    if i >= s.len() {
        return None;
    }
    let c = s[i];
    if c == '"' {
        match parse_qstring_exec(s, i) {
            Some((t, j)) => Some((JsonScalar::Text(t), j)),
            None => None,
        }
    } else if c == '-' || (48 <= c as u32 && c as u32 <= 57) {
        match parse_int_exec(s, i) {
            Some((v, j)) => Some((JsonScalar::Int(v), j)),
            None => None,
        }
    } else if lit_at_exec(s, i, "true") {
        proof {
            reveal_strlit("true");
        }
        Some((JsonScalar::Bool(true), i + 4))
    } else if lit_at_exec(s, i, "false") {
        proof {
            reveal_strlit("false");
        }
        Some((JsonScalar::Bool(false), i + 5))
    } else if lit_at_exec(s, i, "null") {
        proof {
            reveal_strlit("null");
        }
        Some((JsonScalar::Null, i + 4))
    } else {
        None
    }
}

fn flat_members_exec(s: &Vec<char>, i: usize) -> (r: Option<(Vec<(String, JsonScalar)>, usize)>)
    requires
        i <= s@.len(),
    ensures
        match r {
            Some((m, j)) => flat_members(s@, i as nat, Seq::empty()) == Some(
                (scalar_members_view(m@), j as nat),
            ) && j <= s@.len(),
            None => flat_members(s@, i as nat, Seq::empty()) is None,
        },
{
    let mut ci = i;
    let mut acc: Vec<(String, JsonScalar)> = Vec::new();
    proof {
        assert(scalar_members_view(acc@) =~= Seq::<(Seq<char>, ScalarV)>::empty());
    }
    loop
        invariant
            i <= ci <= s@.len(),
            flat_members(s@, i as nat, Seq::empty()) == flat_members(
                s@,
                ci as nat,
                scalar_members_view(acc@),
            ),
        decreases s@.len() - ci,
    {
        let ghost pci = ci as nat;
        let ghost paccv = scalar_members_view(acc@);
        let i0 = skip_ws_exec(s, ci);
        let (key, i1) = match parse_qstring_exec(s, i0) {
            Some(p) => p,
            None => {
                assert(flat_members(s@, pci, paccv) is None);
                return None;
            },
        };
        let i2 = skip_ws_exec(s, i1);
        if !(i2 < s.len() && s[i2] == ':') {
            assert(flat_members(s@, pci, paccv) is None);
            return None;
        }
        let i3 = skip_ws_exec(s, i2 + 1);
        let (v, i4) = match parse_scalar_exec(s, i3) {
            Some(p) => p,
            None => {
                assert(flat_members(s@, pci, paccv) is None);
                return None;
            },
        };
        let ghost keyv = key@;
        let ghost vv = v@;
        acc.push((key, v));
        proof {
            assert(scalar_members_view(acc@) =~= paccv.push((keyv, vv)));
        }
        let i5 = skip_ws_exec(s, i4);
        if i5 < s.len() && s[i5] == ',' {
            if s.len() - (i5 + 1) < s.len() - ci {
                assert(flat_members(s@, pci, paccv) == flat_members(
                    s@,
                    (i5 + 1) as nat,
                    paccv.push((keyv, vv)),
                ));
                ci = i5 + 1;
            } else {
                assert(flat_members(s@, pci, paccv) is None);
                return None;
            }
        } else if i5 < s.len() && s[i5] == '}' {
            assert(flat_members(s@, pci, paccv) == Some((paccv.push((keyv, vv)), (i5 + 1) as nat)));
            return Some((acc, i5 + 1));
        } else {
            assert(flat_members(s@, pci, paccv) is None);
            return None;
        }
    }
}

fn parse_value_exec(s: &Vec<char>, i: usize) -> (r: Option<(JsonValue, usize)>)
    requires
        i <= s@.len(),
    ensures
        match r {
            Some((v, j)) => parse_value(s@, i as nat) == Some((v@, j as nat)) && j <= s@.len(),
            None => parse_value(s@, i as nat) is None,
        },
{
    if i < s.len() && s[i] == '{' {
        let i1 = skip_ws_exec(s, i + 1);
        if i1 < s.len() && s[i1] == '}' {
            let empty_members: Vec<(String, JsonScalar)> = Vec::new();
            let v = JsonValue::Object(empty_members);
            assert(v@ == ValueV::Object(Seq::empty())) by {
                assert(scalar_members_view(Seq::empty()) =~= Seq::<(Seq<char>, ScalarV)>::empty());
            }
            Some((v, i1 + 1))
        } else {
            match flat_members_exec(s, i + 1) {
                Some((m, j)) => Some((JsonValue::Object(m), j)),
                None => None,
            }
        }
    } else {
        match parse_scalar_exec(s, i) {
            Some((v, j)) => Some((JsonValue::Scalar(v), j)),
            None => None,
        }
    }
}

fn top_members_exec(s: &Vec<char>, i: usize) -> (r: Option<(Vec<(String, JsonValue)>, usize)>)
    requires
        i <= s@.len(),
    ensures
        match r {
            Some((m, j)) => top_members(s@, i as nat, Seq::empty()) == Some(
                (members_view(m@), j as nat),
            ) && j <= s@.len(),
            None => top_members(s@, i as nat, Seq::empty()) is None,
        },
{
    let mut ci = i;
    let mut acc: Vec<(String, JsonValue)> = Vec::new();
    proof {
        assert(members_view(acc@) =~= Seq::<(Seq<char>, ValueV)>::empty());
    }
    loop
        invariant
            i <= ci <= s@.len(),
            top_members(s@, i as nat, Seq::empty()) == top_members(
                s@,
                ci as nat,
                members_view(acc@),
            ),
        decreases s@.len() - ci,
    {
        let ghost pci = ci as nat;
        let ghost paccv = members_view(acc@);
        let i0 = skip_ws_exec(s, ci);
        let (key, i1) = match parse_qstring_exec(s, i0) {
            Some(p) => p,
            None => {
                assert(top_members(s@, pci, paccv) is None);
                return None;
            },
        };
        let i2 = skip_ws_exec(s, i1);
        if !(i2 < s.len() && s[i2] == ':') {
            assert(top_members(s@, pci, paccv) is None);
            return None;
        }
        let i3 = skip_ws_exec(s, i2 + 1);
        let (v, i4) = match parse_value_exec(s, i3) {
            Some(p) => p,
            None => {
                assert(top_members(s@, pci, paccv) is None);
                return None;
            },
        };
        let ghost keyv = key@;
        let ghost vv = v@;
        acc.push((key, v));
        proof {
            assert(members_view(acc@) =~= paccv.push((keyv, vv)));
        }
        let i5 = skip_ws_exec(s, i4);
        if i5 < s.len() && s[i5] == ',' {
            if s.len() - (i5 + 1) < s.len() - ci {
                assert(top_members(s@, pci, paccv) == top_members(
                    s@,
                    (i5 + 1) as nat,
                    paccv.push((keyv, vv)),
                ));
                ci = i5 + 1;
            } else {
                assert(top_members(s@, pci, paccv) is None);
                return None;
            }
        } else if i5 < s.len() && s[i5] == '}' {
            assert(top_members(s@, pci, paccv) == Some((paccv.push((keyv, vv)), (i5 + 1) as nat)));
            return Some((acc, i5 + 1));
        } else {
            assert(top_members(s@, pci, paccv) is None);
            return None;
        }
    }
}

/// Parses a whole response body against the wire grammar.
pub fn parse_json_text(body: &str) -> (r: Option<Vec<(String, JsonValue)>>)
    ensures
        match r {
            Some(m) => parse_document(body@) == Some(members_view(m@)),
            None => parse_document(body@) is None,
        },
{
    let s = chars_of(body);
    let i0 = skip_ws_exec(&s, 0);
    if !(i0 < s.len() && s[i0] == '{') {
        return None;
    }
    let i1 = skip_ws_exec(&s, i0 + 1);
    if i1 < s.len() && s[i1] == '}' {
        let i2 = skip_ws_exec(&s, i1 + 1);
        if i2 == s.len() {
            let m: Vec<(String, JsonValue)> = Vec::new();
            assert(members_view(m@) =~= Seq::<(Seq<char>, ValueV)>::empty());
            Some(m)
        } else {
            None
        }
    } else {
        match top_members_exec(&s, i0 + 1) {
            Some((m, j)) => {
                let j2 = skip_ws_exec(&s, j);
                if j2 == s.len() {
                    Some(m)
                } else {
                    None
                }
            },
            None => None,
        }
    }
}

/// The first top-level member named `key`, if any.
pub fn lookup_member<'a>(m: &'a Vec<(String, JsonValue)>, key: &str) -> (r: Option<&'a JsonValue>)
    ensures
        match r {
            Some(v) => find_key(members_view(m@), key@) == Some(v@),
            None => find_key(members_view(m@), key@) is None,
        },
{
    let mut k: usize = 0;
    proof {
        assert(members_view(m@).skip(0) =~= members_view(m@));
    }
    while k < m.len()
        invariant
            0 <= k <= m@.len(),
            find_key(members_view(m@), key@) == find_key(
                members_view(m@).skip(k as int),
                key@,
            ),
        decreases m@.len() - k,
    {
        proof {
            assert(members_view(m@).skip(k as int)[0] == (m@[k as int].0@, m@[k as int].1@));
        }
        if str_eq(m[k].0.as_str(), key) {
            return Some(&m[k].1);
        }
        proof {
            assert(members_view(m@).skip(k as int).drop_first() =~= members_view(m@).skip(
                k as int + 1,
            ));
        }
        k += 1;
    }
    proof {
        assert(members_view(m@).skip(k as int) =~= Seq::<(Seq<char>, ValueV)>::empty());
    }
    None
}

/// The first scalar member named `key` of a one-level object, if any.
pub fn lookup_scalar<'a>(m: &'a Vec<(String, JsonScalar)>, key: &str) -> (r: Option<
    &'a JsonScalar,
>)
    ensures
        match r {
            Some(v) => find_scalar(scalar_members_view(m@), key@) == Some(v@),
            None => find_scalar(scalar_members_view(m@), key@) is None,
        },
{
    let mut k: usize = 0;
    proof {
        assert(scalar_members_view(m@).skip(0) =~= scalar_members_view(m@));
    }
    while k < m.len()
        invariant
            0 <= k <= m@.len(),
            find_scalar(scalar_members_view(m@), key@) == find_scalar(
                scalar_members_view(m@).skip(k as int),
                key@,
            ),
        decreases m@.len() - k,
    {
        proof {
            assert(scalar_members_view(m@).skip(k as int)[0] == (
                m@[k as int].0@,
                m@[k as int].1@,
            ));
        }
        if str_eq(m[k].0.as_str(), key) {
            return Some(&m[k].1);
        }
        proof {
            assert(scalar_members_view(m@).skip(k as int).drop_first()
                =~= scalar_members_view(m@).skip(k as int + 1));
        }
        k += 1;
    }
    proof {
        assert(scalar_members_view(m@).skip(k as int) =~= Seq::<(Seq<char>, ScalarV)>::empty());
    }
    None
}

// ------------------------------------------------------------------
// Encoder
// ------------------------------------------------------------------

/// The hexadecimal digit character for a value below sixteen.
pub open spec fn hex_digit_of(d: nat) -> char {
    if d == 0 {
        '0'
    } else if d == 1 {
        '1'
    } else if d == 2 {
        '2'
    } else if d == 3 {
        '3'
    } else if d == 4 {
        '4'
    } else if d == 5 {
        '5'
    } else if d == 6 {
        '6'
    } else if d == 7 {
        '7'
    } else if d == 8 {
        '8'
    } else if d == 9 {
        '9'
    } else if d == 10 {
        'a'
    } else if d == 11 {
        'b'
    } else if d == 12 {
        'c'
    } else if d == 13 {
        'd'
    } else if d == 14 {
        'e'
    } else {
        'f'
    }
}

/// The escaped rendering of one character inside a quoted string.
pub open spec fn escape_char(c: char) -> Seq<char> {
    if c == '"' {
        seq!['\\', '"']
    } else if c == '\\' {
        seq!['\\', '\\']
    } else if c == '\n' {
        seq!['\\', 'n']
    } else if c == '\r' {
        seq!['\\', 'r']
    } else if c == '\t' {
        seq!['\\', 't']
    } else if (c as u32) < 32 {
        seq!['\\', 'u', '0', '0', hex_digit_of((c as u32 / 16) as nat), hex_digit_of(
            (c as u32 % 16) as nat,
        )]
    } else {
        seq![c]
    }
}

/// The escaped rendering of a text.
pub open spec fn json_escape(s: Seq<char>) -> Seq<char>
    decreases s.len(),
{
    if s.len() == 0 {
        Seq::empty()
    } else {
        escape_char(s[0]) + json_escape(s.drop_first())
    }
}

pub proof fn lemma_json_escape_push(s: Seq<char>, c: char)
    ensures
        json_escape(s.push(c)) == json_escape(s) + escape_char(c),
    decreases s.len(),
{
    if s.len() == 0 {
        assert(s.push(c).drop_first() =~= Seq::<char>::empty());
        assert(s.push(c)[0] == c);
        assert(json_escape(s.push(c)) == escape_char(c) + json_escape(s.push(c).drop_first()));
        assert(json_escape(s.push(c)) =~= json_escape(s) + escape_char(c));
    } else {
        assert(s.push(c).drop_first() =~= s.drop_first().push(c));
        lemma_json_escape_push(s.drop_first(), c);
        assert(json_escape(s.push(c)) == escape_char(s.push(c)[0]) + json_escape(
            s.push(c).drop_first(),
        ));
        assert(s.push(c)[0] == s[0]);
        assert(json_escape(s.push(c)) =~= json_escape(s) + escape_char(c));
    }
}

/// A quoted, escaped text.
pub open spec fn quote_text(s: Seq<char>) -> Seq<char> {
    seq!['"'] + json_escape(s) + seq!['"']
}

/// The rendering of one scalar.
pub open spec fn render_scalar(v: ScalarV) -> Seq<char> {
    match v {
        ScalarV::Null => seq!['n', 'u', 'l', 'l'],
        ScalarV::Bool(b) => if b {
            seq!['t', 'r', 'u', 'e']
        } else {
            seq!['f', 'a', 'l', 's', 'e']
        },
        ScalarV::Int(n) => crate::text::dec_int(n),
        ScalarV::Text(t) => quote_text(t),
    }
}

/// The rendering of one object member.
pub open spec fn render_member(p: (Seq<char>, ScalarV)) -> Seq<char> {
    quote_text(p.0) + seq![':'] + render_scalar(p.1)
}

/// The comma-separated rendering of object members.
pub open spec fn render_members(m: Seq<(Seq<char>, ScalarV)>) -> Seq<char>
    decreases m.len(),
{
    if m.len() == 0 {
        Seq::empty()
    } else if m.len() == 1 {
        render_member(m[0])
    } else {
        render_member(m[0]) + seq![','] + render_members(m.drop_first())
    }
}

pub proof fn lemma_render_members_push(m: Seq<(Seq<char>, ScalarV)>, p: (Seq<char>, ScalarV))
    ensures
        m.len() == 0 ==> render_members(m.push(p)) == render_member(p),
        m.len() > 0 ==> render_members(m.push(p)) == render_members(m) + seq![','] + render_member(
            p,
        ),
    decreases m.len(),
{
    if m.len() == 0 {
        assert(m.push(p)[0] == p);
    } else if m.len() == 1 {
        assert(m.push(p).drop_first() =~= m.drop_first().push(p));
        lemma_render_members_push(m.drop_first(), p);
        assert(render_members(m.push(p)) =~= render_members(m) + seq![','] + render_member(p));
    } else {
        assert(m.push(p).drop_first() =~= m.drop_first().push(p));
        lemma_render_members_push(m.drop_first(), p);
        assert(render_members(m.push(p)) =~= render_members(m) + seq![','] + render_member(p));
    }
}

/// The rendering of a whole object of scalar members.
pub open spec fn render_object(m: Seq<(Seq<char>, ScalarV)>) -> Seq<char> {
    seq!['{'] + render_members(m) + seq!['}']
}

fn hex_digit_exec(d: u32) -> (c: char)
    requires
        d < 16,
    ensures
        c == hex_digit_of(d as nat),
{
    if d == 0 {
        '0'
    } else if d == 1 {
        '1'
    } else if d == 2 {
        '2'
    } else if d == 3 {
        '3'
    } else if d == 4 {
        '4'
    } else if d == 5 {
        '5'
    } else if d == 6 {
        '6'
    } else if d == 7 {
        '7'
    } else if d == 8 {
        '8'
    } else if d == 9 {
        '9'
    } else if d == 10 {
        'a'
    } else if d == 11 {
        'b'
    } else if d == 12 {
        'c'
    } else if d == 13 {
        'd'
    } else if d == 14 {
        'e'
    } else {
        'f'
    }
}

/// Appends the escaped rendering of `s` to `out`.
pub fn append_escaped(out: &mut String, s: &str)
    ensures
        final(out)@ == old(out)@ + json_escape(s@),
{
    let v = crate::text::chars_of(s);
    let mut k: usize = 0;
    proof {
        assert(old(out)@ + json_escape(s@.subrange(0, 0)) =~= old(out)@);
    }
    while k < v.len()
        invariant
            0 <= k <= v@.len(),
            v@ == s@,
            out@ == old(out)@ + json_escape(s@.subrange(0, k as int)),
        decreases v@.len() - k,
    {
        let ghost prefix = s@.subrange(0, k as int);
        let c = v[k];
        if c == '"' {
            out.push('\\');
            out.push('"');
        } else if c == '\\' {
            out.push('\\');
            out.push('\\');
        } else if c == '\n' {
            out.push('\\');
            out.push('n');
        } else if c == '\r' {
            out.push('\\');
            out.push('r');
        } else if c == '\t' {
            out.push('\\');
            out.push('t');
        } else if (c as u32) < 32 {
            out.push('\\');
            out.push('u');
            out.push('0');
            out.push('0');
            out.push(hex_digit_exec(c as u32 / 16));
            out.push(hex_digit_exec(c as u32 % 16));
        } else {
            out.push(c);
        }
        proof {
            lemma_json_escape_push(prefix, c);
            assert(prefix.push(c) =~= s@.subrange(0, k + 1 as int));
            assert(out@ =~= old(out)@ + json_escape(s@.subrange(0, k + 1 as int)));
        }
        k += 1;
    }
    proof {
        assert(s@.subrange(0, v@.len() as int) =~= s@);
    }
}

/// Appends the quoted, escaped rendering of `s` to `out`.
pub fn append_quoted(out: &mut String, s: &str)
    ensures
        final(out)@ == old(out)@ + quote_text(s@),
{
    out.push('"');
    append_escaped(out, s);
    out.push('"');
    assert(out@ =~= old(out)@ + quote_text(s@));
}

/// Appends the rendering of one scalar to `out`.
fn append_scalar(out: &mut String, v: &JsonScalar)
    ensures
        final(out)@ == old(out)@ + render_scalar(v@),
{
    match v {
        JsonScalar::Null => {
            out.push('n');
            out.push('u');
            out.push('l');
            out.push('l');
            assert(out@ =~= old(out)@ + render_scalar(v@));
        },
        JsonScalar::Bool(b) => {
            if *b {
                out.push('t');
                out.push('r');
                out.push('u');
                out.push('e');
            } else {
                out.push('f');
                out.push('a');
                out.push('l');
                out.push('s');
                out.push('e');
            }
            assert(out@ =~= old(out)@ + render_scalar(v@));
        },
        JsonScalar::Int(n) => {
            let t = crate::text::render_i64(*n);
            out.append(t.as_str());
        },
        JsonScalar::Text(t) => {
            append_quoted(out, t.as_str());
        },
    }
}

/// Renders an object of scalar members in the wire grammar.
pub fn render_flat_object(m: &Vec<(String, JsonScalar)>) -> (r: String)
    ensures
        r@ == render_object(scalar_members_view(m@)),
{
    let mut out = String::new();
    out.push('{');
    let mut k: usize = 0;
    proof {
        assert(scalar_members_view(m@).subrange(0, 0) =~= Seq::<(Seq<char>, ScalarV)>::empty());
        assert(out@ =~= seq!['{'] + render_members(scalar_members_view(m@).subrange(0, 0)));
    }
    while k < m.len()
        invariant
            0 <= k <= m@.len(),
            out@ == seq!['{'] + render_members(scalar_members_view(m@).subrange(0, k as int)),
        decreases m@.len() - k,
    {
        let ghost prefix = scalar_members_view(m@).subrange(0, k as int);
        let ghost pair = scalar_members_view(m@)[k as int];
        if k > 0 {
            out.push(',');
        }
        append_quoted(&mut out, m[k].0.as_str());
        out.push(':');
        append_scalar(&mut out, &m[k].1);
        proof {
            lemma_render_members_push(prefix, pair);
            assert(prefix.push(pair) =~= scalar_members_view(m@).subrange(0, k + 1 as int));
            assert(out@ =~= seq!['{'] + render_members(
                scalar_members_view(m@).subrange(0, k + 1 as int),
            ));
        }
        k += 1;
    }
    out.push('}');
    proof {
        assert(scalar_members_view(m@).subrange(0, m@.len() as int) =~= scalar_members_view(m@));
        assert(out@ =~= render_object(scalar_members_view(m@)));
    }
    out
}

} // verus!
