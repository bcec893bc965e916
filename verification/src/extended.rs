//! The extended query flow on top of the dispatcher: render each bound
//! parameter as a SQL literal according to its declared type, substitute
//! the positional placeholders into the statement text, and hand the
//! result to the simple-flow dispatcher.
//!
//! Text parameters are quoted with every single quote doubled, and a
//! float's rendered text is accepted only when it is shaped like a plain
//! numeric literal, so no parameter value can smuggle statement text past
//! the substitution.

use vstd::prelude::*;
use vstd::string::StrSliceExecFns;
use vstd::string::StringExecFns;

use crate::error::NexusError;
use crate::translate::SessionResponse;

verus! {

/// Relies on String::push: appends one character to the end of the string.
#[verifier::external_body]
fn push_char(s: &mut String, c: char)
    ensures
        final(s)@ == old(s)@.push(c),
{
    s.push(c)
}

/// Whether `c` is a decimal digit.
pub open spec fn is_digit(c: char) -> bool {
    48 <= c as u32 <= 57
}

/// The value of a decimal digit.
pub open spec fn digit_val(c: char) -> nat {
    (c as u32 - 48) as nat
}

/// The digit character for a value below ten.
pub open spec fn digit_char(d: nat) -> char {
    if d == 0 {
        '0'
    } else if d == 1 {
        '1'
    } else if d == 2 {
        '2'
    } else if d == 3 {
        '3'
    } else if d == 4 {
        '4'
    } else if d == 5 {
        '5'
    } else if d == 6 {
        '6'
    } else if d == 7 {
        '7'
    } else if d == 8 {
        '8'
    } else {
        '9'
    }
}

/// The decimal digits of `n`, most significant first, no leading zeros.
pub open spec fn dec_digits(n: nat) -> Seq<char>
    decreases n,
{
    if n < 10 {
        seq![digit_char(n)]
    } else {
        dec_digits(n / 10).push(digit_char(n % 10))
    }
}

/// The decimal literal of an integer: a minus sign for a negative value,
/// then its digits.
pub open spec fn int_literal(v: int) -> Seq<char> {
    if v < 0 {
        seq!['-'] + dec_digits((-v) as nat)
    } else {
        dec_digits(v as nat)
    }
}

/// `s` with every single quote doubled, as SQL quoting asks.
pub open spec fn escaped(s: Seq<char>) -> Seq<char>
    decreases s.len(),
{
    if s.len() == 0 {
        Seq::empty()
    } else {
        escaped(s.drop_last()) + (if s.last() == '\'' {
            seq!['\'', '\'']
        } else {
            seq![s.last()]
        })
    }
}

/// The quoted SQL string literal for text `s`.
pub open spec fn quoted(s: Seq<char>) -> Seq<char> {
    seq!['\''] + escaped(s) + seq!['\'']
}

/// Whether `s` is shaped like a plain numeric literal: non-empty, digits
/// with at most sign, point and exponent characters.
pub open spec fn is_numeric_literal(s: Seq<char>) -> bool {
    s.len() > 0 && forall|i: int| 0 <= i < s.len() ==> is_numeric_char(#[trigger] s[i])
}

pub open spec fn is_numeric_char(c: char) -> bool {
    is_digit(c) || c == '-' || c == '+' || c == '.' || c == 'e' || c == 'E'
}

fn is_digit_exec(c: char) -> (r: bool)
    ensures
        r == is_digit(c),
{
    let u = c as u32;
    48 <= u && u <= 57
}

fn digit_char_exec(d: u64) -> (c: char)
    requires
        d < 10,
    ensures
        c == digit_char(d as nat),
{
    match d {
        0 => '0',
        1 => '1',
        2 => '2',
        3 => '3',
        4 => '4',
        5 => '5',
        6 => '6',
        7 => '7',
        8 => '8',
        _ => '9',
    }
}

/// Append the decimal digits of `n` to `s`.
fn push_dec_digits(s: &mut String, n: u64)
    ensures
        final(s)@ == old(s)@ + dec_digits(n as nat),
    decreases n,
{
    if n < 10 {
        push_char(s, digit_char_exec(n));
        proof {
            assert(old(s)@.push(digit_char(n as nat)) =~= old(s)@ + dec_digits(n as nat));
        }
    } else {
        push_dec_digits(s, n / 10);
        push_char(s, digit_char_exec(n % 10));
        proof {
            assert((old(s)@ + dec_digits(n as nat / 10)).push(digit_char(n as nat % 10)) =~= old(
                s,
            )@ + dec_digits(n as nat));
        }
    }
}

/// The decimal literal of `v` as text.
pub fn i64_literal(v: i64) -> (r: String)
    ensures
        r@ == int_literal(v as int),
{
    let mut s = String::new();
    if v < 0 {
        s.append("-");
        let mag: u64 = ((-(v + 1)) as u64) + 1;
        proof {
            assert(mag == -(v as int));
            reveal_strlit("-");
            assert("-"@ =~= seq!['-']);
        }
        push_dec_digits(&mut s, mag);
        proof {
            assert(s@ =~= seq!['-'] + dec_digits((-(v as int)) as nat));
        }
    } else {
        push_dec_digits(&mut s, v as u64);
        proof {
            assert(Seq::<char>::empty() + dec_digits(v as nat) =~= dec_digits(v as nat));
        }
    }
    s
}

/// The quoted, escaped SQL literal for text `t`.
pub fn quote_text(t: &str) -> (r: String)
    ensures
        r@ == quoted(t@),
{
    let n = t.unicode_len();
    let mut s = String::new();
    push_char(&mut s, '\'');
    let mut i: usize = 0;
    while i < n
        invariant
            i <= n,
            n == t@.len(),
            s@ == seq!['\''] + escaped(t@.take(i as int)),
        decreases n - i,
    {
        let c = t.get_char(i);
        if c == '\'' {
            push_char(&mut s, '\'');
            push_char(&mut s, '\'');
        } else {
            push_char(&mut s, c);
        }
        proof {
            assert(t@.take(i as int + 1).drop_last() =~= t@.take(i as int));
            assert(t@.take(i as int + 1).last() == t@[i as int]);
            assert(s@ =~= seq!['\''] + escaped(t@.take(i as int + 1)));
        }
        i = i + 1;
    }
    push_char(&mut s, '\'');
    proof {
        assert(t@.take(n as int) =~= t@);
        assert(s@ =~= quoted(t@));
    }
    s
}

/// Whether `t` passes the numeric-literal shape check.
pub fn check_numeric(t: &str) -> (r: bool)
    ensures
        r == is_numeric_literal(t@),
{
    let n = t.unicode_len();
    if n == 0 {
        return false;
    }
    let mut i: usize = 0;
    while i < n
        invariant
            i <= n,
            n == t@.len(),
            forall|j: int| 0 <= j < i ==> is_numeric_char(#[trigger] t@[j]),
        decreases n - i,
    {
        let c = t.get_char(i);
        let d = is_digit_exec(c);
        if !(d || c == '-' || c == '+' || c == '.' || c == 'e' || c == 'E') {
            return false;
        }
        i = i + 1;
    }
    true
}

/// One more than the largest value a placeholder index can take on any
/// machine, so a saturated parse still decides the range check correctly.
pub const PLACEHOLDER_CAP: u128 = 0x10000000000000000;

/// Length of the leading run of digit characters.
pub open spec fn digit_run_len(s: Seq<char>) -> nat
    decreases s.len(),
{
    if s.len() == 0 || !is_digit(s[0]) {
        0
    } else {
        (1 + digit_run_len(s.drop_first())) as nat
    }
}

/// The value of a run of digit characters read as a decimal number.
pub open spec fn digits_value(s: Seq<char>) -> nat
    decreases s.len(),
{
    if s.len() == 0 {
        0
    } else {
        digits_value(s.drop_last()) * 10 + digit_val(s.last())
    }
}

proof fn lemma_digit_run_len_bound(s: Seq<char>)
    ensures
        digit_run_len(s) <= s.len(),
    decreases s.len(),
{
    if s.len() > 0 && is_digit(s[0]) {
        lemma_digit_run_len_bound(s.drop_first());
    }
}

proof fn lemma_digit_run_len_exact(t: Seq<char>, l: int)
    requires
        0 <= l <= t.len(),
        forall|m: int| 0 <= m < l ==> is_digit(#[trigger] t[m]),
        l == t.len() || !is_digit(t[l]),
    ensures
        digit_run_len(t) == l,
    decreases l,
{
    if l > 0 {
        assert forall|m: int| 0 <= m < l - 1 implies is_digit(#[trigger] t.drop_first()[m]) by {
            assert(t.drop_first()[m] == t[m + 1]);
        }
        if l < t.len() {
            assert(t.drop_first()[l - 1] == t[l]);
        }
        lemma_digit_run_len_exact(t.drop_first(), l - 1);
    }
}

/// The statement text with each positional placeholder `$k`, for `k`
/// between one and the number of rendered parameters, replaced by the
/// k-th rendered parameter. A dollar sign without digits, and an index
/// outside the range, stay as they stand; substituted text is never
/// rescanned, so a parameter value cannot introduce a placeholder.
pub open spec fn subst_spec(s: Seq<char>, params: Seq<Seq<char>>) -> Seq<char>
    decreases s.len(),
    via subst_spec_dec
{
    if s.len() == 0 {
        Seq::empty()
    } else if s[0] == '$' {
        let d = digit_run_len(s.drop_first()) as int;
        if d == 0 {
            seq!['$'] + subst_spec(s.drop_first(), params)
        } else {
            let k = digits_value(s.subrange(1, 1 + d));
            if 1 <= k && k <= params.len() {
                params[k - 1] + subst_spec(s.skip(1 + d), params)
            } else {
                s.take(1 + d) + subst_spec(s.skip(1 + d), params)
            }
        }
    } else {
        seq![s[0]] + subst_spec(s.drop_first(), params)
    }
}

#[via_fn]
proof fn subst_spec_dec(s: Seq<char>, params: Seq<Seq<char>>) {
    if s.len() > 0 && s[0] == '$' {
        lemma_digit_run_len_bound(s.drop_first());
    }
}

/// Scan the run of digits that starts at `start`: how far it reaches, and
/// its value, saturated at the cap.
fn scan_digits(sql: &str, start: usize, n: usize) -> (res: (usize, u128))
    requires
        start <= n,
        n == sql@.len(),
    ensures
        start <= res.0 <= n,
        res.0 - start == digit_run_len(sql@.skip(start as int)),
        res.1 as nat == (if digits_value(sql@.subrange(start as int, res.0 as int)) < (
        PLACEHOLDER_CAP as nat) {
            digits_value(sql@.subrange(start as int, res.0 as int))
        } else {
            PLACEHOLDER_CAP as nat
        }),
{
    let mut j: usize = start;
    let mut k: u128 = 0;
    let mut done = false;
    while !done && j < n
        invariant
            start <= j <= n,
            n == sql@.len(),
            forall|m: int| start <= m < j ==> is_digit(#[trigger] sql@[m]),
            done ==> j < n && !is_digit(sql@[j as int]),
            k as nat == (if digits_value(sql@.subrange(start as int, j as int)) < (
            PLACEHOLDER_CAP as nat) {
                digits_value(sql@.subrange(start as int, j as int))
            } else {
                PLACEHOLDER_CAP as nat
            }),
        decreases n - j + (if done {
            0int
        } else {
            1int
        }),
    {
        let c = sql.get_char(j);
        if is_digit_exec(c) {
            let ghost sub0 = sql@.subrange(start as int, j as int);
            let d = (c as u32 - 48) as u128;
            let k2 = k * 10 + d;
            k = if k2 > PLACEHOLDER_CAP {
                PLACEHOLDER_CAP
            } else {
                k2
            };
            j = j + 1;
            proof {
                let sub1 = sql@.subrange(start as int, j as int);
                assert(sub1.drop_last() =~= sub0);
                assert(sub1.last() == sql@[j - 1]);
                assert(digits_value(sub1) == digits_value(sub0) * 10 + digit_val(sql@[j - 1]));
            }
        } else {
            done = true;
        }
    }
    proof {
        if done {
            lemma_digit_run_len_exact(sql@.skip(start as int), j - start);
            assert(sql@.skip(start as int)[j - start] == sql@[j as int]);
        } else {
            lemma_digit_run_len_exact(sql@.skip(start as int), j - start);
        }
        assert forall|m: int| 0 <= m < j - start implies is_digit(
            #[trigger] sql@.skip(start as int)[m],
        ) by {
            assert(sql@.skip(start as int)[m] == sql@[m + start]);
        }
    }
    (j, k)
}

/// Substitute the rendered parameters for the positional placeholders in
/// the statement text.
pub fn substitute_placeholders(sql: &str, params: &Vec<String>) -> (r: String)
    ensures
        r@ == subst_spec(sql@, params.deep_view()),
{
    let ghost ps = params.deep_view();
    let plen = params.len();
    let n = sql.unicode_len();
    let mut out = String::new();
    let mut i: usize = 0;
    proof {
        assert(ps.len() == params@.len());
        assert(sql@.skip(0) =~= sql@);
        assert(Seq::<char>::empty() + subst_spec(sql@, ps) =~= subst_spec(sql@, ps));
    }
    while i < n
        invariant
            i <= n,
            n == sql@.len(),
            ps == params.deep_view(),
            params@.len() == ps.len(),
            plen == params@.len(),
            subst_spec(sql@, ps) == out@ + subst_spec(sql@.skip(i as int), ps),
        decreases n - i,
    {
        let ghost suffix = sql@.skip(i as int);
        let ghost out0 = out@;
        let c = sql.get_char(i);
        proof {
            assert(suffix[0] == sql@[i as int]);
            assert(suffix.drop_first() =~= sql@.skip(i as int + 1));
        }
        if c == '$' {
            let (j, k) = scan_digits(sql, i + 1, n);
            let ghost run = j - i - 1;
            proof {
                assert(digit_run_len(suffix.drop_first()) == run);
            }
            if j == i + 1 {
                // a dollar sign with no digits stays as it stands
                push_char(&mut out, '$');
                proof {
                    assert(subst_spec(suffix, ps) == seq!['$'] + subst_spec(
                        suffix.drop_first(),
                        ps,
                    ));
                    assert(out@ + subst_spec(suffix.drop_first(), ps) =~= out0 + subst_spec(
                        suffix,
                        ps,
                    ));
                }
                i = i + 1;
            } else {
                let ghost kv = digits_value(suffix.subrange(1, 1 + run));
                proof {
                    assert(suffix.subrange(1, 1 + run) =~= sql@.subrange(i as int + 1, j as int));
                    assert(suffix.skip(1 + run) =~= sql@.skip(j as int));
                    assert(suffix.take(1 + run) =~= sql@.subrange(i as int, j as int));
                    assert((usize::MAX as nat) < PLACEHOLDER_CAP as nat);
                    assert(ps.len() < PLACEHOLDER_CAP as nat);
                }
                if 1 <= k && k <= params.len() as u128 {
                    proof {
                        let dv = digits_value(sql@.subrange(i as int + 1, j as int));
                        assert(kv == dv);
                        assert((params.len() as u128) < PLACEHOLDER_CAP);
                        assert(k < PLACEHOLDER_CAP);
                        if dv >= PLACEHOLDER_CAP as nat {
                            assert(k as nat == PLACEHOLDER_CAP as nat);
                            assert(false);
                        }
                        assert(k as nat == kv);
                        assert(1 <= kv && kv <= ps.len());
                        assert(subst_spec(suffix, ps) == ps[kv - 1] + subst_spec(
                            suffix.skip(1 + run),
                            ps,
                        ));
                    }
                    let kk = k as usize;
                    out.append(params[kk - 1].as_str());
                    proof {
                        assert(ps[kv - 1] == params@[kv - 1]@);
                        assert(out@ + subst_spec(sql@.skip(j as int), ps) =~= out0 + subst_spec(
                            suffix,
                            ps,
                        ));
                    }
                } else {
                    proof {
                        assert(!(1 <= kv && kv <= ps.len()));
                        assert(subst_spec(suffix, ps) == suffix.take(1 + run) + subst_spec(
                            suffix.skip(1 + run),
                            ps,
                        ));
                    }
                    let lit = sql.substring_char(i, j);
                    out.append(lit);
                    proof {
                        assert(out@ + subst_spec(sql@.skip(j as int), ps) =~= out0 + subst_spec(
                            suffix,
                            ps,
                        ));
                    }
                }
                i = j;
            }
        } else {
            push_char(&mut out, c);
            proof {
                assert(subst_spec(suffix, ps) == seq![suffix[0]] + subst_spec(
                    suffix.drop_first(),
                    ps,
                ));
                assert(out@ + subst_spec(suffix.drop_first(), ps) =~= out0 + subst_spec(
                    suffix,
                    ps,
                ));
            }
            i = i + 1;
        }
    }
    proof {
        assert(sql@.skip(n as int) =~= Seq::<char>::empty());
        assert(out@ + Seq::<char>::empty() =~= out@);
    }
    out
}

/// A parameter bound to a portal, already decoded to the value its
/// declared type calls for. A float arrives as the text the caller
/// rendered it to, since this library holds no floating-point values; the
/// text is accepted only when it is shaped like a numeric literal.
pub enum BoundParam {
    /// A text-like parameter (character varying or plain text).
    Text(Option<String>),
    Bool(Option<bool>),
    Int4(Option<i32>),
    Int8(Option<i64>),
    Float4(Option<String>),
    Float8(Option<String>),
    /// A declared type this gateway cannot render as a literal.
    Unsupported,
}

/// The SQL literal a bound parameter renders to: quoted and escaped for
/// text, plain literal text for boolean, integer and floating types,
/// nothing for an unsupported type or a float whose text is not numeric.
/// An absent value renders as empty text (an absent text value as empty
/// quotes).
pub open spec fn render_spec(p: BoundParam) -> Option<Seq<char>> {
    match p {
        BoundParam::Text(Some(s)) => Some(quoted(s@)),
        BoundParam::Text(None) => Some(quoted(Seq::empty())),
        BoundParam::Bool(Some(b)) => Some(
            if b {
                "true"@
            } else {
                "false"@
            },
        ),
        BoundParam::Bool(None) => Some(Seq::empty()),
        BoundParam::Int4(Some(v)) => Some(int_literal(v as int)),
        BoundParam::Int4(None) => Some(Seq::empty()),
        BoundParam::Int8(Some(v)) => Some(int_literal(v as int)),
        BoundParam::Int8(None) => Some(Seq::empty()),
        BoundParam::Float4(Some(t)) => if is_numeric_literal(t@) {
            Some(t@)
        } else {
            None
        },
        BoundParam::Float4(None) => Some(Seq::empty()),
        BoundParam::Float8(Some(t)) => if is_numeric_literal(t@) {
            Some(t@)
        } else {
            None
        },
        BoundParam::Float8(None) => Some(Seq::empty()),
        BoundParam::Unsupported => None,
    }
}

/// Render one bound parameter as a SQL literal; the error for a parameter
/// with no rendering carries the fixed code for an unsupported value.
pub fn parameter_to_string(p: &BoundParam) -> (r: Result<String, NexusError>)
    ensures
        match render_spec(*p) {
            Some(s) => r matches Ok(t) && t@ == s,
            None => r matches Err(e) && e is UnsupportedParameterValue,
        },
{
    match p {
        BoundParam::Text(opt) => match opt {
            Some(s) => Ok(quote_text(s.as_str())),
            None => {
                let q = quote_text("");
                proof {
                    reveal_strlit("");
                    assert(""@ =~= Seq::<char>::empty());
                }
                Ok(q)
            },
        },
        BoundParam::Bool(opt) => match opt {
            Some(b) => {
                if *b {
                    Ok("true".to_owned())
                } else {
                    Ok("false".to_owned())
                }
            },
            None => Ok(String::new()),
        },
        BoundParam::Int4(opt) => match opt {
            Some(v) => Ok(i64_literal(*v as i64)),
            None => Ok(String::new()),
        },
        BoundParam::Int8(opt) => match opt {
            Some(v) => Ok(i64_literal(*v)),
            None => Ok(String::new()),
        },
        BoundParam::Float4(opt) => match opt {
            Some(t) => {
                if check_numeric(t.as_str()) {
                    Ok(t.clone())
                } else {
                    Err(NexusError::UnsupportedParameterValue)
                }
            },
            None => Ok(String::new()),
        },
        BoundParam::Float8(opt) => match opt {
            Some(t) => {
                if check_numeric(t.as_str()) {
                    Ok(t.clone())
                } else {
                    Err(NexusError::UnsupportedParameterValue)
                }
            },
            None => Ok(String::new()),
        },
        BoundParam::Unsupported => Err(NexusError::UnsupportedParameterValue),
    }
}

/// The renderings of a whole parameter list, provided every one of them
/// renders.
pub open spec fn rendered_all(ps: Seq<BoundParam>) -> Option<Seq<Seq<char>>>
    decreases ps.len(),
{
    if ps.len() == 0 {
        Some(Seq::empty())
    } else {
        match (rendered_all(ps.drop_last()), render_spec(ps.last())) {
            (Some(rs), Some(r)) => Some(rs.push(r)),
            _ => None,
        }
    }
}

proof fn lemma_rendered_all_pointwise(ps: Seq<BoundParam>, rs: Seq<Seq<char>>)
    requires
        ps.len() == rs.len(),
        forall|m: int| 0 <= m < ps.len() ==> render_spec(#[trigger] ps[m]) == Some(rs[m]),
    ensures
        rendered_all(ps) == Some(rs),
    decreases ps.len(),
{
    if ps.len() > 0 {
        assert forall|m: int| 0 <= m < ps.drop_last().len() implies render_spec(
            #[trigger] ps.drop_last()[m],
        ) == Some(rs.drop_last()[m]) by {
            assert(ps.drop_last()[m] == ps[m]);
            assert(rs.drop_last()[m] == rs[m]);
        }
        lemma_rendered_all_pointwise(ps.drop_last(), rs.drop_last());
        assert(rs.drop_last().push(rs.last()) =~= rs);
    }
}

proof fn lemma_rendered_all_fails(ps: Seq<BoundParam>, m: int)
    requires
        0 <= m < ps.len(),
        render_spec(ps[m]) == None::<Seq<char>>,
    ensures
        rendered_all(ps) == None::<Seq<Seq<char>>>,
    decreases ps.len(),
{
    if m < ps.len() - 1 {
        assert(ps.drop_last()[m] == ps[m]);
        lemma_rendered_all_fails(ps.drop_last(), m);
    }
}

/// Render every bound parameter; the first one without a rendering aborts
/// the request with the fixed error.
pub fn render_parameters(params: &Vec<BoundParam>) -> (r: Result<Vec<String>, NexusError>)
    ensures
        match r {
            Ok(v) => rendered_all(params@) matches Some(rs) && rs == v.deep_view(),
            Err(e) => rendered_all(params@) == None::<Seq<Seq<char>>> && e
                is UnsupportedParameterValue,
        },
{
    let mut v: Vec<String> = Vec::new();
    let mut i: usize = 0;
    while i < params.len()
        invariant
            i <= params@.len(),
            v@.len() == i,
            forall|m: int| 0 <= m < i ==> render_spec(#[trigger] params@[m]) == Some(v@[m]@),
        decreases params@.len() - i,
    {
        match parameter_to_string(&params[i]) {
            Ok(t) => {
                v.push(t);
            },
            Err(e) => {
                proof {
                    lemma_rendered_all_fails(params@, i as int);
                }
                return Err(e);
            },
        }
        i = i + 1;
    }
    proof {
        assert(v.deep_view().len() == params@.len());
        assert forall|m: int| 0 <= m < params@.len() implies render_spec(
            #[trigger] params@[m],
        ) == Some(v.deep_view()[m]) by {
            assert(v.deep_view()[m] == v@[m]@);
        }
        lemma_rendered_all_pointwise(params@, v.deep_view());
    }
    Ok(v)
}

/// The extended-flow execute, up to the dispatch: render every bound
/// parameter and substitute the placeholders. The text handed back goes
/// through the simple-flow dispatcher, so an extended execute and a
/// simple query with the literals written in place run exactly the same
/// statement.
pub fn render_query(sql: &str, params: &Vec<BoundParam>) -> (r: Result<String, NexusError>)
    ensures
        match rendered_all(params@) {
            Some(rs) => r matches Ok(q) && q@ == subst_spec(sql@, rs),
            None => r matches Err(e) && e is UnsupportedParameterValue,
        },
{
    match render_parameters(params) {
        Ok(rendered) => Ok(substitute_placeholders(sql, &rendered)),
        Err(e) => Err(e),
    }
}

/// The single response the extended flow reports: the first one the
/// dispatcher produced, or an empty-query response where there is none.
pub fn first_response(responses: Vec<SessionResponse>) -> (r: SessionResponse)
    ensures
        if responses@.len() == 0 {
            r is EmptyQuery
        } else {
            r == responses@[0]
        },
{
    let mut rest = responses;
    if rest.len() == 0 {
        SessionResponse::EmptyQuery
    } else {
        rest.remove(0)
    }
}

} // verus!
