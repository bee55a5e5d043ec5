//! Expansion of `console.log` arguments.
//!
//! When the first argument is a string it is a printf-like template: `%s`,
//! `%d`, `%i`, `%f`, `%j`, `%o`, `%O` and `%c` each take the next argument
//! (`%c` prints nothing of it), `%%` prints one `%`, and a specifier with no
//! argument left, like any other `%`, stays as written. Arguments the template
//! did not use follow, each after one space. When the first argument is not a
//! string, all arguments are printed, separated by single spaces.
use vstd::prelude::*;

verus! {

/// A script value, as the formatter sees it: its conversions, which the
/// engine computes.
pub struct FormatArg {
    /// The value is a string (only a string can be a template).
    pub is_string: bool,
    /// `String(value)`, used by `%s`, `%o`, `%O` and between arguments.
    pub text: String,
    /// `Number(value)`, used by `%d` and `%f`.
    pub number: String,
    /// `parseInt(value)`, used by `%i`.
    pub integer: String,
    /// `JSON.stringify(value)`, used by `%j`.
    pub json: String,
}

/// A specifier letter that takes an argument.
pub open spec fn takes_argument(c: char) -> bool {
    c == 's' || c == 'd' || c == 'i' || c == 'f' || c == 'j' || c == 'o' || c == 'O' || c == 'c'
}

/// What specifier `c` prints of argument `a`.
pub open spec fn render(c: char, a: FormatArg) -> Seq<char> {
    if c == 'd' || c == 'f' {
        a.number@
    } else if c == 'i' {
        a.integer@
    } else if c == 'j' {
        a.json@
    } else if c == 'c' {
        Seq::empty()
    } else {
        a.text@
    }
}

/// Expansion of template `t` with the arguments from index `k` on: the text
/// and the index of the first argument left unused.
pub open spec fn expand(t: Seq<char>, args: Seq<FormatArg>, k: int) -> (Seq<char>, int)
    decreases t.len(),
{
    if t.len() == 0 {
        (Seq::empty(), k)
    } else if t[0] == '%' && t.len() >= 2 && t[1] == '%' {
        let p = expand(t.skip(2), args, k);
        (seq!['%'] + p.0, p.1)
    } else if t[0] == '%' && t.len() >= 2 && takes_argument(t[1]) && 0 <= k < args.len() {
        let p = expand(t.skip(2), args, k + 1);
        (render(t[1], args[k]) + p.0, p.1)
    } else {
        let p = expand(t.skip(1), args, k);
        (seq![t[0]] + p.0, p.1)
    }
}

/// The arguments from index `k` on, each after one space.
pub open spec fn rest(args: Seq<FormatArg>, k: int) -> Seq<char>
    decreases args.len() - k,
{
    if k < 0 || k >= args.len() {
        Seq::empty()
    } else {
        seq![' '] + args[k].text@ + rest(args, k + 1)
    }
}

/// The line `console.log(args...)` prints, without its newline.
pub open spec fn formatted(args: Seq<FormatArg>) -> Seq<char> {
    if args.len() == 0 {
        Seq::empty()
    } else if !args[0].is_string {
        args[0].text@ + rest(args, 1)
    } else {
        let p = expand(args[0].text@, args, 1);
        p.0 + rest(args, p.1)
    }
}

proof fn lemma_expand_index_bounds(t: Seq<char>, args: Seq<FormatArg>, k: int)
    requires
        0 <= k <= args.len(),
    ensures
        k <= expand(t, args, k).1 <= args.len(),
    decreases t.len(),
{
    if t.len() == 0 {
    } else if t[0] == '%' && t.len() >= 2 && t[1] == '%' {
        lemma_expand_index_bounds(t.skip(2), args, k);
    } else if t[0] == '%' && t.len() >= 2 && takes_argument(t[1]) && 0 <= k < args.len() {
        lemma_expand_index_bounds(t.skip(2), args, k + 1);
    } else {
        lemma_expand_index_bounds(t.skip(1), args, k);
    }
}

fn rendering(c: char, a: &FormatArg) -> (r: &str)
    ensures
        r@ == render(c, *a),
{
    proof {
        reveal_strlit("");
    }
    if c == 'd' || c == 'f' {
        a.number.as_str()
    } else if c == 'i' {
        a.integer.as_str()
    } else if c == 'j' {
        a.json.as_str()
    } else if c == 'c' {
        ""
    } else {
        a.text.as_str()
    }
}

/// Appends the arguments from index `from` on to `dest`, each after one space.
pub fn format_to_string(dest: &mut String, args: &Vec<FormatArg>, from: usize)
    ensures
        final(dest)@ == old(dest)@ + rest(args@, from as int),
{
    let mut k = from;
    while k < args.len()
        invariant
            from <= k,
            dest@ + rest(args@, k as int) == old(dest)@ + rest(args@, from as int),
        decreases args.len() - k,
    {
        let ghost before = dest@;
        proof {
            reveal_strlit(" ");
            assert(" "@ =~= seq![' ']);
        }
        dest.append(" ");
        dest.append(args[k].text.as_str());
        assert(before + rest(args@, k as int) =~= dest@ + rest(args@, k + 1));
        k = k + 1;
    }
    assert(rest(args@, k as int) == Seq::<char>::empty());
}

/// The line `console.log(args...)` prints, without its newline.
pub fn format_parser(args: &Vec<FormatArg>) -> (r: String)
    ensures
        r@ == formatted(args@),
{
    let mut out = String::new();
    if args.len() == 0 {
        return out;
    }
    if !args[0].is_string {
        out.append(args[0].text.as_str());
        format_to_string(&mut out, args, 1);
        return out;
    }
    let t = args[0].text.as_str();
    let n = t.unicode_len();
    let ghost full = expand(t@, args@, 1);
    let mut i: usize = 0;
    let mut run: usize = 0;
    let mut k: usize = 1;
    proof {
        assert(t@.skip(0) =~= t@);
    }
    while i < n
        invariant
            n == t@.len(),
            t@ == args@[0].text@,
            run <= i <= n,
            1 <= k <= args.len(),
            out@ + t@.subrange(run as int, i as int) + expand(t@.skip(i as int), args@, k as int).0
                == full.0,
            expand(t@.skip(i as int), args@, k as int).1 == full.1,
        decreases n - i,
    {
        let ghost s = t@.skip(i as int);
        let ghost pre = out@ + t@.subrange(run as int, i as int);
        let c = t.get_char(i);
        assert(s[0] == c);
        let mut literal = true;
        if c == '%' && i + 1 < n {
            let d = t.get_char(i + 1);
            assert(s[1] == d);
            assert(s.skip(2) =~= t@.skip(i + 2));
            if d == '%' {
                proof {
                    reveal_strlit("%");
                    assert("%"@ =~= seq!['%']);
                }
                out.append(t.substring_char(run, i));
                out.append("%");
                assert(pre + expand(s, args@, k as int).0 =~= out@ + t@.subrange(
                    (i + 2) as int,
                    (i + 2) as int,
                ) + expand(t@.skip(i + 2), args@, k as int).0);
                i = i + 2;
                run = i;
                literal = false;
            } else if (d == 's' || d == 'd' || d == 'i' || d == 'f' || d == 'j' || d == 'o' || d
                == 'O' || d == 'c') && k < args.len() {
                out.append(t.substring_char(run, i));
                out.append(rendering(d, &args[k]));
                assert(pre + expand(s, args@, k as int).0 =~= out@ + t@.subrange(
                    (i + 2) as int,
                    (i + 2) as int,
                ) + expand(t@.skip(i + 2), args@, k + 1).0);
                i = i + 2;
                run = i;
                k = k + 1;
                literal = false;
            }
        }
        if literal {
            assert(s.skip(1) =~= t@.skip(i + 1));
            assert(pre + expand(s, args@, k as int).0 =~= out@ + t@.subrange(
                run as int,
                i + 1,
            ) + expand(t@.skip(i + 1), args@, k as int).0);
            i = i + 1;
        }
    }
    proof {
        assert(t@.skip(n as int) =~= Seq::<char>::empty());
        lemma_expand_index_bounds(t@, args@, 1);
    }
    out.append(t.substring_char(run, n));
    format_to_string(&mut out, args, k);
    out
}

/// The kinds of character runs `parse_int_text` skips or reads.
#[derive(Clone, Copy, Debug, PartialEq, Eq, Structural)]
pub enum CharClass {
    /// Space, tab, line feed, carriage return, vertical tab, form feed.
    Blank,
    /// An ASCII decimal digit.
    Digit,
    /// The digit zero.
    Zero,
}

pub open spec fn in_class(c: char, class: CharClass) -> bool {
    match class {
        CharClass::Blank => c == ' ' || c == '\t' || c == '\n' || c == '\r' || c == '\x0b' || c
            == '\x0c',
        CharClass::Digit => '0' <= c && c <= '9',
        CharClass::Zero => c == '0',
    }
}

/// The end of the longest run of characters of `class` starting at `i`.
pub open spec fn span_end(t: Seq<char>, i: int, class: CharClass) -> int
    decreases t.len() - i,
{
    if 0 <= i < t.len() && in_class(t[i], class) {
        span_end(t, i + 1, class)
    } else {
        i
    }
}

/// `parseInt(text)` for decimal text, as `%i` prints it: blanks are skipped,
/// an optional sign is read, then the longest run of digits; without digits
/// the result is `NaN`, otherwise the digits without leading zeros (a single
/// `0` when all are zeros), after a minus sign when the sign was one.
pub open spec fn parsed_int(t: Seq<char>) -> Seq<char> {
    let a = span_end(t, 0, CharClass::Blank);
    let signed = a < t.len() && (t[a] == '-' || t[a] == '+');
    let b = if signed {
        a + 1
    } else {
        a
    };
    let e = span_end(t, b, CharClass::Digit);
    let z = span_end(t, b, CharClass::Zero);
    if e == b {
        seq!['N', 'a', 'N']
    } else if z == e {
        seq!['0']
    } else if signed && t[a] == '-' {
        seq!['-'] + t.subrange(z, e)
    } else {
        t.subrange(z, e)
    }
}

proof fn lemma_span_bounds(t: Seq<char>, i: int, class: CharClass)
    requires
        0 <= i <= t.len(),
    ensures
        i <= span_end(t, i, class) <= t.len(),
        forall|j: int| i <= j < span_end(t, i, class) ==> in_class(#[trigger] t[j], class),
    decreases t.len() - i,
{
    if 0 <= i < t.len() && in_class(t[i], class) {
        lemma_span_bounds(t, i + 1, class);
    }
}

proof fn lemma_zeros_within_digits(t: Seq<char>, i: int)
    requires
        0 <= i <= t.len(),
    ensures
        span_end(t, i, CharClass::Zero) <= span_end(t, i, CharClass::Digit),
    decreases t.len() - i,
{
    if 0 <= i < t.len() && in_class(t[i], CharClass::Zero) {
        lemma_zeros_within_digits(t, i + 1);
    }
    lemma_span_bounds(t, i, CharClass::Digit);
}

fn class_has(c: char, class: CharClass) -> (r: bool)
    ensures
        r == in_class(c, class),
{
    match class {
        CharClass::Blank => c == ' ' || c == '\t' || c == '\n' || c == '\r' || c == '\x0b' || c
            == '\x0c',
        CharClass::Digit => '0' <= c && c <= '9',
        CharClass::Zero => c == '0',
    }
}

fn span_end_at(t: &str, n: usize, i: usize, class: CharClass) -> (r: usize)
    requires
        n == t@.len(),
        i <= n,
    ensures
        r == span_end(t@, i as int, class),
{
    let mut j = i;
    let mut more = j < n && class_has(t.get_char(j), class);
    while more
        invariant
            n == t@.len(),
            i <= j <= n,
            span_end(t@, j as int, class) == span_end(t@, i as int, class),
            more == (j < n && in_class(t@[j as int], class)),
        decreases n - j,
    {
        j = j + 1;
        more = j < n && class_has(t.get_char(j), class);
    }
    j
}

/// `parseInt(text)` for decimal text, as `%i` prints it.
pub fn parse_int_text(text: &str) -> (r: String)
    ensures
        r@ == parsed_int(text@),
{
    proof {
        reveal_strlit("NaN");
        reveal_strlit("0");
        reveal_strlit("-");
        assert("NaN"@ =~= seq!['N', 'a', 'N']);
        assert("0"@ =~= seq!['0']);
        assert("-"@ =~= seq!['-']);
    }
    let n = text.unicode_len();
    let a = span_end_at(text, n, 0, CharClass::Blank);
    proof {
        lemma_span_bounds(text@, 0, CharClass::Blank);
    }
    let signed = a < n && (text.get_char(a) == '-' || text.get_char(a) == '+');
    let negative = signed && text.get_char(a) == '-';
    let b = if signed {
        a + 1
    } else {
        a
    };
    let e = span_end_at(text, n, b, CharClass::Digit);
    let z = span_end_at(text, n, b, CharClass::Zero);
    proof {
        lemma_span_bounds(text@, b as int, CharClass::Digit);
        lemma_zeros_within_digits(text@, b as int);
    }
    if e == b {
        String::from_str("NaN")
    } else if z == e {
        String::from_str("0")
    } else if negative {
        let mut out = String::from_str("-");
        out.append(text.substring_char(z, e));
        out
    } else {
        String::from_str(text.substring_char(z, e))
    }
}

} // verus!
