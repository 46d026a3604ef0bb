//! Text helpers with their specifications.

use vstd::prelude::*;

verus! {

/// The decimal notation of a natural number.
pub open spec fn decimal(n: nat) -> Seq<char>
    decreases n,
{
    if n < 10 {
        seq![digit_char(n)]
    } else {
        decimal(n / 10).push(digit_char(n % 10))
    }
}

/// The ASCII digit for a value below ten.
pub open spec fn digit_char(d: nat) -> char {
    if d == 0 { '0' }
    else if d == 1 { '1' }
    else if d == 2 { '2' }
    else if d == 3 { '3' }
    else if d == 4 { '4' }
    else if d == 5 { '5' }
    else if d == 6 { '6' }
    else if d == 7 { '7' }
    else if d == 8 { '8' }
    else { '9' }
}

fn digit(d: usize) -> (c: char)
    requires
        d < 10,
    ensures
        c == digit_char(d as nat),
{
    if d == 0 { '0' }
    else if d == 1 { '1' }
    else if d == 2 { '2' }
    else if d == 3 { '3' }
    else if d == 4 { '4' }
    else if d == 5 { '5' }
    else if d == 6 { '6' }
    else if d == 7 { '7' }
    else if d == 8 { '8' }
    else { '9' }
}

/// Appends one character to a string (`String::push`).
#[verifier::external_body]
pub(crate) fn push_char(s: &mut String, c: char)
    ensures
        final(s)@ == old(s)@.push(c),
{
    s.push(c);
}

/// Appends a string slice to a string (`String::push_str`).
#[verifier::external_body]
pub(crate) fn push_str(s: &mut String, other: &str)
    ensures
        final(s)@ == old(s)@ + other@,
{
    s.push_str(other);
}

/// The decimal notation of `n`, as `n.to_string()` writes it.
pub fn to_decimal(n: usize) -> (r: String)
    ensures
        r@ == decimal(n as nat),
    decreases n,
{
    if n < 10 {
        let mut r = String::new();
        push_char(&mut r, digit(n));
        assert(r@ =~= seq![digit_char(n as nat)]);
        r
    } else {
        let mut r = to_decimal(n / 10);
        push_char(&mut r, digit(n % 10));
        r
    }
}

} // verus!

verus! {

/// The characters of a string slice, in order.
pub fn chars_of(s: &str) -> (v: Vec<char>)
    ensures
        v@ == s@,
{
    let mut v: Vec<char> = Vec::new();
    for c in it: s.chars()
        invariant
            v@ == it.seq().take(it.index()),
    {
        v.push(c);
    }
    v
}

} // verus!

verus! {

/// A string made of the characters `v[from..to]`.
pub fn string_of(v: &Vec<char>, from: usize, to: usize) -> (s: String)
    requires
        from <= to <= v@.len(),
    ensures
        s@ == v@.subrange(from as int, to as int),
{
    let mut s = String::new();
    let mut i = from;
    while i < to
        invariant
            from <= i <= to <= v@.len(),
            s@ == v@.subrange(from as int, i as int),
        decreases to - i,
    {
        push_char(&mut s, v[i]);
        assert(s@ =~= v@.subrange(from as int, i + 1));
        i = i + 1;
    }
    s
}

/// Is `c` a white space character (the Unicode `White_Space` property, as
/// `char::is_whitespace` has it)?
pub open spec fn is_ws(c: char) -> bool {
    let u = c as u32;
    ||| 0x09 <= u <= 0x0D
    ||| u == 0x20
    ||| u == 0x85
    ||| u == 0xA0
    ||| u == 0x1680
    ||| 0x2000 <= u <= 0x200A
    ||| u == 0x2028
    ||| u == 0x2029
    ||| u == 0x202F
    ||| u == 0x205F
    ||| u == 0x3000
}

/// Is `c` a white space character?
pub fn is_whitespace(c: char) -> (b: bool)
    ensures
        b == is_ws(c),
{
    let u = c as u32;
    (0x09 <= u && u <= 0x0D) || u == 0x20 || u == 0x85 || u == 0xA0 || u == 0x1680
        || (0x2000 <= u && u <= 0x200A) || u == 0x2028 || u == 0x2029 || u == 0x202F
        || u == 0x205F || u == 0x3000
}

/// `s` without its leading white space.
pub open spec fn trim_start(s: Seq<char>) -> Seq<char>
    decreases s.len(),
{
    if s.len() > 0 && is_ws(s[0]) {
        trim_start(s.skip(1))
    } else {
        s
    }
}

/// `s` without its trailing white space.
pub open spec fn trim_end(s: Seq<char>) -> Seq<char>
    decreases s.len(),
{
    if s.len() > 0 && is_ws(s.last()) {
        trim_end(s.drop_last())
    } else {
        s
    }
}

/// `s` without its leading and trailing white space (`str::trim`).
pub open spec fn trim(s: Seq<char>) -> Seq<char> {
    trim_end(trim_start(s))
}

proof fn lemma_trim_start_skip(s: Seq<char>, i: int)
    requires
        0 <= i <= s.len(),
        forall|k: int| 0 <= k < i ==> is_ws(#[trigger] s[k]),
    ensures
        trim_start(s) == trim_start(s.skip(i)),
    decreases i,
{
    if i > 0 {
        assert(s.skip(1).skip(i - 1) =~= s.skip(i));
        lemma_trim_start_skip(s.skip(1), i - 1);
    } else {
        assert(s.skip(0) =~= s);
    }
}

proof fn lemma_trim_end_take(s: Seq<char>, j: int)
    requires
        0 <= j <= s.len(),
        forall|k: int| j <= k < s.len() ==> is_ws(#[trigger] s[k]),
    ensures
        trim_end(s) == trim_end(s.take(j)),
    decreases s.len() - j,
{
    if j < s.len() {
        assert(s.drop_last().take(j) =~= s.take(j));
        lemma_trim_end_take(s.drop_last(), j);
    } else {
        assert(s.take(j) =~= s);
    }
}

/// The characters `v[from..to]` without leading and trailing white space.
pub fn trim_chars(v: &Vec<char>, from: usize, to: usize) -> (s: String)
    requires
        from <= to <= v@.len(),
    ensures
        s@ == trim(v@.subrange(from as int, to as int)),
{
    let ghost w = v@.subrange(from as int, to as int);
    let mut i = from;
    while i < to && is_whitespace(v[i])
        invariant
            from <= i <= to <= v@.len(),
            w == v@.subrange(from as int, to as int),
            forall|k: int| from <= k < i ==> is_ws(#[trigger] v@[k]),
        decreases to - i,
    {
        i = i + 1;
    }
    proof {
        assert forall|k: int| 0 <= k < i - from implies is_ws(#[trigger] w[k]) by {
            assert(w[k] == v@[from + k]);
        }
        lemma_trim_start_skip(w, i - from);
        assert(w.skip(i - from) =~= v@.subrange(i as int, to as int));
        if i < to {
            assert(!is_ws(v@.subrange(i as int, to as int)[0]));
        }
    }
    let ghost ws = v@.subrange(i as int, to as int);
    assert(trim_start(w) == ws);
    let mut j = to;
    while j > i && is_whitespace(v[j - 1])
        invariant
            from <= i <= j <= to <= v@.len(),
            ws == v@.subrange(i as int, to as int),
            forall|k: int| j <= k < to ==> is_ws(#[trigger] v@[k]),
        decreases j - i,
    {
        j = j - 1;
    }
    proof {
        assert forall|k: int| j - i <= k < ws.len() implies is_ws(#[trigger] ws[k]) by {
            assert(ws[k] == v@[i + k]);
        }
        lemma_trim_end_take(ws, j - i);
        assert(ws.take(j - i) =~= v@.subrange(i as int, j as int));
        if j > i {
            assert(v@.subrange(i as int, j as int).last() == v@[j - 1]);
        }
    }
    string_of(v, i, j)
}

/// `s` without its leading and trailing white space (`str::trim`).
pub fn trimmed(s: &str) -> (r: String)
    ensures
        r@ == trim(s@),
{
    let v = chars_of(s);
    assert(v@.subrange(0, v@.len() as int) =~= v@);
    trim_chars(&v, 0, v.len())
}

/// Does `s` start with `prefix`?
pub open spec fn starts_with(s: Seq<char>, prefix: Seq<char>) -> bool {
    prefix.len() <= s.len() && s.take(prefix.len() as int) == prefix
}

/// Does `s` start with `prefix`?
pub fn has_prefix(s: &str, prefix: &str) -> (b: bool)
    ensures
        b == starts_with(s@, prefix@),
{
    let v = chars_of(s);
    let p = chars_of(prefix);
    if p.len() > v.len() {
        return false;
    }
    let mut i: usize = 0;
    while i < p.len()
        invariant
            p@.len() <= v@.len(),
            i <= p@.len(),
            v@ == s@,
            p@ == prefix@,
            forall|k: int| 0 <= k < i ==> v@[k] == p@[k],
        decreases p.len() - i,
    {
        if v[i] != p[i] {
            assert(s@.take(prefix@.len() as int)[i as int] != prefix@[i as int]);
            return false;
        }
        i = i + 1;
    }
    assert(s@.take(prefix@.len() as int) =~= prefix@);
    true
}

/// The pieces of `s` between the occurrences of `sep` (`str::split` on a
/// character): a string with `n` separators has `n + 1` pieces.
pub open spec fn split_on(s: Seq<char>, sep: char) -> Seq<Seq<char>>
    decreases s.len(),
{
    if s.len() == 0 {
        seq![Seq::empty()]
    } else if s[0] == sep {
        seq![Seq::empty()] + split_on(s.skip(1), sep)
    } else {
        let r = split_on(s.skip(1), sep);
        r.update(0, seq![s[0]] + r[0])
    }
}

proof fn lemma_split_on_len(s: Seq<char>, sep: char)
    ensures
        split_on(s, sep).len() >= 1,
    decreases s.len(),
{
    if s.len() > 0 {
        lemma_split_on_len(s.skip(1), sep);
    }
}

} // verus!

verus! {

proof fn lemma_split_on_prefix(a: Seq<char>, rest: Seq<char>, sep: char)
    requires
        forall|k: int| 0 <= k < a.len() ==> a[k] != sep,
    ensures
        split_on(a + rest, sep) == split_on(rest, sep).update(0, a + split_on(rest, sep)[0]),
    decreases a.len(),
{
    lemma_split_on_len(rest, sep);
    if a.len() == 0 {
        assert(a + rest =~= rest);
        assert(a + split_on(rest, sep)[0] =~= split_on(rest, sep)[0]);
        assert(split_on(rest, sep).update(0, split_on(rest, sep)[0]) =~= split_on(rest, sep));
    } else {
        let t = a.skip(1);
        assert((a + rest).skip(1) =~= t + rest);
        lemma_split_on_prefix(t, rest, sep);
        lemma_split_on_len(t + rest, sep);
        assert(seq![a[0]] + (t + split_on(rest, sep)[0]) =~= a + split_on(rest, sep)[0]);
        assert(split_on(a + rest, sep) =~= split_on(rest, sep).update(0, a + split_on(rest, sep)[0]));
    }
}

/// The views of a sequence of strings.
pub open spec fn strings_view(v: Seq<String>) -> Seq<Seq<char>> {
    v.map_values(|x: String| x@)
}

/// The pieces of `s` between the occurrences of `sep` (`str::split`).
pub fn split_char(s: &str, sep: char) -> (r: Vec<String>)
    ensures
        strings_view(r@) == split_on(s@, sep),
{
    let v = chars_of(s);
    let mut r: Vec<String> = Vec::new();
    let mut start: usize = 0;
    let mut i: usize = 0;
    assert(v@.skip(0) =~= v@);
    assert(strings_view(r@) + split_on(v@, sep) =~= split_on(v@, sep));
    while i < v.len()
        invariant
            v@ == s@,
            start <= i <= v@.len(),
            forall|k: int| start <= k < i ==> v@[k] != sep,
            strings_view(r@) + split_on(v@.skip(start as int), sep) == split_on(v@, sep),
        decreases v.len() - i,
    {
        if v[i] == sep {
            let piece = string_of(&v, start, i);
            proof {
                let a = v@.subrange(start as int, i as int);
                let b = v@.skip(i + 1);
                assert(v@.skip(start as int) =~= a + (seq![sep] + b));
                lemma_split_on_prefix(a, seq![sep] + b, sep);
                assert((seq![sep] + b).skip(1) =~= b);
                assert(split_on(v@.skip(start as int), sep) =~= seq![a] + split_on(b, sep));
                assert(strings_view(r@.push(piece)) =~= strings_view(r@).push(a));
                assert(strings_view(r@).push(a) + split_on(b, sep) =~= strings_view(r@) + (seq![a] + split_on(b, sep)));
            }
            r.push(piece);
            start = i + 1;
        }
        i = i + 1;
    }
    let piece = string_of(&v, start, v.len());
    proof {
        let a = v@.subrange(start as int, v@.len() as int);
        assert(v@.skip(start as int) =~= a + Seq::<char>::empty());
        lemma_split_on_prefix(a, Seq::empty(), sep);
        assert(a + Seq::<char>::empty() =~= a);
        assert(split_on(v@.skip(start as int), sep) =~= seq![a]);
        assert(strings_view(r@.push(piece)) =~= strings_view(r@).push(a));
        assert(strings_view(r@).push(a) =~= strings_view(r@) + seq![a]);
    }
    r.push(piece);
    r
}

/// `l` without one trailing carriage return.
pub open spec fn strip_cr(l: Seq<char>) -> Seq<char> {
    if l.len() > 0 && l.last() == '\r' { l.drop_last() } else { l }
}

/// Each line without one trailing carriage return.
pub open spec fn strip_cr_all(s: Seq<Seq<char>>) -> Seq<Seq<char>> {
    s.map_values(|l: Seq<char>| strip_cr(l))
}

/// The lines of `s` (`str::lines`): the pieces between line feeds, each
/// ended by a line feed losing one carriage return before it; a final line
/// feed ends the last line and does not start a new one.
pub open spec fn lines(s: Seq<char>) -> Seq<Seq<char>> {
    let p = split_on(s, '\n');
    let init = strip_cr_all(p.drop_last());
    if p.last().len() == 0 { init } else { init.push(p.last()) }
}

fn strip_cr_string(l: String) -> (r: String)
    ensures
        r@ == strip_cr(l@),
{
    let v = chars_of(l.as_str());
    if v.len() > 0 && v[v.len() - 1] == '\r' {
        string_of(&v, 0, v.len() - 1)
    } else {
        assert(v@.subrange(0, v@.len() as int) =~= v@);
        l
    }
}

/// The lines of `s` (`str::lines`).
pub fn lines_of(s: &str) -> (r: Vec<String>)
    ensures
        strings_view(r@) == lines(s@),
{
    let mut parts = split_char(s, '\n');
    proof { lemma_split_on_len(s@, '\n'); }
    let ghost p = split_on(s@, '\n');
    let last = parts.pop().unwrap();
    assert(strings_view(parts@) =~= p.drop_last());
    let mut r: Vec<String> = Vec::new();
    let n = parts.len();
    let mut i: usize = 0;
    while i < n
        invariant
            n == parts@.len(),
            i <= n,
            strings_view(parts@) == p.drop_last(),
            strings_view(r@) == strip_cr_all(p.drop_last().take(i as int)),
        decreases n - i,
    {
        let l = parts[i].clone();
        let l = strip_cr_string(l);
        proof {
            assert(strings_view(parts@)[i as int] == parts@[i as int]@);
        }
        let ghost r0 = r@;
        r.push(l);
        assert(strings_view(r@) =~= strings_view(r0).push(l@));
        assert(strip_cr_all(p.drop_last().take(i + 1)) =~= strip_cr_all(p.drop_last().take(i as int)).push(strip_cr(p.drop_last()[i as int])));
        i = i + 1;
    }
    assert(p.drop_last().take(n as int) =~= p.drop_last());
    let lv = chars_of(last.as_str());
    if lv.len() != 0 {
        r.push(last);
        assert(strings_view(r@) =~= lines(s@));
    }
    r
}

/// The strings of `parts` joined by `sep` (`join` on a slice of strings).
pub open spec fn join(parts: Seq<Seq<char>>, sep: Seq<char>) -> Seq<char>
    decreases parts.len(),
{
    if parts.len() == 0 {
        Seq::empty()
    } else if parts.len() == 1 {
        parts[0]
    } else {
        join(parts.drop_last(), sep) + sep + parts.last()
    }
}

/// The strings of `parts` joined by `sep`.
pub fn join_strings(parts: &Vec<String>, sep: &str) -> (r: String)
    ensures
        r@ == join(strings_view(parts@), sep@),
{
    let mut r = String::new();
    let ghost sv = strings_view(parts@);
    for i in 0..parts.len()
        invariant
            sv == strings_view(parts@),
            sv.len() == parts@.len(),
            r@ == join(sv.take(i as int), sep@),
    {
        if i != 0 {
            push_str(&mut r, sep);
        }
        push_str(&mut r, parts[i].as_str());
        proof {
            assert(sv.take(i + 1).drop_last() =~= sv.take(i as int));
            assert(sv[i as int] == parts@[i as int]@);
            if i == 0 {
                assert(r@ =~= sv.take(1)[0]);
            }
        }
    }
    assert(sv.take(parts.len() as int) =~= sv);
    r
}

/// Do `a` and `b` hold the same text?
pub fn same_text(a: &str, b: &str) -> (r: bool)
    ensures
        r == (a@ == b@),
{
    String::from_str(a) == String::from_str(b)
}

/// Is `s` among the strings of `v`?
pub fn contains_text(v: &Vec<String>, s: &str) -> (b: bool)
    ensures
        b == strings_view(v@).contains(s@),
{
    let target = String::from_str(s);
    for i in 0..v.len()
        invariant
            target@ == s@,
            forall|k: int| 0 <= k < i ==> v@[k]@ != s@,
    {
        if v[i] == target {
            assert(strings_view(v@)[i as int] == s@);
            return true;
        }
    }
    proof {
        if strings_view(v@).contains(s@) {
            let k = choose|k: int| 0 <= k < strings_view(v@).len() && strings_view(v@)[k] == s@;
            assert(v@[k]@ == s@);
        }
    }
    false
}

/// `s` with each occurrence of `from`, found from the left and without
/// overlap, replaced by `to` (`str::replace` with a pattern that is not
/// empty).
pub open spec fn replaced(s: Seq<char>, from: Seq<char>, to: Seq<char>) -> Seq<char>
    recommends
        from.len() > 0,
    decreases s.len(),
{
    if s.len() == 0 || from.len() == 0 {
        s
    } else if starts_with(s, from) {
        to + replaced(s.skip(from.len() as int), from, to)
    } else {
        seq![s[0]] + replaced(s.drop_first(), from, to)
    }
}

/// Does `f` occur in `v` at `i`?
fn occurs_at(v: &Vec<char>, i: usize, f: &Vec<char>) -> (b: bool)
    requires
        i <= v@.len(),
    ensures
        b == starts_with(v@.skip(i as int), f@),
{
    if f.len() > v.len() - i {
        return false;
    }
    for k in 0..f.len()
        invariant
            f@.len() <= v@.len() - i,
            i <= v@.len(),
            v@.len() <= usize::MAX,
            forall|j: int| 0 <= j < k ==> v@[i + j] == f@[j],
    {
        if v[i + k] != f[k] {
            assert(v@.skip(i as int).take(f@.len() as int)[k as int] != f@[k as int]);
            return false;
        }
    }
    assert(v@.skip(i as int).take(f@.len() as int) =~= f@);
    true
}

/// `s` with each occurrence of `from`, found from the left and without
/// overlap, replaced by `to`.
pub fn replace_all(s: &str, from: &str, to: &str) -> (r: String)
    requires
        from@.len() > 0,
    ensures
        r@ == replaced(s@, from@, to@),
{
    let v = chars_of(s);
    let f = chars_of(from);
    let mut r = String::new();
    let mut i: usize = 0;
    assert(v@.skip(0) =~= v@);
    while i < v.len()
        invariant
            v@ == s@,
            f@ == from@,
            f@.len() > 0,
            i <= v@.len(),
            r@ + replaced(v@.skip(i as int), f@, to@) == replaced(s@, from@, to@),
        decreases v@.len() - i,
    {
        let ghost rest = v@.skip(i as int);
        if occurs_at(&v, i, &f) {
            assert(rest.skip(f@.len() as int) =~= v@.skip(i + f@.len()));
            push_str(&mut r, to);
            i = i + f.len();
            assert(r@ + replaced(v@.skip(i as int), f@, to@) =~= replaced(s@, from@, to@));
        } else {
            assert(rest.drop_first() =~= v@.skip(i + 1));
            assert(rest[0] == v@[i as int]);
            push_char(&mut r, v[i]);
            i = i + 1;
            assert(r@ + replaced(v@.skip(i as int), f@, to@) =~= replaced(s@, from@, to@));
        }
    }
    assert(v@.skip(i as int) =~= Seq::<char>::empty());
    assert(r@ + Seq::<char>::empty() =~= r@);
    r
}

/// A copy of the strings.
pub fn clone_strings(v: &Vec<String>) -> (r: Vec<String>)
    ensures
        r@ == v@,
{
    let mut r: Vec<String> = Vec::new();
    for i in 0..v.len()
        invariant
            r@ == v@.take(i as int),
    {
        r.push(v[i].clone());
        assert(r@ =~= v@.take(i + 1));
    }
    assert(v@.take(v.len() as int) =~= v@);
    r
}

/// `prefix` followed by `inner`.
pub fn prefixed(prefix: &str, inner: &str) -> (r: String)
    ensures
        r@ == prefix@ + inner@,
{
    let mut r = String::from_str(prefix);
    push_str(&mut r, inner);
    r
}

/// `inner` between `prefix` and `suffix`.
pub fn wrapped(prefix: &str, inner: &str, suffix: &str) -> (r: String)
    ensures
        r@ == prefix@ + inner@ + suffix@,
{
    let mut r = String::from_str(prefix);
    push_str(&mut r, inner);
    push_str(&mut r, suffix);
    r
}

/// The number of bytes of the UTF-8 encoding of a character.
pub open spec fn char_width(c: char) -> nat {
    vstd::utf8::encode_utf8(seq![c]).len()
}

/// The longest beginning of `s` whose UTF-8 encoding takes at most `n`
/// bytes.
pub open spec fn utf8_prefix(s: Seq<char>, n: nat) -> Seq<char>
    decreases s.len(),
{
    if s.len() == 0 || char_width(s[0]) > n {
        Seq::empty()
    } else {
        seq![s[0]] + utf8_prefix(s.drop_first(), (n - char_width(s[0])) as nat)
    }
}

/// The longest beginning of `s` whose UTF-8 encoding takes at most `n`
/// bytes.
pub fn truncate_bytes(s: &str, n: usize) -> (r: String)
    ensures
        r@ == utf8_prefix(s@, n as nat),
{
    let v = chars_of(s);
    let mut r = String::new();
    let mut i: usize = 0;
    let mut left: usize = n;
    assert(v@.skip(0) =~= v@);
    assert(v@.skip(v@.len() as int) =~= Seq::<char>::empty());
    while i < v.len()
        invariant_except_break
            v@ == s@,
            i <= v@.len(),
            v@.skip(v@.len() as int) == Seq::<char>::empty(),
            r@ + utf8_prefix(v@.skip(i as int), left as nat) == utf8_prefix(s@, n as nat),
        ensures
            r@ == utf8_prefix(s@, n as nat),
        decreases v@.len() - i,
    {
        let ghost rest = v@.skip(i as int);
        assert(rest[0] == v@[i as int]);
        let mut one = String::new();
        push_char(&mut one, v[i]);
        let w = one.as_str().len();
        proof {
            let c = v@[i as int];
            assert(one@ =~= seq![c]);
            assert(seq![c].drop_first() =~= Seq::<char>::empty());
            assert(seq![c][0] == c);
            assert(vstd::utf8::encode_utf8(Seq::<char>::empty()) =~= Seq::<u8>::empty());
            assert(vstd::utf8::encode_scalar(c as u32).len() <= 4);
            assert(vstd::utf8::encode_utf8(seq![c]) =~= vstd::utf8::encode_scalar(c as u32) + Seq::<u8>::empty());
            assert(char_width(c) <= 4);
        }
        if w > left {
            assert(r@ + Seq::<char>::empty() =~= r@);
            break;
        }
        push_char(&mut r, v[i]);
        assert(rest.drop_first() =~= v@.skip(i + 1));
        left = left - w;
        i = i + 1;
        assert(r@ + utf8_prefix(v@.skip(i as int), left as nat) =~= utf8_prefix(s@, n as nat));
    }
    r
}

} // verus!

verus! {

/// Is `a` before `b` in the order of `str`, which compares character by
/// character (by code point), a proper beginning coming first?
pub open spec fn text_lt(a: Seq<char>, b: Seq<char>) -> bool
    decreases a.len(),
{
    if b.len() == 0 {
        false
    } else if a.len() == 0 {
        true
    } else if a[0] != b[0] {
        (a[0] as int) < (b[0] as int)
    } else {
        text_lt(a.drop_first(), b.drop_first())
    }
}

/// The order of texts is transitive.
pub proof fn lemma_text_lt_transitive(a: Seq<char>, b: Seq<char>, c: Seq<char>)
    requires
        text_lt(a, b),
        text_lt(b, c),
    ensures
        text_lt(a, c),
    decreases a.len(),
{
    if a.len() > 0 && b.len() > 0 && c.len() > 0 && a[0] == b[0] && b[0] == c[0] {
        lemma_text_lt_transitive(a.drop_first(), b.drop_first(), c.drop_first());
    }
}

/// Of two different texts, one comes before the other, and never both.
pub proof fn lemma_text_lt_total(a: Seq<char>, b: Seq<char>)
    ensures
        a != b ==> text_lt(a, b) || text_lt(b, a),
        !(text_lt(a, b) && text_lt(b, a)),
        !text_lt(a, a),
    decreases a.len(),
{
    if a.len() > 0 {
        lemma_text_lt_total(a.drop_first(), a.drop_first());
    }
    if a.len() > 0 && b.len() > 0 {
        lemma_text_lt_total(a.drop_first(), b.drop_first());
        if a[0] == b[0] && a.drop_first() == b.drop_first() {
            assert forall|k: int| 0 <= k < a.len() implies a[k] == b[k] by {
                if k > 0 {
                    assert(a[k] == a.drop_first()[k - 1]);
                    assert(b[k] == b.drop_first()[k - 1]);
                }
            }
            assert(a =~= b);
        }
    } else if a.len() == 0 && b.len() == 0 {
        assert(a =~= b);
    }
}

/// Does `a` come before `b` in the order of `str`?
pub fn text_before(a: &str, b: &str) -> (r: bool)
    ensures
        r == text_lt(a@, b@),
{
    let x = chars_of(a);
    let y = chars_of(b);
    let mut i: usize = 0;
    assert(x@.skip(0) =~= x@);
    assert(y@.skip(0) =~= y@);
    while i < x.len() && i < y.len() && x[i] == y[i]
        invariant
            x@ == a@,
            y@ == b@,
            i <= x@.len(),
            i <= y@.len(),
            text_lt(x@.skip(i as int), y@.skip(i as int)) == text_lt(a@, b@),
        decreases x@.len() - i,
    {
        assert(x@.skip(i as int).drop_first() =~= x@.skip(i + 1));
        assert(y@.skip(i as int).drop_first() =~= y@.skip(i + 1));
        i = i + 1;
    }
    if i == y.len() {
        assert(y@.skip(i as int).len() == 0);
        false
    } else if i == x.len() {
        assert(x@.skip(i as int).len() == 0);
        true
    } else {
        assert(x@.skip(i as int)[0] == x@[i as int]);
        assert(y@.skip(i as int)[0] == y@[i as int]);
        x[i] < y[i]
    }
}

} // verus!
