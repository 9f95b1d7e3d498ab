//! Character-level helpers: file-name sanitising, trimming, substring tests,
//! decimal and hexadecimal rendering.

use vstd::prelude::*;

verus! {

/// Unicode `White_Space`: the characters that `str::trim` removes.
pub open spec fn is_white_space(c: char) -> bool {
    let u = c as u32;
    ||| 0x09 <= u <= 0x0D
    ||| u == 0x20
    ||| u == 0x85
    ||| u == 0xA0
    ||| u == 0x1680
    ||| 0x2000 <= u <= 0x200A
    ||| u == 0x2028
    ||| u == 0x2029
    ||| u == 0x202F
    ||| u == 0x205F
    ||| u == 0x3000
}

/// Number of white-space characters at the front of `s`.
pub open spec fn leading_white_space(s: Seq<char>) -> nat
    decreases s.len(),
{
    if s.len() > 0 && is_white_space(s[0]) {
        1 + leading_white_space(s.drop_first())
    } else {
        0
    }
}

/// Number of white-space characters at the end of `s`.
pub open spec fn trailing_white_space(s: Seq<char>) -> nat
    decreases s.len(),
{
    if s.len() > 0 && is_white_space(s.last()) {
        1 + trailing_white_space(s.drop_last())
    } else {
        0
    }
}

/// `s` without its leading and trailing white space.
pub open spec fn trimmed(s: Seq<char>) -> Seq<char> {
    if leading_white_space(s) == s.len() {
        Seq::empty()
    } else {
        s.subrange(leading_white_space(s) as int, s.len() - trailing_white_space(s))
    }
}

/// `needle` occurs in `hay` as a contiguous piece.
pub open spec fn occurs_in(needle: Seq<char>, hay: Seq<char>) -> bool {
    exists|i: int| 0 <= i && i + needle.len() <= hay.len() && #[trigger] hay.subrange(i, i + needle.len()) == needle
}

/// The leading white space of `s` is white space, and the character after it is not.
proof fn lemma_leading(s: Seq<char>)
    ensures
        leading_white_space(s) <= s.len(),
        forall|i: int| 0 <= i < leading_white_space(s) ==> is_white_space(#[trigger] s[i]),
        leading_white_space(s) < s.len() ==> !is_white_space(s[leading_white_space(s) as int]),
    decreases s.len(),
{
    if s.len() > 0 && is_white_space(s[0]) {
        lemma_leading(s.drop_first());
        assert forall|i: int| 0 <= i < leading_white_space(s) implies is_white_space(#[trigger] s[i]) by {
            if i > 0 {
                assert(s[i] == s.drop_first()[i - 1]);
            }
        }
    }
}

/// The trailing white space of `s` is white space, and the character before it is not.
proof fn lemma_trailing(s: Seq<char>)
    ensures
        trailing_white_space(s) <= s.len(),
        forall|i: int|
            s.len() - trailing_white_space(s) <= i < s.len() ==> is_white_space(#[trigger] s[i]),
        trailing_white_space(s) < s.len() ==> !is_white_space(
            s[s.len() - 1 - trailing_white_space(s)],
        ),
    decreases s.len(),
{
    if s.len() > 0 && is_white_space(s.last()) {
        lemma_trailing(s.drop_last());
        assert forall|i: int|
            s.len() - trailing_white_space(s) <= i < s.len() implies is_white_space(
            #[trigger] s[i],
        ) by {
            if i < s.len() - 1 {
                assert(s[i] == s.drop_last()[i]);
            }
        }
    }
}

/// `trimmed(s)` is a piece of `s` that neither starts nor ends with white space.
pub proof fn lemma_trimmed_is_piece(s: Seq<char>)
    ensures
        leading_white_space(s) < s.len() ==> leading_white_space(s) + trailing_white_space(s)
            < s.len(),
        forall|i: int|
            0 <= i < trimmed(s).len() ==> #[trigger] trimmed(s)[i] == s[leading_white_space(s) + i],
        trimmed(s).len() == 0 || (!is_white_space(trimmed(s)[0]) && !is_white_space(
            trimmed(s).last(),
        )),
{
    lemma_leading(s);
    lemma_trailing(s);
    let l = leading_white_space(s);
    let t = trailing_white_space(s);
    if l < s.len() {
        if t == s.len() {
            assert(is_white_space(s[l as int]));
        }
        let j = s.len() - 1 - t;
        if j < l {
            assert(is_white_space(s[j]));
        }
    }
}

/// A sanitized name holds no forbidden character.
pub proof fn lemma_sanitized_has_no_forbidden(name: Seq<char>)
    ensures
        forall|i: int| 0 <= i < sanitized(name).len() ==> !is_forbidden_in_file_name(
            #[trigger] sanitized(name)[i],
        ),
{
    let m = name.map_values(|c: char| file_name_char(c));
    lemma_trimmed_is_piece(m);
    lemma_leading(m);
    assert forall|i: int| 0 <= i < trimmed(m).len() implies !is_forbidden_in_file_name(
        #[trigger] trimmed(m)[i],
    ) by {
        let k = leading_white_space(m) + i;
        assert(m[k] == file_name_char(name[k]));
    }
}

/// `out` is `name` from position `k` on, less white space at both ends, with exactly
/// the characters `/ \\ : * ? " < > |` replaced by `_` and every other character kept.
pub open spec fn keeps_all_but_forbidden(name: Seq<char>, out: Seq<char>, k: int) -> bool {
    &&& 0 <= k
    &&& k + out.len() <= name.len()
    &&& forall|i: int| 0 <= i < k ==> is_white_space(#[trigger] name[i])
    &&& forall|i: int| k + out.len() <= i < name.len() ==> is_white_space(#[trigger] name[i])
    &&& forall|i: int|
        0 <= i < out.len() ==> #[trigger] out[i] == if name[k + i] == '/' || name[k + i] == '\\'
            || name[k + i] == ':' || name[k + i] == '*' || name[k + i] == '?' || name[k + i] == '"'
            || name[k + i] == '<' || name[k + i] == '>' || name[k + i] == '|' {
            '_'
        } else {
            name[k + i]
        }
}

/// `sanitized(name)` is `name` less white space at both ends, with exactly the nine
/// forbidden characters replaced by `_`.
pub proof fn lemma_sanitized_keeps_others(name: Seq<char>)
    ensures
        exists|k: int| #[trigger] keeps_all_but_forbidden(name, sanitized(name), k),
        (name.len() == 0 || (!is_white_space(name[0]) && !is_white_space(name.last())))
            ==> sanitized(name).len() == name.len(),
{
    let m = name.map_values(|c: char| file_name_char(c));
    lemma_trimmed_is_piece(m);
    lemma_leading(m);
    lemma_trailing(m);
    let k = leading_white_space(m) as int;
    let out = sanitized(name);
    assert forall|i: int| 0 <= i < k implies is_white_space(#[trigger] name[i]) by {
        assert(is_white_space(m[i]));
        assert(m[i] == file_name_char(name[i]));
    }
    assert forall|i: int| k + out.len() <= i < name.len() implies is_white_space(#[trigger] name[i]) by {
        assert(m[i] == file_name_char(name[i]));
        if leading_white_space(m) < m.len() {
            assert(is_white_space(m[i]));
        } else {
            assert(is_white_space(m[i]));
        }
    }
    assert forall|i: int| 0 <= i < out.len() implies #[trigger] out[i] == if name[k + i] == '/'
        || name[k + i] == '\\' || name[k + i] == ':' || name[k + i] == '*' || name[k + i] == '?'
        || name[k + i] == '"' || name[k + i] == '<' || name[k + i] == '>' || name[k + i] == '|' {
        '_'
    } else {
        name[k + i]
    } by {
        assert(out[i] == m[k + i]);
        assert(m[k + i] == file_name_char(name[k + i]));
    }
    assert(keeps_all_but_forbidden(name, out, k));
    if name.len() == 0 || (!is_white_space(name[0]) && !is_white_space(name.last())) {
        if name.len() > 0 {
            assert(m[0] == file_name_char(name[0]));
            assert(m[m.len() - 1] == file_name_char(name[name.len() - 1]));
            assert(leading_white_space(m) == 0);
            assert(trailing_white_space(m) == 0);
        }
    }
}

/// A piece without leading or trailing white space is its own trimmed form.
pub proof fn lemma_trimmed_fixed(s: Seq<char>)
    requires
        s.len() == 0 || (!is_white_space(s[0]) && !is_white_space(s.last())),
    ensures
        trimmed(s) == s,
{
    if s.len() > 0 {
        assert(leading_white_space(s) == 0);
        assert(trailing_white_space(s) == 0);
        assert(s.subrange(0, s.len() as int) =~= s);
    }
}

/// The characters that may not appear in a file name and are replaced by `_`.
pub open spec fn is_forbidden_in_file_name(c: char) -> bool {
    c == '/' || c == '\\' || c == ':' || c == '*' || c == '?' || c == '"' || c == '<' || c == '>'
        || c == '|'
}

/// `c` with a forbidden file-name character replaced by `_`.
pub open spec fn file_name_char(c: char) -> char {
    if is_forbidden_in_file_name(c) {
        '_'
    } else {
        c
    }
}

/// What `sanitize_filename` makes of `name`.
pub open spec fn sanitized(name: Seq<char>) -> Seq<char> {
    trimmed(name.map_values(|c: char| file_name_char(c)))
}

/// The decimal digit for `d`.
pub open spec fn digit_char(d: nat) -> char {
    (48 + d) as char
}

/// The decimal rendering of `n`, without sign or leading zeros.
pub open spec fn decimal(n: nat) -> Seq<char>
    decreases n,
{
    if n < 10 {
        seq![digit_char(n)]
    } else {
        decimal(n / 10).push(digit_char(n % 10))
    }
}

/// The lower-case hexadecimal digit for `d`.
pub open spec fn hex_char(d: nat) -> char {
    if d < 10 {
        (48 + d) as char
    } else {
        (87 + d) as char
    }
}

/// Two lower-case hexadecimal digits per byte, most significant first.
pub open spec fn lower_hex(bytes: Seq<u8>) -> Seq<char>
    decreases bytes.len(),
{
    if bytes.len() == 0 {
        Seq::empty()
    } else {
        lower_hex(bytes.drop_last()) + seq![
            hex_char((bytes.last() / 16) as nat),
            hex_char((bytes.last() % 16) as nat),
        ]
    }
}

/// The text of an optional string.
pub open spec fn opt_text(o: Option<String>) -> Option<Seq<char>> {
    match o {
        Some(s) => Some(s@),
        None => None,
    }
}

/// A copy of an optional string.
pub fn copy_text(v: &Option<String>) -> (res: Option<String>)
    ensures
        opt_text(res) == opt_text(*v),
{
    match v {
        Some(s) => Some(String::from_str(s.as_str())),
        None => None,
    }
}

/// Replaces every forbidden character of `name` by `_`, then trims white space.
pub fn sanitize_filename(name: &str) -> (res: String)
    ensures
        res@ == sanitized(name@),
        exists|k: int| #[trigger] keeps_all_but_forbidden(name@, res@, k),
        forall|i: int| 0 <= i < res@.len() ==> !is_forbidden_in_file_name(#[trigger] res@[i]),
        res@.len() == 0 || (!is_white_space(res@[0]) && !is_white_space(res@.last())),
{
    let mut out = String::new();
    for c in it: name.chars()
        invariant
            it.seq() == name@,
            out@ == it.history().map_values(|c: char| file_name_char(c)),
    {
        let d = if c == '/' || c == '\\' || c == ':' || c == '*' || c == '?' || c == '"' || c == '<'
            || c == '>' || c == '|' {
            '_'
        } else {
            c
        };
        push_char(&mut out, d);
    }
    assert(out@ == name@.map_values(|c: char| file_name_char(c)));
    let t = trim_white_space(out.as_str());
    proof {
        lemma_sanitized_keeps_others(name@);
        lemma_trimmed_is_piece(out@);
        lemma_leading(out@);
        assert forall|i: int| 0 <= i < trimmed(out@).len() implies !is_forbidden_in_file_name(
            #[trigger] trimmed(out@)[i],
        ) by {
            let k = leading_white_space(out@) + i;
            assert(out@[k] == file_name_char(name@[k]));
        }
    }
    String::from_str(t)
}

/// The lower-case hexadecimal rendering of `bytes`.
pub fn to_lower_hex(bytes: &[u8]) -> (res: String)
    ensures
        res@ == lower_hex(bytes@),
{
    let mut out = String::new();
    let mut i: usize = 0;
    while i < bytes.len()
        invariant
            i <= bytes@.len(),
            out@ == lower_hex(bytes@.subrange(0, i as int)),
        decreases bytes@.len() - i,
    {
        let b = bytes[i];
        let hi = b / 16;
        let lo = b % 16;
        let hc = if hi < 10 { (48 + hi) as char } else { (87 + hi) as char };
        let lc = if lo < 10 { (48 + lo) as char } else { (87 + lo) as char };
        push_char(&mut out, hc);
        push_char(&mut out, lc);
        proof {
            assert(bytes@.subrange(0, i + 1).drop_last() == bytes@.subrange(0, i as int));
        }
        i = i + 1;
    }
    proof {
        assert(bytes@.subrange(0, bytes@.len() as int) == bytes@);
    }
    out
}

/// The concatenation of three strings.
pub fn concat3(a: &str, b: &str, c: &str) -> (res: String)
    ensures
        res@ == a@ + b@ + c@,
{
    let mut out = String::from_str(a);
    out.append(b);
    out.append(c);
    out
}

/// Appends one character to a string (`String::push`).
#[verifier::external_body]
pub(crate) fn push_char(s: &mut String, c: char)
    ensures
        final(s)@ == old(s)@.push(c),
{
    s.push(c);
}

/// `str::trim`: the piece of `s` without leading and trailing Unicode white space.
#[verifier::external_body]
pub(crate) fn trim_white_space(s: &str) -> (res: &str)
    ensures
        res@ == trimmed(s@),
{
    s.trim()
}

/// `str::contains` with a string pattern: whether `needle` occurs in `hay`.
#[verifier::external_body]
pub(crate) fn contains_str(hay: &str, needle: &str) -> (res: bool)
    ensures
        res == occurs_in(needle@, hay@),
{
    hay.contains(needle)
}

/// `==` on string slices: whether both hold the same characters.
#[verifier::external_body]
pub(crate) fn str_equal(a: &str, b: &str) -> (res: bool)
    ensures
        res == (a@ == b@),
{
    a == b
}

/// `u64::to_string`: the decimal rendering of `n`.
#[verifier::external_body]
pub(crate) fn decimal_string(n: u64) -> (res: String)
    ensures
        res@ == decimal(n as nat),
{
    n.to_string()
}

} // verus!
