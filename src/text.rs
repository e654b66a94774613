use vstd::prelude::*;

verus! {

/// The views of a sequence of strings.
pub open spec fn text_views(s: Seq<String>) -> Seq<Seq<char>> {
    s.map_values(|t: String| t@)
}

/// Whether `c` has the Unicode White_Space property, the test that
/// `char::is_whitespace` and `str::trim` apply: tab to carriage return,
/// space, next line, no-break space, ogham space mark, the spaces from en
/// quad to hair space, line and paragraph separators, narrow no-break space,
/// medium mathematical space and ideographic space.
pub open spec fn white_space(c: char) -> bool {
    let u = c as u32;
    (0x9 <= u <= 0xD) || u == 0x20 || u == 0x85 || u == 0xA0 || u == 0x1680 || (0x2000 <= u
        <= 0x200A) || u == 0x2028 || u == 0x2029 || u == 0x202F || u == 0x205F || u == 0x3000
}

/// A text is blank when every character in it is white space (the empty text included).
pub open spec fn is_blank(s: Seq<char>) -> bool {
    forall|i: int| 0 <= i < s.len() ==> white_space(#[trigger] s[i])
}

/// Whether `c` has the Unicode White_Space property.
pub fn is_white_space(c: char) -> (r: bool)
    ensures
        r == white_space(c),
{
    let u = c as u32;
    (0x9 <= u && u <= 0xD) || u == 0x20 || u == 0x85 || u == 0xA0 || u == 0x1680 || (0x2000 <= u
        && u <= 0x200A) || u == 0x2028 || u == 0x2029 || u == 0x202F || u == 0x205F || u == 0x3000
}

/// Relies on `String::push`: appends the character at the end.
#[verifier::external_body]
pub(crate) fn push_char(s: &mut String, c: char)
    ensures
        final(s)@ == old(s)@.push(c),
{
    s.push(c)
}

/// Relies on `String::pop`: removes and returns the last character, `None` when empty.
#[verifier::external_body]
pub(crate) fn pop_char(s: &mut String) -> (r: Option<char>)
    ensures
        old(s)@.len() == 0 ==> r is None && final(s)@ == old(s)@,
        old(s)@.len() > 0 ==> r == Some(old(s)@.last()) && final(s)@ == old(s)@.drop_last(),
{
    s.pop()
}

/// Whether `s` holds only white space; the same as `s.trim().is_empty()`.
pub fn blank(s: &str) -> (r: bool)
    ensures
        r == is_blank(s@),
{
    let n = s.unicode_len();
    let mut i: usize = 0;
    while i < n
        invariant
            n == s@.len(),
            i <= n,
            forall|k: int| 0 <= k < i ==> white_space(#[trigger] s@[k]),
        decreases n - i,
    {
        let c = s.get_char(i);
        if !is_white_space(c) {
            return false;
        }
        i = i + 1;
    }
    true
}

/// `a` and `b` agree on their first `i` characters.
pub open spec fn same_prefix(a: Seq<char>, b: Seq<char>, i: int) -> bool {
    forall|j: int| 0 <= j < i ==> a[j] == b[j]
}

/// `a` and `b` first differ at position `i`, where `a` ends or has the smaller character.
pub open spec fn lt_at(a: Seq<char>, b: Seq<char>, i: int) -> bool {
    &&& 0 <= i <= a.len()
    &&& i < b.len()
    &&& same_prefix(a, b, i)
    &&& (i == a.len() || (a[i] as u32) < (b[i] as u32))
}

/// `a` comes before `b` in lexicographic order of code points.
pub open spec fn text_lt(a: Seq<char>, b: Seq<char>) -> bool {
    exists|i: int| lt_at(a, b, i)
}

/// Lexicographic order is transitive.
pub proof fn lemma_text_lt_transitive(a: Seq<char>, b: Seq<char>, c: Seq<char>)
    requires
        text_lt(a, b),
        text_lt(b, c),
    ensures
        text_lt(a, c),
{
    let i = choose|i: int| lt_at(a, b, i);
    let k = choose|k: int| lt_at(b, c, k);
    if i < k {
        assert(b[i] == c[i]);
        assert(lt_at(a, c, i));
    } else if k < i {
        assert(a[k] == b[k]);
        assert(lt_at(a, c, k));
    } else {
        assert(lt_at(a, c, i));
    }
}

/// Compares two texts in lexicographic order of code points: negative when
/// `a` comes first, zero when they are equal, positive when `b` comes first.
pub fn compare_text(a: &str, b: &str) -> (r: i8)
    ensures
        r < 0 <==> text_lt(a@, b@),
        r == 0 <==> a@ == b@,
        r > 0 <==> text_lt(b@, a@),
{
    let n = a.unicode_len();
    let m = b.unicode_len();
    let mut i: usize = 0;
    while i < n && i < m
        invariant
            n == a@.len(),
            m == b@.len(),
            i <= n,
            i <= m,
            same_prefix(a@, b@, i as int),
        decreases n - i,
    {
        let x = a.get_char(i);
        let y = b.get_char(i);
        if x != y {
            if (x as u32) < (y as u32) {
                assert(lt_at(a@, b@, i as int));
                proof { lemma_no_lt_back(a@, b@, i as int); }
                return -1;
            } else {
                assert(lt_at(b@, a@, i as int));
                proof { lemma_no_lt_back(b@, a@, i as int); }
                return 1;
            }
        }
        i = i + 1;
    }
    if i == n && i == m {
        assert(a@ =~= b@);
        0
    } else if i == n {
        assert(lt_at(a@, b@, i as int));
        proof { lemma_no_lt_back(a@, b@, i as int); }
        -1
    } else {
        assert(lt_at(b@, a@, i as int));
        proof { lemma_no_lt_back(b@, a@, i as int); }
        1
    }
}

/// When `a` comes before `b` by their first difference at `i`, `b` does not
/// come before `a`, and the two differ.
proof fn lemma_no_lt_back(a: Seq<char>, b: Seq<char>, i: int)
    requires
        lt_at(a, b, i),
    ensures
        !text_lt(b, a),
        a != b,
{
    if text_lt(b, a) {
        let k = choose|k: int| lt_at(b, a, k);
        if k < i {
            assert(a[k] == b[k]);
        } else if i < k {
            assert(a[i] == b[i]);
        }
    }
    if a == b {
        if i < a.len() {
            assert(a[i] == b[i]);
        }
    }
}

} // verus!
