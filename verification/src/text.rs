use vstd::prelude::*;
use vstd::string::*;
use vstd::utf8::*;

verus! {

/// `needle` occurs in `hay` starting at position `i`.
pub open spec fn occurs_at(needle: Seq<char>, hay: Seq<char>, i: int) -> bool {
    &&& 0 <= i
    &&& i + needle.len() <= hay.len()
    &&& hay.subrange(i, i + needle.len()) == needle
}

/// `needle` occurs somewhere in `hay` (the empty text occurs everywhere).
pub open spec fn is_substring(needle: Seq<char>, hay: Seq<char>) -> bool {
    exists|i: int| #[trigger] occurs_at(needle, hay, i)
}

/// The characters of a text, in order.
pub fn chars_of(s: &str) -> (v: Vec<char>)
    ensures
        v@ == s@,
{
    let n = s.unicode_len();
    let mut v: Vec<char> = Vec::new();
    let mut i: usize = 0;
    while i < n
        invariant
            n == s@.len(),
            i <= n,
            v@ == s@.subrange(0, i as int),
        decreases n - i,
    {
        let c = s.get_char(i);
        v.push(c);
        i = i + 1;
    }
    v
}

fn matches_at(hay: &Vec<char>, needle: &Vec<char>, start: usize) -> (b: bool)
    requires
        start + needle@.len() <= hay@.len(),
    ensures
        b == (hay@.subrange(start as int, start + needle@.len()) == needle@),
{
    let n = needle.len();
    let hay_len = hay.len();
    let mut j: usize = 0;
    while j < n
        invariant
            n == needle@.len(),
            hay_len == hay@.len(),
            start + n <= hay@.len(),
            j <= n,
            forall|k: int| 0 <= k < j ==> hay@[start + k] == needle@[k],
        decreases n - j,
    {
        if hay[start + j] != needle[j] {
            assert(hay@.subrange(start as int, start + n)[j as int] != needle@[j as int]);
            return false;
        }
        j = j + 1;
    }
    assert(hay@.subrange(start as int, start + n) =~= needle@);
    true
}

/// Whether `needle` occurs in `hay`, as `str::contains` answers it.
pub fn contains(hay: &str, needle: &str) -> (b: bool)
    ensures
        b == is_substring(needle@, hay@),
{
    let h = chars_of(hay);
    let nd = chars_of(needle);
    if nd.len() == 0 {
        assert(hay@.subrange(0, 0) =~= needle@);
        assert(occurs_at(needle@, hay@, 0));
        return true;
    }
    if nd.len() > h.len() {
        assert forall|i: int| !occurs_at(needle@, hay@, i) by {}
        return false;
    }
    let last = h.len() - nd.len();
    let mut i: usize = 0;
    while i <= last
        invariant
            h@ == hay@,
            nd@ == needle@,
            last == h@.len() - nd@.len(),
            nd@.len() > 0,
            h@.len() <= usize::MAX,
            i <= last + 1,
            forall|k: int| 0 <= k < i ==> !occurs_at(needle@, hay@, k),
        decreases last + 1 - i,
    {
        if matches_at(&h, &nd, i) {
            assert(occurs_at(needle@, hay@, i as int));
            return true;
        }
        i = i + 1;
    }
    assert forall|k: int| !occurs_at(needle@, hay@, k) by {
        if 0 <= k < i {
        }
    }
    false
}

/// A character's code with ASCII capitals folded to small letters, as
/// Windows compares file names.
pub open spec fn fold_case(c: char) -> int {
    let v = c as int;
    if 65 <= v <= 90 {
        v + 32
    } else {
        v
    }
}

/// Two texts that differ at most in the case of ASCII letters.
pub open spec fn same_ignoring_case(a: Seq<char>, b: Seq<char>) -> bool {
    &&& a.len() == b.len()
    &&& forall|i: int| 0 <= i < a.len() ==> #[trigger] fold_case(a[i]) == fold_case(b[i])
}

/// Whether two characters are equal ignoring the case of ASCII letters.
pub fn chars_match(a: char, b: char) -> (r: bool)
    ensures
        r == (fold_case(a) == fold_case(b)),
{
    let x = a as u32;
    let y = b as u32;
    let fx = if 65 <= x && x <= 90 {
        x + 32
    } else {
        x
    };
    let fy = if 65 <= y && y <= 90 {
        y + 32
    } else {
        y
    };
    fx == fy
}

/// Whether `needle` stands in `hay` at `start`, ignoring the case of ASCII
/// letters.
pub fn matches_ignoring_case_at(hay: &Vec<char>, needle: &Vec<char>, start: usize) -> (b: bool)
    requires
        start + needle@.len() <= hay@.len(),
    ensures
        b == same_ignoring_case(hay@.subrange(start as int, start + needle@.len()), needle@),
{
    let n = needle.len();
    let hay_len = hay.len();
    let mut j: usize = 0;
    while j < n
        invariant
            n == needle@.len(),
            hay_len == hay@.len(),
            start + n <= hay@.len(),
            j <= n,
            forall|k: int| 0 <= k < j ==> fold_case(hay@[start + k]) == fold_case(needle@[k]),
        decreases n - j,
    {
        if !chars_match(hay[start + j], needle[j]) {
            assert(hay@.subrange(start as int, start + n)[j as int] == hay@[start + j]);
            return false;
        }
        j = j + 1;
    }
    assert forall|k: int| 0 <= k < n implies #[trigger] fold_case(
        hay@.subrange(start as int, start + n)[k],
    ) == fold_case(needle@[k]) by {
        assert(hay@.subrange(start as int, start + n)[k] == hay@[start + k]);
    }
    true
}

/// The decimal digit for `d`, which is below ten.
pub open spec fn digit_char(d: int) -> char {
    if d == 0 {
        '0'
    } else if d == 1 {
        '1'
    } else if d == 2 {
        '2'
    } else if d == 3 {
        '3'
    } else if d == 4 {
        '4'
    } else if d == 5 {
        '5'
    } else if d == 6 {
        '6'
    } else if d == 7 {
        '7'
    } else if d == 8 {
        '8'
    } else {
        '9'
    }
}

/// The decimal rendering of `n`, most significant digit first, without
/// leading zeros (zero itself is "0").
pub open spec fn decimal(n: nat) -> Seq<char>
    decreases n,
{
    if n < 10 {
        seq![digit_char(n as int)]
    } else {
        decimal(n / 10).push(digit_char((n % 10) as int))
    }
}

fn digit_text(d: u32) -> (s: &'static str)
    requires
        d < 10,
    ensures
        s@ == seq![digit_char(d as int)],
{
    proof {
        reveal_strlit("0");
        reveal_strlit("1");
        reveal_strlit("2");
        reveal_strlit("3");
        reveal_strlit("4");
        reveal_strlit("5");
        reveal_strlit("6");
        reveal_strlit("7");
        reveal_strlit("8");
        reveal_strlit("9");
    }
    if d == 0 {
        "0"
    } else if d == 1 {
        "1"
    } else if d == 2 {
        "2"
    } else if d == 3 {
        "3"
    } else if d == 4 {
        "4"
    } else if d == 5 {
        "5"
    } else if d == 6 {
        "6"
    } else if d == 7 {
        "7"
    } else if d == 8 {
        "8"
    } else {
        "9"
    }
}

/// The decimal text of `n`, as `u32::to_string` writes it.
pub fn decimal_string(n: u32) -> (s: String)
    ensures
        s@ == decimal(n as nat),
    decreases n,
{
    if n < 10 {
        String::from_str(digit_text(n))
    } else {
        let mut s = decimal_string(n / 10);
        s.append(digit_text(n % 10));
        s
    }
}

/// Names the text that `String::from_utf8_lossy` makes of a byte sequence.
pub uninterp spec fn utf8_lossy(bytes: Seq<u8>) -> Seq<char>;

/// Calls `String::from_utf8_lossy`. Claimed: the result is the named
/// decoding of the bytes, and on valid UTF-8 it is the plain decoding, as
/// the standard library's documentation says (invalid sequences become
/// U+FFFD; what that gives on invalid input is left to the name).
#[verifier::external_body]
pub(crate) fn decode_utf8_lossy(bytes: &[u8]) -> (s: String)
    ensures
        s@ == utf8_lossy(bytes@),
        valid_utf8(bytes@) ==> s@ == decode_utf8(bytes@),
{
    String::from_utf8_lossy(bytes).into_owned()
}

} // verus!
