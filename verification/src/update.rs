use vstd::prelude::*;
use vstd::arithmetic::power::pow;

use crate::command::owned;
use crate::ollama::{json_member, json_text, member, text_of, JsonValue};

verus! {

/// The version of this build.
pub open spec fn running_version() -> Seq<char> {
    "1.0.0"@
}

/// Where the release manifest is published.
pub fn update_manifest_url() -> (u: String)
    ensures
        u@ == "https://oswave.io/updates/latest.json"@,
{
    owned("https://oswave.io/updates/latest.json")
}

/// The version of this build.
pub fn current_version() -> (v: String)
    ensures
        v@ == running_version(),
{
    owned("1.0.0")
}

/// A numeric field of a release version: decimal digits, without a leading
/// zero unless it is `0` itself.
pub open spec fn is_numeric_field(x: Seq<char>) -> bool {
    &&& 1 <= x.len()
    &&& forall|i: int| 0 <= i < x.len() ==> '0' <= #[trigger] x[i] <= '9'
    &&& (x.len() == 1 || x[0] != '0')
}

/// The number a field of decimal digits stands for.
pub open spec fn field_value(x: Seq<char>) -> int
    decreases x.len(),
{
    if x.len() == 0 {
        0
    } else {
        field_value(x.drop_last()) * 10 + (x.last() as int - '0' as int)
    }
}

/// `s` is the release version `a.b.c`, each of the three a numeric field.
pub open spec fn is_release(s: Seq<char>, a: Seq<char>, b: Seq<char>, c: Seq<char>) -> bool {
    &&& is_numeric_field(a)
    &&& is_numeric_field(b)
    &&& is_numeric_field(c)
    &&& s == a + seq!['.'] + b + seq!['.'] + c
}

/// Version `(x, y, z)` comes after this build's version, 1.0.0.
pub open spec fn after_running(x: int, y: int, z: int) -> bool {
    x > 1 || (x == 1 && (y > 0 || (y == 0 && z > 0)))
}

/// `s` names a release that comes after this build: a version of three
/// numeric fields, compared field by field with 1.0.0.
pub open spec fn is_newer_release(s: Seq<char>) -> bool {
    exists|a: Seq<char>, b: Seq<char>, c: Seq<char>|
        #[trigger] is_release(s, a, b, c) && after_running(field_value(a), field_value(b), field_value(c))
}

/// A value capped at 2: enough to compare a field with 0 and 1.
pub open spec fn capped(v: int) -> int {
    if v >= 2 {
        2
    } else {
        v
    }
}

fn next_dot(v: &Vec<char>, from: usize) -> (r: usize)
    requires
        from <= v@.len(),
    ensures
        from <= r <= v@.len(),
        forall|k: int| from <= k < r ==> v@[k] != '.',
        r < v@.len() ==> v@[r as int] == '.',
{
    let n = v.len();
    let mut i = from;
    while i < n
        invariant
            n == v@.len(),
            from <= i <= n,
            forall|k: int| from <= k < i ==> v@[k] != '.',
        decreases n - i,
    {
        if v[i] == '.' {
            return i;
        }
        i = i + 1;
    }
    i
}

fn numeric_field(v: &Vec<char>, lo: usize, hi: usize) -> (r: Option<u8>)
    requires
        lo <= hi <= v@.len(),
    ensures
        r is Some <==> is_numeric_field(v@.subrange(lo as int, hi as int)),
        r matches Some(x) ==> x == capped(field_value(v@.subrange(lo as int, hi as int))),
{
    let ghost f = v@.subrange(lo as int, hi as int);
    if lo == hi {
        return None;
    }
    if hi - lo > 1 && v[lo] == '0' {
        assert(f[0] == '0');
        return None;
    }
    let mut x: u8 = 0;
    let mut k = lo;
    assert(v@.subrange(lo as int, lo as int) =~= Seq::<char>::empty());
    while k < hi
        invariant
            lo <= k <= hi <= v@.len(),
            f == v@.subrange(lo as int, hi as int),
            forall|i: int| lo <= i < k ==> '0' <= #[trigger] v@[i] <= '9',
            field_value(v@.subrange(lo as int, k as int)) >= 0,
            x == capped(field_value(v@.subrange(lo as int, k as int))),
        decreases hi - k,
    {
        let c = v[k];
        if c < '0' || c > '9' {
            assert(f[k - lo] == c);
            return None;
        }
        let d = (c as u32 - '0' as u32) as u8;
        proof {
            let pre = v@.subrange(lo as int, k + 1);
            assert(pre.drop_last() =~= v@.subrange(lo as int, k as int));
            assert(pre.last() == c);
        }
        x = if x >= 2 || x * 10 + d >= 2 {
            2
        } else {
            x * 10 + d
        };
        k = k + 1;
    }
    assert(v@.subrange(lo as int, hi as int) =~= f);
    assert forall|i: int| 0 <= i < f.len() implies '0' <= #[trigger] f[i] <= '9' by {
        assert(f[i] == v@[lo + i]);
    }
    Some(x)
}

/// Whether `version` names a release after this build, as
/// [`is_newer_release`] says.
pub fn newer_release(version: &String) -> (b: bool)
    ensures
        b == is_newer_release(version@),
{
    let v = crate::text::chars_of(version.as_str());
    let n = v.len();
    let d1 = next_dot(&v, 0);
    if d1 == n {
        proof {
            assert forall|a: Seq<char>, b: Seq<char>, c: Seq<char>| !#[trigger] is_release(version@, a, b, c) by {
                if is_release(version@, a, b, c) {
                    assert(version@[a.len() as int] == '.');
                }
            }
        }
        return false;
    }
    let d2 = next_dot(&v, d1 + 1);
    if d2 == n {
        proof {
            assert forall|a: Seq<char>, b: Seq<char>, c: Seq<char>| !#[trigger] is_release(version@, a, b, c) by {
                if is_release(version@, a, b, c) {
                    lemma_release_dots(version@, a, b, c);
                }
            }
        }
        return false;
    }
    let ghost a0 = v@.subrange(0, d1 as int);
    let ghost b0 = v@.subrange(d1 + 1, d2 as int);
    let ghost c0 = v@.subrange(d2 + 1, n as int);
    proof {
        assert(v@ =~= a0 + seq!['.'] + b0 + seq!['.'] + c0);
        assert forall|a: Seq<char>, b: Seq<char>, c: Seq<char>| #[trigger] is_release(version@, a, b, c)
            implies a == a0 && b == b0 && c == c0 by {
            lemma_release_dots(version@, a, b, c);
            assert(a =~= a0);
            assert(b =~= b0);
            assert(c =~= c0);
        }
    }
    let x = numeric_field(&v, 0, d1);
    let y = numeric_field(&v, d1 + 1, d2);
    let z = numeric_field(&v, d2 + 1, n);
    match (x, y, z) {
        (Some(x), Some(y), Some(z)) => {
            proof {
                assert(is_release(version@, a0, b0, c0));
            }
            x > 1 || (x == 1 && (y > 0 || (y == 0 && z > 0)))
        },
        _ => false,
    }
}

/// Where `s` is the release `a.b.c`, its two dots stand right after `a`
/// and right after `a.b`, and no dot stands in any of the three fields.
proof fn lemma_release_dots(s: Seq<char>, a: Seq<char>, b: Seq<char>, c: Seq<char>)
    requires
        is_release(s, a, b, c),
    ensures
        s[a.len() as int] == '.',
        s[(a.len() + 1 + b.len()) as int] == '.',
        forall|k: int| 0 <= k < a.len() ==> s[k] != '.' && s[k] == a[k],
        forall|k: int| 0 <= k < b.len() ==> s[a.len() + 1 + k] != '.' && s[a.len() + 1 + k] == b[k],
        forall|k: int|
            0 <= k < c.len() ==> s[a.len() + 2 + b.len() + k] != '.' && s[a.len() + 2 + b.len() + k]
                == c[k],
        s.len() == a.len() + b.len() + c.len() + 2,
{
    assert forall|k: int| 0 <= k < a.len() implies s[k] != '.' && s[k] == a[k] by {
        assert('0' <= a[k] <= '9');
    }
    assert forall|k: int| 0 <= k < b.len() implies s[a.len() + 1 + k] != '.' && s[a.len() + 1 + k] == b[k] by {
        assert('0' <= b[k] <= '9');
    }
    assert forall|k: int| 0 <= k < c.len() implies s[a.len() + 2 + b.len() + k] != '.' && s[a.len() + 2
        + b.len() + k] == c[k] by {
        assert('0' <= c[k] <= '9');
    }
}

/// A release splits into its three fields in one way only.
proof fn lemma_release_unique(
    s: Seq<char>,
    a: Seq<char>,
    b: Seq<char>,
    c: Seq<char>,
    a2: Seq<char>,
    b2: Seq<char>,
    c2: Seq<char>,
)
    requires
        is_release(s, a, b, c),
        is_release(s, a2, b2, c2),
    ensures
        a == a2,
        b == b2,
        c == c2,
{
    lemma_release_dots(s, a, b, c);
    lemma_release_dots(s, a2, b2, c2);
    if a.len() < a2.len() {
        assert(s[a.len() as int] != '.');
    }
    if a2.len() < a.len() {
        assert(s[a2.len() as int] != '.');
    }
    assert(a.len() == a2.len());
    assert(a =~= a2);
    if b.len() < b2.len() {
        assert(s[(a.len() + 1 + b.len()) as int] != '.');
    }
    if b2.len() < b.len() {
        assert(s[(a.len() + 1 + b2.len()) as int] != '.');
    }
    assert(b.len() == b2.len());
    assert(b =~= b2);
    assert(c.len() == c2.len());
    assert forall|k: int| 0 <= k < c.len() implies c[k] == c2[k] by {
        assert(s[a.len() + 2 + b.len() + k] == c[k]);
    }
    assert(c =~= c2);
}

/// Law: how a release `a.b.c` compares with this build, 1.0.0: every
/// release with a major version of 2 or more is newer, so is every 1.b.c
/// with b of 1 or more and every 1.0.c with c of 1 or more; no 0.b.c
/// release is newer, and neither is 1.0.0 itself.
pub proof fn law_release_order(s: Seq<char>, a: Seq<char>, b: Seq<char>, c: Seq<char>)
    requires
        is_release(s, a, b, c),
    ensures
        field_value(a) >= 2 ==> is_newer_release(s),
        field_value(a) == 1 && field_value(b) >= 1 ==> is_newer_release(s),
        field_value(a) == 1 && field_value(b) == 0 && field_value(c) >= 1 ==> is_newer_release(s),
        field_value(a) == 0 ==> !is_newer_release(s),
        field_value(a) == 1 && field_value(b) == 0 && field_value(c) == 0 ==> !is_newer_release(s),
{
    assert forall|a2: Seq<char>, b2: Seq<char>, c2: Seq<char>| #[trigger] is_release(s, a2, b2, c2)
        implies a2 == a && b2 == b && c2 == c by {
        lemma_release_unique(s, a, b, c, a2, b2, c2);
    }
}

/// Law: being newer than this build carries over to every later release:
/// where `a.b.c` is newer and `a2.b2.c2` comes at or after it (compared
/// field by field, the first field first), `a2.b2.c2` is newer too.
pub proof fn law_newer_is_monotone(
    s: Seq<char>,
    a: Seq<char>,
    b: Seq<char>,
    c: Seq<char>,
    s2: Seq<char>,
    a2: Seq<char>,
    b2: Seq<char>,
    c2: Seq<char>,
)
    requires
        is_release(s, a, b, c),
        is_release(s2, a2, b2, c2),
        is_newer_release(s),
        field_value(a2) > field_value(a) || (field_value(a2) == field_value(a) && (field_value(b2)
            > field_value(b) || (field_value(b2) == field_value(b) && field_value(c2) >= field_value(
            c,
        )))),
    ensures
        is_newer_release(s2),
{
    let (x, y, z) = choose|x: Seq<char>, y: Seq<char>, z: Seq<char>|
        #[trigger] is_release(s, x, y, z) && after_running(field_value(x), field_value(y), field_value(z));
    lemma_release_unique(s, a, b, c, x, y, z);
    assert(is_release(s2, a2, b2, c2));
}

/// Law: fields read as decimal numbers: a single digit is its own value,
/// and appending the digits `y` to `x` shifts `x` by one decimal place per
/// digit of `y` and adds the value of `y`.
pub proof fn law_field_value_is_decimal(x: Seq<char>, y: Seq<char>, d: char)
    requires
        '0' <= d <= '9',
    ensures
        field_value(seq![d]) == d as int - '0' as int,
        field_value(x + y) == field_value(x) * pow(10, y.len()) + field_value(y),
    decreases y.len(),
{
    reveal(pow);
    assert(seq![d].drop_last() =~= Seq::<char>::empty());
    assert(field_value(Seq::<char>::empty()) == 0);
    if y.len() == 0 {
        assert(x + y =~= x);
        assert(field_value(y) == 0);
        assert(pow(10, 0) == 1);
    } else {
        let y1 = y.drop_last();
        law_field_value_is_decimal(x, y1, d);
        assert((x + y).drop_last() =~= x + y1);
        assert((x + y).last() == y.last());
        let fx = field_value(x);
        let p = pow(10, y1.len());
        assert(pow(10, y.len()) == 10 * p);
        assert((fx * p + field_value(y1)) * 10 == fx * (10 * p) + field_value(y1) * 10)
            by (nonlinear_arith);
    }
}

/// Law: any three fields of decimal digits, none with a leading zero
/// (except a lone `0`), joined by dots, form a release.
pub proof fn law_digit_fields_form_a_release(a: Seq<char>, b: Seq<char>, c: Seq<char>)
    requires
        1 <= a.len() && 1 <= b.len() && 1 <= c.len(),
        forall|i: int| 0 <= i < a.len() ==> '0' <= #[trigger] a[i] <= '9',
        forall|i: int| 0 <= i < b.len() ==> '0' <= #[trigger] b[i] <= '9',
        forall|i: int| 0 <= i < c.len() ==> '0' <= #[trigger] c[i] <= '9',
        a.len() == 1 || a[0] != '0',
        b.len() == 1 || b[0] != '0',
        c.len() == 1 || c[0] != '0',
    ensures
        is_release(a + seq!['.'] + b + seq!['.'] + c, a, b, c),
{
}

/// The release to offer from the manifest (`None` where it could not be
/// fetched or decoded): its `version` member, where that is a string naming
/// a release after this build. A version that is not three numeric fields
/// (a pre-release or build suffix among them) is not offered.
pub fn update_available(manifest: &Option<JsonValue>) -> (r: Option<String>)
    ensures
        match *manifest {
            Some(m) => match json_text(json_member(m, "version"@)) {
                Some(v) => if is_newer_release(v) {
                    r matches Some(s) && s@ == v
                } else {
                    r is None
                },
                None => r is None,
            },
            None => r is None,
        },
{
    match manifest {
        Some(m) => match text_of(member(m, "version")) {
            Some(v) => {
                if newer_release(v) {
                    Some(v.clone())
                } else {
                    None
                }
            },
            None => None,
        },
        None => None,
    }
}

} // verus!
