//! Release information and update bookkeeping.
use vstd::prelude::*;

verus! {

/// The newest published release, as far as it is known.
#[derive(Clone, Debug, Default)]
pub struct GithubRelease {
    pub tag_name: Option<String>,
    pub html_url: Option<String>,
}

/// The updater's progress through one update.
#[derive(Clone, Debug)]
pub enum UpdateState {
    Idle,
    /// Downloading the named file.
    Downloading(String),
    /// Replacing the named file.
    Replacing(String),
    Done,
    Error(String),
}

/// Why an update failed.
#[derive(Clone, Debug)]
pub enum UpdateError {
    Network(String),
    Io(String),
    Other(String),
}

/// `s` without any leading `v` characters.
pub open spec fn strip_v(s: Seq<char>) -> Seq<char>
    decreases s.len(),
{
    if s.len() > 0 && s[0] == 'v' {
        strip_v(s.drop_first())
    } else {
        s
    }
}

/// Whether the running version's tag differs from the latest release's
/// tag, compared as they are.
pub fn is_outdated(current: &str, latest: &str) -> (r: bool)
    ensures
        r == (current@ != latest@),
{
    let c = crate::text::chars_of(current);
    let l = crate::text::chars_of(latest);
    if c.len() != l.len() {
        return true;
    }
    let n = c.len();
    let mut i: usize = 0;
    while i < n
        invariant
            n == c@.len(),
            n == l@.len(),
            c@ == current@,
            l@ == latest@,
            i <= n,
            forall|k: int| 0 <= k < i ==> c@[k] == l@[k],
        decreases n - i,
    {
        if c[i] != l[i] {
            return true;
        }
        i = i + 1;
    }
    assert(c@ =~= l@);
    false
}

/// Whether two release tags differ once their leading `v`s are removed.
pub fn is_outdated_ignoring_v(current: &str, latest: &str) -> (r: bool)
    ensures
        r == (strip_v(current@) != strip_v(latest@)),
{
    let c = crate::text::chars_of(current);
    let l = crate::text::chars_of(latest);
    let cn = c.len();
    let ln = l.len();
    let mut i: usize = 0;
    assert(c@.subrange(0, cn as int) =~= c@);
    while i < cn && c[i] == 'v'
        invariant
            cn == c@.len(),
            i <= cn,
            strip_v(c@) == strip_v(c@.subrange(i as int, cn as int)),
        decreases cn - i,
    {
        assert(c@.subrange(i as int, cn as int).drop_first() =~= c@.subrange(i + 1, cn as int));
        i = i + 1;
    }
    let mut j: usize = 0;
    assert(l@.subrange(0, ln as int) =~= l@);
    while j < ln && l[j] == 'v'
        invariant
            ln == l@.len(),
            j <= ln,
            strip_v(l@) == strip_v(l@.subrange(j as int, ln as int)),
        decreases ln - j,
    {
        assert(l@.subrange(j as int, ln as int).drop_first() =~= l@.subrange(j + 1, ln as int));
        j = j + 1;
    }
    let ghost cs = c@.subrange(i as int, cn as int);
    let ghost ls = l@.subrange(j as int, ln as int);
    assert(strip_v(cs) == cs);
    assert(strip_v(ls) == ls);
    if cn - i != ln - j {
        return true;
    }
    let m = cn - i;
    let mut k: usize = 0;
    while k < m
        invariant
            cn == c@.len(),
            ln == l@.len(),
            i <= cn,
            j <= ln,
            m == cn - i,
            m == ln - j,
            k <= m,
            cs == c@.subrange(i as int, cn as int),
            ls == l@.subrange(j as int, ln as int),
            strip_v(c@) == cs,
            strip_v(l@) == ls,
            c@ == current@,
            l@ == latest@,
            forall|x: int| 0 <= x < k ==> cs[x] == ls[x],
        decreases m - k,
    {
        if c[i + k] != l[j + k] {
            assert(cs[k as int] != ls[k as int]);
            return true;
        }
        k = k + 1;
    }
    assert(cs =~= ls);
    false
}

/// The length of the part of `s` before its first `-` or `+`.
pub open spec fn core_len(s: Seq<char>) -> nat
    decreases s.len(),
{
    if s.len() == 0 || s[0] == '-' || s[0] == '+' {
        0
    } else {
        1 + core_len(s.drop_first())
    }
}

/// The fields of `s` between dots, as `str::split('.')` gives them: one
/// more than the number of dots, empty fields included.
pub open spec fn dot_fields(s: Seq<char>) -> Seq<Seq<char>>
    decreases s.len(),
{
    if s.len() == 0 {
        seq![Seq::<char>::empty()]
    } else if s.last() == '.' {
        dot_fields(s.drop_last()).push(Seq::<char>::empty())
    } else {
        let f = dot_fields(s.drop_last());
        f.update(f.len() - 1, f.last().push(s.last()))
    }
}

pub open spec fn is_digit(c: char) -> bool {
    '0' <= c && c <= '9'
}

/// The value of a string of decimal digits.
pub open spec fn digits_value(f: Seq<char>) -> int
    decreases f.len(),
{
    if f.len() == 0 {
        0
    } else {
        digits_value(f.drop_last()) * 10 + (f.last() as int - '0' as int)
    }
}

/// A field's number: its value when it is a non-empty run of digits that
/// fits in `u32`, as `str::parse::<u32>` reads it, and 0 otherwise.
pub open spec fn field_value(f: Seq<char>) -> u32 {
    if f.len() > 0 && (forall|i: int| 0 <= i < f.len() ==> is_digit(#[trigger] f[i]))
        && digits_value(f) <= u32::MAX {
        digits_value(f) as u32
    } else {
        0
    }
}

/// The numbers of a version string: its dotted fields before any `-` or
/// `+` suffix.
pub open spec fn version_numbers(s: Seq<char>) -> Seq<u32> {
    dot_fields(s.subrange(0, core_len(s) as int)).map_values(|f: Seq<char>| field_value(f))
}

/// `c` is a newer version than `l`: the first differing number decides,
/// and with a common prefix the longer version is newer.
pub open spec fn newer(c: Seq<u32>, l: Seq<u32>) -> bool
    decreases c.len(),
{
    if c.len() == 0 || l.len() == 0 {
        c.len() > l.len()
    } else if c[0] > l[0] {
        true
    } else if c[0] < l[0] {
        false
    } else {
        newer(c.drop_first(), l.drop_first())
    }
}

proof fn lemma_dot_fields_nonempty(s: Seq<char>)
    ensures
        dot_fields(s).len() >= 1,
    decreases s.len(),
{
    if s.len() > 0 {
        lemma_dot_fields_nonempty(s.drop_last());
    }
}

proof fn lemma_digits_value_nonneg(f: Seq<char>)
    requires
        forall|i: int| 0 <= i < f.len() ==> is_digit(#[trigger] f[i]),
    ensures
        digits_value(f) >= 0,
    decreases f.len(),
{
    if f.len() > 0 {
        lemma_digits_value_nonneg(f.drop_last());
    }
}

proof fn lemma_digits_value_grows(f: Seq<char>, k: int)
    requires
        0 <= k <= f.len(),
        forall|i: int| 0 <= i < f.len() ==> is_digit(#[trigger] f[i]),
    ensures
        digits_value(f.subrange(0, k)) <= digits_value(f),
    decreases f.len(),
{
    if k < f.len() {
        let g = f.drop_last();
        assert(forall|i: int| 0 <= i < g.len() ==> g[i] == f[i]);
        lemma_digits_value_grows(g, k);
        assert(g.subrange(0, k) =~= f.subrange(0, k));
        lemma_digits_value_nonneg(g);
    } else {
        assert(f.subrange(0, k) =~= f);
    }
}

fn field_number(f: &Vec<char>) -> (r: u32)
    ensures
        r == field_value(f@),
{
    let n = f.len();
    if n == 0 {
        return 0;
    }
    let mut value: u64 = 0;
    let mut i: usize = 0;
    while i < n
        invariant
            n == f@.len(),
            i <= n,
            forall|k: int| 0 <= k < i ==> is_digit(#[trigger] f@[k]),
            value == digits_value(f@.subrange(0, i as int)),
            value <= u32::MAX,
        decreases n - i,
    {
        let c = f[i];
        if !('0' <= c && c <= '9') {
            return 0;
        }
        let d = (c as u32 - '0' as u32) as u64;
        assert(f@.subrange(0, i + 1).drop_last() =~= f@.subrange(0, i as int));
        let next = value * 10 + d;
        if next > 0xFFFF_FFFFu64 {
            proof {
                assert(digits_value(f@.subrange(0, i + 1)) > u32::MAX);
                if forall|j: int| 0 <= j < f@.len() ==> is_digit(#[trigger] f@[j]) {
                    lemma_digits_value_grows(f@, i + 1);
                }
            }
            return 0;
        }
        value = next;
        i = i + 1;
    }
    assert(f@.subrange(0, n as int) =~= f@);
    value as u32
}

/// The numbers of the version string `s`.
pub fn version_numbers_of(s: &str) -> (r: Vec<u32>)
    ensures
        r@ == version_numbers(s@),
{
    let v = crate::text::chars_of(s);
    let n = v.len();
    let mut k: usize = 0;
    assert(v@.subrange(0, n as int) =~= v@);
    while k < n && v[k] != '-' && v[k] != '+'
        invariant
            n == v@.len(),
            k <= n,
            core_len(v@) == k + core_len(v@.subrange(k as int, n as int)),
        decreases n - k,
    {
        assert(v@.subrange(k as int, n as int).drop_first() =~= v@.subrange(k + 1, n as int));
        k = k + 1;
    }
    let ghost core = v@.subrange(0, k as int);
    let mut nums: Vec<u32> = Vec::new();
    let mut cur: Vec<char> = Vec::new();
    let mut i: usize = 0;
    proof {
        assert(core_len(v@) == k);
        lemma_dot_fields_nonempty(core.subrange(0, 0));
        assert(core.subrange(0, 0) =~= Seq::<char>::empty());
    }
    while i < k
        invariant
            n == v@.len(),
            v@ == s@,
            k <= n,
            i <= k,
            core == v@.subrange(0, k as int),
            dot_fields(core.subrange(0, i as int)).len() >= 1,
            cur@ == dot_fields(core.subrange(0, i as int)).last(),
            nums@ == dot_fields(core.subrange(0, i as int)).drop_last().map_values(|f: Seq<char>| field_value(f)),
        decreases k - i,
    {
        let ghost before = core.subrange(0, i as int);
        let ghost after = core.subrange(0, i + 1);
        assert(after.drop_last() =~= before);
        assert(after.last() == v@[i as int]);
        proof {
            lemma_dot_fields_nonempty(after);
        }
        if v[i] == '.' {
            let num = field_number(&cur);
            nums.push(num);
            cur = Vec::new();
            assert(dot_fields(after).drop_last() =~= dot_fields(before));
            assert(nums@ =~= dot_fields(after).drop_last().map_values(|f: Seq<char>| field_value(f)));
        } else {
            cur.push(v[i]);
            assert(dot_fields(after).drop_last() =~= dot_fields(before).drop_last());
        }
        i = i + 1;
    }
    let last = field_number(&cur);
    nums.push(last);
    proof {
        let fs = dot_fields(core.subrange(0, k as int));
        assert(core.subrange(0, k as int) =~= core);
        assert(core =~= s@.subrange(0, core_len(s@) as int));
        assert(nums@ =~= fs.map_values(|f: Seq<char>| field_value(f)));
    }
    nums
}

/// Whether `current` is a newer version than `latest`, comparing the
/// dotted numbers before any pre-release or build suffix.
pub fn is_newer(current: &str, latest: &str) -> (r: bool)
    ensures
        r == newer(version_numbers(current@), version_numbers(latest@)),
{
    let c = version_numbers_of(current);
    let l = version_numbers_of(latest);
    let cn = c.len();
    let ln = l.len();
    let mut i: usize = 0;
    assert(c@.subrange(0, cn as int) =~= c@);
    assert(l@.subrange(0, ln as int) =~= l@);
    while i < cn && i < ln
        invariant
            cn == c@.len(),
            ln == l@.len(),
            i <= cn,
            i <= ln,
            c@ == version_numbers(current@),
            l@ == version_numbers(latest@),
            newer(c@, l@) == newer(c@.subrange(i as int, cn as int), l@.subrange(i as int, ln as int)),
        decreases cn - i,
    {
        let ghost cs = c@.subrange(i as int, cn as int);
        let ghost ls = l@.subrange(i as int, ln as int);
        assert(cs.drop_first() =~= c@.subrange(i + 1, cn as int));
        assert(ls.drop_first() =~= l@.subrange(i + 1, ln as int));
        if c[i] > l[i] {
            return true;
        }
        if c[i] < l[i] {
            return false;
        }
        i = i + 1;
    }
    cn > ln
}

} // verus!
