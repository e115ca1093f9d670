//! The pure parts of process launching: the places the executable is looked
//! for, the default transport limits, and the version-string comparison used
//! to warn about an unsupported child. Spawning, path probing and
//! environment handling belong to the embedding application.

use vstd::prelude::*;

use crate::strutil::push_char;

verus! {

/// Default maximum framed-line buffer size in bytes.
pub const DEFAULT_MAX_BUFFER_SIZE: usize = 1024 * 1024;

/// Minimum supported child version.
pub const MINIMUM_CLI_VERSION: &'static str = "2.0.0";

/// The numeric value of a digit sequence.
pub open spec fn digits_val(s: Seq<char>) -> int
    decreases s.len(),
{
    if s.len() == 0 {
        0
    } else {
        digits_val(s.drop_last()) * 10 + (s.last() as int - '0' as int)
    }
}

/// Whether every character is a decimal digit.
pub open spec fn all_digits(s: Seq<char>) -> bool {
    forall|i: int| 0 <= i < s.len() ==> '0' <= #[trigger] s[i] <= '9'
}

/// The value a version segment contributes: segments that are not short
/// plain numbers within the 32-bit range are skipped.
pub open spec fn seg_value(s: Seq<char>) -> Option<int> {
    if s.len() >= 1 && s.len() <= 10 && all_digits(s) && digits_val(s) <= i32::MAX as int {
        Some(digits_val(s))
    } else {
        None
    }
}

/// The text split at every dot, empty pieces kept.
pub open spec fn split_dots(s: Seq<char>) -> Seq<Seq<char>>
    decreases s.len(),
{
    if s.len() == 0 {
        seq![Seq::<char>::empty()]
    } else {
        let rest = split_dots(s.drop_last());
        if s.last() == '.' {
            rest.push(Seq::empty())
        } else {
            rest.drop_last().push(rest.last().push(s.last()))
        }
    }
}

/// The numeric parts of a version string: each dot-separated segment that
/// reads as a number, in order.
pub open spec fn version_parts(s: Seq<char>) -> Seq<int> {
    parts_of(split_dots(s))
}

/// The values of the segments that read as numbers.
pub open spec fn parts_of(segs: Seq<Seq<char>>) -> Seq<int>
    decreases segs.len(),
{
    if segs.len() == 0 {
        Seq::empty()
    } else {
        parts_of(segs.drop_last()) + (match seg_value(segs.last()) {
            Some(v) => seq![v],
            None => Seq::<int>::empty(),
        })
    }
}

/// Compare two part lists position by position, missing parts reading as
/// zero: negative, zero or positive as the first is older, the same or
/// newer.
pub open spec fn cmp_parts(a: Seq<int>, b: Seq<int>) -> int
    decreases a.len() + b.len(),
{
    if a.len() == 0 && b.len() == 0 {
        0
    } else {
        let x = if a.len() > 0 {
            a[0]
        } else {
            0
        };
        let y = if b.len() > 0 {
            b[0]
        } else {
            0
        };
        if x < y {
            -1
        } else if x > y {
            1
        } else {
            cmp_parts(
                if a.len() > 0 {
                    a.drop_first()
                } else {
                    a
                },
                if b.len() > 0 {
                    b.drop_first()
                } else {
                    b
                },
            )
        }
    }
}

/// Split a version string at dots.
fn split_dots_exec(s: &str) -> (r: Vec<String>)
    ensures
        r.deep_view() == split_dots(s@),
{
    let mut out: Vec<String> = Vec::new();
    out.push(String::new());
    let n = s.unicode_len();
    let mut i: usize = 0;
    proof {
        assert(s@.subrange(0, 0) =~= Seq::<char>::empty());
        assert(out.deep_view() =~= split_dots(s@.subrange(0, 0)));
    }
    while i < n
        invariant
            i <= n,
            n == s@.len(),
            out.deep_view() == split_dots(s@.subrange(0, i as int)),
            out.len() >= 1,
        decreases n - i,
    {
        let c = s.get_char(i);
        let ghost prev = out.deep_view();
        if c == '.' {
            out.push(String::new());
            proof {
                assert(out.deep_view() =~= prev.push(Seq::<char>::empty()));
            }
        } else {
            let last = out.len() - 1;
            let ghost prev_seg = out@[last as int]@;
            let seg = &mut out[last];
            push_char(seg, c);
            proof {
                assert(out.deep_view() =~= prev.drop_last().push(prev.last().push(c)));
            }
        }
        proof {
            assert(s@.subrange(0, i as int + 1).drop_last() =~= s@.subrange(0, i as int));
            assert(s@.subrange(0, i as int + 1).last() == s@[i as int]);
            assert(out.deep_view() =~= split_dots(s@.subrange(0, i as int + 1)));
        }
        i = i + 1;
    }
    proof {
        assert(s@.subrange(0, n as int) =~= s@);
    }
    out
}

/// Read one segment as a number, skipping anything that is not a short
/// plain number in the 32-bit range.
fn parse_segment(s: &str) -> (r: Option<i32>)
    ensures
        match r {
            Some(v) => seg_value(s@) == Some(v as int),
            None => seg_value(s@) is None,
        },
{
    let n = s.unicode_len();
    if n < 1 || n > 10 {
        return None;
    }
    let mut acc: u64 = 0;
    let mut i: usize = 0;
    proof {
        assert(s@.subrange(0, 0) =~= Seq::<char>::empty());
    }
    while i < n
        invariant
            i <= n,
            n == s@.len(),
            n <= 10,
            acc == digits_val(s@.subrange(0, i as int)),
            all_digits(s@.subrange(0, i as int)),
            acc < 10000000000,
        decreases n - i,
    {
        let c = s.get_char(i);
        if c < '0' || c > '9' {
            proof {
                assert(!all_digits(s@));
            }
            return None;
        }
        let d = c as u32 - '0' as u32;
        acc = acc * 10 + d as u64;
        proof {
            assert(s@.subrange(0, i as int + 1).drop_last() =~= s@.subrange(0, i as int));
            assert(s@.subrange(0, i as int + 1).last() == s@[i as int]);
            assert(acc == digits_val(s@.subrange(0, i as int + 1)));
            assert forall|j: int| 0 <= j < i as int + 1 implies '0' <= #[trigger] s@.subrange(
                0,
                i as int + 1,
            )[j] <= '9' by {
                if j < i as int {
                    assert(s@.subrange(0, i as int)[j] == s@.subrange(0, i as int + 1)[j]);
                }
            }
            lemma_digits_val_bound(s@.subrange(0, i as int + 1));
        }
        i = i + 1;
    }
    proof {
        assert(s@.subrange(0, n as int) =~= s@);
    }
    if acc <= i32::MAX as u64 {
        Some(acc as i32)
    } else {
        None
    }
}

/// A digit sequence of at most ten digits stays below ten billion.
proof fn lemma_digits_val_bound(s: Seq<char>)
    requires
        all_digits(s),
        s.len() <= 10,
    ensures
        0 <= digits_val(s) < 10000000000,
    decreases s.len(),
{
    assert(pow10(0) == 1);
    assert(pow10(1) == 10);
    assert(pow10(2) == 100);
    assert(pow10(3) == 1000);
    assert(pow10(4) == 10000);
    assert(pow10(5) == 100000);
    assert(pow10(6) == 1000000);
    assert(pow10(7) == 10000000);
    assert(pow10(8) == 100000000);
    assert(pow10(9) == 1000000000);
    if s.len() > 0 {
        assert forall|i: int| 0 <= i < s.drop_last().len() implies '0' <= #[trigger] s.drop_last()[i]
            <= '9' by {
            assert(s.drop_last()[i] == s[i]);
        }
        lemma_digits_val_bound_helper(s.drop_last(), 9);
        assert('0' <= s.last() <= '9');
        assert(0 <= s.last() as int - '0' as int <= 9);
        assert(digits_val(s) == digits_val(s.drop_last()) * 10 + (s.last() as int - '0' as int));
        assert(digits_val(s.drop_last()) * 10 <= (1000000000 - 1) * 10);
    }
}

/// A digit sequence of at most `k` digits stays below ten to the `k`.
proof fn lemma_digits_val_bound_helper(s: Seq<char>, k: nat)
    requires
        all_digits(s),
        s.len() <= k,
        k <= 9,
    ensures
        0 <= digits_val(s) < pow10(k),
    decreases k,
{
    if s.len() == 0 {
        lemma_pow10_pos(k);
    } else {
        assert forall|i: int| 0 <= i < s.drop_last().len() implies '0' <= #[trigger] s.drop_last()[i]
            <= '9' by {
            assert(s.drop_last()[i] == s[i]);
        }
        lemma_digits_val_bound_helper(s.drop_last(), (k - 1) as nat);
        assert('0' <= s.last() <= '9');
        assert(0 <= s.last() as int - '0' as int <= 9);
    }
}

/// Ten to the `k`.
pub open spec fn pow10(k: nat) -> int
    decreases k,
{
    if k == 0 {
        1
    } else {
        10 * pow10((k - 1) as nat)
    }
}

proof fn lemma_pow10_pos(k: nat)
    ensures
        pow10(k) >= 1,
    decreases k,
{
    if k > 0 {
        lemma_pow10_pos((k - 1) as nat)
    }
}

/// The mathematical values of a part list.
pub open spec fn parts_view(v: Seq<i32>) -> Seq<int> {
    Seq::new(v.len(), |j: int| v[j] as int)
}

/// Compare two version strings part by part, missing parts reading as zero.
/// Negative, zero or positive as the first version is older, the same or
/// newer than the second.
pub fn version_compare(v1: &str, v2: &str) -> (r: i32)
    ensures
        r as int == cmp_parts(version_parts(v1@), version_parts(v2@)),
{
    let p1 = parse_version(v1);
    let p2 = parse_version(v2);
    let n1 = p1.len();
    let n2 = p2.len();
    let max = if n1 > n2 {
        n1
    } else {
        n2
    };
    let ghost pa = parts_view(p1@);
    let ghost pb = parts_view(p2@);
    let mut i: usize = 0;
    proof {
        assert(pa.subrange(0, pa.len() as int) =~= pa);
        assert(pb.subrange(0, pb.len() as int) =~= pb);
    }
    while i < max
        invariant
            i <= max,
            n1 == p1.len(),
            n2 == p2.len(),
            i <= n1 || i <= n2,
            max == (if n1 > n2 {
                n1
            } else {
                n2
            }),
            pa == parts_view(p1@),
            pb == parts_view(p2@),
            pa == version_parts(v1@),
            pb == version_parts(v2@),
            pa.len() == n1,
            pb.len() == n2,
            cmp_parts(version_parts(v1@), version_parts(v2@)) == cmp_parts(
                pa.subrange(if i <= n1 {
                    i as int
                } else {
                    n1 as int
                }, n1 as int),
                pb.subrange(if i <= n2 {
                    i as int
                } else {
                    n2 as int
                }, n2 as int),
            ),
        decreases max - i,
    {
        let x: i32 = if i < n1 {
            p1[i]
        } else {
            0
        };
        let y: i32 = if i < n2 {
            p2[i]
        } else {
            0
        };
        proof {
            let ai = if i < n1 { i as int } else { n1 as int };
            let bi = if i < n2 { i as int } else { n2 as int };
            let a = pa.subrange(ai, n1 as int);
            let b = pb.subrange(bi, n2 as int);
            assert(a.len() > 0 ==> a[0] == pa[i as int]);
            assert(b.len() > 0 ==> b[0] == pb[i as int]);
            let ai2 = if i + 1 <= n1 { i as int + 1 } else { n1 as int };
            let bi2 = if i + 1 <= n2 { i as int + 1 } else { n2 as int };
            if a.len() > 0 {
                assert(a.drop_first() =~= pa.subrange(ai2, n1 as int));
            } else {
                assert(a =~= pa.subrange(ai2, n1 as int));
            }
            if b.len() > 0 {
                assert(b.drop_first() =~= pb.subrange(bi2, n2 as int));
            } else {
                assert(b =~= pb.subrange(bi2, n2 as int));
            }
        }
        if x < y {
            return -1;
        }
        if x > y {
            return 1;
        }
        i = i + 1;
    }
    proof {
        let ai = if i <= n1 { i as int } else { n1 as int };
        let bi = if i <= n2 { i as int } else { n2 as int };
        assert(pa.subrange(ai, n1 as int) =~= Seq::<int>::empty());
        assert(pb.subrange(bi, n2 as int) =~= Seq::<int>::empty());
    }
    0
}

/// The numeric parts of a version string.
fn parse_version(v: &str) -> (r: Vec<i32>)
    ensures
        parts_view(r@) == version_parts(v@),
{
    let segs = split_dots_exec(v);
    let mut out: Vec<i32> = Vec::new();
    let n = segs.len();
    let mut i: usize = 0;
    proof {
        assert(segs.deep_view().subrange(0, 0) =~= Seq::<Seq<char>>::empty());
        assert(parts_view(out@) =~= parts_of(segs.deep_view().subrange(0, 0)));
    }
    while i < n
        invariant
            i <= n,
            n == segs.len(),
            segs.deep_view() == split_dots(v@),
            parts_view(out@) == parts_of(segs.deep_view().subrange(0, i as int)),
        decreases n - i,
    {
        let ghost prev = parts_view(out@);
        match parse_segment(segs[i].as_str()) {
            Some(val) => {
                out.push(val);
                proof {
                    assert(parts_view(out@) =~= prev.push(val as int));
                }
            },
            None => (),
        }
        proof {
            let all = segs.deep_view();
            assert(all.subrange(0, i as int + 1).drop_last() =~= all.subrange(0, i as int));
            assert(all.subrange(0, i as int + 1).last() == all[i as int]);
            assert(parts_view(out@) =~= parts_of(all.subrange(0, i as int + 1)));
        }
        i = i + 1;
    }
    proof {
        assert(segs.deep_view().subrange(0, n as int) =~= segs.deep_view());
    }
    out
}

/// The places an executable named `name` is looked for, in order, when no
/// explicit path is configured: after a system lookup fails, a fixed list of
/// common install locations under the home directory and one system path.
pub open spec fn cli_candidates(home: Option<Seq<char>>, name: Seq<char>) -> Seq<Seq<char>> {
    match home {
        Some(h) => seq![
            h + "/.npm-global/bin/"@ + name,
            "/usr/local/bin/"@ + name,
            h + "/.local/bin/"@ + name,
            h + "/node_modules/.bin/"@ + name,
            h + "/.yarn/bin/"@ + name,
            h + "/."@ + name + "/local/"@ + name,
        ],
        None => seq!["/usr/local/bin/"@ + name],
    }
}

/// Build the candidate paths for an executable under a home directory, in
/// probe order.
pub fn cli_search_candidates(home: Option<&str>, name: &str) -> (r: Vec<String>)
    ensures
        r.deep_view() == cli_candidates(
            match home {
                Some(h) => Some(h@),
                None => None,
            },
            name@,
        ),
{
    let mut out: Vec<String> = Vec::new();
    match home {
        Some(h) => {
            out.push(join3(h, "/.npm-global/bin/", name));
            out.push(join2("/usr/local/bin/", name));
            out.push(join3(h, "/.local/bin/", name));
            out.push(join3(h, "/node_modules/.bin/", name));
            out.push(join3(h, "/.yarn/bin/", name));
            let mut dotdir = h.to_owned();
            dotdir.append("/.");
            dotdir.append(name);
            dotdir.append("/local/");
            dotdir.append(name);
            out.push(dotdir);
            proof {
                assert(out.deep_view() =~= cli_candidates(Some(h@), name@));
            }
        },
        None => {
            out.push(join2("/usr/local/bin/", name));
            proof {
                assert(out.deep_view() =~= cli_candidates(None::<Seq<char>>, name@));
            }
        },
    }
    out
}

/// Two path pieces joined.
fn join2(a: &str, b: &str) -> (r: String)
    ensures
        r@ == a@ + b@,
{
    let mut s = a.to_owned();
    s.append(b);
    s
}

/// Three path pieces joined.
fn join3(a: &str, b: &str, c: &str) -> (r: String)
    ensures
        r@ == a@ + b@ + c@,
{
    let mut s = a.to_owned();
    s.append(b);
    s.append(c);
    s
}

} // verus!
