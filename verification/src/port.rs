//! The port resolver.
//!
//! The backend chooses its listening port dynamically and writes it to a
//! side-channel file.  Resolution reads that file, trims surrounding
//! whitespace and parses the rest as a decimal sixteen-bit number; on any
//! failure — missing file, empty or non-numeric text, value out of range —
//! the fixed default port is substituted, so resolution never fails.  The
//! file read itself is the caller's business: the functions here take the
//! file's contents, with `None` standing for a file that could not be read.

use vstd::prelude::*;

verus! {

/// Port assumed when the port file is missing or does not hold a port number.
pub const DEFAULT_PORT: u16 = 8080;

/// ASCII whitespace, as trimmed from around the digits: space and the
/// control characters HT, LF, VT, FF and CR.
pub open spec fn is_space(b: u8) -> bool {
    b == 32 || (9 <= b && b <= 13)
}

/// ASCII decimal digit.
pub open spec fn is_digit(b: u8) -> bool {
    48 <= b && b <= 57
}

/// The bytes with leading whitespace removed.
pub open spec fn trim_front(s: Seq<u8>) -> Seq<u8>
    decreases s.len(),
{
    if s.len() > 0 && is_space(s[0]) {
        trim_front(s.drop_first())
    } else {
        s
    }
}

/// The bytes with trailing whitespace removed.
pub open spec fn trim_back(s: Seq<u8>) -> Seq<u8>
    decreases s.len(),
{
    if s.len() > 0 && is_space(s.last()) {
        trim_back(s.drop_last())
    } else {
        s
    }
}

/// The bytes with whitespace removed from both ends.
pub open spec fn trimmed(s: Seq<u8>) -> Seq<u8> {
    trim_back(trim_front(s))
}

pub open spec fn all_digits(s: Seq<u8>) -> bool {
    forall|i: int| 0 <= i < s.len() ==> is_digit(s[i])
}

/// Numeric value of a digit string, most significant digit first.
pub open spec fn digits_val(s: Seq<u8>) -> int
    decreases s.len(),
{
    if s.len() == 0 {
        0
    } else {
        digits_val(s.drop_last()) * 10 + (s.last() - 48)
    }
}

/// The digit part of a trimmed port text: one leading plus sign is accepted,
/// as the standard decimal parser for unsigned numbers accepts one.
pub open spec fn digits_part(t: Seq<u8>) -> Seq<u8> {
    if t.len() > 0 && t[0] == 43 {
        t.drop_first()
    } else {
        t
    }
}

/// Whether a trimmed text denotes a port: at least one digit, digits only,
/// and a value that fits in sixteen bits.
pub open spec fn is_port_text(t: Seq<u8>) -> bool {
    digits_part(t).len() > 0 && all_digits(digits_part(t)) && digits_val(digits_part(t)) <= 65535
}

/// The port a trimmed text resolves to: its value where it denotes a port,
/// the default otherwise.
pub open spec fn port_of_text(t: Seq<u8>) -> u16 {
    if is_port_text(t) {
        digits_val(digits_part(t)) as u16
    } else {
        DEFAULT_PORT
    }
}

/// The contents of the port file as the resolver sees them: `None` stands
/// for a file that was missing or unreadable.
pub open spec fn contents_view(c: &Option<Vec<u8>>) -> Option<Seq<u8>> {
    match *c {
        Some(ref v) => Some(v@),
        None => None,
    }
}

/// The port that the port file's contents resolve to.
pub open spec fn port_of_contents(c: Option<Seq<u8>>) -> u16 {
    match c {
        Some(s) => port_of_text(trimmed(s)),
        None => DEFAULT_PORT,
    }
}

proof fn lemma_digits_val_nonneg(s: Seq<u8>)
    requires
        all_digits(s),
    ensures
        digits_val(s) >= 0,
    decreases s.len(),
{
    if s.len() > 0 {
        assert(all_digits(s.drop_last())) by {
            assert(forall|i: int| 0 <= i < s.len() - 1 ==> s.drop_last()[i] == s[i]);
        }
        lemma_digits_val_nonneg(s.drop_last());
    }
}

/// The value of a digit string never falls below the value of any of its
/// prefixes.
proof fn lemma_digits_val_prefix_le(s: Seq<u8>, k: int)
    requires
        all_digits(s),
        0 <= k <= s.len(),
    ensures
        digits_val(s.subrange(0, k)) <= digits_val(s),
    decreases s.len() - k,
{
    if k == s.len() {
        assert(s.subrange(0, k) =~= s);
    } else {
        let p = s.subrange(0, k);
        let q = s.subrange(0, k + 1);
        assert(q.drop_last() =~= p);
        assert(all_digits(p)) by {
            assert(forall|i: int| 0 <= i < k ==> p[i] == s[i]);
        }
        lemma_digits_val_nonneg(p);
        assert(is_digit(q.last()));
        assert(digits_val(q) >= digits_val(p));
        lemma_digits_val_prefix_le(s, k + 1);
    }
}

/// Where the first `lo` bytes are whitespace and the byte at `lo`, if any, is
/// not, trimming the front removes exactly those `lo` bytes.
proof fn lemma_trim_front_at(s: Seq<u8>, lo: int)
    requires
        0 <= lo <= s.len(),
        forall|j: int| 0 <= j < lo ==> is_space(s[j]),
        lo == s.len() || !is_space(s[lo]),
    ensures
        trim_front(s) == s.subrange(lo, s.len() as int),
    decreases lo,
{
    if lo == 0 {
        assert(s.subrange(0, s.len() as int) =~= s);
    } else {
        let t = s.drop_first();
        assert(forall|j: int| 0 <= j < lo - 1 ==> t[j] == s[j + 1]);
        assert(lo - 1 == t.len() || !is_space(t[lo - 1]));
        lemma_trim_front_at(t, lo - 1);
        assert(t.subrange(lo - 1, t.len() as int) =~= s.subrange(lo, s.len() as int));
    }
}

/// Where the bytes from `hi` on are whitespace and the byte before `hi`, if
/// any, is not, trimming the back keeps exactly the first `hi` bytes.
proof fn lemma_trim_back_at(s: Seq<u8>, hi: int)
    requires
        0 <= hi <= s.len(),
        forall|j: int| hi <= j < s.len() ==> is_space(s[j]),
        hi == 0 || !is_space(s[hi - 1]),
    ensures
        trim_back(s) == s.subrange(0, hi),
    decreases s.len() - hi,
{
    if hi == s.len() {
        assert(s.subrange(0, hi) =~= s);
    } else {
        let t = s.drop_last();
        assert(forall|j: int| hi <= j < t.len() ==> t[j] == s[j]);
        lemma_trim_back_at(t, hi);
        assert(t.subrange(0, hi) =~= s.subrange(0, hi));
    }
}

/// Resolve raw port-file bytes to a port, substituting the default where the
/// trimmed contents are not a decimal port number.
pub fn port_from_bytes(v: &Vec<u8>) -> (p: u16)
    ensures
        p == port_of_text(trimmed(v@)),
{
    let n = v.len();

    let mut lo: usize = 0;
    while lo < n && (v[lo] == 32 || (9 <= v[lo] && v[lo] <= 13))
        invariant
            n == v@.len(),
            0 <= lo <= n,
            forall|j: int| 0 <= j < lo ==> is_space(v@[j]),
        decreases n - lo,
    {
        lo = lo + 1;
    }

    let mut hi: usize = n;
    while hi > lo && (v[hi - 1] == 32 || (9 <= v[hi - 1] && v[hi - 1] <= 13))
        invariant
            n == v@.len(),
            0 <= lo <= hi <= n,
            forall|j: int| hi <= j < n ==> is_space(v@[j]),
        decreases hi,
    {
        hi = hi - 1;
    }

    proof {
        lemma_trim_front_at(v@, lo as int);
        let f = v@.subrange(lo as int, n as int);
        assert(forall|j: int| hi - lo <= j < f.len() ==> is_space(f[j]));
        assert(hi - lo == 0 || !is_space(f[hi - lo - 1]));
        lemma_trim_back_at(f, hi - lo);
        assert(f.subrange(0, hi - lo) =~= v@.subrange(lo as int, hi as int));
        assert(trimmed(v@) == v@.subrange(lo as int, hi as int));
    }

    let mut start: usize = lo;
    if lo < hi && v[lo] == 43 {
        start = lo + 1;
    }
    proof {
        let t = v@.subrange(lo as int, hi as int);
        if t.len() > 0 && t[0] == 43 {
            assert(t.drop_first() =~= v@.subrange(start as int, hi as int));
        }
        assert(digits_part(trimmed(v@)) == v@.subrange(start as int, hi as int));
    }

    if start == hi {
        // No digits at all: not a port number.
        return DEFAULT_PORT;
    }

    let mut acc: u32 = 0;
    let mut i: usize = start;
    while i < hi
        invariant
            n == v@.len(),
            0 <= start <= i <= hi <= n,
            digits_part(trimmed(v@)) == v@.subrange(start as int, hi as int),
            start < hi,
            all_digits(v@.subrange(start as int, i as int)),
            acc as int == digits_val(v@.subrange(start as int, i as int)),
            acc <= 65535,
        decreases hi - i,
    {
        let b = v[i];
        if !(48 <= b && b <= 57) {
            proof {
                let d = v@.subrange(start as int, hi as int);
                assert(d[i - start] == v@[i as int]);
                assert(!all_digits(d));
            }
            return DEFAULT_PORT;
        }
        let dv = (b - 48) as u32;
        let next = acc * 10 + dv;
        proof {
            let p_ = v@.subrange(start as int, i as int);
            let q_ = v@.subrange(start as int, i as int + 1);
            assert(q_.drop_last() =~= p_);
            assert(q_.last() == v@[i as int]);
            assert(digits_val(q_) == digits_val(p_) * 10 + (v@[i as int] - 48));
            assert(all_digits(q_)) by {
                assert(forall|j: int| 0 <= j < q_.len() - 1 ==> q_[j] == p_[j]);
            }
        }
        if next > 65535 {
            proof {
                let d = v@.subrange(start as int, hi as int);
                let q_ = v@.subrange(start as int, i as int + 1);
                if all_digits(d) {
                    lemma_digits_val_prefix_le(d, i as int + 1 - start as int);
                    assert(d.subrange(0, i as int + 1 - start as int) =~= q_);
                    assert(digits_val(d) > 65535);
                }
                assert(!is_port_text(trimmed(v@)));
            }
            return DEFAULT_PORT;
        }
        acc = next;
        i = i + 1;
    }

    proof {
        let d = v@.subrange(start as int, hi as int);
        assert(d =~= v@.subrange(start as int, i as int));
        assert(is_port_text(trimmed(v@)));
        assert(port_of_text(trimmed(v@)) == digits_val(d) as u16);
    }
    acc as u16
}

/// Resolve the port file's contents — `None` standing for a missing or
/// unreadable file — to the port to probe.  Never fails: any malformed
/// contents degrade to the default port.
pub fn port_from_contents(contents: &Option<Vec<u8>>) -> (p: u16)
    ensures
        p == port_of_contents(contents_view(contents)),
{
    match contents {
        Some(v) => port_from_bytes(v),
        None => DEFAULT_PORT,
    }
}

} // verus!
