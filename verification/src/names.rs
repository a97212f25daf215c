//! Names of the numbered backups of a log file.
//!
//! Paths are byte strings. Backup `i` of `base` is `base.i`, or `base.i.gz`
//! when backups are compressed. While backup 1 is being compressed the retired
//! file waits under the plain name `base.1` and the compressed stream is
//! written to `base.1.gz.temp`.
use vstd::prelude::*;
use vstd::slice::slice_to_vec;

verus! {

/// The decimal digits of `n` as ASCII bytes, most significant first.
pub open spec fn decimal(n: nat) -> Seq<u8>
    decreases n,
{
    if n < 10 {
        seq![(48 + n) as u8]
    } else {
        decimal(n / 10).push((48 + n % 10) as u8)
    }
}

/// The number that a string of ASCII digits denotes.
pub open spec fn denoted(s: Seq<u8>) -> int
    decreases s.len(),
{
    if s.len() == 0 {
        0
    } else {
        denoted(s.drop_last()) * 10 + (s.last() - 48)
    }
}

/// Whether every byte of `s` is an ASCII digit.
pub open spec fn all_digits(s: Seq<u8>) -> bool {
    forall|k: int| 0 <= k < s.len() ==> 48 <= #[trigger] s[k] <= 57
}

/// The suffix `.gz`.
pub open spec fn gz_suffix() -> Seq<u8> {
    seq![46u8, 103u8, 122u8]
}

/// The suffix `.temp`.
pub open spec fn temp_suffix() -> Seq<u8> {
    seq![46u8, 116u8, 101u8, 109u8, 112u8]
}

/// The path of backup `i` of `base`.
pub open spec fn backup_path(base: Seq<u8>, i: nat, gz: bool) -> Seq<u8> {
    let plain = base.push(46u8) + decimal(i);
    if gz {
        plain + gz_suffix()
    } else {
        plain
    }
}

/// The uncompressed name under which a retired file waits for compression.
pub open spec fn plain_path(base: Seq<u8>) -> Seq<u8> {
    backup_path(base, 1, false)
}

/// The name under which the compressed stream is written before it is complete.
pub open spec fn temp_path(base: Seq<u8>) -> Seq<u8> {
    backup_path(base, 1, true) + temp_suffix()
}

/// `decimal(n)` is a non-empty string of digits that denotes `n`.
pub proof fn lemma_decimal(n: nat)
    ensures
        decimal(n).len() >= 1,
        all_digits(decimal(n)),
        denoted(decimal(n)) == n,
    decreases n,
{
    if n < 10 {
        let s = decimal(n);
        assert(s.drop_last() =~= Seq::<u8>::empty());
        assert(denoted(s.drop_last()) == 0);
    } else {
        lemma_decimal(n / 10);
        let s = decimal(n);
        assert(s.drop_last() =~= decimal(n / 10));
        assert(s.last() == (48 + n % 10) as u8);
    }
}

/// Two numbers with the same digits are the same number.
pub proof fn lemma_decimal_injective(a: nat, b: nat)
    requires
        decimal(a) == decimal(b),
    ensures
        a == b,
{
    lemma_decimal(a);
    lemma_decimal(b);
}

/// A backup path is never the path it is a backup of, and two backups of one
/// file under one naming scheme share a path only if they share an index.
pub proof fn lemma_backup_paths_distinct(base: Seq<u8>, i: nat, j: nat, gz: bool)
    ensures
        backup_path(base, i, gz) != base,
        backup_path(base, i, gz) == backup_path(base, j, gz) ==> i == j,
{
    lemma_decimal(i);
    lemma_decimal(j);
    let head = base.push(46u8);
    let p = backup_path(base, i, gz);
    let q = backup_path(base, j, gz);
    assert(p.len() > base.len());
    if p == q {
        let n = head.len() as int;
        if gz {
            assert(p.len() == n + decimal(i).len() + 3);
            assert(q.len() == n + decimal(j).len() + 3);
            assert(decimal(i) =~= p.subrange(n, p.len() - 3));
            assert(decimal(j) =~= q.subrange(n, q.len() - 3));
        } else {
            assert(decimal(i) =~= p.subrange(n, p.len() as int));
            assert(decimal(j) =~= q.subrange(n, q.len() as int));
        }
        lemma_decimal_injective(i, j);
    }
}

/// The two names that a compression in progress uses are no compressed
/// backup's name, and differ from each other and from the active path.
pub proof fn lemma_compression_paths_distinct(base: Seq<u8>, i: nat)
    ensures
        plain_path(base) != backup_path(base, i, true),
        temp_path(base) != backup_path(base, i, true),
        temp_path(base) != plain_path(base),
        plain_path(base) != base,
        temp_path(base) != base,
{
    lemma_decimal(i);
    lemma_decimal(1);
    reveal_with_fuel(decimal, 2);
    let head = base.push(46u8);
    let n = head.len() as int;
    let d = decimal(i);
    let gzi = backup_path(base, i, true);
    let plain = plain_path(base);
    let temp = temp_path(base);
    assert(decimal(1) =~= seq![49u8]);
    assert(plain.len() == n + 1);
    assert(gzi.len() == n + d.len() + 3);
    assert(temp.len() == n + 9);
    if temp == gzi {
        assert(d.len() == 6);
        assert(gzi[n + 1] == d[1]);
        assert(temp[n + 1] == 46u8);
        assert(48 <= d[1] <= 57);
    }
}

/// Appends the decimal digits of `n` to `out`.
fn push_decimal(out: &mut Vec<u8>, n: usize)
    ensures
        final(out)@ == old(out)@ + decimal(n as nat),
    decreases n,
{
    if n >= 10 {
        push_decimal(out, n / 10);
    }
    let digit: u8 = (n % 10) as u8;
    out.push(48 + digit);
    assert(out@ =~= old(out)@ + decimal(n as nat));
}

/// The path of backup `i` of `base`: `base.i`, or `base.i.gz` when `gz` is set.
pub fn backup_name(base: &Vec<u8>, i: usize, gz: bool) -> (path: Vec<u8>)
    ensures
        path@ == backup_path(base@, i as nat, gz),
{
    let mut path = slice_to_vec(base.as_slice());
    path.push(46u8);
    push_decimal(&mut path, i);
    if gz {
        path.push(46u8);
        path.push(103u8);
        path.push(122u8);
        assert(path@ =~= backup_path(base@, i as nat, true));
    }
    path
}

/// The plain and the temporary name that compressing backup 1 of `base` uses:
/// `base.1` and `base.1.gz.temp`.
pub fn compression_names(base: &Vec<u8>) -> (names: (Vec<u8>, Vec<u8>))
    ensures
        names.0@ == plain_path(base@),
        names.1@ == temp_path(base@),
{
    let plain = backup_name(base, 1, false);
    let mut temp = backup_name(base, 1, true);
    temp.push(46u8);
    temp.push(116u8);
    temp.push(101u8);
    temp.push(109u8);
    temp.push(112u8);
    assert(temp@ =~= temp_path(base@));
    (plain, temp)
}

} // verus!
