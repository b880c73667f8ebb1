//! Byte-range primitives over one flat memory image.
//!
//! An address is an index into the image, so two ranges of one image may
//! overlap just as two pointer ranges may.

use crate::bytes::{lemma_u64_to_le_of_from_le, load_u64, overwrite, store_u64};
use vstd::prelude::*;

verus! {

/// Whether the `n` bytes at `at` lie inside an image of `len` bytes. An empty
/// range lies inside every image, wherever it starts.
pub open spec fn in_image(len: nat, at: usize, n: usize) -> bool {
    n == 0 || at + n <= len
}

/// The `n` bytes of `mem` that start at `at`.
pub open spec fn range(mem: Seq<u8>, at: usize, n: usize) -> Seq<u8> {
    Seq::new(n as nat, |i: int| mem[at + i])
}

/// The low eight bits of `c`.
pub open spec fn low_byte(c: i32) -> u8 {
    (c & 0xff) as u8
}

/// The image after `n` bytes at `at` are set to `byte`.
pub open spec fn filled(mem: Seq<u8>, at: int, byte: u8, n: int) -> Seq<u8> {
    Seq::new(mem.len(), |i: int| if at <= i < at + n { byte } else { mem[i] })
}

/// The image after the bytes from `dest + from` up to `dest + n` have taken
/// the values that `mem` holds at the same distance from `src`. Every byte is
/// read from `mem` itself, so nothing written gets read again.
pub open spec fn moved_above(mem: Seq<u8>, dest: int, src: int, from: int, n: int) -> Seq<u8> {
    Seq::new(
        mem.len(),
        |i: int| if dest + from <= i < dest + n { mem[src + (i - dest)] } else { mem[i] },
    )
}

/// The image after the `n` bytes at `src` have been moved to `dest`: what a
/// copy gives that reads the whole source before it writes anything.
pub open spec fn moved(mem: Seq<u8>, dest: int, src: int, n: int) -> Seq<u8> {
    moved_above(mem, dest, src, 0, n)
}

/// Where a copy that runs upwards one byte at a time finds the value it
/// leaves at `i`. With the source below the destination it reads again what
/// it has written, so the first `dest - src` source bytes repeat.
pub open spec fn copy_source(dest: int, src: int, i: int) -> int {
    if src < dest {
        src + (i - dest) % (dest - src)
    } else {
        src + (i - dest)
    }
}

/// The image after `n` bytes have been copied upwards, one at a time, from
/// `src` to `dest`.
pub open spec fn copied(mem: Seq<u8>, dest: int, src: int, n: int) -> Seq<u8> {
    Seq::new(
        mem.len(),
        |i: int| if dest <= i < dest + n { mem[copy_source(dest, src, i)] } else { mem[i] },
    )
}

/// Whether `i` is the first index at which the sequences `a` and `b` differ.
pub open spec fn first_difference(a: Seq<u8>, b: Seq<u8>, i: int) -> bool {
    &&& 0 <= i < a.len()
    &&& i < b.len()
    &&& a[i] != b[i]
    &&& forall|j: int| 0 <= j < i ==> a[j] == b[j]
}

/// What comparing `a` with `b` gives: 0 where no index holds different
/// bytes, and otherwise the byte of `a` less the byte of `b` at the first
/// index that does.
pub open spec fn compared(a: Seq<u8>, b: Seq<u8>) -> int {
    if exists|i: int| first_difference(a, b, i) {
        let i = choose|i: int| first_difference(a, b, i);
        a[i] - b[i]
    } else {
        0
    }
}

/// Two sequences differ first at one index only, and the comparison gives
/// the difference of the bytes there: never zero, below zero where the byte
/// of `a` is the smaller one and above where it is the larger.
pub proof fn lemma_compared_at_first_difference(a: Seq<u8>, b: Seq<u8>, i: int)
    requires
        first_difference(a, b, i),
    ensures
        compared(a, b) == a[i] - b[i],
        compared(a, b) != 0,
        compared(a, b) < 0 <==> a[i] < b[i],
{
    let j = choose|j: int| first_difference(a, b, j);
    if j < i {
        assert(a[j] == b[j]);
    } else if i < j {
        assert(a[i] == b[i]);
    }
}

/// The comparison of two sequences of one length gives 0 exactly when they
/// are equal.
pub proof fn lemma_compared_zero_iff_equal(a: Seq<u8>, b: Seq<u8>)
    requires
        a.len() == b.len(),
    ensures
        compared(a, b) == 0 <==> a == b,
{
    if exists|i: int| first_difference(a, b, i) {
        let i = choose|i: int| first_difference(a, b, i);
        lemma_compared_at_first_difference(a, b, i);
    } else if a != b {
        assert(a.subrange(0, a.len() as int) =~= a);
        assert(b.subrange(0, a.len() as int) =~= b);
        lemma_differing_have_first_difference(a, b, a.len() as int);
    }
}

/// Two sequences that differ somewhere below `upto` have a first index at
/// which they differ.
proof fn lemma_differing_have_first_difference(a: Seq<u8>, b: Seq<u8>, upto: int)
    requires
        a.len() == b.len(),
        0 <= upto <= a.len(),
        a.subrange(0, upto) != b.subrange(0, upto),
    ensures
        exists|i: int| first_difference(a, b, i),
    decreases upto,
{
    if upto == 0 {
        assert(a.subrange(0, 0) =~= b.subrange(0, 0));
    } else if a.subrange(0, upto - 1) != b.subrange(0, upto - 1) {
        lemma_differing_have_first_difference(a, b, upto - 1);
    } else {
        assert forall|j: int| 0 <= j < upto - 1 implies a[j] == b[j] by {
            assert(a.subrange(0, upto - 1)[j] == b.subrange(0, upto - 1)[j]);
        }
        if a[upto - 1] == b[upto - 1] {
            assert(a.subrange(0, upto) =~= b.subrange(0, upto));
        }
        assert(first_difference(a, b, upto - 1));
    }
}

/// An upward copy is a move whenever the destination does not start inside
/// the source above its first byte.
pub proof fn lemma_copied_is_moved(mem: Seq<u8>, dest: int, src: int, n: int)
    requires
        dest <= src || src + n <= dest,
    ensures
        copied(mem, dest, src, n) == moved(mem, dest, src, n),
{
    assert forall|i: int| dest <= i < dest + n implies copy_source(dest, src, i) == src + (i
        - dest) by {
        if src < dest {
            vstd::arithmetic::div_mod::lemma_small_mod((i - dest) as nat, (dest - src) as nat);
        }
    }
    assert(copied(mem, dest, src, n) =~= moved(mem, dest, src, n));
}

/// Two ranges of one length that have both been filled with one byte
/// compare as equal.
pub proof fn lemma_filled_ranges_agree(mem: Seq<u8>, s1: usize, s2: usize, byte: u8, n: usize)
    requires
        in_image(mem.len(), s1, n),
        in_image(mem.len(), s2, n),
    ensures
        ({
            let image = filled(filled(mem, s1 as int, byte, n as int), s2 as int, byte, n as int);
            &&& range(image, s1, n) == range(image, s2, n)
            &&& compared(range(image, s1, n), range(image, s2, n)) == 0
        }),
{
    let image = filled(filled(mem, s1 as int, byte, n as int), s2 as int, byte, n as int);
    assert(range(image, s1, n) =~= range(image, s2, n));
    lemma_compared_zero_iff_equal(range(image, s1, n), range(image, s2, n));
}

/// Copying, moving or filling no bytes changes nothing, whatever the
/// addresses are.
pub proof fn lemma_empty_range_changes_nothing(mem: Seq<u8>, dest: int, src: int, byte: u8)
    ensures
        copied(mem, dest, src, 0) == mem,
        moved(mem, dest, src, 0) == mem,
        filled(mem, dest, byte, 0) == mem,
{
    assert(copied(mem, dest, src, 0) =~= mem);
    assert(moved(mem, dest, src, 0) =~= mem);
    assert(filled(mem, dest, byte, 0) =~= mem);
}

/// A move and a fill leave every byte outside the destination as it was,
/// and the image as long as it was.
pub proof fn lemma_outside_untouched(mem: Seq<u8>, dest: int, src: int, byte: u8, n: int, i: int)
    requires
        0 <= i < mem.len(),
        i < dest || dest + n <= i,
    ensures
        moved(mem, dest, src, n).len() == mem.len(),
        copied(mem, dest, src, n).len() == mem.len(),
        filled(mem, dest, byte, n).len() == mem.len(),
        moved(mem, dest, src, n)[i] == mem[i],
        copied(mem, dest, src, n)[i] == mem[i],
        filled(mem, dest, byte, n)[i] == mem[i],
{
}

/// Moving a range onto itself changes nothing.
pub proof fn lemma_moved_in_place(mem: Seq<u8>, at: int, n: int)
    ensures
        moved(mem, at, at, n) == mem,
{
    assert(moved(mem, at, at, n) =~= mem);
}

/// After a move the destination holds what the source held before it.
pub proof fn lemma_moved_range(mem: Seq<u8>, dest: usize, src: usize, n: usize)
    requires
        in_image(mem.len(), dest, n),
        in_image(mem.len(), src, n),
    ensures
        range(moved(mem, dest as int, src as int, n as int), dest, n) == range(mem, src, n),
{
    assert(range(moved(mem, dest as int, src as int, n as int), dest, n) =~= range(mem, src, n));
}

/// Copies `n` bytes from `src` to `dest`, upwards and one byte at a time, and
/// hands `dest` back. Where the destination starts inside the source, above
/// its first byte, the copy reads what it wrote: move such ranges with
/// `memmove`.
pub fn memcpy(mem: &mut [u8], dest: usize, src: usize, n: usize) -> (ret: usize)
    requires
        in_image(old(mem)@.len(), dest, n),
        in_image(old(mem)@.len(), src, n),
    ensures
        ret == dest,
        final(mem)@ == copied(old(mem)@, dest as int, src as int, n as int),
        dest <= src || src + n <= dest ==> final(mem)@ == moved(
            old(mem)@,
            dest as int,
            src as int,
            n as int,
        ),
{
    assert(mem@.len() == mem.len());
    let mut i: usize = 0;
    while i < n
        invariant
            i <= n,
            mem@.len() <= usize::MAX,
            in_image(mem@.len(), dest, n),
            in_image(mem@.len(), src, n),
            mem@ == copied(old(mem)@, dest as int, src as int, i as int),
        decreases n - i,
    {
        proof {
            if src < dest && i >= dest - src {
                vstd::arithmetic::div_mod::lemma_mod_sub_multiples_vanish(
                    i as int,
                    dest - src,
                );
            } else if src < dest {
                vstd::arithmetic::div_mod::lemma_small_mod(i as nat, (dest - src) as nat);
            }
        }
        let ghost before = mem@;
        let byte = mem[src + i];
        mem[dest + i] = byte;
        i = i + 1;
        assert(mem@ =~= copied(old(mem)@, dest as int, src as int, i as int)) by {
            assert forall|k: int| dest <= k < dest + (i - 1) implies 0 <= #[trigger] copy_source(
                dest as int,
                src as int,
                k,
            ) < mem@.len() by {
                lemma_copy_source_bounds(dest as int, src as int, k);
            }
            assert(byte == old(mem)@[copy_source(dest as int, src as int, dest + i - 1)]);
            assert(mem@ == before.update(dest + i - 1, byte));
        }
    }
    proof {
        if dest <= src || src + n <= dest {
            lemma_copied_is_moved(old(mem)@, dest as int, src as int, n as int);
        }
    }
    dest
}

/// An upward copy never reads above the byte it is about to write, nor below
/// the first source byte.
proof fn lemma_copy_source_bounds(dest: int, src: int, i: int)
    requires
        dest <= i,
    ensures
        src <= copy_source(dest, src, i),
        copy_source(dest, src, i) <= src + (i - dest),
        src < dest ==> copy_source(dest, src, i) < dest,
{
    if src < dest {
        vstd::arithmetic::div_mod::lemma_mod_bound(i - dest, dest - src);
        vstd::arithmetic::div_mod::lemma_mod_decreases((i - dest) as nat, (dest - src) as nat);
    }
}

/// Moves `n` bytes from `src` to `dest` and hands `dest` back; the ranges may
/// overlap in any way.
///
/// Where the destination starts inside the source, the bytes go from the top
/// down. A destination fewer than 64 bytes above the source is moved a byte at
/// a time down to an address that is a multiple of eight, then eight bytes at
/// a time, then a byte at a time again. A destination further away is moved
/// in pieces as long as that distance, none of which overlaps its own source.
/// Every other pair of ranges is copied upwards.
pub fn memmove(mem: &mut [u8], dest: usize, src: usize, n: usize) -> (ret: usize)
    requires
        in_image(old(mem)@.len(), dest, n),
        in_image(old(mem)@.len(), src, n),
    ensures
        ret == dest,
        final(mem)@ == moved(old(mem)@, dest as int, src as int, n as int),
{
    assert(mem@.len() == mem.len());
    let ghost total = n;
    let mut n = n;
    if dest > src && dest - src < n {
        let overhang = dest - src;
        if overhang < 64 {
            while n != 0 && (dest + n) & 0x7 != 0
                invariant
                    n <= total,
                    src < dest,
                    dest + total <= mem@.len() <= usize::MAX,
                    mem@ == moved_above(
                        old(mem)@,
                        dest as int,
                        src as int,
                        n as int,
                        total as int,
                    ),
                decreases n,
            {
                n = n - 1;
                move_byte(mem, dest, src, n, Ghost(old(mem)@), Ghost(total));
            }
            while n >= 8
                invariant
                    n <= total,
                    src < dest,
                    dest + total <= mem@.len() <= usize::MAX,
                    mem@ == moved_above(
                        old(mem)@,
                        dest as int,
                        src as int,
                        n as int,
                        total as int,
                    ),
                decreases n,
            {
                n = n - 8;
                let ghost before = mem@;
                let val = load_u64(mem, src + n);
                store_u64(mem, dest + n, val);
                proof {
                    let word = before.subrange(src + n, src + n + 8);
                    lemma_u64_to_le_of_from_le(word);
                    assert(mem@ =~= moved_above(
                        old(mem)@,
                        dest as int,
                        src as int,
                        n as int,
                        total as int,
                    )) by {
                        assert(mem@ == overwrite(before, dest + n, word));
                        assert forall|k: int| 0 <= k < 8 implies word[k] == old(mem)@[src + n
                            + k] by {
                            assert(word[k] == before[src + n + k]);
                        }
                    }
                }
            }
            while n != 0
                invariant
                    n <= total,
                    src < dest,
                    dest + total <= mem@.len() <= usize::MAX,
                    mem@ == moved_above(
                        old(mem)@,
                        dest as int,
                        src as int,
                        n as int,
                        total as int,
                    ),
                decreases n,
            {
                n = n - 1;
                move_byte(mem, dest, src, n, Ghost(old(mem)@), Ghost(total));
            }
            return dest;
        }
        while n >= overhang
            invariant
                n <= total,
                src < dest,
                overhang == dest - src,
                overhang >= 64,
                dest + total <= mem@.len() <= usize::MAX,
                mem@ == moved_above(old(mem)@, dest as int, src as int, n as int, total as int),
            decreases n,
        {
            n = n - overhang;
            let ghost before = mem@;
            memcpy(mem, dest + n, src + n, overhang);
            assert(mem@ =~= moved_above(
                old(mem)@,
                dest as int,
                src as int,
                n as int,
                total as int,
            )) by {
                assert(mem@ == moved(before, dest + n, src + n, overhang as int));
            }
        }
        if n == 0 {
            return dest;
        }
    }
    let ghost before = mem@;
    memcpy(mem, dest, src, n);
    assert(mem@ =~= moved(old(mem)@, dest as int, src as int, total as int)) by {
        assert(mem@ == moved(before, dest as int, src as int, n as int));
    }
    dest
}

/// One step of a move that runs downwards: the byte at distance `at` from
/// `src` goes to the same distance from `dest`.
fn move_byte(
    mem: &mut [u8],
    dest: usize,
    src: usize,
    at: usize,
    Ghost(origin): Ghost<Seq<u8>>,
    Ghost(total): Ghost<usize>,
)
    requires
        at < total,
        src < dest,
        dest + total <= old(mem)@.len() <= usize::MAX,
        old(mem)@ == moved_above(origin, dest as int, src as int, at + 1, total as int),
    ensures
        final(mem)@ == moved_above(origin, dest as int, src as int, at as int, total as int),
{
    let byte = mem[src + at];
    mem[dest + at] = byte;
    assert(mem@ =~= moved_above(origin, dest as int, src as int, at as int, total as int));
}

/// Sets exactly `n` bytes at `s` to the low eight bits of `c` and hands `s`
/// back; every other byte of the image stays as it is.
pub fn memset(mem: &mut [u8], s: usize, c: i32, n: usize) -> (ret: usize)
    requires
        in_image(old(mem)@.len(), s, n),
    ensures
        ret == s,
        final(mem)@ == filled(old(mem)@, s as int, low_byte(c), n as int),
{
    assert(mem@.len() == mem.len());
    let byte: u8 = (c & 0xff) as u8;
    let mut i: usize = 0;
    while i < n
        invariant
            i <= n,
            mem@.len() <= usize::MAX,
            in_image(mem@.len(), s, n),
            mem@ == filled(old(mem)@, s as int, byte, i as int),
        decreases n - i,
    {
        mem[s + i] = byte;
        i = i + 1;
        assert(mem@ =~= filled(old(mem)@, s as int, byte, i as int));
    }
    assert(mem@ =~= filled(old(mem)@, s as int, byte, n as int));
    s
}

/// How far the byte `a` lies above the byte `b`.
fn byte_difference(a: u8, b: u8) -> (d: i32)
    ensures
        d == a - b,
{
    a as i32 - b as i32
}

/// Two ranges that agree below `i` and hold different bytes at `i` differ
/// there first.
proof fn lemma_differs_first_at(mem: Seq<u8>, s1: usize, s2: usize, n: usize, i: usize)
    requires
        i < n,
        forall|j: int| 0 <= j < i ==> range(mem, s1, n)[j] == range(mem, s2, n)[j],
        mem[s1 + i] != mem[s2 + i],
    ensures
        compared(range(mem, s1, n), range(mem, s2, n)) == mem[s1 + i] - mem[s2 + i],
        range(mem, s1, n) != range(mem, s2, n),
{
    let at = i as int;
    assert(range(mem, s1, n)[at] == mem[s1 + i]);
    assert(range(mem, s2, n)[at] == mem[s2 + i]);
    assert(first_difference(range(mem, s1, n), range(mem, s2, n), at));
    lemma_compared_at_first_difference(range(mem, s1, n), range(mem, s2, n), at);
}

/// Two ranges that agree below `i` and at `i` agree below `i + 1`.
proof fn lemma_agrees_through(mem: Seq<u8>, s1: usize, s2: usize, n: usize, i: usize)
    requires
        i < n,
        forall|j: int| 0 <= j < i ==> range(mem, s1, n)[j] == range(mem, s2, n)[j],
        mem[s1 + i] == mem[s2 + i],
    ensures
        forall|j: int| 0 <= j < i + 1 ==> range(mem, s1, n)[j] == range(mem, s2, n)[j],
{
    assert(range(mem, s1, n)[i as int] == range(mem, s2, n)[i as int]);
}

/// Two ranges that agree at every index are equal and compare as equal.
proof fn lemma_agrees_throughout(mem: Seq<u8>, s1: usize, s2: usize, n: usize)
    requires
        forall|j: int| 0 <= j < n ==> range(mem, s1, n)[j] == range(mem, s2, n)[j],
    ensures
        range(mem, s1, n) == range(mem, s2, n),
        compared(range(mem, s1, n), range(mem, s2, n)) == 0,
{
    assert(range(mem, s1, n) =~= range(mem, s2, n));
    lemma_compared_zero_iff_equal(range(mem, s1, n), range(mem, s2, n));
}

/// Compares the `n` bytes at `s1` with the `n` bytes at `s2`, from the lowest
/// address up, and stops at the first pair that differs. The result is 0
/// where the ranges are equal; otherwise it is the byte of the first range
/// less the byte of the second at the first index where they differ, so its
/// sign tells which range holds the smaller byte there.
pub fn memcmp(mem: &[u8], s1: usize, s2: usize, n: usize) -> (r: i32)
    requires
        in_image(mem@.len(), s1, n),
        in_image(mem@.len(), s2, n),
    ensures
        r == compared(range(mem@, s1, n), range(mem@, s2, n)),
        r == 0 <==> range(mem@, s1, n) == range(mem@, s2, n),
{
    assert(mem@.len() == mem.len());
    let mut ii: usize = 0;
    while ii < n
        invariant
            ii <= n,
            mem@.len() <= usize::MAX,
            in_image(mem@.len(), s1, n),
            in_image(mem@.len(), s2, n),
            forall|j: int| 0 <= j < ii ==> range(mem@, s1, n)[j] == range(mem@, s2, n)[j],
        decreases n - ii,
    {
        let a = mem[s1 + ii];
        let b = mem[s2 + ii];
        if a != b {
            proof {
                lemma_differs_first_at(mem@, s1, s2, n, ii);
            }
            return byte_difference(a, b);
        }
        proof {
            lemma_agrees_through(mem@, s1, s2, n, ii);
        }
        ii = ii + 1;
    }
    proof {
        lemma_agrees_throughout(mem@, s1, s2, n);
    }
    0
}

} // verus!
