//! Differential flashing: pad the image to whole pages, ask the device for
//! its page checksums in batches that fit one message, and write only the
//! pages whose checksum differs. Verifying compares every page and reports
//! each one that differs.

use vstd::prelude::*;
use vstd::slice::slice_subrange;
use vstd::arithmetic::div_mod::{lemma_fundamental_div_mod, lemma_mod_multiples_basic};
use crate::checksum::{crc16_ccitt, page_checksum};
use crate::commands::{BinInfoMode, BinInfoResponse, ChksumPages, ChksumPagesResponse, WriteFlashPage};

verus! {

/// Length of an image of `n` bytes once zero-padded to whole pages.
pub open spec fn padded_len(n: nat, ps: nat) -> nat {
    if n % ps == 0 {
        n
    } else {
        (n + (ps - n % ps)) as nat
    }
}

/// The `i`-th page of an image.
pub open spec fn page_of(image: Seq<u8>, ps: nat, i: int) -> Seq<u8> {
    image.subrange(i * ps, (i + 1) * ps)
}

/// The checksum of every whole page of an image, in address order.
pub open spec fn page_checksums(image: Seq<u8>, ps: nat) -> Seq<u16> {
    Seq::new(image.len() / ps, |i: int| crc16_ccitt(page_of(image, ps, i)))
}

/// The indices below `n` at which `local` and `device` differ, ascending.
pub open spec fn mismatches(local: Seq<u16>, device: Seq<u16>, n: nat) -> Seq<usize>
    decreases n,
{
    if n == 0 {
        seq![]
    } else {
        let p = mismatches(local, device, (n - 1) as nat);
        if local[n - 1] != device[n - 1] {
            p.push((n - 1) as usize)
        } else {
            p
        }
    }
}

/// The checksum queries that cover `remaining` pages from `target`, each
/// asking for at most `max_pages` pages.
pub open spec fn queries(target: int, remaining: nat, ps: nat, max_pages: nat) -> Seq<ChksumPages>
    decreases remaining,
{
    if remaining == 0 || max_pages == 0 {
        seq![]
    } else {
        let n: nat = if remaining < max_pages {
            remaining
        } else {
            max_pages
        };
        seq![ChksumPages { target_address: target as u32, num_pages: n as u32 }] + queries(
            target + n * ps,
            (remaining - n) as nat,
            ps,
            max_pages,
        )
    }
}

proof fn lemma_page_bounds(len: nat, ps: nat, i: int)
    requires
        ps > 0,
        0 <= i < len / ps,
    ensures
        0 <= i * ps,
        (i + 1) * ps <= len,
        i * ps + ps <= len,
        (i + 1) * ps == i * ps + ps,
{
    let q = len / ps;
    assert(q * ps <= len) by (nonlinear_arith)
        requires
            q == len / ps,
            ps > 0,
    ;
    assert(0 <= i * ps && (i + 1) * ps <= q * ps && (i + 1) * ps == i * ps + ps) by (nonlinear_arith)
        requires
            0 <= i < q,
            ps > 0,
    ;
}

/// Zero-pads an image to a whole number of pages.
pub fn pad_image(image: &mut Vec<u8>, page_size: u32)
    requires
        page_size > 0,
        padded_len(old(image)@.len(), page_size as nat) <= usize::MAX,
    ensures
        final(image)@.len() == padded_len(old(image)@.len(), page_size as nat),
        final(image)@.len() % (page_size as nat) == 0,
        final(image)@.subrange(0, old(image)@.len() as int) == old(image)@,
        forall|i: int|
            old(image)@.len() <= i < final(image)@.len() ==> #[trigger] final(image)@[i] == 0,
{
    let ps = page_size as usize;
    let rem = image.len() % ps;
    if rem != 0 {
        let target = image.len() + (ps - rem);
        proof {
            let n = old(image)@.len() as int;
            let p = ps as int;
            lemma_fundamental_div_mod(n, p);
            assert(n + (p - n % p) == (n / p + 1) * p) by (nonlinear_arith)
                requires
                    n == p * (n / p) + n % p,
            ;
            lemma_mod_multiples_basic(n / p + 1, p);
        }
        while image.len() < target
            invariant
                target == old(image)@.len() + (ps - rem),
                old(image)@.len() <= image@.len() <= target,
                image@.subrange(0, old(image)@.len() as int) == old(image)@,
                forall|i: int| old(image)@.len() <= i < image@.len() ==> #[trigger] image@[i] == 0,
            decreases target - image@.len(),
        {
            image.push(0);
            assert(image@.subrange(0, old(image)@.len() as int) =~= old(image)@);
        }
    } else {
        assert(image@.subrange(0, old(image)@.len() as int) =~= old(image)@);
    }
}

/// How many pages one checksum query may ask for: each checksum takes two
/// bytes of a message, and two words are reserved for the header.
pub fn max_pages_per_query(max_message_size: u32) -> (r: u32)
    requires
        max_message_size >= 4,
    ensures
        r == max_message_size / 2 - 2,
{
    max_message_size / 2 - 2
}

/// The checksum queries that cover `num_pages` pages from `base`, in address
/// order, each asking for `max_pages` pages but the last.
pub fn checksum_queries(base: u32, num_pages: u32, page_size: u32, max_pages: u32) -> (r: Vec<ChksumPages>)
    requires
        max_pages > 0,
        base + num_pages * page_size <= u32::MAX,
    ensures
        r@ == queries(base as int, num_pages as nat, page_size as nat, max_pages as nat),
{
    let mut r: Vec<ChksumPages> = Vec::new();
    let mut done: u32 = 0;
    while done < num_pages
        invariant
            max_pages > 0,
            done <= num_pages,
            base + num_pages * page_size <= u32::MAX,
            r@ + queries(base + done * page_size, (num_pages - done) as nat, page_size as nat, max_pages as nat)
                == queries(base as int, num_pages as nat, page_size as nat, max_pages as nat),
        decreases num_pages - done,
    {
        let left = num_pages - done;
        let n = if left < max_pages {
            left
        } else {
            max_pages
        };
        proof {
            assert(done * page_size <= num_pages * page_size) by (nonlinear_arith)
                requires
                    done <= num_pages,
            ;
            assert((done + n) * page_size <= num_pages * page_size) by (nonlinear_arith)
                requires
                    done + n <= num_pages,
            ;
            assert((done + n) * page_size == done * page_size + n * page_size) by (nonlinear_arith);
        }
        let target = base + done * page_size;
        let q = ChksumPages { target_address: target, num_pages: n };
        proof {
            let rest = queries(target as int, left as nat, page_size as nat, max_pages as nat);
            assert(rest == seq![q] + queries(target + n * page_size, (left - n) as nat, page_size as nat, max_pages as nat));
            assert(r@.push(q) + queries(base + (done + n) * page_size, (num_pages - (done + n)) as nat, page_size as nat, max_pages as nat)
                =~= r@ + rest);
        }
        r.push(q);
        done = done + n;
    }
    assert(queries(base + done * page_size, 0, page_size as nat, max_pages as nat) =~= seq![]);
    assert(r@ =~= queries(base as int, num_pages as nat, page_size as nat, max_pages as nat));
    r
}

/// The checksum of each page of a padded image, in address order.
pub fn local_checksums(image: &[u8], page_size: u32) -> (r: Vec<u16>)
    requires
        page_size > 0,
        image@.len() % (page_size as nat) == 0,
    ensures
        r@ == page_checksums(image@, page_size as nat),
{
    let ps = page_size as usize;
    let len = image.len();
    let n = len / ps;
    let mut r: Vec<u16> = Vec::new();
    let mut i: usize = 0;
    while i < n
        invariant
            ps == page_size as usize,
            ps > 0,
            len == image@.len(),
            n == image@.len() / (ps as nat),
            i <= n,
            r@ =~= page_checksums(image@, ps as nat).subrange(0, i as int),
        decreases n - i,
    {
        proof {
            lemma_page_bounds(image@.len(), ps as nat, i as int);
        }
        let start = i * ps;
        let page = slice_subrange(image, start, start + ps);
        assert(page@ =~= page_of(image@, ps as nat, i as int));
        r.push(page_checksum(page));
        i = i + 1;
    }
    r
}

/// The indices of the pages whose local checksum differs from the device's,
/// ascending. The device may report more pages than the image holds: only
/// the image's pages are compared.
pub fn mismatched_pages(local: &[u16], device: &[u16]) -> (r: Vec<usize>)
    requires
        device@.len() >= local@.len(),
    ensures
        r@ == mismatches(local@, device@, local@.len()),
{
    let mut r: Vec<usize> = Vec::new();
    let mut i: usize = 0;
    while i < local.len()
        invariant
            device@.len() >= local@.len(),
            i <= local@.len(),
            r@ == mismatches(local@, device@, i as nat),
        decreases local@.len() - i,
    {
        if local[i] != device[i] {
            r.push(i);
        }
        i = i + 1;
    }
    r
}

/// One page write for each listed page index, in the listed order.
pub fn write_requests(image: &[u8], base: u32, page_size: u32, pages: &[usize]) -> (r: Vec<WriteFlashPage>)
    requires
        page_size > 0,
        base + image@.len() <= u32::MAX,
        forall|j: int| 0 <= j < pages@.len() ==> #[trigger] pages@[j] < image@.len() / (page_size as nat),
    ensures
        r@.len() == pages@.len(),
        forall|j: int|
            0 <= j < pages@.len() ==> {
                &&& (#[trigger] r@[j]).target_address == base + pages@[j] * page_size
                &&& r@[j].data@ == page_of(image@, page_size as nat, pages@[j] as int)
            },
{
    let ps = page_size as usize;
    let len = image.len();
    let mut r: Vec<WriteFlashPage> = Vec::new();
    let mut j: usize = 0;
    while j < pages.len()
        invariant
            ps == page_size as usize,
            ps > 0,
            len == image@.len(),
            base + image@.len() <= u32::MAX,
            forall|k: int| 0 <= k < pages@.len() ==> #[trigger] pages@[k] < image@.len() / (ps as nat),
            j <= pages@.len(),
            r@.len() == j,
            forall|k: int|
                0 <= k < j ==> {
                    &&& (#[trigger] r@[k]).target_address == base + pages@[k] * page_size
                    &&& r@[k].data@ == page_of(image@, page_size as nat, pages@[k] as int)
                },
        decreases pages@.len() - j,
    {
        let i = pages[j];
        proof {
            lemma_page_bounds(image@.len(), ps as nat, i as int);
        }
        let start = i * ps;
        let page = slice_subrange(image, start, start + ps);
        let mut data: Vec<u8> = Vec::new();
        crate::command::extend_from(&mut data, page, 0);
        assert(page@.subrange(0, page@.len() as int) =~= page@);
        assert(page@ =~= page_of(image@, ps as nat, i as int));
        assert(data@ == page_of(image@, page_size as nat, pages@[j as int] as int));
        let target = base + (start as u32);
        assert(target == base + pages@[j as int] * page_size);
        r.push(WriteFlashPage { target_address: target, data });
        j = j + 1;
    }
    r
}

/// The page writes that flashing needs, given the checksums of the image's
/// pages and those the device reported: one per differing page, in address
/// order.
pub fn writes_for_checksums(image: &[u8], base: u32, page_size: u32, local: &[u16], device: &[u16]) -> (r: Vec<WriteFlashPage>)
    requires
        page_size > 0,
        base + image@.len() <= u32::MAX,
        local@.len() == image@.len() / (page_size as nat),
        device@.len() >= local@.len(),
    ensures
        ({
            let m = mismatches(local@, device@, local@.len());
            &&& r@.len() == m.len()
            &&& forall|j: int|
                0 <= j < m.len() ==> {
                    &&& (#[trigger] r@[j]).target_address == base + m[j] * page_size
                    &&& r@[j].data@ == page_of(image@, page_size as nat, m[j] as int)
                }
        }),
{
    let pages = mismatched_pages(local, device);
    proof {
        lemma_mismatches_exact(local@, device@, local@.len());
    }
    write_requests(image, base, page_size, pages.as_slice())
}

/// The page writes that flashing a padded image needs, given the checksums
/// the device reported for its pages.
pub fn flash_writes(image: &[u8], base: u32, page_size: u32, device: &[u16]) -> (r: Vec<WriteFlashPage>)
    requires
        page_size > 0,
        image@.len() % (page_size as nat) == 0,
        base + image@.len() <= u32::MAX,
        device@.len() >= image@.len() / (page_size as nat),
    ensures
        ({
            let m = mismatches(page_checksums(image@, page_size as nat), device@, image@.len() / (page_size as nat));
            &&& r@.len() == m.len()
            &&& forall|j: int|
                0 <= j < m.len() ==> {
                    &&& (#[trigger] r@[j]).target_address == base + m[j] * page_size
                    &&& r@[j].data@ == page_of(image@, page_size as nat, m[j] as int)
                }
        }),
{
    let local = local_checksums(image, page_size);
    writes_for_checksums(image, base, page_size, local.as_slice(), device)
}

/// Every page of a padded image whose checksum differs from the one the
/// device reported, ascending.
pub fn verify_image(image: &[u8], page_size: u32, device: &[u16]) -> (r: Vec<usize>)
    requires
        page_size > 0,
        image@.len() % (page_size as nat) == 0,
        device@.len() >= image@.len() / (page_size as nat),
    ensures
        r@ == mismatches(page_checksums(image@, page_size as nat), device@, image@.len() / (page_size as nat)),
{
    let local = local_checksums(image, page_size);
    mismatched_pages(local.as_slice(), device)
}

/// Appends the checksums of one reply to those gathered so far.
pub fn append_checksums(all: &mut Vec<u16>, rsp: &ChksumPagesResponse)
    ensures
        final(all)@ == old(all)@ + rsp.chksums@,
{
    let mut i: usize = 0;
    while i < rsp.chksums.len()
        invariant
            i <= rsp.chksums@.len(),
            all@ == old(all)@ + rsp.chksums@.subrange(0, i as int),
        decreases rsp.chksums@.len() - i,
    {
        all.push(rsp.chksums[i]);
        i = i + 1;
        assert(rsp.chksums@.subrange(0, i as int) =~= rsp.chksums@.subrange(0, i - 1) + seq![rsp.chksums@[i - 1]]);
    }
    assert(rsp.chksums@.subrange(0, i as int) =~= rsp.chksums@);
}

/// Whether the device must be told to start flashing first.
pub fn needs_start_flash(info: &BinInfoResponse) -> (r: bool)
    ensures
        r == (info.mode != BinInfoMode::Bootloader),
{
    match info.mode {
        BinInfoMode::Bootloader => false,
        BinInfoMode::UserSpace => true,
    }
}

/// An index is in the mismatch list exactly when the checksums differ
/// there; the list is strictly ascending and empty when all agree.
pub proof fn lemma_mismatches_exact(local: Seq<u16>, device: Seq<u16>, n: nat)
    requires
        n <= local.len(),
        n <= device.len(),
        n <= usize::MAX,
    ensures
        forall|j: int|
            0 <= j < mismatches(local, device, n).len() ==> {
                let i = #[trigger] mismatches(local, device, n)[j];
                &&& i < n
                &&& local[i as int] != device[i as int]
            },
        forall|j: int, k: int|
            0 <= j < k < mismatches(local, device, n).len() ==> mismatches(local, device, n)[j]
                < mismatches(local, device, n)[k],
        forall|i: int|
            0 <= i < n && local[i] != device[i] ==> exists|j: int|
                0 <= j < mismatches(local, device, n).len() && mismatches(local, device, n)[j]
                    == i,
        (forall|i: int| 0 <= i < n ==> local[i] == device[i]) ==> mismatches(local, device, n).len()
            == 0,
    decreases n,
{
    if n > 0 {
        lemma_mismatches_exact(local, device, (n - 1) as nat);
        let p = mismatches(local, device, (n - 1) as nat);
        let m = mismatches(local, device, n);
        assert forall|i: int| 0 <= i < n && local[i] != device[i] implies exists|j: int|
            0 <= j < m.len() && m[j] == i by {
            if i < n - 1 {
                let j = choose|j: int| 0 <= j < p.len() && p[j] == i;
                assert(m[j] == p[j]);
            } else {
                assert(m[m.len() - 1] == i);
            }
        }
        if forall|i: int| 0 <= i < n ==> local[i] == device[i] {
            assert(local[n - 1] == device[n - 1]);
        }
    }
}

/// The checksum queries for a padded image of `image_len` bytes flashed at
/// `base`, sized by the geometry the device reported.
pub fn checksum_plan(info: &BinInfoResponse, base: u32, image_len: usize) -> (r: Vec<ChksumPages>)
    requires
        info.flash_page_size > 0,
        info.max_message_size >= 6,
        image_len as nat % (info.flash_page_size as nat) == 0,
        base + image_len <= u32::MAX,
    ensures
        r@ == queries(
            base as int,
            image_len as nat / (info.flash_page_size as nat),
            info.flash_page_size as nat,
            (info.max_message_size / 2 - 2) as nat,
        ),
{
    let max_pages = max_pages_per_query(info.max_message_size);
    let ps = info.flash_page_size;
    let num_pages = (image_len / (ps as usize)) as u32;
    proof {
        let len = image_len as int;
        let p = ps as int;
        lemma_fundamental_div_mod(len, p);
        assert(num_pages * ps == len) by (nonlinear_arith)
            requires
                len == p * (len / p) + len % p,
                len % p == 0,
                num_pages == len / p,
                p == ps,
        ;
    }
    checksum_queries(base, num_pages, ps, max_pages)
}

/// No checksum query asks for more than `max_pages` pages.
pub proof fn lemma_queries_bounded(target: int, remaining: nat, ps: nat, max_pages: nat)
    requires
        max_pages <= u32::MAX,
    ensures
        forall|j: int|
            0 <= j < queries(target, remaining, ps, max_pages).len() ==> (#[trigger] queries(
                target,
                remaining,
                ps,
                max_pages,
            )[j]).num_pages <= max_pages,
    decreases remaining,
{
    if remaining > 0 && max_pages > 0 {
        let n: nat = if remaining < max_pages {
            remaining
        } else {
            max_pages
        };
        lemma_queries_bounded(target + n * ps, (remaining - n) as nat, ps, max_pages);
        let rest = queries(target + n * ps, (remaining - n) as nat, ps, max_pages);
        let all = queries(target, remaining, ps, max_pages);
        assert forall|j: int| 0 <= j < all.len() implies (#[trigger] all[j]).num_pages
            <= max_pages by {
            if j > 0 {
                assert(all[j] == rest[j - 1]);
            }
        }
    }
}

/// An image of exactly `max_pages` pages takes one checksum query; one of
/// a page more takes two.
pub proof fn lemma_queries_batch_boundary(target: int, ps: nat, max_pages: nat)
    requires
        max_pages > 0,
    ensures
        queries(target, max_pages, ps, max_pages).len() == 1,
        queries(target, max_pages + 1, ps, max_pages).len() == 2,
{
    assert(queries(target + max_pages * ps, 0, ps, max_pages).len() == 0);
    let t2 = target + max_pages * ps;
    assert(queries(t2 + 1 * ps, 0, ps, max_pages).len() == 0);
    assert(queries(t2, 1, ps, max_pages).len() == 1);
}

/// Verifying reports every differing page, not only the first: of two
/// differing pages, both are listed.
pub proof fn lemma_verify_reports_both(local: Seq<u16>, device: Seq<u16>, n: nat, a: int, b: int)
    requires
        n <= local.len(),
        n <= device.len(),
        n <= usize::MAX,
        0 <= a < n,
        0 <= b < n,
        local[a] != device[a],
        local[b] != device[b],
    ensures
        mismatches(local, device, n).contains(a as usize),
        mismatches(local, device, n).contains(b as usize),
{
    lemma_mismatches_exact(local, device, n);
    let m = mismatches(local, device, n);
    let ja = choose|j: int| 0 <= j < m.len() && m[j] == a;
    let jb = choose|j: int| 0 <= j < m.len() && m[j] == b;
    assert(m[ja] == a as usize);
    assert(m[jb] == b as usize);
}

} // verus!
