//! Telling whether the keyboard gadget is plugged into the machine the
//! typing client runs on, from the output of the system's USB listing.
//! Typing there would feed every key back into the client.
use vstd::prelude::*;

verus! {

/// Whether `needle` occurs in `hay` at position `i`.
pub open spec fn occurs_at(hay: Seq<u8>, needle: Seq<u8>, i: int) -> bool {
    0 <= i && i + needle.len() <= hay.len() && hay.subrange(i, i + needle.len()) == needle
}

/// The bytes of an ASCII text.
pub open spec fn ascii(s: Seq<char>) -> Seq<u8> {
    s.map_values(|c: char| c as u8)
}

/// `idVendor" = 13364`: the gadget's vendor id (0x3434) as `ioreg` prints it.
pub open spec fn ioreg_vendor() -> Seq<u8> {
    ascii(seq!['i', 'd', 'V', 'e', 'n', 'd', 'o', 'r', '\"', ' ', '=', ' ', '1', '3', '3', '6', '4'])
}

/// `idProduct" = 819`: the gadget's product id (0x0333) as `ioreg` prints it.
pub open spec fn ioreg_product() -> Seq<u8> {
    ascii(seq!['i', 'd', 'P', 'r', 'o', 'd', 'u', 'c', 't', '\"', ' ', '=', ' ', '8', '1', '9'])
}

/// `+-o`: what `ioreg` prints at the head of each registry entry (each
/// device); an entry's properties follow it, up to the next entry.
pub open spec fn entry_marker() -> Seq<u8> {
    ascii(seq!['+', '-', 'o'])
}

/// No entry starts at a position in `lo .. hi`.
pub open spec fn no_entry_between(hay: Seq<u8>, lo: int, hi: int) -> bool {
    forall|m: int| lo <= m < hi ==> !#[trigger] occurs_at(hay, entry_marker(), m)
}

/// Positions `i` and `j` lie in the same entry: no entry starts from the
/// first of them up to and including the second.
pub open spec fn same_entry(hay: Seq<u8>, i: int, j: int) -> bool {
    if i <= j {
        no_entry_between(hay, i, j + 1)
    } else {
        no_entry_between(hay, j, i + 1)
    }
}

/// Whether an `ioreg` listing shows the gadget: some one entry holds both
/// its vendor id and its product id.
pub open spec fn ioreg_lists_gadget(out: Seq<u8>) -> bool {
    exists|i: int, j: int|
        #![trigger occurs_at(out, ioreg_vendor(), i), occurs_at(out, ioreg_product(), j)]
        occurs_at(out, ioreg_vendor(), i) && occurs_at(out, ioreg_product(), j) && same_entry(
            out,
            i,
            j,
        )
}

/// Whether the output of a USB listing shows the gadget: for `ioreg` (on
/// macOS) when one device entry holds both its vendor and its product id;
/// for `lsusb -d` filtered on the gadget's ids (elsewhere) when it is not
/// empty. A listing that could not be had (`None`) shows nothing.
pub open spec fn spec_listing_shows_gadget(macos: bool, output: Option<Seq<u8>>) -> bool {
    match output {
        None => false,
        Some(out) => if macos {
            ioreg_lists_gadget(out)
        } else {
            out.len() > 0
        },
    }
}

/// A listing in which `idVendor" = 13364` is followed by
/// `idProduct" = 819` with no `+` between them, that is within one `ioreg`
/// entry, shows the gadget.
pub proof fn lemma_ioreg_ids_in_one_entry(h: Seq<u8>, i: int, j: int)
    requires
        0 <= i <= j,
        i + 17 <= h.len(),
        j + 16 <= h.len(),
        h.subrange(i, i + 17) == seq![0x69u8, 0x64u8, 0x56u8, 0x65u8, 0x6eu8, 0x64u8, 0x6fu8, 0x72u8, 0x22u8, 0x20u8, 0x3du8, 0x20u8, 0x31u8, 0x33u8, 0x33u8, 0x36u8, 0x34u8],
        h.subrange(j, j + 16) == seq![0x69u8, 0x64u8, 0x50u8, 0x72u8, 0x6fu8, 0x64u8, 0x75u8, 0x63u8, 0x74u8, 0x22u8, 0x20u8, 0x3du8, 0x20u8, 0x38u8, 0x31u8, 0x39u8],
        forall|m: int| i <= m <= j ==> h[m] != 0x2bu8,
    ensures
        ioreg_lists_gadget(h),
{
    assert(ioreg_vendor() =~= h.subrange(i, i + 17));
    assert(ioreg_product() =~= h.subrange(j, j + 16));
    assert forall|m: int| i <= m < j + 1 implies !#[trigger] occurs_at(h, entry_marker(), m) by {
        if occurs_at(h, entry_marker(), m) {
            assert(h.subrange(m, m + 3)[0] == h[m]);
        }
    }
    assert(occurs_at(h, ioreg_vendor(), i) && occurs_at(h, ioreg_product(), j));
}

/// Whether `needle` occurs in `hay` at position `i`.
pub fn occurs_at_exec(hay: &[u8], needle: &[u8], i: usize) -> (r: bool)
    ensures
        r == occurs_at(hay@, needle@, i as int),
{
    if i > hay.len() || needle.len() > hay.len() - i {
        return false;
    }
    let n: usize = needle.len();
    let mut j: usize = 0;
    while j < n
        invariant
            j <= n,
            n == needle@.len(),
            i + n <= hay.len(),
            hay@.len() == hay.len(),
            forall|k: int| 0 <= k < j ==> hay@[i + k] == needle@[k],
        decreases n - j,
    {
        if hay[i + j] != needle[j] {
            assert(hay@.subrange(i as int, i + n)[j as int] != needle@[j as int]);
            return false;
        }
        j = j + 1;
    }
    assert(hay@.subrange(i as int, i + n) =~= needle@);
    true
}

/// Whether an `ioreg -l` listing shows the gadget (see `ioreg_lists_gadget`).
pub fn ioreg_shows_gadget(out: &[u8]) -> (r: bool)
    ensures
        r == ioreg_lists_gadget(out@),
{
    let vendor: [u8; 17] = [0x69, 0x64, 0x56, 0x65, 0x6e, 0x64, 0x6f, 0x72, 0x22, 0x20, 0x3d, 0x20, 0x31, 0x33, 0x33, 0x36, 0x34];
    let product: [u8; 16] = [0x69, 0x64, 0x50, 0x72, 0x6f, 0x64, 0x75, 0x63, 0x74, 0x22, 0x20, 0x3d, 0x20, 0x38, 0x31, 0x39];
    let marker: [u8; 3] = [0x2b, 0x2d, 0x6f];
    assert(vendor@ =~= ioreg_vendor());
    assert(product@ =~= ioreg_product());
    assert(marker@ =~= entry_marker());
    let ghost h = out@;
    let ghost vd = ioreg_vendor();
    let ghost pd = ioreg_product();
    // The latest vendor and product id seen since the start of the current entry.
    let mut last_v: Option<usize> = None;
    let mut last_p: Option<usize> = None;
    let mut p: usize = 0;
    while p < out.len()
        invariant
            p <= out.len(),
            h == out@,
            vd == ioreg_vendor(),
            pd == ioreg_product(),
            vendor@ == vd,
            product@ == pd,
            marker@ == entry_marker(),
            last_v matches Some(i) ==> i < p && occurs_at(h, vd, i as int) && no_entry_between(
                h,
                i as int,
                p as int,
            ),
            last_p matches Some(j) ==> j < p && occurs_at(h, pd, j as int) && no_entry_between(
                h,
                j as int,
                p as int,
            ),
            forall|i: int|
                0 <= i < p && #[trigger] occurs_at(h, vd, i) && no_entry_between(h, i, p as int)
                    ==> last_v is Some,
            forall|j: int|
                0 <= j < p && #[trigger] occurs_at(h, pd, j) && no_entry_between(h, j, p as int)
                    ==> last_p is Some,
            !(last_v is Some && last_p is Some),
            forall|i: int, j: int|
                0 <= i < p && 0 <= j < p && #[trigger] occurs_at(h, vd, i) && #[trigger] occurs_at(
                    h,
                    pd,
                    j,
                ) ==> !same_entry(h, i, j),
        decreases out.len() - p,
    {
        let ghost old_v = last_v;
        let ghost old_p = last_p;
        if occurs_at_exec(out, marker.as_slice(), p) {
            last_v = None;
            last_p = None;
            assert forall|i: int, j: int|
                0 <= i < p + 1 && 0 <= j < p + 1 && #[trigger] occurs_at(h, vd, i)
                    && #[trigger] occurs_at(h, pd, j) implies !same_entry(h, i, j) by {
                if i < p && j < p {
                } else if i <= j {
                    assert(!no_entry_between(h, i, j + 1)) by {
                        assert(occurs_at(h, entry_marker(), p as int));
                    }
                } else {
                    assert(!no_entry_between(h, j, i + 1)) by {
                        assert(occurs_at(h, entry_marker(), p as int));
                    }
                }
            }
            assert forall|i: int|
                0 <= i < p + 1 && #[trigger] occurs_at(h, vd, i) implies !no_entry_between(
                h,
                i,
                p + 1,
            ) by {
                assert(occurs_at(h, entry_marker(), p as int));
            }
            assert forall|j: int|
                0 <= j < p + 1 && #[trigger] occurs_at(h, pd, j) implies !no_entry_between(
                h,
                j,
                p + 1,
            ) by {
                assert(occurs_at(h, entry_marker(), p as int));
            }
        } else {
            assert(!occurs_at(h, entry_marker(), p as int));
            if occurs_at_exec(out, vendor.as_slice(), p) {
                last_v = Some(p);
            }
            if occurs_at_exec(out, product.as_slice(), p) {
                last_p = Some(p);
            }
            if let Some(i) = last_v {
                if let Some(j) = last_p {
                    assert(same_entry(h, i as int, j as int));
                    assert(occurs_at(h, vd, i as int) && occurs_at(h, pd, j as int));
                    return true;
                }
            }
            assert forall|i: int, j: int|
                0 <= i < p + 1 && 0 <= j < p + 1 && #[trigger] occurs_at(h, vd, i)
                    && #[trigger] occurs_at(h, pd, j) implies !same_entry(h, i, j) by {
                if i < p && j < p {
                } else if i == p {
                    if j < p && same_entry(h, i, j) {
                        assert(no_entry_between(h, j, p as int));
                    }
                } else {
                    if i < p && same_entry(h, i, j) {
                        assert(no_entry_between(h, i, p as int));
                    }
                }
            }
        }
        p = p + 1;
    }
    assert forall|i: int, j: int|
        #[trigger] occurs_at(h, vd, i) && #[trigger] occurs_at(h, pd, j) implies !same_entry(
        h,
        i,
        j,
    ) by {
        assert(i < p && j < p);
    }
    false
}

/// Whether a USB listing shows the keyboard gadget (see
/// `spec_listing_shows_gadget`).
pub fn listing_shows_gadget(macos: bool, output: Option<&[u8]>) -> (r: bool)
    ensures
        r == spec_listing_shows_gadget(
            macos,
            match output {
                Some(o) => Some(o@),
                None => None,
            },
        ),
{
    match output {
        None => false,
        Some(out) => if macos {
            ioreg_shows_gadget(out)
        } else {
            out.len() > 0
        },
    }
}

} // verus!
