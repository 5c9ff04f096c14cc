//! Device discovery: filtering and ranking raw-HID candidates.
//!
//! The system's device inventory is scanned outside the library; each
//! candidate endpoint arrives here as plain values (vendor id, product id,
//! interface hints). The library keeps only target-vendor candidates,
//! assigns each a transport-quality priority (dedicated receiver above
//! direct USB above other), breaks ties by preferring the device's second
//! logical interface, and hands back a priority-ordered list for the
//! transport to try in order. A candidate is accepted only after a live
//! ping succeeds, which is decided by the protocol module.

use vstd::prelude::*;
use crate::hidpp::{ConnectionType, LOGITECH_VENDOR_ID};
use crate::product_ids;

verus! {

broadcast use
    vstd::seq_lib::group_to_multiset_ensures,
    vstd::multiset::group_multiset_axioms,
    vstd::seq_lib::to_multiset_update,
;

/// One raw-HID endpoint found by the system scan, reduced to what ranking
/// and classification read. `slot` is the caller's own handle (an index
/// into its path list) carried through the sort.
#[derive(Debug, Clone, Copy)]
pub struct DiscoveryCandidate {
    /// The caller's handle for this endpoint
    pub slot: usize,
    /// USB vendor id
    pub vendor_id: u16,
    /// USB product id
    pub product_id: u16,
    /// Whether the endpoint is the device's second logical interface,
    /// conventionally the HID++ one
    pub is_second_interface: bool,
}

/// Transport-quality priority of a product: the Bolt receiver ranks
/// highest, the Unifying receiver and the direct USB device next, any other
/// device of the vendor last.
pub open spec fn spec_priority(product_id: u16) -> u8 {
    if product_id == product_ids::BOLT_RECEIVER {
        3u8
    } else if product_id == product_ids::UNIFYING_RECEIVER {
        2u8
    } else if product_id == product_ids::MX_MASTER_4_USB {
        2u8
    } else {
        1u8
    }
}

/// Compute a candidate product's transport-quality priority.
pub fn product_priority(product_id: u16) -> (r: u8)
    ensures
        r == spec_priority(product_id),
{
    if product_id == product_ids::BOLT_RECEIVER {
        3
    } else if product_id == product_ids::UNIFYING_RECEIVER {
        2
    } else if product_id == product_ids::MX_MASTER_4_USB {
        2
    } else {
        1
    }
}

/// Ranking order: higher priority first; within one priority, the second
/// logical interface first.
pub open spec fn spec_ranked_before_eq(a: DiscoveryCandidate, b: DiscoveryCandidate) -> bool {
    ||| spec_priority(a.product_id) > spec_priority(b.product_id)
    ||| (spec_priority(a.product_id) == spec_priority(b.product_id) && (a.is_second_interface
        || !b.is_second_interface))
}

/// The addressing a product implies: the direct USB device and a Bluetooth
/// endpoint on the second interface use the reserved direct index 0xFF; a
/// receiver hosts the mouse at the small fixed index 0x01; anything else is
/// no candidate at all.
pub open spec fn spec_classify_product(product_id: u16, is_second_interface: bool) -> Option<
    (ConnectionType, u8),
> {
    if product_id == product_ids::MX_MASTER_4_USB {
        Some((ConnectionType::Usb, 0xFFu8))
    } else if product_id == product_ids::BOLT_RECEIVER {
        Some((ConnectionType::Bolt, 0x01u8))
    } else if product_id == product_ids::UNIFYING_RECEIVER {
        Some((ConnectionType::Unifying, 0x01u8))
    } else if is_second_interface {
        Some((ConnectionType::Bluetooth, 0xFFu8))
    } else {
        None
    }
}

/// Classify a candidate: only target-vendor endpoints qualify, and the
/// product decides the connection type and the device index to address.
pub fn classify_candidate(c: &DiscoveryCandidate) -> (r: Option<(ConnectionType, u8)>)
    ensures
        c.vendor_id != LOGITECH_VENDOR_ID ==> r is None,
        c.vendor_id == LOGITECH_VENDOR_ID ==> r == spec_classify_product(
            c.product_id,
            c.is_second_interface,
        ),
{
    if c.vendor_id != LOGITECH_VENDOR_ID {
        return None;
    }
    if c.product_id == product_ids::MX_MASTER_4_USB {
        Some((ConnectionType::Usb, 0xFF))
    } else if c.product_id == product_ids::BOLT_RECEIVER {
        Some((ConnectionType::Bolt, 0x01))
    } else if c.product_id == product_ids::UNIFYING_RECEIVER {
        Some((ConnectionType::Unifying, 0x01))
    } else if c.is_second_interface {
        Some((ConnectionType::Bluetooth, 0xFF))
    } else {
        None
    }
}

/// What a raw-HID endpoint's uevent text says about it, read the way the
/// scan reads it: the target vendor and the known products are recognized
/// by their hex ids appearing anywhere in the text (either case), and the
/// second logical interface by its input name.
pub fn candidate_from_uevent(slot: usize, uevent: &str) -> (r: Option<DiscoveryCandidate>)
    ensures
        r is Some <==> crate::text::spec_contains_lower(uevent@, "046d"@),
        r matches Some(c) ==> {
            &&& c.slot == slot
            &&& c.vendor_id == LOGITECH_VENDOR_ID
            &&& c.product_id == (if crate::text::spec_contains_lower(uevent@, "c548"@) {
                product_ids::BOLT_RECEIVER
            } else if crate::text::spec_contains_lower(uevent@, "c52b"@) {
                product_ids::UNIFYING_RECEIVER
            } else if crate::text::spec_contains_lower(uevent@, "b034"@) {
                product_ids::MX_MASTER_4_USB
            } else {
                0
            })
            &&& c.is_second_interface == crate::text::spec_contains_lower(uevent@, "input2"@)
        },
{
    if !crate::text::contains_lower(uevent, "046d") {
        return None;
    }
    let product_id = if crate::text::contains_lower(uevent, "c548") {
        product_ids::BOLT_RECEIVER
    } else if crate::text::contains_lower(uevent, "c52b") {
        product_ids::UNIFYING_RECEIVER
    } else if crate::text::contains_lower(uevent, "b034") {
        product_ids::MX_MASTER_4_USB
    } else {
        0
    };
    let is_second_interface = crate::text::contains_lower(uevent, "input2");
    Some(DiscoveryCandidate { slot, vendor_id: LOGITECH_VENDOR_ID, product_id, is_second_interface })
}

/// Keep only target-vendor candidates and order them best first: by
/// priority, then preferring the second logical interface. Every
/// target-vendor candidate is kept exactly as often as it occurred, and
/// nothing else gets in; opening is attempted in the returned order.
pub fn rank_candidates(candidates: &Vec<DiscoveryCandidate>) -> (r: Vec<DiscoveryCandidate>)
    ensures
        forall|i: int, j: int|
            0 <= i < j < r@.len() ==> spec_ranked_before_eq(#[trigger] r@[i], #[trigger] r@[j]),
        forall|c: DiscoveryCandidate|
            #[trigger] r@.to_multiset().count(c) == (if c.vendor_id == LOGITECH_VENDOR_ID {
                candidates@.to_multiset().count(c)
            } else {
                0nat
            }),
{
    let mut kept: Vec<DiscoveryCandidate> = Vec::new();
    let n = candidates.len();
    let mut i: usize = 0;
    while i < n
        invariant
            n == candidates@.len(),
            i <= n,
            forall|c: DiscoveryCandidate|
                #[trigger] kept@.to_multiset().count(c) == (if c.vendor_id == LOGITECH_VENDOR_ID {
                    candidates@.take(i as int).to_multiset().count(c)
                } else {
                    0nat
                }),
        decreases n - i,
    {
        let c = candidates[i];
        let ghost pre = kept@;
        if c.vendor_id == LOGITECH_VENDOR_ID {
            kept.push(c);
        }
        proof {
            assert(candidates@.take(i + 1) =~= candidates@.take(i as int).push(
                candidates@[i as int],
            ));
        }
        i += 1;
    }
    proof {
        assert(candidates@.take(n as int) =~= candidates@);
    }
    sort_ranked(kept)
}

/// Insertion sort by the ranking order: the result is sorted and is a
/// permutation of the input.
fn sort_ranked(items: Vec<DiscoveryCandidate>) -> (r: Vec<DiscoveryCandidate>)
    ensures
        forall|i: int, j: int|
            0 <= i < j < r@.len() ==> spec_ranked_before_eq(#[trigger] r@[i], #[trigger] r@[j]),
        r@.to_multiset() == items@.to_multiset(),
{
    let mut v = items;
    let n = v.len();
    if n <= 1 {
        return v;
    }
    let mut i: usize = 1;
    while i < n
        invariant
            n == v@.len(),
            1 <= i <= n,
            forall|p: int, q: int|
                0 <= p < q < i ==> spec_ranked_before_eq(#[trigger] v@[p], #[trigger] v@[q]),
            v@.to_multiset() == items@.to_multiset(),
        decreases n - i,
    {
        let mut j: usize = i;
        while j > 0 && !ranked_pair(&v, j)
            invariant
                n == v@.len(),
                j <= i < n,
                forall|p: int, q: int|
                    0 <= p < q < i + 1 && q != j ==> spec_ranked_before_eq(
                        #[trigger] v@[p],
                        #[trigger] v@[q],
                    ),
                forall|p: int|
                    j < p < i + 1 ==> spec_ranked_before_eq(#[trigger] v@[j as int], v@[p]),
                v@.to_multiset() == items@.to_multiset(),
            decreases j,
        {
            proof {
                lemma_ranking_total(v@[j - 1], v@[j as int]);
            }
            let ghost pre = v@;
            let a = v[j - 1];
            let b = v[j];
            v.set(j - 1, b);
            v.set(j, a);
            proof {
                lemma_swap_multiset(pre, v@, j - 1, j as int);
            }
            j -= 1;
        }
        proof {
            assert forall|p: int, q: int|
                0 <= p < q < i + 1 implies spec_ranked_before_eq(
                #[trigger] v@[p],
                #[trigger] v@[q],
            ) by {
                if q == j {
                    assert(spec_ranked_before_eq(v@[j - 1], v@[j as int]));
                    if p < j - 1 {
                        assert(spec_ranked_before_eq(v@[p], v@[j - 1]));
                    }
                }
            }
        }
        i += 1;
    }
    v
}

/// Whether position `j-1` is ranked no worse than position `j`.
fn ranked_pair(v: &Vec<DiscoveryCandidate>, j: usize) -> (r: bool)
    requires
        1 <= j < v@.len(),
    ensures
        r == spec_ranked_before_eq(v@[j - 1], v@[j as int]),
{
    let prio_prev = product_priority(v[j - 1].product_id);
    let prio_here = product_priority(v[j].product_id);
    prio_prev > prio_here || (prio_prev == prio_here && (v[j - 1].is_second_interface || !v[j
        ].is_second_interface))
}

/// The ranking order is total: two candidates can always be ordered one way
/// or the other.
proof fn lemma_ranking_total(a: DiscoveryCandidate, b: DiscoveryCandidate)
    ensures
        spec_ranked_before_eq(a, b) || spec_ranked_before_eq(b, a),
{
}

/// Swapping two adjacent positions of a sequence keeps its multiset.
proof fn lemma_swap_multiset(
    pre: Seq<DiscoveryCandidate>,
    post: Seq<DiscoveryCandidate>,
    x: int,
    y: int,
)
    requires
        0 <= x < pre.len(),
        0 <= y < pre.len(),
        x != y,
        post == pre.update(x, pre[y]).update(y, pre[x]),
    ensures
        post.to_multiset() == pre.to_multiset(),
{
    let mid = pre.update(x, pre[y]);
    assert(mid[y] == pre[y]);
    assert(pre.to_multiset().count(pre[x]) > 0) by {
        assert(pre.contains(pre[x]));
    }
    assert(post.to_multiset() =~= pre.to_multiset());
}

} // verus!
