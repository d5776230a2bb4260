//! Boot-protocol keyboard input reports, as written to the HID gadget.
use vstd::prelude::*;

verus! {

/// An input report: modifier byte, reserved byte, then six key slots, of
/// which only the first holds a key.
pub open spec fn spec_press_report(modifier: u8, keycode: u8) -> Seq<u8> {
    seq![modifier, 0u8, keycode, 0u8, 0u8, 0u8, 0u8, 0u8]
}

/// The report with no modifier and no key held.
pub open spec fn spec_release_report() -> Seq<u8> {
    Seq::new(8, |i: int| 0u8)
}

/// The report that holds `keycode` down with `modifier`.
pub fn press_report(modifier: u8, keycode: u8) -> (r: [u8; 8])
    ensures
        r@ == spec_press_report(modifier, keycode),
{
    let r: [u8; 8] = [modifier, 0, keycode, 0, 0, 0, 0, 0];
    assert(r@ =~= spec_press_report(modifier, keycode));
    r
}

/// The report that releases every key.
pub fn release_report() -> (r: [u8; 8])
    ensures
        r@ == spec_release_report(),
{
    let r: [u8; 8] = [0, 0, 0, 0, 0, 0, 0, 0];
    assert(r@ =~= spec_release_report());
    r
}

/// A press report is eight bytes: the modifier byte as given, a reserved
/// zero, the key as given in the first key slot, and the five other key
/// slots empty.
pub proof fn lemma_press_report_layout(modifier: u8, keycode: u8)
    ensures
        spec_press_report(modifier, keycode).len() == 8,
        spec_press_report(modifier, keycode)[0] == modifier,
        spec_press_report(modifier, keycode)[2] == keycode,
        forall|i: int|
            0 <= i < 8 && i != 0 && i != 2 ==> #[trigger] spec_press_report(modifier, keycode)[i]
                == 0,
{
}

/// A release report is eight zero bytes: no modifier and no key held.
pub proof fn lemma_release_report_empty()
    ensures
        spec_release_report().len() == 8,
        forall|i: int| 0 <= i < 8 ==> #[trigger] spec_release_report()[i] == 0,
{
}

/// Distinct key combinations give distinct press reports, none of which is
/// the release report but the one holding nothing.
pub proof fn lemma_press_report_injective(m1: u8, k1: u8, m2: u8, k2: u8)
    ensures
        spec_press_report(m1, k1) == spec_press_report(m2, k2) ==> m1 == m2 && k1 == k2,
        spec_press_report(m1, k1) == spec_release_report() ==> m1 == 0 && k1 == 0,
{
    if spec_press_report(m1, k1) == spec_press_report(m2, k2) {
        assert(spec_press_report(m1, k1)[0] == spec_press_report(m2, k2)[0]);
        assert(spec_press_report(m1, k1)[2] == spec_press_report(m2, k2)[2]);
    }
    if spec_press_report(m1, k1) == spec_release_report() {
        assert(spec_press_report(m1, k1)[0] == spec_release_report()[0]);
        assert(spec_press_report(m1, k1)[2] == spec_release_report()[2]);
    }
}

} // verus!
