//! The copy-command simulator's key sequence.
//!
//! The platform "copy selection" chord is synthesized as four discrete key
//! transitions — modifier down, key down, key up, modifier up — submitted to
//! the platform in one batch so nothing interleaves mid-sequence. This module
//! computes that sequence as plain values; the unverified driver turns each
//! transition into a platform input record and injects the batch.

use vstd::prelude::*;

verus! {

/// Virtual-key code of the control modifier.
pub const VK_CONTROL_CODE: u16 = 0x11;

/// Virtual-key code of the letter used by the copy chord.
pub const VK_C_CODE: u16 = 0x43;

/// One key transition: a virtual-key code going down or up.
#[derive(Clone, Copy, Debug, PartialEq, Eq, Structural)]
pub struct KeyTransition {
    pub code: u16,
    /// True for a press, false for a release.
    pub down: bool,
}

/// The copy chord: control down, letter down, letter up, control up.
pub open spec fn copy_chord_seq() -> Seq<KeyTransition> {
    seq![
        KeyTransition { code: VK_CONTROL_CODE, down: true },
        KeyTransition { code: VK_C_CODE, down: true },
        KeyTransition { code: VK_C_CODE, down: false },
        KeyTransition { code: VK_CONTROL_CODE, down: false },
    ]
}

/// Build the copy chord's key transitions, in injection order.
pub fn copy_chord() -> (r: Vec<KeyTransition>)
    ensures
        r@ == copy_chord_seq(),
{
    let mut r: Vec<KeyTransition> = Vec::new();
    r.push(KeyTransition { code: VK_CONTROL_CODE, down: true });
    r.push(KeyTransition { code: VK_C_CODE, down: true });
    r.push(KeyTransition { code: VK_C_CODE, down: false });
    r.push(KeyTransition { code: VK_CONTROL_CODE, down: false });
    proof {
        assert(r@ =~= copy_chord_seq());
    }
    r
}

/// The chord is balanced: each code pressed in it is released after its
/// press, and the modifier wraps the letter — it is pressed first and
/// released last.
pub proof fn lemma_copy_chord_balanced()
    ensures
        copy_chord_seq().len() == 4,
        copy_chord_seq()[0].code == copy_chord_seq()[3].code,
        copy_chord_seq()[1].code == copy_chord_seq()[2].code,
        forall|i: int|
            0 <= i < 4 ==> (#[trigger] copy_chord_seq()[i].down <==> i < 2),
{
}

} // verus!
