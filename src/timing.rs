//! The timing-generator handshake: a fixed-count settle poll on one register.
use crate::transfer::{put, Transfer};
use vstd::prelude::*;

verus! {

/// The handshake register.
pub const HANDSHAKE: u16 = 0x301;

/// Value written to start phase one.
pub const PHASE_ONE: u16 = 0x0100;

/// Selector of the settle reads of phase one.
pub const PHASE_ONE_SELECTOR: u16 = 0x0200;

/// Number of settle reads in phase one.
pub const SETTLE_READS: usize = 3;

/// Value written to start phase two.
pub const PHASE_TWO: u16 = 0x0200;

/// Selector of the read of phase two.
pub const PHASE_TWO_SELECTOR: u16 = 0x0402;

/// Selector of the single handshake read made while polling the sensor.
pub const RECHECK_SELECTOR: u16 = 0x0100;

/// A handshake read with `selector`.
pub open spec fn settle(selector: u16) -> Transfer {
    Transfer::Read { index: HANDSHAKE, selector }
}

/// The transfers of the handshake: start phase one, let the device settle
/// over three reads, start phase two, read once.
pub open spec fn handshake_plan() -> Seq<Transfer> {
    seq![
        put(HANDSHAKE, PHASE_ONE),
        settle(PHASE_ONE_SELECTOR),
        settle(PHASE_ONE_SELECTOR),
        settle(PHASE_ONE_SELECTOR),
        put(HANDSHAKE, PHASE_TWO),
        settle(PHASE_TWO_SELECTOR),
    ]
}

/// How many transfers of `ts` are reads with `selector`.
pub open spec fn count_reads(ts: Seq<Transfer>, selector: u16) -> nat
    decreases ts.len(),
{
    if ts.len() == 0 {
        0
    } else {
        count_reads(ts.drop_last(), selector) + if ts.last() matches Transfer::Read { selector: s, .. } && s == selector {
            1nat
        } else {
            0nat
        }
    }
}

/// Lowers the handshake to its control transfers.
pub fn handshake_transfers() -> (r: Vec<Transfer>)
    ensures
        r@ == handshake_plan(),
{
    let mut r: Vec<Transfer> = Vec::new();
    r.push(Transfer::Write { index: HANDSHAKE, value: PHASE_ONE });
    let mut i: usize = 0;
    while i < SETTLE_READS
        invariant
            i <= SETTLE_READS,
            r@ == seq![put(HANDSHAKE, PHASE_ONE)] + Seq::new(i as nat, |_j: int| settle(PHASE_ONE_SELECTOR)),
        decreases SETTLE_READS - i,
    {
        r.push(Transfer::Read { index: HANDSHAKE, selector: PHASE_ONE_SELECTOR });
        i = i + 1;
        assert(r@ =~= seq![put(HANDSHAKE, PHASE_ONE)] + Seq::new(i as nat, |_j: int| settle(PHASE_ONE_SELECTOR)));
    }
    r.push(Transfer::Write { index: HANDSHAKE, value: PHASE_TWO });
    r.push(Transfer::Read { index: HANDSHAKE, selector: PHASE_TWO_SELECTOR });
    assert(r@ =~= handshake_plan());
    r
}

/// On its success path the handshake makes exactly three settle reads in
/// phase one and exactly one read in phase two, and nothing else reads.
pub proof fn lemma_handshake_reads()
    ensures
        count_reads(handshake_plan().subrange(0, 4), PHASE_ONE_SELECTOR) == 3,
        count_reads(handshake_plan().subrange(4, 6), PHASE_TWO_SELECTOR) == 1,
        count_reads(handshake_plan().subrange(0, 4), PHASE_TWO_SELECTOR) == 0,
        count_reads(handshake_plan().subrange(4, 6), PHASE_ONE_SELECTOR) == 0,
        handshake_plan().len() == 6,
        handshake_plan()[0] == put(HANDSHAKE, PHASE_ONE),
        handshake_plan()[4] == put(HANDSHAKE, PHASE_TWO),
{
    let p = handshake_plan();
    let a = p.subrange(0, 4);
    let b = p.subrange(4, 6);
    reveal_with_fuel(count_reads, 5);
    assert(a.drop_last() =~= p.subrange(0, 3));
    assert(a.drop_last().drop_last() =~= p.subrange(0, 2));
    assert(a.drop_last().drop_last().drop_last() =~= p.subrange(0, 1));
    assert(a.drop_last().drop_last().drop_last().drop_last() =~= p.subrange(0, 0));
    assert(b.drop_last() =~= p.subrange(4, 5));
    assert(b.drop_last().drop_last() =~= p.subrange(4, 4));
}

} // verus!
