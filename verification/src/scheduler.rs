//! The two-tier schedule that bridges the fast read ticks to the slow
//! control ticks: every read-tick notification feeds the sensor path, and
//! exactly every `reads_per_bin`-th one is followed by a control tick. The
//! waiting itself happens in the unverified shell; this state machine makes
//! the decision.

use vstd::prelude::*;

verus! {

/// The schedule's whole state: how many read ticks the current bin has
/// seen. The count stays strictly below `reads_per_bin`; reaching it fires
/// a control tick and starts the next bin at zero.
pub struct Scheduler {
    reads_per_bin: u32,
    reads_done: u32,
}

impl Scheduler {
    /// How many read ticks fill one bin.
    pub closed spec fn spec_reads_per_bin(self) -> u32 {
        self.reads_per_bin
    }

    /// Read ticks seen in the current bin so far.
    pub closed spec fn spec_reads_done(self) -> u32 {
        self.reads_done
    }

    pub open spec fn wf(self) -> bool {
        0 < self.spec_reads_per_bin() && self.spec_reads_done() < self.spec_reads_per_bin()
    }

    /// A fresh schedule at the start of a bin.
    pub fn new(reads_per_bin: u32) -> (r: Scheduler)
        requires
            reads_per_bin > 0,
        ensures
            r.wf(),
            r.spec_reads_per_bin() == reads_per_bin,
            r.spec_reads_done() == 0,
    {
        Scheduler { reads_per_bin, reads_done: 0 }
    }

    /// Accounts for one read tick. Returns whether this tick completed the
    /// bin, in which case one control tick is due now and the next bin
    /// starts empty; no other tick makes a control tick due.
    pub fn on_read_tick(&mut self) -> (control_due: bool)
        requires
            old(self).wf(),
        ensures
            final(self).wf(),
            final(self).spec_reads_per_bin() == old(self).spec_reads_per_bin(),
            control_due == (old(self).spec_reads_done() + 1 == old(self).spec_reads_per_bin()),
            final(self).spec_reads_done() == if control_due {
                0u32
            } else {
                (old(self).spec_reads_done() + 1) as u32
            },
    {
        self.reads_done = self.reads_done + 1;
        if self.reads_done == self.reads_per_bin {
            self.reads_done = 0;
            true
        } else {
            false
        }
    }
}

/// The schedule's period, stated over a whole run: starting from a fresh
/// bin, after `n` read ticks the current bin has seen `n % reads_per_bin`
/// of them, and exactly `n / reads_per_bin` control ticks have fired —
/// one per full bin of reads, never more, never fewer. The two right-hand
/// sides step exactly as `Scheduler::on_read_tick` steps its state and
/// result, so the claim follows for every run by induction on its length.
pub proof fn lemma_schedule_period(n: nat, reads_per_bin: nat)
    requires
        reads_per_bin > 0,
    ensures
        (n % reads_per_bin) + 1 == reads_per_bin <==> (n + 1) % reads_per_bin == 0,
        (n % reads_per_bin) + 1 == reads_per_bin ==> (n + 1) / reads_per_bin == n / reads_per_bin
            + 1,
        (n % reads_per_bin) + 1 != reads_per_bin ==> (n + 1) % reads_per_bin == (n % reads_per_bin)
            + 1 && (n + 1) / reads_per_bin == n / reads_per_bin,
{
    let q = n / reads_per_bin;
    let r = n % reads_per_bin;
    vstd::arithmetic::div_mod::lemma_fundamental_div_mod(n as int, reads_per_bin as int);
    if r + 1 == reads_per_bin {
        assert((q as int + 1) * (reads_per_bin as int) == (q as int) * (reads_per_bin as int)
            + reads_per_bin) by (nonlinear_arith);
        vstd::arithmetic::div_mod::lemma_fundamental_div_mod_converse(
            n as int + 1,
            reads_per_bin as int,
            q as int + 1,
            0,
        );
    } else {
        vstd::arithmetic::div_mod::lemma_fundamental_div_mod_converse(
            n as int + 1,
            reads_per_bin as int,
            q as int,
            r as int + 1,
        );
    }
}

} // verus!
