//! Model of the configuration persistence task: the contents of the flash
//! region that holds the serialized key map, and the latched single-slot
//! flush notification. Any number of flush requests raised before the task
//! wakes collapse into exactly one erase-and-write of the key map value that
//! is current at wake time — last writer wins, no per-request ordering or
//! counting is preserved.

use vstd::prelude::*;
use crate::config::CONFIG_LEN;
use crate::config::Config;

verus! {

/// Mathematical view of the persistence state: the bytes of the flash config
/// region and whether a flush request is latched.
#[verifier::ext_equal]
pub ghost struct PersistView {
    pub flash: Seq<u8>,
    pub pending: bool,
}

/// The effect of raising the flush notification: the request is latched,
/// nothing else moves.
pub open spec fn spec_request(v: PersistView) -> PersistView {
    PersistView { flash: v.flash, pending: true }
}

/// `n` flush requests raised in a row.
pub open spec fn request_n(v: PersistView, n: nat) -> PersistView
    decreases n,
{
    if n == 0 {
        v
    } else {
        spec_request(request_n(v, (n - 1) as nat))
    }
}

/// Coalescing: any positive number of flush requests raised before the task
/// wakes leaves exactly the state of a single request, so the next wake
/// performs exactly one erase-and-write cycle.
pub proof fn lemma_requests_coalesce(v: PersistView, n: nat)
    requires
        n >= 1,
    ensures
        request_n(v, n) == spec_request(v),
    decreases n,
{
    if n == 1 {
        assert(request_n(v, 0) == v);
    } else {
        lemma_requests_coalesce(v, (n - 1) as nat);
    }
}

/// Erase-and-write attempts the task makes for one flush before giving up.
pub const MAX_FLUSH_ATTEMPTS: u8 = 3;

/// What the persistence task does after one erase-and-write attempt.
#[derive(Clone, Copy, Debug, PartialEq, Eq, Structural)]
pub enum FlushOutcome {
    /// The attempt succeeded; the flush cycle is over.
    Done,
    /// The attempt failed with budget left; try again after a backoff delay.
    Retry,
    /// The attempt failed and the budget is spent: keep serving the
    /// in-memory mapping and surface the failure instead of halting.
    Degraded,
}

/// The failure policy of one flush cycle: a failed erase or write is retried
/// with backoff until `MAX_FLUSH_ATTEMPTS` attempts have been made, and then
/// the task enters degraded mode rather than aborting the device.
pub fn flush_outcome(success: bool, attempts_made: u8) -> (o: FlushOutcome)
    ensures
        success ==> o == FlushOutcome::Done,
        !success && attempts_made < MAX_FLUSH_ATTEMPTS ==> o == FlushOutcome::Retry,
        !success && attempts_made >= MAX_FLUSH_ATTEMPTS ==> o == FlushOutcome::Degraded,
{
    if success {
        FlushOutcome::Done
    } else if attempts_made < MAX_FLUSH_ATTEMPTS {
        FlushOutcome::Retry
    } else {
        FlushOutcome::Degraded
    }
}

/// The persistence task's state: the modelled flash config region and the
/// latched flush notification.
pub struct Persistence {
    pub flash: Vec<u8>,
    pub pending: bool,
}

impl View for Persistence {
    type V = PersistView;

    open spec fn view(&self) -> PersistView {
        PersistView { flash: self.flash@, pending: self.pending }
    }
}

impl Persistence {
    /// A persistence task over the flash region as read at boot; no flush
    /// has been requested yet.
    pub fn new(flash: Vec<u8>) -> (p: Self)
        ensures
            p@.flash == flash@,
            !p@.pending,
    {
        Persistence { flash, pending: false }
    }

    /// The startup load: the persisted bytes are handed to the key map's
    /// partial update, so a blank (all-`0xFF`) region leaves every field at
    /// its compiled-in default, and a wrongly sized region changes nothing.
    pub fn load(&self, config: &mut Config)
        ensures
            self@.flash.len() == CONFIG_LEN ==> final(config)@ == old(config)@.apply(self@.flash),
            self@.flash.len() != CONFIG_LEN ==> final(config)@ == old(config)@,
    {
        let _ = config.update(self.flash.as_slice());
    }

    /// Latches a flush request. Raising it again before the task wakes
    /// changes nothing more.
    pub fn request_flush(&mut self)
        ensures
            final(self)@ == spec_request(old(self)@),
    {
        self.pending = true;
    }

    /// One wake of the background task: if a flush request is latched, the
    /// key map current at wake time is serialized, the region is erased and
    /// the serialization written, and the request is cleared; otherwise
    /// nothing happens. Returns whether an erase-and-write cycle ran.
    pub fn wake(&mut self, config: &Config) -> (flushed: bool)
        ensures
            flushed == old(self)@.pending,
            !final(self)@.pending,
            flushed ==> final(self)@.flash == config@.serialize(),
            !flushed ==> final(self)@.flash == old(self)@.flash,
    {
        if self.pending {
            self.pending = false;
            self.flash = config.to_bytes();
            true
        } else {
            false
        }
    }
}

} // verus!
