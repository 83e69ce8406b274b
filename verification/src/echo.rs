use vstd::prelude::*;

verus! {

/// The byte (`'r'`) that asks the firmware to reset into the bootloader.
pub const RESET_COMMAND: u8 = 0x72;

/// Size of a full-speed USB packet, and of the receive buffer.
pub const USB_PACKET_SIZE: usize = 64;

/// Whether `data` holds the reset command byte.
pub fn contains_reset_command(data: &[u8]) -> (found: bool)
    ensures
        found == data@.contains(RESET_COMMAND),
{
    let mut i: usize = 0;
    while i < data.len()
        invariant
            i <= data@.len(),
            forall|j: int| 0 <= j < i ==> data@[j] != RESET_COMMAND,
        decreases data@.len() - i,
    {
        if data[i] == RESET_COMMAND {
            assert(data@[i as int] == RESET_COMMAND);
            return true;
        }
        i = i + 1;
    }
    false
}

/// The result of handing the pending bytes to the serial port.
#[derive(Clone, Copy, Debug, PartialEq, Eq, Structural)]
pub enum WriteOutcome {
    /// The port took the first `n` of the bytes it was handed.
    Accepted(usize),
    /// The port reported an error.
    Failed,
}

/// How far echoing `count` received bytes back to the host has come.
///
/// The bytes from `written` to `count` are still to be sent; once a write
/// takes no byte or fails, the echo stops and the rest is dropped.
#[derive(Clone, Copy, Debug, PartialEq, Eq, Structural)]
pub struct EchoProgress {
    pub written: usize,
    pub count: usize,
    pub stopped: bool,
}

impl EchoProgress {
    /// Never more bytes written than were received.
    pub open spec fn wf(self) -> bool {
        self.written <= self.count
    }

    /// Whether another write is due.
    pub open spec fn spec_is_active(self) -> bool {
        !self.stopped && self.written < self.count
    }

    /// The state after one write with the given outcome.
    pub open spec fn spec_record(self, outcome: WriteOutcome) -> EchoProgress {
        match outcome {
            WriteOutcome::Accepted(n) => if n > 0 {
                EchoProgress { written: (self.written + n) as usize, ..self }
            } else {
                EchoProgress { stopped: true, ..self }
            },
            WriteOutcome::Failed => EchoProgress { stopped: true, ..self },
        }
    }

    /// Starts echoing `count` received bytes.
    pub fn new(count: usize) -> (progress: EchoProgress)
        ensures
            progress == (EchoProgress { written: 0, count, stopped: false }),
            progress.wf(),
    {
        EchoProgress { written: 0, count, stopped: false }
    }

    /// The range `[start, end)` of the received bytes to hand to the next
    /// write, or `None` once the echo is over.
    pub fn pending(&self) -> (range: Option<(usize, usize)>)
        ensures
            range == (if self.spec_is_active() {
                Some((self.written, self.count))
            } else {
                None
            }),
            !self.stopped && self.written < self.count ==> range == Some((self.written, self.count)),
            self.stopped || self.written >= self.count ==> range is None,
    {
        if !self.stopped && self.written < self.count {
            Some((self.written, self.count))
        } else {
            None
        }
    }

    /// Records the outcome of the write of the pending bytes. A write that
    /// takes some bytes moves past them; one that takes none, or fails, stops the echo.
    pub fn record(self, outcome: WriteOutcome) -> (next: EchoProgress)
        requires
            self.wf(),
            self.spec_is_active(),
            outcome matches WriteOutcome::Accepted(n) ==> n <= self.count - self.written,
        ensures
            next == self.spec_record(outcome),
            outcome == WriteOutcome::Failed ==> next == (EchoProgress { stopped: true, ..self }),
            outcome == WriteOutcome::Accepted(0) ==> next == (EchoProgress { stopped: true, ..self }),
            outcome matches WriteOutcome::Accepted(n) ==> (n > 0 ==> next == (EchoProgress {
                written: (self.written + n) as usize,
                ..self
            })),
            next.wf(),
            next.count == self.count,
            next.written >= self.written,
    {
        match outcome {
            WriteOutcome::Accepted(n) => {
                if n > 0 {
                    EchoProgress { written: self.written + n, ..self }
                } else {
                    EchoProgress { stopped: true, ..self }
                }
            },
            WriteOutcome::Failed => EchoProgress { stopped: true, ..self },
        }
    }
}

/// An echo has bytes to hand over exactly while it has not stopped and has
/// written fewer bytes than it received; a fresh echo of `count > 0` bytes hands
/// all of them, `[0, count)`, to its first write.
pub proof fn lemma_pending_while_bytes_remain(p: EchoProgress, count: usize)
    ensures
        p.spec_is_active() <==> (!p.stopped && p.written < p.count),
        count > 0 ==> (EchoProgress { written: 0, count, stopped: false }).spec_is_active(),
        count == 0 ==> !(EchoProgress { written: 0, count, stopped: false }).spec_is_active(),
{
}

/// A write that fails, or takes no byte, ends the echo whatever was written
/// before: the progress keeps its counts, is stopped and has nothing pending. A
/// write that takes `n > 0` bytes moves exactly `n` bytes on and keeps the echo
/// going.
pub proof fn lemma_record_outcomes(p: EchoProgress, n: usize)
    requires
        p.wf(),
        !p.stopped && p.written < p.count,
        n <= p.count - p.written,
    ensures
        p.spec_record(WriteOutcome::Failed) == (EchoProgress { written: p.written, count: p.count, stopped: true }),
        p.spec_record(WriteOutcome::Accepted(0)) == (EchoProgress {
            written: p.written,
            count: p.count,
            stopped: true,
        }),
        !p.spec_record(WriteOutcome::Failed).spec_is_active(),
        !p.spec_record(WriteOutcome::Accepted(0)).spec_is_active(),
        n > 0 ==> p.spec_record(WriteOutcome::Accepted(n)) == (EchoProgress {
            written: (p.written + n) as usize,
            count: p.count,
            stopped: false,
        }),
        n > 0 && p.written + n < p.count ==> p.spec_record(WriteOutcome::Accepted(n)).spec_is_active(),
{
}

/// The sum of the byte counts taken by successive writes.
pub open spec fn total_accepted(lens: Seq<nat>) -> nat
    decreases lens.len(),
{
    if lens.len() == 0 {
        0
    } else {
        total_accepted(lens.drop_last()) + lens.last()
    }
}

/// The bytes that successive writes took, when each write is handed the
/// received bytes from where the previous ones stopped and takes `lens[i]` of them.
pub open spec fn accepted_bytes(data: Seq<u8>, lens: Seq<nat>) -> Seq<u8>
    decreases lens.len(),
{
    if lens.len() == 0 {
        Seq::empty()
    } else {
        accepted_bytes(data, lens.drop_last()) + data.subrange(
            total_accepted(lens.drop_last()) as int,
            total_accepted(lens) as int,
        )
    }
}

/// The progress after a sequence of writes that each took `lens[i] > 0` bytes.
pub open spec fn progress_after(start: EchoProgress, lens: Seq<nat>) -> EchoProgress
    decreases lens.len(),
{
    if lens.len() == 0 {
        start
    } else {
        progress_after(start, lens.drop_last()).spec_record(
            WriteOutcome::Accepted(lens.last() as usize),
        )
    }
}

/// Everything that comes in is written back, in order, with nothing repeated or
/// skipped: after writes that took `lens` bytes, the bytes sent are exactly the
/// first `written` received bytes, `written` is their sum, and the echo is over
/// only once all `count` bytes are back.
pub proof fn lemma_echo_writes_back_in_order(data: Seq<u8>, lens: Seq<nat>)
    requires
        data.len() <= usize::MAX,
        forall|i: int| 0 <= i < lens.len() ==> lens[i] > 0,
        total_accepted(lens) <= data.len(),
    ensures
        accepted_bytes(data, lens) == data.take(total_accepted(lens) as int),
        progress_after(EchoProgress { written: 0, count: data.len() as usize, stopped: false }, lens)
            == (EchoProgress {
            written: total_accepted(lens) as usize,
            count: data.len() as usize,
            stopped: false,
        }),
        lens.len() <= total_accepted(lens),
    decreases lens.len(),
{
    if lens.len() > 0 {
        let init: Seq<nat> = lens.drop_last();
        assert forall|i: int| 0 <= i < init.len() implies init[i] > 0 by {
            assert(init[i] == lens[i]);
        }
        assert(lens.last() == lens[lens.len() - 1]);
        lemma_echo_writes_back_in_order(data, init);
        assert(data.take(total_accepted(init) as int) + data.subrange(
            total_accepted(init) as int,
            total_accepted(lens) as int,
        ) =~= data.take(total_accepted(lens) as int));
    } else {
        assert(data.take(0) =~= Seq::<u8>::empty());
    }
}

} // verus!
