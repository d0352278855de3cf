//! The buffer of finished clips that waits for a full batch.
//!
//! The buffer itself holds no lock: the program shares it behind one mutual
//! exclusion lock and holds that lock only for a `push` or a
//! `drain_if_full`.
use vstd::prelude::*;

verus! {

/// Clips joined and uploaded together.
pub const BATCH_SIZE: usize = 4;

/// One finished recording.
#[derive(Clone, Debug)]
pub struct ClipRecord {
    /// Where the clip lies.
    pub path: String,
    /// When the clip was created, in seconds since the Unix epoch.
    pub created_secs: i64,
    /// Its size in bytes.
    pub size: u64,
    /// The session that recorded it.
    pub session: String,
}

/// What a drain leaves behind and what it hands out.
pub open spec fn drained(pending: Seq<ClipRecord>) -> (Seq<ClipRecord>, Option<Seq<ClipRecord>>) {
    if pending.len() >= BATCH_SIZE {
        (
            pending.subrange(BATCH_SIZE as int, pending.len() as int),
            Some(pending.subrange(0, BATCH_SIZE as int)),
        )
    } else {
        (pending, None)
    }
}

/// Clips that finished recording and wait for a batch, oldest first.
#[derive(Debug)]
pub struct ClipBuffer {
    clips: Vec<ClipRecord>,
}

impl View for ClipBuffer {
    type V = Seq<ClipRecord>;

    closed spec fn view(&self) -> Seq<ClipRecord> {
        self.clips@
    }
}

impl ClipBuffer {
    /// An empty buffer.
    pub fn new() -> (r: ClipBuffer)
        ensures
            r@ == Seq::<ClipRecord>::empty(),
    {
        ClipBuffer { clips: Vec::new() }
    }

    /// Appends a finished clip; returns whether a full batch is now waiting.
    pub fn push(&mut self, clip: ClipRecord) -> (r: bool)
        ensures
            final(self)@ == old(self)@.push(clip),
            r == (final(self)@.len() >= BATCH_SIZE),
    {
        self.clips.push(clip);
        self.clips.len() >= BATCH_SIZE
    }

    /// Removes and returns the oldest full batch, where one is waiting.
    pub fn drain_if_full(&mut self) -> (r: Option<Vec<ClipRecord>>)
        ensures
            final(self)@ == drained(old(self)@).0,
            match r {
                Some(b) => drained(old(self)@).1 == Some(b@),
                None => drained(old(self)@).1 is None,
            },
    {
        if self.clips.len() >= BATCH_SIZE {
            let mut batch = self.clips.split_off(BATCH_SIZE);
            std::mem::swap(&mut self.clips, &mut batch);
            Some(batch)
        } else {
            None
        }
    }

    /// Number of waiting clips.
    pub fn len(&self) -> (r: usize)
        ensures
            r == self@.len(),
    {
        self.clips.len()
    }

    /// Whether no clip is waiting.
    pub fn is_empty(&self) -> (r: bool)
        ensures
            r == (self@.len() == 0),
    {
        self.clips.len() == 0
    }
}

/// The waiting clips and the batches handed out when `clips` finish in
/// order, each push followed by one drain attempt.
pub open spec fn run_cycles(clips: Seq<ClipRecord>) -> (Seq<ClipRecord>, Seq<Seq<ClipRecord>>)
    decreases clips.len(),
{
    if clips.len() == 0 {
        (Seq::empty(), Seq::empty())
    } else {
        let (pending, batches) = run_cycles(clips.drop_last());
        let (rest, batch) = drained(pending.push(clips.last()));
        match batch {
            Some(b) => (rest, batches.push(b)),
            None => (rest, batches),
        }
    }
}

/// After any run of cycles, every complete group of `BATCH_SIZE` clips has
/// been handed out as one batch, in the order the clips finished, and the
/// clips after the last complete group are waiting, in order.
pub proof fn law_batches_in_order(clips: Seq<ClipRecord>)
    ensures
        run_cycles(clips).0 == clips.subrange(
            BATCH_SIZE * ((clips.len() as int / BATCH_SIZE as int)),
            clips.len() as int,
        ),
        run_cycles(clips).1 == Seq::new(
            clips.len() / (BATCH_SIZE as nat),
            |i: int| clips.subrange(BATCH_SIZE * i, BATCH_SIZE * i + BATCH_SIZE),
        ),
    decreases clips.len(),
{
    let n = clips.len() as int;
    if n == 0 {
        assert(clips.subrange(0, 0) =~= Seq::<ClipRecord>::empty());
        assert(Seq::new(0, |i: int| clips.subrange(BATCH_SIZE * i, BATCH_SIZE * i + BATCH_SIZE))
            =~= Seq::<Seq<ClipRecord>>::empty());
    } else {
        let prev = clips.drop_last();
        law_batches_in_order(prev);
        let m = n - 1;
        let q = m / 4;
        let r = m % 4;
        assert(m == 4 * q + r && 0 <= r < 4) by (nonlinear_arith)
            requires
                m >= 0,
                q == m / 4,
                r == m % 4,
        ;
        assert forall|i: int| 0 <= i < q implies #[trigger] prev.subrange(4 * i, 4 * i + 4) =~= clips.subrange(
            4 * i,
            4 * i + 4,
        ) by {
            assert(4 * i + 4 <= 4 * q) by (nonlinear_arith)
                requires
                    i < q,
            ;
        }
        assert(run_cycles(prev).1 =~= Seq::new(
            q as nat,
            |i: int| clips.subrange(BATCH_SIZE * i, BATCH_SIZE * i + BATCH_SIZE),
        ));
        let p = run_cycles(prev).0;
        assert(p =~= clips.subrange(4 * q, m));
        assert(p.push(clips.last()) =~= clips.subrange(4 * q, n));
        if r == 3 {
            assert(n / 4 == q + 1 && n == 4 * (q + 1)) by (nonlinear_arith)
                requires
                    n == 4 * q + 4,
            ;
            assert(clips.subrange(4 * q, n).subrange(4, 4) =~= clips.subrange(n, n));
            assert(clips.subrange(4 * q, n).subrange(0, 4) =~= clips.subrange(4 * q, 4 * q + 4));
            assert(run_cycles(prev).1.push(clips.subrange(4 * q, 4 * q + 4)) =~= Seq::new(
                (q + 1) as nat,
                |i: int| clips.subrange(BATCH_SIZE * i, BATCH_SIZE * i + BATCH_SIZE),
            ));
        } else {
            assert(n / 4 == q) by (nonlinear_arith)
                requires
                    n == 4 * q + r + 1,
                    0 <= r < 3,
            ;
        }
    }
}

/// Fewer than `BATCH_SIZE` finished clips all stay waiting and no batch is
/// handed out.
pub proof fn law_short_run_waits(clips: Seq<ClipRecord>)
    requires
        clips.len() < BATCH_SIZE,
    ensures
        run_cycles(clips) == (clips, Seq::<Seq<ClipRecord>>::empty()),
{
    law_batches_in_order(clips);
    assert((clips.len() as int / BATCH_SIZE as int) == 0);
    assert(clips.subrange(0, clips.len() as int) =~= clips);
    assert(run_cycles(clips).1 =~= Seq::<Seq<ClipRecord>>::empty());
}

/// The cycle that brings the `BATCH_SIZE`th clip empties the buffer and hands
/// out exactly those clips, in the order they finished.
pub proof fn law_full_run_drains(clips: Seq<ClipRecord>)
    requires
        clips.len() == BATCH_SIZE,
    ensures
        run_cycles(clips) == (Seq::<ClipRecord>::empty(), seq![clips]),
{
    law_batches_in_order(clips);
    assert((clips.len() as int / BATCH_SIZE as int) == 1);
    assert(clips.subrange(4, 4) =~= Seq::<ClipRecord>::empty());
    assert(clips.subrange(0, 4) =~= clips);
    assert(run_cycles(clips).1 =~= seq![clips]);
}

} // verus!
