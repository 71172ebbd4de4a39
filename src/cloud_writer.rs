use vstd::prelude::*;
use vstd::arithmetic::div_mod::lemma_fundamental_div_mod_converse;
use crate::error::ExplorerError;

verus! {

/// The smallest size the store accepts for every part but the last.
pub const DEFAULT_PART_SIZE: usize = 5 * 1024 * 1024;

/// Where a writer stands in its multipart upload.
#[derive(Clone, Copy, Debug, PartialEq, Eq, Structural)]
pub enum Phase {
    /// Nothing written yet; no upload started.
    Fresh,
    /// Waiting for the store to hand out an upload id.
    Creating,
    /// Upload started; fewer buffered bytes than one part.
    Open,
    /// Waiting for the store to take one part.
    Storing,
    /// Waiting for the store to assemble the parts.
    Completing,
    /// The object is stored, or nothing was ever written.
    Completed,
    /// A store call failed and the upload was given up.
    Aborted,
    /// Starting the upload failed; there was nothing to abort.
    Failed,
}

/// What the writer asks its driver to do with the object store next.
#[derive(Clone, Debug)]
pub enum Action {
    /// Nothing: go on writing.
    Proceed,
    /// Start a multipart upload and report its id.
    Create,
    /// Upload `data` as part number `part_number` and report its tag.
    UploadPart { upload_id: String, part_number: usize, data: Vec<u8> },
    /// Assemble the parts, given in ascending part-number order.
    Complete { upload_id: String, parts: Vec<(usize, String)> },
    /// Abort the upload (ignoring any failure of that call), then report `error`.
    Abort { upload_id: String, error: ExplorerError },
    /// Report `error`; no upload was started.
    Fail { error: ExplorerError },
}

/// The mathematical state of a writer.
///
/// `written` is every byte handed to the writer, `issued` the data of every
/// part handed out for upload (the one in flight included), and `tags` the
/// tags of the parts that the store has taken, in part-number order.
pub struct WriterModel {
    pub phase: Phase,
    pub part_size: nat,
    pub finishing: bool,
    pub upload_id: Seq<char>,
    pub tags: Seq<Seq<char>>,
    pub buffer: Seq<u8>,
    pub written: Seq<u8>,
    pub issued: Seq<Seq<u8>>,
}

/// Part `i` (counting from 0) of a full-size split of `w`.
pub open spec fn chunk(w: Seq<u8>, i: int, p: nat) -> Seq<u8> {
    w.subrange(i * p, i * p + p)
}

/// The first `n` issued parts are the first `n` full-size chunks of what
/// was written.
pub open spec fn full_parts(m: WriterModel, n: int) -> bool {
    &&& 0 <= n <= m.issued.len()
    &&& n * m.part_size <= m.written.len()
    &&& forall|i: int| 0 <= i < n ==> #[trigger] m.issued[i] == chunk(m.written, i, m.part_size)
}

/// Every issued part is a full chunk, and the buffer holds the rest.
pub open spec fn streaming(m: WriterModel) -> bool {
    let k = m.issued.len() as int;
    &&& !m.finishing
    &&& full_parts(m, k)
    &&& m.buffer == m.written.subrange(k * m.part_size, m.written.len() as int)
}

/// All parts but the last are full chunks; the last holds the remainder,
/// which is shorter than a part.
pub open spec fn finished(m: WriterModel) -> bool {
    let k = m.issued.len() as int;
    &&& m.finishing
    &&& k >= 1
    &&& full_parts(m, k - 1)
    &&& m.issued[k - 1] == m.written.subrange((k - 1) * m.part_size, m.written.len() as int)
    &&& m.issued[k - 1].len() < m.part_size
    &&& m.buffer.len() == 0
}

/// The state of a writer that has not failed is consistent with its history.
pub open spec fn inv(m: WriterModel) -> bool {
    &&& m.part_size > 0
    &&& match m.phase {
        Phase::Fresh => !m.finishing && m.written.len() == 0 && m.buffer.len() == 0 && m.issued.len() == 0
            && m.tags.len() == 0,
        Phase::Creating => !m.finishing && m.buffer == m.written && m.issued.len() == 0 && m.tags.len() == 0,
        Phase::Open => streaming(m) && m.tags.len() == m.issued.len() && m.buffer.len() < m.part_size,
        Phase::Storing => m.tags.len() + 1 == m.issued.len() && (streaming(m) || finished(m)),
        Phase::Completing => m.tags.len() == m.issued.len() && finished(m),
        Phase::Completed => m.tags.len() == m.issued.len() && (finished(m) || (!m.finishing
            && m.written.len() == 0 && m.issued.len() == 0)),
        Phase::Aborted | Phase::Failed => true,
    }
}

/// The state after the writer checks its buffer: a full part is handed out
/// when one is buffered.
pub open spec fn filled(m: WriterModel) -> WriterModel {
    if m.buffer.len() >= m.part_size {
        WriterModel {
            phase: Phase::Storing,
            buffer: m.buffer.subrange(m.part_size as int, m.buffer.len() as int),
            issued: m.issued.push(m.buffer.subrange(0, m.part_size as int)),
            ..m
        }
    } else {
        WriterModel { phase: Phase::Open, ..m }
    }
}

/// `a` uploads the newest issued part of `m` as part `number` of its upload.
pub open spec fn uploads_last_part(m: WriterModel, a: Action) -> bool {
    a matches Action::UploadPart { upload_id, part_number, data } && upload_id@ == m.upload_id
        && part_number == m.issued.len() && data@ == m.issued.last()
}

/// The action that goes with `filled(m)`.
pub open spec fn fill_action(m: WriterModel, a: Action) -> bool {
    if m.buffer.len() >= m.part_size {
        uploads_last_part(filled(m), a)
    } else {
        a matches Action::Proceed
    }
}

/// Adapts a synchronous byte stream to a multipart object-store upload.
///
/// The writer only decides; a driver performs each `Action` it returns and
/// reports the outcome back through the matching method.
pub struct CloudWriter {
    part_size: usize,
    phase: Phase,
    finishing: bool,
    upload_id: String,
    tags: Vec<String>,
    buffer: Vec<u8>,
    written: Ghost<Seq<u8>>,
    issued: Ghost<Seq<Seq<u8>>>,
}

impl View for CloudWriter {
    type V = WriterModel;

    closed spec fn view(&self) -> WriterModel {
        WriterModel {
            phase: self.phase,
            part_size: self.part_size as nat,
            finishing: self.finishing,
            upload_id: self.upload_id@,
            tags: self.tags@.map_values(|t: String| t@),
            buffer: self.buffer@,
            written: self.written@,
            issued: self.issued@,
        }
    }
}

proof fn lemma_chunk_step(w: Seq<u8>, k: int, p: nat)
    requires
        0 <= k,
    ensures
        (k + 1) * p == k * p + p,
        k * p >= 0,
{
    assert((k + 1) * p == k * p + p) by (nonlinear_arith);
    assert(k * p >= 0) by (nonlinear_arith)
        requires
            0 <= k,
    ;
}

proof fn lemma_filled_inv(m: WriterModel)
    requires
        m.part_size > 0,
        streaming(m),
        m.tags.len() == m.issued.len(),
    ensures
        inv(filled(m)),
{
    let k = m.issued.len() as int;
    let p = m.part_size;
    lemma_chunk_step(m.written, k, p);
    if m.buffer.len() >= p {
        let f = filled(m);
        assert(f.issued[k] =~= chunk(m.written, k, p));
        assert(f.buffer =~= m.written.subrange((k + 1) * p, m.written.len() as int));
        assert forall|i: int| 0 <= i < k + 1 implies #[trigger] f.issued[i] == chunk(f.written, i, p) by {
            if i < k {
                assert(f.issued[i] == m.issued[i]);
            }
        }
    }
}

proof fn lemma_append_streaming(m: WriterModel, data: Seq<u8>)
    requires
        m.part_size > 0,
        streaming(m),
    ensures
        streaming(WriterModel { buffer: m.buffer + data, written: m.written + data, ..m }),
{
    let n = WriterModel { buffer: m.buffer + data, written: m.written + data, ..m };
    let k = m.issued.len() as int;
    let p = m.part_size;
    lemma_chunk_step(m.written, k, p);
    assert(n.buffer =~= n.written.subrange(k * p, n.written.len() as int));
    assert forall|i: int| 0 <= i < k implies #[trigger] n.issued[i] == chunk(n.written, i, p) by {
        assert((i + 1) * p <= k * p) by (nonlinear_arith)
            requires
                i + 1 <= k,
        ;
        lemma_chunk_step(m.written, i, p);
        assert(chunk(n.written, i, p) =~= chunk(m.written, i, p));
    }
}

fn append_bytes(buf: &mut Vec<u8>, data: &[u8])
    ensures
        final(buf)@ == old(buf)@ + data@,
{
    let mut i: usize = 0;
    while i < data.len()
        invariant
            i <= data@.len(),
            buf@ == old(buf)@ + data@.subrange(0, i as int),
        decreases data@.len() - i,
    {
        buf.push(data[i]);
        assert(data@.subrange(0, i + 1) =~= data@.subrange(0, i as int).push(data@[i as int]));
        i = i + 1;
    }
    assert(data@.subrange(0, i as int) =~= data@);
}

impl CloudWriter {
    pub open spec fn wf(&self) -> bool {
        inv(self@)
    }

    /// A writer that uploads in parts of `part_size` bytes (the last part
    /// may be shorter). No upload is started until the first write.
    pub fn new(part_size: usize) -> (r: CloudWriter)
        requires
            part_size > 0,
        ensures
            r.wf(),
            r@ == (WriterModel {
                phase: Phase::Fresh,
                part_size: part_size as nat,
                finishing: false,
                upload_id: Seq::empty(),
                tags: Seq::empty(),
                buffer: Seq::empty(),
                written: Seq::empty(),
                issued: Seq::empty(),
            }),
    {
        let r = CloudWriter {
            part_size,
            phase: Phase::Fresh,
            finishing: false,
            upload_id: String::new(),
            tags: Vec::new(),
            buffer: Vec::new(),
            written: Ghost(Seq::empty()),
            issued: Ghost(Seq::empty()),
        };
        assert(r@.tags =~= Seq::<Seq<char>>::empty());
        r
    }

    /// Where the writer stands.
    pub fn phase(&self) -> (r: Phase)
        ensures
            r == self@.phase,
    {
        self.phase
    }

    /// Number of parts the store has taken so far.
    pub fn parts_stored(&self) -> (r: usize)
        ensures
            r == self@.tags.len(),
    {
        self.tags.len()
    }

    /// Hands out a full part if one is buffered.
    fn fill(&mut self) -> (r: Action)
        requires
            old(self)@.part_size > 0,
            streaming(old(self)@),
            old(self)@.tags.len() == old(self)@.issued.len(),
            old(self)@.issued.len() + 1 < usize::MAX,
        ensures
            final(self)@ == filled(old(self)@),
            fill_action(old(self)@, r),
    {
        let ghost m = self@;
        if self.buffer.len() >= self.part_size {
            let ghost k = m.issued.len() as int;
            let ghost p = m.part_size;
            let mut part = self.buffer.split_off(self.part_size);
            core::mem::swap(&mut part, &mut self.buffer);
            self.phase = Phase::Storing;
            self.issued = Ghost(self.issued@.push(part@));
            let number = self.tags.len() + 1;
            proof {
                lemma_chunk_step(m.written, k, p);
                assert(self@.buffer =~= filled(m).buffer);
                assert(self@.issued =~= filled(m).issued);
                assert(self@ == filled(m));
            }
            Action::UploadPart { upload_id: self.upload_id.clone(), part_number: number, data: part }
        } else {
            self.phase = Phase::Open;
            Action::Proceed
        }
    }

    /// Appends `data`. The first write asks for the upload to be started;
    /// later ones hand out a part whenever a full one is buffered.
    pub fn write(&mut self, data: &[u8]) -> (r: Action)
        requires
            old(self).wf(),
            old(self)@.phase == Phase::Fresh || old(self)@.phase == Phase::Open,
            old(self)@.tags.len() + 1 < usize::MAX,
        ensures
            final(self).wf(),
            ({
                let m = WriterModel {
                    buffer: old(self)@.buffer + data@,
                    written: old(self)@.written + data@,
                    ..old(self)@
                };
                if old(self)@.phase == Phase::Fresh {
                    &&& final(self)@ == WriterModel { phase: Phase::Creating, ..m }
                    &&& r matches Action::Create
                } else {
                    &&& final(self)@ == filled(m)
                    &&& fill_action(m, r)
                }
            }),
    {
        let ghost m0 = self@;
        append_bytes(&mut self.buffer, data);
        self.written = Ghost(self.written@ + data@);
        if self.phase == Phase::Fresh {
            self.phase = Phase::Creating;
            assert(self@.buffer =~= self@.written);
            Action::Create
        } else {
            proof {
                lemma_append_streaming(m0, data@);
                assert(self@ == (WriterModel { buffer: m0.buffer + data@, written: m0.written + data@, ..m0 }));
            }
            let r = self.fill();
            proof { lemma_filled_inv(WriterModel { buffer: m0.buffer + data@, written: m0.written + data@, ..m0 }); }
            r
        }
    }

    /// Reports the id of the upload that `Action::Create` asked for.
    pub fn upload_created(&mut self, upload_id: String) -> (r: Action)
        requires
            old(self).wf(),
            old(self)@.phase == Phase::Creating,
        ensures
            final(self).wf(),
            ({
                let m = WriterModel { upload_id: upload_id@, ..old(self)@ };
                &&& final(self)@ == filled(m)
                &&& fill_action(m, r)
            }),
    {
        let ghost m0 = self@;
        self.upload_id = upload_id;
        let ghost m = self@;
        proof {
            assert(m.buffer =~= m.written.subrange(0, m.written.len() as int));
            assert(0 * m.part_size == 0);
        }
        let r = self.fill();
        proof { lemma_filled_inv(m); }
        r
    }

    /// Flushes what is buffered as the last part, which may be shorter than
    /// a part or empty. A writer that was never written to has nothing to
    /// upload and is done at once.
    pub fn finish(&mut self) -> (r: Action)
        requires
            old(self).wf(),
            old(self)@.phase == Phase::Fresh || old(self)@.phase == Phase::Open,
            old(self)@.tags.len() + 1 < usize::MAX,
        ensures
            final(self).wf(),
            old(self)@.phase == Phase::Fresh ==> final(self)@ == (WriterModel {
                phase: Phase::Completed,
                ..old(self)@
            }) && r matches Action::Proceed,
            old(self)@.phase == Phase::Open ==> final(self)@ == (WriterModel {
                phase: Phase::Storing,
                finishing: true,
                buffer: Seq::empty(),
                issued: old(self)@.issued.push(old(self)@.buffer),
                ..old(self)@
            }) && uploads_last_part(final(self)@, r),
    {
        if self.phase == Phase::Fresh {
            self.phase = Phase::Completed;
            return Action::Proceed;
        }
        let ghost m = self@;
        let mut part: Vec<u8> = Vec::new();
        core::mem::swap(&mut part, &mut self.buffer);
        self.phase = Phase::Storing;
        self.finishing = true;
        self.issued = Ghost(self.issued@.push(part@));
        let number = self.tags.len() + 1;
        proof {
            let n = self@;
            let k = n.issued.len() as int;
            assert(n.buffer =~= Seq::<u8>::empty());
            assert(n.issued[k - 1] == m.buffer);
            assert forall|i: int| 0 <= i < k - 1 implies #[trigger] n.issued[i] == chunk(n.written, i, n.part_size) by {
                assert(n.issued[i] == m.issued[i]);
            }
        }
        Action::UploadPart { upload_id: self.upload_id.clone(), part_number: number, data: part }
    }

    /// Reports the tag under which the store took the part in flight. After
    /// the last part the writer asks for the upload to be completed, with
    /// every part in ascending order; otherwise it hands out the next full
    /// part, if one is buffered.
    pub fn part_stored(&mut self, tag: String) -> (r: Action)
        requires
            old(self).wf(),
            old(self)@.phase == Phase::Storing,
            old(self)@.tags.len() + 2 < usize::MAX,
        ensures
            final(self).wf(),
            ({
                let m = WriterModel { tags: old(self)@.tags.push(tag@), ..old(self)@ };
                if old(self)@.finishing {
                    &&& final(self)@ == WriterModel { phase: Phase::Completing, ..m }
                    &&& r matches Action::Complete { upload_id, parts }
                    &&& upload_id@ == m.upload_id
                    &&& parts@.len() == m.tags.len()
                    &&& forall|i: int| 0 <= i < parts@.len() ==> (#[trigger] parts@[i]).0 == i + 1
                        && parts@[i].1@ == m.tags[i]
                } else {
                    &&& final(self)@ == filled(m)
                    &&& fill_action(m, r)
                }
            }),
    {
        let ghost m0 = self@;
        self.tags.push(tag);
        let ghost m = self@;
        proof {
            assert(m.tags =~= m0.tags.push(tag@));
        }
        if self.finishing {
            self.phase = Phase::Completing;
            let mut parts: Vec<(usize, String)> = Vec::new();
            let mut i: usize = 0;
            while i < self.tags.len()
                invariant
                    self@ == (WriterModel { phase: Phase::Completing, ..m }),
                    i <= self.tags@.len(),
                    self.tags@.len() == m.tags.len(),
                    m.tags.len() + 1 < usize::MAX,
                    parts@.len() == i,
                    forall|j: int| 0 <= j < i ==> (#[trigger] parts@[j]).0 == j + 1 && parts@[j].1@ == m.tags[j],
                decreases self.tags@.len() - i,
            {
                parts.push((i + 1, self.tags[i].clone()));
                i = i + 1;
            }
            Action::Complete { upload_id: self.upload_id.clone(), parts }
        } else {
            let r = self.fill();
            proof { lemma_filled_inv(m); }
            r
        }
    }

    /// Reports that the store assembled the object.
    pub fn upload_completed(&mut self)
        requires
            old(self).wf(),
            old(self)@.phase == Phase::Completing,
        ensures
            final(self).wf(),
            final(self)@ == (WriterModel { phase: Phase::Completed, ..old(self)@ }),
    {
        self.phase = Phase::Completed;
    }

    /// Reports that a store call failed. A started upload is aborted; the
    /// error handed in is the one the caller gets, whatever the abort does.
    /// The writer accepts nothing after this.
    pub fn store_failed(&mut self, error: ExplorerError) -> (r: Action)
        requires
            old(self).wf(),
            old(self)@.phase == Phase::Creating || old(self)@.phase == Phase::Storing
                || old(self)@.phase == Phase::Completing,
        ensures
            final(self).wf(),
            old(self)@.phase == Phase::Creating ==> final(self)@ == (WriterModel {
                phase: Phase::Failed,
                ..old(self)@
            }) && r == (Action::Fail { error }),
            old(self)@.phase != Phase::Creating ==> final(self)@ == (WriterModel {
                phase: Phase::Aborted,
                ..old(self)@
            }) && (r matches Action::Abort { upload_id, error: e } && upload_id@ == old(self)@.upload_id
                && e == error),
    {
        if self.phase == Phase::Creating {
            self.phase = Phase::Failed;
            Action::Fail { error }
        } else {
            self.phase = Phase::Aborted;
            Action::Abort { upload_id: self.upload_id.clone(), error }
        }
    }
}

/// The parts joined end to end.
pub open spec fn flatten(parts: Seq<Seq<u8>>) -> Seq<u8>
    decreases parts.len(),
{
    if parts.len() == 0 {
        Seq::empty()
    } else {
        flatten(parts.drop_last()) + parts.last()
    }
}

proof fn lemma_flatten_full(m: WriterModel, n: int)
    requires
        m.part_size > 0,
        full_parts(m, n),
    ensures
        flatten(m.issued.subrange(0, n)) == m.written.subrange(0, n * m.part_size),
    decreases n,
{
    let p = m.part_size;
    if n == 0 {
        assert(m.written.subrange(0, 0) =~= Seq::<u8>::empty());
    } else {
        lemma_chunk_step(m.written, n - 1, p);
        let s = m.issued.subrange(0, n);
        assert(s.drop_last() =~= m.issued.subrange(0, n - 1));
        lemma_flatten_full(m, n - 1);
        assert(s.last() == m.issued[n - 1]);
        assert(m.written.subrange(0, (n - 1) * p) + chunk(m.written, n - 1, p) =~= m.written.subrange(0, n * p));
    }
}

/// Once the object is assembled, the parts are the written bytes cut into
/// full parts, in order, followed by one last part that holds the remainder
/// (possibly nothing); joined, they give back every byte written. There are
/// `N / P + 1` of them for `N` bytes written with part size `P`, which is
/// `ceil(N / P)` whenever `P` does not divide `N`.
pub proof fn lemma_parts_of_completed_upload(m: WriterModel)
    requires
        inv(m),
        m.phase == Phase::Completing || m.phase == Phase::Completed,
        m.finishing,
    ensures
        m.issued.len() == m.written.len() / m.part_size + 1,
        m.tags.len() == m.issued.len(),
        forall|i: int| 0 <= i < m.issued.len() - 1 ==> #[trigger] m.issued[i] == chunk(m.written, i, m.part_size),
        m.issued.last() == m.written.subrange((m.issued.len() - 1) * m.part_size, m.written.len() as int),
        flatten(m.issued) == m.written,
        m.written.len() % m.part_size != 0 ==> m.issued.len() == (m.written.len() + m.part_size - 1) as int / m.part_size as int,
{
    let k = m.issued.len() as int;
    let p = m.part_size as int;
    let n = m.written.len() as int;
    let r = m.issued[k - 1].len() as int;
    assert(r == n - (k - 1) * p);
    lemma_fundamental_div_mod_converse(n, p, k - 1, r);
    lemma_flatten_full(m, k - 1);
    assert(m.issued.drop_last() =~= m.issued.subrange(0, k - 1));
    assert(m.written.subrange(0, (k - 1) * p) + m.issued[k - 1] =~= m.written);
    if n % p != 0 {
        assert(n + p - 1 == k * p + (r - 1)) by (nonlinear_arith)
            requires
                r == n - (k - 1) * p,
        ;
        lemma_fundamental_div_mod_converse(n + p - 1, p, k, r - 1);
    }
}

} // verus!
