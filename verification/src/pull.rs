use vstd::prelude::*;

verus! {

/// One parsed tick of the download stream: the server's phase label and,
/// when the server sent them, the byte counts.
pub struct ProgressTick {
    pub status: String,
    pub completed: Option<u64>,
    pub total: Option<u64>,
}

/// The plain values of one tick.
pub open spec fn tick_row(t: ProgressTick) -> (Seq<char>, Option<u64>, Option<u64>) {
    (t.status@, t.completed, t.total)
}

/// What one stream line holds: a tick when the line is a JSON object with
/// a string field `status`, the byte counts taken from its unsigned
/// integer fields `completed` and `total` where present; nothing when the
/// line is not such an object.
pub uninterp spec fn progress_tick_of(line: Seq<u8>) -> Option<(Seq<char>, Option<u64>, Option<u64>)>;

/// Relies on serde_json (from_slice, Value::get, Value::as_str,
/// Value::as_u64): parses one stream line as JSON and reads the fields of
/// a progress tick. The result depends on the line's bytes alone.
#[verifier::external_body]
fn parse_progress_line(line: &[u8]) -> (r: Option<ProgressTick>)
    ensures
        r matches Some(t) ==> progress_tick_of(line@) == Some(tick_row(t)),
        r is None ==> progress_tick_of(line@) is None,
{
    let v: serde_json::Value = serde_json::from_slice(line).ok()?;
    let status = v.get("status")?.as_str()?.to_owned();
    let completed = v.get("completed").and_then(serde_json::Value::as_u64);
    let total = v.get("total").and_then(serde_json::Value::as_u64);
    Some(ProgressTick { status, completed, total })
}

/// A line with its line-ending carriage return removed: the byte a
/// carriage-return-line-feed ending leaves behind once the stream is cut
/// at the line feeds.
pub open spec fn strip_cr(l: Seq<u8>) -> Seq<u8> {
    if l.len() > 0 && l.last() == 13u8 {
        l.drop_last()
    } else {
        l
    }
}

/// The lines of `b` when `cur` is the part of the current line already
/// read: each line feed ends a line, a carriage return before a line feed
/// is dropped, and a last line without a line ending still counts.
pub open spec fn lines_rec(b: Seq<u8>, cur: Seq<u8>) -> Seq<Seq<u8>>
    decreases b.len(),
{
    if b.len() == 0 {
        if cur.len() == 0 {
            Seq::empty()
        } else {
            seq![cur]
        }
    } else if b[0] == 10u8 {
        seq![strip_cr(cur)] + lines_rec(b.drop_first(), Seq::empty())
    } else {
        lines_rec(b.drop_first(), cur.push(b[0]))
    }
}

/// The lines of one stream chunk.
pub open spec fn lines_of(b: Seq<u8>) -> Seq<Seq<u8>> {
    lines_rec(b, Seq::empty())
}

fn strip_cr_exec(v: Vec<u8>) -> (r: Vec<u8>)
    ensures
        r@ == strip_cr(v@),
{
    let mut v = v;
    if v.len() > 0 && v[v.len() - 1] == 13u8 {
        v.pop();
    }
    v
}

/// Cut one chunk of the stream into its lines.
pub fn split_lines(chunk: &[u8]) -> (r: Vec<Vec<u8>>)
    ensures
        r@.map_values(|l: Vec<u8>| l@) == lines_of(chunk@),
{
    let mut out: Vec<Vec<u8>> = Vec::new();
    let mut cur: Vec<u8> = Vec::new();
    let mut i: usize = 0;
    proof {
        assert(chunk@.skip(0) =~= chunk@);
        assert(out@.map_values(|l: Vec<u8>| l@) =~= Seq::<Seq<u8>>::empty());
        assert(Seq::<Seq<u8>>::empty() + lines_rec(chunk@, Seq::empty())
            =~= lines_rec(chunk@, Seq::empty()));
    }
    while i < chunk.len()
        invariant
            i <= chunk@.len(),
            out@.map_values(|l: Vec<u8>| l@) + lines_rec(chunk@.skip(i as int), cur@) == lines_of(chunk@),
        decreases chunk@.len() - i,
    {
        let b = chunk[i];
        proof {
            assert(chunk@.skip(i as int)[0] == chunk@[i as int]);
            assert(chunk@.skip(i as int).drop_first() =~= chunk@.skip(i as int + 1));
        }
        if b == 10u8 {
            let ghost prev_out = out@;
            let ghost prev_cur = cur@;
            let stripped = strip_cr_exec(cur);
            out.push(stripped);
            cur = Vec::new();
            proof {
                assert(out@.map_values(|l: Vec<u8>| l@)
                    =~= prev_out.map_values(|l: Vec<u8>| l@).push(strip_cr(prev_cur)));
                assert(prev_out.map_values(|l: Vec<u8>| l@).push(strip_cr(prev_cur))
                        + lines_rec(chunk@.skip(i as int + 1), Seq::empty())
                    =~= prev_out.map_values(|l: Vec<u8>| l@)
                        + (seq![strip_cr(prev_cur)] + lines_rec(chunk@.skip(i as int + 1), Seq::empty())));
            }
        } else {
            cur.push(b);
        }
        i = i + 1;
    }
    proof {
        assert(chunk@.skip(chunk@.len() as int) =~= Seq::<u8>::empty());
    }
    if cur.len() > 0 {
        let ghost prev_out = out@;
        let ghost prev_cur = cur@;
        out.push(cur);
        proof {
            assert(out@.map_values(|l: Vec<u8>| l@)
                =~= prev_out.map_values(|l: Vec<u8>| l@).push(prev_cur));
            assert(prev_out.map_values(|l: Vec<u8>| l@).push(prev_cur)
                =~= prev_out.map_values(|l: Vec<u8>| l@) + seq![prev_cur]);
        }
    }
    out
}

/// The ticks of a sequence of lines, in line order; a line that holds no
/// tick contributes nothing and the stream goes on.
pub open spec fn chunk_ticks(ls: Seq<Seq<u8>>) -> Seq<(Seq<char>, Option<u64>, Option<u64>)>
    decreases ls.len(),
{
    if ls.len() == 0 {
        Seq::empty()
    } else {
        match progress_tick_of(ls[0]) {
            Some(t) => seq![t] + chunk_ticks(ls.drop_first()),
            None => chunk_ticks(ls.drop_first()),
        }
    }
}

proof fn lemma_chunk_ticks_push(ls: Seq<Seq<u8>>, x: Seq<u8>)
    ensures
        chunk_ticks(ls.push(x)) == chunk_ticks(ls) + (match progress_tick_of(x) {
            Some(t) => seq![t],
            None => Seq::<(Seq<char>, Option<u64>, Option<u64>)>::empty(),
        }),
    decreases ls.len(),
{
    if ls.len() == 0 {
        assert(ls.push(x).len() == 1);
        assert(ls.push(x)[0] == x);
        assert(ls.push(x).drop_first() =~= Seq::<Seq<u8>>::empty());
        assert(chunk_ticks(Seq::<Seq<u8>>::empty())
            == Seq::<(Seq<char>, Option<u64>, Option<u64>)>::empty());
        assert(chunk_ticks(ls) == Seq::<(Seq<char>, Option<u64>, Option<u64>)>::empty());
        match progress_tick_of(x) {
            Some(t) => {
                assert(chunk_ticks(ls.push(x)) == seq![t] + chunk_ticks(ls.push(x).drop_first()));
                assert(chunk_ticks(ls.push(x)) =~= chunk_ticks(ls) + seq![t]);
            },
            None => {
                assert(chunk_ticks(ls.push(x)) == chunk_ticks(ls.push(x).drop_first()));
                assert(chunk_ticks(ls.push(x)) =~= chunk_ticks(ls));
            },
        }
    } else {
        assert(ls.push(x)[0] == ls[0]);
        assert(ls.push(x).drop_first() =~= ls.drop_first().push(x));
        lemma_chunk_ticks_push(ls.drop_first(), x);
        match progress_tick_of(ls[0]) {
            Some(t) => {
                assert(chunk_ticks(ls.push(x))
                    =~= chunk_ticks(ls) + (match progress_tick_of(x) {
                        Some(u) => seq![u],
                        None => Seq::<(Seq<char>, Option<u64>, Option<u64>)>::empty(),
                    }));
            },
            None => {},
        }
    }
}

/// A line that holds no tick produces no notification and does not end the
/// stream: dropping it from the lines leaves the ticks as they were.
pub proof fn lemma_unparsable_line_skipped(ls: Seq<Seq<u8>>, i: int)
    requires
        0 <= i < ls.len(),
        progress_tick_of(ls[i]) is None,
    ensures
        chunk_ticks(ls) == chunk_ticks(ls.remove(i)),
    decreases ls.len(),
{
    if i == 0 {
        assert(ls.remove(0) =~= ls.drop_first());
    } else {
        assert(ls.remove(i).drop_first() =~= ls.drop_first().remove(i - 1));
        assert(ls.drop_first()[i - 1] == ls[i]);
        lemma_unparsable_line_skipped(ls.drop_first(), i - 1);
        assert(ls.remove(i)[0] == ls[0]);
    }
}

/// One progress notification of a model download, as it goes to the event
/// sink. The byte counts stay as the server sent them; the percentage is
/// derived from them on demand.
#[derive(Clone, Debug)]
pub struct AiModelPullProgress {
    pub model_id: String,
    pub status: String,
    pub completed: Option<u64>,
    pub total: Option<u64>,
}

/// The plain values of one notification, model identifier aside.
pub open spec fn progress_row(e: AiModelPullProgress) -> (Seq<char>, Option<u64>, Option<u64>) {
    (e.status@, e.completed, e.total)
}

impl AiModelPullProgress {
    /// The percentage this notification reports, as an exact ratio of
    /// numerator to denominator: one hundred times the completed count
    /// over the total when both counts are present and the total is
    /// positive, and zero otherwise. Nothing is clamped: a server that
    /// reports more completed than total yields a ratio above one
    /// hundred.
    pub fn percentage_ratio(&self) -> (r: (u128, u64))
        ensures
            (self.completed is Some && self.total is Some && self.total->0 > 0)
                ==> r == ((100u128 * (self.completed->0 as u128)) as u128, self.total->0),
            (self.completed is None || self.total is None || self.total == Some(0u64))
                ==> r == (0u128, 1u64),
            r.1 > 0,
    {
        match (self.completed, self.total) {
            (Some(c), Some(t)) => {
                if t > 0 {
                    (100u128 * (c as u128), t)
                } else {
                    (0u128, 1u64)
                }
            },
            _ => (0u128, 1u64),
        }
    }
}

/// Turn one stream chunk into the notifications it carries, in the order
/// its lines arrived.
pub fn chunk_to_events(model_id: &str, chunk: &[u8]) -> (events: Vec<AiModelPullProgress>)
    ensures
        events@.map_values(|e: AiModelPullProgress| progress_row(e)) == chunk_ticks(lines_of(chunk@)),
        forall|k: int| 0 <= k < events@.len() ==> (#[trigger] events@[k]).model_id@ == model_id@,
{
    let lines = split_lines(chunk);
    let ghost lv = lines@.map_values(|l: Vec<u8>| l@);
    let mut events: Vec<AiModelPullProgress> = Vec::new();
    let mut i: usize = 0;
    while i < lines.len()
        invariant
            i <= lines@.len(),
            lv == lines@.map_values(|l: Vec<u8>| l@),
            lv == lines_of(chunk@),
            events@.map_values(|e: AiModelPullProgress| progress_row(e)) == chunk_ticks(lv.take(i as int)),
            forall|k: int| 0 <= k < events@.len() ==> (#[trigger] events@[k]).model_id@ == model_id@,
        decreases lines@.len() - i,
    {
        proof {
            assert(lv[i as int] == lines@[i as int]@);
            assert(lv.take(i as int).push(lv[i as int]) =~= lv.take(i as int + 1));
            lemma_chunk_ticks_push(lv.take(i as int), lv[i as int]);
        }
        let ghost prev = events@;
        match parse_progress_line(lines[i].as_slice()) {
            Some(t) => {
                let e = AiModelPullProgress {
                    model_id: model_id.to_owned(),
                    status: t.status,
                    completed: t.completed,
                    total: t.total,
                };
                events.push(e);
                proof {
                    assert(events@.map_values(|e: AiModelPullProgress| progress_row(e))
                        =~= prev.map_values(|e: AiModelPullProgress| progress_row(e))
                            + seq![progress_row(events@.last())]);
                }
            },
            None => {},
        }
        i = i + 1;
    }
    proof {
        assert(lv.take(lv.len() as int) =~= lv);
    }
    events
}

/// One notification of a pull, as the session's log records it: a progress
/// notification with its tick, or the single completion notification with
/// the model identifier.
pub enum PullNote {
    Progress(Seq<char>, Option<u64>, Option<u64>),
    Complete(Seq<char>),
}

/// The log note of one progress notification.
pub open spec fn note_of(e: AiModelPullProgress) -> PullNote {
    PullNote::Progress(e.status@, e.completed, e.total)
}

/// One model download in flight: it wraps each chunk's ticks into
/// notifications and records, in a ghost log, every notification handed
/// out, so that their order and the single completion are facts of the
/// session.
pub struct PullSession {
    model_id: String,
    finished: bool,
    log: Ghost<Seq<PullNote>>,
}

impl PullSession {
    /// The model this session downloads.
    pub closed spec fn spec_model_id(&self) -> Seq<char> {
        self.model_id@
    }

    /// Whether the completion notification has been handed out.
    pub closed spec fn spec_finished(&self) -> bool {
        self.finished
    }

    /// Every notification handed out so far, in order.
    pub closed spec fn notes(&self) -> Seq<PullNote> {
        self.log@
    }

    /// A session's log holds a completion note only as its final note,
    /// only for its own model, and only once the session is finished.
    pub open spec fn wf(&self) -> bool {
        &&& (forall|i: int|
            0 <= i < self.notes().len() && (#[trigger] self.notes()[i]) is Complete
                ==> self.spec_finished() && i == self.notes().len() - 1
                    && self.notes()[i]->Complete_0 == self.spec_model_id())
        &&& (self.spec_finished() ==> self.notes().len() > 0 && self.notes().last() is Complete)
    }

    /// Open a session for one model: nothing notified yet.
    pub fn new(model_id: String) -> (r: Self)
        ensures
            r.wf(),
            !r.spec_finished(),
            r.spec_model_id() == model_id@,
            r.notes() == Seq::<PullNote>::empty(),
    {
        PullSession { model_id, finished: false, log: Ghost(Seq::empty()) }
    }

    /// Whether the completion notification has already been handed out.
    pub fn is_finished(&self) -> (r: bool)
        ensures
            r == self.spec_finished(),
    {
        self.finished
    }

    /// Feed one chunk of the stream: the returned notifications carry the
    /// chunk's ticks in line order, each for this session's model, and the
    /// log grows by exactly those notifications.
    pub fn on_chunk(&mut self, chunk: &[u8]) -> (events: Vec<AiModelPullProgress>)
        requires
            old(self).wf(),
            !old(self).spec_finished(),
        ensures
            final(self).wf(),
            !final(self).spec_finished(),
            final(self).spec_model_id() == old(self).spec_model_id(),
            events@.map_values(|e: AiModelPullProgress| progress_row(e)) == chunk_ticks(lines_of(chunk@)),
            forall|k: int| 0 <= k < events@.len()
                ==> (#[trigger] events@[k]).model_id@ == old(self).spec_model_id(),
            final(self).notes() == old(self).notes()
                + events@.map_values(|e: AiModelPullProgress| note_of(e)),
    {
        let events = chunk_to_events(self.model_id.as_str(), chunk);
        proof {
            let appended = events@.map_values(|e: AiModelPullProgress| note_of(e));
            assert(forall|k: int| 0 <= k < appended.len() ==> !((#[trigger] appended[k]) is Complete));
        }
        self.log = Ghost(self.log@ + events@.map_values(|e: AiModelPullProgress| note_of(e)));
        events
    }

    /// Close a successful pull: the single completion notification, with
    /// this session's model as its payload, goes out and into the log, and
    /// the session is finished. A failed pull never reaches this point, so
    /// no completion is ever notified for it.
    pub fn complete(&mut self) -> (payload: String)
        requires
            old(self).wf(),
            !old(self).spec_finished(),
        ensures
            final(self).wf(),
            final(self).spec_finished(),
            final(self).spec_model_id() == old(self).spec_model_id(),
            payload@ == old(self).spec_model_id(),
            final(self).notes() == old(self).notes().push(PullNote::Complete(old(self).spec_model_id())),
    {
        self.finished = true;
        self.log = Ghost(self.log@.push(PullNote::Complete(self.model_id@)));
        self.model_id.clone()
    }
}

/// In a well-formed session the completion notification is unique: it
/// appears at most once, only as the very last notification — after every
/// progress notification — and not at all while the session is
/// unfinished; a finished session ends with exactly it.
pub proof fn lemma_single_completion(s: PullSession)
    requires
        s.wf(),
    ensures
        forall|i: int, j: int|
            0 <= i < s.notes().len() && 0 <= j < s.notes().len()
                && (#[trigger] s.notes()[i]) is Complete && (#[trigger] s.notes()[j]) is Complete
                ==> i == j,
        forall|i: int|
            0 <= i < s.notes().len() && (#[trigger] s.notes()[i]) is Complete
                ==> i == s.notes().len() - 1,
        !s.spec_finished() ==> forall|i: int|
            0 <= i < s.notes().len() ==> !((#[trigger] s.notes()[i]) is Complete),
        s.spec_finished() ==> s.notes().len() > 0 && s.notes().last() is Complete,
{
}

} // verus!
