//! Collection of log messages from search hits, up to a limit.
use vstd::prelude::*;
use crate::text::{has_prefix, utf8_len, str_eq, starts_with, chars_of, utf8_len_capped,
    copy_string};
use super::config::PatternExtractionConfig;

verus! {

/// One field of a search hit: its key, and its value when that value is a JSON string.
#[derive(Debug)]
pub struct HitField {
    /// The field's key.
    pub key: String,
    /// The field's value, when it is a string.
    pub text: Option<String>,
}

/// The abstract value of a field: key and string value.
pub type FieldView = (Seq<char>, Option<Seq<char>>);

impl View for HitField {
    type V = FieldView;

    open spec fn view(&self) -> FieldView {
        (
            self.key@,
            match self.text {
                Some(t) => Some(t@),
                None => None,
            },
        )
    }
}

/// A search hit, as the accumulator reads it.
#[derive(Debug)]
pub struct Hit {
    /// The fields of the hit, in the order in which its JSON object lists them; `None`
    /// when the hit is not a JSON object.
    pub fields: Option<Vec<HitField>>,
    /// The hit written as JSON text.
    pub json: String,
}

/// The abstract value of a hit: its fields, if it is an object, and its JSON text.
pub type HitView = (Option<Seq<FieldView>>, Seq<char>);

/// The abstract values of a sequence of fields.
pub open spec fn fields_view(fs: Seq<HitField>) -> Seq<FieldView> {
    fs.map_values(|f: HitField| f@)
}

impl View for Hit {
    type V = HitView;

    open spec fn view(&self) -> HitView {
        (
            match self.fields {
                Some(fs) => Some(fields_view(fs@)),
                None => None,
            },
            self.json@,
        )
    }
}

/// The abstract values of a sequence of hits.
pub open spec fn hits_view(hs: Seq<Hit>) -> Seq<HitView> {
    hs.map_values(|h: Hit| h@)
}

/// The string value of the first field named `key`; `None` when there is no such field
/// or its value is not a string.
pub open spec fn field_text(fs: Seq<FieldView>, key: Seq<char>) -> Option<Seq<char>>
    decreases fs.len(),
{
    if fs.len() == 0 {
        None
    } else if fs[0].0 == key {
        fs[0].1
    } else {
        field_text(fs.drop_first(), key)
    }
}

/// The string value of the first of `names` that names a string field.
pub open spec fn first_text(fs: Seq<FieldView>, names: Seq<Seq<char>>) -> Option<Seq<char>>
    decreases names.len(),
{
    if names.len() == 0 {
        None
    } else {
        match field_text(fs, names[0]) {
            Some(t) => Some(t),
            None => first_text(fs, names.drop_first()),
        }
    }
}

/// The field names commonly holding a log message, in the order they are tried.
pub open spec fn common_message_fields() -> Seq<Seq<char>> {
    seq![
        "message"@,
        "msg"@,
        "log"@,
        "body"@,
        "_source"@,
        "log_message"@,
        "content"@,
        "text"@,
        "_raw"@,
    ]
}

/// Whether a key names a metadata field: it starts with "_" and is neither "_source"
/// nor "_raw".
pub open spec fn is_metadata_key(k: Seq<char>) -> bool {
    has_prefix(k, "_"@) && k != "_source"@ && k != "_raw"@
}

/// The first string value longer than 20 bytes of a field that is not metadata.
pub open spec fn long_text(fs: Seq<FieldView>) -> Option<Seq<char>>
    decreases fs.len(),
{
    if fs.len() == 0 {
        None
    } else {
        let (k, t) = fs[0];
        if !is_metadata_key(k) && t is Some && utf8_len(t->0) > 20 {
            t
        } else {
            long_text(fs.drop_first())
        }
    }
}

/// The log message of a hit: the first configured message field holding a string, else
/// the first common message field holding one, else the first long string of a field
/// that is not metadata, else the hit's JSON text. A hit that is not an object has none.
pub open spec fn log_message(hit: HitView, fts_fields: Seq<Seq<char>>) -> Option<Seq<char>> {
    match hit.0 {
        None => None,
        Some(fs) => match first_text(fs, fts_fields) {
            Some(t) => Some(t),
            None => match first_text(fs, common_message_fields()) {
                Some(t) => Some(t),
                None => match long_text(fs) {
                    Some(t) => Some(t),
                    None => Some(hit.1),
                },
            },
        },
    }
}

/// The first of `names` that names a string field, when it is the `k`-th, gives that
/// field's string.
proof fn lemma_first_text_at(fs: Seq<FieldView>, names: Seq<Seq<char>>, k: int)
    requires
        0 <= k < names.len(),
        field_text(fs, names[k]) is Some,
        forall|j: int| 0 <= j < k ==> field_text(fs, #[trigger] names[j]) is None,
    ensures
        first_text(fs, names) == field_text(fs, names[k]),
    decreases names.len(),
{
    if k > 0 {
        let rest = names.drop_first();
        assert(field_text(fs, names[0]) is None);
        assert forall|j: int| 0 <= j < k - 1 implies field_text(fs, #[trigger] rest[j]) is None by {
            assert(rest[j] == names[j + 1]);
        }
        lemma_first_text_at(fs, rest, k - 1);
    }
}

/// When none of `names` names a string field, none is found.
proof fn lemma_first_text_none(fs: Seq<FieldView>, names: Seq<Seq<char>>)
    requires
        forall|j: int| 0 <= j < names.len() ==> field_text(fs, #[trigger] names[j]) is None,
    ensures
        first_text(fs, names) is None,
    decreases names.len(),
{
    if names.len() > 0 {
        let rest = names.drop_first();
        assert(field_text(fs, names[0]) is None);
        assert forall|j: int| 0 <= j < rest.len() implies field_text(fs, #[trigger] rest[j]) is None by {
            assert(rest[j] == names[j + 1]);
        }
        lemma_first_text_none(fs, rest);
    }
}

/// Which field a hit's message is read from, in order of preference: the first
/// configured field that holds a string; when none does, the first common message field
/// ("message", "msg", "log", "body", "_source", "log_message", "content", "text",
/// "_raw") that holds a string, whatever other fields hold; only when none of those
/// does, the first string longer than 20 bytes of a field that is not metadata, else the
/// hit's JSON text.
pub proof fn law_message_field_preference(fs: Seq<FieldView>, json: Seq<char>, fts: Seq<Seq<char>>)
    ensures
        forall|k: int|
            0 <= k < fts.len() && field_text(fs, #[trigger] fts[k]) is Some && (forall|j: int|
                0 <= j < k ==> field_text(fs, #[trigger] fts[j]) is None) ==> log_message(
                (Some(fs), json),
                fts,
            ) == field_text(fs, fts[k]),
        forall|k: int|
            0 <= k < common_message_fields().len() && field_text(
                fs,
                #[trigger] common_message_fields()[k],
            ) is Some && (forall|j: int| 0 <= j < fts.len() ==> field_text(fs, #[trigger] fts[j]) is None)
                && (forall|j: int|
                0 <= j < k ==> field_text(fs, #[trigger] common_message_fields()[j]) is None)
                ==> log_message((Some(fs), json), fts) == field_text(fs, common_message_fields()[k]),
        (forall|j: int| 0 <= j < fts.len() ==> field_text(fs, #[trigger] fts[j]) is None) && (forall|
            j: int,
        | 0 <= j < common_message_fields().len() ==> field_text(
            fs,
            #[trigger] common_message_fields()[j],
        ) is None) ==> log_message((Some(fs), json), fts) == match long_text(fs) {
            Some(t) => Some(t),
            None => Some(json),
        },
{
    assert forall|k: int|
        0 <= k < fts.len() && field_text(fs, #[trigger] fts[k]) is Some && (forall|j: int|
            0 <= j < k ==> field_text(fs, #[trigger] fts[j]) is None) implies log_message(
        (Some(fs), json),
        fts,
    ) == field_text(fs, fts[k]) by {
        lemma_first_text_at(fs, fts, k);
    }
    let common = common_message_fields();
    assert forall|k: int|
        0 <= k < common.len() && field_text(fs, #[trigger] common[k]) is Some && (forall|j: int|
            0 <= j < fts.len() ==> field_text(fs, #[trigger] fts[j]) is None) && (forall|j: int|
            0 <= j < k ==> field_text(fs, #[trigger] common[j]) is None) implies log_message(
        (Some(fs), json),
        fts,
    ) == field_text(fs, common[k]) by {
        lemma_first_text_none(fs, fts);
        lemma_first_text_at(fs, common, k);
    }
    if (forall|j: int| 0 <= j < fts.len() ==> field_text(fs, #[trigger] fts[j]) is None) && (forall|
        j: int,
    | 0 <= j < common.len() ==> field_text(fs, #[trigger] common[j]) is None) {
        lemma_first_text_none(fs, fts);
        lemma_first_text_none(fs, common);
    }
}

/// The abstract state of an accumulator: the messages collected, the hits they came
/// from, how many hits were seen, and whether the limit was reached.
pub struct AccumulatorState {
    /// Messages collected.
    pub logs: Seq<Seq<char>>,
    /// Hits the messages came from.
    pub objects: Seq<HitView>,
    /// Number of hits seen.
    pub total_seen: nat,
    /// Whether the limit was reached.
    pub at_capacity: bool,
}

/// The state after one hit: it is counted; unless the limit was reached before, its
/// non-empty message is collected with the hit, and the limit counts as reached once
/// at least `max_logs` messages are held.
pub open spec fn add_hit(
    st: AccumulatorState,
    hit: HitView,
    cfg: PatternExtractionConfig,
    fts: Seq<Seq<char>>,
) -> AccumulatorState {
    let seen = AccumulatorState { total_seen: st.total_seen + 1, ..st };
    if st.at_capacity {
        seen
    } else {
        match log_message(hit, fts) {
            Some(m) => if m.len() > 0 {
                let logs = st.logs.push(m);
                AccumulatorState {
                    logs,
                    objects: st.objects.push(hit),
                    total_seen: st.total_seen + 1,
                    at_capacity: logs.len() >= cfg.max_logs_for_extraction,
                }
            } else {
                seen
            },
            None => seen,
        }
    }
}

/// The state after the first `n` of `hits`, in order.
pub open spec fn add_hits_spec(
    st: AccumulatorState,
    hits: Seq<HitView>,
    cfg: PatternExtractionConfig,
    fts: Seq<Seq<char>>,
    n: nat,
) -> AccumulatorState
    decreases n,
{
    if n == 0 {
        st
    } else {
        add_hit(add_hits_spec(st, hits, cfg, fts, (n - 1) as nat), hits[n - 1], cfg, fts)
    }
}

/// Every hit is counted, collected or not: after `n` hits, `n` more were seen.
pub proof fn law_every_hit_counted(
    st: AccumulatorState,
    hits: Seq<HitView>,
    cfg: PatternExtractionConfig,
    fts: Seq<Seq<char>>,
    n: nat,
)
    ensures
        add_hits_spec(st, hits, cfg, fts, n).total_seen == st.total_seen + n,
    decreases n,
{
    if n > 0 {
        law_every_hit_counted(st, hits, cfg, fts, (n - 1) as nat);
    }
}

/// Collected messages are kept, in order: the messages held before some hits are the
/// first messages held after them; once the limit is reached, nothing more is collected.
pub proof fn law_collected_messages_kept(
    st: AccumulatorState,
    hits: Seq<HitView>,
    cfg: PatternExtractionConfig,
    fts: Seq<Seq<char>>,
    n: nat,
)
    ensures
        add_hits_spec(st, hits, cfg, fts, n).logs.len() >= st.logs.len(),
        add_hits_spec(st, hits, cfg, fts, n).logs.subrange(0, st.logs.len() as int) == st.logs,
        st.at_capacity ==> add_hits_spec(st, hits, cfg, fts, n).logs == st.logs,
        st.at_capacity ==> add_hits_spec(st, hits, cfg, fts, n).at_capacity,
    decreases n,
{
    if n > 0 {
        law_collected_messages_kept(st, hits, cfg, fts, (n - 1) as nat);
        let prev = add_hits_spec(st, hits, cfg, fts, (n - 1) as nat);
        let next = add_hits_spec(st, hits, cfg, fts, n);
        assert(next == add_hit(prev, hits[n - 1], cfg, fts));
        if !prev.at_capacity {
            match log_message(hits[n - 1], fts) {
                Some(m) => if m.len() > 0 {
                    assert(next.logs.subrange(0, st.logs.len() as int) =~= prev.logs.subrange(
                        0,
                        st.logs.len() as int,
                    ));
                },
                None => {},
            }
        }
    } else {
        assert(st.logs.subrange(0, st.logs.len() as int) =~= st.logs);
    }
}

/// What always holds of an accumulator: each message has its hit and is non-empty, no
/// more hits were collected than seen, and fewer messages than the limit are held until
/// the limit is reached (none at all when the limit is 0), which is then held exactly
/// (one message when the limit is 0).
pub open spec fn accumulator_wf(st: AccumulatorState, max_logs: nat) -> bool {
    &&& st.logs.len() == st.objects.len()
    &&& st.logs.len() <= st.total_seen
    &&& forall|i: int| 0 <= i < st.logs.len() ==> (#[trigger] st.logs[i]).len() > 0
    &&& !st.at_capacity ==> st.logs.len() < max_logs || st.logs.len() == 0
    &&& st.at_capacity ==> st.logs.len() == max_logs || (max_logs == 0 && st.logs.len() == 1)
}

/// Counts of an accumulator.
#[derive(Debug, Clone)]
pub struct AccumulatorStats {
    /// Number of messages collected.
    pub accumulated_logs: usize,
    /// Number of hits seen.
    pub total_logs_seen: usize,
    /// Whether collection stopped at the limit.
    pub was_sampled: bool,
}

/// Collects log messages from search hits for pattern extraction.
pub struct PatternAccumulator {
    config: PatternExtractionConfig,
    logs: Vec<String>,
    log_objects: Vec<Hit>,
    total_seen: usize,
    at_capacity: bool,
}

impl PatternAccumulator {
    /// The settings of this accumulator.
    pub closed spec fn config(&self) -> PatternExtractionConfig {
        self.config
    }

    /// The configured message fields, `config().fts_fields`, as character sequences.
    pub open spec fn fts(&self) -> Seq<Seq<char>> {
        self.config().fts_fields@.map_values(|s: String| s@)
    }

    /// The abstract state.
    pub closed spec fn state(&self) -> AccumulatorState {
        AccumulatorState {
            logs: self.logs@.map_values(|s: String| s@),
            objects: hits_view(self.log_objects@),
            total_seen: self.total_seen as nat,
            at_capacity: self.at_capacity,
        }
    }

    /// Whether the state satisfies `accumulator_wf` under the configured limit.
    pub open spec fn wf(&self) -> bool {
        accumulator_wf(self.state(), self.config().max_logs_for_extraction as nat)
    }

    /// An empty accumulator with the given settings.
    pub fn new(config: PatternExtractionConfig) -> (r: Self)
        ensures
            r.wf(),
            r.config() == config,
            r.state() == (AccumulatorState {
                logs: Seq::empty(),
                objects: Seq::empty(),
                total_seen: 0,
                at_capacity: false,
            }),
    {
        let r = PatternAccumulator {
            config,
            logs: Vec::new(),
            log_objects: Vec::new(),
            total_seen: 0,
            at_capacity: false,
        };
        assert(r.state().logs =~= Seq::<Seq<char>>::empty());
        assert(r.state().objects =~= Seq::<HitView>::empty());
        r
    }

    /// Counts each hit, and collects the non-empty log message of each one until
    /// `max_logs_for_extraction` messages are held.
    pub fn add_hits(&mut self, hits: &[Hit])
        requires
            old(self).wf(),
            old(self).state().total_seen + hits@.len() <= usize::MAX,
        ensures
            final(self).wf(),
            final(self).config() == old(self).config(),
            final(self).state() == add_hits_spec(
                old(self).state(),
                hits_view(hits@),
                old(self).config(),
                old(self).fts(),
                hits@.len(),
            ),
    {
        let n = hits.len();
        for i in 0..n
            invariant
                n == hits@.len(),
                self.wf(),
                self.config() == old(self).config(),
                self.state().total_seen == old(self).state().total_seen + i,
                old(self).state().total_seen + n <= usize::MAX,
                self.state() == add_hits_spec(
                    old(self).state(),
                    hits_view(hits@),
                    old(self).config(),
                    old(self).fts(),
                    i as nat,
                ),
        {
            assert(hits_view(hits@)[i as int] == hits@[i as int]@);
            self.add_hit(&hits[i]);
        }
    }

    /// Adds one hit.
    fn add_hit(&mut self, hit: &Hit)
        requires
            old(self).wf(),
            old(self).state().total_seen < usize::MAX,
        ensures
            final(self).wf(),
            final(self).config() == old(self).config(),
            final(self).state() == add_hit(old(self).state(), hit@, old(self).config(), old(self).fts()),
    {
        let ghost before = self.state();
        self.total_seen = self.total_seen + 1;
        if self.at_capacity {
            return;
        }
        match extract_log_message(hit, &self.config.fts_fields) {
            Some(msg) => {
                if msg.as_str().is_empty() == false {
                    proof {
                        assert(msg@.len() > 0) by {
                            if msg@.len() == 0 {
                                assert(msg@ =~= Seq::<char>::empty());
                            }
                        }
                    }
                    let ghost m = msg@;
                    self.logs.push(msg);
                    self.log_objects.push(copy_hit(hit));
                    if self.logs.len() >= self.config.max_logs_for_extraction {
                        self.at_capacity = true;
                    }
                    proof {
                        assert(self.state().logs =~= before.logs.push(m));
                        assert(self.state().objects =~= before.objects.push(hit@));
                    }
                } else {
                    proof {
                        assert(msg@.len() == 0);
                    }
                }
            },
            None => {},
        }
    }

    /// The counts of this accumulator.
    pub fn stats(&self) -> (r: AccumulatorStats)
        requires
            self.wf(),
        ensures
            r.accumulated_logs == self.state().logs.len(),
            r.total_logs_seen == self.state().total_seen,
            r.was_sampled == self.state().at_capacity,
    {
        AccumulatorStats {
            accumulated_logs: self.logs.len(),
            total_logs_seen: self.total_seen,
            was_sampled: self.at_capacity,
        }
    }

    /// The collected messages.
    pub fn get_logs(&self) -> (r: &[String])
        ensures
            r@.map_values(|s: String| s@) == self.state().logs,
    {
        self.logs.as_slice()
    }

    /// The hits the collected messages came from.
    pub fn get_log_objects(&self) -> (r: &[Hit])
        ensures
            hits_view(r@) == self.state().objects,
    {
        self.log_objects.as_slice()
    }

    /// Number of collected messages.
    pub fn len(&self) -> (r: usize)
        ensures
            r == self.state().logs.len(),
    {
        self.logs.len()
    }

    /// Whether no message was collected.
    pub fn is_empty(&self) -> (r: bool)
        ensures
            r == (self.state().logs.len() == 0),
    {
        self.logs.len() == 0
    }

    /// Whether collection stopped at the limit.
    pub fn is_at_capacity(&self) -> (r: bool)
        ensures
            r == self.state().at_capacity,
    {
        self.at_capacity
    }

    /// The collected messages, taking the accumulator.
    pub fn into_logs(self) -> (r: Vec<String>)
        ensures
            r@.map_values(|s: String| s@) == self.state().logs,
    {
        self.logs
    }
}

/// A copy of a hit.
fn copy_hit(hit: &Hit) -> (r: Hit)
    ensures
        r@ == hit@,
{
    let fields = match &hit.fields {
        None => None,
        Some(fs) => {
            let mut out: Vec<HitField> = Vec::new();
            let n = fs.len();
            for i in 0..n
                invariant
                    n == fs@.len(),
                    fields_view(out@) == fields_view(fs@.take(i as int)),
            {
                let f = &fs[i];
                let text = match &f.text {
                    None => None,
                    Some(t) => Some(copy_string(t)),
                };
                let g = HitField { key: copy_string(&f.key), text };
                assert(g@ == f@);
                assert(fs@.take(i + 1) =~= fs@.take(i as int).push(*f));
                assert(fields_view(out@.push(g)) =~= fields_view(out@).push(g@));
                assert(fields_view(fs@.take(i + 1)) =~= fields_view(fs@.take(i as int)).push(f@));
                out.push(g);
            }
            assert(fs@.take(n as int) =~= fs@);
            Some(out)
        },
    };
    Hit { fields, json: copy_string(&hit.json) }
}

/// The string value of the first field named `key`.
fn find_field_text(fs: &Vec<HitField>, key: &str) -> (r: Option<String>)
    ensures
        match r {
            Some(t) => field_text(fields_view(fs@), key@) == Some(t@),
            None => field_text(fields_view(fs@), key@) is None,
        },
{
    let ghost all = fields_view(fs@);
    assert(all.skip(0) =~= all);
    let n = fs.len();
    for i in 0..n
        invariant
            n == fs@.len(),
            all == fields_view(fs@),
            field_text(all, key@) == field_text(all.skip(i as int), key@),
    {
        let f = &fs[i];
        assert(all.skip(i as int)[0] == f@);
        assert(all.skip(i as int).drop_first() =~= all.skip(i + 1));
        if str_eq(f.key.as_str(), key) {
            return match &f.text {
                None => None,
                Some(t) => Some(copy_string(t)),
            };
        }
    }
    None
}

/// The string value of the first of `names` that names a string field.
fn find_first_text(fs: &Vec<HitField>, names: &[&str]) -> (r: Option<String>)
    ensures
        match r {
            Some(t) => first_text(fields_view(fs@), names@.map_values(|s: &str| s@)) == Some(t@),
            None => first_text(fields_view(fs@), names@.map_values(|s: &str| s@)) is None,
        },
{
    let ghost all = names@.map_values(|s: &str| s@);
    assert(all.skip(0) =~= all);
    let n = names.len();
    for i in 0..n
        invariant
            n == names@.len(),
            all == names@.map_values(|s: &str| s@),
            first_text(fields_view(fs@), all) == first_text(fields_view(fs@), all.skip(i as int)),
    {
        assert(all.skip(i as int)[0] == names@[i as int]@);
        assert(all.skip(i as int).drop_first() =~= all.skip(i + 1));
        let t = find_field_text(fs, names[i]);
        if t.is_some() {
            return t;
        }
    }
    None
}

/// The message fields tried after the configured ones.
fn common_fields() -> (r: [&'static str; 9])
    ensures
        r@.map_values(|s: &str| s@) == common_message_fields(),
{
    let r = ["message", "msg", "log", "body", "_source", "log_message", "content", "text", "_raw"];
    assert(r@.map_values(|s: &str| s@) =~= common_message_fields());
    r
}

/// The first long string value of a field that is not metadata.
fn find_long_text(fs: &Vec<HitField>) -> (r: Option<String>)
    ensures
        match r {
            Some(t) => long_text(fields_view(fs@)) == Some(t@),
            None => long_text(fields_view(fs@)) is None,
        },
{
    let ghost all = fields_view(fs@);
    assert(all.skip(0) =~= all);
    let n = fs.len();
    proof {
        reveal_strlit("_");
        reveal_strlit("_source");
        reveal_strlit("_raw");
    }
    for i in 0..n
        invariant
            n == fs@.len(),
            all == fields_view(fs@),
            long_text(all) == long_text(all.skip(i as int)),
    {
        let f = &fs[i];
        assert(all.skip(i as int)[0] == f@);
        assert(all.skip(i as int).drop_first() =~= all.skip(i + 1));
        let k = f.key.as_str();
        let metadata = starts_with(k, "_") && !str_eq(k, "_source") && !str_eq(k, "_raw");
        if !metadata {
            match &f.text {
                Some(t) => {
                    let v = chars_of(t.as_str());
                    if utf8_len_capped(&v, 21) > 20 {
                        return Some(copy_string(t));
                    }
                },
                None => {},
            }
        }
    }
    None
}

/// The log message of a hit under the configured message fields.
fn extract_log_message(hit: &Hit, fts_fields: &Vec<String>) -> (r: Option<String>)
    ensures
        match r {
            Some(t) => log_message(hit@, fts_fields@.map_values(|s: String| s@)) == Some(t@),
            None => log_message(hit@, fts_fields@.map_values(|s: String| s@)) is None,
        },
{
    let fs = match &hit.fields {
        None => {
            return None;
        },
        Some(fs) => fs,
    };
    let ghost fts = fts_fields@.map_values(|s: String| s@);
    assert(fts.skip(0) =~= fts);
    let n = fts_fields.len();
    for i in 0..n
        invariant
            n == fts_fields@.len(),
            hit@.0 == Some(fields_view(fs@)),
            fts == fts_fields@.map_values(|s: String| s@),
            first_text(fields_view(fs@), fts) == first_text(fields_view(fs@), fts.skip(i as int)),
    {
        assert(fts.skip(i as int)[0] == fts_fields@[i as int]@);
        assert(fts.skip(i as int).drop_first() =~= fts.skip(i + 1));
        let t = find_field_text(fs, fts_fields[i].as_str());
        if t.is_some() {
            return t;
        }
    }
    let common = common_fields();
    let t = find_first_text(fs, &common);
    if t.is_some() {
        return t;
    }
    let t = find_long_text(fs);
    if t.is_some() {
        return t;
    }
    Some(copy_string(&hit.json))
}

} // verus!
