//! Clustering of log lines into templates, after the Drain log parser (He, Zhu, Zheng and
//! Lyu, ICWS 2017).
//!
//! Each log line is split into tokens. A line joins the cluster whose template matches
//! the most of its tokens, provided the share of matching tokens reaches the similarity
//! threshold; the cluster's template then turns every token that differs into a typed
//! placeholder. A line that joins no cluster starts a new one, whose template keeps its
//! constant tokens and puts a placeholder in place of each variable one.
use vstd::prelude::*;
use crate::text::{has_prefix, utf8_len, words, views_of, join_spaces, decimal, split_whitespace,
    chars_of, utf8_len_capped, str_eq, starts_with, copy_string, join_with_spaces,
    usize_to_decimal, concat2};
use crate::openfga::catalog::lemma_filter_take_step;
use super::config::PatternExtractionConfig;
use super::sdr::{SdrRecognizer, sdr_type_spec, placeholder_spec, is_variable_spec};
use super::types::{Pattern, Example, description_spec, variables_spec, variables_view,
    extract_variables};

verus! {

/// The abstract value of a cluster: its template tokens, and the ids of its logs in the
/// order in which they joined.
pub type ClusterView = (Seq<Seq<char>>, Seq<usize>);

/// Whether a token is at least `min_len` bytes long.
pub open spec fn long_enough(min_len: nat) -> spec_fn(Seq<char>) -> bool {
    |w: Seq<char>| utf8_len(w) >= min_len
}

/// The tokens of a log line: its whitespace-separated words of at least `min_len` bytes.
pub open spec fn log_tokens(log: Seq<char>, min_len: nat) -> Seq<Seq<char>> {
    words(log).filter(long_enough(min_len))
}

/// Whether a template token matches a log token: they are equal, or the template token
/// is a placeholder.
pub open spec fn token_matches(t: Seq<char>, w: Seq<char>) -> bool {
    t == w || has_prefix(t, "<:"@) || t == "<*>"@
}

/// How many of the first `n` positions of a template match the tokens.
pub open spec fn match_count(tmpl: Seq<Seq<char>>, toks: Seq<Seq<char>>, n: nat) -> nat
    decreases n,
{
    if n == 0 {
        0
    } else {
        match_count(tmpl, toks, (n - 1) as nat) + if token_matches(tmpl[n - 1], toks[n - 1]) {
            1nat
        } else {
            0nat
        }
    }
}

/// Whether a template has as many tokens as a log line and the share of matching
/// positions reaches the similarity threshold.
pub open spec fn similar_enough(
    tmpl: Seq<Seq<char>>,
    toks: Seq<Seq<char>>,
    cfg: PatternExtractionConfig,
) -> bool {
    &&& tmpl.len() == toks.len()
    &&& match_count(tmpl, toks, toks.len()) * cfg.similarity_den >= cfg.similarity_num
        * toks.len()
}

/// The cluster, among the first `n`, that a log line with tokens `toks` joins: of the
/// similar enough ones, the first with the most matching positions.
pub open spec fn best_cluster(
    cl: Seq<ClusterView>,
    toks: Seq<Seq<char>>,
    cfg: PatternExtractionConfig,
    n: nat,
) -> Option<int>
    decreases n,
{
    if n == 0 {
        None
    } else {
        let prev = best_cluster(cl, toks, cfg, (n - 1) as nat);
        let t = cl[n - 1].0;
        let better = match prev {
            None => true,
            Some(b) => match_count(t, toks, toks.len()) > match_count(cl[b].0, toks, toks.len()),
        };
        if similar_enough(t, toks, cfg) && better {
            Some(n - 1)
        } else {
            prev
        }
    }
}

/// A template after a line with tokens `toks` joins its cluster: each token that
/// differs and is not already a typed placeholder becomes the placeholder of the line's
/// token type. A line of another length leaves the template as it is.
pub open spec fn generalized_template(tmpl: Seq<Seq<char>>, toks: Seq<Seq<char>>) -> Seq<
    Seq<char>,
> {
    Seq::new(
        tmpl.len(),
        |i: int|
            if tmpl.len() == toks.len() && tmpl[i] != toks[i] && !has_prefix(tmpl[i], "<:"@) {
                placeholder_spec(sdr_type_spec(toks[i]))
            } else {
                tmpl[i]
            },
    )
}

/// The template of a new cluster: each variable token becomes the placeholder of its
/// type, each other token is kept.
pub open spec fn initial_template(toks: Seq<Seq<char>>) -> Seq<Seq<char>> {
    Seq::new(
        toks.len(),
        |i: int|
            if is_variable_spec(toks[i]) {
                placeholder_spec(sdr_type_spec(toks[i]))
            } else {
                toks[i]
            },
    )
}

/// The clusters after a line with tokens `toks` and id `id` is processed. A line without
/// tokens changes nothing.
pub open spec fn cluster_step(
    cl: Seq<ClusterView>,
    id: usize,
    toks: Seq<Seq<char>>,
    cfg: PatternExtractionConfig,
) -> Seq<ClusterView> {
    if toks.len() == 0 {
        cl
    } else {
        match best_cluster(cl, toks, cfg, cl.len()) {
            Some(i) => cl.update(i, (generalized_template(cl[i].0, toks), cl[i].1.push(id))),
            None => cl.push((initial_template(toks), seq![id])),
        }
    }
}

/// The clusters after the first `n` lines of `logs` are processed in order, line `i`
/// under id `i`.
pub open spec fn process_logs(
    cl: Seq<ClusterView>,
    logs: Seq<Seq<char>>,
    cfg: PatternExtractionConfig,
    n: nat,
) -> Seq<ClusterView>
    decreases n,
{
    if n == 0 {
        cl
    } else {
        cluster_step(
            process_logs(cl, logs, cfg, (n - 1) as nat),
            (n - 1) as usize,
            log_tokens(logs[n - 1], cfg.min_field_length as nat),
            cfg,
        )
    }
}

/// Indices of the clusters, among the first `n`, that are reported as patterns: those
/// with at least `min_cluster_size` logs, in order, at most `max_clusters` of them.
pub open spec fn reported_indices(cl: Seq<ClusterView>, cfg: PatternExtractionConfig, n: nat) -> Seq<
    int,
>
    decreases n,
{
    if n == 0 {
        Seq::empty()
    } else {
        let prev = reported_indices(cl, cfg, (n - 1) as nat);
        if cl[n - 1].1.len() >= cfg.min_cluster_size && prev.len() < cfg.max_clusters {
            prev.push(n - 1)
        } else {
            prev
        }
    }
}

/// The lines of `logs` that the ids `ids` name, skipping ids past the end.
pub open spec fn example_lines(ids: Seq<usize>, logs: Seq<Seq<char>>) -> Seq<Seq<char>>
    decreases ids.len(),
{
    if ids.len() == 0 {
        Seq::empty()
    } else {
        let prev = example_lines(ids.drop_last(), logs);
        if ids.last() < logs.len() {
            prev.push(logs[ids.last() as int])
        } else {
            prev
        }
    }
}

/// The first five ids of a cluster, or all of them when it has fewer.
pub open spec fn first_ids(ids: Seq<usize>) -> Seq<usize> {
    if ids.len() <= 5 {
        ids
    } else {
        ids.take(5)
    }
}

/// Whether `p` is the pattern reported for cluster `c` at index `idx`: identifier
/// "p" and the index, the template joined by spaces with its description, the number of
/// logs, the template's variables, and the lines of the first five ids as examples.
pub open spec fn describes_cluster(
    p: Pattern,
    idx: int,
    c: ClusterView,
    logs: Seq<Seq<char>>,
) -> bool {
    &&& p.pattern_id@ == "p"@ + decimal(idx as nat)
    &&& p.template@ == join_spaces(c.0)
    &&& p.description@ == description_spec(join_spaces(c.0))
    &&& p.frequency == c.1.len()
    &&& !p.is_anomaly
    &&& variables_view(p.variables@) == variables_spec(c.0, c.0.len())
    &&& p.examples@.map_values(|e: Example| e.log_message@) == example_lines(first_ids(c.1), logs)
    &&& forall|k: int|
        0 <= k < p.examples@.len() ==> (#[trigger] p.examples@[k]).variables@ == Map::<
            String,
            String,
        >::empty()
}

/// The cluster that `best_cluster` picks is one of the first `n` and is similar enough.
proof fn lemma_best_cluster_is_similar(
    cl: Seq<ClusterView>,
    toks: Seq<Seq<char>>,
    cfg: PatternExtractionConfig,
    n: nat,
)
    requires
        n <= cl.len(),
    ensures
        match best_cluster(cl, toks, cfg, n) {
            Some(i) => 0 <= i < n && similar_enough(cl[i].0, toks, cfg),
            None => true,
        },
    decreases n,
{
    if n > 0 {
        lemma_best_cluster_is_similar(cl, toks, cfg, (n - 1) as nat);
    }
}

/// When no cluster among the first `n` is similar enough, none is picked.
proof fn lemma_best_cluster_none(
    cl: Seq<ClusterView>,
    toks: Seq<Seq<char>>,
    cfg: PatternExtractionConfig,
    n: nat,
)
    requires
        n <= cl.len(),
        forall|j: int| 0 <= j < n ==> !similar_enough(#[trigger] cl[j].0, toks, cfg),
    ensures
        best_cluster(cl, toks, cfg, n) is None,
    decreases n,
{
    if n > 0 {
        lemma_best_cluster_none(cl, toks, cfg, (n - 1) as nat);
    }
}

/// A line joins an existing cluster only when the cluster's template has as many tokens
/// and matches the line in at least `similarity_num / similarity_den` of the positions;
/// when no cluster does, a line with tokens starts a new cluster of its own, at the end.
pub proof fn law_lines_join_only_similar_clusters(
    cl: Seq<ClusterView>,
    id: usize,
    toks: Seq<Seq<char>>,
    cfg: PatternExtractionConfig,
)
    ensures
        best_cluster(cl, toks, cfg, cl.len()) matches Some(i) ==> {
            &&& 0 <= i < cl.len()
            &&& cl[i].0.len() == toks.len()
            &&& match_count(cl[i].0, toks, toks.len()) * cfg.similarity_den >= cfg.similarity_num
                * toks.len()
            &&& toks.len() > 0 ==> cluster_step(cl, id, toks, cfg)[i].1 == cl[i].1.push(id)
        },
        (forall|j: int|
            0 <= j < cl.len() ==> !(cl[j].0.len() == toks.len() && #[trigger] match_count(
                cl[j].0,
                toks,
                toks.len(),
            ) * cfg.similarity_den >= cfg.similarity_num * toks.len())) && toks.len() > 0
            ==> cluster_step(cl, id, toks, cfg) == cl.push((initial_template(toks), seq![id])),
{
    lemma_best_cluster_is_similar(cl, toks, cfg, cl.len());
    if forall|j: int|
        0 <= j < cl.len() ==> !(cl[j].0.len() == toks.len() && #[trigger] match_count(
            cl[j].0,
            toks,
            toks.len(),
        ) * cfg.similarity_den >= cfg.similarity_num * toks.len()) {
        assert forall|j: int| 0 <= j < cl.len() implies !similar_enough(#[trigger] cl[j].0, toks, cfg) by {
            assert(!(cl[j].0.len() == toks.len() && match_count(cl[j].0, toks, toks.len())
                * cfg.similarity_den >= cfg.similarity_num * toks.len()));
        }
        lemma_best_cluster_none(cl, toks, cfg, cl.len());
    }
}

/// The matching positions of a template: never more than the positions compared; all of
/// them when the template equals the line there; none when at every position the tokens
/// differ and the template token is no placeholder ("<:..." or "<*>").
pub proof fn law_match_count_counts_matching_positions(
    tmpl: Seq<Seq<char>>,
    toks: Seq<Seq<char>>,
    n: nat,
)
    ensures
        match_count(tmpl, toks, n) <= n,
        (forall|i: int| 0 <= i < n ==> #[trigger] tmpl[i] == toks[i]) ==> match_count(tmpl, toks, n)
            == n,
        (forall|i: int|
            0 <= i < n ==> #[trigger] tmpl[i] != toks[i] && !has_prefix(tmpl[i], "<:"@) && tmpl[i]
                != "<*>"@) ==> match_count(tmpl, toks, n) == 0,
    decreases n,
{
    if n > 0 {
        law_match_count_counts_matching_positions(tmpl, toks, (n - 1) as nat);
        assert(tmpl[n - 1] == toks[n - 1] ==> token_matches(tmpl[n - 1], toks[n - 1]));
    }
}

/// Whether a template stands for a log line: it has as many tokens, and each template
/// token is the line's token or a typed placeholder.
pub open spec fn template_covers(tmpl: Seq<Seq<char>>, toks: Seq<Seq<char>>) -> bool {
    &&& tmpl.len() == toks.len()
    &&& forall|i: int| 0 <= i < tmpl.len() ==> #[trigger] tmpl[i] == toks[i] || has_prefix(tmpl[i], "<:"@)
}

/// Whether every cluster's template stands for each of its logs, all of which are among
/// the first `n` lines of `logs`.
pub open spec fn clusters_cover_logs(
    cl: Seq<ClusterView>,
    logs: Seq<Seq<char>>,
    cfg: PatternExtractionConfig,
    n: nat,
) -> bool {
    forall|c: int, k: int|
        #![trigger cl[c].1[k]]
        0 <= c < cl.len() && 0 <= k < cl[c].1.len() ==> {
            let id = cl[c].1[k];
            &&& id < n
            &&& id < logs.len()
            &&& template_covers(cl[c].0, log_tokens(logs[id as int], cfg.min_field_length as nat))
        }
}

/// A typed placeholder starts with "<:".
proof fn lemma_placeholder_prefix(t: super::sdr::SdrType)
    ensures
        has_prefix(placeholder_spec(t), "<:"@),
{
    reveal_strlit("<:");
    let p = placeholder_spec(t);
    assert(p.subrange(0, 2) =~= "<:"@);
}

/// One step keeps every template standing for the logs of its cluster.
proof fn lemma_step_covers(
    cl: Seq<ClusterView>,
    logs: Seq<Seq<char>>,
    cfg: PatternExtractionConfig,
    n: nat,
)
    requires
        n < logs.len(),
        logs.len() <= usize::MAX,
        clusters_cover_logs(cl, logs, cfg, n),
    ensures
        clusters_cover_logs(
            cluster_step(cl, n as usize, log_tokens(logs[n as int], cfg.min_field_length as nat), cfg),
            logs,
            cfg,
            (n + 1) as nat,
        ),
{
    let toks = log_tokens(logs[n as int], cfg.min_field_length as nat);
    let next = cluster_step(cl, n as usize, toks, cfg);
    if toks.len() > 0 {
        lemma_best_cluster_is_similar(cl, toks, cfg, cl.len());
        match best_cluster(cl, toks, cfg, cl.len()) {
            Some(b) => {
                let g = generalized_template(cl[b].0, toks);
                assert forall|i: int| 0 <= i < g.len() implies has_prefix(g[i], "<:"@) || g[i]
                    == cl[b].0[i] by {
                    lemma_placeholder_prefix(sdr_type_spec(toks[i]));
                }
                assert forall|c: int, k: int|
                    0 <= c < next.len() && 0 <= k < next[c].1.len() implies {
                    let id = #[trigger] next[c].1[k];
                    &&& id < n + 1
                    &&& id < logs.len()
                    &&& template_covers(next[c].0, log_tokens(logs[id as int], cfg.min_field_length as nat))
                } by {
                    if c == b {
                        if k < cl[b].1.len() {
                            assert(next[c].1[k] == cl[c].1[k]);
                            let id = cl[c].1[k];
                            let t2 = log_tokens(logs[id as int], cfg.min_field_length as nat);
                            assert(template_covers(cl[c].0, t2));
                            assert forall|i: int| 0 <= i < g.len() implies #[trigger] g[i] == t2[i]
                                || has_prefix(g[i], "<:"@) by {
                                assert(cl[c].0[i] == t2[i] || has_prefix(cl[c].0[i], "<:"@));
                            }
                        } else {
                            assert(next[c].1[k] == n);
                            assert forall|i: int| 0 <= i < g.len() implies #[trigger] g[i] == toks[i]
                                || has_prefix(g[i], "<:"@) by {
                                lemma_placeholder_prefix(sdr_type_spec(toks[i]));
                            }
                        }
                    } else {
                        assert(next[c] == cl[c]);
                        assert(cl[c].1[k] == cl[c].1[k]);
                    }
                }
            },
            None => {
                let t = initial_template(toks);
                assert forall|i: int| 0 <= i < t.len() implies #[trigger] t[i] == toks[i] || has_prefix(
                    t[i],
                    "<:"@,
                ) by {
                    lemma_placeholder_prefix(sdr_type_spec(toks[i]));
                }
                assert forall|c: int, k: int|
                    0 <= c < next.len() && 0 <= k < next[c].1.len() implies {
                    let id = #[trigger] next[c].1[k];
                    &&& id < n + 1
                    &&& id < logs.len()
                    &&& template_covers(next[c].0, log_tokens(logs[id as int], cfg.min_field_length as nat))
                } by {
                    if c < cl.len() {
                        assert(next[c] == cl[c]);
                        assert(cl[c].1[k] == cl[c].1[k]);
                    } else {
                        assert(next[c].1 == seq![n as usize]);
                    }
                }
            },
        }
    } else {
        assert forall|c: int, k: int|
            0 <= c < next.len() && 0 <= k < next[c].1.len() implies {
            let id = #[trigger] next[c].1[k];
            &&& id < n + 1
            &&& id < logs.len()
            &&& template_covers(next[c].0, log_tokens(logs[id as int], cfg.min_field_length as nat))
        } by {
            assert(cl[c].1[k] == cl[c].1[k]);
        }
    }
}

/// Law: after an extractor with no clusters has processed the first `n` lines of
/// `logs`, every cluster's template stands for each log in the cluster: it has as many
/// tokens as the line, and each of its tokens is the line's token or a typed
/// placeholder. Every log in a cluster is one of the lines processed.
pub proof fn law_templates_cover_their_logs(
    logs: Seq<Seq<char>>,
    cfg: PatternExtractionConfig,
    n: nat,
)
    requires
        n <= logs.len(),
        logs.len() <= usize::MAX,
    ensures
        clusters_cover_logs(process_logs(Seq::empty(), logs, cfg, n), logs, cfg, n),
    decreases n,
{
    if n > 0 {
        law_templates_cover_their_logs(logs, cfg, (n - 1) as nat);
        lemma_step_covers(process_logs(Seq::empty(), logs, cfg, (n - 1) as nat), logs, cfg, (n - 1) as nat);
    }
}

/// The number of logs in all clusters together.
pub open spec fn total_logs(cl: Seq<ClusterView>) -> nat
    decreases cl.len(),
{
    if cl.len() == 0 {
        0
    } else {
        total_logs(cl.drop_last()) + cl.last().1.len()
    }
}

/// How many of the first `n` lines of `logs` have at least one token.
pub open spec fn lines_with_tokens(logs: Seq<Seq<char>>, cfg: PatternExtractionConfig, n: nat) -> nat
    decreases n,
{
    if n == 0 {
        0
    } else {
        lines_with_tokens(logs, cfg, (n - 1) as nat) + if log_tokens(
            logs[n - 1],
            cfg.min_field_length as nat,
        ).len() > 0 {
            1nat
        } else {
            0nat
        }
    }
}

/// Adding one log to one cluster adds one to the total.
proof fn lemma_total_logs_update(cl: Seq<ClusterView>, b: int, c: ClusterView)
    requires
        0 <= b < cl.len(),
        c.1.len() == cl[b].1.len() + 1,
    ensures
        total_logs(cl.update(b, c)) == total_logs(cl) + 1,
    decreases cl.len(),
{
    if b == cl.len() - 1 {
        assert(cl.update(b, c).drop_last() =~= cl.drop_last());
    } else {
        lemma_total_logs_update(cl.drop_last(), b, c);
        assert(cl.update(b, c).drop_last() =~= cl.drop_last().update(b, c));
    }
}

/// Law: after an extractor with no clusters has processed the first `n` lines of
/// `logs`, its clusters hold as many logs together as there were lines with at least
/// one token; a line without tokens joins no cluster.
pub proof fn law_every_line_counted_once(logs: Seq<Seq<char>>, cfg: PatternExtractionConfig, n: nat)
    requires
        n <= logs.len(),
    ensures
        total_logs(process_logs(Seq::empty(), logs, cfg, n)) == lines_with_tokens(logs, cfg, n),
    decreases n,
{
    if n > 0 {
        law_every_line_counted_once(logs, cfg, (n - 1) as nat);
        let cl = process_logs(Seq::empty(), logs, cfg, (n - 1) as nat);
        let toks = log_tokens(logs[n - 1], cfg.min_field_length as nat);
        if toks.len() > 0 {
            lemma_best_cluster_is_similar(cl, toks, cfg, cl.len());
            match best_cluster(cl, toks, cfg, cl.len()) {
                Some(b) => {
                    lemma_total_logs_update(
                        cl,
                        b,
                        (generalized_template(cl[b].0, toks), cl[b].1.push((n - 1) as usize)),
                    );
                },
                None => {
                    let next = cl.push((initial_template(toks), seq![(n - 1) as usize]));
                    assert(next.drop_last() =~= cl);
                },
            }
        }
    }
}

/// Whether log `id` is in one of the clusters.
pub open spec fn in_some_cluster(cl: Seq<ClusterView>, id: usize) -> bool {
    exists|c: int, k: int| 0 <= c < cl.len() && 0 <= k < cl[c].1.len() && cl[c].1[k] == id
}

/// One step keeps every log in some cluster, and puts the new line in one when it has
/// tokens.
proof fn lemma_step_keeps_members(
    cl: Seq<ClusterView>,
    id: usize,
    toks: Seq<Seq<char>>,
    cfg: PatternExtractionConfig,
    old_id: usize,
)
    requires
        in_some_cluster(cl, old_id) || (old_id == id && toks.len() > 0),
    ensures
        in_some_cluster(cluster_step(cl, id, toks, cfg), old_id),
{
    let next = cluster_step(cl, id, toks, cfg);
    lemma_best_cluster_is_similar(cl, toks, cfg, cl.len());
    if in_some_cluster(cl, old_id) {
        let (c, k) = choose|c: int, k: int|
            0 <= c < cl.len() && 0 <= k < cl[c].1.len() && cl[c].1[k] == old_id;
        if toks.len() > 0 {
            match best_cluster(cl, toks, cfg, cl.len()) {
                Some(b) => {
                    if c == b {
                        assert(next[c].1[k] == old_id);
                    } else {
                        assert(next[c] == cl[c]);
                    }
                },
                None => {
                    assert(next[c] == cl[c]);
                },
            }
        }
        assert(0 <= c < next.len() && 0 <= k < next[c].1.len() && next[c].1[k] == old_id);
    } else {
        match best_cluster(cl, toks, cfg, cl.len()) {
            Some(b) => {
                let k = cl[b].1.len() as int;
                assert(next[b].1[k] == id);
            },
            None => {
                let c = cl.len() as int;
                assert(next[c].1[0] == id);
            },
        }
    }
}

/// Law: after an extractor with no clusters has processed the first `n` lines of
/// `logs`, each of those lines that has at least one token is in some cluster.
pub proof fn law_every_line_with_tokens_clustered(
    logs: Seq<Seq<char>>,
    cfg: PatternExtractionConfig,
    n: nat,
    id: usize,
)
    requires
        n <= logs.len(),
        id < n,
        log_tokens(logs[id as int], cfg.min_field_length as nat).len() > 0,
    ensures
        in_some_cluster(process_logs(Seq::empty(), logs, cfg, n), id),
    decreases n,
{
    let cl = process_logs(Seq::empty(), logs, cfg, (n - 1) as nat);
    let toks = log_tokens(logs[n - 1], cfg.min_field_length as nat);
    if id == n - 1 {
        lemma_step_keeps_members(cl, (n - 1) as usize, toks, cfg, id);
    } else {
        law_every_line_with_tokens_clustered(logs, cfg, (n - 1) as nat, id);
        lemma_step_keeps_members(cl, (n - 1) as usize, toks, cfg, id);
    }
}

/// Law: the patterns reported are at most `max_clusters`, each for a cluster with at
/// least `min_cluster_size` logs, in the order in which the clusters were created.
pub proof fn law_report_limits(cl: Seq<ClusterView>, cfg: PatternExtractionConfig, n: nat)
    requires
        n <= cl.len(),
    ensures
        reported_indices(cl, cfg, n).len() <= cfg.max_clusters,
        forall|k: int|
            0 <= k < reported_indices(cl, cfg, n).len() ==> {
                let i = #[trigger] reported_indices(cl, cfg, n)[k];
                0 <= i < n && cl[i].1.len() >= cfg.min_cluster_size
            },
        forall|k: int, l: int|
            0 <= k < l < reported_indices(cl, cfg, n).len() ==> #[trigger] reported_indices(
                cl,
                cfg,
                n,
            )[k] < #[trigger] reported_indices(cl, cfg, n)[l],
    decreases n,
{
    if n > 0 {
        law_report_limits(cl, cfg, (n - 1) as nat);
    }
}

/// Law: the patterns that an extraction reports are at most `max_clusters`, and each
/// covers at least `min_cluster_size` logs.
pub proof fn law_reported_patterns_respect_limits(
    patterns: Seq<Pattern>,
    cl: Seq<ClusterView>,
    cfg: PatternExtractionConfig,
    logs: Seq<Seq<char>>,
)
    requires
        reports_describe(patterns, reported_indices(cl, cfg, cl.len()), cl, logs, cl.len() as int),
    ensures
        patterns.len() <= cfg.max_clusters,
        forall|k: int| 0 <= k < patterns.len() ==> (#[trigger] patterns[k]).frequency >= cfg.min_cluster_size,
{
    law_report_limits(cl, cfg, cl.len());
    let sel = reported_indices(cl, cfg, cl.len());
    assert forall|k: int| 0 <= k < patterns.len() implies (#[trigger] patterns[k]).frequency
        >= cfg.min_cluster_size by {
        let i = sel[k];
        assert(describes_cluster(patterns[k], i, cl[i], logs));
    }
}

/// A cluster of log lines.
struct LogCluster {
    template_tokens: Vec<String>,
    log_ids: Vec<usize>,
}

impl View for LogCluster {
    type V = ClusterView;

    closed spec fn view(&self) -> ClusterView {
        (views_of(self.template_tokens@), self.log_ids@)
    }
}

/// Clusters log lines into patterns.
pub struct PatternExtractor {
    config: PatternExtractionConfig,
    sdr: SdrRecognizer,
    clusters: Vec<LogCluster>,
}

impl View for PatternExtractor {
    type V = Seq<ClusterView>;

    closed spec fn view(&self) -> Seq<ClusterView> {
        self.clusters@.map_values(|c: LogCluster| c@)
    }
}

impl PatternExtractor {
    /// The settings of this extractor.
    pub closed spec fn config(&self) -> PatternExtractionConfig {
        self.config
    }

    /// An extractor with the given settings and no clusters.
    pub fn new(config: PatternExtractionConfig) -> (r: Self)
        ensures
            r.config() == config,
            r@ == Seq::<ClusterView>::empty(),
    {
        let r = PatternExtractor { config, sdr: SdrRecognizer::new(), clusters: Vec::new() };
        assert(r@ =~= Seq::<ClusterView>::empty());
        r
    }

    /// Clusters `logs`, line `i` under id `i`, on top of the clusters already found, and
    /// reports the clusters with at least `min_cluster_size` logs, at most
    /// `max_clusters` of them, in the order in which they were created.
    pub fn extract(&mut self, logs: &Vec<String>) -> (r: Vec<Pattern>)
        ensures
            final(self).config() == old(self).config(),
            final(self)@ == process_logs(old(self)@, views_of(logs@), old(self).config(), logs@.len()),
            reports_describe(
                r@,
                reported_indices(final(self)@, final(self).config(), final(self)@.len()),
                final(self)@,
                views_of(logs@),
                final(self)@.len() as int,
            ),
    {
        let n = logs.len();
        let ghost start = self@;
        for i in 0..n
            invariant
                n == logs@.len(),
                self.config() == old(self).config(),
                start == old(self)@,
                self@ == process_logs(start, views_of(logs@), self.config(), i as nat),
        {
            assert(views_of(logs@)[i as int] == logs@[i as int]@);
            self.process_log(i, logs[i].as_str());
        }
        self.clusters_to_patterns(logs)
    }

    /// Adds one log line to the clusters.
    fn process_log(&mut self, log_id: usize, log: &str)
        ensures
            final(self).config() == old(self).config(),
            final(self)@ == cluster_step(
                old(self)@,
                log_id,
                log_tokens(log@, old(self).config().min_field_length as nat),
                old(self).config(),
            ),
    {
        let tokens = self.tokenize(log);
        if tokens.len() == 0 {
            return;
        }
        let ghost toks = views_of(tokens@);
        let ghost before = self@;
        match self.search_cluster(&tokens) {
            Some(i) => {
                proof {
                    lemma_best_cluster_is_similar(before, toks, self.config(), before.len());
                }
                let mut cluster = LogCluster { template_tokens: Vec::new(), log_ids: Vec::new() };
                self.clusters.set_and_swap(i, &mut cluster);
                let template = self.generalize(&cluster.template_tokens, &tokens);
                let mut ids = cluster.log_ids;
                ids.push(log_id);
                let mut updated = LogCluster { template_tokens: template, log_ids: ids };
                self.clusters.set_and_swap(i, &mut updated);
                assert(self@ =~= before.update(
                    i as int,
                    (generalized_template(before[i as int].0, toks), before[i as int].1.push(log_id)),
                ));
            },
            None => {
                let template = self.initial_template(&tokens);
                let mut ids: Vec<usize> = Vec::new();
                ids.push(log_id);
                let cluster = LogCluster { template_tokens: template, log_ids: ids };
                assert(cluster@.1 =~= seq![log_id]);
                self.clusters.push(cluster);
                assert(self@ =~= before.push((initial_template(toks), seq![log_id])));
            },
        }
    }

    /// The tokens of a log line.
    fn tokenize(&self, log: &str) -> (r: Vec<String>)
        ensures
            views_of(r@) == log_tokens(log@, self.config().min_field_length as nat),
    {
        let ws = split_whitespace(log);
        let min_len = self.config.min_field_length;
        let ghost pred = long_enough(min_len as nat);
        let mut out: Vec<String> = Vec::new();
        let n = ws.len();
        for i in 0..n
            invariant
                n == ws@.len(),
                views_of(ws@) == words(log@),
                min_len == self.config().min_field_length,
                pred == long_enough(min_len as nat),
                views_of(out@) == views_of(ws@).take(i as int).filter(pred),
        {
            proof {
                lemma_filter_take_step(views_of(ws@), i as int, pred);
            }
            let w = copy_string(&ws[i]);
            let v = chars_of(w.as_str());
            if utf8_len_capped(&v, min_len) >= min_len {
                proof {
                    assert(views_of(out@.push(w)) =~= views_of(out@).push(w@));
                }
                out.push(w);
            }
        }
        assert(views_of(ws@).take(n as int) =~= views_of(ws@));
        out
    }

    /// The cluster that a line with the given non-empty tokens joins, if any.
    fn search_cluster(&self, tokens: &Vec<String>) -> (r: Option<usize>)
        requires
            tokens@.len() > 0,
        ensures
            match r {
                Some(i) => best_cluster(self@, views_of(tokens@), self.config(), self@.len())
                    == Some(i as int) && i < self@.len(),
                None => best_cluster(self@, views_of(tokens@), self.config(), self@.len()) is None,
            },
    {
        let ghost toks = views_of(tokens@);
        let num = self.config.similarity_num;
        let den = self.config.similarity_den;
        let len = tokens.len();
        let mut best: Option<usize> = None;
        let mut best_matches: usize = 0;
        let n = self.clusters.len();
        for idx in 0..n
            invariant
                n == self@.len(),
                len == toks.len(),
                toks == views_of(tokens@),
                num == self.config().similarity_num,
                den == self.config().similarity_den,
                match best {
                    Some(b) => best_cluster(self@, toks, self.config(), idx as nat) == Some(b as int)
                        && b < idx && best_matches == match_count(self@[b as int].0, toks, len as nat),
                    None => best_cluster(self@, toks, self.config(), idx as nat) is None,
                },
        {
            let cluster = &self.clusters[idx];
            assert(self@[idx as int] == cluster@);
            if cluster.template_tokens.len() == len {
                let m = count_matches(&cluster.template_tokens, tokens);
                assert((m as u128) * (den as u128) <= 0xffff_ffff_ffff_ffff_u128
                    * 0xffff_ffff_ffff_ffff_u128) by (nonlinear_arith)
                    requires
                        m <= 0xffff_ffff_ffff_ffff_u128,
                        den <= 0xffff_ffff_ffff_ffff_u128,
                ;
                assert((num as u128) * (len as u128) <= 0xffff_ffff_ffff_ffff_u128
                    * 0xffff_ffff_ffff_ffff_u128) by (nonlinear_arith)
                    requires
                        num <= 0xffff_ffff_ffff_ffff_u128,
                        len <= 0xffff_ffff_ffff_ffff_u128,
                ;
                let lhs: u128 = (m as u128) * (den as u128);
                let rhs: u128 = (num as u128) * (len as u128);
                if lhs >= rhs {
                    let better = match best {
                        None => true,
                        Some(_) => m > best_matches,
                    };
                    if better {
                        best = Some(idx);
                        best_matches = m;
                    }
                }
            }
        }
        best
    }

    /// The template after a line with tokens `tokens` joins a cluster with template
    /// `template`.
    fn generalize(&self, template: &Vec<String>, tokens: &Vec<String>) -> (r: Vec<String>)
        ensures
            views_of(r@) == generalized_template(views_of(template@), views_of(tokens@)),
    {
        let ghost goal = generalized_template(views_of(template@), views_of(tokens@));
        let mut out: Vec<String> = Vec::new();
        let n = template.len();
        let same_length = n == tokens.len();
        for i in 0..n
            invariant
                n == template@.len(),
                same_length == (n == tokens@.len()),
                goal == generalized_template(views_of(template@), views_of(tokens@)),
                views_of(out@) == goal.take(i as int),
        {
            let t = template[i].as_str();
            assert(views_of(template@)[i as int] == t@);
            let next = if same_length && !str_eq(t, tokens[i].as_str()) && !starts_with(t, "<:") {
                assert(views_of(tokens@)[i as int] == tokens@[i as int]@);
                self.sdr.recognize(tokens[i].as_str()).placeholder()
            } else {
                copy_string(&template[i])
            };
            proof {
                assert(goal[i as int] == next@);
                assert(views_of(out@.push(next)) =~= views_of(out@).push(next@));
                assert(goal.take(i + 1) =~= goal.take(i as int).push(goal[i as int]));
            }
            out.push(next);
        }
        assert(goal.take(n as int) =~= goal);
        out
    }

    /// The template of a new cluster for a line with tokens `tokens`.
    fn initial_template(&self, tokens: &Vec<String>) -> (r: Vec<String>)
        ensures
            views_of(r@) == initial_template(views_of(tokens@)),
    {
        let ghost goal = initial_template(views_of(tokens@));
        let mut out: Vec<String> = Vec::new();
        let n = tokens.len();
        for i in 0..n
            invariant
                n == tokens@.len(),
                goal == initial_template(views_of(tokens@)),
                views_of(out@) == goal.take(i as int),
        {
            let w = tokens[i].as_str();
            assert(views_of(tokens@)[i as int] == w@);
            let next = if self.sdr.is_variable(w) {
                self.sdr.recognize(w).placeholder()
            } else {
                copy_string(&tokens[i])
            };
            proof {
                assert(goal[i as int] == next@);
                assert(views_of(out@.push(next)) =~= views_of(out@).push(next@));
                assert(goal.take(i + 1) =~= goal.take(i as int).push(goal[i as int]));
            }
            out.push(next);
        }
        assert(goal.take(n as int) =~= goal);
        out
    }

    /// The patterns reported for the current clusters, with examples taken from `logs`.
    fn clusters_to_patterns(&self, logs: &Vec<String>) -> (r: Vec<Pattern>)
        ensures
            reports_describe(
                r@,
                reported_indices(self@, self.config(), self@.len()),
                self@,
                views_of(logs@),
                self@.len() as int,
            ),
    {
        let mut out: Vec<Pattern> = Vec::new();
        let n = self.clusters.len();
        let min_size = self.config.min_cluster_size;
        let max_count = self.config.max_clusters;
        for idx in 0..n
            invariant
                n == self@.len(),
                min_size == self.config().min_cluster_size,
                max_count == self.config().max_clusters,
                reports_describe(
                    out@,
                    reported_indices(self@, self.config(), idx as nat),
                    self@,
                    views_of(logs@),
                    idx as int,
                ),
        {
            let cluster = &self.clusters[idx];
            assert(self@[idx as int] == cluster@);
            let ghost prev = reported_indices(self@, self.config(), idx as nat);
            let ghost next = reported_indices(self@, self.config(), (idx + 1) as nat);
            if cluster.log_ids.len() >= min_size && out.len() < max_count {
                let p = cluster_pattern(idx, cluster, logs);
                assert(next == prev.push(idx as int));
                let ghost old_out = out@;
                out.push(p);
                assert forall|k: int| 0 <= k < out@.len() implies 0 <= #[trigger] next[k] < idx + 1
                    && describes_cluster(out@[k], next[k], self@[next[k]], views_of(logs@)) by {
                    if k < out@.len() - 1 {
                        assert(next[k] == prev[k]);
                        assert(out@[k] == old_out[k]);
                    }
                }
            } else {
                assert(next == prev);
            }
        }
        out
    }
}

/// Whether `out[k]` is the pattern of cluster `sel[k]` for every `k`, each index below
/// `bound`.
pub open spec fn reports_describe(
    out: Seq<Pattern>,
    sel: Seq<int>,
    cl: Seq<ClusterView>,
    logs: Seq<Seq<char>>,
    bound: int,
) -> bool {
    &&& out.len() == sel.len()
    &&& forall|k: int|
        0 <= k < out.len() ==> 0 <= #[trigger] sel[k] < bound && describes_cluster(
            out[k],
            sel[k],
            cl[sel[k]],
            logs,
        )
}

/// The pattern reported for cluster `cluster` at index `idx`.
fn cluster_pattern(idx: usize, cluster: &LogCluster, logs: &Vec<String>) -> (r: Pattern)
    ensures
        describes_cluster(r, idx as int, cluster@, views_of(logs@)),
{
    proof {
        reveal_strlit("p");
    }
    let template = join_with_spaces(&cluster.template_tokens);
    let pattern_id = concat2("p", usize_to_decimal(idx).as_str());
    let variables = extract_variables(&cluster.template_tokens);
    let examples = cluster_examples(&cluster.log_ids, logs);
    Pattern::new(pattern_id, template, cluster.log_ids.len()).with_variables(variables).with_examples(
        examples,
    )
}

/// The examples of a cluster: the lines of its first five ids that index `logs`.
fn cluster_examples(ids: &Vec<usize>, logs: &Vec<String>) -> (r: Vec<Example>)
    ensures
        r@.map_values(|e: Example| e.log_message@) == example_lines(first_ids(ids@), views_of(logs@)),
        forall|k: int|
            0 <= k < r@.len() ==> (#[trigger] r@[k]).variables@ == Map::<String, String>::empty(),
{
    let mut out: Vec<Example> = Vec::new();
    let count = if ids.len() < 5 { ids.len() } else { 5 };
    for j in 0..count
        invariant
            count <= ids@.len(),
            count <= 5,
            out@.map_values(|e: Example| e.log_message@) == example_lines(ids@.take(j as int), views_of(logs@)),
            forall|k: int|
                0 <= k < out@.len() ==> (#[trigger] out@[k]).variables@ == Map::<String, String>::empty(),
    {
        let id = ids[j];
        assert(ids@.take(j + 1).drop_last() =~= ids@.take(j as int));
        if id < logs.len() {
            let e = Example::new(copy_string(&logs[id]));
            assert(views_of(logs@)[id as int] == logs@[id as int]@);
            assert(out@.push(e).map_values(|e: Example| e.log_message@) =~= out@.map_values(
                |e: Example| e.log_message@,
            ).push(e.log_message@));
            out.push(e);
        }
    }
    assert(ids@.take(count as int) =~= first_ids(ids@));
    out
}

/// How many positions of a template match the tokens of a line of the same length.
fn count_matches(template: &Vec<String>, tokens: &Vec<String>) -> (m: usize)
    requires
        template@.len() == tokens@.len(),
    ensures
        m == match_count(views_of(template@), views_of(tokens@), tokens@.len()),
{
    let mut m: usize = 0;
    let n = tokens.len();
    for i in 0..n
        invariant
            n == tokens@.len(),
            n == template@.len(),
            m <= i,
            m == match_count(views_of(template@), views_of(tokens@), i as nat),
    {
        let t = template[i].as_str();
        let w = tokens[i].as_str();
        assert(views_of(template@)[i as int] == t@);
        assert(views_of(tokens@)[i as int] == w@);
        proof {
            reveal_strlit("<:");
            reveal_strlit("<*>");
        }
        if str_eq(t, w) || starts_with(t, "<:") || str_eq(t, "<*>") {
            m = m + 1;
        }
    }
    m
}

} // verus!
