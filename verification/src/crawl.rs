//! Assembly of the archive from one crawl.
//!
//! A crawl produces the seed's resource and, for each discovered dependent
//! URL, the outcome of one fetch. The archive holds exactly one record for
//! the seed, followed by one record for every dependent whose fetch succeeded
//! with a non-empty body, in discovery order; failed and empty dependents are
//! skipped without a trace.

use crate::extract::{dependents_spec, LinkAttrs};
use crate::fetch::{FetchError, FetchedResource, ResourceModel, classified_view};
use crate::record::{ArchiveRecord, RecordModel, build_record, record_of};
use vstd::prelude::*;

verus! {

/// The outcome of one dependent's fetch, seen mathematically.
pub type DepOutcome = Result<ResourceModel, FetchError>;

/// A dependent is archived exactly when its fetch succeeded and its body is
/// non-empty.
pub open spec fn keep_dep(d: DepOutcome) -> bool {
    d is Ok && d->Ok_0.bytes.len() > 0
}

/// What one dependent outcome adds to the archive.
pub open spec fn dep_contribution(d: DepOutcome) -> Seq<RecordModel> {
    if keep_dep(d) {
        seq![record_of(d->Ok_0)]
    } else {
        Seq::empty()
    }
}

/// The records of a sequence of dependent outcomes, in discovery order.
pub open spec fn dep_records(deps: Seq<DepOutcome>) -> Seq<RecordModel>
    decreases deps.len(),
{
    if deps.len() == 0 {
        Seq::empty()
    } else {
        dep_records(deps.drop_last()) + dep_contribution(deps.last())
    }
}

/// The whole archive of one crawl: the seed's record, then the dependents'.
pub open spec fn crawl_records(seed: ResourceModel, deps: Seq<DepOutcome>) -> Seq<RecordModel> {
    seq![record_of(seed)] + dep_records(deps)
}

/// A sequence of fetch outcomes, seen mathematically.
pub open spec fn deps_view(deps: Seq<Result<FetchedResource, FetchError>>) -> Seq<DepOutcome> {
    deps.map_values(|d: Result<FetchedResource, FetchError>| classified_view(d))
}

/// A sequence of records, seen mathematically.
pub open spec fn records_view(recs: Seq<ArchiveRecord>) -> Seq<RecordModel> {
    recs.map_values(|r: ArchiveRecord| r@)
}

/// Builds the archive of one crawl: the seed's record first, then one record
/// per kept dependent, in the order the dependents were discovered.
pub fn assemble_records(seed: FetchedResource, deps: Vec<Result<FetchedResource, FetchError>>) -> (r:
    Vec<ArchiveRecord>)
    requires
        seed@.url.len() > 0,
        seed@.bytes.len() > 0,
        forall|i: int|
            0 <= i < deps@.len() ==> (((#[trigger] deps@[i]) is Ok && deps@[i]->Ok_0.bytes@.len()
                > 0) ==> deps@[i]->Ok_0.url@.len() > 0),
    ensures
        records_view(r@) == crawl_records(seed@, deps_view(deps@)),
{
    let ghost orig = deps@;
    let ghost dv = deps_view(orig);
    let mut deps = deps;
    let mut out: Vec<ArchiveRecord> = Vec::new();
    let FetchedResource { url, bytes, content_type } = seed;
    out.push(build_record(url, bytes, content_type));
    proof {
        assert(records_view(out@) =~= seq![record_of(seed@)] + dep_records(dv.take(0)));
    }
    let ghost mut taken: int = 0;
    while deps.len() > 0
        invariant
            0 <= taken <= orig.len(),
            deps@ == orig.skip(taken),
            dv == deps_view(orig),
            records_view(out@) == seq![record_of(seed@)] + dep_records(dv.take(taken)),
            forall|i: int|
                0 <= i < orig.len() ==> (((#[trigger] orig[i]) is Ok && orig[i]->Ok_0.bytes@.len()
                    > 0) ==> orig[i]->Ok_0.url@.len() > 0),
        decreases deps@.len(),
    {
        let d = deps.remove(0);
        proof {
            assert(d == orig[taken]);
            assert(deps@ =~= orig.skip(taken + 1));
        }
        let ghost prev_out = out@;
        match d {
            Ok(res) => {
                if res.bytes.len() > 0 {
                    let FetchedResource { url, bytes, content_type } = res;
                    out.push(build_record(url, bytes, content_type));
                }
            },
            Err(_) => {},
        }
        proof {
            let t = taken;
            assert(dv[t] == classified_view(orig[t]));
            assert(dv.take(t + 1).drop_last() =~= dv.take(t));
            assert(dv.take(t + 1).last() == dv[t]);
            assert(records_view(out@) =~= records_view(prev_out) + dep_contribution(dv[t]));
            assert(records_view(out@) =~= seq![record_of(seed@)] + dep_records(dv.take(t + 1)));
            taken = taken + 1;
        }
    }
    proof {
        assert(dv.take(orig.len() as int) =~= dv);
    }
    out
}

/// Law: the archive's record order is a function of the crawl alone. Two
/// crawls of the same seed resource with the same dependent outcomes yield
/// the same records; the first record is always the seed's, and the rest are
/// the kept dependents' records in discovery order.
pub proof fn lemma_crawl_order(
    seed: ResourceModel,
    deps: Seq<DepOutcome>,
    seed2: ResourceModel,
    deps2: Seq<DepOutcome>,
)
    requires
        seed2 == seed,
        deps2 == deps,
    ensures
        crawl_records(seed, deps) == crawl_records(seed2, deps2),
        crawl_records(seed, deps).len() == 1 + dep_records(deps).len(),
        crawl_records(seed, deps)[0] == record_of(seed),
        crawl_records(seed, deps).skip(1) == dep_records(deps),
{
    assert(crawl_records(seed, deps).skip(1) =~= dep_records(deps));
}

/// Concatenating two dependent sequences concatenates their records.
pub proof fn lemma_dep_records_concat(a: Seq<DepOutcome>, b: Seq<DepOutcome>)
    ensures
        dep_records(a + b) == dep_records(a) + dep_records(b),
    decreases b.len(),
{
    if b.len() == 0 {
        assert(a + b =~= a);
        assert(dep_records(a) + dep_records(b) =~= dep_records(a));
    } else {
        assert((a + b).drop_last() =~= a + b.drop_last());
        assert((a + b).last() == b.last());
        lemma_dep_records_concat(a, b.drop_last());
        assert(dep_records(a) + dep_records(b) =~= dep_records(a) + dep_records(b.drop_last())
            + dep_contribution(b.last()));
    }
}

/// A sequence of dependents that are all kept yields one record each, in
/// place.
pub proof fn lemma_dep_records_all_kept(deps: Seq<DepOutcome>)
    requires
        forall|i: int| 0 <= i < deps.len() ==> keep_dep(#[trigger] deps[i]),
    ensures
        dep_records(deps).len() == deps.len(),
        forall|i: int|
            0 <= i < deps.len() ==> dep_records(deps)[i] == record_of((#[trigger] deps[i])->Ok_0),
    decreases deps.len(),
{
    if deps.len() > 0 {
        let pre = deps.drop_last();
        assert(forall|i: int| 0 <= i < pre.len() ==> pre[i] == #[trigger] deps[i]);
        lemma_dep_records_all_kept(pre);
        assert(forall|i: int|
            0 <= i < pre.len() ==> dep_records(deps)[i] == record_of((#[trigger] deps[i])->Ok_0));
    }
}

/// Law: when every discovered dependent is reachable with a non-empty body,
/// the archive lists the seed's URL first and then exactly the discovered
/// URLs, one record each, in the order discovery produced them — the `link`
/// references in document order, then the `img` references in document
/// order.
pub proof fn lemma_crawl_archives_discovery(
    seed: ResourceModel,
    scheme: Seq<char>,
    host: Seq<char>,
    links: Seq<LinkAttrs>,
    imgs: Seq<Option<Seq<char>>>,
    deps: Seq<DepOutcome>,
)
    requires
        deps.len() == dependents_spec(scheme, host, links, imgs).len(),
        forall|i: int| 0 <= i < deps.len() ==> keep_dep(#[trigger] deps[i]),
        forall|i: int|
            0 <= i < deps.len() ==> (#[trigger] deps[i])->Ok_0.url == dependents_spec(
                scheme,
                host,
                links,
                imgs,
            )[i],
    ensures
        crawl_records(seed, deps).len() == 1 + deps.len(),
        crawl_records(seed, deps)[0] == record_of(seed),
        forall|i: int|
            0 <= i < deps.len() ==> (#[trigger] crawl_records(seed, deps)[i + 1]).target_uri
                == dependents_spec(scheme, host, links, imgs)[i],
{
    lemma_dep_records_all_kept(deps);
    assert forall|i: int|
        0 <= i < deps.len() implies (#[trigger] crawl_records(seed, deps)[i + 1]).target_uri
            == dependents_spec(scheme, host, links, imgs)[i] by {
        assert(crawl_records(seed, deps)[i + 1] == dep_records(deps)[i]);
        assert(dep_records(deps)[i] == record_of(deps[i]->Ok_0));
        assert(deps[i]->Ok_0.url == dependents_spec(scheme, host, links, imgs)[i]);
    }
}

/// Law: a dependent that is not kept — its fetch failed or its body is empty
/// — leaves no trace: the archive equals the archive of the crawl without
/// it. When every other dependent is kept, the archive holds exactly one
/// record fewer than the number of dependents discovered, plus the seed's.
pub proof fn lemma_skip_semantics(seed: ResourceModel, deps: Seq<DepOutcome>, k: int)
    requires
        0 <= k < deps.len(),
        !keep_dep(deps[k]),
    ensures
        crawl_records(seed, deps) == crawl_records(seed, deps.remove(k)),
        (forall|i: int| 0 <= i < deps.len() && i != k ==> keep_dep(#[trigger] deps[i]))
            ==> crawl_records(seed, deps).len() == deps.len(),
{
    let a = deps.take(k);
    let b = deps.skip(k + 1);
    assert(deps =~= a + (seq![deps[k]] + b));
    assert(deps.remove(k) =~= a + b);
    lemma_dep_records_concat(a, seq![deps[k]] + b);
    lemma_dep_records_concat(seq![deps[k]], b);
    lemma_dep_records_concat(a, b);
    let s = seq![deps[k]];
    assert(s.drop_last() =~= Seq::<DepOutcome>::empty());
    assert(dep_records(s.drop_last()) =~= Seq::<RecordModel>::empty());
    assert(s.last() == deps[k]);
    assert(dep_records(s) == dep_records(s.drop_last()) + dep_contribution(s.last()));
    assert(dep_records(s) =~= dep_contribution(deps[k]));
    assert(dep_records(deps) =~= dep_records(deps.remove(k)));
    if forall|i: int| 0 <= i < deps.len() && i != k ==> keep_dep(#[trigger] deps[i]) {
        assert(forall|i: int| 0 <= i < a.len() ==> keep_dep(#[trigger] a[i]));
        assert(forall|i: int| 0 <= i < b.len() ==> keep_dep(#[trigger] b[i]));
        lemma_dep_records_all_kept(a);
        lemma_dep_records_all_kept(b);
    }
}

/// Law: no crawl emits a partial record. When the seed's record is well
/// formed and every kept dependent carries a URL, every record of the
/// archive is a resource record with a non-empty target and a non-empty
/// payload.
pub proof fn lemma_records_well_formed(seed: ResourceModel, deps: Seq<DepOutcome>)
    requires
        record_of(seed).well_formed(),
        forall|i: int|
            0 <= i < deps.len() && keep_dep(#[trigger] deps[i]) ==> deps[i]->Ok_0.url.len() > 0,
    ensures
        forall|j: int|
            0 <= j < crawl_records(seed, deps).len() ==> (#[trigger] crawl_records(seed, deps)[j]).well_formed(),
{
    lemma_dep_records_well_formed(deps);
}

/// Every dependent record of a crawl is well formed.
proof fn lemma_dep_records_well_formed(deps: Seq<DepOutcome>)
    requires
        forall|i: int|
            0 <= i < deps.len() && keep_dep(#[trigger] deps[i]) ==> deps[i]->Ok_0.url.len() > 0,
    ensures
        forall|j: int|
            0 <= j < dep_records(deps).len() ==> (#[trigger] dep_records(deps)[j]).well_formed(),
    decreases deps.len(),
{
    if deps.len() > 0 {
        let pre = deps.drop_last();
        assert(forall|i: int| 0 <= i < pre.len() ==> pre[i] == #[trigger] deps[i]);
        lemma_dep_records_well_formed(pre);
        let recs = dep_records(deps);
        assert forall|j: int| 0 <= j < recs.len() implies recs[j].well_formed() by {
            if j < dep_records(pre).len() {
                assert(recs[j] == dep_records(pre)[j]);
            } else {
                assert(keep_dep(deps[deps.len() - 1]));
                assert(recs[j] == record_of(deps.last()->Ok_0));
            }
        }
    }
}

} // verus!
