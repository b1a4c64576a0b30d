use vstd::prelude::*;

use crate::gateway::read_body;
use crate::ident::uuid_parse;
use crate::log_store::{concat_all, occurs_in, HashMapLogger};
use crate::message_store::{join, payload_text, VecStoreGetter, MESSAGE_SEPARATOR};
use vstd::utf8::{encode_utf8, encode_utf8_decode_utf8, encode_utf8_valid_utf8};
use crate::write_path::{next_phase, next_step_kind, EventKind, StepKind, WriteOutcome, WritePhase};

verus! {

/// The phase reached from `p` after events of kinds `ks`.
pub open spec fn run_phase(p: WritePhase, ks: Seq<EventKind>) -> WritePhase
    decreases ks.len(),
{
    if ks.len() == 0 {
        p
    } else {
        next_phase(run_phase(p, ks.drop_last()), ks.last())
    }
}

/// The kinds of the steps asked for from `p` on events of kinds `ks`.
pub open spec fn run_steps(p: WritePhase, ks: Seq<EventKind>) -> Seq<StepKind>
    decreases ks.len(),
{
    if ks.len() == 0 {
        Seq::empty()
    } else {
        run_steps(p, ks.drop_last()).push(next_step_kind(run_phase(p, ks.drop_last()), ks.last()))
    }
}

/// How many successful answers `steps` holds.
pub open spec fn successes(steps: Seq<StepKind>) -> nat
    decreases steps.len(),
{
    if steps.len() == 0 {
        0
    } else {
        successes(steps.drop_last()) + if steps.last() == StepKind::FinishOk {
            1nat
        } else {
            0nat
        }
    }
}

proof fn lemma_steps_len(p: WritePhase, ks: Seq<EventKind>)
    ensures
        run_steps(p, ks).len() == ks.len(),
    decreases ks.len(),
{
    if ks.len() > 0 {
        lemma_steps_len(p, ks.drop_last());
    }
}

/// A request whose publish fails never commits its transaction: after the
/// failure it asks for an abort, never for a commit, never answers with
/// success, and ends with nothing committed to the broker.
pub proof fn lemma_failed_publish_never_commits(ks: Seq<EventKind>)
    ensures
        run_phase(WritePhase::Publishing, seq![EventKind::BrokerFailed] + ks) == (if ks.len() == 0 {
            WritePhase::Aborting
        } else {
            WritePhase::Finished(WriteOutcome::Neither)
        }),
        forall|i: int|
            0 <= i < ks.len() + 1 ==> #[trigger] run_steps(
                WritePhase::Publishing,
                seq![EventKind::BrokerFailed] + ks,
            )[i] != StepKind::Commit && run_steps(
                WritePhase::Publishing,
                seq![EventKind::BrokerFailed] + ks,
            )[i] != StepKind::FinishOk,
    decreases ks.len(),
{
    let all = seq![EventKind::BrokerFailed] + ks;
    if ks.len() == 0 {
        assert(all.drop_last() =~= Seq::<EventKind>::empty());
        assert(all.len() == 1 && all.last() == EventKind::BrokerFailed);
        assert(run_phase(WritePhase::Publishing, all.drop_last()) == WritePhase::Publishing);
        assert(run_steps(WritePhase::Publishing, all.drop_last()) =~= Seq::<StepKind>::empty());
        assert(run_steps(WritePhase::Publishing, all) =~= seq![StepKind::Abort]);
    } else {
        lemma_failed_publish_never_commits(ks.drop_last());
        assert(all.drop_last() =~= seq![EventKind::BrokerFailed] + ks.drop_last());
        let steps = run_steps(WritePhase::Publishing, all);
        let prev = run_steps(WritePhase::Publishing, all.drop_last());
        lemma_steps_len(WritePhase::Publishing, all.drop_last());
        assert(steps == prev.push(next_step_kind(run_phase(WritePhase::Publishing, all.drop_last()), all.last())));
        assert forall|i: int| 0 <= i < ks.len() + 1 implies #[trigger] steps[i] != StepKind::Commit
            && steps[i] != StepKind::FinishOk by {
            if i < ks.len() {
                assert(steps[i] == prev[i]);
            }
        }
    }
}

/// Each write request answers for itself: whatever events it gets, it
/// answers with success at most once, it does so exactly when it ends with
/// both the broker transaction and the direct write committed, and only
/// after the broker acknowledged the commit of its own transaction.
pub proof fn lemma_success_matches_commit(ks: Seq<EventKind>)
    ensures
        successes(run_steps(WritePhase::Beginning, ks)) <= 1,
        successes(run_steps(WritePhase::Beginning, ks)) == 1 <==> run_phase(
            WritePhase::Beginning,
            ks,
        ) == WritePhase::Finished(WriteOutcome::BothCommitted),
        run_phase(WritePhase::Beginning, ks) == WritePhase::Finished(WriteOutcome::BothCommitted)
            ==> exists|i: int|
            0 <= i < ks.len() && run_phase(WritePhase::Beginning, ks.take(i))
                == WritePhase::Committing && #[trigger] ks[i] == EventKind::BrokerOk,
    decreases ks.len(),
{
    if ks.len() > 0 {
        let pre = ks.drop_last();
        lemma_success_matches_commit(pre);
        let p = run_phase(WritePhase::Beginning, pre);
        assert(ks.take(ks.len() - 1) =~= pre);
        assert(run_steps(WritePhase::Beginning, ks).drop_last() =~= run_steps(WritePhase::Beginning, pre));
        if p == WritePhase::Finished(WriteOutcome::BothCommitted) {
            let i = choose|i: int|
                0 <= i < pre.len() && run_phase(WritePhase::Beginning, pre.take(i))
                    == WritePhase::Committing && #[trigger] pre[i] == EventKind::BrokerOk;
            assert(ks.take(i) =~= pre.take(i));
        }
        if p == WritePhase::Logging {
            // Logging is entered only from a committed transaction.
            assert(pre.len() > 0);
            let q = run_phase(WritePhase::Beginning, pre.drop_last());
            assert(pre.take(pre.len() - 1) =~= pre.drop_last());
            assert(ks.take(pre.len() - 1) =~= pre.drop_last());
            assert(q == WritePhase::Committing && pre.last() == EventKind::BrokerOk);
            assert(ks[pre.len() - 1] == EventKind::BrokerOk);
        }
    }
}

/// What the write path hands to the direct-write store can be read back:
/// once the store has taken the body under the identifier, a read of the
/// store holds that body.
pub proof fn lemma_write_durability(
    before: HashMapLogger,
    after: HashMapLogger,
    uuid: Seq<char>,
    id: u128,
    body: Seq<char>,
)
    requires
        before.wf(),
        after.wf(),
        uuid_parse(uuid) == Some(id),
        after@ == before@.insert(uuid_parse(uuid).unwrap(), body),
    ensures
        after@[id] == body,
        occurs_in(body, concat_all(after.bodies())),
{
    after.lemma_read_holds(id);
}

/// Writing one identifier twice keeps the second body, under a single key.
pub proof fn lemma_last_write_wins(
    s0: HashMapLogger,
    s1: HashMapLogger,
    s2: HashMapLogger,
    id: u128,
    first: Seq<char>,
    second: Seq<char>,
)
    requires
        s1@ == s0@.insert(id, first),
        s2@ == s1@.insert(id, second),
    ensures
        s2@[id] == second,
        s2@.dom() == s1@.dom(),
        s2@ == s0@.insert(id, second),
{
    assert(s2@ =~= s0@.insert(id, second));
}

/// The broker-consuming store keeps every delivery: two records with the
/// same identifier leave two entries, in the order of delivery.
pub proof fn lemma_no_dedup(
    s0: VecStoreGetter,
    s1: VecStoreGetter,
    s2: VecStoreGetter,
    first: Seq<char>,
    second: Seq<char>,
)
    requires
        s1@ == s0@.push(first),
        s2@ == s1@.push(second),
    ensures
        s2@.len() == s0@.len() + 2,
        s2@[s0@.len() as int] == first,
        s2@[s0@.len() + 1int] == second,
        s2@.subrange(0, s0@.len() as int) == s0@,
{
    assert(s2@.subrange(0, s0@.len() as int) =~= s0@);
}

/// A published body comes back whole from the broker side: a record whose
/// payload is the UTF-8 encoding of the body is recorded as that body, and a
/// read of the broker-consuming store holds it.
pub proof fn lemma_consumed_durability(before: VecStoreGetter, after: VecStoreGetter, body: Seq<char>)
    requires
        after@ == before@.push(payload_text(Some(encode_utf8(body)))),
    ensures
        after@.last() == body,
        occurs_in(body, join(after@, MESSAGE_SEPARATOR@)),
{
    encode_utf8_valid_utf8(body);
    encode_utf8_decode_utf8(body);
    lemma_join_contains(after@, MESSAGE_SEPARATOR@, after@.len() - 1);
}

proof fn lemma_occurs_trans(a: Seq<char>, b: Seq<char>, c: Seq<char>)
    requires
        occurs_in(a, b),
        occurs_in(b, c),
    ensures
        occurs_in(a, c),
{
    let i = choose|i: int| 0 <= i <= b.len() - a.len() && #[trigger] b.subrange(i, i + a.len()) == a;
    let j = choose|j: int| 0 <= j <= c.len() - b.len() && #[trigger] c.subrange(j, j + b.len()) == b;
    assert(c.subrange(j + i, j + i + a.len()) =~= b.subrange(i, i + a.len()));
}

proof fn lemma_join_contains(parts: Seq<Seq<char>>, sep: Seq<char>, i: int)
    requires
        0 <= i < parts.len(),
    ensures
        occurs_in(parts[i], join(parts, sep)),
    decreases parts.len(),
{
    let c = join(parts, sep);
    if parts.len() == 1 {
        assert(c.subrange(0int, 0int + parts[i].len()) =~= parts[i]);
    } else {
        let d = join(parts.drop_last(), sep);
        if i == parts.len() - 1 {
            let k = (d.len() + sep.len()) as int;
            assert(c.subrange(k, k + parts[i].len()) =~= parts[i]);
        } else {
            lemma_join_contains(parts.drop_last(), sep, i);
            let j = choose|j: int| 0 <= j <= d.len() - parts[i].len() && #[trigger] d.subrange(j, j + parts[i].len()) == parts.drop_last()[i];
            assert(c.subrange(j, j + parts[i].len()) =~= d.subrange(j, j + parts[i].len()));
        }
    }
}

/// A read holds every body of both stores: each consumed message, within
/// the separated sequence under its heading, and each directly written one,
/// within the logged text under its heading.
pub proof fn lemma_read_holds_everything(sequence: Seq<Seq<char>>, logged: Seq<Seq<char>>)
    ensures
        forall|i: int| 0 <= i < sequence.len() ==> occurs_in(
            #[trigger] sequence[i],
            read_body(join(sequence, MESSAGE_SEPARATOR@), concat_all(logged)),
        ),
        forall|i: int| 0 <= i < logged.len() ==> occurs_in(
            #[trigger] logged[i],
            read_body(join(sequence, MESSAGE_SEPARATOR@), concat_all(logged)),
        ),
{
    let s = join(sequence, MESSAGE_SEPARATOR@);
    let l = concat_all(logged);
    let body = read_body(s, l);
    let h1 = "Message sequence:\n"@;
    let h2 = "\nLogged messages:\n"@;
    assert(body.subrange(h1.len() as int, (h1.len() + s.len()) as int) =~= s);
    assert(occurs_in(s, body));
    let off = (h1.len() + s.len() + h2.len()) as int;
    assert(body.subrange(off, (off + l.len()) as int) =~= l);
    assert(occurs_in(l, body));
    assert forall|i: int| 0 <= i < sequence.len() implies occurs_in(#[trigger] sequence[i], body) by {
        lemma_join_contains(sequence, MESSAGE_SEPARATOR@, i);
        lemma_occurs_trans(sequence[i], s, body);
    }
    assert forall|i: int| 0 <= i < logged.len() implies occurs_in(#[trigger] logged[i], body) by {
        crate::log_store::lemma_concat_contains(logged, i);
        lemma_occurs_trans(logged[i], l, body);
    }
}

} // verus!
