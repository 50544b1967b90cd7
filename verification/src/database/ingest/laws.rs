//! What holds of every ingestion, whatever the store replies.

use crate::database::ingest::{
    empty_path_error, insert_statement, settle, to_insert, IngestionView, Phase, ReplyView,
};
use crate::database::operations::AddItemsResultView;
use crate::database::statement::ParameterView;
use vstd::prelude::*;

verus! {

/// The state after the store's `replies`, taken one after the other.
pub open spec fn run(state: IngestionView, replies: Seq<ReplyView>) -> IngestionView
    decreases replies.len(),
{
    if replies.len() == 0 {
        state
    } else {
        run(state.resume(replies[0]), replies.skip(1))
    }
}

/// `shorter` is how `longer` begins.
pub open spec fn begins<T>(longer: Seq<T>, shorter: Seq<T>) -> bool {
    shorter.len() <= longer.len() && longer.take(shorter.len() as int) == shorter
}

/// Coming to rest asks nothing of the store for a candidate that does not
/// need it, and passes over no candidate that does. It stops at the first
/// candidate from `cursor` on that is to be inserted, or at the end; what it
/// passed over is recorded in `errors` or was reported by the store; the ids
/// and the duplicates stay as they were.
pub proof fn lemma_settle(paths: Seq<Seq<char>>, cursor: int, result: AddItemsResultView)
    requires
        0 <= cursor <= paths.len(),
    ensures
        ({
            let rest = settle(paths, cursor, result);
            &&& rest.sound()
            &&& rest.paths == paths
            &&& cursor <= rest.cursor
            &&& forall|i: int| cursor <= i < rest.cursor ==> !to_insert(result.duplicates, paths[i])
            &&& rest.phase != Phase::Lookup
            &&& rest.result.success == result.success
            &&& rest.result.duplicates == result.duplicates
            &&& begins(rest.result.errors, result.errors)
        }),
    decreases paths.len() - cursor,
{
    assert(result.errors.take(result.errors.len() as int) =~= result.errors);
    if cursor < paths.len() {
        if result.duplicates.contains(paths[cursor]) {
            lemma_settle(paths, cursor + 1, result);
        } else if paths[cursor].len() == 0 {
            let recorded = result.with_error(paths[cursor], empty_path_error());
            lemma_settle(paths, cursor + 1, recorded);
            let rest = settle(paths, cursor + 1, recorded);
            assert(rest.result.errors.take(result.errors.len() as int) =~= rest.result.errors.take(
                recorded.errors.len() as int,
            ).take(result.errors.len() as int));
            assert(recorded.errors.take(result.errors.len() as int) =~= result.errors);
        }
    }
}

/// No reply leads out of the sound states, and none changes the batch.
pub proof fn lemma_resume_is_sound(state: IngestionView, reply: ReplyView)
    requires
        state.sound(),
    ensures
        state.resume(reply).sound(),
        state.resume(reply).paths == state.paths,
{
    match (state.phase, reply) {
        (Phase::Lookup, ReplyView::Paths(existing)) => {
            lemma_settle(
                state.paths,
                0,
                AddItemsResultView { duplicates: existing, ..state.result },
            );
        },
        (Phase::Insert, ReplyView::Id(id)) => {
            lemma_settle(state.paths, state.cursor + 1, state.result.with_success(id));
        },
        (Phase::Insert, ReplyView::Failure(message)) => {
            lemma_settle(
                state.paths,
                state.cursor + 1,
                state.result.with_error(state.paths[state.cursor], message),
            );
        },
        _ => {},
    }
}

/// Each candidate is asked of the store at most once: the reply to an
/// insertion, whichever it is, moves the cursor on, and the cursor never
/// moves back.
pub proof fn lemma_cursor_moves_on(state: IngestionView, reply: ReplyView)
    requires
        state.sound(),
    ensures
        state.cursor <= state.resume(reply).cursor,
        state.phase == Phase::Insert && !(reply is Paths) ==> state.cursor < state.resume(
            reply,
        ).cursor,
{
    match (state.phase, reply) {
        (Phase::Lookup, ReplyView::Paths(existing)) => {
            lemma_settle(
                state.paths,
                0,
                AddItemsResultView { duplicates: existing, ..state.result },
            );
        },
        (Phase::Insert, ReplyView::Id(id)) => {
            lemma_settle(state.paths, state.cursor + 1, state.result.with_success(id));
        },
        (Phase::Insert, ReplyView::Failure(message)) => {
            lemma_settle(
                state.paths,
                state.cursor + 1,
                state.result.with_error(state.paths[state.cursor], message),
            );
        },
        _ => {},
    }
}

/// Once the lookup is answered, a reply changes no duplicate and drops
/// nothing that is recorded: the ids and the errors only grow at their ends.
pub proof fn lemma_resume_keeps(state: IngestionView, reply: ReplyView)
    requires
        state.sound(),
        state.phase != Phase::Lookup,
    ensures
        ({
            let next = state.resume(reply);
            &&& next.phase != Phase::Lookup
            &&& next.result.duplicates == state.result.duplicates
            &&& begins(next.result.success, state.result.success)
            &&& begins(next.result.errors, state.result.errors)
        }),
{
    let success = state.result.success;
    let errors = state.result.errors;
    assert(success.take(success.len() as int) =~= success);
    assert(errors.take(errors.len() as int) =~= errors);
    match (state.phase, reply) {
        (Phase::Insert, ReplyView::Id(id)) => {
            let recorded = state.result.with_success(id);
            lemma_settle(state.paths, state.cursor + 1, recorded);
            assert(recorded.success.take(success.len() as int) =~= success);
        },
        (Phase::Insert, ReplyView::Failure(message)) => {
            let recorded = state.result.with_error(state.paths[state.cursor], message);
            lemma_settle(state.paths, state.cursor + 1, recorded);
            assert(recorded.errors.take(errors.len() as int) =~= errors);
            lemma_begins_chain(state.resume(reply).result.errors, recorded.errors, errors);
        },
        _ => {},
    }
}

/// Once the lookup is answered, the duplicates are fixed and what is
/// recorded is kept, whatever the store replies from then on.
pub proof fn lemma_run_keeps(state: IngestionView, replies: Seq<ReplyView>)
    requires
        state.sound(),
        state.phase != Phase::Lookup,
    ensures
        ({
            let end = run(state, replies);
            &&& end.sound()
            &&& end.phase != Phase::Lookup
            &&& end.paths == state.paths
            &&& end.result.duplicates == state.result.duplicates
            &&& begins(end.result.success, state.result.success)
            &&& begins(end.result.errors, state.result.errors)
        }),
    decreases replies.len(),
{
    assert(state.result.success.take(state.result.success.len() as int) =~= state.result.success);
    assert(state.result.errors.take(state.result.errors.len() as int) =~= state.result.errors);
    if replies.len() > 0 {
        let next = state.resume(replies[0]);
        lemma_resume_is_sound(state, replies[0]);
        lemma_resume_keeps(state, replies[0]);
        lemma_run_keeps(next, replies.skip(1));
        let end = run(next, replies.skip(1));
        lemma_begins_chain(end.result.success, next.result.success, state.result.success);
        lemma_begins_chain(end.result.errors, next.result.errors, state.result.errors);
    }
}

/// What begins the beginning of a sequence begins the sequence.
proof fn lemma_begins_chain<T>(long: Seq<T>, middle: Seq<T>, short: Seq<T>)
    requires
        begins(long, middle),
        begins(middle, short),
    ensures
        begins(long, short),
{
    assert(long.take(short.len() as int) =~= long.take(middle.len() as int).take(
        short.len() as int,
    ));
}

/// A path that the store reports is a duplicate, and the store is never
/// asked to insert it: not in the state after the lookup, and in no state
/// after it, whatever the batch holds besides and whatever the store replies.
pub proof fn lemma_reported_path_is_never_inserted(
    paths: Seq<Seq<char>>,
    existing: Seq<Seq<char>>,
    replies: Seq<ReplyView>,
    path: Seq<char>,
)
    requires
        paths.len() > 0,
        existing.contains(path),
    ensures
        ({
            let end = run(IngestionView::begin(paths).resume(ReplyView::Paths(existing)), replies);
            &&& end.result.duplicates == existing
            &&& end.result.duplicates.contains(path)
            &&& end.phase == Phase::Insert ==> end.paths[end.cursor] != path
            &&& end.request() != Some(insert_statement(path))
        }),
{
    let begun = IngestionView::begin(paths);
    let looked = begun.resume(ReplyView::Paths(existing));
    lemma_settle(paths, 0, AddItemsResultView { duplicates: existing, ..begun.result });
    lemma_run_keeps(looked, replies);
    let end = run(looked, replies);
    if end.phase == Phase::Insert {
        let asked = insert_statement(end.paths[end.cursor]);
        assert(asked.parameters[0] == ParameterView::Text(end.paths[end.cursor]));
        assert(insert_statement(path).parameters[0] == ParameterView::Text(path));
    } else if end.phase == Phase::Lookup {
    } else {
    }
}

/// An id that the store gives for an insertion is recorded, and stays
/// recorded at its place, whatever the store replies afterwards.
pub proof fn lemma_accepted_path_is_recorded(
    state: IngestionView,
    id: i64,
    replies: Seq<ReplyView>,
)
    requires
        state.sound(),
        state.phase == Phase::Insert,
    ensures
        ({
            let end = run(state.resume(ReplyView::Id(id)), replies);
            &&& state.result.success.len() < end.result.success.len()
            &&& end.result.success[state.result.success.len() as int] == id
            &&& begins(end.result.success, state.result.success)
        }),
{
    let next = state.resume(ReplyView::Id(id));
    lemma_resume_is_sound(state, ReplyView::Id(id));
    lemma_settle(state.paths, state.cursor + 1, state.result.with_success(id));
    lemma_run_keeps(next, replies);
    let end = run(next, replies);
    let recorded = state.result.success.push(id);
    assert(end.result.success.take(recorded.len() as int)[state.result.success.len() as int]
        == id);
    assert(recorded.take(state.result.success.len() as int) =~= state.result.success);
    lemma_begins_chain(end.result.success, recorded, state.result.success);
}

/// Ingesting a path twice. The first time the store holds nothing of it and
/// gives the id `id` for it: the ingestion ends with that id as its one
/// success. The second time, in whatever batch `again` the path comes and
/// whatever the store replies, the store reports the path: it is a
/// duplicate, and the store is not asked to insert it.
pub proof fn lemma_ingesting_twice(
    path: Seq<char>,
    id: i64,
    again: Seq<Seq<char>>,
    existing: Seq<Seq<char>>,
    replies: Seq<ReplyView>,
)
    requires
        path.len() > 0,
        again.contains(path),
        existing.contains(path),
    ensures
        ({
            let first = IngestionView::begin(seq![path]).resume(
                ReplyView::Paths(Seq::empty()),
            ).resume(ReplyView::Id(id));
            &&& first.phase == Phase::Finished
            &&& first.result == AddItemsResultView {
                success: seq![id],
                duplicates: Seq::empty(),
                errors: Seq::empty(),
            }
        }),
        ({
            let second = run(
                IngestionView::begin(again).resume(ReplyView::Paths(existing)),
                replies,
            );
            &&& second.result.duplicates.contains(path)
            &&& second.request() != Some(insert_statement(path))
        }),
{
    let batch = seq![path];
    let looked = IngestionView::begin(batch).resume(ReplyView::Paths(Seq::empty()));
    let nothing = AddItemsResultView {
        success: Seq::empty(),
        duplicates: Seq::empty(),
        errors: Seq::empty(),
    };
    assert(!Seq::<Seq<char>>::empty().contains(path));
    assert(looked == IngestionView { paths: batch, cursor: 0, phase: Phase::Insert, result: nothing });
    let first = looked.resume(ReplyView::Id(id));
    assert(first.result.success =~= seq![id]);
    lemma_reported_path_is_never_inserted(again, existing, replies, path);
}

/// How many of the first `upto` candidates the store reported.
pub open spec fn reported(paths: Seq<Seq<char>>, existing: Seq<Seq<char>>, upto: int) -> int
    decreases upto,
{
    if upto <= 0 {
        0
    } else if existing.contains(paths[upto - 1]) {
        reported(paths, existing, upto - 1) + 1
    } else {
        reported(paths, existing, upto - 1)
    }
}

/// Every candidate behind the cursor is accounted for once, and in one way:
/// it gave an id, or it is recorded as an error, or the store reported it.
pub open spec fn accounted(state: IngestionView) -> bool {
    state.result.success.len() + state.result.errors.len() + reported(
        state.paths,
        state.result.duplicates,
        state.cursor,
    ) == state.cursor
}

/// Where the store reported nothing, no candidate counts as reported.
proof fn lemma_nothing_reported(paths: Seq<Seq<char>>, upto: int)
    ensures
        reported(paths, Seq::empty(), upto) == 0,
    decreases upto,
{
    if upto > 0 {
        lemma_nothing_reported(paths, upto - 1);
    }
}

/// Coming to rest accounts for every candidate that it passes over.
proof fn lemma_settle_accounts(paths: Seq<Seq<char>>, cursor: int, result: AddItemsResultView)
    requires
        0 <= cursor <= paths.len(),
        accounted(IngestionView { paths, cursor, phase: Phase::Finished, result }),
    ensures
        accounted(settle(paths, cursor, result)),
    decreases paths.len() - cursor,
{
    if cursor < paths.len() {
        if result.duplicates.contains(paths[cursor]) {
            lemma_settle_accounts(paths, cursor + 1, result);
        } else if paths[cursor].len() == 0 {
            lemma_settle_accounts(
                paths,
                cursor + 1,
                result.with_error(paths[cursor], empty_path_error()),
            );
        }
    }
}

/// No reply lets a candidate slip: what was accounted for stays so, and what
/// the reply moves the cursor past is accounted for too.
pub proof fn lemma_resume_accounts(state: IngestionView, reply: ReplyView)
    requires
        state.sound(),
        accounted(state),
    ensures
        accounted(state.resume(reply)),
{
    match (state.phase, reply) {
        (Phase::Lookup, ReplyView::Paths(existing)) => {
            lemma_settle_accounts(
                state.paths,
                0,
                AddItemsResultView { duplicates: existing, ..state.result },
            );
        },
        (Phase::Lookup, ReplyView::Failure(message)) => {
            lemma_nothing_reported(state.paths, state.paths.len() as int);
        },
        (Phase::Insert, ReplyView::Id(id)) => {
            lemma_settle_accounts(state.paths, state.cursor + 1, state.result.with_success(id));
        },
        (Phase::Insert, ReplyView::Failure(message)) => {
            lemma_settle_accounts(
                state.paths,
                state.cursor + 1,
                state.result.with_error(state.paths[state.cursor], message),
            );
        },
        _ => {},
    }
}

/// Each candidate is dealt with by itself, and none is lost: however the
/// store replies, to the lookup and to each insertion, every candidate behind
/// the cursor is accounted for once. When the ingestion is finished, the ids,
/// the errors and the candidates that the store reported make up the batch.
pub proof fn lemma_every_candidate_is_accounted_for(
    paths: Seq<Seq<char>>,
    replies: Seq<ReplyView>,
)
    ensures
        ({
            let end = run(IngestionView::begin(paths), replies);
            &&& end.sound()
            &&& accounted(end)
            &&& end.phase == Phase::Finished ==> end.result.success.len() + end.result.errors.len()
                + reported(paths, end.result.duplicates, paths.len() as int) == paths.len()
        }),
{
    lemma_run_accounts(IngestionView::begin(paths), replies);
}

/// A run from a sound state in which every candidate behind the cursor is
/// accounted for ends in such a state, with the same batch.
proof fn lemma_run_accounts(state: IngestionView, replies: Seq<ReplyView>)
    requires
        state.sound(),
        accounted(state),
    ensures
        run(state, replies).sound(),
        accounted(run(state, replies)),
        run(state, replies).paths == state.paths,
    decreases replies.len(),
{
    if replies.len() > 0 {
        lemma_resume_is_sound(state, replies[0]);
        lemma_resume_accounts(state, replies[0]);
        lemma_run_accounts(state.resume(replies[0]), replies.skip(1));
    }
}

} // verus!
