//! What holds of whole operations when they are run against a store that
//! answers every command faithfully and that nobody else writes to meanwhile.

use vstd::prelude::*;
use crate::count::{count_of, decimal_reads_back};
use crate::input::key_length_ok;
use crate::slug::is_slug;
use crate::routes::{
    create_url_decision, create_url_start, delete_url_start, get_url_start, get_url_stats_start, next,
    finish, update_url_start, ActionView, ResponseView, StateView, StepView,
};
use crate::store::{answer, without, Field, ReplyView, StoreModel};

verus! {

/// How an operation ended: its response, and the store it left behind.
pub struct Outcome {
    pub response: ResponseView,
    pub store: StoreModel,
}

/// Carries `step` through against `store`: each command is answered by the
/// model and the reply fed back, until the step responds; the command that
/// goes with the response, if any, is then applied too. `budget` bounds the
/// number of commands asked before the response.
pub open spec fn run(step: StepView, store: StoreModel, budget: nat) -> Outcome
    decreases budget,
{
    match step.action {
        ActionView::Respond { response, after } => Outcome {
            response,
            store: match after {
                Some(cmd) => answer(store, cmd).store,
                None => store,
            },
        },
        ActionView::Store(cmd) => if budget == 0 {
            Outcome { response: ResponseView::InternalError, store }
        } else {
            let answered = answer(store, cmd);
            run(next(step.state, answered.reply), answered.store, (budget - 1) as nat)
        },
    }
}

/// The most commands any operation asks before it responds.
pub open spec fn max_commands() -> nat {
    3
}

/// A started operation carried through to its end.
pub open spec fn serve(step: StepView, store: StoreModel) -> Outcome {
    run(step, store, max_commands())
}

/// Lookup of `slug`.
pub open spec fn resolve(store: StoreModel, slug: Seq<char>) -> Outcome {
    serve(get_url_start(slug), store)
}

/// Stats of `slug`, asked with the secret `presented`.
pub open spec fn get_stats(store: StoreModel, slug: Seq<char>, presented: Seq<char>) -> Outcome {
    serve(get_url_stats_start(slug, presented), store)
}

/// Creation of a record for `url` with the secret `key`, under the drawn
/// `slug`; `url_ok` is what the URL rule said of `url`.
pub open spec fn create(
    store: StoreModel,
    slug: Seq<char>,
    key: Seq<char>,
    url: Seq<char>,
    url_ok: bool,
) -> Outcome {
    serve(create_url_decision(slug, key, url, url_ok), store)
}

/// Replacement of the secret of `slug` by `new_key`.
pub open spec fn update(
    store: StoreModel,
    slug: Seq<char>,
    presented: Seq<char>,
    new_key: Seq<char>,
) -> Outcome {
    serve(update_url_start(slug, presented, new_key), store)
}

/// Removal of the record of `slug`.
pub open spec fn delete(store: StoreModel, slug: Seq<char>, presented: Seq<char>) -> Outcome {
    serve(delete_url_start(slug, presented), store)
}

/// The store holds a whole record under `slug`: this URL, this secret, this count.
pub open spec fn holds_record(
    store: StoreModel,
    slug: Seq<char>,
    url: Seq<char>,
    key: Seq<char>,
    count: u64,
) -> bool {
    &&& store.contains_key((slug, Field::Url)) && store[(slug, Field::Url)] == url
    &&& store.contains_key((slug, Field::Key)) && store[(slug, Field::Key)] == key
    &&& holds_count(store, slug, count)
}

/// The counter of `slug` is there and reads as `count`.
pub open spec fn holds_count(store: StoreModel, slug: Seq<char>, count: u64) -> bool {
    store.contains_key((slug, Field::TotalAccesses)) && count_of(
        store[(slug, Field::TotalAccesses)],
    ) == Some(count)
}

/// The store holds nothing under `slug`.
pub open spec fn holds_nothing(store: StoreModel, slug: Seq<char>) -> bool {
    forall|f: Field| !store.contains_key((slug, f))
}

/// The steps with which an operation can start.
pub open spec fn started(step: StepView) -> bool {
    ||| exists|slug: Seq<char>| step == get_url_start(slug)
    ||| exists|slug: Seq<char>, k: Seq<char>| step == get_url_stats_start(slug, k)
    ||| exists|slug: Seq<char>, k: Seq<char>, u: Seq<char>| step == create_url_start(slug, k, u)
    ||| exists|slug: Seq<char>, k: Seq<char>, k2: Seq<char>| step == update_url_start(slug, k, k2)
    ||| exists|slug: Seq<char>, k: Seq<char>| step == delete_url_start(slug, k)
}

/// Every operation responds within `max_commands()` commands: a larger budget
/// changes no outcome, so `serve` never ends for want of budget.
pub proof fn budget_suffices(step: StepView, store: StoreModel, budget: nat)
    requires
        budget >= max_commands(),
        started(step),
    ensures
        run(step, store, budget) == serve(step, store),
{
    reveal_with_fuel(run, 5);
}

/// For a secret within the bound and a URL that the rule accepts, a create
/// reports the slug it was given and leaves a whole record with a count of
/// zero; a lookup of that slug then redirects to the URL.
pub proof fn create_then_resolve(store: StoreModel, slug: Seq<char>, key: Seq<char>, url: Seq<char>)
    requires
        is_slug(slug),
        key_length_ok(key),
    ensures
        create(store, slug, key, url, true).response == ResponseView::Created(slug),
        holds_record(create(store, slug, key, url, true).store, slug, url, key, 0),
        resolve(create(store, slug, key, url, true).store, slug).response
            == ResponseView::Redirect(url),
{
    reveal_with_fuel(run, 5);
    decimal_reads_back(0);
}

/// A create with an over-long secret, or with a URL that the rule refuses,
/// is answered BadRequest and never reaches the store.
pub proof fn create_refuses_bad_input(
    store: StoreModel,
    slug: Seq<char>,
    key: Seq<char>,
    url: Seq<char>,
    url_ok: bool,
)
    requires
        !key_length_ok(key) || !url_ok,
    ensures
        create(store, slug, key, url, url_ok) == (Outcome {
            response: ResponseView::BadRequest,
            store,
        }),
{
    reveal_with_fuel(run, 5);
}

/// Whatever an operation waits for, a failure of the store ends it with
/// InternalError: no failed command is reported as a success, and none is
/// asked again.
pub proof fn failure_is_reported(state: StateView)
    ensures
        next(state, ReplyView::Failed) == finish(ResponseView::InternalError),
{
}

/// A lookup of a slug under which the store holds no URL answers NotFound and
/// leaves the store as it was.
pub proof fn resolve_unknown(store: StoreModel, slug: Seq<char>)
    requires
        is_slug(slug),
        !store.contains_key((slug, Field::Url)),
    ensures
        resolve(store, slug).response == ResponseView::NotFound,
        resolve(store, slug).store == store,
{
    reveal_with_fuel(run, 5);
}

/// A lookup followed by a stats query shows exactly one more access than the
/// record had, once the increment that goes with the redirect has been applied.
pub proof fn resolve_counts_one(
    store: StoreModel,
    slug: Seq<char>,
    url: Seq<char>,
    key: Seq<char>,
    count: u64,
)
    requires
        is_slug(slug),
        key_length_ok(key),
        holds_record(store, slug, url, key, count),
        count < u64::MAX,
    ensures
        get_stats(store, slug, key).response == ResponseView::Stats(count),
        resolve(store, slug).response == ResponseView::Redirect(url),
        get_stats(resolve(store, slug).store, slug, key).response == ResponseView::Stats(
            (count + 1) as u64,
        ),
{
    reveal_with_fuel(run, 5);
    decimal_reads_back((count + 1) as nat);
}

/// A stats query with any secret but the stored one is Unauthorized, the
/// empty secret and secrets of the greatest length included; the store is
/// left as it was.
pub proof fn stats_wrong_key(
    store: StoreModel,
    slug: Seq<char>,
    key: Seq<char>,
    wrong_key: Seq<char>,
)
    requires
        is_slug(slug),
        key_length_ok(wrong_key),
        store.contains_key((slug, Field::Key)),
        store[(slug, Field::Key)] == key,
        wrong_key != key,
    ensures
        get_stats(store, slug, wrong_key).response == ResponseView::Unauthorized,
        get_stats(store, slug, wrong_key).store == store,
{
    reveal_with_fuel(run, 5);
}

/// After an update the new secret opens the stats and the old one, where it
/// differs from the new, no longer does. URL and count stay.
pub proof fn update_rotates_key(
    store: StoreModel,
    slug: Seq<char>,
    url: Seq<char>,
    key: Seq<char>,
    new_key: Seq<char>,
    count: u64,
)
    requires
        is_slug(slug),
        key_length_ok(key),
        key_length_ok(new_key),
        holds_record(store, slug, url, key, count),
    ensures
        update(store, slug, key, new_key).response == ResponseView::Success,
        holds_record(update(store, slug, key, new_key).store, slug, url, new_key, count),
        get_stats(update(store, slug, key, new_key).store, slug, new_key).response
            == ResponseView::Stats(count),
        key != new_key ==> get_stats(update(store, slug, key, new_key).store, slug, key).response
            == ResponseView::Unauthorized,
{
    reveal_with_fuel(run, 5);
}

/// After a delete nothing is left of the record: a lookup answers NotFound,
/// and so does a second delete.
pub proof fn delete_removes(store: StoreModel, slug: Seq<char>, key: Seq<char>)
    requires
        is_slug(slug),
        key_length_ok(key),
        store.contains_key((slug, Field::Key)),
        store[(slug, Field::Key)] == key,
    ensures
        delete(store, slug, key).response == ResponseView::Success,
        delete(store, slug, key).store == without(store, slug),
        holds_nothing(delete(store, slug, key).store, slug),
        resolve(delete(store, slug, key).store, slug).response == ResponseView::NotFound,
        delete(delete(store, slug, key).store, slug, key).response == ResponseView::NotFound,
{
    reveal_with_fuel(run, 5);
}

/// Update and delete with any secret but the stored one are Unauthorized and
/// leave the store as it was.
pub proof fn mutation_wrong_key(
    store: StoreModel,
    slug: Seq<char>,
    key: Seq<char>,
    wrong_key: Seq<char>,
    new_key: Seq<char>,
)
    requires
        is_slug(slug),
        key_length_ok(wrong_key),
        key_length_ok(new_key),
        store.contains_key((slug, Field::Key)),
        store[(slug, Field::Key)] == key,
        wrong_key != key,
    ensures
        update(store, slug, wrong_key, new_key).response == ResponseView::Unauthorized,
        update(store, slug, wrong_key, new_key).store == store,
        delete(store, slug, wrong_key).response == ResponseView::Unauthorized,
        delete(store, slug, wrong_key).store == store,
{
    reveal_with_fuel(run, 5);
}

/// An input that fails validation is answered BadRequest and never reaches
/// the store.
pub proof fn invalid_never_reaches_store(
    store: StoreModel,
    slug: Seq<char>,
    key: Seq<char>,
    new_key: Seq<char>,
)
    requires
        !is_slug(slug) || !key_length_ok(key),
    ensures
        !is_slug(slug) ==> resolve(store, slug) == (Outcome {
            response: ResponseView::BadRequest,
            store,
        }),
        get_stats(store, slug, key) == (Outcome { response: ResponseView::BadRequest, store }),
        update(store, slug, key, new_key) == (Outcome { response: ResponseView::BadRequest, store }),
        delete(store, slug, key) == (Outcome { response: ResponseView::BadRequest, store }),
{
    reveal_with_fuel(run, 5);
}

/// How many more commands an operation may still ask once the reply it
/// waits for in `state` has come.
pub open spec fn commands_left(state: StateView) -> nat {
    match state {
        StateView::CreateUrl { .. } => 2,
        StateView::CreateKey { .. } => 1,
        StateView::StatsKey { .. } => 1,
        StateView::UpdateKey { .. } => 1,
        StateView::DeleteKey { .. } => 1,
        _ => 0,
    }
}

/// Whatever the store replies, a step either responds, and is then finished,
/// or asks one more command with fewer left to ask: no operation goes on for
/// ever, and none asks more than `max_commands()` commands.
pub proof fn step_makes_progress(state: StateView, reply: ReplyView)
    ensures
        match next(state, reply).action {
            ActionView::Respond { .. } => next(state, reply).state == StateView::Finished,
            ActionView::Store(_) => commands_left(next(state, reply).state) < commands_left(state),
        },
        commands_left(state) < max_commands(),
{
}

/// A stats query changes nothing in the store, whatever it is asked and
/// whatever it answers.
pub proof fn stats_only_reads(store: StoreModel, slug: Seq<char>, presented: Seq<char>)
    ensures
        get_stats(store, slug, presented).store == store,
{
    reveal_with_fuel(run, 5);
}

/// A lookup changes at most the counter of the slug it looks up, and only
/// upwards by one: URLs and secrets stay, and so does every other record.
pub proof fn resolve_only_counts(
    store: StoreModel,
    slug: Seq<char>,
    at: (Seq<char>, Field),
    count: u64,
)
    requires
        at != (slug, Field::TotalAccesses),
    ensures
        resolve(store, slug).store.contains_key(at) == store.contains_key(at),
        store.contains_key(at) ==> resolve(store, slug).store[at] == store[at],
        holds_count(store, slug, count) ==> holds_count(resolve(store, slug).store, slug, count)
            || holds_count(resolve(store, slug).store, slug, (count + 1) as u64),
{
    reveal_with_fuel(run, 5);
    if count < u64::MAX {
        decimal_reads_back((count + 1) as nat);
    }
}

/// An update changes at most the secret of the slug it names.
pub proof fn update_only_rotates(
    store: StoreModel,
    slug: Seq<char>,
    presented: Seq<char>,
    new_key: Seq<char>,
    at: (Seq<char>, Field),
)
    requires
        at != (slug, Field::Key),
    ensures
        update(store, slug, presented, new_key).store.contains_key(at) == store.contains_key(at),
        store.contains_key(at) ==> update(store, slug, presented, new_key).store[at] == store[at],
{
    reveal_with_fuel(run, 5);
}

/// A delete changes nothing under any other slug; a create writes nothing
/// under any slug but the one it was given.
pub proof fn other_records_stay(
    store: StoreModel,
    slug: Seq<char>,
    key: Seq<char>,
    url: Seq<char>,
    url_ok: bool,
    at: (Seq<char>, Field),
)
    requires
        at.0 != slug,
    ensures
        delete(store, slug, key).store.contains_key(at) == store.contains_key(at),
        store.contains_key(at) ==> delete(store, slug, key).store[at] == store[at],
        create(store, slug, key, url, url_ok).store.contains_key(at) == store.contains_key(at),
        store.contains_key(at) ==> create(store, slug, key, url, url_ok).store[at] == store[at],
{
    reveal_with_fuel(run, 5);
}

} // verus!
