//! The five operations on records, each as a short conversation with the store.
//!
//! An operation starts with one of the functions of `Routes`, which checks its
//! inputs and names the first thing to do. Whoever holds the store connection
//! performs each command and hands the reply to `Routes::step`, until the
//! action is a response. Nothing here waits, logs or talks to the store.

use vstd::prelude::*;
use crate::count::{count_of, decimal, parse_count};
use crate::input::{key_length_ok, url_rule_accepts};
use crate::input::{CreateURLBody, KeyQuery, SlugPath, UpdateURLBody};
use crate::slug::{generate, is_slug};
use crate::store::{CommandView, Field, ReplyView, StoreCommand, StoreReply};

verus! {

/// The outcome of an operation, as the transport reports it.
#[derive(Clone, Debug, PartialEq, Eq)]
pub enum Response {
    /// Permanent redirect to the target URL.
    Redirect(String),
    /// The access count.
    Stats(u64),
    /// A record was created under this slug.
    Created(String),
    /// The update or removal went through.
    Success,
    /// An input failed validation; the store was not reached.
    BadRequest,
    /// The presented secret is not the stored one.
    Unauthorized,
    /// No such record, or a record that lacks the field asked for.
    NotFound,
    /// The store failed on the operation's own command, or holds a counter
    /// that is no count.
    InternalError,
}

/// Where an operation stands: which reply it waits for, and what it still needs.
#[derive(Clone, Debug, PartialEq, Eq)]
pub enum State {
    /// The response has been given.
    Finished,
    /// Lookup: waiting for the target URL.
    ResolveUrl { slug: String },
    /// Stats: waiting for the stored secret.
    StatsKey { slug: String, presented: String },
    /// Stats: waiting for the counter.
    StatsCount,
    /// Create: waiting for the URL to be written; the secret comes next.
    CreateUrl { slug: String, key: String },
    /// Create: waiting for the secret to be written.
    CreateKey { slug: String },
    /// Create: waiting for the counter to be set to zero.
    CreateCount { slug: String },
    /// Update: waiting for the stored secret.
    UpdateKey { slug: String, presented: String, new_key: String },
    /// Update: waiting for the new secret to be written.
    UpdateSet,
    /// Delete: waiting for the stored secret.
    DeleteKey { slug: String, presented: String },
    /// Delete: waiting for the removal.
    DeleteDel,
}

/// What to do next.
#[derive(Clone, Debug, PartialEq, Eq)]
pub enum Action {
    /// Send this command to the store and hand its reply to `Routes::step`.
    Store(StoreCommand),
    /// Answer the client. `after`, if any, is sent to the store once the
    /// answer is on its way; its failure changes nothing and is not retried.
    Respond { response: Response, after: Option<StoreCommand> },
}

/// A state together with the action that leads out of it.
#[derive(Clone, Debug, PartialEq, Eq)]
pub struct Step {
    pub state: State,
    pub action: Action,
}

pub enum ResponseView {
    Redirect(Seq<char>),
    Stats(u64),
    Created(Seq<char>),
    Success,
    BadRequest,
    Unauthorized,
    NotFound,
    InternalError,
}

pub enum StateView {
    Finished,
    ResolveUrl { slug: Seq<char> },
    StatsKey { slug: Seq<char>, presented: Seq<char> },
    StatsCount,
    CreateUrl { slug: Seq<char>, key: Seq<char> },
    CreateKey { slug: Seq<char> },
    CreateCount { slug: Seq<char> },
    UpdateKey { slug: Seq<char>, presented: Seq<char>, new_key: Seq<char> },
    UpdateSet,
    DeleteKey { slug: Seq<char>, presented: Seq<char> },
    DeleteDel,
}

pub enum ActionView {
    Store(CommandView),
    Respond { response: ResponseView, after: Option<CommandView> },
}

pub struct StepView {
    pub state: StateView,
    pub action: ActionView,
}

impl View for Response {
    type V = ResponseView;

    open spec fn view(&self) -> ResponseView {
        match *self {
            Response::Redirect(url) => ResponseView::Redirect(url@),
            Response::Stats(n) => ResponseView::Stats(n),
            Response::Created(slug) => ResponseView::Created(slug@),
            Response::Success => ResponseView::Success,
            Response::BadRequest => ResponseView::BadRequest,
            Response::Unauthorized => ResponseView::Unauthorized,
            Response::NotFound => ResponseView::NotFound,
            Response::InternalError => ResponseView::InternalError,
        }
    }
}

impl View for State {
    type V = StateView;

    open spec fn view(&self) -> StateView {
        match *self {
            State::Finished => StateView::Finished,
            State::ResolveUrl { slug } => StateView::ResolveUrl { slug: slug@ },
            State::StatsKey { slug, presented } => StateView::StatsKey {
                slug: slug@,
                presented: presented@,
            },
            State::StatsCount => StateView::StatsCount,
            State::CreateUrl { slug, key } => StateView::CreateUrl { slug: slug@, key: key@ },
            State::CreateKey { slug } => StateView::CreateKey { slug: slug@ },
            State::CreateCount { slug } => StateView::CreateCount { slug: slug@ },
            State::UpdateKey { slug, presented, new_key } => StateView::UpdateKey {
                slug: slug@,
                presented: presented@,
                new_key: new_key@,
            },
            State::UpdateSet => StateView::UpdateSet,
            State::DeleteKey { slug, presented } => StateView::DeleteKey {
                slug: slug@,
                presented: presented@,
            },
            State::DeleteDel => StateView::DeleteDel,
        }
    }
}

impl View for Action {
    type V = ActionView;

    open spec fn view(&self) -> ActionView {
        match *self {
            Action::Store(cmd) => ActionView::Store(cmd@),
            Action::Respond { response, after: Some(cmd) } => ActionView::Respond {
                response: response@,
                after: Some(cmd@),
            },
            Action::Respond { response, after: None } => ActionView::Respond {
                response: response@,
                after: None,
            },
        }
    }
}

impl View for Step {
    type V = StepView;

    open spec fn view(&self) -> StepView {
        StepView { state: self.state@, action: self.action@ }
    }
}

/// The step that ends an operation with `response` and nothing more.
pub open spec fn finish(response: ResponseView) -> StepView {
    StepView { state: StateView::Finished, action: ActionView::Respond { response, after: None } }
}

/// The step that sends `cmd` and waits in `state` for its reply.
pub open spec fn ask(state: StateView, cmd: CommandView) -> StepView {
    StepView { state, action: ActionView::Store(cmd) }
}

/// The read of the stored secret, with which stats, update and delete begin.
pub open spec fn read_key(slug: Seq<char>) -> CommandView {
    CommandView::HGet { key: slug, field: Field::Key }
}

/// The increment that follows a redirect.
pub open spec fn count_access(slug: Seq<char>) -> CommandView {
    CommandView::HIncrBy { key: slug, field: Field::TotalAccesses, delta: 1 }
}

/// First step of a lookup.
pub open spec fn get_url_start(slug: Seq<char>) -> StepView {
    if !is_slug(slug) {
        finish(ResponseView::BadRequest)
    } else {
        ask(StateView::ResolveUrl { slug }, CommandView::HGet { key: slug, field: Field::Url })
    }
}

/// First step of a stats query.
pub open spec fn get_url_stats_start(slug: Seq<char>, presented: Seq<char>) -> StepView {
    if !is_slug(slug) || !key_length_ok(presented) {
        finish(ResponseView::BadRequest)
    } else {
        ask(StateView::StatsKey { slug, presented }, read_key(slug))
    }
}

/// First step of a create, once the body has passed validation and `slug` was drawn.
pub open spec fn create_url_start(slug: Seq<char>, key: Seq<char>, url: Seq<char>) -> StepView {
    ask(
        StateView::CreateUrl { slug, key },
        CommandView::HSet { key: slug, field: Field::Url, value: url },
    )
}

/// First step of a create under `slug`, for a body whose URL the URL rule
/// judged as `url_ok`: BadRequest for an over-long secret or a refused URL.
pub open spec fn create_url_decision(
    slug: Seq<char>,
    key: Seq<char>,
    url: Seq<char>,
    url_ok: bool,
) -> StepView {
    if !key_length_ok(key) || !url_ok {
        finish(ResponseView::BadRequest)
    } else {
        create_url_start(slug, key, url)
    }
}

/// First step of an update.
pub open spec fn update_url_start(
    slug: Seq<char>,
    presented: Seq<char>,
    new_key: Seq<char>,
) -> StepView {
    if !is_slug(slug) || !key_length_ok(presented) || !key_length_ok(new_key) {
        finish(ResponseView::BadRequest)
    } else {
        ask(StateView::UpdateKey { slug, presented, new_key }, read_key(slug))
    }
}

/// First step of a delete.
pub open spec fn delete_url_start(slug: Seq<char>, presented: Seq<char>) -> StepView {
    if !is_slug(slug) || !key_length_ok(presented) {
        finish(ResponseView::BadRequest)
    } else {
        ask(StateView::DeleteKey { slug, presented }, read_key(slug))
    }
}

/// What stats, update and delete decide on the stored secret: `go_on` where
/// it equals the presented one, Unauthorized where it differs, NotFound where
/// the record has none, InternalError on any other reply.
pub open spec fn authorize(reply: ReplyView, presented: Seq<char>, go_on: StepView) -> StepView {
    match reply {
        ReplyView::Value(Some(stored)) => if stored == presented {
            go_on
        } else {
            finish(ResponseView::Unauthorized)
        },
        ReplyView::Value(None) => finish(ResponseView::NotFound),
        _ => finish(ResponseView::InternalError),
    }
}

/// What a write's reply leads to: `go_on` where it went through, InternalError otherwise.
pub open spec fn written(reply: ReplyView, go_on: StepView) -> StepView {
    match reply {
        ReplyView::Done => go_on,
        _ => finish(ResponseView::InternalError),
    }
}

/// The step that follows `reply` in `state`.
pub open spec fn next(state: StateView, reply: ReplyView) -> StepView {
    match state {
        StateView::Finished => finish(ResponseView::InternalError),
        StateView::ResolveUrl { slug } => match reply {
            ReplyView::Value(Some(url)) => StepView {
                state: StateView::Finished,
                action: ActionView::Respond {
                    response: ResponseView::Redirect(url),
                    after: Some(count_access(slug)),
                },
            },
            ReplyView::Value(None) => finish(ResponseView::NotFound),
            _ => finish(ResponseView::InternalError),
        },
        StateView::StatsKey { slug, presented } => authorize(
            reply,
            presented,
            ask(
                StateView::StatsCount,
                CommandView::HGet { key: slug, field: Field::TotalAccesses },
            ),
        ),
        StateView::StatsCount => match reply {
            ReplyView::Value(Some(text)) => match count_of(text) {
                Some(n) => finish(ResponseView::Stats(n)),
                None => finish(ResponseView::InternalError),
            },
            ReplyView::Value(None) => finish(ResponseView::NotFound),
            _ => finish(ResponseView::InternalError),
        },
        StateView::CreateUrl { slug, key } => written(
            reply,
            ask(
                StateView::CreateKey { slug },
                CommandView::HSet { key: slug, field: Field::Key, value: key },
            ),
        ),
        StateView::CreateKey { slug } => written(
            reply,
            ask(
                StateView::CreateCount { slug },
                CommandView::HSet { key: slug, field: Field::TotalAccesses, value: decimal(0) },
            ),
        ),
        StateView::CreateCount { slug } => written(reply, finish(ResponseView::Created(slug))),
        StateView::UpdateKey { slug, presented, new_key } => authorize(
            reply,
            presented,
            ask(
                StateView::UpdateSet,
                CommandView::HSet { key: slug, field: Field::Key, value: new_key },
            ),
        ),
        StateView::UpdateSet => written(reply, finish(ResponseView::Success)),
        StateView::DeleteKey { slug, presented } => authorize(
            reply,
            presented,
            ask(StateView::DeleteDel, CommandView::Del { key: slug }),
        ),
        StateView::DeleteDel => written(reply, finish(ResponseView::Success)),
    }
}

impl Response {
    /// The HTTP status that goes with the response.
    pub open spec fn spec_status(self) -> u16 {
        match self {
            Response::Redirect(_) => 308,
            Response::Stats(_) => 200,
            Response::Created(_) => 201,
            Response::Success => 200,
            Response::BadRequest => 400,
            Response::Unauthorized => 401,
            Response::NotFound => 404,
            Response::InternalError => 500,
        }
    }

    /// The HTTP status that goes with the response.
    pub fn status(&self) -> (code: u16)
        ensures
            code == self.spec_status(),
    {
        match self {
            Response::Redirect(_) => 308,
            Response::Stats(_) => 200,
            Response::Created(_) => 201,
            Response::Success => 200,
            Response::BadRequest => 400,
            Response::Unauthorized => 401,
            Response::NotFound => 404,
            Response::InternalError => 500,
        }
    }
}

fn finished(response: Response) -> (step: Step)
    ensures
        step@ == finish(response@),
{
    Step { state: State::Finished, action: Action::Respond { response, after: None } }
}

fn hget_key(slug: &String) -> (cmd: StoreCommand)
    ensures
        cmd@ == read_key(slug@),
{
    StoreCommand::HGet { key: slug.clone(), field: Field::Key }
}

fn authorized(reply: StoreReply, presented: String, go_on: Step) -> (step: Step)
    ensures
        step@ == authorize(reply@, presented@, go_on@),
{
    match reply {
        StoreReply::Value(Some(stored)) => if stored == presented {
            go_on
        } else {
            finished(Response::Unauthorized)
        },
        StoreReply::Value(None) => finished(Response::NotFound),
        _ => finished(Response::InternalError),
    }
}

fn zero_count() -> (text: String)
    ensures
        text@ == decimal(0),
{
    proof {
        reveal_strlit("0");
        assert("0"@ =~= decimal(0));
    }
    "0".to_owned()
}

fn after_write(reply: StoreReply, go_on: Step) -> (step: Step)
    ensures
        step@ == written(reply@, go_on@),
{
    match reply {
        StoreReply::Done => go_on,
        _ => finished(Response::InternalError),
    }
}

/// The operations of the service.
pub struct Routes;

impl Routes {
    /// Starts a lookup: BadRequest for a malformed slug, else the
    /// read of the record's URL.
    pub fn get_url(path: SlugPath) -> (step: Step)
        ensures
            step@ == get_url_start(path.0@),
    {
        if path.validate().is_err() {
            return finished(Response::BadRequest);
        }
        let key = path.0.clone();
        Step {
            state: State::ResolveUrl { slug: path.0 },
            action: Action::Store(StoreCommand::HGet { key, field: Field::Url }),
        }
    }

    /// Starts a stats query: BadRequest for a bad slug or an over-long secret,
    /// else the read of the stored secret.
    pub fn get_url_stats(path: SlugPath, query: KeyQuery) -> (step: Step)
        ensures
            step@ == get_url_stats_start(path.0@, query.key@),
    {
        if path.validate().is_err() || query.validate().is_err() {
            return finished(Response::BadRequest);
        }
        let cmd = hget_key(&path.0);
        Step {
            state: State::StatsKey { slug: path.0, presented: query.key },
            action: Action::Store(cmd),
        }
    }

    /// Starts a create under the given slug, for a body whose URL the URL
    /// rule judged as `url_ok`: BadRequest for an over-long secret or a
    /// refused URL, else the first write, that of the URL. The slug is used
    /// as it is given.
    pub fn begin_create(payload: CreateURLBody, url_ok: bool, slug: String) -> (step: Step)
        ensures
            step@ == create_url_decision(slug@, payload.key@, payload.url@, url_ok),
    {
        if payload.check(url_ok).is_err() {
            return finished(Response::BadRequest);
        }
        let key = slug.clone();
        Step {
            state: State::CreateUrl { slug, key: payload.key },
            action: Action::Store(
                StoreCommand::HSet { key, field: Field::Url, value: payload.url },
            ),
        }
    }

    /// Starts a create: BadRequest for an over-long secret or a URL that does
    /// not parse; else a fresh slug is drawn and the writes begin under it.
    /// The slug is random, so two calls on one body differ in it.
    pub fn create_url(payload: CreateURLBody) -> (step: Step)
        ensures
            !payload.is_valid() ==> step@ == finish(ResponseView::BadRequest),
            payload.is_valid() ==> match step@.state {
                StateView::CreateUrl { slug, key } => is_slug(slug) && step@ == create_url_start(
                    slug,
                    payload.key@,
                    payload.url@,
                ),
                _ => false,
            },
    {
        let url_ok = url_rule_accepts(payload.url.as_str());
        if payload.check(url_ok).is_err() {
            return finished(Response::BadRequest);
        }
        let slug = generate();
        Routes::begin_create(payload, url_ok, slug)
    }

    /// Starts an update: BadRequest for a bad slug or an over-long secret, old
    /// or new; else the read of the stored secret.
    pub fn update_url(path: SlugPath, query: KeyQuery, payload: UpdateURLBody) -> (step: Step)
        ensures
            step@ == update_url_start(path.0@, query.key@, payload.key@),
    {
        if path.validate().is_err() || query.validate().is_err() || payload.validate().is_err() {
            return finished(Response::BadRequest);
        }
        let cmd = hget_key(&path.0);
        Step {
            state: State::UpdateKey { slug: path.0, presented: query.key, new_key: payload.key },
            action: Action::Store(cmd),
        }
    }

    /// Starts a delete: BadRequest for a bad slug or an over-long secret, else
    /// the read of the stored secret.
    pub fn delete_url(path: SlugPath, query: KeyQuery) -> (step: Step)
        ensures
            step@ == delete_url_start(path.0@, query.key@),
    {
        if path.validate().is_err() || query.validate().is_err() {
            return finished(Response::BadRequest);
        }
        let cmd = hget_key(&path.0);
        Step {
            state: State::DeleteKey { slug: path.0, presented: query.key },
            action: Action::Store(cmd),
        }
    }

    /// Takes the store's reply to the command last asked for and decides what
    /// comes next. A reply of the wrong sort counts as a failure of the store.
    pub fn step(state: State, reply: StoreReply) -> (step: Step)
        ensures
            step@ == next(state@, reply@),
    {
        match state {
            State::Finished => finished(Response::InternalError),
            State::ResolveUrl { slug } => match reply {
                StoreReply::Value(Some(url)) => Step {
                    state: State::Finished,
                    action: Action::Respond {
                        response: Response::Redirect(url),
                        after: Some(
                            StoreCommand::HIncrBy {
                                key: slug,
                                field: Field::TotalAccesses,
                                delta: 1,
                            },
                        ),
                    },
                },
                StoreReply::Value(None) => finished(Response::NotFound),
                _ => finished(Response::InternalError),
            },
            State::StatsKey { slug, presented } => authorized(
                reply,
                presented,
                Step {
                    state: State::StatsCount,
                    action: Action::Store(
                        StoreCommand::HGet { key: slug, field: Field::TotalAccesses },
                    ),
                },
            ),
            State::StatsCount => match reply {
                StoreReply::Value(Some(text)) => match parse_count(text.as_str()) {
                    Some(n) => finished(Response::Stats(n)),
                    None => finished(Response::InternalError),
                },
                StoreReply::Value(None) => finished(Response::NotFound),
                _ => finished(Response::InternalError),
            },
            State::CreateUrl { slug, key } => {
                let at = slug.clone();
                after_write(
                    reply,
                    Step {
                        state: State::CreateKey { slug },
                        action: Action::Store(
                            StoreCommand::HSet { key: at, field: Field::Key, value: key },
                        ),
                    },
                )
            },
            State::CreateKey { slug } => {
                let at = slug.clone();
                after_write(
                    reply,
                    Step {
                        state: State::CreateCount { slug },
                        action: Action::Store(
                            StoreCommand::HSet {
                                key: at,
                                field: Field::TotalAccesses,
                                value: zero_count(),
                            },
                        ),
                    },
                )
            },
            State::CreateCount { slug } => after_write(reply, finished(Response::Created(slug))),
            State::UpdateKey { slug, presented, new_key } => authorized(
                reply,
                presented,
                Step {
                    state: State::UpdateSet,
                    action: Action::Store(
                        StoreCommand::HSet { key: slug, field: Field::Key, value: new_key },
                    ),
                },
            ),
            State::UpdateSet => after_write(reply, finished(Response::Success)),
            State::DeleteKey { slug, presented } => authorized(
                reply,
                presented,
                Step { state: State::DeleteDel, action: Action::Store(StoreCommand::Del { key: slug }) },
            ),
            State::DeleteDel => after_write(reply, finished(Response::Success)),
        }
    }
}

} // verus!
