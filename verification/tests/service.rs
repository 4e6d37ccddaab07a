use std::collections::HashMap;

use url_shortener::input::{CreateURLBody, KeyQuery, SlugPath, UpdateURLBody};
use url_shortener::routes::{Action, Response, Routes, State, Step};
use url_shortener::store::{Field, StoreCommand, StoreReply};

/// An in-memory store of hashes; `fail_on` makes the n-th command from now fail.
struct Memory {
    cells: HashMap<(String, &'static str), String>,
    fail_on: Option<usize>,
    asked: Vec<StoreCommand>,
}

impl Memory {
    fn new() -> Memory {
        Memory { cells: HashMap::new(), fail_on: None, asked: Vec::new() }
    }

    fn answer(&mut self, cmd: &StoreCommand) -> StoreReply {
        self.asked.push(cmd.clone());
        if let Some(n) = self.fail_on {
            if n == 0 {
                self.fail_on = None;
                return StoreReply::Failed;
            }
            self.fail_on = Some(n - 1);
        }
        match cmd {
            StoreCommand::HGet { key, field } => {
                StoreReply::Value(self.cells.get(&(key.clone(), field.name())).cloned())
            }
            StoreCommand::HSet { key, field, value } => {
                self.cells.insert((key.clone(), field.name()), value.clone());
                StoreReply::Done
            }
            StoreCommand::HIncrBy { key, field, delta } => {
                let at = (key.clone(), field.name());
                let before = match self.cells.get(&at) {
                    None => Some(0u64),
                    Some(text) => text.parse::<u64>().ok(),
                };
                match before.and_then(|n| n.checked_add(*delta)) {
                    Some(n) => {
                        self.cells.insert(at, n.to_string());
                        StoreReply::Done
                    }
                    None => StoreReply::Failed,
                }
            }
            StoreCommand::Del { key } => {
                self.cells.retain(|at, _| &at.0 != key);
                StoreReply::Done
            }
        }
    }

    fn serve(&mut self, first: Step) -> Response {
        let mut step = first;
        loop {
            match step.action {
                Action::Respond { response, after } => {
                    if let Some(cmd) = after {
                        let _ = self.answer(&cmd);
                    }
                    return response;
                }
                Action::Store(cmd) => {
                    let reply = self.answer(&cmd);
                    step = Routes::step(step.state, reply);
                }
            }
        }
    }

    fn create(&mut self, key: &str, url: &str) -> Response {
        self.serve(Routes::create_url(CreateURLBody { key: key.to_string(), url: url.to_string() }))
    }

    fn created(&mut self, key: &str, url: &str) -> String {
        match self.create(key, url) {
            Response::Created(slug) => slug,
            other => panic!("not created: {:?}", other),
        }
    }

    fn resolve(&mut self, slug: &str) -> Response {
        self.serve(Routes::get_url(SlugPath(slug.to_string())))
    }

    fn stats(&mut self, slug: &str, key: &str) -> Response {
        self.serve(Routes::get_url_stats(
            SlugPath(slug.to_string()),
            KeyQuery { key: key.to_string() },
        ))
    }

    fn update(&mut self, slug: &str, key: &str, new_key: &str) -> Response {
        self.serve(Routes::update_url(
            SlugPath(slug.to_string()),
            KeyQuery { key: key.to_string() },
            UpdateURLBody { key: new_key.to_string() },
        ))
    }

    fn delete(&mut self, slug: &str, key: &str) -> Response {
        self.serve(Routes::delete_url(
            SlugPath(slug.to_string()),
            KeyQuery { key: key.to_string() },
        ))
    }
}

const SLUG: &str = "V1StGXR8_Z5jdHi6B-myT";

fn respond(response: Response) -> Step {
    Step { state: State::Finished, action: Action::Respond { response, after: None } }
}

#[test]
fn whole_life_of_a_record() {
    let mut store = Memory::new();
    let created = store.create("abc", "https://example.com");
    assert_eq!(created.status(), 201);
    let slug = match created {
        Response::Created(slug) => slug,
        other => panic!("not created: {:?}", other),
    };
    assert_eq!(slug.chars().count(), 21);

    let redirect = store.resolve(&slug);
    assert_eq!(redirect, Response::Redirect("https://example.com".to_string()));
    assert_eq!(redirect.status(), 308);

    let stats = store.stats(&slug, "abc");
    assert_eq!(stats, Response::Stats(1));
    assert_eq!(stats.status(), 200);

    let refused = store.stats(&slug, "xyz");
    assert_eq!(refused, Response::Unauthorized);
    assert_eq!(refused.status(), 401);

    let deleted = store.delete(&slug, "abc");
    assert_eq!(deleted, Response::Success);
    assert_eq!(deleted.status(), 200);

    let gone = store.resolve(&slug);
    assert_eq!(gone, Response::NotFound);
    assert_eq!(gone.status(), 404);
    assert!(store.cells.is_empty());
}

#[test]
fn create_then_resolve_gives_the_url() {
    let mut store = Memory::new();
    let slug = store.created("k", "http://example.org/some/long/path?x=1");
    assert!(slug.chars().all(|c| c == '_' || c == '-' || c.is_ascii_alphanumeric()));
    assert_eq!(
        store.resolve(&slug),
        Response::Redirect("http://example.org/some/long/path?x=1".to_string())
    );
}

#[test]
fn create_writes_url_key_and_zero_count_in_order() {
    let mut store = Memory::new();
    let slug = store.created("abc", "https://example.com");
    assert_eq!(
        store.asked,
        vec![
            StoreCommand::HSet {
                key: slug.clone(),
                field: Field::Url,
                value: "https://example.com".to_string()
            },
            StoreCommand::HSet { key: slug.clone(), field: Field::Key, value: "abc".to_string() },
            StoreCommand::HSet {
                key: slug.clone(),
                field: Field::TotalAccesses,
                value: "0".to_string()
            },
        ]
    );
    assert_eq!(store.stats(&slug, "abc"), Response::Stats(0));
}

#[test]
fn begin_create_starts_with_the_url() {
    let step = Routes::begin_create(
        CreateURLBody { key: "abc".to_string(), url: "https://example.com".to_string() },
        true,
        SLUG.to_string(),
    );
    assert_eq!(
        step,
        Step {
            state: State::CreateUrl { slug: SLUG.to_string(), key: "abc".to_string() },
            action: Action::Store(StoreCommand::HSet {
                key: SLUG.to_string(),
                field: Field::Url,
                value: "https://example.com".to_string()
            }),
        }
    );
}

#[test]
fn begin_create_turns_bad_bodies_away() {
    let refused = Routes::begin_create(
        CreateURLBody { key: "abc".to_string(), url: "nowhere".to_string() },
        false,
        SLUG.to_string(),
    );
    assert_eq!(refused, respond(Response::BadRequest));
    let long = Routes::begin_create(
        CreateURLBody { key: "k".repeat(65), url: "https://example.com".to_string() },
        true,
        SLUG.to_string(),
    );
    assert_eq!(long, respond(Response::BadRequest));
}

#[test]
fn create_under_a_given_slug_runs_to_the_end() {
    let mut store = Memory::new();
    let first = Routes::begin_create(
        CreateURLBody { key: "abc".to_string(), url: "https://example.com".to_string() },
        true,
        SLUG.to_string(),
    );
    assert_eq!(store.serve(first), Response::Created(SLUG.to_string()));
    assert_eq!(store.cells.len(), 3);
    assert_eq!(store.cells[&(SLUG.to_string(), "url")], "https://example.com");
    assert_eq!(store.cells[&(SLUG.to_string(), "key")], "abc");
    assert_eq!(store.cells[&(SLUG.to_string(), "total_accesses")], "0");
    assert_eq!(store.resolve(SLUG), Response::Redirect("https://example.com".to_string()));
    assert_eq!(store.cells[&(SLUG.to_string(), "total_accesses")], "1");
}

#[test]
fn create_on_a_taken_slug_overwrites() {
    let mut store = Memory::new();
    for (key, url) in [("abc", "https://example.com/1"), ("def", "https://example.com/2")] {
        let first = Routes::begin_create(
            CreateURLBody { key: key.to_string(), url: url.to_string() },
            true,
            SLUG.to_string(),
        );
        assert_eq!(store.serve(first), Response::Created(SLUG.to_string()));
    }
    assert_eq!(store.stats(SLUG, "abc"), Response::Unauthorized);
    assert_eq!(store.stats(SLUG, "def"), Response::Stats(0));
    assert_eq!(store.resolve(SLUG), Response::Redirect("https://example.com/2".to_string()));
}

#[test]
fn create_with_bad_input_never_reaches_the_store() {
    let mut store = Memory::new();
    let bad_url = store.create("abc", "not a url");
    assert_eq!(bad_url, Response::BadRequest);
    assert_eq!(bad_url.status(), 400);
    assert_eq!(store.create(&"k".repeat(65), "https://example.com"), Response::BadRequest);
    assert!(store.asked.is_empty());
}

#[test]
fn create_with_key_at_the_bound() {
    let mut store = Memory::new();
    let key = "k".repeat(64);
    let slug = store.created(&key, "https://example.com");
    assert_eq!(store.stats(&slug, &key), Response::Stats(0));
}

#[test]
fn resolve_of_unknown_slug_is_not_found() {
    let mut store = Memory::new();
    assert_eq!(store.resolve(SLUG), Response::NotFound);
    assert_eq!(store.resolve("_____________________"), Response::NotFound);
    assert_eq!(store.resolve("---------------------"), Response::NotFound);
    assert!(store.cells.is_empty());
}

#[test]
fn resolve_asks_for_the_url_then_counts() {
    let mut store = Memory::new();
    let slug = store.created("abc", "https://example.com");
    store.asked.clear();
    store.resolve(&slug);
    assert_eq!(
        store.asked,
        vec![
            StoreCommand::HGet { key: slug.clone(), field: Field::Url },
            StoreCommand::HIncrBy { key: slug.clone(), field: Field::TotalAccesses, delta: 1 },
        ]
    );
}

#[test]
fn each_resolve_counts_once() {
    let mut store = Memory::new();
    let slug = store.created("abc", "https://example.com");
    assert_eq!(store.stats(&slug, "abc"), Response::Stats(0));
    for n in 1..=5u64 {
        store.resolve(&slug);
        assert_eq!(store.stats(&slug, "abc"), Response::Stats(n));
    }
}

#[test]
fn failed_increment_leaves_the_redirect() {
    let mut store = Memory::new();
    let slug = store.created("abc", "https://example.com");
    store.fail_on = Some(1);
    assert_eq!(store.resolve(&slug), Response::Redirect("https://example.com".to_string()));
    assert_eq!(store.stats(&slug, "abc"), Response::Stats(0));
}

#[test]
fn stats_with_wrong_key_is_unauthorized() {
    let mut store = Memory::new();
    let slug = store.created("abc", "https://example.com");
    assert_eq!(store.stats(&slug, ""), Response::Unauthorized);
    assert_eq!(store.stats(&slug, "ab"), Response::Unauthorized);
    assert_eq!(store.stats(&slug, "abcd"), Response::Unauthorized);
    assert_eq!(store.stats(&slug, "ABC"), Response::Unauthorized);
    assert_eq!(store.stats(&slug, &"k".repeat(64)), Response::Unauthorized);
    assert_eq!(store.stats(&slug, "abc"), Response::Stats(0));
}

#[test]
fn stats_of_unknown_slug_is_not_found() {
    let mut store = Memory::new();
    assert_eq!(store.stats(SLUG, "abc"), Response::NotFound);
}

#[test]
fn stats_of_record_without_counter_is_not_found() {
    let mut store = Memory::new();
    store.cells.insert((SLUG.to_string(), "url"), "https://example.com".to_string());
    store.cells.insert((SLUG.to_string(), "key"), "abc".to_string());
    assert_eq!(store.stats(SLUG, "abc"), Response::NotFound);
    assert_eq!(store.stats(SLUG, "xyz"), Response::Unauthorized);
}

#[test]
fn record_without_key_is_not_found() {
    let mut store = Memory::new();
    store.cells.insert((SLUG.to_string(), "url"), "https://example.com".to_string());
    assert_eq!(store.stats(SLUG, "abc"), Response::NotFound);
    assert_eq!(store.update(SLUG, "abc", "def"), Response::NotFound);
    assert_eq!(store.delete(SLUG, "abc"), Response::NotFound);
}

#[test]
fn update_rotates_the_key() {
    let mut store = Memory::new();
    let slug = store.created("abc", "https://example.com");
    store.resolve(&slug);
    assert_eq!(store.update(&slug, "abc", "def"), Response::Success);
    assert_eq!(store.stats(&slug, "def"), Response::Stats(1));
    assert_eq!(store.stats(&slug, "abc"), Response::Unauthorized);
    assert_eq!(store.resolve(&slug), Response::Redirect("https://example.com".to_string()));
}

#[test]
fn update_with_wrong_key_changes_nothing() {
    let mut store = Memory::new();
    let slug = store.created("abc", "https://example.com");
    assert_eq!(store.update(&slug, "xyz", "def"), Response::Unauthorized);
    assert_eq!(store.stats(&slug, "abc"), Response::Stats(0));
    assert_eq!(store.stats(&slug, "def"), Response::Unauthorized);
    assert_eq!(store.update(SLUG, "abc", "def"), Response::NotFound);
}

#[test]
fn delete_then_delete_again_is_not_found() {
    let mut store = Memory::new();
    let slug = store.created("abc", "https://example.com");
    assert_eq!(store.delete(&slug, "abc"), Response::Success);
    assert_eq!(store.delete(&slug, "abc"), Response::NotFound);
    assert_eq!(store.resolve(&slug), Response::NotFound);
    assert_eq!(store.stats(&slug, "abc"), Response::NotFound);
}

#[test]
fn delete_with_wrong_key_keeps_the_record() {
    let mut store = Memory::new();
    let slug = store.created("abc", "https://example.com");
    assert_eq!(store.delete(&slug, "xyz"), Response::Unauthorized);
    assert_eq!(store.delete(&slug, ""), Response::Unauthorized);
    assert_eq!(store.resolve(&slug), Response::Redirect("https://example.com".to_string()));
}

#[test]
fn delete_leaves_other_records() {
    let mut store = Memory::new();
    let first = store.created("abc", "https://example.com/1");
    let second = store.created("abc", "https://example.com/2");
    assert_eq!(store.delete(&first, "abc"), Response::Success);
    assert_eq!(store.resolve(&second), Response::Redirect("https://example.com/2".to_string()));
}

#[test]
fn bad_slug_or_key_never_reaches_the_store() {
    let mut store = Memory::new();
    let long = "k".repeat(65);
    assert_eq!(store.resolve("short"), Response::BadRequest);
    assert_eq!(store.resolve("V1StGXR8_Z5jdHi6B/myT"), Response::BadRequest);
    assert_eq!(store.stats("V1StGXR8_Z5jdHi6B myT", "abc"), Response::BadRequest);
    assert_eq!(store.stats("short", "abc"), Response::BadRequest);
    assert_eq!(store.stats(SLUG, &long), Response::BadRequest);
    assert_eq!(store.update("short", "abc", "def"), Response::BadRequest);
    assert_eq!(store.update(SLUG, &long, "def"), Response::BadRequest);
    assert_eq!(store.update(SLUG, "abc", &long), Response::BadRequest);
    assert_eq!(store.delete("short", "abc"), Response::BadRequest);
    assert_eq!(store.delete(SLUG, &long), Response::BadRequest);
    assert!(store.asked.is_empty());
}

#[test]
fn store_failure_is_an_internal_error() {
    let mut store = Memory::new();
    let slug = store.created("abc", "https://example.com");
    store.fail_on = Some(0);
    let failed = store.resolve(&slug);
    assert_eq!(failed, Response::InternalError);
    assert_eq!(failed.status(), 500);
    store.fail_on = Some(0);
    assert_eq!(store.stats(&slug, "abc"), Response::InternalError);
    store.fail_on = Some(1);
    assert_eq!(store.stats(&slug, "abc"), Response::InternalError);
    store.fail_on = Some(0);
    assert_eq!(store.update(&slug, "abc", "def"), Response::InternalError);
    store.fail_on = Some(1);
    assert_eq!(store.update(&slug, "abc", "def"), Response::InternalError);
    store.fail_on = Some(0);
    assert_eq!(store.delete(&slug, "abc"), Response::InternalError);
    store.fail_on = Some(1);
    assert_eq!(store.delete(&slug, "abc"), Response::InternalError);
    assert_eq!(store.stats(&slug, "abc"), Response::Stats(0));
}

#[test]
fn create_that_fails_midway_reports_an_error_and_leaves_what_it_wrote() {
    let mut store = Memory::new();
    store.fail_on = Some(0);
    assert_eq!(store.create("abc", "https://example.com"), Response::InternalError);
    assert!(store.cells.is_empty());

    store.fail_on = Some(1);
    assert_eq!(store.create("abc", "https://example.com"), Response::InternalError);
    assert_eq!(store.cells.len(), 1);
    assert!(store.cells.keys().all(|at| at.1 == "url"));

    let mut store = Memory::new();
    store.fail_on = Some(2);
    assert_eq!(store.create("abc", "https://example.com"), Response::InternalError);
    assert_eq!(store.cells.len(), 2);
}

#[test]
fn step_decides_on_the_stored_key() {
    let waiting = State::StatsKey { slug: SLUG.to_string(), presented: "abc".to_string() };
    assert_eq!(
        Routes::step(waiting.clone(), StoreReply::Value(Some("abc".to_string()))),
        Step {
            state: State::StatsCount,
            action: Action::Store(StoreCommand::HGet {
                key: SLUG.to_string(),
                field: Field::TotalAccesses
            }),
        }
    );
    assert_eq!(
        Routes::step(waiting.clone(), StoreReply::Value(Some("abd".to_string()))),
        respond(Response::Unauthorized)
    );
    assert_eq!(Routes::step(waiting.clone(), StoreReply::Value(None)), respond(Response::NotFound));
    assert_eq!(Routes::step(waiting.clone(), StoreReply::Failed), respond(Response::InternalError));
    assert_eq!(Routes::step(waiting.clone(), StoreReply::Done), respond(Response::InternalError));
}

#[test]
fn step_on_update_and_delete() {
    let update = State::UpdateKey {
        slug: SLUG.to_string(),
        presented: "abc".to_string(),
        new_key: "def".to_string(),
    };
    assert_eq!(
        Routes::step(update, StoreReply::Value(Some("abc".to_string()))),
        Step {
            state: State::UpdateSet,
            action: Action::Store(StoreCommand::HSet {
                key: SLUG.to_string(),
                field: Field::Key,
                value: "def".to_string()
            }),
        }
    );
    let delete = State::DeleteKey { slug: SLUG.to_string(), presented: "abc".to_string() };
    assert_eq!(
        Routes::step(delete, StoreReply::Value(Some("abc".to_string()))),
        Step {
            state: State::DeleteDel,
            action: Action::Store(StoreCommand::Del { key: SLUG.to_string() }),
        }
    );
    assert_eq!(Routes::step(State::UpdateSet, StoreReply::Done), respond(Response::Success));
    assert_eq!(Routes::step(State::DeleteDel, StoreReply::Done), respond(Response::Success));
    assert_eq!(Routes::step(State::UpdateSet, StoreReply::Failed), respond(Response::InternalError));
}

#[test]
fn step_on_the_counter() {
    let count = |text: &str| Routes::step(State::StatsCount, StoreReply::Value(Some(text.to_string())));
    assert_eq!(count("0"), respond(Response::Stats(0)));
    assert_eq!(count("7"), respond(Response::Stats(7)));
    assert_eq!(count("1234567890"), respond(Response::Stats(1234567890)));
    assert_eq!(count("18446744073709551615"), respond(Response::Stats(u64::MAX)));
    assert_eq!(count("18446744073709551616"), respond(Response::InternalError));
    assert_eq!(count(""), respond(Response::InternalError));
    assert_eq!(count("-1"), respond(Response::InternalError));
    assert_eq!(count("many"), respond(Response::InternalError));
    assert_eq!(Routes::step(State::StatsCount, StoreReply::Value(None)), respond(Response::NotFound));
    assert_eq!(Routes::step(State::StatsCount, StoreReply::Done), respond(Response::InternalError));
    assert_eq!(Routes::step(State::StatsCount, StoreReply::Failed), respond(Response::InternalError));
}

#[test]
fn stats_of_record_with_unreadable_counter_is_an_internal_error() {
    let mut store = Memory::new();
    let slug = store.created("abc", "https://example.com");
    store.cells.insert((slug.clone(), "total_accesses"), "many".to_string());
    assert_eq!(store.stats(&slug, "abc"), Response::InternalError);
    assert_eq!(store.resolve(&slug), Response::Redirect("https://example.com".to_string()));
}

#[test]
fn step_after_the_response_is_an_error() {
    assert_eq!(Routes::step(State::Finished, StoreReply::Done), respond(Response::InternalError));
}

#[test]
fn counter_at_its_maximum_stays() {
    let mut store = Memory::new();
    let slug = store.created("abc", "https://example.com");
    store.cells.insert((slug.clone(), "total_accesses"), u64::MAX.to_string());
    assert_eq!(store.resolve(&slug), Response::Redirect("https://example.com".to_string()));
    assert_eq!(store.stats(&slug, "abc"), Response::Stats(u64::MAX));
}

#[test]
fn field_names() {
    assert_eq!(Field::Url.name(), "url");
    assert_eq!(Field::Key.name(), "key");
    assert_eq!(Field::TotalAccesses.name(), "total_accesses");
}
