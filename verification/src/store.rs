//! The commands this crate asks of the key/value store, the replies it takes
//! back, and a mathematical model of a store that answers faithfully.
//!
//! A record lives in one hash per slug, with three fields. Each command is
//! atomic by itself; nothing ties two commands together.

use vstd::prelude::*;
use crate::count::{count_of, decimal};

verus! {

/// The fields of a record's hash.
#[derive(Clone, Copy, Debug, PartialEq, Eq)]
pub enum Field {
    /// The target URL.
    Url,
    /// The owner's secret.
    Key,
    /// The access counter.
    TotalAccesses,
}

/// One command for the store.
#[derive(Clone, Debug, PartialEq, Eq)]
pub enum StoreCommand {
    /// Read a field.
    HGet { key: String, field: Field },
    /// Write a field.
    HSet { key: String, field: Field, value: String },
    /// Add `delta` to a field that holds a count.
    HIncrBy { key: String, field: Field, delta: u64 },
    /// Remove the whole hash stored under `key`.
    Del { key: String },
}

/// What the store answered.
#[derive(Clone, Debug, PartialEq, Eq)]
pub enum StoreReply {
    /// The value read, or `None` where the field is absent.
    Value(Option<String>),
    /// A write, an increment or a removal went through.
    Done,
    /// The command failed.
    Failed,
}

/// A command, with its strings as sequences of characters.
pub enum CommandView {
    HGet { key: Seq<char>, field: Field },
    HSet { key: Seq<char>, field: Field, value: Seq<char> },
    HIncrBy { key: Seq<char>, field: Field, delta: u64 },
    Del { key: Seq<char> },
}

/// A reply, with its string as a sequence of characters.
pub enum ReplyView {
    Value(Option<Seq<char>>),
    Done,
    Failed,
}

impl View for StoreCommand {
    type V = CommandView;

    open spec fn view(&self) -> CommandView {
        match *self {
            StoreCommand::HGet { key, field } => CommandView::HGet { key: key@, field },
            StoreCommand::HSet { key, field, value } => CommandView::HSet {
                key: key@,
                field,
                value: value@,
            },
            StoreCommand::HIncrBy { key, field, delta } => CommandView::HIncrBy {
                key: key@,
                field,
                delta,
            },
            StoreCommand::Del { key } => CommandView::Del { key: key@ },
        }
    }
}

impl View for StoreReply {
    type V = ReplyView;

    open spec fn view(&self) -> ReplyView {
        match *self {
            StoreReply::Value(Some(s)) => ReplyView::Value(Some(s@)),
            StoreReply::Value(None) => ReplyView::Value(None),
            StoreReply::Done => ReplyView::Done,
            StoreReply::Failed => ReplyView::Failed,
        }
    }
}

impl Field {
    /// The field's name in the store.
    pub open spec fn spec_name(self) -> Seq<char> {
        match self {
            Field::Url => "url"@,
            Field::Key => "key"@,
            Field::TotalAccesses => "total_accesses"@,
        }
    }

    /// The field's name in the store: `url`, `key` or `total_accesses`.
    pub fn name(self) -> (s: &'static str)
        ensures
            s@ == self.spec_name(),
    {
        match self {
            Field::Url => "url",
            Field::Key => "key",
            Field::TotalAccesses => "total_accesses",
        }
    }
}

/// The model of a store: the text each field of each hash holds. A hash
/// exists while one of its fields does.
pub type StoreModel = Map<(Seq<char>, Field), Seq<char>>;

/// A store's answer to a command, with the store left behind.
pub struct Answer {
    pub store: StoreModel,
    pub reply: ReplyView,
}

/// The store without any field of the hash under `key`.
pub open spec fn without(store: StoreModel, key: Seq<char>) -> StoreModel {
    store.remove((key, Field::Url)).remove((key, Field::Key)).remove((key, Field::TotalAccesses))
}

/// How a store that never fails of its own answers `cmd` in state `store`.
///
/// An increment reads the field as a count, zero where the field is absent,
/// and writes the sum back as decimal text. It fails, and changes nothing,
/// where the field holds no count or the sum would pass `u64::MAX`.
pub open spec fn answer(store: StoreModel, cmd: CommandView) -> Answer {
    match cmd {
        CommandView::HGet { key, field } => Answer {
            store,
            reply: if store.contains_key((key, field)) {
                ReplyView::Value(Some(store[(key, field)]))
            } else {
                ReplyView::Value(None)
            },
        },
        CommandView::HSet { key, field, value } => Answer {
            store: store.insert((key, field), value),
            reply: ReplyView::Done,
        },
        CommandView::HIncrBy { key, field, delta } => {
            let before = if store.contains_key((key, field)) {
                count_of(store[(key, field)])
            } else {
                Some(0u64)
            };
            match before {
                Some(n) => if n + delta <= u64::MAX {
                    Answer {
                        store: store.insert((key, field), decimal((n + delta) as nat)),
                        reply: ReplyView::Done,
                    }
                } else {
                    Answer { store, reply: ReplyView::Failed }
                },
                None => Answer { store, reply: ReplyView::Failed },
            }
        },
        CommandView::Del { key } => Answer { store: without(store, key), reply: ReplyView::Done },
    }
}

} // verus!
