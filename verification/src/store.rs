//! What a provider asks of its backing store, and what the store answers.
//! The store itself is outside: whoever holds the connection carries out a
//! command and hands back the reply.

use vstd::prelude::*;

verus! {

/// One request to the backing store.
#[derive(Debug, PartialEq, Eq)]
pub enum StoreCommand {
    /// Add `amount` to the number under `key`; the store answers with the sum.
    Increment { key: String, amount: i32 },
    /// Delete `key`.
    Delete { key: String },
    /// Put `value` under `key`.
    Put { key: String, value: String },
    /// Ask whether `key` exists.
    Exists { key: String },
    /// Ask for the text under `key`.
    Get { key: String },
    /// Ask for the items of the list `key` from `start` to `stop`.
    ListRange { key: String, start: i32, stop: i32 },
    /// Push `value` on the list `key`; the store answers with the new length.
    ListPush { key: String, value: String },
    /// Take every `value` out of the list `key`; the store answers with how
    /// many there were.
    ListRemove { key: String, value: String },
    /// Add `value` to the set `key`.
    SetAdd { key: String, value: String },
    /// Take `value` out of the set `key`.
    SetRemove { key: String, value: String },
    /// Ask for the union of the sets `keys`.
    SetUnion { keys: Vec<String> },
    /// Ask for the intersection of the sets `keys`.
    SetIntersection { keys: Vec<String> },
    /// Ask for the members of the set `key`.
    SetMembers { key: String },
}

/// What a `StoreCommand` stands for.
pub enum CommandView {
    Increment { key: Seq<char>, amount: i32 },
    Delete { key: Seq<char> },
    Put { key: Seq<char>, value: Seq<char> },
    Exists { key: Seq<char> },
    Get { key: Seq<char> },
    ListRange { key: Seq<char>, start: i32, stop: i32 },
    ListPush { key: Seq<char>, value: Seq<char> },
    ListRemove { key: Seq<char>, value: Seq<char> },
    SetAdd { key: Seq<char>, value: Seq<char> },
    SetRemove { key: Seq<char>, value: Seq<char> },
    SetUnion { keys: Seq<Seq<char>> },
    SetIntersection { keys: Seq<Seq<char>> },
    SetMembers { key: Seq<char> },
}

impl View for StoreCommand {
    type V = CommandView;

    open spec fn view(&self) -> CommandView {
        match self {
            StoreCommand::Increment { key, amount } => CommandView::Increment {
                key: key@,
                amount: *amount,
            },
            StoreCommand::Delete { key } => CommandView::Delete { key: key@ },
            StoreCommand::Put { key, value } => CommandView::Put { key: key@, value: value@ },
            StoreCommand::Exists { key } => CommandView::Exists { key: key@ },
            StoreCommand::Get { key } => CommandView::Get { key: key@ },
            StoreCommand::ListRange { key, start, stop } => CommandView::ListRange {
                key: key@,
                start: *start,
                stop: *stop,
            },
            StoreCommand::ListPush { key, value } => CommandView::ListPush {
                key: key@,
                value: value@,
            },
            StoreCommand::ListRemove { key, value } => CommandView::ListRemove {
                key: key@,
                value: value@,
            },
            StoreCommand::SetAdd { key, value } => CommandView::SetAdd { key: key@, value: value@ },
            StoreCommand::SetRemove { key, value } => CommandView::SetRemove {
                key: key@,
                value: value@,
            },
            StoreCommand::SetUnion { keys } => CommandView::SetUnion { keys: keys.deep_view() },
            StoreCommand::SetIntersection { keys } => CommandView::SetIntersection {
                keys: keys.deep_view(),
            },
            StoreCommand::SetMembers { key } => CommandView::SetMembers { key: key@ },
        }
    }
}

/// What the store answered.
#[derive(Debug, PartialEq, Eq)]
pub enum StoreReply {
    /// The command was carried out; there is nothing to report.
    Done,
    Integer(i32),
    Flag(bool),
    Text(String),
    Texts(Vec<String>),
    /// The store, or the way to it, failed; the text says how.
    Failed(String),
}

/// What a `StoreReply` stands for.
pub enum ReplyView {
    Done,
    Integer(i32),
    Flag(bool),
    Text(Seq<char>),
    Texts(Seq<Seq<char>>),
    Failed(Seq<char>),
}

impl View for StoreReply {
    type V = ReplyView;

    open spec fn view(&self) -> ReplyView {
        match self {
            StoreReply::Done => ReplyView::Done,
            StoreReply::Integer(n) => ReplyView::Integer(*n),
            StoreReply::Flag(b) => ReplyView::Flag(*b),
            StoreReply::Text(text) => ReplyView::Text(text@),
            StoreReply::Texts(texts) => ReplyView::Texts(texts.deep_view()),
            StoreReply::Failed(reason) => ReplyView::Failed(reason@),
        }
    }
}

/// A copy of a list of texts.
pub fn copy_texts(texts: &Vec<String>) -> (copy: Vec<String>)
    ensures
        copy.deep_view() == texts.deep_view(),
{
    let mut copy: Vec<String> = Vec::new();
    let mut i: usize = 0;
    while i < texts.len()
        invariant
            i <= texts.len(),
            copy.len() == i,
            forall|j: int| 0 <= j < i ==> copy[j]@ == texts[j]@,
        decreases texts.len() - i,
    {
        copy.push(texts[i].clone());
        i += 1;
    }
    assert(copy.deep_view() =~= texts.deep_view());
    copy
}

} // verus!
