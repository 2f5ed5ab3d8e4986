//! The provider's side of a call: which operation an invocation names, what
//! the operation asks of the backing store, and what result the store's
//! replies make.

use crate::invocation::{
    failure_of, success_of, Invocation, InvocationResponse, InvocationView, ResponseView,
};
use crate::keyvalue::{
    AddArgs, AddResponse, ClearArgs, DelArgs, DelResponse, GetArgs, GetResponse, KeyExistsArgs,
    ListItemDeleteArgs, ListRangeResponse, ListResponse, PushArgs, RangeArgs, SetAddArgs, SetArgs,
    SetIntersectionArgs, SetOperationResponse, SetQueryArgs, SetQueryResponse, SetRemoveArgs,
    SetResponse, SetUnionArgs,
};
use crate::store::{copy_texts, CommandView, ReplyView, StoreCommand, StoreReply};
use crate::text::same_text;
use vstd::prelude::*;

verus! {

/// The operations of the key-value contract.
#[derive(Clone, Copy, Debug, PartialEq, Eq, Structural)]
pub enum Operation {
    Add,
    Get,
    SetValue,
    Del,
    Clear,
    Range,
    Push,
    ListItemDelete,
    SetAdd,
    SetRemove,
    SetUnion,
    SetIntersection,
    SetQuery,
    KeyExists,
}

impl Operation {
    /// The name of the operation in an invocation.
    pub open spec fn name(self) -> Seq<char> {
        match self {
            Operation::Add => "Add"@,
            Operation::Get => "Get"@,
            Operation::SetValue => "Set"@,
            Operation::Del => "Del"@,
            Operation::Clear => "Clear"@,
            Operation::Range => "Range"@,
            Operation::Push => "Push"@,
            Operation::ListItemDelete => "ListItemDelete"@,
            Operation::SetAdd => "SetAdd"@,
            Operation::SetRemove => "SetRemove"@,
            Operation::SetUnion => "SetUnion"@,
            Operation::SetIntersection => "SetIntersection"@,
            Operation::SetQuery => "SetQuery"@,
            Operation::KeyExists => "KeyExists"@,
        }
    }

    /// The name of the operation in an invocation.
    pub fn as_name(self) -> (name: &'static str)
        ensures
            name@ == self.name(),
    {
        match self {
            Operation::Add => "Add",
            Operation::Get => "Get",
            Operation::SetValue => "Set",
            Operation::Del => "Del",
            Operation::Clear => "Clear",
            Operation::Range => "Range",
            Operation::Push => "Push",
            Operation::ListItemDelete => "ListItemDelete",
            Operation::SetAdd => "SetAdd",
            Operation::SetRemove => "SetRemove",
            Operation::SetUnion => "SetUnion",
            Operation::SetIntersection => "SetIntersection",
            Operation::SetQuery => "SetQuery",
            Operation::KeyExists => "KeyExists",
        }
    }
}

/// The operation that `name` names, if it names one.
pub open spec fn operation_of(name: Seq<char>) -> Option<Operation> {
    if name == Operation::Add.name() {
        Some(Operation::Add)
    } else if name == Operation::Del.name() {
        Some(Operation::Del)
    } else if name == Operation::Get.name() {
        Some(Operation::Get)
    } else if name == Operation::SetValue.name() {
        Some(Operation::SetValue)
    } else if name == Operation::Clear.name() {
        Some(Operation::Clear)
    } else if name == Operation::Range.name() {
        Some(Operation::Range)
    } else if name == Operation::Push.name() {
        Some(Operation::Push)
    } else if name == Operation::ListItemDelete.name() {
        Some(Operation::ListItemDelete)
    } else if name == Operation::SetAdd.name() {
        Some(Operation::SetAdd)
    } else if name == Operation::SetRemove.name() {
        Some(Operation::SetRemove)
    } else if name == Operation::SetUnion.name() {
        Some(Operation::SetUnion)
    } else if name == Operation::SetIntersection.name() {
        Some(Operation::SetIntersection)
    } else if name == Operation::SetQuery.name() {
        Some(Operation::SetQuery)
    } else if name == Operation::KeyExists.name() {
        Some(Operation::KeyExists)
    } else {
        None
    }
}

/// Finds the operation that `name` names.
pub fn operation_named(name: &str) -> (found: Option<Operation>)
    ensures
        found == operation_of(name@),
{
    if same_text(name, "Add") {
        Some(Operation::Add)
    } else if same_text(name, "Del") {
        Some(Operation::Del)
    } else if same_text(name, "Get") {
        Some(Operation::Get)
    } else if same_text(name, "Set") {
        Some(Operation::SetValue)
    } else if same_text(name, "Clear") {
        Some(Operation::Clear)
    } else if same_text(name, "Range") {
        Some(Operation::Range)
    } else if same_text(name, "Push") {
        Some(Operation::Push)
    } else if same_text(name, "ListItemDelete") {
        Some(Operation::ListItemDelete)
    } else if same_text(name, "SetAdd") {
        Some(Operation::SetAdd)
    } else if same_text(name, "SetRemove") {
        Some(Operation::SetRemove)
    } else if same_text(name, "SetUnion") {
        Some(Operation::SetUnion)
    } else if same_text(name, "SetIntersection") {
        Some(Operation::SetIntersection)
    } else if same_text(name, "SetQuery") {
        Some(Operation::SetQuery)
    } else if same_text(name, "KeyExists") {
        Some(Operation::KeyExists)
    } else {
        None
    }
}

/// A call of the key-value contract with its arguments.
#[derive(Debug, PartialEq, Eq)]
pub enum KvRequest {
    Add(AddArgs),
    Get(GetArgs),
    SetValue(SetArgs),
    Del(DelArgs),
    Clear(ClearArgs),
    Range(RangeArgs),
    Push(PushArgs),
    ListItemDelete(ListItemDeleteArgs),
    SetAdd(SetAddArgs),
    SetRemove(SetRemoveArgs),
    SetUnion(SetUnionArgs),
    SetIntersection(SetIntersectionArgs),
    SetQuery(SetQueryArgs),
    KeyExists(KeyExistsArgs),
}

/// What a `KvRequest` stands for.
#[allow(inconsistent_fields)]
pub enum RequestView {
    Add { key: Seq<char>, value: i32 },
    Get { key: Seq<char> },
    SetValue { key: Seq<char>, value: Seq<char>, expires: i32 },
    Del { key: Seq<char> },
    Clear { key: Seq<char> },
    Range { key: Seq<char>, start: i32, stop: i32 },
    Push { key: Seq<char>, value: Seq<char> },
    ListItemDelete { key: Seq<char>, value: Seq<char> },
    SetAdd { key: Seq<char>, value: Seq<char> },
    SetRemove { key: Seq<char>, value: Seq<char> },
    SetUnion { keys: Seq<Seq<char>> },
    SetIntersection { keys: Seq<Seq<char>> },
    SetQuery { key: Seq<char> },
    KeyExists { key: Seq<char> },
}

impl View for KvRequest {
    type V = RequestView;

    open spec fn view(&self) -> RequestView {
        match self {
            KvRequest::Add(args) => RequestView::Add { key: args.key@, value: args.value },
            KvRequest::Get(args) => RequestView::Get { key: args.key@ },
            KvRequest::SetValue(args) => RequestView::SetValue {
                key: args.key@,
                value: args.value@,
                expires: args.expires,
            },
            KvRequest::Del(args) => RequestView::Del { key: args.key@ },
            KvRequest::Clear(args) => RequestView::Clear { key: args.key@ },
            KvRequest::Range(args) => RequestView::Range {
                key: args.key@,
                start: args.start,
                stop: args.stop,
            },
            KvRequest::Push(args) => RequestView::Push { key: args.key@, value: args.value@ },
            KvRequest::ListItemDelete(args) => RequestView::ListItemDelete {
                key: args.key@,
                value: args.value@,
            },
            KvRequest::SetAdd(args) => RequestView::SetAdd { key: args.key@, value: args.value@ },
            KvRequest::SetRemove(args) => RequestView::SetRemove {
                key: args.key@,
                value: args.value@,
            },
            KvRequest::SetUnion(args) => RequestView::SetUnion { keys: args.keys.deep_view() },
            KvRequest::SetIntersection(args) => RequestView::SetIntersection {
                keys: args.keys.deep_view(),
            },
            KvRequest::SetQuery(args) => RequestView::SetQuery { key: args.key@ },
            KvRequest::KeyExists(args) => RequestView::KeyExists { key: args.key@ },
        }
    }
}

impl RequestView {
    /// The first command that the request asks of the store.
    pub open spec fn opening(self) -> CommandView {
        match self {
            RequestView::Add { key, value } => CommandView::Increment { key, amount: value },
            RequestView::Get { key } => CommandView::Exists { key },
            RequestView::SetValue { key, value, .. } => CommandView::Put { key, value },
            RequestView::Del { key } => CommandView::Delete { key },
            RequestView::Clear { key } => CommandView::Delete { key },
            RequestView::Range { key, start, stop } => CommandView::ListRange { key, start, stop },
            RequestView::Push { key, value } => CommandView::ListPush { key, value },
            RequestView::ListItemDelete { key, value } => CommandView::ListRemove { key, value },
            RequestView::SetAdd { key, value } => CommandView::SetAdd { key, value },
            RequestView::SetRemove { key, value } => CommandView::SetRemove { key, value },
            RequestView::SetUnion { keys } => CommandView::SetUnion { keys },
            RequestView::SetIntersection { keys } => CommandView::SetIntersection { keys },
            RequestView::SetQuery { key } => CommandView::SetMembers { key },
            RequestView::KeyExists { key } => CommandView::Exists { key },
        }
    }
}

/// The result of a call of the key-value contract.
#[derive(Debug, PartialEq, Eq)]
pub enum KvResponse {
    Get(GetResponse),
    Add(AddResponse),
    Del(DelResponse),
    ListRange(ListRangeResponse),
    List(ListResponse),
    SetValue(SetResponse),
    SetOperation(SetOperationResponse),
    SetQuery(SetQueryResponse),
}

/// What a `KvResponse` stands for.
#[allow(inconsistent_fields)]
pub enum OutcomeView {
    Get { value: Seq<char>, exists: bool },
    Add { value: i32 },
    Del { key: Seq<char> },
    ListRange { values: Seq<Seq<char>> },
    List { new_count: i32 },
    SetValue { value: Seq<char> },
    SetOperation { new_count: i32 },
    SetQuery { values: Seq<Seq<char>> },
}

impl View for KvResponse {
    type V = OutcomeView;

    open spec fn view(&self) -> OutcomeView {
        match self {
            KvResponse::Get(found) => OutcomeView::Get { value: found.value@, exists: found.exists },
            KvResponse::Add(sum) => OutcomeView::Add { value: sum.value },
            KvResponse::Del(gone) => OutcomeView::Del { key: gone.key@ },
            KvResponse::ListRange(items) => OutcomeView::ListRange {
                values: items.values.deep_view(),
            },
            KvResponse::List(list) => OutcomeView::List { new_count: list.new_count },
            KvResponse::SetValue(put) => OutcomeView::SetValue { value: put.value@ },
            KvResponse::SetOperation(set) => OutcomeView::SetOperation { new_count: set.new_count },
            KvResponse::SetQuery(members) => OutcomeView::SetQuery {
                values: members.values.deep_view(),
            },
        }
    }
}

/// A call in progress: the request, and whether the store has already said
/// that the key of a `Get` exists, so that its value is being fetched.
#[derive(Debug)]
pub struct Exchange {
    request: KvRequest,
    fetching: bool,
}

/// What an `Exchange` stands for.
pub struct ExchangeView {
    pub request: RequestView,
    pub fetching: bool,
}

/// What a `Progress` stands for.
pub enum ProgressView {
    Ask(ExchangeView),
    Finish(OutcomeView),
    Fail(Seq<char>),
}

/// The result of a `Get` for a key that is not there.
pub open spec fn nothing() -> OutcomeView {
    OutcomeView::Get { value: Seq::empty(), exists: false }
}

impl RequestView {
    /// The result that one reply of the store makes for the request, for
    /// every request but `Get`; `None` where the reply is not of the kind
    /// that the request's command asks for.
    pub open spec fn result_from(self, reply: ReplyView) -> Option<OutcomeView> {
        match (self, reply) {
            (RequestView::Add { .. }, ReplyView::Integer(value)) => Some(
                OutcomeView::Add { value },
            ),
            (RequestView::SetValue { value, .. }, ReplyView::Done) => Some(
                OutcomeView::SetValue { value },
            ),
            (RequestView::Del { key }, ReplyView::Done) => Some(OutcomeView::Del { key }),
            (RequestView::Clear { key }, ReplyView::Done) => Some(OutcomeView::Del { key }),
            (RequestView::Range { .. }, ReplyView::Texts(values)) => Some(
                OutcomeView::ListRange { values },
            ),
            (RequestView::Push { .. }, ReplyView::Integer(new_count)) => Some(
                OutcomeView::List { new_count },
            ),
            (RequestView::ListItemDelete { .. }, ReplyView::Integer(new_count)) => Some(
                OutcomeView::List { new_count },
            ),
            (RequestView::SetAdd { .. }, ReplyView::Integer(new_count)) => Some(
                OutcomeView::SetOperation { new_count },
            ),
            (RequestView::SetRemove { .. }, ReplyView::Integer(new_count)) => Some(
                OutcomeView::SetOperation { new_count },
            ),
            (RequestView::SetUnion { .. }, ReplyView::Texts(values)) => Some(
                OutcomeView::SetQuery { values },
            ),
            (RequestView::SetIntersection { .. }, ReplyView::Texts(values)) => Some(
                OutcomeView::SetQuery { values },
            ),
            (RequestView::SetQuery { .. }, ReplyView::Texts(values)) => Some(
                OutcomeView::SetQuery { values },
            ),
            (RequestView::KeyExists { .. }, ReplyView::Flag(exists)) => Some(
                OutcomeView::Get { value: Seq::empty(), exists },
            ),
            _ => None,
        }
    }
}

/// What a call makes of a reply that does not fit the command: the store's
/// own words where it failed, and else a complaint about the reply.
pub open spec fn refusal(reply: ReplyView) -> Seq<char> {
    match reply {
        ReplyView::Failed(reason) => reason,
        _ => "Unexpected reply from the store"@,
    }
}

impl ExchangeView {
    /// The call as it begins.
    pub open spec fn begin(request: RequestView) -> ExchangeView {
        ExchangeView { request, fetching: false }
    }

    /// The command that the call is waiting on.
    pub open spec fn command(self) -> CommandView {
        match self.request {
            RequestView::Get { key } => if self.fetching {
                CommandView::Get { key }
            } else {
                CommandView::Exists { key }
            },
            _ => self.request.opening(),
        }
    }

    /// How the call goes on when the store answers `reply` to the command.
    /// A `Get` ends with nothing found where the store says that the key is
    /// not there, and goes on to fetch the value where it says that it is; the
    /// fetch ends the call with the text that it brings. Every other call
    /// ends with the result that the reply makes. A reply that makes no
    /// result, a failure of the store above all, fails the call.
    pub open spec fn after(self, reply: ReplyView) -> ProgressView {
        match (self.request, self.fetching, reply) {
            (RequestView::Get { .. }, false, ReplyView::Flag(true)) => ProgressView::Ask(
                ExchangeView { request: self.request, fetching: true },
            ),
            (RequestView::Get { .. }, false, ReplyView::Flag(false)) => ProgressView::Finish(
                nothing(),
            ),
            (RequestView::Get { .. }, true, ReplyView::Text(value)) => ProgressView::Finish(
                OutcomeView::Get { value, exists: true },
            ),
            (RequestView::Get { .. }, _, _) => ProgressView::Fail(refusal(reply)),
            _ => match self.request.result_from(reply) {
                Some(outcome) => ProgressView::Finish(outcome),
                None => ProgressView::Fail(refusal(reply)),
            },
        }
    }
}

impl View for Exchange {
    type V = ExchangeView;

    closed spec fn view(&self) -> ExchangeView {
        ExchangeView { request: self.request@, fetching: self.fetching }
    }
}

/// How a call goes on after a reply of the store.
#[derive(Debug)]
pub enum Progress {
    /// The call has another command for the store.
    Ask(Exchange),
    /// The call is done, with this result.
    Finish(KvResponse),
    /// The call failed; the text says how.
    Fail(String),
}

impl View for Progress {
    type V = ProgressView;

    open spec fn view(&self) -> ProgressView {
        match self {
            Progress::Ask(exchange) => ProgressView::Ask(exchange@),
            Progress::Finish(response) => ProgressView::Finish(response@),
            Progress::Fail(reason) => ProgressView::Fail(reason@),
        }
    }
}

/// The failure that a reply stands for when it is not what the command asks
/// for.
fn refuse(reply: StoreReply) -> (progress: Progress)
    ensures
        progress@ == ProgressView::Fail(refusal(reply@)),
{
    match reply {
        StoreReply::Failed(reason) => Progress::Fail(reason),
        _ => Progress::Fail(String::from_str("Unexpected reply from the store")),
    }
}

/// The result of a `Get` that found nothing.
fn nothing_found() -> (progress: Progress)
    ensures
        progress@ == ProgressView::Finish(nothing()),
{
    Progress::Finish(KvResponse::Get(GetResponse { value: String::new(), exists: false }))
}

impl Exchange {
    /// Begins the call `request`.
    pub fn begin(request: KvRequest) -> (exchange: Exchange)
        ensures
            exchange@ == ExchangeView::begin(request@),
    {
        Exchange { request, fetching: false }
    }

    /// The request that the call is for.
    pub fn request(&self) -> (request: &KvRequest)
        ensures
            request@ == self@.request,
    {
        &self.request
    }

    /// The command to carry out on the store now.
    pub fn command(&self) -> (command: StoreCommand)
        ensures
            command@ == self@.command(),
    {
        match &self.request {
            KvRequest::Add(args) => StoreCommand::Increment {
                key: args.key.clone(),
                amount: args.value,
            },
            KvRequest::Get(args) => if self.fetching {
                StoreCommand::Get { key: args.key.clone() }
            } else {
                StoreCommand::Exists { key: args.key.clone() }
            },
            KvRequest::SetValue(args) => StoreCommand::Put {
                key: args.key.clone(),
                value: args.value.clone(),
            },
            KvRequest::Del(args) => StoreCommand::Delete { key: args.key.clone() },
            KvRequest::Clear(args) => StoreCommand::Delete { key: args.key.clone() },
            KvRequest::Range(args) => StoreCommand::ListRange {
                key: args.key.clone(),
                start: args.start,
                stop: args.stop,
            },
            KvRequest::Push(args) => StoreCommand::ListPush {
                key: args.key.clone(),
                value: args.value.clone(),
            },
            KvRequest::ListItemDelete(args) => StoreCommand::ListRemove {
                key: args.key.clone(),
                value: args.value.clone(),
            },
            KvRequest::SetAdd(args) => StoreCommand::SetAdd {
                key: args.key.clone(),
                value: args.value.clone(),
            },
            KvRequest::SetRemove(args) => StoreCommand::SetRemove {
                key: args.key.clone(),
                value: args.value.clone(),
            },
            KvRequest::SetUnion(args) => StoreCommand::SetUnion { keys: copy_texts(&args.keys) },
            KvRequest::SetIntersection(args) => StoreCommand::SetIntersection {
                keys: copy_texts(&args.keys),
            },
            KvRequest::SetQuery(args) => StoreCommand::SetMembers { key: args.key.clone() },
            KvRequest::KeyExists(args) => StoreCommand::Exists { key: args.key.clone() },
        }
    }

    /// Takes the store's reply to the command and says how the call goes on:
    /// with another command, with its result, or with a failure.
    pub fn resume(self, reply: StoreReply) -> (progress: Progress)
        ensures
            progress@ == self@.after(reply@),
    {
        let Exchange { request, fetching } = self;
        match request {
            KvRequest::Get(args) => {
                if fetching {
                    match reply {
                        StoreReply::Text(value) => Progress::Finish(
                            KvResponse::Get(GetResponse { value, exists: true }),
                        ),
                        _ => refuse(reply),
                    }
                } else {
                    match reply {
                        StoreReply::Flag(exists) => if exists {
                            Progress::Ask(Exchange { request: KvRequest::Get(args), fetching: true })
                        } else {
                            nothing_found()
                        },
                        _ => refuse(reply),
                    }
                }
            },
            KvRequest::KeyExists(_) => match reply {
                StoreReply::Flag(exists) => Progress::Finish(
                    KvResponse::Get(GetResponse { value: String::new(), exists }),
                ),
                _ => refuse(reply),
            },
            KvRequest::Add(_) => match reply {
                StoreReply::Integer(value) => Progress::Finish(
                    KvResponse::Add(AddResponse { value }),
                ),
                _ => refuse(reply),
            },
            KvRequest::SetValue(args) => match reply {
                StoreReply::Done => Progress::Finish(
                    KvResponse::SetValue(SetResponse { value: args.value }),
                ),
                _ => refuse(reply),
            },
            KvRequest::Del(args) => match reply {
                StoreReply::Done => Progress::Finish(KvResponse::Del(DelResponse { key: args.key })),
                _ => refuse(reply),
            },
            KvRequest::Clear(args) => match reply {
                StoreReply::Done => Progress::Finish(KvResponse::Del(DelResponse { key: args.key })),
                _ => refuse(reply),
            },
            KvRequest::Range(_) => match reply {
                StoreReply::Texts(values) => Progress::Finish(
                    KvResponse::ListRange(ListRangeResponse { values }),
                ),
                _ => refuse(reply),
            },
            KvRequest::Push(_) => match reply {
                StoreReply::Integer(new_count) => Progress::Finish(
                    KvResponse::List(ListResponse { new_count }),
                ),
                _ => refuse(reply),
            },
            KvRequest::ListItemDelete(_) => match reply {
                StoreReply::Integer(new_count) => Progress::Finish(
                    KvResponse::List(ListResponse { new_count }),
                ),
                _ => refuse(reply),
            },
            KvRequest::SetAdd(_) => match reply {
                StoreReply::Integer(new_count) => Progress::Finish(
                    KvResponse::SetOperation(SetOperationResponse { new_count }),
                ),
                _ => refuse(reply),
            },
            KvRequest::SetRemove(_) => match reply {
                StoreReply::Integer(new_count) => Progress::Finish(
                    KvResponse::SetOperation(SetOperationResponse { new_count }),
                ),
                _ => refuse(reply),
            },
            KvRequest::SetUnion(_) => match reply {
                StoreReply::Texts(values) => Progress::Finish(
                    KvResponse::SetQuery(SetQueryResponse { values }),
                ),
                _ => refuse(reply),
            },
            KvRequest::SetIntersection(_) => match reply {
                StoreReply::Texts(values) => Progress::Finish(
                    KvResponse::SetQuery(SetQueryResponse { values }),
                ),
                _ => refuse(reply),
            },
            KvRequest::SetQuery(_) => match reply {
                StoreReply::Texts(values) => Progress::Finish(
                    KvResponse::SetQuery(SetQueryResponse { values }),
                ),
                _ => refuse(reply),
            },
        }
    }
}

/// What a provider says to a call from an actor that it holds no connection
/// for.
pub open spec fn no_client() -> Seq<char> {
    "No client for this actor. Did the host configure it?"@
}

/// What a provider says to a call of an operation that it does not have.
pub open spec fn no_such_operation() -> Seq<char> {
    "No such operation"@
}

/// Whether a provider takes up an invocation: it does so for an operation
/// that it has, called by an actor that it holds a connection for. Else it
/// answers with an error response to that invocation.
pub open spec fn acceptance(inv: InvocationView, connected: bool) -> Result<Operation, ResponseView> {
    if !connected {
        Err(failure_of(inv.id, no_client()))
    } else {
        match operation_of(inv.operation) {
            Some(operation) => Ok(operation),
            None => Err(failure_of(inv.id, no_such_operation())),
        }
    }
}

/// Decides whether to take up `inv`, given whether its origin has a
/// connection.
pub fn accept(inv: &Invocation, connected: bool) -> (taken: Result<Operation, InvocationResponse>)
    ensures
        (match taken {
            Ok(operation) => Ok(operation),
            Err(response) => Err(response@),
        }) == acceptance(inv@, connected),
{
    if !connected {
        return Err(
            InvocationResponse::failure(inv, "No client for this actor. Did the host configure it?"),
        );
    }
    match operation_named(inv.operation.as_str()) {
        Some(operation) => Ok(operation),
        None => Err(InvocationResponse::failure(inv, "No such operation")),
    }
}

/// The response to `inv` for a call that ended with `outcome`: the encoded
/// result, or the reason for which it failed. Either way it carries the id of
/// `inv`.
pub fn reply_to(inv: &Invocation, outcome: Result<Vec<u8>, String>) -> (response: InvocationResponse)
    ensures
        response@ == (match outcome {
            Ok(payload) => success_of(inv@.id, payload@),
            Err(reason) => failure_of(inv@.id, reason@),
        }),
{
    match outcome {
        Ok(payload) => InvocationResponse::success(inv, payload),
        Err(reason) => InvocationResponse::failure(inv, reason.as_str()),
    }
}

/// A `Get` first asks whether the key exists, and where the store says that
/// it does not, the call ends with an empty value marked as missing, and with
/// no failure.
pub proof fn lemma_get_of_missing_key(key: Seq<char>)
    ensures
        ExchangeView::begin(RequestView::Get { key }).command() == (CommandView::Exists { key }),
        ExchangeView::begin(RequestView::Get { key }).after(ReplyView::Flag(false))
            == ProgressView::Finish(OutcomeView::Get { value: Seq::empty(), exists: false }),
        !(ExchangeView::begin(RequestView::Get { key }).after(ReplyView::Flag(false)) is Fail),
{
}

/// A store that fails fails the call, with the store's own words, at
/// whatever command the call stands: no failure is taken for a result.
pub proof fn lemma_store_failure_fails_the_call(exchange: ExchangeView, reason: Seq<char>)
    ensures
        exchange.after(ReplyView::Failed(reason)) == ProgressView::Fail(reason),
{
}

/// No call asks the store more than twice: the call that goes on after its
/// first reply ends with its second.
pub proof fn lemma_a_call_ends_with_its_second_reply(
    request: RequestView,
    first: ReplyView,
    second: ReplyView,
)
    ensures
        ExchangeView::begin(request).after(first) matches ProgressView::Ask(next) ==> !(next.after(
            second,
        ) is Ask),
{
}

/// `Clear` asks of the store what `Del` asks, and ends as `Del` ends for
/// every reply: the two leave the store in the same state.
pub proof fn lemma_clear_is_del(key: Seq<char>, reply: ReplyView)
    ensures
        ExchangeView::begin(RequestView::Clear { key }).command() == ExchangeView::begin(
            RequestView::Del { key },
        ).command(),
        ExchangeView::begin(RequestView::Clear { key }).after(reply) == ExchangeView::begin(
            RequestView::Del { key },
        ).after(reply),
{
}

/// A call of an operation that the provider does not have is answered with
/// an error response that carries the id of the invocation, whether or not the
/// caller has a connection.
pub proof fn lemma_unknown_operation_is_answered(inv: InvocationView, connected: bool)
    requires
        operation_of(inv.operation) is None,
    ensures
        acceptance(inv, connected) is Err,
        acceptance(inv, connected)->Err_0.error is Some,
        acceptance(inv, connected)->Err_0.invocation_id == inv.id,
{
}

/// Every operation is found under its own name.
pub proof fn lemma_operation_names_are_distinct(operation: Operation)
    ensures
        operation_of(operation.name()) == Some(operation),
{
    reveal_strlit("Add");
    reveal_strlit("Get");
    reveal_strlit("Set");
    reveal_strlit("Del");
    reveal_strlit("Clear");
    reveal_strlit("Range");
    reveal_strlit("Push");
    reveal_strlit("ListItemDelete");
    reveal_strlit("SetAdd");
    reveal_strlit("SetRemove");
    reveal_strlit("SetUnion");
    reveal_strlit("SetIntersection");
    reveal_strlit("SetQuery");
    reveal_strlit("KeyExists");
    assert("Add"@.len() == 3 && "Add"@[0] == 'A');
    assert("Get"@.len() == 3 && "Get"@[0] == 'G');
    assert("Set"@.len() == 3 && "Set"@[0] == 'S');
    assert("Del"@.len() == 3 && "Del"@[0] == 'D');
    assert("Clear"@.len() == 5 && "Clear"@[0] == 'C');
    assert("Range"@.len() == 5 && "Range"@[0] == 'R');
    assert("Push"@.len() == 4 && "Push"@[0] == 'P');
    assert("ListItemDelete"@.len() == 14 && "ListItemDelete"@[0] == 'L');
    assert("SetAdd"@.len() == 6 && "SetAdd"@[0] == 'S');
    assert("SetRemove"@.len() == 9 && "SetRemove"@[0] == 'S');
    assert("SetUnion"@.len() == 8 && "SetUnion"@[0] == 'S');
    assert("SetIntersection"@.len() == 15 && "SetIntersection"@[0] == 'S');
    assert("SetQuery"@.len() == 8 && "SetQuery"@[0] == 'S');
    assert("KeyExists"@.len() == 9 && "KeyExists"@[0] == 'K');
    assert("SetUnion"@[3] == 'U');
    assert("SetQuery"@[3] == 'Q');
}

} // verus!
