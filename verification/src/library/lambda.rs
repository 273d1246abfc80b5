use vstd::prelude::*;
use crate::dtos::request::{text_view, Request, RequestView};
use crate::error::{Error, ErrorView};
use crate::models::attribute::{Item, ItemView};
use crate::models::decimal::{is_decimal, is_decimal_text};
use crate::models::product::{to_item, Product, ProductView};
use crate::queries::add_product_query::{
    done_view,
    outcome_view,
    stored,
    AddProduct,
    PutItem,
    PutItemView,
};
use crate::queries::get_product_by_id_query::{
    fetched_view,
    found_product,
    key_item,
    GetById,
    GetItem,
    GetItemView,
    TABLE_NAME,
};

verus! {

/// The name of the setting that holds the address of the output queue.
pub const OUTPUT_SQS: &'static str = "OUTPUT_SQS";

/// The settings that the gateways need, each as the environment holds it.
#[derive(Debug, Clone, PartialEq, Eq)]
pub struct Config {
    /// The name of the table, if it is set.
    pub table_name: Option<String>,
    /// The address of the output queue, if it is set.
    pub output_sqs: Option<String>,
}

/// The mathematical model of a [`Config`].
pub struct ConfigView {
    pub table_name: Option<Seq<char>>,
    pub output_sqs: Option<Seq<char>>,
}

impl View for Config {
    type V = ConfigView;

    open spec fn view(&self) -> ConfigView {
        ConfigView {
            table_name: text_view(self.table_name),
            output_sqs: text_view(self.output_sqs),
        }
    }
}

/// The call that sends one product to a queue.
#[derive(Debug, Clone, PartialEq, Eq)]
pub struct SendMessage {
    /// The address of the queue.
    pub queue_url: String,
    /// The product that the message's body holds.
    pub product: Product,
}

/// The mathematical model of a [`SendMessage`].
pub struct SendMessageView {
    pub queue_url: Seq<char>,
    pub product: ProductView,
}

impl View for SendMessage {
    type V = SendMessageView;

    open spec fn view(&self) -> SendMessageView {
        SendMessageView { queue_url: self.queue_url@, product: self.product@ }
    }
}

/// Where the processing of one record stands.
#[derive(Debug, PartialEq, Eq)]
pub enum State {
    /// The record has not been looked at.
    Received,
    /// The body is being decoded.
    Decoding,
    /// The product is being fetched from the table.
    Fetching,
    /// The product is being sent to the output queue.
    Sending,
    /// The product is being written to the table.
    Storing,
    /// The record is done, with success or with the error that ended it.
    Done(Result<(), Error>),
}

/// The mathematical model of a [`State`].
pub enum StateView {
    Received,
    Decoding,
    Fetching,
    Sending,
    Storing,
    Done(Result<(), ErrorView>),
}

impl View for State {
    type V = StateView;

    open spec fn view(&self) -> StateView {
        match self {
            State::Received => StateView::Received,
            State::Decoding => StateView::Decoding,
            State::Fetching => StateView::Fetching,
            State::Sending => StateView::Sending,
            State::Storing => StateView::Storing,
            State::Done(outcome) => StateView::Done(outcome_view(*outcome)),
        }
    }
}

impl Clone for State {
    fn clone(&self) -> (copy: State)
        ensures
            copy@ == self@,
    {
        match self {
            State::Received => State::Received,
            State::Decoding => State::Decoding,
            State::Fetching => State::Fetching,
            State::Sending => State::Sending,
            State::Storing => State::Storing,
            State::Done(Ok(())) => State::Done(Ok(())),
            State::Done(Err(e)) => State::Done(Err(e.clone())),
        }
    }
}

/// What came of the action that a record was waiting for.
#[derive(Debug, PartialEq, Eq)]
pub enum Event {
    /// The record was delivered, with its body or without one.
    Record(Option<String>),
    /// The body was decoded: to a request, or not, with the decoder's message.
    Decoded(Result<Request, String>),
    /// The table answered a fetch: with the item, with nothing, or with the
    /// message of its failure.
    Fetched(Result<Option<Item>, String>),
    /// The output queue answered a send.
    Sent(Result<(), String>),
    /// The table answered a write.
    Stored(Result<(), String>),
}

/// The mathematical model of an [`Event`].
pub enum EventView {
    Record(Option<Seq<char>>),
    Decoded(Result<RequestView, Seq<char>>),
    Fetched(Result<Option<ItemView>, Seq<char>>),
    Sent(Result<(), Seq<char>>),
    Stored(Result<(), Seq<char>>),
}

/// The model of what decoding a body gave.
pub open spec fn decoded_view(decoded: Result<Request, String>) -> Result<RequestView, Seq<char>> {
    match decoded {
        Ok(request) => Ok(request@),
        Err(message) => Err(message@),
    }
}

impl View for Event {
    type V = EventView;

    open spec fn view(&self) -> EventView {
        match self {
            Event::Record(body) => EventView::Record(text_view(*body)),
            Event::Decoded(decoded) => EventView::Decoded(decoded_view(*decoded)),
            Event::Fetched(fetched) => EventView::Fetched(fetched_view(*fetched)),
            Event::Sent(done) => EventView::Sent(done_view(*done)),
            Event::Stored(done) => EventView::Stored(done_view(*done)),
        }
    }
}

/// What is to be done next for a record.
#[derive(Debug, Clone, PartialEq, Eq)]
pub enum Action {
    /// Decode the body, and report [`Event::Decoded`].
    Decode(String),
    /// Fetch from the table, and report [`Event::Fetched`].
    Get(GetItem),
    /// Send to the output queue, and report [`Event::Sent`].
    Send(SendMessage),
    /// Write to the table, and report [`Event::Stored`].
    Put(PutItem),
    /// Log the error that ended the record.
    Log(Error),
    /// Nothing.
    Nothing,
}

/// The mathematical model of an [`Action`].
pub enum ActionView {
    Decode(Seq<char>),
    Get(GetItemView),
    Send(SendMessageView),
    Put(PutItemView),
    Log(ErrorView),
    Nothing,
}

impl View for Action {
    type V = ActionView;

    open spec fn view(&self) -> ActionView {
        match self {
            Action::Decode(body) => ActionView::Decode(body@),
            Action::Get(call) => ActionView::Get(call@),
            Action::Send(call) => ActionView::Send(call@),
            Action::Put(call) => ActionView::Put(call@),
            Action::Log(e) => ActionView::Log(e@),
            Action::Nothing => ActionView::Nothing,
        }
    }
}

/// The end of a record that failed: the error stays with the record and is
/// logged.
pub open spec fn failed(e: ErrorView) -> (StateView, ActionView) {
    (StateView::Done(Err(e)), ActionView::Log(e))
}

/// The end of a record that succeeded.
pub open spec fn succeeded() -> (StateView, ActionView) {
    (StateView::Done(Ok(())), ActionView::Nothing)
}

/// What follows the delivery of a record: a record without a body fails, a
/// body is decoded.
pub open spec fn received(body: Option<Seq<char>>) -> (StateView, ActionView) {
    match body {
        None => failed(ErrorView::EmptyBody),
        Some(body) => (StateView::Decoding, ActionView::Decode(body)),
    }
}

/// What a request with the key `pk` leads to: the fetch of that product from
/// the table that the settings name.
pub open spec fn looked_up(config: ConfigView, pk: Seq<char>) -> (StateView, ActionView) {
    match config.table_name {
        None => failed(ErrorView::ConfigError(TABLE_NAME@)),
        Some(table_name) => (
            StateView::Fetching,
            ActionView::Get(GetItemView { table_name, key: key_item(pk) }),
        ),
    }
}

/// What a request without a key leads to, where `id` is the identifier that
/// the new product gets: the write of a product with the request's name and
/// price. A request that lacks one of the two, or whose price writes no
/// decimal number, fails, before the settings are looked at.
pub open spec fn added(config: ConfigView, request: RequestView, id: Seq<char>) -> (
    StateView,
    ActionView,
) {
    match (request.name, request.price) {
        (Some(name), Some(price)) => if !is_decimal(price) {
            failed(ErrorView::ValidationError)
        } else {
            match config.table_name {
                None => failed(ErrorView::ConfigError(TABLE_NAME@)),
                Some(table_name) => (
                    StateView::Storing,
                    ActionView::Put(
                        PutItemView {
                            table_name,
                            item: to_item(ProductView { pk: id, name, price }),
                        },
                    ),
                ),
            }
        },
        _ => failed(ErrorView::ValidationError),
    }
}

/// What follows the decoding of a body. A body that is no request fails. The
/// presence of a key alone decides between looking up and creating.
pub open spec fn routed(config: ConfigView, decoded: Result<RequestView, Seq<char>>, id: Seq<char>)
    -> (StateView, ActionView) {
    match decoded {
        Err(message) => failed(ErrorView::DecodeError(message)),
        Ok(request) => match request.pk {
            Some(pk) => looked_up(config, pk),
            None => added(config, request, id),
        },
    }
}

/// What follows the table's answer to a fetch. A product that was found is
/// sent to the queue that the settings name; that none was found ends the
/// record with success and without a message.
pub open spec fn forwarded(config: ConfigView, fetched: Result<Option<ItemView>, Seq<char>>) -> (
    StateView,
    ActionView,
) {
    match found_product(fetched) {
        Err(e) => failed(e),
        Ok(None) => succeeded(),
        Ok(Some(product)) => match config.output_sqs {
            None => failed(ErrorView::ConfigError(OUTPUT_SQS@)),
            Some(queue_url) => (
                StateView::Sending,
                ActionView::Send(SendMessageView { queue_url, product }),
            ),
        },
    }
}

/// What follows the queue's answer to a send.
pub open spec fn sent(done: Result<(), Seq<char>>) -> (StateView, ActionView) {
    match done {
        Ok(()) => succeeded(),
        Err(message) => failed(ErrorView::QueueError(message)),
    }
}

/// What follows the table's answer to a write.
pub open spec fn written(done: Result<(), Seq<char>>) -> (StateView, ActionView) {
    match stored(done) {
        Ok(()) => succeeded(),
        Err(e) => failed(e),
    }
}

/// The state that follows `state` on `event`, and the action to take, where
/// `id` is the identifier that a product created in this step gets. An event
/// that does not answer what the record is waiting for changes nothing.
pub open spec fn next(config: ConfigView, state: StateView, event: EventView, id: Seq<char>) -> (
    StateView,
    ActionView,
) {
    match (state, event) {
        (StateView::Received, EventView::Record(body)) => received(body),
        (StateView::Decoding, EventView::Decoded(decoded)) => routed(config, decoded, id),
        (StateView::Fetching, EventView::Fetched(fetched)) => forwarded(config, fetched),
        (StateView::Sending, EventView::Sent(done)) => sent(done),
        (StateView::Storing, EventView::Stored(done)) => written(done),
        _ => (state, ActionView::Nothing),
    }
}

/// Whether a step from `state` on `event` creates a product, and so needs a
/// fresh identifier.
pub open spec fn creates(state: StateView, event: EventView) -> bool {
    &&& state is Decoding
    &&& event matches EventView::Decoded(Ok(request))
    &&& request.pk is None
}

/// Whether `c` is a decimal digit or one of the letters `a` to `f`.
pub open spec fn is_lower_hex(c: char) -> bool {
    ('0' <= c && c <= '9') || ('a' <= c && c <= 'f')
}

/// Whether `id` has the form of a random identifier: 36 characters in five
/// groups of 8, 4, 4, 4 and 12 lower-case hexadecimal digits with a hyphen
/// between two groups, the third group starting with the version digit 4.
pub open spec fn is_random_id(id: Seq<char>) -> bool {
    &&& id.len() == 36
    &&& forall|i: int|
        0 <= i < 36 ==> if i == 8 || i == 13 || i == 18 || i == 23 {
            id[i] == '-'
        } else {
            is_lower_hex(#[trigger] id[i])
        }
    &&& id[14] == '4'
}

/// A fresh identifier: `uuid::Uuid::new_v4`, rendered by `to_string`.
///
/// Trusted: that the text has the hyphenated lower-case form that the `uuid`
/// crate gives every identifier, with the version digit 4 that `new_v4` sets.
/// Nothing is claimed of which identifier comes, nor that two calls differ.
/// `new_v4` panics if the system's source of random bytes fails.
#[verifier::external_body]
fn fresh_id() -> (id: String)
    ensures
        is_random_id(id@),
{
    uuid::Uuid::new_v4().to_string()
}

fn fail(e: Error) -> (r: (State, Action))
    ensures
        (r.0@, r.1@) == failed(e@),
{
    let logged = e.clone();
    (State::Done(Err(e)), Action::Log(logged))
}

/// Takes up a record that was delivered with `body`.
pub fn receive(body: Option<String>) -> (r: (State, Action))
    ensures
        (r.0@, r.1@) == received(text_view(body)),
{
    match body {
        None => fail(Error::EmptyBody),
        Some(body) => (State::Decoding, Action::Decode(body)),
    }
}

/// Begins the lookup of the product with the key `pk`, which is then
/// forwarded to the output queue.
pub fn send_to_sqs(config: &Config, pk: &str) -> (r: (State, Action))
    ensures
        (r.0@, r.1@) == looked_up(config@, pk@),
{
    let table_name = match &config.table_name {
        Some(table_name) => Some(table_name.clone()),
        None => None,
    };
    match GetById::new(table_name) {
        Err(e) => fail(e),
        Ok(gateway) => (State::Fetching, Action::Get(gateway.request(pk))),
    }
}

/// Begins the creation of the product that `request` describes, with the
/// identifier `id`.
pub fn add_with_id(config: &Config, request: Request, id: String) -> (r: (State, Action))
    ensures
        (r.0@, r.1@) == added(config@, request@, id@),
{
    let (name, price) = match (request.name, request.price) {
        (Some(name), Some(price)) => (name, price),
        _ => {
            return fail(Error::ValidationError);
        },
    };
    if !is_decimal_text(price.as_str()) {
        return fail(Error::ValidationError);
    }
    let product = Product { pk: id, name, price };
    let table_name = match &config.table_name {
        Some(table_name) => Some(table_name.clone()),
        None => None,
    };
    match AddProduct::new(table_name) {
        Err(e) => fail(e),
        Ok(gateway) => (State::Storing, Action::Put(gateway.request(&product))),
    }
}

/// Begins the creation of the product that `request` describes, under a
/// fresh identifier.
pub fn add_product(config: &Config, request: Request) -> (r: (State, Action))
    ensures
        exists|id: Seq<char>| is_random_id(id) && (r.0@, r.1@) == added(config@, request@, id),
{
    let id = fresh_id();
    add_with_id(config, request, id)
}

/// Goes on after the body was decoded, where `id` is the identifier for a
/// product that is created.
pub fn route(config: &Config, decoded: Result<Request, String>, id: String) -> (r: (State, Action))
    ensures
        (r.0@, r.1@) == routed(config@, decoded_view(decoded), id@),
{
    match decoded {
        Err(message) => fail(Error::DecodeError(message)),
        Ok(request) => {
            if request.pk.is_some() {
                let pk = request.pk.unwrap();
                send_to_sqs(config, pk.as_str())
            } else {
                add_with_id(config, request, id)
            }
        },
    }
}

/// Goes on after the table answered the fetch.
pub fn forward(config: &Config, fetched: Result<Option<Item>, String>) -> (r: (State, Action))
    ensures
        (r.0@, r.1@) == forwarded(config@, fetched_view(fetched)),
{
    match GetById::response(fetched) {
        Err(e) => fail(e),
        Ok(None) => (State::Done(Ok(())), Action::Nothing),
        Ok(Some(product)) => match &config.output_sqs {
            None => fail(Error::ConfigError(OUTPUT_SQS.to_owned())),
            Some(queue_url) => (
                State::Sending,
                Action::Send(SendMessage { queue_url: queue_url.clone(), product }),
            ),
        },
    }
}

/// Ends the record after the queue answered the send.
pub fn finish_send(done: Result<(), String>) -> (r: (State, Action))
    ensures
        (r.0@, r.1@) == sent(done_view(done)),
{
    match done {
        Ok(()) => (State::Done(Ok(())), Action::Nothing),
        Err(message) => fail(Error::QueueError(message)),
    }
}

/// Ends the record after the table answered the write.
pub fn finish_put(done: Result<(), String>) -> (r: (State, Action))
    ensures
        (r.0@, r.1@) == written(done_view(done)),
{
    match AddProduct::response(done) {
        Ok(()) => (State::Done(Ok(())), Action::Nothing),
        Err(e) => fail(e),
    }
}

/// One step of a record: from `state` on `event` to the next state and the
/// action to take, where `id` is the identifier for a product that the step
/// creates.
pub fn transition(config: &Config, state: State, event: Event, id: String) -> (r: (State, Action))
    ensures
        (r.0@, r.1@) == next(config@, state@, event@, id@),
{
    match (state, event) {
        (State::Received, Event::Record(body)) => receive(body),
        (State::Decoding, Event::Decoded(decoded)) => route(config, decoded, id),
        (State::Fetching, Event::Fetched(fetched)) => forward(config, fetched),
        (State::Sending, Event::Sent(done)) => finish_send(done),
        (State::Storing, Event::Stored(done)) => finish_put(done),
        (state, _) => (state, Action::Nothing),
    }
}

fn needs_id(state: &State, event: &Event) -> (needed: bool)
    ensures
        needed == creates(state@, event@),
{
    match (state, event) {
        (State::Decoding, Event::Decoded(Ok(request))) => request.pk.is_none(),
        _ => false,
    }
}

spec fn any_random_id() -> Seq<char> {
    Seq::new(
        36,
        |i: int|
            if i == 8 || i == 13 || i == 18 || i == 23 {
                '-'
            } else if i == 14 {
                '4'
            } else {
                '0'
            },
    )
}

/// One step of a record: from `state` on `event` to the next state and the
/// action to take. A product that the step creates gets a fresh identifier.
pub fn step(config: &Config, state: State, event: Event) -> (r: (State, Action))
    ensures
        exists|id: Seq<char>|
            is_random_id(id) && (r.0@, r.1@) == next(config@, state@, event@, id),
{
    let ghost before = state@;
    let ghost on = event@;
    let id = if needs_id(&state, &event) {
        fresh_id()
    } else {
        String::new()
    };
    let r = transition(config, state, event, id);
    proof {
        let witness = if creates(before, on) {
            id@
        } else {
            any_random_id()
        };
        assert(is_random_id(witness));
        assert((r.0@, r.1@) == next(config@, before, on, witness));
    }
    r
}

/// The states of a list of records, in the list's order.
pub open spec fn state_views(states: Seq<State>) -> Seq<StateView> {
    Seq::new(states.len(), |i: int| states[i]@)
}

/// Whether a record ended with an error that is fatal for its batch: a
/// missing setting.
pub open spec fn ended_fatally(state: StateView) -> bool {
    state matches StateView::Done(Err(e)) && e is ConfigError
}

/// What a batch reports once its records are through: the first fatal error
/// among the records' ends, in the batch's order, and success if there is
/// none. An error that is not fatal stays with its record.
pub open spec fn batch_outcome(states: Seq<StateView>) -> Result<(), ErrorView>
    decreases states.len(),
{
    if states.len() == 0 {
        Ok(())
    } else {
        match states.first() {
            StateView::Done(Err(ErrorView::ConfigError(name))) => Err(
                ErrorView::ConfigError(name),
            ),
            _ => batch_outcome(states.drop_first()),
        }
    }
}

/// What the batch reports, given where each of its records stands at the
/// end.
pub fn complete(states: &Vec<State>) -> (r: Result<(), Error>)
    ensures
        outcome_view(r) == batch_outcome(state_views(states@)),
{
    let ghost all = state_views(states@);
    let mut i: usize = 0;
    assert(all.skip(0) =~= all);
    while i < states.len()
        invariant
            i <= states.len(),
            all == state_views(states@),
            batch_outcome(all) == batch_outcome(all.skip(i as int)),
        decreases states.len() - i,
    {
        assert(all.skip(i as int).first() == states@[i as int]@);
        assert(all.skip(i as int).drop_first() =~= all.skip(i + 1));
        match &states[i] {
            State::Done(Err(e)) => {
                if e.is_fatal() {
                    return Err(e.clone());
                }
            },
            _ => {},
        }
        i += 1;
    }
    Ok(())
}

/// A batch reports success exactly if none of its records ended fatally.
pub proof fn lemma_batch_outcome_ok(states: Seq<StateView>)
    ensures
        batch_outcome(states) is Ok <==> forall|i: int|
            0 <= i < states.len() ==> !ended_fatally(#[trigger] states[i]),
    decreases states.len(),
{
    if states.len() > 0 {
        let rest = states.drop_first();
        lemma_batch_outcome_ok(rest);
        if batch_outcome(states) is Ok {
            assert forall|i: int| 0 <= i < states.len() implies !ended_fatally(
                #[trigger] states[i],
            ) by {
                if i > 0 {
                    assert(states[i] == rest[i - 1]);
                }
            }
        } else {
            if !ended_fatally(states.first()) {
                let i = choose|i: int| 0 <= i < rest.len() && ended_fatally(#[trigger] rest[i]);
                assert(states[i + 1] == rest[i]);
            } else {
                assert(ended_fatally(states[0]));
            }
        }
    }
}

} // verus!
