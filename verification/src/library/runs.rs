use vstd::prelude::*;
use crate::dtos::request::RequestView;
use crate::error::ErrorView;
use crate::library::lambda::{
    added,
    batch_outcome,
    ended_fatally,
    is_random_id,
    next,
    ActionView,
    ConfigView,
    EventView,
    SendMessageView,
    StateView,
};
use crate::models::attribute::{AttributeValueView, ItemView};
use crate::models::decimal::is_decimal;
use crate::models::product::{
    from_item,
    lemma_item_round_trip,
    lemma_names_differ,
    pk_name,
    to_item,
    ProductView,
};
use crate::queries::add_product_query::PutItemView;
use crate::queries::get_product_by_id_query::{key_item, GetItemView};

verus! {

/// What a record comes to when `events` are reported for it one after the
/// other: where it stands at the end, and the actions that were taken, in
/// order. `id` is the identifier that a product gets if the record creates
/// one.
pub open spec fn run(config: ConfigView, events: Seq<EventView>, id: Seq<char>) -> (
    StateView,
    Seq<ActionView>,
)
    decreases events.len(),
{
    if events.len() == 0 {
        (StateView::Received, Seq::empty())
    } else {
        let before = run(config, events.drop_last(), id);
        let step = next(config, before.0, events.last(), id);
        (step.0, before.1.push(step.1))
    }
}

/// The messages that a list of actions sends to the output queue, in order.
pub open spec fn messages(actions: Seq<ActionView>) -> Seq<SendMessageView>
    decreases actions.len(),
{
    if actions.len() == 0 {
        Seq::empty()
    } else {
        match actions.last() {
            ActionView::Send(message) => messages(actions.drop_last()).push(message),
            _ => messages(actions.drop_last()),
        }
    }
}

/// The items that a list of actions writes to the table, in order.
pub open spec fn writes(actions: Seq<ActionView>) -> Seq<PutItemView>
    decreases actions.len(),
{
    if actions.len() == 0 {
        Seq::empty()
    } else {
        match actions.last() {
            ActionView::Put(call) => writes(actions.drop_last()).push(call),
            _ => writes(actions.drop_last()),
        }
    }
}

/// One more event takes a run one step further.
pub proof fn lemma_run_push(
    config: ConfigView,
    events: Seq<EventView>,
    event: EventView,
    id: Seq<char>,
)
    ensures
        run(config, events.push(event), id) == (
            next(config, run(config, events, id).0, event, id).0,
            run(config, events, id).1.push(next(config, run(config, events, id).0, event, id).1),
        ),
{
    assert(events.push(event).drop_last() =~= events);
}

/// A record that is done stays as it is, whatever is reported for it, and
/// nothing more is done for it.
pub proof fn lemma_done_is_final(
    config: ConfigView,
    outcome: Result<(), ErrorView>,
    event: EventView,
    id: Seq<char>,
)
    ensures
        next(config, StateView::Done(outcome), event, id) == (
            StateView::Done(outcome),
            ActionView::Nothing,
        ),
{
}

/// A step ends a record with an error exactly if it logs that error: no
/// error of a record goes anywhere else.
pub proof fn lemma_failure_is_logged(
    config: ConfigView,
    state: StateView,
    event: EventView,
    id: Seq<char>,
    e: ErrorView,
)
    requires
        !(state is Done),
    ensures
        next(config, state, event, id).0 == StateView::Done(Err(e)) <==> next(
            config,
            state,
            event,
            id,
        ).1 == ActionView::Log(e),
{
}

/// A lookup whose key the table holds sends exactly one message, which
/// carries the stored product, and ends with success. The product's price
/// writes a decimal number.
pub proof fn lemma_lookup_hit_sends_once(
    config: ConfigView,
    body: Seq<char>,
    request: RequestView,
    item: ItemView,
    id: Seq<char>,
)
    requires
        config.table_name is Some,
        config.output_sqs is Some,
        request.pk is Some,
        from_item(item) is Ok,
    ensures
        ({
            let events = seq![
                EventView::Record(Some(body)),
                EventView::Decoded(Ok(request)),
                EventView::Fetched(Ok(Some(item))),
                EventView::Sent(Ok(())),
            ];
            let message = SendMessageView {
                queue_url: config.output_sqs->0,
                product: from_item(item)->Ok_0,
            };
            let fetch = GetItemView {
                table_name: config.table_name->0,
                key: key_item(request.pk->0),
            };
            &&& run(config, events, id).0 == StateView::Done(Ok(()))
            &&& run(config, events, id).1 == seq![
                ActionView::Decode(body),
                ActionView::Get(fetch),
                ActionView::Send(message),
                ActionView::Nothing,
            ]
            &&& messages(run(config, events, id).1) == seq![message]
            &&& writes(run(config, events, id).1) == Seq::<PutItemView>::empty()
            &&& is_decimal(message.product.price)
        }),
{
    let e0 = EventView::Record(Some(body));
    let e1 = EventView::Decoded(Ok(request));
    let e2 = EventView::Fetched(Ok(Some(item)));
    let e3 = EventView::Sent(Ok(()));
    let events = seq![e0, e1, e2, e3];
    let none = Seq::<EventView>::empty();
    lemma_run_push(config, none, e0, id);
    lemma_run_push(config, none.push(e0), e1, id);
    lemma_run_push(config, none.push(e0).push(e1), e2, id);
    lemma_run_push(config, none.push(e0).push(e1).push(e2), e3, id);
    assert(events =~= none.push(e0).push(e1).push(e2).push(e3));
    let message = SendMessageView {
        queue_url: config.output_sqs->0,
        product: from_item(item)->Ok_0,
    };
    let fetch = GetItemView { table_name: config.table_name->0, key: key_item(request.pk->0) };
    let actions = seq![
        ActionView::Decode(body),
        ActionView::Get(fetch),
        ActionView::Send(message),
        ActionView::Nothing,
    ];
    assert(run(config, events, id).1 =~= actions);
    let a = Seq::<ActionView>::empty();
    lemma_count_push(a, actions[0]);
    lemma_count_push(a.push(actions[0]), actions[1]);
    lemma_count_push(a.push(actions[0]).push(actions[1]), actions[2]);
    lemma_count_push(a.push(actions[0]).push(actions[1]).push(actions[2]), actions[3]);
    assert(actions =~= a.push(actions[0]).push(actions[1]).push(actions[2]).push(actions[3]));
}

/// A lookup whose key the table does not hold sends no message, writes
/// nothing, and ends with success: that nothing was found is no error.
pub proof fn lemma_lookup_miss_sends_nothing(
    config: ConfigView,
    body: Seq<char>,
    request: RequestView,
    id: Seq<char>,
)
    requires
        config.table_name is Some,
        request.pk is Some,
    ensures
        ({
            let events = seq![
                EventView::Record(Some(body)),
                EventView::Decoded(Ok(request)),
                EventView::Fetched(Ok(None)),
            ];
            let fetch = GetItemView {
                table_name: config.table_name->0,
                key: key_item(request.pk->0),
            };
            &&& run(config, events, id).0 == StateView::Done(Ok(()))
            &&& run(config, events, id).1 == seq![
                ActionView::Decode(body),
                ActionView::Get(fetch),
                ActionView::Nothing,
            ]
            &&& messages(run(config, events, id).1) == Seq::<SendMessageView>::empty()
            &&& writes(run(config, events, id).1) == Seq::<PutItemView>::empty()
        }),
{
    let e0 = EventView::Record(Some(body));
    let e1 = EventView::Decoded(Ok(request));
    let e2 = EventView::Fetched(Ok(None));
    let events = seq![e0, e1, e2];
    let none = Seq::<EventView>::empty();
    lemma_run_push(config, none, e0, id);
    lemma_run_push(config, none.push(e0), e1, id);
    lemma_run_push(config, none.push(e0).push(e1), e2, id);
    assert(events =~= none.push(e0).push(e1).push(e2));
    let fetch = GetItemView { table_name: config.table_name->0, key: key_item(request.pk->0) };
    let actions = seq![ActionView::Decode(body), ActionView::Get(fetch), ActionView::Nothing];
    assert(run(config, events, id).1 =~= actions);
    let a = Seq::<ActionView>::empty();
    lemma_count_push(a, actions[0]);
    lemma_count_push(a.push(actions[0]), actions[1]);
    lemma_count_push(a.push(actions[0]).push(actions[1]), actions[2]);
    assert(actions =~= a.push(actions[0]).push(actions[1]).push(actions[2]));
}

/// A request without a key that has a name and a price which writes a
/// decimal number writes exactly one item, which reads back as a product with
/// that name, that price and the identifier that was drawn for it; no message
/// is sent. An identifier of the random form is not empty.
pub proof fn lemma_creation_persists_input(
    config: ConfigView,
    body: Seq<char>,
    request: RequestView,
    id: Seq<char>,
)
    requires
        config.table_name is Some,
        request.pk is None,
        request.name is Some,
        request.price is Some,
        is_decimal(request.price->0),
    ensures
        ({
            let events = seq![
                EventView::Record(Some(body)),
                EventView::Decoded(Ok(request)),
                EventView::Stored(Ok(())),
            ];
            let product = ProductView { pk: id, name: request.name->0, price: request.price->0 };
            let write = PutItemView { table_name: config.table_name->0, item: to_item(product) };
            &&& run(config, events, id).0 == StateView::Done(Ok(()))
            &&& run(config, events, id).1 == seq![
                ActionView::Decode(body),
                ActionView::Put(write),
                ActionView::Nothing,
            ]
            &&& writes(run(config, events, id).1) == seq![write]
            &&& messages(run(config, events, id).1) == Seq::<SendMessageView>::empty()
            &&& from_item(write.item) == Ok::<ProductView, ErrorView>(product)
            &&& is_random_id(id) ==> product.pk.len() > 0
        }),
{
    let e0 = EventView::Record(Some(body));
    let e1 = EventView::Decoded(Ok(request));
    let e2 = EventView::Stored(Ok(()));
    let events = seq![e0, e1, e2];
    let none = Seq::<EventView>::empty();
    lemma_run_push(config, none, e0, id);
    lemma_run_push(config, none.push(e0), e1, id);
    lemma_run_push(config, none.push(e0).push(e1), e2, id);
    assert(events =~= none.push(e0).push(e1).push(e2));
    let product = ProductView { pk: id, name: request.name->0, price: request.price->0 };
    let write = PutItemView { table_name: config.table_name->0, item: to_item(product) };
    let actions = seq![ActionView::Decode(body), ActionView::Put(write), ActionView::Nothing];
    assert(run(config, events, id).1 =~= actions);
    let a = Seq::<ActionView>::empty();
    lemma_count_push(a, actions[0]);
    lemma_count_push(a.push(actions[0]), actions[1]);
    lemma_count_push(a.push(actions[0]).push(actions[1]), actions[2]);
    assert(actions =~= a.push(actions[0]).push(actions[1]).push(actions[2]));
    lemma_item_round_trip(product);
}

/// A request to create that lacks its name or its price, or whose price
/// writes no decimal number, is logged as invalid and writes nothing,
/// whatever the settings are.
pub proof fn lemma_invalid_creation_writes_nothing(
    config: ConfigView,
    body: Seq<char>,
    request: RequestView,
    id: Seq<char>,
)
    requires
        request.pk is None,
        request.name is None || request.price is None || !is_decimal(request.price->0),
    ensures
        ({
            let events = seq![EventView::Record(Some(body)), EventView::Decoded(Ok(request))];
            &&& run(config, events, id).0 == StateView::Done(Err(ErrorView::ValidationError))
            &&& run(config, events, id).1 == seq![
                ActionView::Decode(body),
                ActionView::Log(ErrorView::ValidationError),
            ]
            &&& writes(run(config, events, id).1) == Seq::<PutItemView>::empty()
            &&& messages(run(config, events, id).1) == Seq::<SendMessageView>::empty()
        }),
{
    let e0 = EventView::Record(Some(body));
    let e1 = EventView::Decoded(Ok(request));
    let events = seq![e0, e1];
    let none = Seq::<EventView>::empty();
    lemma_run_push(config, none, e0, id);
    lemma_run_push(config, none.push(e0), e1, id);
    assert(events =~= none.push(e0).push(e1));
    let actions = seq![ActionView::Decode(body), ActionView::Log(ErrorView::ValidationError)];
    assert(run(config, events, id).1 =~= actions);
    let a = Seq::<ActionView>::empty();
    lemma_count_push(a, actions[0]);
    lemma_count_push(a.push(actions[0]), actions[1]);
    assert(actions =~= a.push(actions[0]).push(actions[1]));
}

/// Two products that are created under different identifiers are written
/// under different keys, also where they have one name and one price.
pub proof fn lemma_different_ids_give_different_keys(
    config: ConfigView,
    first: RequestView,
    second: RequestView,
    first_id: Seq<char>,
    second_id: Seq<char>,
)
    requires
        first_id != second_id,
        added(config, first, first_id).1 is Put,
        added(config, second, second_id).1 is Put,
    ensures
        added(config, first, first_id).1->Put_0.item[pk_name()] == AttributeValueView::S(first_id),
        added(config, second, second_id).1->Put_0.item[pk_name()] == AttributeValueView::S(
            second_id,
        ),
        added(config, first, first_id).1->Put_0.item[pk_name()] != added(
            config,
            second,
            second_id,
        ).1->Put_0.item[pk_name()],
{
    lemma_names_differ();
}

proof fn lemma_count_push(actions: Seq<ActionView>, action: ActionView)
    ensures
        messages(actions.push(action)) == match action {
            ActionView::Send(message) => messages(actions).push(message),
            _ => messages(actions),
        },
        writes(actions.push(action)) == match action {
            ActionView::Put(call) => writes(actions).push(call),
            _ => writes(actions),
        },
{
    assert(actions.push(action).drop_last() =~= actions);
}

/// What a batch comes to: each record's run, in the batch's order. Record
/// `i` is reported `traces[i]` and draws the identifier `ids[i]`; no record's
/// run depends on another record.
pub open spec fn batch_run(
    config: ConfigView,
    traces: Seq<Seq<EventView>>,
    ids: Seq<Seq<char>>,
) -> Seq<(StateView, Seq<ActionView>)> {
    Seq::new(traces.len(), |i: int| run(config, traces[i], ids[i]))
}

/// Where each run of a batch ended.
pub open spec fn ends(runs: Seq<(StateView, Seq<ActionView>)>) -> Seq<StateView> {
    Seq::new(runs.len(), |i: int| runs[i].0)
}

/// A record that did not end fatally changes nothing in what its batch
/// reports, wherever in the batch it stands.
pub proof fn lemma_batch_outcome_insert(states: Seq<StateView>, at: int, state: StateView)
    requires
        0 <= at <= states.len(),
        !ended_fatally(state),
    ensures
        batch_outcome(states.insert(at, state)) == batch_outcome(states),
    decreases at,
{
    let inserted = states.insert(at, state);
    if at == 0 {
        assert(inserted.first() == state);
        assert(inserted.drop_first() =~= states);
    } else {
        assert(inserted.first() == states.first());
        assert(inserted.drop_first() =~= states.drop_first().insert(at - 1, state));
        lemma_batch_outcome_insert(states.drop_first(), at - 1, state);
    }
}

/// A record whose body does not decode is logged and does no more; put into
/// a batch at any place, it leaves the run of every other record and what
/// the batch reports as they were.
pub proof fn lemma_malformed_record_is_isolated(
    config: ConfigView,
    traces: Seq<Seq<EventView>>,
    ids: Seq<Seq<char>>,
    at: int,
    body: Seq<char>,
    message: Seq<char>,
    id: Seq<char>,
)
    requires
        traces.len() == ids.len(),
        0 <= at <= traces.len(),
    ensures
        ({
            let malformed = seq![EventView::Record(Some(body)), EventView::Decoded(Err(message))];
            let e = ErrorView::DecodeError(message);
            let without = batch_run(config, traces, ids);
            let with = batch_run(config, traces.insert(at, malformed), ids.insert(at, id));
            &&& with == without.insert(
                at,
                (StateView::Done(Err(e)), seq![ActionView::Decode(body), ActionView::Log(e)]),
            )
            &&& batch_outcome(ends(with)) == batch_outcome(ends(without))
        }),
{
    let e0 = EventView::Record(Some(body));
    let e1 = EventView::Decoded(Err(message));
    let malformed = seq![e0, e1];
    let e = ErrorView::DecodeError(message);
    let none = Seq::<EventView>::empty();
    lemma_run_push(config, none, e0, id);
    lemma_run_push(config, none.push(e0), e1, id);
    assert(malformed =~= none.push(e0).push(e1));
    let ended = (StateView::Done(Err(e)), seq![ActionView::Decode(body), ActionView::Log(e)]);
    assert(run(config, malformed, id).1 =~= ended.1);
    let without = batch_run(config, traces, ids);
    let with = batch_run(config, traces.insert(at, malformed), ids.insert(at, id));
    assert(with =~= without.insert(at, ended));
    assert(ends(with) =~= ends(without).insert(at, ended.0));
    lemma_batch_outcome_insert(ends(without), at, ended.0);
}

} // verus!
