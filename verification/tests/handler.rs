use rust_sqs::dtos::request::Request;
use rust_sqs::error::Error;
use rust_sqs::library::lambda::{
    add_product, add_with_id, complete, finish_put, finish_send, forward, receive, route,
    send_to_sqs, step, transition, Action, Config, Event, SendMessage, State, OUTPUT_SQS,
};
use rust_sqs::models::attribute::{AttributeValue, Item};
use rust_sqs::models::product::Product;
use rust_sqs::queries::add_product_query::PutItem;
use rust_sqs::queries::get_product_by_id_query::GetItem;
use std::collections::HashMap;

fn text(s: &str) -> String {
    s.to_string()
}

fn config() -> Config {
    Config { table_name: Some(text("products")), output_sqs: Some(text("https://queue/out")) }
}

fn widget() -> Product {
    Product { pk: text("abc"), name: text("Widget"), price: text("9.99") }
}

fn lookup(pk: &str) -> Request {
    Request { pk: Some(text(pk)), name: None, price: None }
}

fn creation(name: Option<&str>, price: Option<&str>) -> Request {
    Request { pk: None, name: name.map(text), price: price.map(text) }
}

fn is_random_id(id: &str) -> bool {
    id.len() == 36
        && id.chars().enumerate().all(|(i, c)| match i {
            8 | 13 | 18 | 23 => c == '-',
            14 => c == '4',
            _ => c.is_ascii_digit() || ('a'..='f').contains(&c),
        })
}

/// The store and the queue that the scenarios run against.
struct World {
    table: HashMap<String, Item>,
    gets: Vec<String>,
    puts: Vec<PutItem>,
    sent: Vec<SendMessage>,
    logged: Vec<Error>,
}

fn world() -> World {
    World {
        table: HashMap::new(),
        gets: Vec::new(),
        puts: Vec::new(),
        sent: Vec::new(),
        logged: Vec::new(),
    }
}

fn decode(body: &str) -> Result<Request, String> {
    let value: serde_json::Value = serde_json::from_str(body).map_err(|e| e.to_string())?;
    let object = value.as_object().ok_or_else(|| text("not an object"))?;
    let string = |name: &str| object.get(name).and_then(|v| v.as_str()).map(text);
    let price = object.get("price").and_then(|v| v.as_f64()).map(|p| format!("{}", p));
    Ok(Request { pk: string("pk"), name: string("name"), price })
}

fn key_of(item: &Item) -> String {
    match item.get("pk") {
        Some(AttributeValue::S(pk)) => pk.clone(),
        _ => panic!("an item without a string key"),
    }
}

/// Takes one record through all its steps, doing each action on the world.
fn process(config: &Config, body: Option<&str>, world: &mut World) -> State {
    let mut state = State::Received;
    let mut event = Event::Record(body.map(text));
    loop {
        let (next, action) = step(config, state, event);
        state = next;
        event = match action {
            Action::Decode(body) => Event::Decoded(decode(&body)),
            Action::Get(call) => {
                let key = key_of(&call.key);
                world.gets.push(key.clone());
                Event::Fetched(Ok(world.table.get(&key).cloned()))
            }
            Action::Send(call) => {
                world.sent.push(call);
                Event::Sent(Ok(()))
            }
            Action::Put(call) => {
                world.table.insert(key_of(&call.item), call.item.clone());
                world.puts.push(call);
                Event::Stored(Ok(()))
            }
            Action::Log(e) => {
                world.logged.push(e);
                return state;
            }
            Action::Nothing => return state,
        };
    }
}

fn process_batch(config: &Config, bodies: &[Option<&str>], world: &mut World) -> Result<(), Error> {
    let mut states = Vec::new();
    for body in bodies {
        states.push(process(config, *body, world));
    }
    complete(&states)
}

#[test]
fn lookup_of_a_missing_key_and_a_creation() {
    let mut world = world();
    let bodies = [Some(r#"{"pk":"abc"}"#), Some(r#"{"name":"Widget","price":9.99}"#)];
    let result = process_batch(&config(), &bodies, &mut world);
    assert_eq!(result, Ok(()));
    assert_eq!(world.gets, vec![text("abc")]);
    assert!(world.sent.is_empty());
    assert!(world.logged.is_empty());
    assert_eq!(world.puts.len(), 1);
    assert_eq!(world.puts[0].table_name, "products");
    let product = Product::from_dynamodb(world.puts[0].item.clone()).unwrap();
    assert!(is_random_id(&product.pk));
    assert_eq!(product.name, "Widget");
    assert_eq!(product.price, "9.99");
    assert_eq!(product.price.parse::<f64>(), Ok(9.99));
}

#[test]
fn creation_without_a_price_is_logged_and_writes_nothing() {
    let mut world = world();
    let result = process_batch(&config(), &[Some(r#"{"name":"Widget"}"#)], &mut world);
    assert_eq!(result, Ok(()));
    assert_eq!(world.logged, vec![Error::ValidationError]);
    assert!(world.puts.is_empty());
    assert!(world.sent.is_empty());
    assert!(world.table.is_empty());
}

#[test]
fn lookup_of_a_stored_key_sends_the_product_once() {
    let mut world = world();
    world.table.insert(text("abc"), widget().to_dynamodb());
    let state = process(&config(), Some(r#"{"pk":"abc"}"#), &mut world);
    assert_eq!(state, State::Done(Ok(())));
    assert_eq!(
        world.sent,
        vec![SendMessage { queue_url: text("https://queue/out"), product: widget() }]
    );
    assert!(world.puts.is_empty());
    assert!(world.logged.is_empty());
}

#[test]
fn lookup_of_a_missing_key_sends_nothing_and_is_no_error() {
    let mut world = world();
    let state = process(&config(), Some(r#"{"pk":"abc"}"#), &mut world);
    assert_eq!(state, State::Done(Ok(())));
    assert!(world.sent.is_empty());
    assert!(world.logged.is_empty());
}

#[test]
fn created_product_is_found_again_and_forwarded() {
    let mut world = world();
    process(&config(), Some(r#"{"name":"Gadget","price":12.5}"#), &mut world);
    let pk = key_of(&world.puts[0].item);
    let body = format!("{{\"pk\":\"{}\"}}", pk);
    let state = process(&config(), Some(&body), &mut world);
    assert_eq!(state, State::Done(Ok(())));
    assert_eq!(world.sent.len(), 1);
    assert_eq!(
        world.sent[0].product,
        Product { pk, name: text("Gadget"), price: text("12.5") }
    );
}

#[test]
fn malformed_record_leaves_the_others_alone() {
    let mut world = world();
    world.table.insert(text("abc"), widget().to_dynamodb());
    let bodies = [
        Some(r#"{"name":"Gadget","price":1}"#),
        Some("{ this is no request"),
        Some(r#"{"pk":"abc"}"#),
        None,
        Some(r#"{"name":"Gizmo","price":2.25}"#),
    ];
    let result = process_batch(&config(), &bodies, &mut world);
    assert_eq!(result, Ok(()));
    assert_eq!(world.puts.len(), 2);
    assert_eq!(world.sent.len(), 1);
    assert_eq!(world.logged.len(), 2);
    assert!(matches!(world.logged[0], Error::DecodeError(_)));
    assert_eq!(world.logged[1], Error::EmptyBody);
}

#[test]
fn key_decides_the_route_whatever_else_is_there() {
    let mut world = world();
    let body = r#"{"pk":"abc","name":"Widget","price":9.99}"#;
    let state = process(&config(), Some(body), &mut world);
    assert_eq!(state, State::Done(Ok(())));
    assert_eq!(world.gets, vec![text("abc")]);
    assert!(world.puts.is_empty());
}

#[test]
fn two_creations_draw_two_identifiers() {
    let first = add_product(&config(), creation(Some("Widget"), Some("9.99")));
    let second = add_product(&config(), creation(Some("Widget"), Some("9.99")));
    let id = |r: (State, Action)| match r {
        (State::Storing, Action::Put(call)) => key_of(&call.item),
        _ => panic!("no write"),
    };
    let (first, second) = (id(first), id(second));
    assert!(is_random_id(&first));
    assert!(is_random_id(&second));
    assert!(!first.is_empty());
    assert_ne!(first, second);
}

#[test]
fn receive_fails_a_record_without_a_body() {
    assert_eq!(
        receive(None),
        (State::Done(Err(Error::EmptyBody)), Action::Log(Error::EmptyBody))
    );
    assert_eq!(receive(Some(text("{}"))), (State::Decoding, Action::Decode(text("{}"))));
}

#[test]
fn route_fails_a_body_that_did_not_decode() {
    let (state, action) = route(&config(), Err(text("expected value")), text("id"));
    assert_eq!(state, State::Done(Err(Error::DecodeError(text("expected value")))));
    assert!(matches!(action, Action::Log(Error::DecodeError(m)) if m == "expected value"));
}

#[test]
fn route_creates_with_the_given_identifier() {
    let (state, action) =
        route(&config(), Ok(creation(Some("Widget"), Some("9.99"))), text("the-id"));
    assert_eq!(state, State::Storing);
    let product = Product { pk: text("the-id"), name: text("Widget"), price: text("9.99") };
    let item = product.to_dynamodb();
    assert_eq!(action, Action::Put(PutItem { table_name: text("products"), item }));
}

#[test]
fn route_looks_up_where_there_is_a_key() {
    let (state, action) = route(&config(), Ok(lookup("abc")), text("unused"));
    assert_eq!(state, State::Fetching);
    let key = Item::from_entries(vec![(text("pk"), AttributeValue::S(text("abc")))]);
    assert_eq!(action, Action::Get(GetItem { table_name: text("products"), key }));
}

#[test]
fn send_to_sqs_needs_the_table_name() {
    let config = Config { table_name: None, output_sqs: Some(text("q")) };
    let (state, action) = send_to_sqs(&config, "abc");
    assert_eq!(state, State::Done(Err(Error::ConfigError(text("TABLE_NAME")))));
    assert!(matches!(action, Action::Log(Error::ConfigError(_))));
}

#[test]
fn add_with_id_needs_name_and_price() {
    for request in [
        creation(None, None),
        creation(Some("Widget"), None),
        creation(None, Some("9.99")),
    ] {
        let (state, action) = add_with_id(&config(), request, text("id"));
        assert_eq!(state, State::Done(Err(Error::ValidationError)));
        assert!(matches!(action, Action::Log(Error::ValidationError)));
    }
}

#[test]
fn add_with_id_validates_before_it_looks_at_the_settings() {
    let config = Config { table_name: None, output_sqs: None };
    let (state, _) = add_with_id(&config, creation(Some("Widget"), None), text("id"));
    assert_eq!(state, State::Done(Err(Error::ValidationError)));
    let (state, _) = add_with_id(&config, creation(Some("Widget"), Some("1")), text("id"));
    assert_eq!(state, State::Done(Err(Error::ConfigError(text("TABLE_NAME")))));
}

#[test]
fn forward_needs_the_queue_only_for_a_product() {
    assert_eq!(OUTPUT_SQS, "OUTPUT_SQS");
    let config = Config { table_name: Some(text("products")), output_sqs: None };
    let (state, action) = forward(&config, Ok(None));
    assert_eq!(state, State::Done(Ok(())));
    assert!(matches!(action, Action::Nothing));
    let (state, action) = forward(&config, Ok(Some(widget().to_dynamodb())));
    assert_eq!(state, State::Done(Err(Error::ConfigError(text("OUTPUT_SQS")))));
    assert!(matches!(action, Action::Log(Error::ConfigError(_))));
}

#[test]
fn forward_fails_on_a_store_failure_and_on_a_malformed_item() {
    let (state, _) = forward(&config(), Err(text("timed out")));
    assert_eq!(state, State::Done(Err(Error::StoreError(text("timed out")))));
    let (state, _) = forward(&config(), Ok(Some(Item::new())));
    assert_eq!(state, State::Done(Err(Error::MissingField(text("pk")))));
    let mut item = widget().to_dynamodb();
    item.insert(text("name"), AttributeValue::Other);
    let (state, _) = forward(&config(), Ok(Some(item)));
    assert_eq!(state, State::Done(Err(Error::TypeMismatch)));
}

#[test]
fn finish_send_and_finish_put_end_the_record() {
    assert_eq!(finish_send(Ok(())).0, State::Done(Ok(())));
    assert_eq!(
        finish_send(Err(text("denied"))).0,
        State::Done(Err(Error::QueueError(text("denied"))))
    );
    assert_eq!(finish_put(Ok(())).0, State::Done(Ok(())));
    assert_eq!(
        finish_put(Err(text("throttled"))).0,
        State::Done(Err(Error::StoreError(text("throttled"))))
    );
}

#[test]
fn event_that_answers_nothing_changes_nothing() {
    let (state, action) = transition(&config(), State::Fetching, Event::Sent(Ok(())), text("id"));
    assert_eq!(state, State::Fetching);
    assert!(matches!(action, Action::Nothing));
    let (state, action) = step(&config(), State::Done(Ok(())), Event::Record(None));
    assert_eq!(state, State::Done(Ok(())));
    assert!(matches!(action, Action::Nothing));
}

#[test]
fn complete_fails_the_batch_only_for_a_missing_setting() {
    assert_eq!(complete(&Vec::new()), Ok(()));
    let states = vec![
        State::Done(Ok(())),
        State::Done(Err(Error::EmptyBody)),
        State::Done(Err(Error::DecodeError(text("eof")))),
        State::Done(Err(Error::ValidationError)),
        State::Done(Err(Error::StoreError(text("s")))),
        State::Done(Err(Error::QueueError(text("q")))),
        State::Done(Err(Error::TypeMismatch)),
        State::Done(Err(Error::MissingField(text("pk")))),
    ];
    assert_eq!(complete(&states), Ok(()));
    let states = vec![
        State::Done(Ok(())),
        State::Done(Err(Error::ConfigError(text("OUTPUT_SQS")))),
        State::Done(Err(Error::ConfigError(text("TABLE_NAME")))),
    ];
    assert_eq!(complete(&states), Err(Error::ConfigError(text("OUTPUT_SQS"))));
}

#[test]
fn batch_without_the_table_setting_fails_as_a_whole() {
    let mut world = world();
    let config = Config { table_name: None, output_sqs: Some(text("q")) };
    let bodies = [Some(r#"{"name":"Widget"}"#), Some(r#"{"pk":"abc"}"#)];
    let result = process_batch(&config, &bodies, &mut world);
    assert_eq!(result, Err(Error::ConfigError(text("TABLE_NAME"))));
    assert_eq!(world.logged.len(), 2);
    assert!(world.gets.is_empty());
}

#[test]
fn only_a_missing_setting_is_fatal() {
    assert!(Error::ConfigError(text("TABLE_NAME")).is_fatal());
    assert!(!Error::EmptyBody.is_fatal());
    assert!(!Error::DecodeError(text("m")).is_fatal());
    assert!(!Error::ValidationError.is_fatal());
    assert!(!Error::StoreError(text("m")).is_fatal());
    assert!(!Error::QueueError(text("m")).is_fatal());
    assert!(!Error::TypeMismatch.is_fatal());
    assert!(!Error::MissingField(text("pk")).is_fatal());
}

#[test]
fn default_request_holds_nothing() {
    assert_eq!(Request::default(), Request { pk: None, name: None, price: None });
}

#[test]
fn add_with_id_needs_a_price_that_writes_a_number() {
    for price in ["abc", "", "NaN", "9,99", "1e"] {
        let (state, action) =
            add_with_id(&config(), creation(Some("Widget"), Some(price)), text("id"));
        assert_eq!(state, State::Done(Err(Error::ValidationError)), "{:?}", price);
        assert_eq!(action, Action::Log(Error::ValidationError));
    }
}

#[test]
fn creation_with_a_price_that_is_no_number_writes_nothing() {
    let request = creation(Some("Widget"), Some("abc"));
    let (state, action) = step(&config(), State::Decoding, Event::Decoded(Ok(request)));
    assert_eq!(state, State::Done(Err(Error::ValidationError)));
    assert_eq!(action, Action::Log(Error::ValidationError));
}

#[test]
fn lookup_of_a_stored_price_that_is_no_number_is_logged_and_sends_nothing() {
    let mut world = world();
    let mut item = widget().to_dynamodb();
    item.insert(text("price"), AttributeValue::N(text("abc")));
    world.table.insert(text("abc"), item);
    let bodies = [Some(r#"{"pk":"abc"}"#), Some(r#"{"name":"Gadget","price":2}"#)];
    let result = process_batch(&config(), &bodies, &mut world);
    assert_eq!(result, Ok(()));
    assert_eq!(world.logged, vec![Error::TypeMismatch]);
    assert!(world.sent.is_empty());
    assert_eq!(world.puts.len(), 1);
}

#[test]
fn every_product_that_is_sent_has_a_price_that_parses() {
    let mut world = world();
    for (pk, price) in [("a", "9.99"), ("b", "1E+2"), ("c", ".5"), ("d", "-0")] {
        let product = Product { pk: text(pk), name: text("Widget"), price: text(price) };
        world.table.insert(text(pk), product.to_dynamodb());
        let body = format!("{{\"pk\":\"{}\"}}", pk);
        assert_eq!(process(&config(), Some(&body), &mut world), State::Done(Ok(())));
    }
    assert_eq!(world.sent.len(), 4);
    for call in &world.sent {
        assert!(call.product.price.parse::<f64>().is_ok());
    }
}
