use ddb_products::console::entered_value;
use ddb_products::write::put_item_request;
use ddb_products::writer::{
    insert_item_step, start, WriterAction, WriterEvent, WriterState, WriterStep,
};

const TABLE: &str = "stratusgrid-products";

fn entered(value: &str) -> WriterEvent {
    WriterEvent::Entered(value.to_string())
}

fn ask(state: WriterState, field: &str) -> WriterStep {
    WriterStep { state, lines: Vec::new(), action: WriterAction::Ask { field: field.to_string() } }
}

fn quiet(state: WriterState, action: WriterAction) -> WriterStep {
    WriterStep { state, lines: Vec::new(), action }
}

#[test]
fn dialogue_opens_with_the_category() {
    assert_eq!(start(), ask(WriterState::Category, "category"));
}

#[test]
fn sentinel_category_stops_without_a_write() {
    let step = insert_item_step(TABLE, start().state, entered("q"));
    assert_eq!(step, quiet(WriterState::Done, WriterAction::Stop));
}

#[test]
fn sentinel_is_matched_exactly() {
    for category in ["Q", "q ", " q", "qq", "", "quit"] {
        let step = insert_item_step(TABLE, WriterState::Category, entered(category));
        assert_eq!(
            step,
            ask(WriterState::ProductName { category: category.to_string() }, "product name")
        );
    }
}

#[test]
fn sentinel_is_an_ordinary_product_name_and_price() {
    let step = insert_item_step(
        TABLE,
        WriterState::ProductName { category: "kitchen".to_string() },
        entered("q"),
    );
    assert_eq!(
        step,
        ask(
            WriterState::Price { category: "kitchen".to_string(), productname: "q".to_string() },
            "price"
        )
    );
    let step = insert_item_step(TABLE, step.state, entered("q"));
    assert_eq!(
        step.action,
        WriterAction::Put {
            request: put_item_request(
                TABLE.to_string(),
                "kitchen".to_string(),
                "q".to_string(),
                "q".to_string()
            )
        }
    );
}

#[test]
fn three_entries_lead_to_one_write() {
    let first = insert_item_step(TABLE, start().state, entered("kitchen"));
    assert_eq!(
        first,
        ask(WriterState::ProductName { category: "kitchen".to_string() }, "product name")
    );
    let second = insert_item_step(TABLE, first.state, entered("kettle"));
    assert_eq!(
        second,
        ask(
            WriterState::Price {
                category: "kitchen".to_string(),
                productname: "kettle".to_string()
            },
            "price"
        )
    );
    let third = insert_item_step(TABLE, second.state, entered("4.50"));
    assert_eq!(
        third,
        quiet(
            WriterState::Writing,
            WriterAction::Put {
                request: put_item_request(
                    TABLE.to_string(),
                    "kitchen".to_string(),
                    "kettle".to_string(),
                    "4.50".to_string()
                )
            }
        )
    );
}

#[test]
fn successful_write_starts_over_silently() {
    let step = insert_item_step(TABLE, WriterState::Writing, WriterEvent::Written(Ok(())));
    assert_eq!(step, ask(WriterState::Category, "category"));
}

#[test]
fn failed_write_prints_the_detail_and_starts_over() {
    let detail = "Some(ValidationException: cannot be converted to a numeric value: cheap)";
    let step = insert_item_step(
        TABLE,
        WriterState::Writing,
        WriterEvent::Written(Err(detail.to_string())),
    );
    assert_eq!(
        step,
        WriterStep {
            state: WriterState::Category,
            lines: vec![detail.to_string()],
            action: WriterAction::Ask { field: "category".to_string() },
        }
    );
}

#[test]
fn non_numeric_price_is_written_and_its_failure_does_not_end_the_dialogue() {
    let mut step = start();
    for value in ["kitchen", "kettle", "cheap"] {
        step = insert_item_step(TABLE, step.state, entered(value));
    }
    match &step.action {
        WriterAction::Put { request } => assert_eq!(
            *request,
            put_item_request(
                TABLE.to_string(),
                "kitchen".to_string(),
                "kettle".to_string(),
                "cheap".to_string()
            )
        ),
        other => panic!("expected a write, got {:?}", other),
    }
    step = insert_item_step(TABLE, step.state, WriterEvent::Written(Err("rejected".to_string())));
    assert_eq!(step.lines, vec!["rejected".to_string()]);
    assert_eq!(step.action, WriterAction::Ask { field: "category".to_string() });
    step = insert_item_step(TABLE, step.state, entered("garden"));
    assert_eq!(step.action, WriterAction::Ask { field: "product name".to_string() });
}

#[test]
fn two_products_then_sentinel() {
    let mut step = start();
    let mut writes = 0;
    let answers = ["kitchen", "kettle", "4.50", "garden", "rake", "12", "q"];
    let mut next = 0;
    loop {
        let event = match &step.action {
            WriterAction::Ask { .. } => {
                next += 1;
                entered(answers[next - 1])
            }
            WriterAction::Put { .. } => {
                writes += 1;
                WriterEvent::Written(Ok(()))
            }
            WriterAction::Stop => break,
            WriterAction::Wait => panic!("the dialogue never waits on its own answers"),
        };
        step = insert_item_step(TABLE, step.state, event);
    }
    assert_eq!(writes, 2);
    assert_eq!(next, answers.len());
    assert_eq!(step.state, WriterState::Done);
}

#[test]
fn ended_dialogue_stays_ended() {
    assert_eq!(
        insert_item_step(TABLE, WriterState::Done, entered("kitchen")),
        quiet(WriterState::Done, WriterAction::Stop)
    );
    assert_eq!(
        insert_item_step(TABLE, WriterState::Done, WriterEvent::Written(Err("x".to_string()))),
        quiet(WriterState::Done, WriterAction::Stop)
    );
}

#[test]
fn unawaited_events_change_nothing() {
    let price = WriterState::Price { category: "a".to_string(), productname: "b".to_string() };
    let name = WriterState::ProductName { category: "a".to_string() };
    for state in [WriterState::Category, name, price] {
        let step = insert_item_step(TABLE, state.clone(), WriterEvent::Written(Ok(())));
        assert_eq!(step, quiet(state, WriterAction::Wait));
    }
    assert_eq!(
        insert_item_step(TABLE, WriterState::Writing, entered("q")),
        quiet(WriterState::Writing, WriterAction::Wait)
    );
}

#[test]
fn write_goes_to_the_table_given() {
    let state = WriterState::Price { category: "a".to_string(), productname: "b".to_string() };
    match insert_item_step("other-table", state, entered("1")).action {
        WriterAction::Put { request } => assert_eq!(request.table_name, "other-table"),
        other => panic!("expected a write, got {:?}", other),
    }
}

#[test]
fn sentinel_line_as_read_stops_the_dialogue() {
    for line in ["q\n", "q\r\n", "q"] {
        let step =
            insert_item_step(TABLE, start().state, WriterEvent::Entered(entered_value(line)));
        assert_eq!(step, quiet(WriterState::Done, WriterAction::Stop));
    }
}

#[test]
fn sentinel_followed_by_a_space_is_an_ordinary_category() {
    let step = insert_item_step(TABLE, start().state, WriterEvent::Entered(entered_value("q \n")));
    assert_eq!(
        step,
        ask(WriterState::ProductName { category: "q ".to_string() }, "product name")
    );
}

#[test]
fn values_are_written_with_their_trailing_spaces() {
    let mut step = start();
    for line in ["kitchen\n", "kettle  \n", "4.50\t\r\n"] {
        step = insert_item_step(TABLE, step.state, WriterEvent::Entered(entered_value(line)));
    }
    assert_eq!(
        step.action,
        WriterAction::Put {
            request: put_item_request(
                TABLE.to_string(),
                "kitchen".to_string(),
                "kettle  ".to_string(),
                "4.50\t".to_string()
            )
        }
    );
}
