//! The interactive writer: a dialogue that asks for category, product name
//! and price, writes them as one item, and starts over until the category
//! entered is the sentinel.
//!
//! The dialogue is a state machine. Its caller performs each action and
//! hands back what came of it as the next event.

use crate::report::{line_views, unit_outcome_view};
use crate::write::{
    product_put, put_item_request, write_report, write_report_lines, PutItemRequest,
    PutItemRequestView,
};
use vstd::prelude::*;
use vstd::string::*;

verus! {

/// The category that ends the dialogue.
pub open spec fn sentinel() -> Seq<char> {
    "q"@
}

/// Where the dialogue stands.
#[derive(Clone, Debug, PartialEq, Eq)]
pub enum WriterState {
    /// Waiting for a category.
    Category,
    /// Waiting for a product name.
    ProductName { category: String },
    /// Waiting for a price.
    Price { category: String, productname: String },
    /// Waiting for the write to come back.
    Writing,
    /// The sentinel was entered.
    Done,
}

/// Mathematical content of a [`WriterState`].
pub enum WriterStateView {
    Category,
    ProductName { category: Seq<char> },
    Price { category: Seq<char>, productname: Seq<char> },
    Writing,
    Done,
}

impl View for WriterState {
    type V = WriterStateView;

    open spec fn view(&self) -> WriterStateView {
        match self {
            WriterState::Category => WriterStateView::Category,
            WriterState::ProductName { category } => WriterStateView::ProductName {
                category: category@,
            },
            WriterState::Price { category, productname } => WriterStateView::Price {
                category: category@,
                productname: productname@,
            },
            WriterState::Writing => WriterStateView::Writing,
            WriterState::Done => WriterStateView::Done,
        }
    }
}

/// What came of the last action.
#[derive(Debug, PartialEq, Eq)]
pub enum WriterEvent {
    /// The value that was entered at a prompt.
    Entered(String),
    /// The write came back: with success, or with the error's detail.
    Written(Result<(), String>),
}

/// Mathematical content of a [`WriterEvent`].
pub enum WriterEventView {
    Entered(Seq<char>),
    Written(Result<(), Seq<char>>),
}

impl View for WriterEvent {
    type V = WriterEventView;

    open spec fn view(&self) -> WriterEventView {
        match self {
            WriterEvent::Entered(value) => WriterEventView::Entered(value@),
            WriterEvent::Written(outcome) => WriterEventView::Written(unit_outcome_view(*outcome)),
        }
    }
}

/// What the caller is to do next.
#[derive(Clone, Debug, PartialEq, Eq)]
pub enum WriterAction {
    /// Prompt for `field`, read one line, and answer with the value entered.
    Ask { field: String },
    /// Send `request`, and answer with its outcome.
    Put { request: PutItemRequest },
    /// Leave the dialogue.
    Stop,
    /// Nothing new: the event was not the answer that the state waits for.
    Wait,
}

/// Mathematical content of a [`WriterAction`].
pub enum WriterActionView {
    Ask { field: Seq<char> },
    Put { request: PutItemRequestView },
    Stop,
    Wait,
}

impl View for WriterAction {
    type V = WriterActionView;

    open spec fn view(&self) -> WriterActionView {
        match self {
            WriterAction::Ask { field } => WriterActionView::Ask { field: field@ },
            WriterAction::Put { request } => WriterActionView::Put { request: request@ },
            WriterAction::Stop => WriterActionView::Stop,
            WriterAction::Wait => WriterActionView::Wait,
        }
    }
}

/// One move of the dialogue: the state reached, the lines to print first,
/// and the action to perform then.
#[derive(Clone, Debug, PartialEq, Eq)]
pub struct WriterStep {
    pub state: WriterState,
    pub lines: Vec<String>,
    pub action: WriterAction,
}

/// Mathematical content of a [`WriterStep`].
pub struct WriterStepView {
    pub state: WriterStateView,
    pub lines: Seq<Seq<char>>,
    pub action: WriterActionView,
}

impl View for WriterStep {
    type V = WriterStepView;

    open spec fn view(&self) -> WriterStepView {
        WriterStepView {
            state: self.state@,
            lines: line_views(self.lines@),
            action: self.action@,
        }
    }
}

/// The move that prints nothing and asks for `field`.
pub open spec fn ask(state: WriterStateView, field: Seq<char>) -> WriterStepView {
    WriterStepView { state, lines: seq![], action: WriterActionView::Ask { field } }
}

/// How the dialogue opens: by asking for a category.
pub open spec fn first_step() -> WriterStepView {
    ask(WriterStateView::Category, "category"@)
}

/// The dialogue's move from `state` on `event`, writing to `table_name`.
///
/// A category that is the sentinel ends the dialogue; any other is followed
/// by the questions for product name and price, and the price by the write
/// of the three values entered. Whatever a write comes to, the dialogue
/// starts over, after the error's detail where there was one. Once ended it
/// stays so, and an event that the state does not wait for changes nothing.
pub open spec fn next_step(
    table_name: Seq<char>,
    state: WriterStateView,
    event: WriterEventView,
) -> WriterStepView {
    match (state, event) {
        (WriterStateView::Category, WriterEventView::Entered(category)) => {
            if category == sentinel() {
                WriterStepView {
                    state: WriterStateView::Done,
                    lines: seq![],
                    action: WriterActionView::Stop,
                }
            } else {
                ask(WriterStateView::ProductName { category }, "product name"@)
            }
        },
        (WriterStateView::ProductName { category }, WriterEventView::Entered(productname)) => {
            ask(WriterStateView::Price { category, productname }, "price"@)
        },
        (WriterStateView::Price { category, productname }, WriterEventView::Entered(price)) => {
            WriterStepView {
                state: WriterStateView::Writing,
                lines: seq![],
                action: WriterActionView::Put {
                    request: product_put(table_name, category, productname, price),
                },
            }
        },
        (WriterStateView::Writing, WriterEventView::Written(outcome)) => {
            WriterStepView {
                state: WriterStateView::Category,
                lines: write_report_lines(outcome),
                action: WriterActionView::Ask { field: "category"@ },
            }
        },
        (WriterStateView::Done, _) => {
            WriterStepView {
                state: WriterStateView::Done,
                lines: seq![],
                action: WriterActionView::Stop,
            }
        },
        (_, _) => WriterStepView { state, lines: seq![], action: WriterActionView::Wait },
    }
}

/// Opens the dialogue.
pub fn start() -> (step: WriterStep)
    ensures
        step@ == first_step(),
{
    let step = WriterStep {
        state: WriterState::Category,
        lines: Vec::new(),
        action: WriterAction::Ask { field: String::from_str("category") },
    };
    assert(step@.lines =~= seq![]);
    step
}

/// Makes the dialogue's move from `state` on `event`.
pub fn insert_item_step(
    table_name: &str,
    state: WriterState,
    event: WriterEvent,
) -> (step: WriterStep)
    ensures
        step@ == next_step(table_name@, state@, event@),
{
    let step = match state {
        WriterState::Category => match event {
            WriterEvent::Entered(category) => {
                if category == String::from_str("q") {
                    WriterStep {
                        state: WriterState::Done,
                        lines: Vec::new(),
                        action: WriterAction::Stop,
                    }
                } else {
                    WriterStep {
                        state: WriterState::ProductName { category },
                        lines: Vec::new(),
                        action: WriterAction::Ask { field: String::from_str("product name") },
                    }
                }
            },
            WriterEvent::Written(_) => WriterStep {
                state: WriterState::Category,
                lines: Vec::new(),
                action: WriterAction::Wait,
            },
        },
        WriterState::ProductName { category } => match event {
            WriterEvent::Entered(productname) => WriterStep {
                state: WriterState::Price { category, productname },
                lines: Vec::new(),
                action: WriterAction::Ask { field: String::from_str("price") },
            },
            WriterEvent::Written(_) => WriterStep {
                state: WriterState::ProductName { category },
                lines: Vec::new(),
                action: WriterAction::Wait,
            },
        },
        WriterState::Price { category, productname } => match event {
            WriterEvent::Entered(price) => WriterStep {
                state: WriterState::Writing,
                lines: Vec::new(),
                action: WriterAction::Put {
                    request: put_item_request(
                        String::from_str(table_name),
                        category,
                        productname,
                        price,
                    ),
                },
            },
            WriterEvent::Written(_) => WriterStep {
                state: WriterState::Price { category, productname },
                lines: Vec::new(),
                action: WriterAction::Wait,
            },
        },
        WriterState::Writing => match event {
            WriterEvent::Written(outcome) => WriterStep {
                state: WriterState::Category,
                lines: write_report(outcome),
                action: WriterAction::Ask { field: String::from_str("category") },
            },
            WriterEvent::Entered(_) => WriterStep {
                state: WriterState::Writing,
                lines: Vec::new(),
                action: WriterAction::Wait,
            },
        },
        WriterState::Done => WriterStep {
            state: WriterState::Done,
            lines: Vec::new(),
            action: WriterAction::Stop,
        },
    };
    assert(step@.lines =~= next_step(table_name@, state@, event@).lines);
    step
}

/// Entering the sentinel as the category ends the dialogue at once: nothing
/// is printed and nothing is written. No other category ends it.
pub proof fn lemma_sentinel_ends_dialogue(table_name: Seq<char>, category: Seq<char>)
    ensures
        next_step(
            table_name,
            WriterStateView::Category,
            WriterEventView::Entered(sentinel()),
        ) == (WriterStepView {
            state: WriterStateView::Done,
            lines: seq![],
            action: WriterActionView::Stop,
        }),
        next_step(table_name, WriterStateView::Category, WriterEventView::Entered(category)).action
            is Stop <==> category == sentinel(),
{
}

/// A write is asked for in one situation only: a price was entered after a
/// category and a product name. The request then holds exactly these three.
pub proof fn lemma_put_only_after_price(
    table_name: Seq<char>,
    state: WriterStateView,
    event: WriterEventView,
)
    ensures
        next_step(table_name, state, event).action is Put <==> state is Price && event is Entered,
        state is Price && event is Entered ==> next_step(table_name, state, event).action
            == (WriterActionView::Put {
            request: product_put(
                table_name,
                state->Price_category,
                state->Price_productname,
                event->Entered_0,
            ),
        }),
{
}

/// Whatever a write comes to, the dialogue goes on with the question for the
/// next category. A failed write shows the error's detail first, a successful
/// one nothing.
pub proof fn lemma_write_outcome_keeps_dialogue(
    table_name: Seq<char>,
    outcome: Result<(), Seq<char>>,
)
    ensures
        next_step(table_name, WriterStateView::Writing, WriterEventView::Written(outcome)).state
            == WriterStateView::Category,
        next_step(table_name, WriterStateView::Writing, WriterEventView::Written(outcome)).action
            == (WriterActionView::Ask { field: "category"@ }),
        next_step(table_name, WriterStateView::Writing, WriterEventView::Written(outcome)).lines
            == match outcome {
            Ok(_) => Seq::<Seq<char>>::empty(),
            Err(detail) => seq![detail],
        },
{
}

/// A category other than the sentinel, a product name and a price, entered
/// in this order from the start, lead to the write of exactly these three
/// values to the table, each as it was entered.
pub proof fn lemma_entries_are_written(
    table_name: Seq<char>,
    category: Seq<char>,
    productname: Seq<char>,
    price: Seq<char>,
)
    requires
        category != sentinel(),
    ensures
        ({
            let first = next_step(
                table_name,
                first_step().state,
                WriterEventView::Entered(category),
            );
            let second = next_step(table_name, first.state, WriterEventView::Entered(productname));
            let third = next_step(table_name, second.state, WriterEventView::Entered(price));
            &&& first.action == (WriterActionView::Ask { field: "product name"@ })
            &&& second.action == (WriterActionView::Ask { field: "price"@ })
            &&& third.action == (WriterActionView::Put {
                request: product_put(table_name, category, productname, price),
            })
            &&& third.state == WriterStateView::Writing
        }),
{
}

/// Once ended, the dialogue stays ended: every event is answered by `Stop`.
pub proof fn lemma_done_is_final(table_name: Seq<char>, event: WriterEventView)
    ensures
        next_step(table_name, WriterStateView::Done, event) == (WriterStepView {
            state: WriterStateView::Done,
            lines: seq![],
            action: WriterActionView::Stop,
        }),
{
}

} // verus!
