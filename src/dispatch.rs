//! The choice of one handler for each inbound event, and the step that the
//! handler takes on the conversation's state.

use vstd::prelude::*;

use crate::action::{decoded, CallbackView, ItemVerb, Kind, MyCallback};
use crate::menu::{command_kind, command_of, label_text, Command, TextCommand};
use crate::rating::{parse_rating, rating_of, Rating};
use crate::state::{state_in, ConversationStore, State};

verus! {

/// An inbound update from the chat platform.
pub enum Event {
    /// A message, with its text if it has any.
    Message { text: Option<String> },
    /// A button press, with the payload of the button if it has one.
    Button { data: Option<String> },
}

/// The handler an event goes to.
pub enum Route {
    Command(Command),
    Menu(TextCommand),
    /// A reply to the question for a title.
    TitleReply { kind: Kind, text: String },
    /// A reply to the question for a rating of item `item_id`.
    RatingReply { kind: Kind, item_id: i64, text: String },
    Button(MyCallback),
    /// Nothing handles the event.
    Drop,
}

/// What a message with text `text` is routed to, in state `state`: a command
/// first, whatever the state; then a caption of the menu, in the idle state
/// only; then the reply that the state waits for; else nothing.
pub open spec fn text_routed(text: Seq<char>, state: State, bot: Seq<char>, r: Route) -> bool {
    match command_of(text, bot) {
        Some(c) => r == Route::Command(c),
        None => if state is Idle && exists|m: TextCommand| label_text(m) == text {
            r matches Route::Menu(m) && label_text(m) == text
        } else {
            match state {
                State::Idle => r is Drop,
                State::AwaitingTitle { kind } => r matches Route::TitleReply { kind: k, text: t }
                    && k == kind && t@ == text,
                State::AwaitingRating { kind, item_id } => r matches Route::RatingReply {
                    kind: k,
                    item_id: i,
                    text: t,
                } && k == kind && i == item_id && t@ == text,
            }
        },
    }
}

/// What a press with payload `data` is routed to: the press it decodes to,
/// or nothing when it does not decode.
pub open spec fn button_routed(data: Seq<char>, r: Route) -> bool {
    match decoded(data) {
        Ok(a) => r matches Route::Button(b) && b@ == a,
        Err(_) => r is Drop,
    }
}

pub open spec fn routed(event: Event, state: State, bot: Seq<char>, r: Route) -> bool {
    match event {
        Event::Message { text: Some(t) } => text_routed(t@, state, bot, r),
        Event::Button { data: Some(d) } => button_routed(d@, r),
        _ => r is Drop,
    }
}

/// Picks the one handler for `event` when the conversation is in `state`.
pub fn route(event: &Event, state: State, bot_name: &str) -> (r: Route)
    ensures
        routed(*event, state, bot_name@, r),
{
    match event {
        Event::Message { text: Some(t) } => {
            if let Some(c) = Command::parse(t.as_str(), bot_name) {
                return Route::Command(c);
            }
            if let State::Idle = state {
                if let Some(m) = TextCommand::from_label(t.as_str()) {
                    return Route::Menu(m);
                }
            }
            match state {
                State::Idle => Route::Drop,
                State::AwaitingTitle { kind } => Route::TitleReply { kind, text: t.as_str().to_owned() },
                State::AwaitingRating { kind, item_id } => Route::RatingReply {
                    kind,
                    item_id,
                    text: t.as_str().to_owned(),
                },
            }
        },
        Event::Button { data: Some(d) } => match MyCallback::decode(d.as_str()) {
            Ok(a) => Route::Button(a),
            Err(_) => Route::Drop,
        },
        _ => Route::Drop,
    }
}

/// The outside work a routed event asks for.
pub enum Task {
    /// Greet and show the main menu.
    ShowMenu,
    /// List the commands.
    ShowHelp,
    /// Confirm that the conversation was cancelled.
    ConfirmCancel,
    /// Ask for a title to search for.
    AskTitle { kind: Kind },
    /// Show the items still to watch, or popular ones when there are none.
    ShowToWatch { kind: Kind },
    /// Show the items already watched.
    ShowWatched { kind: Kind },
    /// Show page `page` of the search for `query`.
    Search { kind: Kind, query: String, page: u8 },
    /// Store `rating` for item `item_id`, then thank the user.
    SaveRating { kind: Kind, item_id: i64, rating: Rating },
    /// Say that the reply is not a number and ask again.
    ReportBadRating,
    /// Act on one item as `verb` says; for `Watched` and `Rate`, then ask for
    /// a rating.
    Item { verb: ItemVerb, kind: Kind, id: i64 },
    /// Leave the current screen for the main menu.
    BackToMenu,
    /// Nothing to do.
    Nothing,
}

/// The decision for one event: the state to store at once, the work to do,
/// and the state to store once that work has succeeded. When it fails, the
/// conversation keeps `now`, so that the user can try the same step again.
pub struct Step {
    pub now: State,
    pub task: Task,
    pub done: State,
}

/// The state that a press leaves behind once its work has succeeded.
pub open spec fn state_after_press(a: CallbackView) -> State {
    match a {
        CallbackView::Item { verb: ItemVerb::Watched, kind, id } => State::AwaitingRating {
            kind,
            item_id: id,
        },
        CallbackView::Item { verb: ItemVerb::Rate, kind, id } => State::AwaitingRating {
            kind,
            item_id: id,
        },
        _ => State::Idle,
    }
}

pub open spec fn planned(route: Route, state: State, r: Step) -> bool {
    match route {
        Route::Command(Command::Start) => r.now == State::Idle && r.task is ShowMenu && r.done
            == State::Idle,
        Route::Command(Command::Help) => r.now == state && r.task is ShowHelp && r.done == state,
        Route::Command(Command::Cancel) => r.now == State::Idle && r.task is ConfirmCancel
            && r.done == State::Idle,
        Route::Menu(m) => r.now == state && match m {
            TextCommand::SearchFilm | TextCommand::SearchSeries => r.task == (Task::AskTitle {
                kind: command_kind(m),
            }) && r.done == (State::AwaitingTitle { kind: command_kind(m) }),
            TextCommand::ToWatchFilms | TextCommand::ToWatchSeries => r.task == (Task::ShowToWatch {
                kind: command_kind(m),
            }) && r.done == state,
            TextCommand::WatchedFilms | TextCommand::WatchedSeries => r.task == (Task::ShowWatched {
                kind: command_kind(m),
            }) && r.done == state,
        },
        Route::TitleReply { kind, text } => if state == (State::AwaitingTitle { kind }) {
            &&& r.now == state
            &&& r.task matches Task::Search { kind: k, query: q, page: p } && k == kind && q@
                == text@ && p == 1
            &&& r.done == State::Idle
        } else {
            r.now == state && r.task is Nothing && r.done == state
        },
        Route::RatingReply { kind, item_id, text } => if state == (State::AwaitingRating {
            kind,
            item_id,
        }) {
            r.now == state && match rating_of(text@) {
                Some(v) => {
                    &&& r.task matches Task::SaveRating { kind: k, item_id: i, rating: x } && k
                        == kind && i == item_id && x@ == v
                    &&& r.done == State::Idle
                },
                None => r.task is ReportBadRating && r.done == state,
            }
        } else {
            r.now == state && r.task is Nothing && r.done == state
        },
        Route::Button(b) => match b@ {
            CallbackView::Cancel => r.now == State::Idle && r.task is BackToMenu && r.done
                == State::Idle,
            CallbackView::Item { verb, kind, id } => r.now == state && r.task == (Task::Item {
                verb,
                kind,
                id,
            }) && r.done == state_after_press(b@),
            CallbackView::Search { kind, query, page, .. } => {
                &&& r.now == state
                &&& r.task matches Task::Search { kind: k, query: q, page: p } && k == kind && q@
                    == query && p == page
                &&& r.done == State::Idle
            },
        },
        Route::Drop => r.now == state && r.task is Nothing && r.done == state,
    }
}

/// Decides what a routed event does to a conversation in `state`. A reply
/// meant for another state than `state` does nothing and keeps the state.
pub fn plan(route: Route, state: State) -> (r: Step)
    ensures
        planned(route, state, r),
{
    match route {
        Route::Command(Command::Start) => Step { now: State::Idle, task: Task::ShowMenu, done: State::Idle },
        Route::Command(Command::Help) => Step { now: state, task: Task::ShowHelp, done: state },
        Route::Command(Command::Cancel) => Step {
            now: State::Idle,
            task: Task::ConfirmCancel,
            done: State::Idle,
        },
        Route::Menu(m) => match m {
            TextCommand::SearchFilm => Step {
                now: state,
                task: Task::AskTitle { kind: Kind::Film },
                done: State::AwaitingTitle { kind: Kind::Film },
            },
            TextCommand::SearchSeries => Step {
                now: state,
                task: Task::AskTitle { kind: Kind::Series },
                done: State::AwaitingTitle { kind: Kind::Series },
            },
            TextCommand::ToWatchFilms => Step {
                now: state,
                task: Task::ShowToWatch { kind: Kind::Film },
                done: state,
            },
            TextCommand::ToWatchSeries => Step {
                now: state,
                task: Task::ShowToWatch { kind: Kind::Series },
                done: state,
            },
            TextCommand::WatchedFilms => Step {
                now: state,
                task: Task::ShowWatched { kind: Kind::Film },
                done: state,
            },
            TextCommand::WatchedSeries => Step {
                now: state,
                task: Task::ShowWatched { kind: Kind::Series },
                done: state,
            },
        },
        Route::TitleReply { kind, text } => if state == (State::AwaitingTitle { kind }) {
            Step { now: state, task: Task::Search { kind, query: text, page: 1 }, done: State::Idle }
        } else {
            Step { now: state, task: Task::Nothing, done: state }
        },
        Route::RatingReply { kind, item_id, .. } if state != (State::AwaitingRating {
            kind,
            item_id,
        }) => Step { now: state, task: Task::Nothing, done: state },
        Route::RatingReply { kind, item_id, text } => match parse_rating(text.as_str()) {
            Some(rating) => Step {
                now: state,
                task: Task::SaveRating { kind, item_id, rating },
                done: State::Idle,
            },
            None => Step { now: state, task: Task::ReportBadRating, done: state },
        },
        Route::Button(b) => match b {
            MyCallback::Cancel => Step { now: State::Idle, task: Task::BackToMenu, done: State::Idle },
            MyCallback::ShowDetails { kind, id } => Step {
                now: state,
                task: Task::Item { verb: ItemVerb::Details, kind, id },
                done: State::Idle,
            },
            MyCallback::ShowCredits { kind, id } => Step {
                now: state,
                task: Task::Item { verb: ItemVerb::Credits, kind, id },
                done: State::Idle,
            },
            MyCallback::AddToWatchlist { kind, id } => Step {
                now: state,
                task: Task::Item { verb: ItemVerb::Add, kind, id },
                done: State::Idle,
            },
            MyCallback::MarkWatched { kind, id } => Step {
                now: state,
                task: Task::Item { verb: ItemVerb::Watched, kind, id },
                done: State::AwaitingRating { kind, item_id: id },
            },
            MyCallback::MarkUnwatched { kind, id } => Step {
                now: state,
                task: Task::Item { verb: ItemVerb::Unwatched, kind, id },
                done: State::Idle,
            },
            MyCallback::RequestRating { kind, id } => Step {
                now: state,
                task: Task::Item { verb: ItemVerb::Rate, kind, id },
                done: State::AwaitingRating { kind, item_id: id },
            },
            MyCallback::DeleteFromWatchlist { kind, id } => Step {
                now: state,
                task: Task::Item { verb: ItemVerb::Delete, kind, id },
                done: State::Idle,
            },
            MyCallback::SearchPage { kind, query, page, .. } => Step {
                now: state,
                task: Task::Search { kind, query, page },
                done: State::Idle,
            },
        },
        Route::Drop => Step { now: state, task: Task::Nothing, done: state },
    }
}

/// Handles one event of conversation `id`: reads its state, routes the event,
/// decides the step and stores the state that holds while the work is done.
pub fn handle(store: &mut ConversationStore, id: i64, event: &Event, bot_name: &str) -> (r: Step)
    ensures
        exists|rt: Route|
            routed(*event, state_in(old(store)@, id), bot_name@, rt) && planned(
                rt,
                state_in(old(store)@, id),
                r,
            ),
        final(store)@ == old(store)@.insert(id, r.now),
        forall|other: i64|
            other != id ==> #[trigger] state_in(final(store)@, other) == state_in(old(store)@, other),
        event matches Event::Message { text: Some(t) } && command_of(t@, bot_name@) == Some(
            Command::Cancel,
        ) ==> r.now == State::Idle && r.task is ConfirmCancel && r.done == State::Idle,
{
    let state = store.get(id);
    let rt = route(event, state, bot_name);
    let step = plan(rt, state);
    store.set(id, step.now);
    step
}

/// Ends the step of conversation `id`: once its work has succeeded the
/// conversation moves on to `done`; when it failed it stays where it is.
pub fn finish(store: &mut ConversationStore, id: i64, step: &Step, succeeded: bool)
    ensures
        succeeded ==> final(store)@ == old(store)@.insert(id, step.done),
        !succeeded ==> final(store)@ == old(store)@,
        forall|other: i64|
            other != id ==> #[trigger] state_in(final(store)@, other) == state_in(old(store)@, other),
{
    if succeeded {
        store.set(id, step.done);
    }
}

} // verus!
