//! The interactive viewer's state machine: a single-threaded update
//! function from viewer state and event (a key press, or the completion of
//! a search) to the next state and the action the event loop must perform.
//! All mutation of the viewer state funnels through [`App::update`], whose
//! behaviour is the mathematical transition function [`step`].

use vstd::prelude::*;
use crate::model::{AnimeData, ClientError, spec_error_message};

verus! {

/// Whether keystrokes compose the query text or navigate.
#[derive(Clone, Copy)]
pub enum InputMode {
    Normal,
    Editing,
}

/// Which of the two views fills the pane.
#[derive(Clone, Copy)]
pub enum Tab {
    Search,
    Details,
}

/// A key press, in the viewer's vocabulary. In `Normal` mode `Char('e')`
/// enters editing, `Char('q')` quits, and other characters do nothing; in
/// `Editing` mode every `Char` appends to the query.
#[derive(Clone, Copy)]
pub enum Key {
    Char(char),
    Enter,
    Backspace,
    Esc,
    Down,
    Up,
    Switch,
}

/// One event delivered to the update function: a key press, or the outcome
/// of the search that was outstanding.
pub enum Event {
    Key(Key),
    SearchDone(Result<Vec<AnimeData>, ClientError>),
}

/// What the event loop must do after an update.
pub enum Action {
    Nothing,
    StartSearch(String),
    Quit,
}

/// The mathematical state of the viewer.
#[verifier::ext_equal]
pub struct ViewerModel {
    /// The in-progress or last-submitted query text.
    pub input: Seq<char>,
    /// Editing versus navigation.
    pub mode: InputMode,
    /// The tab filling the pane.
    pub tab: Tab,
    /// The current result batch.
    pub results: Seq<AnimeData>,
    /// The highlighted position in `results`, if any.
    pub selected: Option<int>,
    /// Whether a search is outstanding.
    pub loading: bool,
    /// The message of the last failed search, until a search succeeds.
    pub error: Option<Seq<char>>,
}

/// The mathematical value of an [`Action`].
pub enum ActionModel {
    Nothing,
    StartSearch(Seq<char>),
    Quit,
}

/// The viewer invariant: the selection, when present, points into the
/// current result batch.
pub open spec fn model_wf(m: ViewerModel) -> bool {
    match m.selected {
        Some(i) => 0 <= i < m.results.len(),
        None => true,
    }
}

/// The state every session starts in.
pub open spec fn initial_model() -> ViewerModel {
    ViewerModel {
        input: Seq::empty(),
        mode: InputMode::Normal,
        tab: Tab::Search,
        results: Seq::empty(),
        selected: None,
        loading: false,
        error: None,
    }
}

/// Moving the selection down: clamped at the last valid index, never past
/// it, and absent while the batch is empty.
pub open spec fn down_index(sel: Option<int>, len: int) -> Option<int> {
    if len <= 0 {
        None
    } else {
        match sel {
            None => Some(0int),
            Some(i) => if i + 1 < len {
                Some(i + 1)
            } else {
                Some(len - 1)
            },
        }
    }
}

/// Moving the selection up: clamped at the first index.
pub open spec fn up_index(sel: Option<int>, len: int) -> Option<int> {
    if len <= 0 {
        None
    } else {
        match sel {
            None => None,
            Some(i) => if i > 0 {
                Some(i - 1)
            } else {
                Some(0int)
            },
        }
    }
}

/// The other tab.
pub open spec fn toggled(t: Tab) -> Tab {
    match t {
        Tab::Search => Tab::Details,
        Tab::Details => Tab::Search,
    }
}

/// A key press in `Normal` mode.
pub open spec fn step_normal_key(m: ViewerModel, k: Key) -> (ViewerModel, ActionModel) {
    match k {
        Key::Char(c) => if c == 'e' {
            (ViewerModel { mode: InputMode::Editing, ..m }, ActionModel::Nothing)
        } else if c == 'q' {
            (m, ActionModel::Quit)
        } else {
            (m, ActionModel::Nothing)
        },
        Key::Down => (
            ViewerModel { selected: down_index(m.selected, m.results.len() as int), ..m },
            ActionModel::Nothing,
        ),
        Key::Up => (
            ViewerModel { selected: up_index(m.selected, m.results.len() as int), ..m },
            ActionModel::Nothing,
        ),
        Key::Switch => (ViewerModel { tab: toggled(m.tab), ..m }, ActionModel::Nothing),
        Key::Enter => if m.tab is Search && m.selected is Some {
            (ViewerModel { tab: Tab::Details, ..m }, ActionModel::Nothing)
        } else {
            (m, ActionModel::Nothing)
        },
        _ => (m, ActionModel::Nothing),
    }
}

/// A key press in `Editing` mode. Submitting while a search is already
/// outstanding is ignored, so two searches never race.
pub open spec fn step_editing_key(m: ViewerModel, k: Key) -> (ViewerModel, ActionModel) {
    match k {
        Key::Char(c) => (ViewerModel { input: m.input.push(c), ..m }, ActionModel::Nothing),
        Key::Backspace => (
            ViewerModel {
                input: if m.input.len() > 0 {
                    m.input.drop_last()
                } else {
                    m.input
                },
                ..m
            },
            ActionModel::Nothing,
        ),
        Key::Enter => if m.loading {
            (m, ActionModel::Nothing)
        } else {
            (ViewerModel { loading: true, ..m }, ActionModel::StartSearch(m.input))
        },
        Key::Esc => (ViewerModel { mode: InputMode::Normal, ..m }, ActionModel::Nothing),
        _ => (m, ActionModel::Nothing),
    }
}

/// Completion of the outstanding search: success replaces the batch and
/// clears the selection; failure empties the batch and surfaces the error
/// message inline. A completion while no search is outstanding is stale and
/// is ignored.
pub open spec fn step_done(m: ViewerModel, r: Result<Vec<AnimeData>, ClientError>) -> ViewerModel {
    if !m.loading {
        m
    } else {
        match r {
            Ok(v) => ViewerModel {
                results: v@,
                selected: None,
                loading: false,
                mode: InputMode::Normal,
                error: None,
                ..m
            },
            Err(e) => ViewerModel {
                results: Seq::empty(),
                selected: None,
                loading: false,
                mode: InputMode::Normal,
                error: Some(spec_error_message(e)),
                ..m
            },
        }
    }
}

/// The transition function of the viewer.
pub open spec fn step(m: ViewerModel, event: Event) -> (ViewerModel, ActionModel) {
    match event {
        Event::Key(k) => match m.mode {
            InputMode::Normal => step_normal_key(m, k),
            InputMode::Editing => step_editing_key(m, k),
        },
        Event::SearchDone(r) => (step_done(m, r), ActionModel::Nothing),
    }
}

/// The viewer state as the event loop holds it.
pub struct App {
    /// The in-progress or last-submitted query text.
    pub input: String,
    /// Editing versus navigation.
    pub input_mode: InputMode,
    /// The tab filling the pane.
    pub active_tab: Tab,
    /// The current result batch.
    pub search_results: Vec<AnimeData>,
    /// The highlighted position in `search_results`, if any.
    pub selected_anime_index: Option<usize>,
    /// Whether a search is outstanding.
    pub loading: bool,
    /// The message of the last failed search, until a search succeeds.
    pub last_error: Option<String>,
}

/// The selection as a mathematical value.
pub open spec fn opt_index_model(o: Option<usize>) -> Option<int> {
    match o {
        Some(i) => Some(i as int),
        None => None,
    }
}

impl App {
    /// The mathematical state this value holds.
    pub open spec fn model(self) -> ViewerModel {
        ViewerModel {
            input: self.input@,
            mode: self.input_mode,
            tab: self.active_tab,
            results: self.search_results@,
            selected: opt_index_model(self.selected_anime_index),
            loading: self.loading,
            error: match self.last_error {
                Some(e) => Some(e@),
                None => None,
            },
        }
    }

    /// The viewer invariant, on the stored state.
    pub open spec fn wf(self) -> bool {
        model_wf(self.model())
    }

    /// A fresh viewer: empty query, navigation mode, search tab, no
    /// results, nothing selected, no search outstanding.
    pub fn new() -> (app: App)
        ensures
            app.model() == initial_model(),
            app.wf(),
    {
        let app = App {
            input: String::new(),
            input_mode: InputMode::Normal,
            active_tab: Tab::Search,
            search_results: Vec::new(),
            selected_anime_index: None,
            loading: false,
            last_error: None,
        };
        proof {
            assert(app.model() =~= initial_model());
        }
        app
    }

    /// Applies one event: the stored state moves exactly as [`step`] says,
    /// and the returned action is the one [`step`] prescribes.
    pub fn update(&mut self, event: Event) -> (action: Action)
        requires
            old(self).wf(),
        ensures
            final(self).wf(),
            final(self).model() == step(old(self).model(), event).0,
            action.model() == step(old(self).model(), event).1,
    {
        match event {
            Event::Key(k) => match self.input_mode {
                InputMode::Normal => self.normal_key(k),
                InputMode::Editing => self.editing_key(k),
            },
            Event::SearchDone(r) => {
                if self.loading {
                    match r {
                        Ok(v) => {
                            self.search_results = v;
                            self.selected_anime_index = None;
                            self.loading = false;
                            self.input_mode = InputMode::Normal;
                            self.last_error = None;
                        },
                        Err(e) => {
                            self.search_results = Vec::new();
                            self.selected_anime_index = None;
                            self.loading = false;
                            self.input_mode = InputMode::Normal;
                            self.last_error = Some(e.message());
                        },
                    }
                }
                proof {
                    assert(self.model() =~= step(old(self).model(), event).0);
                }
                Action::Nothing
            },
        }
    }

    /// A key press in `Normal` mode.
    fn normal_key(&mut self, k: Key) -> (action: Action)
        requires
            old(self).wf(),
            old(self).input_mode is Normal,
        ensures
            final(self).wf(),
            final(self).model() == step_normal_key(old(self).model(), k).0,
            action.model() == step_normal_key(old(self).model(), k).1,
    {
        let ghost m = self.model();
        let action = match k {
            Key::Char(c) => {
                if c == 'e' {
                    self.input_mode = InputMode::Editing;
                    Action::Nothing
                } else if c == 'q' {
                    Action::Quit
                } else {
                    Action::Nothing
                }
            },
            Key::Down => {
                self.selected_anime_index = move_down(
                    self.selected_anime_index,
                    self.search_results.len(),
                );
                Action::Nothing
            },
            Key::Up => {
                self.selected_anime_index = move_up(
                    self.selected_anime_index,
                    self.search_results.len(),
                );
                Action::Nothing
            },
            Key::Switch => {
                self.active_tab = match self.active_tab {
                    Tab::Search => Tab::Details,
                    Tab::Details => Tab::Search,
                };
                Action::Nothing
            },
            Key::Enter => {
                let activate = match (&self.active_tab, &self.selected_anime_index) {
                    (Tab::Search, Some(_)) => true,
                    _ => false,
                };
                if activate {
                    self.active_tab = Tab::Details;
                }
                Action::Nothing
            },
            _ => Action::Nothing,
        };
        proof {
            assert(self.model() =~= step_normal_key(m, k).0);
        }
        action
    }

    /// A key press in `Editing` mode.
    fn editing_key(&mut self, k: Key) -> (action: Action)
        requires
            old(self).wf(),
            old(self).input_mode is Editing,
        ensures
            final(self).wf(),
            final(self).model() == step_editing_key(old(self).model(), k).0,
            action.model() == step_editing_key(old(self).model(), k).1,
    {
        let ghost m = self.model();
        let action = match k {
            Key::Char(c) => {
                crate::strutil::push_char(&mut self.input, c);
                Action::Nothing
            },
            Key::Backspace => {
                let n = self.input.as_str().unicode_len();
                if n > 0 {
                    let shorter = String::from_str(self.input.as_str().substring_char(0, n - 1));
                    self.input = shorter;
                }
                proof {
                    assert(self.input@ =~= (if m.input.len() > 0 {
                        m.input.drop_last()
                    } else {
                        m.input
                    }));
                }
                Action::Nothing
            },
            Key::Enter => {
                if self.loading {
                    Action::Nothing
                } else {
                    self.loading = true;
                    Action::StartSearch(self.input.clone())
                }
            },
            Key::Esc => {
                self.input_mode = InputMode::Normal;
                Action::Nothing
            },
            _ => Action::Nothing,
        };
        proof {
            assert(self.model() =~= step_editing_key(m, k).0);
        }
        action
    }
}

impl Action {
    /// The mathematical value of this action.
    pub open spec fn model(self) -> ActionModel {
        match self {
            Action::Nothing => ActionModel::Nothing,
            Action::StartSearch(q) => ActionModel::StartSearch(q@),
            Action::Quit => ActionModel::Quit,
        }
    }
}

/// Moves the selection down within the batch, clamping at the end.
fn move_down(sel: Option<usize>, len: usize) -> (r: Option<usize>)
    requires
        sel matches Some(i) ==> i < len,
    ensures
        opt_index_model(r) == down_index(opt_index_model(sel), len as int),
{
    if len == 0 {
        None
    } else {
        match sel {
            None => Some(0),
            Some(i) => if i + 1 < len {
                Some(i + 1)
            } else {
                Some(len - 1)
            },
        }
    }
}

/// Moves the selection up within the batch, clamping at the start.
fn move_up(sel: Option<usize>, len: usize) -> (r: Option<usize>)
    requires
        sel matches Some(i) ==> i < len,
    ensures
        opt_index_model(r) == up_index(opt_index_model(sel), len as int),
{
    if len == 0 {
        None
    } else {
        match sel {
            None => None,
            Some(i) => if i > 0 {
                Some(i - 1)
            } else {
                Some(0)
            },
        }
    }
}

/// Every step from a well-formed state, on any event, lands in a
/// well-formed state: the selection can never leave the result batch.
pub proof fn lemma_step_preserves_wf(m: ViewerModel, event: Event)
    requires
        model_wf(m),
    ensures
        model_wf(step(m, event).0),
{
}

/// Navigating down never wraps and never leaves the valid range: with the
/// last entry selected the selection stays there, and with an empty batch
/// there is no selection at all.
pub proof fn lemma_move_down_clamps(m: ViewerModel)
    requires
        model_wf(m),
        m.mode is Normal,
    ensures
        model_wf(step(m, Event::Key(Key::Down)).0),
        m.results.len() == 0 ==> step(m, Event::Key(Key::Down)).0.selected is None,
        m.selected == Some(m.results.len() - 1) ==> step(m, Event::Key(Key::Down)).0.selected
            == m.selected,
{
}

/// Submitting while a search is already outstanding changes nothing and
/// starts nothing: at most one search is ever in flight.
pub proof fn lemma_submit_while_loading_ignored(m: ViewerModel)
    requires
        m.mode is Editing,
        m.loading,
    ensures
        step(m, Event::Key(Key::Enter)).0 == m,
        step(m, Event::Key(Key::Enter)).1 == ActionModel::Nothing,
{
}

/// A completion that arrives while no search is outstanding is stale and
/// leaves the state untouched.
pub proof fn lemma_stale_completion_ignored(m: ViewerModel, r: Result<Vec<AnimeData>, ClientError>)
    requires
        !m.loading,
    ensures
        step(m, Event::SearchDone(r)).0 == m,
{
}

/// The single-flight guarantee: one submit starts the search for the
/// current query and marks it outstanding; a second submit while it is
/// outstanding is ignored; and the one completion that arrives determines
/// the result batch alone.
pub proof fn lemma_single_search_in_flight(m: ViewerModel, v: Vec<AnimeData>)
    requires
        m.mode is Editing,
        !m.loading,
    ensures
        step(m, Event::Key(Key::Enter)).1 == ActionModel::StartSearch(m.input),
        step(m, Event::Key(Key::Enter)).0.loading,
        step(step(m, Event::Key(Key::Enter)).0, Event::Key(Key::Enter)).0 == step(
            m,
            Event::Key(Key::Enter),
        ).0,
        step(step(m, Event::Key(Key::Enter)).0, Event::SearchDone(Ok(v))).0.results == v@,
{
}

/// A failed search never crashes the viewer: the step is defined, loading
/// stops, the error message is surfaced inline, and the batch is emptied —
/// in particular, a batch that was already empty is unchanged.
pub proof fn lemma_search_failure_inline(m: ViewerModel, e: ClientError)
    requires
        model_wf(m),
        m.loading,
    ensures
        model_wf(step(m, Event::SearchDone(Err(e))).0),
        !step(m, Event::SearchDone(Err(e))).0.loading,
        step(m, Event::SearchDone(Err(e))).0.error == Some(spec_error_message(e)),
        step(m, Event::SearchDone(Err(e))).0.results.len() == 0,
        m.results.len() == 0 ==> step(m, Event::SearchDone(Err(e))).0.results == m.results,
{
    assert(step(m, Event::SearchDone(Err(e))).0.results =~= Seq::<AnimeData>::empty());
    if m.results.len() == 0 {
        assert(m.results =~= Seq::<AnimeData>::empty());
    }
}

} // verus!
