use vstd::prelude::*;
use std::sync::{Arc, Mutex};
use crate::detector::{DetectError, ProcessDetector};

verus! {

#[verifier::external_type_specification]
#[verifier::external_body]
#[verifier::reject_recursive_types(T)]
pub struct ExMutex<T: ?Sized>(Mutex<T>);

/// Whether the game runs and has the focus; shared between threads.
#[derive(Clone, Copy, Debug)]
pub struct GameState {
    pub running: bool,
    pub focused: bool,
    pub pid: Option<u32>,
}

impl Default for GameState {
    fn default() -> (r: GameState)
        ensures
            r == (GameState { running: false, focused: false, pid: None }),
    {
        GameState { running: false, focused: false, pid: None }
    }
}

impl GameState {
    /// Whether key remapping applies: the game runs and is focused.
    pub fn is_active(&self) -> (r: bool)
        ensures
            r == (self.running && self.focused),
    {
        self.running && self.focused
    }
}

/// A new lock around a game state.
///
/// Calls std's `Mutex::new`; nothing is claimed of the lock, which Verus
/// cannot look into.
#[verifier::external_body]
pub(crate) fn new_lock(state: GameState) -> Mutex<GameState> {
    Mutex::new(state)
}

/// The game state currently behind the lock.
///
/// Calls std's `Mutex::lock` and copies the value out; a lock poisoned by a
/// panicking thread still yields its value. Another thread may change the
/// value at any time, so nothing is claimed of it.
#[verifier::external_body]
pub(crate) fn read_state(cell: &Mutex<GameState>) -> GameState {
    match cell.lock() {
        Ok(guard) => *guard,
        Err(poisoned) => *poisoned.into_inner(),
    }
}

/// Updates the game state behind the lock while holding it: `f` is given
/// `arg` and the state read, and gives the state to store with a further
/// result. Returns the state read, the state stored and the further result.
///
/// Calls std's `Mutex::lock` (a lock poisoned by a panicking thread still
/// yields its value) and holds it while `f` runs, so that no other thread
/// writes in between. The contract claims that `f` was called on the state
/// returned first and gave the other two; what the lock holds is not
/// visible to Verus.
#[verifier::external_body]
pub(crate) fn update_state<A, R, F: FnOnce(A, GameState) -> (GameState, R)>(
    cell: &Mutex<GameState>,
    arg: A,
    f: F,
) -> (r: (GameState, GameState, R))
    requires
        forall|s: GameState| f.requires((arg, s)),
    ensures
        f.ensures((arg, r.0), (r.1, r.2)),
{
    let mut guard = match cell.lock() {
        Ok(guard) => guard,
        Err(poisoned) => poisoned.into_inner(),
    };
    let read = *guard;
    let (next, extra) = f(arg, read);
    *guard = next;
    (read, next, extra)
}

/// The process names under which Warcraft III runs.
pub open spec fn game_process_name_text(i: int) -> Seq<char> {
    if i == 0 {
        "war3"@
    } else if i == 1 {
        "Warcraft III"@
    } else if i == 2 {
        "Warcraft III.exe"@
    } else if i == 3 {
        "warcraft_iii"@
    } else {
        "Warcraft III.app"@
    }
}

/// How many process names are looked for.
pub const GAME_PROCESS_NAME_COUNT: usize = 5;

/// The `i`-th process name under which Warcraft III runs.
pub fn game_process_name(i: usize) -> (r: &'static str)
    requires
        i < GAME_PROCESS_NAME_COUNT,
    ensures
        r@ == game_process_name_text(i as int),
{
    match i {
        0 => "war3",
        1 => "Warcraft III",
        2 => "Warcraft III.exe",
        3 => "warcraft_iii",
        _ => "Warcraft III.app", // macOS/Wine wrapper
    }
}

/// The state after looking for the game process: running exactly when a
/// process was found, with its pid; the focus is left as it was.
pub open spec fn after_process_lookup(state: GameState, found: Option<u32>) -> GameState {
    GameState { running: found is Some, focused: state.focused, pid: found }
}

/// The state after asking whether the game's window is focused: `answer`
/// is the answer for the recorded pid, `None` when there is no pid or the
/// query failed, and then the game counts as not focused.
pub open spec fn after_focus_query(state: GameState, answer: Option<bool>) -> GameState {
    GameState {
        focused: state.pid is Some && answer == Some(true),
        ..state
    }
}

/// Records the outcome of the process lookup.
pub fn record_process_lookup(state: GameState, found: Option<u32>) -> (r: GameState)
    ensures
        r == after_process_lookup(state, found),
{
    GameState { running: found.is_some(), focused: state.focused, pid: found }
}

/// Records the outcome of the focus query.
pub fn record_focus_query(state: GameState, answer: Option<bool>) -> (r: GameState)
    ensures
        r == after_focus_query(state, answer),
{
    let focused = match state.pid {
        Some(_) => match answer {
            Some(f) => f,
            None => false,
        },
        None => false,
    };
    GameState { focused, ..state }
}

/// What a process lookup found for one name: the pid when the detector
/// answered with one, else nothing (no such process, or a failed query).
pub open spec fn found_in_answer(answer: Result<Option<u32>, DetectError>) -> Option<u32> {
    match answer {
        Ok(Some(pid)) => Some(pid),
        _ => None,
    }
}

/// The pid of the first answer that found one.
pub open spec fn first_found_in(answers: Seq<Result<Option<u32>, DetectError>>) -> Option<u32>
    decreases answers.len(),
{
    if answers.len() == 0 {
        None
    } else if found_in_answer(answers[0]) is Some {
        found_in_answer(answers[0])
    } else {
        first_found_in(answers.drop_first())
    }
}

/// A process lookup decides alone whether the game runs, whatever the
/// state before: a lookup that found no pid leaves the game not running and
/// without a pid (so not active), one that found a pid records it running
/// under that pid; the focus is left as it was.
pub proof fn law_process_lookup_decides(state: GameState, found: Option<u32>)
    ensures
        found is None ==> !after_process_lookup(state, found).running && after_process_lookup(state, found).pid is None,
        found matches Some(p) ==> after_process_lookup(state, found).running && after_process_lookup(state, found).pid == Some(p),
        after_process_lookup(state, found).focused == state.focused,
{
}

/// A focus query decides alone whether the game is focused: focused exactly
/// when there is a pid and the detector answered yes; whether the game
/// runs, and its pid, are left as they were.
pub proof fn law_focus_query_decides(state: GameState, answer: Option<bool>)
    ensures
        after_focus_query(state, answer).focused <==> (state.pid is Some && answer == Some(true)),
        after_focus_query(state, answer).running == state.running,
        after_focus_query(state, answer).pid == state.pid,
{
}

/// The pid found in a list of answers is the one of the first answer that
/// found a pid; when none did, nothing is found.
pub proof fn law_first_found(answers: Seq<Result<Option<u32>, DetectError>>)
    ensures
        first_found_in(answers) matches Some(p) ==> exists|i: int|
            0 <= i < answers.len() && answers[i] == Ok::<Option<u32>, DetectError>(Some(p))
                && forall|j: int| 0 <= j < i ==> !(#[trigger] answers[j] matches Ok(Some(_))),
        first_found_in(answers) is None ==> forall|i: int| 0 <= i < answers.len() ==> !(#[trigger] answers[i] matches Ok(Some(_))),
    decreases answers.len(),
{
    if answers.len() > 0 {
        let rest = answers.drop_first();
        law_first_found(rest);
        if found_in_answer(answers[0]) is None {
            if let Some(p) = first_found_in(answers) {
                let k = choose|k: int| 0 <= k < rest.len() && rest[k] == Ok::<Option<u32>, DetectError>(Some(p))
                    && forall|j: int| 0 <= j < k ==> !(#[trigger] rest[j] matches Ok(Some(_)));
                assert(answers[k + 1] == rest[k]);
                assert forall|j: int| 0 <= j < k + 1 implies !(#[trigger] answers[j] matches Ok(Some(_))) by {
                    if j > 0 {
                        assert(answers[j] == rest[j - 1]);
                    }
                }
            } else {
                assert forall|i: int| 0 <= i < answers.len() implies !(#[trigger] answers[i] matches Ok(Some(_))) by {
                    if i > 0 {
                        assert(answers[i] == rest[i - 1]);
                    }
                }
            }
        }
    }
}

/// The pid of the first answer that found one: errors count as not found.
pub fn first_found(answers: &Vec<Result<Option<u32>, DetectError>>) -> (r: Option<u32>)
    ensures
        r == first_found_in(answers@),
{
    let mut i: usize = 0;
    assert(answers@.subrange(0, answers@.len() as int) =~= answers@);
    while i < answers.len()
        invariant
            i <= answers@.len(),
            first_found_in(answers@.subrange(i as int, answers@.len() as int)) == first_found_in(answers@),
        decreases answers@.len() - i,
    {
        assert(answers@.subrange(i as int, answers@.len() as int).drop_first()
            =~= answers@.subrange(i + 1, answers@.len() as int));
        assert(answers@.subrange(i as int, answers@.len() as int)[0] == answers@[i as int]);
        if let Ok(Some(pid)) = &answers[i] {
            return Some(*pid);
        }
        i = i + 1;
    }
    assert(answers@.subrange(i as int, answers@.len() as int) =~= Seq::<Result<Option<u32>, DetectError>>::empty());
    None
}

/// The names asked for, in order, with the detector's answers: the game's
/// process names from the first on, stopping at the first answer that
/// found a pid.
pub open spec fn lookup_in_order(asked: Seq<Seq<char>>, answers: Seq<Result<Option<u32>, DetectError>>) -> bool {
    &&& asked.len() == answers.len()
    &&& 1 <= answers.len() <= GAME_PROCESS_NAME_COUNT
    &&& forall|i: int| 0 <= i < asked.len() ==> #[trigger] asked[i] == game_process_name_text(i)
    &&& forall|i: int| 0 <= i < answers.len() - 1 ==> found_in_answer(#[trigger] answers[i]) is None
    &&& answers.len() < GAME_PROCESS_NAME_COUNT ==> found_in_answer(answers.last()) is Some
}

/// The answer to a focus query as the game state takes it: unfocused when
/// there was no query or it failed.
pub open spec fn focus_answer(query: Option<(u32, Result<bool, DetectError>)>) -> Option<bool> {
    match query {
        Some((_, Ok(f))) => Some(f),
        _ => None,
    }
}

/// The state to store after a process lookup, with the detector's answers.
pub type ProcessLookup = (GameState, Vec<Result<Option<u32>, DetectError>>);

/// The state to store after a focus query, with the query made.
pub type FocusLookup = (GameState, Option<(u32, Result<bool, DetectError>)>);

/// The first `n` process names under which the game runs.
pub open spec fn game_names(n: int) -> Seq<Seq<char>> {
    Seq::new(n as nat, |i: int| game_process_name_text(i))
}

/// Asks the detector for the game's process names in order until one is
/// found, and gives the state read with the outcome recorded, together with
/// the answers.
fn lookup_process(detector: &Box<dyn ProcessDetector>, current: GameState) -> (r: ProcessLookup)
    ensures
        lookup_in_order(game_names(r.1@.len() as int), r.1@),
        r.0 == after_process_lookup(current, first_found_in(r.1@)),
{
    let mut answers: Vec<Result<Option<u32>, DetectError>> = Vec::new();
    let mut done = false;
    let mut i: usize = 0;
    while i < GAME_PROCESS_NAME_COUNT && !done
        invariant
            i <= GAME_PROCESS_NAME_COUNT,
            answers@.len() == i,
            !done ==> forall|j: int| 0 <= j < i ==> found_in_answer(#[trigger] answers@[j]) is None,
            done ==> i >= 1 && found_in_answer(answers@.last()) is Some
                && forall|j: int| 0 <= j < i - 1 ==> found_in_answer(#[trigger] answers@[j]) is None,
        decreases GAME_PROCESS_NAME_COUNT - i,
    {
        let name = game_process_name(i);
        let answer = detector.find_process_pid(name);
        done = matches!(answer, Ok(Some(_)));
        answers.push(answer);
        i = i + 1;
    }
    let found = first_found(&answers);
    (record_process_lookup(current, found), answers)
}

/// Asks the detector whether the window of the pid in `current` is
/// focused, if there is a pid, and gives the state read with the answer
/// recorded, together with the query made.
fn query_focus(detector: &Box<dyn ProcessDetector>, current: GameState) -> (r: FocusLookup)
    ensures
        match current.pid {
            Some(pid) => r.1 matches Some((q, _)) && q == pid,
            None => r.1 is None,
        },
        r.0 == after_focus_query(current, focus_answer(r.1)),
{
    match current.pid {
        Some(pid) => {
            let reply = detector.is_window_focused(pid);
            let answer = match &reply {
                Ok(f) => Some(*f),
                Err(_) => None,
            };
            (record_focus_query(current, answer), Some((pid, reply)))
        },
        None => (record_focus_query(current, None), None),
    }
}

/// What the last check of a monitor did.
pub struct CheckRecord {
    /// The game state read from the shared state.
    pub read: GameState,
    /// The game state stored in the shared state.
    pub stored: GameState,
    /// The process names asked for by the last process check.
    pub asked: Seq<Seq<char>>,
    /// The detector's answers to them.
    pub answers: Seq<Result<Option<u32>, DetectError>>,
    /// The pid asked about by the last focus query since the last process
    /// check, with the detector's answer.
    pub focus_query: Option<(u32, Result<bool, DetectError>)>,
}

/// Watches for Warcraft III and records in a shared state whether it runs
/// and is focused.
pub struct GameMonitor {
    state: Arc<Mutex<GameState>>,
    detector: Box<dyn ProcessDetector>,
    /// What this monitor did last.
    record: Ghost<CheckRecord>,
}

impl GameMonitor {
    /// The shared state that this monitor writes.
    pub closed spec fn shared_state(&self) -> Arc<Mutex<GameState>> {
        self.state
    }

    /// What the last check of this monitor read, asked and stored.
    pub closed spec fn last_check(&self) -> CheckRecord {
        self.record@
    }

    /// The game state that this monitor stored last in its shared state
    /// (other threads holding the state may have changed it since).
    pub open spec fn last_stored(&self) -> GameState {
        self.last_check().stored
    }

    /// A monitor whose new shared state holds the default game state.
    pub fn new(detector: Box<dyn ProcessDetector>) -> (r: GameMonitor)
        ensures
            r.last_stored() == (GameState { running: false, focused: false, pid: None }),
    {
        let initial = GameState::default();
        GameMonitor {
            state: Arc::new(new_lock(initial)),
            detector,
            record: Ghost(CheckRecord {
                read: initial,
                stored: initial,
                asked: Seq::empty(),
                answers: Seq::empty(),
                focus_query: None,
            }),
        }
    }

    /// Makes the monitor write to `state` from now on.
    pub fn share_state(&mut self, state: Arc<Mutex<GameState>>)
        ensures
            final(self).shared_state() == state,
            final(self).last_check() == old(self).last_check(),
    {
        self.state = state;
    }

    /// Get a cloneable handle to the game state for UI updates
    pub fn state_handle(&self) -> (r: Arc<Mutex<GameState>>)
        ensures
            r == self.shared_state(),
    {
        self.state.clone()
    }

    pub fn is_game_active(&self) -> bool {
        read_state(&self.state).is_active()
    }

    pub fn is_game_running(&self) -> bool {
        read_state(&self.state).running
    }

    pub fn is_game_focused(&self) -> bool {
        read_state(&self.state).focused
    }

    /// Check if WC3 is running, store PID if found: the detector is asked
    /// for the game's process names in order until one is found; the state
    /// stored is the one read with the pid found, if any, and the result
    /// says whether one was found. No focus query is made.
    pub fn check_process(&mut self) -> (r: bool)
        ensures
            final(self).shared_state() == old(self).shared_state(),
            lookup_in_order(final(self).last_check().asked, final(self).last_check().answers),
            final(self).last_stored() == after_process_lookup(
                final(self).last_check().read,
                first_found_in(final(self).last_check().answers),
            ),
            r == first_found_in(final(self).last_check().answers) is Some,
            final(self).last_check().focus_query is None,
    {
        let (current, next, answers) = update_state(&self.state, &self.detector, lookup_process);
        let found = first_found(&answers);
        self.record = Ghost(CheckRecord {
            read: current,
            stored: next,
            asked: game_names(answers@.len() as int),
            answers: answers@,
            focus_query: None,
        });
        found.is_some()
    }

    /// Check if a WC3 window is focused (real foreground window detection):
    /// the detector is asked about the pid read from the shared state, if
    /// there is one; the state stored is the one read, focused when the
    /// answer was yes, and the result is that focus.
    pub fn check_focus(&mut self) -> (r: bool)
        ensures
            final(self).shared_state() == old(self).shared_state(),
            final(self).last_check().asked == old(self).last_check().asked,
            final(self).last_check().answers == old(self).last_check().answers,
            match final(self).last_check().read.pid {
                Some(pid) => final(self).last_check().focus_query matches Some((q, _)) && q == pid,
                None => final(self).last_check().focus_query is None,
            },
            final(self).last_stored() == after_focus_query(
                final(self).last_check().read,
                focus_answer(final(self).last_check().focus_query),
            ),
            r == final(self).last_stored().focused,
    {
        let (current, next, query) = update_state(&self.state, &self.detector, query_focus);
        self.record = Ghost(CheckRecord {
            read: current,
            stored: next,
            asked: self.record@.asked,
            answers: self.record@.answers,
            focus_query: query,
        });
        next.focused
    }

    /// Perform a full check (process + focus): the focus is asked for only
    /// when a game process was found.
    pub fn check(&mut self) -> (r: (bool, bool))
        ensures
            lookup_in_order(final(self).last_check().asked, final(self).last_check().answers),
            r.0 == first_found_in(final(self).last_check().answers) is Some,
            !r.0 ==> !r.1 && final(self).last_check().focus_query is None
                && final(self).last_stored() == after_process_lookup(final(self).last_check().read, None),
            r.0 ==> r.1 == final(self).last_stored().focused
                && (match final(self).last_check().read.pid {
                    Some(pid) => final(self).last_check().focus_query matches Some((q, _)) && q == pid,
                    None => final(self).last_check().focus_query is None,
                })
                && final(self).last_stored() == after_focus_query(
                    final(self).last_check().read,
                    focus_answer(final(self).last_check().focus_query),
                ),
            r.1 ==> r.0,
            final(self).shared_state() == old(self).shared_state(),
    {
        let running = self.check_process();
        let focused = if running { self.check_focus() } else { false };
        (running, focused)
    }
}

/// Background game detection: a handle to the state that a monitor thread
/// keeps up to date.
pub struct GameDetectionService {
    state: Arc<Mutex<GameState>>,
}

impl GameDetectionService {
    /// The shared state that this service reports.
    pub closed spec fn shared_state(&self) -> Arc<Mutex<GameState>> {
        self.state
    }

    /// A service reporting the given shared state.
    pub fn new(state: Arc<Mutex<GameState>>) -> (r: GameDetectionService)
        ensures
            r.shared_state() == state,
    {
        GameDetectionService { state }
    }

    /// Get current game state
    pub fn get_state(&self) -> GameState {
        read_state(&self.state)
    }

    /// Get a handle to the state for sharing
    pub fn state_handle(&self) -> (r: Arc<Mutex<GameState>>)
        ensures
            r == self.shared_state(),
    {
        self.state.clone()
    }
}

} // verus!
