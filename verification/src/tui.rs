//! State of the terminal UI: the components' data, keyboard navigation, refresh rate and
//! sort mode. Drawing is the caller's work.
use vstd::prelude::*;
use std::collections::VecDeque;

verus! {

/// The accelerator list panel.
pub struct AcceleratorPanel;

impl AcceleratorPanel {
    pub fn new() -> (r: Self) {
        AcceleratorPanel
    }
}

/// A rolling history of values for a sparkline, holding at most `max_data_points`.
pub struct HistoryChart {
    data: VecDeque<u64>,
    max_data_points: usize,
}

/// The history after pushing `v`: when it is full, the oldest value leaves first.
pub open spec fn history_pushed(data: Seq<u64>, max_points: usize, v: u64) -> Seq<u64> {
    if data.len() >= max_points && data.len() > 0 {
        data.drop_first().push(v)
    } else {
        data.push(v)
    }
}

impl View for HistoryChart {
    type V = Seq<u64>;

    closed spec fn view(&self) -> Seq<u64> {
        self.data@
    }
}

impl HistoryChart {
    /// A history holds at most its capacity of values (one value, for capacity zero).
    #[verifier::type_invariant]
    spec fn within_capacity(self) -> bool {
        self.data@.len() <= self.max_data_points || self.data@.len() <= 1
    }

    /// The largest number of values kept.
    pub closed spec fn capacity(&self) -> usize {
        self.max_data_points
    }

    /// An empty history keeping at most `max_data_points` values.
    pub fn new(max_data_points: usize) -> (r: Self)
        ensures
            r@ == Seq::<u64>::empty(),
            r.capacity() == max_data_points,
    {
        HistoryChart { data: VecDeque::with_capacity(max_data_points), max_data_points }
    }

    /// Appends a value, dropping the oldest when the history is full.
    pub fn push(&mut self, value: u64)
        ensures
            final(self)@ == history_pushed(old(self)@, old(self).capacity(), value),
            final(self).capacity() == old(self).capacity(),
            final(self)@.len() <= final(self).capacity() || final(self)@.len() <= 1,
    {
        proof { use_type_invariant(&*self); }
        let mut data: VecDeque<u64> = VecDeque::new();
        std::mem::swap(&mut data, &mut self.data);
        if data.len() >= self.max_data_points {
            data.pop_front();
        }
        data.push_back(value);
        self.data = data;
    }

    /// The values, oldest first: at most the capacity of them (one, for capacity zero).
    pub fn values(&self) -> (r: Vec<u64>)
        ensures
            r@ == self@,
            r@.len() <= self.capacity() || r@.len() <= 1,
    {
        proof { use_type_invariant(self); }
        let mut out: Vec<u64> = Vec::new();
        let n = self.data.len();
        let mut i: usize = 0;
        while i < n
            invariant
                n == self.data@.len(),
                i <= n,
                out@ == self.data@.subrange(0, i as int),
            decreases n - i,
        {
            out.push(self.data[i]);
            assert(out@ =~= self.data@.subrange(0, i + 1));
            i = i + 1;
        }
        assert(out@ =~= self.data@);
        out
    }
}

/// A history never holds more values than its capacity (or one value, for capacity zero).
pub proof fn law_history_bounded(data: Seq<u64>, max_points: usize, v: u64)
    requires
        data.len() <= max_points || data.len() <= 1,
    ensures
        history_pushed(data, max_points, v).len() <= max_points || history_pushed(data, max_points, v).len() <= 1,
        history_pushed(data, max_points, v).last() == v,
{
}

/// The status bar: a message, shown as an error or not.
pub struct StatusBar {
    message: String,
    is_error: bool,
}

impl StatusBar {
    /// A status bar showing `message`.
    pub fn new(message: &str) -> (r: Self)
        ensures
            r.message()@ == message@,
            !r.is_error(),
    {
        StatusBar { message: String::from_str(message), is_error: false }
    }

    /// A status bar showing `message` as an error.
    pub fn error(message: &str) -> (r: Self)
        ensures
            r.message()@ == message@,
            r.is_error(),
    {
        StatusBar { message: String::from_str(message), is_error: true }
    }

    pub closed spec fn message(&self) -> String {
        self.message
    }

    pub closed spec fn is_error(&self) -> bool {
        self.is_error
    }

    /// The message shown.
    pub fn message_text(&self) -> (r: &String)
        ensures
            *r == self.message(),
    {
        &self.message
    }

    /// Whether the message is an error.
    pub fn shows_error(&self) -> (r: bool)
        ensures
            r == self.is_error(),
    {
        self.is_error
    }
}

/// How the accelerator list is ordered.
#[derive(Debug, Clone, Copy, PartialEq, Eq, Structural)]
pub enum SortMode {
    ByIndex,
    ByUtilization,
    ByMemory,
}

/// The sort mode after `m` in the cycle index, utilization, memory.
pub open spec fn next_sort_mode(m: SortMode) -> SortMode {
    match m {
        SortMode::ByIndex => SortMode::ByUtilization,
        SortMode::ByUtilization => SortMode::ByMemory,
        SortMode::ByMemory => SortMode::ByIndex,
    }
}

/// Commands sent to the metric collector.
#[derive(Debug, Clone, Copy, PartialEq, Eq, Structural)]
pub enum CollectorCommand {
    /// Collect from a specific accelerator
    Collect(usize),
    /// Collect from all accelerators
    CollectAll,
    /// Stop collecting
    Stop,
}

/// A key pressed in the terminal.
#[derive(Debug, Clone, Copy, PartialEq, Eq, Structural)]
pub enum KeyInput {
    Char(char),
    Esc,
    Up,
    Down,
    Tab,
    BackTab,
    Other,
}

/// The index selected after moving down from `s` in a list of `n`: wraps to the top.
pub open spec fn next_index(s: usize, n: usize) -> usize {
    if s + 1 < n {
        (s + 1) as usize
    } else {
        0
    }
}

/// The index selected after moving up from `s` in a list of `n`: wraps to the bottom.
pub open spec fn previous_index(s: usize, n: usize) -> usize {
    if s > 0 {
        (s - 1) as usize
    } else if n > 0 {
        (n - 1) as usize
    } else {
        0
    }
}

/// The refresh interval after asking for faster refresh: 250 ms less, unless that would go
/// under 100 ms.
pub open spec fn faster_interval(ms: u64) -> u64 {
    let shorter: int = if ms >= 250 { ms - 250 } else { 0 };
    if shorter >= 100 {
        shorter as u64
    } else {
        ms
    }
}

/// The refresh interval after asking for slower refresh: 250 ms more, at most 10 s.
pub open spec fn slower_interval(ms: u64) -> u64 {
    if ms + 250 > 10_000 {
        10_000
    } else {
        (ms + 250) as u64
    }
}

/// Navigation state of the terminal UI.
#[derive(Debug, Clone, Copy, PartialEq, Eq, Structural)]
pub struct TuiState {
    /// Number of accelerators listed
    pub accelerator_count: usize,
    /// Selected accelerator index
    pub selected_accel: usize,
    /// Refresh interval in milliseconds
    pub refresh_interval_ms: u64,
    /// Running flag
    pub running: bool,
    /// Show help
    pub show_help: bool,
    /// Sort mode
    pub sort_mode: SortMode,
}

/// The state after a key press.
pub open spec fn after_key(st: TuiState, key: KeyInput) -> TuiState {
    match key {
        KeyInput::Char('q') | KeyInput::Esc => TuiState { running: false, ..st },
        KeyInput::Char('h') | KeyInput::Char('?') => TuiState { show_help: !st.show_help, ..st },
        KeyInput::Char('s') => TuiState { sort_mode: next_sort_mode(st.sort_mode), ..st },
        KeyInput::Up | KeyInput::BackTab => TuiState {
            selected_accel: previous_index(st.selected_accel, st.accelerator_count),
            ..st
        },
        KeyInput::Down | KeyInput::Tab => TuiState {
            selected_accel: next_index(st.selected_accel, st.accelerator_count),
            ..st
        },
        KeyInput::Char('+') | KeyInput::Char('=') => TuiState {
            refresh_interval_ms: faster_interval(st.refresh_interval_ms),
            ..st
        },
        KeyInput::Char('-') => TuiState {
            refresh_interval_ms: slower_interval(st.refresh_interval_ms),
            ..st
        },
        _ => st,
    }
}

impl TuiState {
    /// A running UI over `accelerator_count` accelerators, the first selected, sorted by
    /// index, help hidden.
    pub fn new(accelerator_count: usize, refresh_interval_ms: u64) -> (r: Self)
        ensures
            r == (TuiState {
                accelerator_count,
                selected_accel: 0,
                refresh_interval_ms,
                running: true,
                show_help: false,
                sort_mode: SortMode::ByIndex,
            }),
    {
        TuiState {
            accelerator_count,
            selected_accel: 0,
            refresh_interval_ms,
            running: true,
            show_help: false,
            sort_mode: SortMode::ByIndex,
        }
    }

    /// Moves to the next sort mode.
    pub fn cycle_sort_mode(&mut self)
        ensures
            *final(self) == (TuiState { sort_mode: next_sort_mode(old(self).sort_mode), ..*old(self) }),
    {
        self.sort_mode = match self.sort_mode {
            SortMode::ByIndex => SortMode::ByUtilization,
            SortMode::ByUtilization => SortMode::ByMemory,
            SortMode::ByMemory => SortMode::ByIndex,
        };
    }

    /// Selects the accelerator above, wrapping to the last.
    pub fn select_previous(&mut self)
        ensures
            *final(self) == (TuiState {
                selected_accel: previous_index(old(self).selected_accel, old(self).accelerator_count),
                ..*old(self)
            }),
    {
        if self.selected_accel > 0 {
            self.selected_accel = self.selected_accel - 1;
        } else {
            self.selected_accel = self.accelerator_count.saturating_sub(1);
        }
    }

    /// Selects the accelerator below, wrapping to the first.
    pub fn select_next(&mut self)
        ensures
            *final(self) == (TuiState {
                selected_accel: next_index(old(self).selected_accel, old(self).accelerator_count),
                ..*old(self)
            }),
    {
        if self.selected_accel < usize::MAX && self.selected_accel + 1 < self.accelerator_count {
            self.selected_accel = self.selected_accel + 1;
        } else {
            self.selected_accel = 0;
        }
    }

    /// Refreshes 250 ms sooner, down to 100 ms.
    pub fn increase_refresh_rate(&mut self)
        ensures
            *final(self) == (TuiState {
                refresh_interval_ms: faster_interval(old(self).refresh_interval_ms),
                ..*old(self)
            }),
    {
        let shorter = self.refresh_interval_ms.saturating_sub(250);
        if shorter >= 100 {
            self.refresh_interval_ms = shorter;
        }
    }

    /// Refreshes 250 ms later, up to 10 s.
    pub fn decrease_refresh_rate(&mut self)
        ensures
            *final(self) == (TuiState {
                refresh_interval_ms: slower_interval(old(self).refresh_interval_ms),
                ..*old(self)
            }),
    {
        let longer = self.refresh_interval_ms.saturating_add(250);
        self.refresh_interval_ms = if longer > 10_000 { 10_000 } else { longer };
    }

    /// Handles a key press: quit, help, sort, selection or refresh rate.
    pub fn handle_key(&mut self, key: KeyInput)
        ensures
            *final(self) == after_key(*old(self), key),
    {
        match key {
            KeyInput::Char('q') | KeyInput::Esc => self.running = false,
            KeyInput::Char('h') | KeyInput::Char('?') => self.show_help = !self.show_help,
            KeyInput::Char('s') => self.cycle_sort_mode(),
            KeyInput::Up | KeyInput::BackTab => self.select_previous(),
            KeyInput::Down | KeyInput::Tab => self.select_next(),
            KeyInput::Char('+') | KeyInput::Char('=') => self.increase_refresh_rate(),
            KeyInput::Char('-') => self.decrease_refresh_rate(),
            _ => {},
        }
    }
}

/// Moving down and then up returns to the same accelerator.
pub proof fn law_next_then_previous(s: usize, n: usize)
    requires
        s < n,
    ensures
        previous_index(next_index(s, n), n) == s,
        next_index(previous_index(s, n), n) == s,
{
}

/// The selection stays within the list.
pub proof fn law_selection_in_range(s: usize, n: usize)
    requires
        s < n,
    ensures
        next_index(s, n) < n,
        previous_index(s, n) < n,
{
}

/// Three presses of the sort key come back to the same order.
pub proof fn law_sort_cycle(m: SortMode)
    ensures
        next_sort_mode(next_sort_mode(next_sort_mode(m))) == m,
{
}

/// The refresh interval never leaves `100..=10_000` ms once inside it, and one step slower
/// followed by one step faster restores it (and the other way round, away from the ends).
pub proof fn law_refresh_interval(ms: u64)
    requires
        100 <= ms <= 10_000,
    ensures
        100 <= faster_interval(ms) <= 10_000,
        100 <= slower_interval(ms) <= 10_000,
        ms <= 9750 ==> faster_interval(slower_interval(ms)) == ms,
        ms >= 350 ==> slower_interval(faster_interval(ms)) == ms,
{
}

/// Tab selects the next accelerator and BackTab the previous one, as the arrow keys Down
/// and Up do: one step forward or back, wrapping at the ends, and nothing else changes.
pub proof fn law_tab_moves_forward(st: TuiState)
    requires
        st.accelerator_count > 0,
        st.selected_accel < st.accelerator_count,
    ensures
        after_key(st, KeyInput::Tab) == after_key(st, KeyInput::Down),
        after_key(st, KeyInput::BackTab) == after_key(st, KeyInput::Up),
        after_key(st, KeyInput::Tab) == (TuiState {
            selected_accel: after_key(st, KeyInput::Tab).selected_accel,
            ..st
        }),
        after_key(st, KeyInput::BackTab) == (TuiState {
            selected_accel: after_key(st, KeyInput::BackTab).selected_accel,
            ..st
        }),
        st.selected_accel + 1 < st.accelerator_count ==> after_key(st, KeyInput::Tab).selected_accel
            == st.selected_accel + 1,
        st.selected_accel + 1 == st.accelerator_count ==> after_key(st, KeyInput::Tab).selected_accel == 0,
        st.selected_accel > 0 ==> after_key(st, KeyInput::BackTab).selected_accel == st.selected_accel - 1,
        st.selected_accel == 0 ==> after_key(st, KeyInput::BackTab).selected_accel == st.accelerator_count - 1,
{
}

/// The other keys: `q` and Esc stop the UI, `h` and `?` toggle the help, `s` moves to the
/// next sort order, `+` and `=` refresh faster, `-` slower; each changes nothing else.
pub proof fn law_key_bindings(st: TuiState)
    ensures
        after_key(st, KeyInput::Char('q')) == (TuiState { running: false, ..st }),
        after_key(st, KeyInput::Esc) == (TuiState { running: false, ..st }),
        after_key(st, KeyInput::Char('h')) == (TuiState { show_help: !st.show_help, ..st }),
        after_key(st, KeyInput::Char('?')) == (TuiState { show_help: !st.show_help, ..st }),
        after_key(st, KeyInput::Char('s')) == (TuiState {
            sort_mode: after_key(st, KeyInput::Char('s')).sort_mode,
            ..st
        }),
        st.sort_mode == SortMode::ByIndex ==> after_key(st, KeyInput::Char('s')).sort_mode == SortMode::ByUtilization,
        st.sort_mode == SortMode::ByUtilization ==> after_key(st, KeyInput::Char('s')).sort_mode == SortMode::ByMemory,
        st.sort_mode == SortMode::ByMemory ==> after_key(st, KeyInput::Char('s')).sort_mode == SortMode::ByIndex,
        st.refresh_interval_ms < 350 ==> after_key(st, KeyInput::Char('+')) == st,
        after_key(st, KeyInput::Char('+')).refresh_interval_ms <= st.refresh_interval_ms,
        st.refresh_interval_ms >= 350 ==> after_key(st, KeyInput::Char('+')) == (TuiState {
            refresh_interval_ms: (st.refresh_interval_ms - 250) as u64,
            ..st
        }),
        after_key(st, KeyInput::Char('=')) == after_key(st, KeyInput::Char('+')),
        st.refresh_interval_ms <= 9750 ==> after_key(st, KeyInput::Char('-')) == (TuiState {
            refresh_interval_ms: (st.refresh_interval_ms + 250) as u64,
            ..st
        }),
        st.refresh_interval_ms > 9750 ==> after_key(st, KeyInput::Char('-')).refresh_interval_ms == 10_000,
        after_key(st, KeyInput::Other) == st,
{
}

} // verus!
