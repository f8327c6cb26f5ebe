//! What the desktop window decides: whether the proxy runs, which captures
//! it lists and which one it details, and the status line. The window
//! itself draws these and performs the actions they name.

use vstd::prelude::*;
use vstd::string::*;
use crate::config::{Config, Mode, mode_label};
use crate::store::model::{CaptureRecord, Direction};
use crate::text::{decimal, push_decimal};

verus! {

/// How often the list is reloaded while the proxy runs, in milliseconds.
pub const REFRESH_INTERVAL_MS: u64 = 1000;

/// How many of the latest captures the list shows.
pub const LIST_LIMIT: i64 = 200;

/// Whether the proxy runs.
#[derive(Debug, Clone, Copy, PartialEq, Eq, Structural)]
pub enum ProxyPhase {
    Stopped,
    Running,
}

/// The state behind the window.
#[derive(Debug)]
pub struct ViewState {
    pub phase: ProxyPhase,
    /// The listed captures, latest first.
    pub captures: Vec<CaptureRecord>,
    /// The id of the capture shown in detail.
    pub selected: Option<u128>,
    pub status_msg: String,
    /// When the list was last reloaded, in milliseconds of a monotonic clock.
    pub last_refresh_ms: u64,
}

/// The proxy the window asks the application to start.
#[derive(Debug)]
pub struct StartRequest {
    pub listen_addr: String,
    pub mode: Mode,
    pub upstream_base_url: String,
}

/// What came of writing the export.
#[derive(Debug)]
pub enum ExportOutcome {
    /// The export file was opened; `written` records were appended to it.
    Written { written: u64, path: String },
    /// The stored captures could not be read, or the export file could not be opened.
    Failed { error: String },
}

/// The status line while the proxy runs.
pub open spec fn running_status(listen_addr: Seq<char>, mode: Mode) -> Seq<char> {
    "Running on "@ + listen_addr + " ("@ + mode_label(mode) + ")"@
}

/// Whether the list is due for a reload at `now_ms`.
pub open spec fn refresh_is_due(s: ViewState, now_ms: u64) -> bool {
    s.phase == ProxyPhase::Running && now_ms >= s.last_refresh_ms && now_ms - s.last_refresh_ms
        >= REFRESH_INTERVAL_MS
}

/// The label of a response status: `<code> ok` for 2xx, else the code.
pub open spec fn status_label(status: u16) -> Seq<char> {
    if 200 <= status && status < 300 {
        decimal(status as nat) + " ok"@
    } else {
        decimal(status as nat)
    }
}

/// Index of the first capture with id `id`, if any.
pub open spec fn index_of_id(captures: Seq<CaptureRecord>, id: u128) -> Option<int>
    decreases captures.len(),
{
    if captures.len() == 0 {
        None
    } else if captures[0].id == id {
        Some(0)
    } else {
        match index_of_id(captures.drop_first(), id) {
            Some(i) => Some(i + 1),
            None => None,
        }
    }
}

/// The arrow that marks a direction in the list.
pub open spec fn direction_arrow(d: Direction) -> Seq<char> {
    match d {
        Direction::Request => "→"@,
        Direction::Response => "←"@,
    }
}

/// The word that names a direction in the detail view.
pub open spec fn direction_word(d: Direction) -> Seq<char> {
    match d {
        Direction::Request => "request"@,
        Direction::Response => "response"@,
    }
}

impl ViewState {
    /// The window's state when it opens: proxy stopped, nothing listed.
    pub fn new(now_ms: u64) -> (res: Self)
        ensures
            res.phase == ProxyPhase::Stopped,
            res.captures@.len() == 0,
            res.selected is None,
            res.status_msg@ == "Proxy stopped"@,
            res.last_refresh_ms == now_ms,
    {
        ViewState {
            phase: ProxyPhase::Stopped,
            captures: Vec::new(),
            selected: None,
            status_msg: String::from_str("Proxy stopped"),
            last_refresh_ms: now_ms,
        }
    }

    /// Start pressed: the proxy counts as running and the status line names
    /// its address and mode; the returned request says what to start.
    pub fn start(&mut self, cfg: &Config) -> (res: StartRequest)
        ensures
            final(self).phase == ProxyPhase::Running,
            final(self).status_msg@ == running_status(cfg.listen_addr@, cfg.mode),
            final(self).captures == old(self).captures,
            final(self).selected == old(self).selected,
            final(self).last_refresh_ms == old(self).last_refresh_ms,
            res.listen_addr@ == cfg.listen_addr@,
            res.mode == cfg.mode,
            res.upstream_base_url@ == cfg.upstream_base_url@,
    {
        let msg = String::from_str("Running on ").concat(cfg.listen_addr.as_str()).concat(" (").concat(
            cfg.mode.label(),
        ).concat(")");
        self.phase = ProxyPhase::Running;
        self.status_msg = msg;
        StartRequest {
            listen_addr: cfg.listen_addr.clone(),
            mode: cfg.mode,
            upstream_base_url: cfg.upstream_base_url.clone(),
        }
    }

    /// Stop pressed: the proxy counts as stopped. Returns whether a running
    /// proxy has to be shut down.
    pub fn stop(&mut self) -> (res: bool)
        ensures
            res == (old(self).phase == ProxyPhase::Running),
            final(self).phase == ProxyPhase::Stopped,
            final(self).status_msg@ == "Proxy stopped"@,
            final(self).captures == old(self).captures,
            final(self).selected == old(self).selected,
            final(self).last_refresh_ms == old(self).last_refresh_ms,
    {
        let was_running = self.phase == ProxyPhase::Running;
        self.phase = ProxyPhase::Stopped;
        self.status_msg = String::from_str("Proxy stopped");
        was_running
    }

    /// Whether the list should be reloaded at `now_ms`: only while the proxy
    /// runs, once a second.
    pub fn refresh_due(&self, now_ms: u64) -> (res: bool)
        ensures
            res == refresh_is_due(*self, now_ms),
    {
        self.phase == ProxyPhase::Running && now_ms >= self.last_refresh_ms && now_ms
            - self.last_refresh_ms >= REFRESH_INTERVAL_MS
    }

    /// A reload finished at `now_ms`: the list is replaced when it loaded
    /// and kept when it did not.
    pub fn captures_reloaded(&mut self, loaded: Option<Vec<CaptureRecord>>, now_ms: u64)
        ensures
            final(self).captures == match loaded {
                Some(list) => list,
                None => old(self).captures,
            },
            final(self).last_refresh_ms == now_ms,
            final(self).phase == old(self).phase,
            final(self).selected == old(self).selected,
            final(self).status_msg == old(self).status_msg,
    {
        match loaded {
            Some(list) => {
                self.captures = list;
            },
            None => {},
        }
        self.last_refresh_ms = now_ms;
    }

    /// The export finished: the status line tells how many records went
    /// where, or why the export failed.
    pub fn export_finished(&mut self, outcome: ExportOutcome)
        ensures
            final(self).status_msg@ == match outcome {
                ExportOutcome::Written { written, path } => "Exported "@ + decimal(written as nat)
                    + " records to "@ + path@,
                ExportOutcome::Failed { error } => "Export failed: "@ + error@,
            },
            final(self).phase == old(self).phase,
            final(self).captures == old(self).captures,
            final(self).selected == old(self).selected,
            final(self).last_refresh_ms == old(self).last_refresh_ms,
    {
        match outcome {
            ExportOutcome::Written { written, path } => {
                let mut msg = String::from_str("Exported ");
                push_decimal(&mut msg, written);
                let msg = msg.concat(" records to ").concat(path.as_str());
                self.status_msg = msg;
            },
            ExportOutcome::Failed { error } => {
                self.status_msg = String::from_str("Export failed: ").concat(error.as_str());
            },
        }
    }

    /// A capture row was clicked.
    pub fn select(&mut self, id: u128)
        ensures
            final(self).selected == Some(id),
            final(self).phase == old(self).phase,
            final(self).captures == old(self).captures,
            final(self).status_msg == old(self).status_msg,
            final(self).last_refresh_ms == old(self).last_refresh_ms,
    {
        self.selected = Some(id);
    }

    /// The detail view was closed.
    pub fn close_detail(&mut self)
        ensures
            final(self).selected is None,
            final(self).phase == old(self).phase,
            final(self).captures == old(self).captures,
            final(self).status_msg == old(self).status_msg,
            final(self).last_refresh_ms == old(self).last_refresh_ms,
    {
        self.selected = None;
    }

    /// The body was copied from the detail view.
    pub fn body_copied(&mut self)
        ensures
            final(self).status_msg@ == "Body copied to clipboard"@,
            final(self).phase == old(self).phase,
            final(self).captures == old(self).captures,
            final(self).selected == old(self).selected,
            final(self).last_refresh_ms == old(self).last_refresh_ms,
    {
        self.status_msg = String::from_str("Body copied to clipboard");
    }

    /// The position in the list of the capture to show in detail. When the
    /// selected capture is no longer listed the selection is dropped.
    pub fn detail_index(&mut self) -> (res: Option<usize>)
        ensures
            match old(self).selected {
                None => res is None && final(self).selected is None,
                Some(id) => match index_of_id(old(self).captures@, id) {
                    Some(i) => res == Some(i as usize) && final(self).selected == Some(id),
                    None => res is None && final(self).selected is None,
                },
            },
            final(self).phase == old(self).phase,
            final(self).captures == old(self).captures,
            final(self).status_msg == old(self).status_msg,
            final(self).last_refresh_ms == old(self).last_refresh_ms,
    {
        let id = match self.selected {
            Some(id) => id,
            None => return None,
        };
        let mut i: usize = 0;
        assert(self.captures@.skip(0) =~= self.captures@);
        while i < self.captures.len()
            invariant
                *self == *old(self),
                self.selected == Some(id),
                i <= self.captures.len(),
                index_of_id(self.captures@, id) == match index_of_id(
                    self.captures@.skip(i as int),
                    id,
                ) {
                    Some(j) => Some(j + i),
                    None => None::<int>,
                },
            decreases self.captures.len() - i,
        {
            proof {
                assert(self.captures@.skip(i as int).drop_first() =~= self.captures@.skip(i + 1));
            }
            if self.captures[i].id == id {
                assert(self.captures@.skip(i as int)[0] == self.captures@[i as int]);
                return Some(i);
            }
            i = i + 1;
        }
        self.selected = None;
        None
    }

    /// The status badge of a listed response: whether it reads as success
    /// (2xx) and its label.
    pub fn status_badge(status: u16) -> (res: (bool, String))
        ensures
            res.0 == (200 <= status && status < 300),
            res.1@ == status_label(status),
    {
        let mut label = String::new();
        push_decimal(&mut label, status as u64);
        if 200 <= status && status < 300 {
            (true, label.concat(" ok"))
        } else {
            (false, label)
        }
    }

    /// The arrow that marks a direction in the list.
    pub fn arrow(d: Direction) -> (res: &'static str)
        ensures
            res@ == direction_arrow(d),
    {
        match d {
            Direction::Request => "→",
            Direction::Response => "←",
        }
    }

    /// The word that names a direction in the detail view.
    pub fn direction_word(d: Direction) -> (res: &'static str)
        ensures
            res@ == direction_word(d),
    {
        match d {
            Direction::Request => "request",
            Direction::Response => "response",
        }
    }
}

/// While the proxy runs, a reload is due exactly once at least a second
/// (1000 ms) has passed since the last one; never while it is stopped; and
/// once due it stays due at every later time.
pub proof fn lemma_refresh_once_a_second(s: ViewState, now_ms: u64, later_ms: u64)
    ensures
        refresh_is_due(s, now_ms) <==> (s.phase == ProxyPhase::Running && now_ms >= s.last_refresh_ms
            + 1000),
        refresh_is_due(s, now_ms) && now_ms <= later_ms ==> refresh_is_due(s, later_ms),
{
}

} // verus!
