//! The refresh state machine: when to run `date`, what to show once it has
//! answered, and when to ask for a repaint.

use crate::configuration::{default_view, Configuration, ConfigurationView};
use crate::date_time::{parsed, rendered, DateTime, DATE_ARG_SEP};
use crate::display::{compose, composed};
use vstd::prelude::*;

verus! {

/// The command that gives the date and time.
pub const DATE_CMD: &'static str = "date";

/// What is shown when the command fails or answers with unreadable output.
pub const ERROR_MARKER: &'static str = "Plugin Error";

/// Seconds between refreshes before a configuration is loaded.
pub const DEFAULT_INTERVAL_SECS: u64 = 60;

/// A notification from the host, as far as the state machine reads it.
pub enum HostEvent {
    /// The answer to the request to run commands: granted or not.
    PermissionRequestResult(bool),
    /// The wake-up that was armed has come.
    Timer,
    /// The command has ended: its exit code, standard output and standard
    /// error.
    RunCommandResult(Option<i32>, Vec<u8>, Vec<u8>),
    /// Any other notification.
    Other,
}

/// What the host is to do after a notification.
#[derive(Clone, Copy, Debug, PartialEq, Eq, Structural)]
pub struct Reaction {
    /// Run `date` with the arguments of `State::datetime_cmd`.
    pub run_command: bool,
    /// Arm the next wake-up, one interval from now.
    pub arm_timer: bool,
    /// Mark the widget as not selectable.
    pub make_unselectable: bool,
    /// Repaint the widget.
    pub should_render: bool,
}

/// The state as mathematical values.
pub struct StateView {
    pub output: Seq<char>,
    pub date_cmd_args: Seq<char>,
    pub last_update: int,
    pub config: ConfigurationView,
    pub has_permissions: bool,
    pub interval_secs: nat,
}

/// State of the widget for the life of the process.
pub struct State {
    output: String,
    date_cmd_args: String,
    last_update: i64,
    config: Configuration,
    has_permissions: bool,
    interval_secs: u64,
}

impl View for State {
    type V = StateView;

    closed spec fn view(&self) -> StateView {
        StateView {
            output: self.output@,
            date_cmd_args: self.date_cmd_args@,
            last_update: self.last_update as int,
            config: self.config@,
            has_permissions: self.has_permissions,
            interval_secs: self.interval_secs as nat,
        }
    }
}

/// The format argument handed to `date`: `+`, the date format, the
/// delimiter, the time format.
pub open spec fn cmd_args(cfg: ConfigurationView) -> Seq<char> {
    seq!['+'] + cfg.date_format + seq![DATE_ARG_SEP] + cfg.time_format
}

/// The state right after loading: nothing shown, no permission yet, and a
/// last update at time zero so that the first tick refreshes.
pub open spec fn loaded_state(cfg: ConfigurationView, interval_secs: nat) -> StateView {
    StateView {
        output: Seq::empty(),
        date_cmd_args: cmd_args(cfg),
        last_update: 0,
        config: cfg,
        has_permissions: false,
        interval_secs,
    }
}

pub open spec fn no_action() -> Reaction {
    Reaction { run_command: false, arm_timer: false, make_unselectable: false, should_render: false }
}

/// The answer to the permission request, at time `now`: a refresh right
/// away, whatever the answer, and the first wake-up armed.
pub open spec fn permission_step(s: StateView, granted: bool, now: int) -> (StateView, Reaction) {
    (
        StateView { has_permissions: s.has_permissions || granted, last_update: now, ..s },
        Reaction { run_command: true, arm_timer: true, make_unselectable: true, should_render: false },
    )
}

/// Whether a refresh is due at time `now`: a whole interval or more has
/// gone by since the last one.
pub open spec fn timer_due(s: StateView, now: int) -> bool {
    now - s.last_update >= s.interval_secs
}

/// A wake-up at time `now`: a refresh when one is due; the next wake-up is
/// armed in any case.
pub open spec fn timer_step(s: StateView, now: int) -> (StateView, Reaction) {
    if timer_due(s, now) {
        (
            StateView { last_update: now, ..s },
            Reaction { run_command: true, arm_timer: true, make_unselectable: false, should_render: false },
        )
    } else {
        (s, Reaction { run_command: false, arm_timer: true, make_unselectable: false, should_render: false })
    }
}

/// What is shown for the (trimmed) output `text` of a successful run.
pub open spec fn shown_text(cfg: ConfigurationView, text: Seq<char>) -> Seq<char> {
    match parsed(text) {
        Some(dt) => rendered(dt, cfg),
        None => ERROR_MARKER@,
    }
}

pub open spec fn render_request() -> Reaction {
    Reaction { run_command: false, arm_timer: false, make_unselectable: false, should_render: true }
}

/// A successful run whose trimmed output is `text`.
pub open spec fn output_step(s: StateView, text: Seq<char>) -> (StateView, Reaction) {
    (StateView { output: shown_text(s.config, text), ..s }, render_request())
}

/// A failed run.
pub open spec fn failure_step(s: StateView) -> (StateView, Reaction) {
    (StateView { output: ERROR_MARKER@, ..s }, render_request())
}

/// The end of a run with exit code `code` and standard output `out`.
pub open spec fn command_step(s: StateView, code: Option<i32>, out: Seq<u8>) -> (StateView, Reaction) {
    if code == Some(0i32) {
        output_step(s, trimmed(lossy_text(out)))
    } else {
        failure_step(s)
    }
}

/// The state after wake-ups at the times `nows`, one after the other.
pub open spec fn after_ticks(s: StateView, nows: Seq<int>) -> StateView
    decreases nows.len(),
{
    if nows.len() == 0 {
        s
    } else {
        after_ticks(timer_step(s, nows[0]).0, nows.drop_first())
    }
}

/// The command's format argument is the one that the configuration gives.
pub open spec fn well_formed(s: StateView) -> bool {
    s.date_cmd_args == cmd_args(s.config)
}

/// Wake-ups that all come less than an interval after the last refresh
/// change nothing, neither what is shown nor the time of the last refresh,
/// and none of them runs the command.
pub proof fn lemma_early_ticks_change_nothing(s: StateView, nows: Seq<int>)
    requires
        forall|i: int| 0 <= i < nows.len() ==> nows[i] - s.last_update < s.interval_secs,
    ensures
        after_ticks(s, nows) == s,
        forall|i: int| 0 <= i < nows.len() ==> !(#[trigger] timer_step(s, nows[i])).1.run_command,
    decreases nows.len(),
{
    if nows.len() > 0 {
        assert(timer_step(s, nows[0]).0 == s);
        let rest = nows.drop_first();
        assert forall|i: int| 0 <= i < rest.len() implies rest[i] - s.last_update < s.interval_secs by {
            assert(rest[i] == nows[i + 1]);
        }
        lemma_early_ticks_change_nothing(s, rest);
    }
}

/// A wake-up exactly one interval after the last refresh refreshes: the
/// command runs and the refresh time becomes `now`.
pub proof fn lemma_tick_at_interval_refreshes(s: StateView, now: int)
    requires
        now - s.last_update == s.interval_secs,
    ensures
        timer_step(s, now).1.run_command,
        timer_step(s, now).0.last_update == now,
        timer_step(s, now).0.output == s.output,
{
}

/// Every step keeps the state well formed.
pub proof fn lemma_steps_keep_well_formed(s: StateView, granted: bool, now: int, code: Option<i32>, out: Seq<u8>)
    requires
        well_formed(s),
    ensures
        well_formed(permission_step(s, granted, now).0),
        well_formed(timer_step(s, now).0),
        well_formed(command_step(s, code, out).0),
{
}

/// Text of the bytes read as UTF-8, each invalid sequence replaced.
pub uninterp spec fn lossy_text(b: Seq<u8>) -> Seq<char>;

/// Whether `c` has the Unicode White_Space property.
pub open spec fn is_white_space(c: char) -> bool {
    let u = c as u32;
    (0x09 <= u <= 0x0d) || u == 0x20 || u == 0x85 || u == 0xa0 || u == 0x1680 || (0x2000 <= u
        <= 0x200a) || u == 0x2028 || u == 0x2029 || u == 0x202f || u == 0x205f || u == 0x3000
}

/// Number of whitespace characters that `s` starts with.
pub open spec fn leading_white(s: Seq<char>) -> nat
    decreases s.len(),
{
    if s.len() > 0 && is_white_space(s[0]) {
        1 + leading_white(s.drop_first())
    } else {
        0
    }
}

/// Number of whitespace characters that `s` ends with.
pub open spec fn trailing_white(s: Seq<char>) -> nat
    decreases s.len(),
{
    if s.len() > 0 && is_white_space(s.last()) {
        1 + trailing_white(s.drop_last())
    } else {
        0
    }
}

/// The text without its leading and trailing whitespace.
pub open spec fn trimmed(s: Seq<char>) -> Seq<char> {
    let t = s.skip(leading_white(s) as int);
    t.take(t.len() - trailing_white(t))
}

/// Relies on String::from_utf8_lossy: the bytes read as UTF-8, with each
/// invalid sequence replaced by U+FFFD.
#[verifier::external_body]
fn decode_lossy(b: &Vec<u8>) -> (r: String)
    ensures
        r@ == lossy_text(b@),
{
    String::from_utf8_lossy(b.as_slice()).into_owned()
}

/// Relies on str::trim: the text with leading and trailing whitespace
/// removed, whitespace being the characters of Unicode's White_Space
/// property (char::is_whitespace).
#[verifier::external_body]
fn trim(s: &str) -> (r: String)
    ensures
        r@ == trimmed(s@),
{
    s.trim().to_owned()
}

/// Relies on std's SystemTime::now and SystemTime::duration_since: the
/// whole seconds between the Unix epoch and now, as `Ok` when now is not
/// before the epoch and as `Err` when it is. Nothing is promised of the
/// value: it is the clock's.
#[verifier::external_body]
fn seconds_from_epoch() -> (r: Result<u64, u64>) {
    match std::time::SystemTime::now().duration_since(std::time::UNIX_EPOCH) {
        Ok(d) => Ok(d.as_secs()),
        Err(e) => Err(e.duration().as_secs()),
    }
}

/// The current time in whole seconds since the Unix epoch, negative before
/// it, held within the range of `i64`.
fn current_timestamp() -> i64 {
    match seconds_from_epoch() {
        Ok(secs) => if secs <= i64::MAX as u64 {
            secs as i64
        } else {
            i64::MAX
        },
        Err(secs) => if secs <= i64::MAX as u64 {
            -(secs as i64)
        } else {
            -i64::MAX
        },
    }
}

/// Builds the format argument handed to `date`.
fn datetime_cmd_arg(config: &Configuration) -> (r: String)
    ensures
        r@ == cmd_args(config@),
{
    let mut args = String::from_str("+");
    args.append(config.get_date_format().as_str());
    args.append("X");
    args.append(config.get_time_format().as_str());
    proof {
        reveal_strlit("+");
        reveal_strlit("X");
    }
    assert(args@ =~= cmd_args(config@));
    args
}

impl Default for State {
    fn default() -> (r: Self)
        ensures
            r@ == loaded_state(default_view(), DEFAULT_INTERVAL_SECS as nat),
            well_formed(r@),
    {
        let config = Configuration::default();
        let date_cmd_args = datetime_cmd_arg(&config);
        State {
            output: String::new(),
            date_cmd_args,
            last_update: 0,
            config,
            has_permissions: false,
            interval_secs: DEFAULT_INTERVAL_SECS,
        }
    }
}

impl State {
    /// Takes the loaded configuration and the refresh interval in whole
    /// seconds (timestamps are whole seconds, so an interval of `x`
    /// seconds behaves as its ceiling), and starts over: nothing shown, no
    /// permission, last update at time zero.
    pub fn load(&mut self, config: Configuration, interval_secs: u64)
        ensures
            final(self)@ == loaded_state(config@, interval_secs as nat),
            well_formed(final(self)@),
    {
        self.date_cmd_args = datetime_cmd_arg(&config);
        self.config = config;
        self.interval_secs = interval_secs;
        self.has_permissions = false;
        self.last_update = 0;
        self.output = String::new();
    }

    /// The command line that gives the date and time.
    pub fn datetime_cmd(&self) -> (r: Vec<String>)
        ensures
            r@.len() == 2,
            r@[0]@ == DATE_CMD@,
            r@[1]@ == self@.date_cmd_args,
    {
        let mut r: Vec<String> = Vec::new();
        r.push(DATE_CMD.to_owned());
        r.push(self.date_cmd_args.clone());
        r
    }

    /// The answer to the permission request, received at time `now`.
    pub fn on_permission(&mut self, granted: bool, now: i64) -> (r: Reaction)
        ensures
            (final(self)@, r) == permission_step(old(self)@, granted, now as int),
    {
        if granted {
            self.has_permissions = true;
        }
        self.last_update = now;
        Reaction { run_command: true, arm_timer: true, make_unselectable: true, should_render: false }
    }

    /// A wake-up at time `now`.
    pub fn on_timer(&mut self, now: i64) -> (r: Reaction)
        ensures
            (final(self)@, r) == timer_step(old(self)@, now as int),
    {
        if (now as i128) - (self.last_update as i128) >= self.interval_secs as i128 {
            self.last_update = now;
            Reaction { run_command: true, arm_timer: true, make_unselectable: false, should_render: false }
        } else {
            Reaction { run_command: false, arm_timer: true, make_unselectable: false, should_render: false }
        }
    }

    /// Shows what a successful run printed, `text` being its output with
    /// surrounding whitespace removed; output without the delimiter shows
    /// the error marker.
    pub fn show_command_output(&mut self, text: &String) -> (r: Reaction)
        ensures
            (final(self)@, r) == output_step(old(self)@, text@),
    {
        match DateTime::parse(text) {
            Some(dt) => {
                self.output = dt.render(&self.config);
            },
            None => {
                self.output = ERROR_MARKER.to_owned();
            },
        }
        render_request_value()
    }

    /// Shows the error marker after a failed run.
    pub fn show_command_failure(&mut self) -> (r: Reaction)
        ensures
            (final(self)@, r) == failure_step(old(self)@),
    {
        self.output = ERROR_MARKER.to_owned();
        render_request_value()
    }

    /// The end of a run: exit code, standard output and standard error. A
    /// run without exit code counts as failed.
    pub fn on_command_result(&mut self, exit_code: Option<i32>, stdout: &Vec<u8>, _stderr: &Vec<u8>) -> (r: Reaction)
        ensures
            (final(self)@, r) == command_step(old(self)@, exit_code, stdout@),
    {
        match exit_code {
            Some(0) => {
                let text = decode_lossy(stdout);
                let text = trim(text.as_str());
                self.show_command_output(&text)
            },
            _ => self.show_command_failure(),
        }
    }

    /// Handles one notification; the clock is read for the permission
    /// answer and for a wake-up.
    pub fn update(&mut self, event: HostEvent) -> (r: Reaction)
        ensures
            match event {
                HostEvent::PermissionRequestResult(granted) => exists|now: int|
                    (final(self)@, r) == #[trigger] permission_step(old(self)@, granted, now),
                HostEvent::Timer => exists|now: int|
                    (final(self)@, r) == #[trigger] timer_step(old(self)@, now),
                HostEvent::RunCommandResult(code, out, _) => (final(self)@, r) == command_step(
                    old(self)@,
                    code,
                    out@,
                ),
                HostEvent::Other => final(self)@ == old(self)@ && r == no_action(),
            },
    {
        match event {
            HostEvent::PermissionRequestResult(granted) => {
                let now = current_timestamp();
                self.on_permission(granted, now)
            },
            HostEvent::Timer => {
                let now = current_timestamp();
                self.on_timer(now)
            },
            HostEvent::RunCommandResult(code, out, err) => self.on_command_result(code, &out, &err),
            HostEvent::Other => Reaction {
                run_command: false,
                arm_timer: false,
                make_unselectable: false,
                should_render: false,
            },
        }
    }

    /// The line to paint in `cols` columns: what is shown, right-aligned
    /// and styled. The row count plays no part.
    pub fn render(&self, _rows: usize, cols: usize) -> (r: String)
        ensures
            r@ == composed(self@.output, cols as nat),
    {
        compose(self.output.as_str(), cols)
    }

    /// What is shown now.
    pub fn get_output(&self) -> (r: &String)
        ensures
            r@ == self@.output,
    {
        &self.output
    }

    pub fn get_last_update(&self) -> (r: i64)
        ensures
            r == self@.last_update,
    {
        self.last_update
    }

    pub fn get_has_permissions(&self) -> (r: bool)
        ensures
            r == self@.has_permissions,
    {
        self.has_permissions
    }

    pub fn get_config(&self) -> (r: &Configuration)
        ensures
            r@ == self@.config,
    {
        &self.config
    }
}

fn render_request_value() -> (r: Reaction)
    ensures
        r == render_request(),
{
    Reaction { run_command: false, arm_timer: false, make_unselectable: false, should_render: true }
}

} // verus!
