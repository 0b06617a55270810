//! The window-activity watcher agent: its config, the candidate-event
//! sanitizer, the dedup/filter policy, the outbound framing, and the
//! run-loop state machine driven by tick / notify / line / shutdown
//! events.

use vstd::prelude::*;
use vstd::string::{StrSliceExecFns, StringExecFns};
use crate::json::{JsonValue, spec_parse_json, spec_obj_get, parse_json, obj_get, all_strings, spec_str_items, str_items};
use crate::control::{spec_parse_line, parse_line, line_has_verb};
use crate::strutil::{seq_contains_str, contains_string, spec_trim, trim_str, str_eq};
use crate::jsonfmt::{spec_i64_dec, i64_dec_append, spec_quoted, quoted_append};

verus! {

/// The longest title kept on a candidate event; longer titles are cut.
pub const MAX_TITLE_LEN: usize = 250;

/// Mathematical image of a [`WatcherConfig`].
#[verifier::ext_equal]
pub struct WatcherConfigV {
    pub interval: u64,
    pub ignore: Seq<String>,
}

/// Configuration of the watcher agent: the poll period in seconds and
/// the application names to ignore. Replaced wholesale on a `.CONFIG`
/// command, never field-mutated.
pub struct WatcherConfig {
    pub interval: u64,
    pub ignore: Vec<String>,
}

impl View for WatcherConfig {
    type V = WatcherConfigV;

    open spec fn view(&self) -> WatcherConfigV {
        WatcherConfigV { interval: self.interval, ignore: self.ignore@ }
    }
}

/// The documented defaults: a 10 second period, nothing ignored.
pub open spec fn spec_default_watcher_config() -> WatcherConfigV {
    WatcherConfigV { interval: 10, ignore: Seq::empty() }
}

/// The config a parsed `.CONFIG` payload denotes. `interval` must be a
/// positive integer and `ignore` an array of strings; a field absent or
/// of another shape falls back to its default.
pub open spec fn spec_watcher_config_of(doc: Option<JsonValue>) -> WatcherConfigV {
    match doc {
        Some(JsonValue::Obj(m)) => WatcherConfigV {
            interval: match spec_obj_get(m@, "interval"@) {
                Some(JsonValue::UInt(u)) => if u >= 1 {
                    u
                } else {
                    10
                },
                _ => 10,
            },
            ignore: match spec_obj_get(m@, "ignore"@) {
                Some(JsonValue::Arr(a)) => if all_strings(a@) {
                    spec_str_items(a@)
                } else {
                    Seq::empty()
                },
                _ => Seq::empty(),
            },
        },
        _ => spec_default_watcher_config(),
    }
}

impl Default for WatcherConfig {
    fn default() -> (c: Self)
        ensures
            c@ == spec_default_watcher_config(),
    {
        let c = WatcherConfig { interval: 10, ignore: Vec::new() };
        proof {
            assert(c@ =~= spec_default_watcher_config());
        }
        c
    }
}

impl WatcherConfig {
    /// Builds the config a parsed payload denotes.
    pub fn of_json(doc: &Option<JsonValue>) -> (c: Self)
        ensures
            c@ == spec_watcher_config_of(*doc),
    {
        let mut c = WatcherConfig::default();
        if let Some(JsonValue::Obj(m)) = doc {
            if let Some(JsonValue::UInt(u)) = obj_get(m, "interval") {
                if *u >= 1 {
                    c.interval = *u;
                }
            }
            if let Some(JsonValue::Arr(a)) = obj_get(m, "ignore") {
                if let Some(ss) = str_items(a) {
                    c.ignore = ss;
                }
            }
        }
        proof {
            assert(c@ =~= spec_watcher_config_of(*doc));
        }
        c
    }

    /// Parses a `.CONFIG` argument (or the startup config string) into a
    /// config, with defaults for anything missing or malformed.
    pub fn from_json_str(s: &str) -> (c: Self)
        ensures
            c@ == spec_watcher_config_of(spec_parse_json(s@)),
    {
        let doc = parse_json(s);
        WatcherConfig::of_json(&doc)
    }
}

/// A `.CONFIG` payload updates exactly the fields it carries: a field
/// absent or malformed falls back to its default rather than nulling
/// the config out.
pub proof fn lemma_watcher_config_partial_update(v: JsonValue)
    requires
        v is Obj,
    ensures
        match spec_obj_get(v->Obj_0@, "interval"@) {
            Some(JsonValue::UInt(u)) => u >= 1 ==> spec_watcher_config_of(Some(v)).interval
                == u,
            _ => spec_watcher_config_of(Some(v)).interval == 10,
        },
        spec_obj_get(v->Obj_0@, "ignore"@) is None ==> spec_watcher_config_of(Some(v)).ignore
            =~= Seq::<String>::empty(),
{
}

/// Every config the grammar can produce keeps the invariant
/// `interval >= 1`: a zero or malformed period falls back to the
/// default rather than stalling the scheduler.
pub proof fn lemma_config_interval_invariant(doc: Option<JsonValue>)
    ensures
        spec_watcher_config_of(doc).interval >= 1,
{
}

/// Mathematical image of an [`ApplicationEvent`].
#[verifier::ext_equal]
pub struct EventV {
    pub t: int,
    pub name: Seq<char>,
    pub title: Seq<char>,
    pub x: int,
    pub y: int,
    pub width: int,
    pub height: int,
    pub text: Seq<char>,
}

/// One candidate event from the active-window query: a timestamp, the
/// application name, the window title and geometry, and the combined
/// search text.
pub struct ApplicationEvent {
    pub t: i64,
    pub name: String,
    pub title: String,
    pub x: i64,
    pub y: i64,
    pub width: i64,
    pub height: i64,
    pub text: String,
}

impl View for ApplicationEvent {
    type V = EventV;

    open spec fn view(&self) -> EventV {
        EventV {
            t: self.t as int,
            name: self.name@,
            title: self.title@,
            x: self.x as int,
            y: self.y as int,
            width: self.width as int,
            height: self.height as int,
            text: self.text@,
        }
    }
}

impl ApplicationEvent {
    /// A copy with the same fields.
    pub fn duplicate(&self) -> (e: Self)
        ensures
            e@ == self@,
    {
        let e = ApplicationEvent {
            t: self.t,
            name: self.name.clone(),
            title: self.title.clone(),
            x: self.x,
            y: self.y,
            width: self.width,
            height: self.height,
            text: self.text.clone(),
        };
        proof {
            assert(e@ =~= self@);
        }
        e
    }
}

/// The image of an optional event.
pub open spec fn opt_view(e: Option<ApplicationEvent>) -> Option<EventV> {
    match e {
        Some(x) => Some(x@),
        None => None,
    }
}

/// The comparison signature of the dedup policy: two candidates count
/// as the same when position, size and text agree (name, title and
/// timestamp do not take part).
pub open spec fn spec_same_sig(a: EventV, b: EventV) -> bool {
    a.x == b.x && a.y == b.y && a.width == b.width && a.height == b.height && a.text == b.text
}

/// Whether the candidate repeats the cached last event.
pub open spec fn spec_is_same(last: Option<EventV>, cand: Option<EventV>) -> bool {
    match (cand, last) {
        (Some(e), Some(l)) => spec_same_sig(e, l),
        _ => false,
    }
}

/// Whether the candidate's application name is on the ignore list
/// (case-sensitive, exact match).
pub open spec fn spec_is_ignored(cfg: WatcherConfigV, cand: Option<EventV>) -> bool {
    match cand {
        Some(e) => seq_contains_str(cfg.ignore, e.name),
        None => false,
    }
}

/// One candidate through the dedup/filter policy: the new cache and the
/// event to emit, if any. An ignored candidate is dropped and never
/// becomes the cached last event; an immediate repeat is dropped and
/// leaves the cache as it was; a failed query (no candidate) changes
/// nothing; anything else is emitted and cached.
pub open spec fn spec_dedup(
    cfg: WatcherConfigV,
    last: Option<EventV>,
    cand: Option<EventV>,
) -> (Option<EventV>, Option<EventV>) {
    match cand {
        None => (last, None),
        Some(e) => {
            if seq_contains_str(cfg.ignore, e.name) {
                (last, None)
            } else if spec_is_same(last, cand) {
                (last, None)
            } else {
                (Some(e), Some(e))
            }
        },
    }
}

/// The events emitted when the candidates of `cands` run through the
/// policy in order, starting from cache `last`.
pub open spec fn spec_dedup_run(
    cfg: WatcherConfigV,
    last: Option<EventV>,
    cands: Seq<Option<EventV>>,
) -> Seq<EventV>
    decreases cands.len(),
{
    if cands.len() == 0 {
        Seq::empty()
    } else {
        let (last2, evt) = spec_dedup(cfg, last, cands[0]);
        match evt {
            Some(e) => seq![e] + spec_dedup_run(cfg, last2, cands.skip(1)),
            None => spec_dedup_run(cfg, last2, cands.skip(1)),
        }
    }
}

/// The candidate a raw active-window snapshot becomes: dropped when the
/// application name is empty; the title cut to [`MAX_TITLE_LEN`]
/// characters; the search text is name and (cut) title joined by one
/// space and trimmed.
pub open spec fn spec_build_event(
    t: int,
    name: Seq<char>,
    title: Seq<char>,
    x: int,
    y: int,
    width: int,
    height: int,
) -> Option<EventV> {
    if name.len() == 0 {
        None
    } else {
        let tt = if title.len() > MAX_TITLE_LEN {
            title.take(MAX_TITLE_LEN as int)
        } else {
            title
        };
        Some(
            EventV { t, name, title: tt, x, y, width, height, text: spec_trim(name + " "@ + tt) },
        )
    }
}

/// Sanitizes one raw active-window snapshot into a candidate event.
pub fn build_event(
    t: i64,
    name: String,
    title: String,
    x: i64,
    y: i64,
    width: i64,
    height: i64,
) -> (r: Option<ApplicationEvent>)
    ensures
        opt_view(r) == spec_build_event(
            t as int,
            name@,
            title@,
            x as int,
            y as int,
            width as int,
            height as int,
        ),
{
    let ghost gname = name@;
    let ghost gtitle = title@;
    if name.as_str().is_empty() {
        return None;
    }
    let title2: String = if title.as_str().unicode_len() > MAX_TITLE_LEN {
        let cut = String::from_str(title.as_str().substring_char(0, MAX_TITLE_LEN));
        proof {
            assert(cut@ =~= gtitle.take(MAX_TITLE_LEN as int));
        }
        cut
    } else {
        title
    };
    let mut joined = name.clone();
    joined.append(" ");
    joined.append(title2.as_str());
    let text = String::from_str(trim_str(joined.as_str()));
    let ev = ApplicationEvent { t, name, title: title2, x, y, width, height, text };
    proof {
        assert(Some(ev@) =~= spec_build_event(
            t as int,
            gname,
            gtitle,
            x as int,
            y as int,
            width as int,
            height as int,
        ));
    }
    Some(ev)
}

/// The JSON object for one event, fields in declaration order.
pub open spec fn spec_event_json(v: EventV) -> Seq<char> {
    "{\"t\":"@ + spec_i64_dec(v.t) + ",\"name\":"@ + spec_quoted(v.name) + ",\"title\":"@
        + spec_quoted(v.title) + ",\"x\":"@ + spec_i64_dec(v.x) + ",\"y\":"@ + spec_i64_dec(v.y)
        + ",\"width\":"@ + spec_i64_dec(v.width) + ",\"height\":"@ + spec_i64_dec(v.height)
        + ",\"text\":"@ + spec_quoted(v.text) + "}"@
}

/// Serializes one event as a JSON object.
pub fn event_json(e: &ApplicationEvent) -> (s: String)
    ensures
        s@ == spec_event_json(e@),
{
    let mut s = String::from_str("{\"t\":");
    i64_dec_append(e.t, &mut s);
    s.append(",\"name\":");
    quoted_append(e.name.as_str(), &mut s);
    s.append(",\"title\":");
    quoted_append(e.title.as_str(), &mut s);
    s.append(",\"x\":");
    i64_dec_append(e.x, &mut s);
    s.append(",\"y\":");
    i64_dec_append(e.y, &mut s);
    s.append(",\"width\":");
    i64_dec_append(e.width, &mut s);
    s.append(",\"height\":");
    i64_dec_append(e.height, &mut s);
    s.append(",\"text\":");
    quoted_append(e.text.as_str(), &mut s);
    s.append("}");
    proof {
        assert(s@ =~= spec_event_json(e@));
    }
    s
}

/// The watcher's outbound framing: `.OUT`, the kind once, then the JSON
/// payload, space-separated.
pub open spec fn spec_emit_line(e: EventV) -> Seq<char> {
    ".OUT "@ + "application"@ + " "@ + spec_event_json(e)
}

/// Mathematical image of an [`ApplicationAgent`].
#[verifier::ext_equal]
pub struct AgentV {
    pub config: WatcherConfigV,
    pub last_event: Option<EventV>,
    pub timer_period: u64,
}

/// The watcher's loop state: the live config, the dedup cache, and the
/// period the running timer was armed with (which lags the config until
/// the next tick).
pub struct ApplicationAgent {
    pub config: WatcherConfig,
    pub last_event: Option<ApplicationEvent>,
    pub timer_period: u64,
}

impl View for ApplicationAgent {
    type V = AgentV;

    open spec fn view(&self) -> AgentV {
        AgentV {
            config: self.config@,
            last_event: opt_view(self.last_event),
            timer_period: self.timer_period,
        }
    }
}

/// One ready source of the multiplexed wait: a scheduler tick or a push
/// notification (each carrying the candidate the poll then produced), a
/// control line, or an OS termination signal.
pub enum LoopEvent {
    Tick(Option<ApplicationEvent>),
    Notify(Option<ApplicationEvent>),
    Line(String),
    Shutdown,
}

/// Mathematical image of a [`StepOutcome`].
#[verifier::ext_equal]
pub struct StepOutcomeV {
    pub emit: Option<Seq<char>>,
    pub rearm: Option<u64>,
    pub quit: bool,
}

/// What one loop iteration asks its surroundings to do: at most one
/// line to write, a new timer period to arm, and whether to stop.
pub struct StepOutcome {
    pub emit: Option<String>,
    pub rearm: Option<u64>,
    pub quit: bool,
}

impl View for StepOutcome {
    type V = StepOutcomeV;

    open spec fn view(&self) -> StepOutcomeV {
        StepOutcomeV {
            emit: match self.emit {
                Some(s) => Some(s@),
                None => None,
            },
            rearm: self.rearm,
            quit: self.quit,
        }
    }
}

/// One control line applied to the watcher config: `.CONFIG <json>`
/// replaces the config (ignore list included), `.QUIT` asks to stop,
/// anything else (and a blank line) changes nothing.
pub open spec fn spec_process_line(c: WatcherConfigV, line: Seq<char>) -> (WatcherConfigV, bool) {
    match spec_parse_line(line) {
        Some((cmd, args)) => {
            if cmd == ".CONFIG"@ {
                (spec_watcher_config_of(spec_parse_json(args)), false)
            } else if cmd == ".QUIT"@ {
                (c, true)
            } else {
                (c, false)
            }
        },
        None => (c, false),
    }
}

/// One loop iteration on the state machine: exactly one ready source is
/// serviced. A tick or notify runs the candidate through the policy; a
/// tick additionally re-arms the timer when the configured period has
/// changed since it was armed; a line goes through the control grammar;
/// shutdown stops the loop. Events are emitted in service order.
pub open spec fn spec_step(st: AgentV, ev: LoopEvent) -> (AgentV, StepOutcomeV) {
    match ev {
        LoopEvent::Tick(cand) => {
            let (last2, evt) = spec_dedup(st.config, st.last_event, opt_view(cand));
            let changed = st.timer_period != st.config.interval;
            (
                AgentV {
                    config: st.config,
                    last_event: last2,
                    timer_period: st.config.interval,
                },
                StepOutcomeV {
                    emit: match evt {
                        Some(e) => Some(spec_emit_line(e)),
                        None => None,
                    },
                    rearm: if changed {
                        Some(st.config.interval)
                    } else {
                        None
                    },
                    quit: false,
                },
            )
        },
        LoopEvent::Notify(cand) => {
            let (last2, evt) = spec_dedup(st.config, st.last_event, opt_view(cand));
            (
                AgentV { config: st.config, last_event: last2, timer_period: st.timer_period },
                StepOutcomeV {
                    emit: match evt {
                        Some(e) => Some(spec_emit_line(e)),
                        None => None,
                    },
                    rearm: None,
                    quit: false,
                },
            )
        },
        LoopEvent::Line(l) => {
            let (c2, quit) = spec_process_line(st.config, l@);
            (
                AgentV { config: c2, last_event: st.last_event, timer_period: st.timer_period },
                StepOutcomeV { emit: None, rearm: None, quit },
            )
        },
        LoopEvent::Shutdown => (
            st,
            StepOutcomeV { emit: None, rearm: None, quit: true },
        ),
    }
}

impl ApplicationAgent {
    /// A fresh agent: the given config, an empty cache, the timer armed
    /// with the configured period.
    pub fn new(config: WatcherConfig) -> (a: Self)
        ensures
            a@.config == config@,
            a@.last_event is None,
            a@.timer_period == config@.interval,
    {
        ApplicationAgent { timer_period: config.interval, config, last_event: None }
    }

    /// Whether the candidate repeats the cached last event; a candidate
    /// that does not is cached (and a missing candidate changes
    /// nothing).
    pub fn is_same(&mut self, app_event: &Option<ApplicationEvent>) -> (r: bool)
        ensures
            r == spec_is_same(old(self)@.last_event, opt_view(*app_event)),
            final(self)@.config == old(self)@.config,
            final(self)@.timer_period == old(self)@.timer_period,
            final(self)@.last_event == (if r || opt_view(*app_event) is None {
                old(self)@.last_event
            } else {
                opt_view(*app_event)
            }),
    {
        match app_event {
            Some(e) => {
                let same = match &self.last_event {
                    Some(l) => e.x == l.x && e.y == l.y && e.width == l.width && e.height
                        == l.height && e.text.eq(&l.text),
                    None => false,
                };
                if same {
                    true
                } else {
                    self.last_event = Some(e.duplicate());
                    false
                }
            },
            None => false,
        }
    }

    /// Whether the candidate's application name is on the ignore list.
    pub fn is_ignored(&self, app_event: &Option<ApplicationEvent>) -> (r: bool)
        ensures
            r == spec_is_ignored(self@.config, opt_view(*app_event)),
    {
        match app_event {
            Some(e) => contains_string(&self.config.ignore, &e.name),
            None => false,
        }
    }

    /// Runs one candidate through the dedup/filter policy and frames the
    /// outbound line for an accepted one.
    pub fn execute_task(&mut self, candidate: Option<ApplicationEvent>) -> (emit: Option<String>)
        ensures
            ({
                let (last2, evt) = spec_dedup(
                    old(self)@.config,
                    old(self)@.last_event,
                    opt_view(candidate),
                );
                &&& final(self)@.config == old(self)@.config
                &&& final(self)@.timer_period == old(self)@.timer_period
                &&& final(self)@.last_event == last2
                &&& match (emit, evt) {
                    (Some(s), Some(e)) => s@ == spec_emit_line(e),
                    (None, None) => true,
                    _ => false,
                }
            }),
    {
        if self.is_ignored(&candidate) {
            return None;
        }
        if self.is_same(&candidate) {
            return None;
        }
        match candidate {
            Some(e) => {
                let mut line = String::from_str(".OUT ");
                line.append("application");
                line.append(" ");
                let json = event_json(&e);
                line.append(json.as_str());
                proof {
                    assert(line@ =~= spec_emit_line(e@));
                }
                Some(line)
            },
            None => None,
        }
    }

    /// Applies one control line to the config; returns whether the agent
    /// should quit. The cache and the armed timer are untouched.
    pub fn process_line(&mut self, line: &str) -> (quit: bool)
        ensures
            ({
                let (c2, q) = spec_process_line(old(self)@.config, line@);
                &&& final(self)@.config == c2
                &&& quit == q
                &&& final(self)@.last_event == old(self)@.last_event
                &&& final(self)@.timer_period == old(self)@.timer_period
            }),
    {
        if let Some((cmd, args)) = parse_line(line) {
            if str_eq(cmd, ".CONFIG") {
                self.config = WatcherConfig::from_json_str(args);
                false
            } else if str_eq(cmd, ".QUIT") {
                true
            } else {
                false
            }
        } else {
            false
        }
    }

    /// Services exactly one ready source.
    pub fn step(&mut self, ev: LoopEvent) -> (out: StepOutcome)
        ensures
            ({
                let (st2, o) = spec_step(old(self)@, ev);
                final(self)@ == st2 && out@ == o
            }),
    {
        match ev {
            LoopEvent::Tick(cand) => {
                let emit = self.execute_task(cand);
                let rearm: Option<u64> = if self.timer_period != self.config.interval {
                    self.timer_period = self.config.interval;
                    Some(self.config.interval)
                } else {
                    None
                };
                let out = StepOutcome { emit, rearm, quit: false };
                proof {
                    assert(final(self)@ =~= spec_step(old(self)@, ev).0);
                    assert(out@ =~= spec_step(old(self)@, ev).1);
                }
                out
            },
            LoopEvent::Notify(cand) => {
                let emit = self.execute_task(cand);
                let out = StepOutcome { emit, rearm: None, quit: false };
                proof {
                    assert(final(self)@ =~= spec_step(old(self)@, ev).0);
                    assert(out@ =~= spec_step(old(self)@, ev).1);
                }
                out
            },
            LoopEvent::Line(l) => {
                let quit = self.process_line(l.as_str());
                let out = StepOutcome { emit: None, rearm: None, quit };
                proof {
                    assert(final(self)@ =~= spec_step(old(self)@, ev).0);
                    assert(out@ =~= spec_step(old(self)@, ev).1);
                }
                out
            },
            LoopEvent::Shutdown => {
                let out = StepOutcome { emit: None, rearm: None, quit: true };
                proof {
                    assert(final(self)@ =~= spec_step(old(self)@, ev).0);
                    assert(out@ =~= spec_step(old(self)@, ev).1);
                }
                out
            },
        }
    }
}

/// Immediate repeats are suppressed, non-adjacent repeats are not: from
/// an empty cache, candidates `[e1, e1, e2, e1]` with `e1`, `e2`
/// distinct under the comparison signature (and neither ignored) emit
/// exactly `[e1, e2, e1]`.
pub proof fn lemma_repeat_suppression(cfg: WatcherConfigV, e1: EventV, e2: EventV)
    requires
        !spec_same_sig(e1, e2),
        !seq_contains_str(cfg.ignore, e1.name),
        !seq_contains_str(cfg.ignore, e2.name),
    ensures
        spec_dedup_run(cfg, None, seq![Some(e1), Some(e1), Some(e2), Some(e1)]) == seq![
            e1,
            e2,
            e1,
        ],
{
    let s0 = seq![Some(e1), Some(e1), Some(e2), Some(e1)];
    let s1 = seq![Some(e1), Some(e2), Some(e1)];
    let s2 = seq![Some(e2), Some(e1)];
    let s3 = seq![Some(e1)];
    assert(s0.skip(1) =~= s1);
    assert(s1.skip(1) =~= s2);
    assert(s2.skip(1) =~= s3);
    assert(s3.skip(1) =~= Seq::<Option<EventV>>::empty());
    assert(spec_same_sig(e1, e1));
    assert(!spec_same_sig(e2, e1));
    assert(!spec_same_sig(e1, e2));
    assert(spec_dedup_run(cfg, None, s0) == seq![e1] + spec_dedup_run(cfg, Some(e1), s1));
    assert(spec_dedup_run(cfg, Some(e1), s1) == spec_dedup_run(cfg, Some(e1), s2));
    assert(spec_dedup_run(cfg, Some(e1), s2) == seq![e2] + spec_dedup_run(cfg, Some(e2), s3));
    assert(spec_dedup_run(cfg, Some(e2), s3) == seq![e1] + spec_dedup_run(
        cfg,
        Some(e1),
        Seq::<Option<EventV>>::empty(),
    ));
    assert(spec_dedup_run(cfg, Some(e1), Seq::<Option<EventV>>::empty()) =~= Seq::<
        EventV,
    >::empty());
    assert(spec_dedup_run(cfg, None, s0) =~= seq![e1, e2, e1]);
}

/// An ignored candidate never becomes the cached last event and is
/// never emitted, whatever the cache held.
pub proof fn lemma_ignored_keeps_cache(cfg: WatcherConfigV, last: Option<EventV>, e: EventV)
    requires
        seq_contains_str(cfg.ignore, e.name),
    ensures
        spec_dedup(cfg, last, Some(e)).0 == last,
        spec_dedup(cfg, last, Some(e)).1 is None,
{
}

/// The ignore check is case-sensitive and exact: a candidate whose name
/// differs from every list entry — be it only in case — is not
/// filtered.
pub proof fn lemma_ignore_exact(cfg: WatcherConfigV, e: EventV)
    requires
        forall|i: int| 0 <= i < cfg.ignore.len() ==> cfg.ignore[i]@ != e.name,
    ensures
        !spec_is_ignored(cfg, Some(e)),
{
}

/// `.QUIT` stops the loop within the very iteration that reads it,
/// whatever ticks are pending, and changes no state.
pub proof fn lemma_quit_is_immediate(st: AgentV, line: String)
    requires
        line_has_verb(line@, ".QUIT"@),
    ensures
        spec_step(st, LoopEvent::Line(line)).1.quit,
        spec_step(st, LoopEvent::Line(line)).1.emit is None,
        spec_step(st, LoopEvent::Line(line)).0 == st,
{
    assert(!(".QUIT"@ =~= ".CONFIG"@)) by {
        reveal_strlit(".QUIT");
        reveal_strlit(".CONFIG");
    }
    assert(spec_step(st, LoopEvent::Line(line)).0 =~= st);
}

/// A changed `interval` takes effect on the next tick, not immediately:
/// the `.CONFIG` line itself emits nothing and re-arms nothing, and the
/// first tick after it re-arms the timer with the new period.
pub proof fn lemma_interval_next_tick(st: AgentV, line: String, cand: Option<ApplicationEvent>)
    requires
        line_has_verb(line@, ".CONFIG"@),
    ensures
        ({
            let (st1, o1) = spec_step(st, LoopEvent::Line(line));
            let (st2, o2) = spec_step(st1, LoopEvent::Tick(cand));
            &&& o1.rearm is None
            &&& o1.emit is None
            &&& st1.timer_period == st.timer_period
            &&& (st1.config.interval != st.timer_period ==> o2.rearm == Some(
                st1.config.interval,
            ))
            &&& st2.timer_period == st1.config.interval
        }),
{
}

} // verus!
