//! One block of the bar: its display state, how command output is merged
//! into it, and the decisions of the task that keeps it up to date.
use vstd::prelude::*;
use vstd::utf8::{decode_utf8, valid_utf8};

use crate::config::{IntervalSetting, TomlBlock};
use crate::protocol::{align_of, markup_of, Align, Body, BodyView, Markup};
use crate::text::{
    affixed, affixed_spec, lines_of, opt_text_eq, parse_bool, parse_bool_spec, parse_u32,
    parse_u32_spec, split_lines, text_views,
};

verus! {

/// A request that a block regenerate its body.
#[derive(Clone, Copy, Debug, PartialEq, Eq, Structural)]
pub struct RegenBody {
    /// This is the first regeneration of the block.
    pub init: bool,
}

/// The first of `immediate`, `local` and `global` that is set.
pub open spec fn fallback<T>(immediate: Option<T>, local: Option<T>, global: Option<T>) -> Option<T> {
    match immediate {
        Some(v) => Some(v),
        None => match local {
            Some(v) => Some(v),
            None => global,
        },
    }
}

/// Line `k` of the output, if there is one.
pub open spec fn line_at(lines: Seq<Seq<char>>, k: int) -> Option<Seq<char>> {
    if 0 <= k < lines.len() {
        Some(lines[k])
    } else {
        None
    }
}

/// Line `k` read as a `u32`.
pub open spec fn u32_at(lines: Seq<Seq<char>>, k: int) -> Option<u32> {
    match line_at(lines, k) {
        Some(l) => parse_u32_spec(l),
        None => None,
    }
}

/// Line `k` read as a `bool`.
pub open spec fn bool_at(lines: Seq<Seq<char>>, k: int) -> Option<bool> {
    match line_at(lines, k) {
        Some(l) => parse_bool_spec(l),
        None => None,
    }
}

/// Line `k` read as an alignment.
pub open spec fn align_at(lines: Seq<Seq<char>>, k: int) -> Option<Align> {
    match line_at(lines, k) {
        Some(l) => align_of(l),
        None => None,
    }
}

/// Line `k` read as a markup kind.
pub open spec fn markup_at(lines: Seq<Seq<char>>, k: int) -> Option<Markup> {
    match line_at(lines, k) {
        Some(l) => markup_of(l),
        None => None,
    }
}

/// The body that a block shows for the given lines of command output: each
/// field takes its line, in field order, then the block's own value, then
/// the global one; the full text then gets the prefix and the postfix.
pub open spec fn merged_body(
    lines: Seq<Seq<char>>,
    local: BodyView,
    global: BodyView,
    prefix: Option<Seq<char>>,
    postfix: Option<Seq<char>>,
) -> BodyView {
    BodyView {
        full_text: match fallback(line_at(lines, 0), local.full_text, global.full_text) {
            Some(t) => Some(affixed_spec(prefix, t, postfix)),
            None => None,
        },
        short_text: fallback(line_at(lines, 1), local.short_text, global.short_text),
        color: fallback(line_at(lines, 2), local.color, global.color),
        background: fallback(line_at(lines, 3), local.background, global.background),
        border: fallback(line_at(lines, 4), local.border, global.border),
        border_top: fallback(u32_at(lines, 5), local.border_top, global.border_top),
        border_bottom: fallback(u32_at(lines, 6), local.border_bottom, global.border_bottom),
        border_left: fallback(u32_at(lines, 7), local.border_left, global.border_left),
        border_right: fallback(u32_at(lines, 8), local.border_right, global.border_right),
        min_width: fallback(line_at(lines, 9), local.min_width, global.min_width),
        align: fallback(align_at(lines, 10), local.align, global.align),
        name: fallback(line_at(lines, 11), local.name, global.name),
        instance: fallback(line_at(lines, 12), local.instance, global.instance),
        urgent: fallback(bool_at(lines, 13), local.urgent, global.urgent),
        separator: fallback(bool_at(lines, 14), local.separator, global.separator),
        separator_block_width: fallback(
            u32_at(lines, 15),
            local.separator_block_width,
            global.separator_block_width,
        ),
        markup: fallback(markup_at(lines, 16), local.markup, global.markup),
    }
}

/// The body that a block configured by `toml`, under the global body
/// `global`, shows for the command output `output`.
pub open spec fn block_body_for(toml: TomlBlock, global: BodyView, output: Seq<char>) -> BodyView {
    merged_body(
        lines_of(output),
        toml.body@,
        global,
        crate::text::opt_text_view(toml.prefix),
        crate::text::opt_text_view(toml.postfix),
    )
}

fn pick_text(lines: &Vec<String>, k: usize, local: &Option<String>, global: &Option<String>) -> (r:
    Option<String>)
    ensures
        crate::text::opt_text_view(r) == fallback(
            line_at(text_views(lines@), k as int),
            crate::text::opt_text_view(*local),
            crate::text::opt_text_view(*global),
        ),
{
    if k < lines.len() {
        Some(lines[k].clone())
    } else {
        match local {
            Some(v) => Some(v.clone()),
            None => match global {
                Some(v) => Some(v.clone()),
                None => None,
            },
        }
    }
}

fn pick_u32(lines: &Vec<String>, k: usize, local: Option<u32>, global: Option<u32>) -> (r: Option<
    u32,
>)
    ensures
        r == fallback(u32_at(text_views(lines@), k as int), local, global),
{
    let immediate = if k < lines.len() {
        parse_u32(lines[k].as_str())
    } else {
        None
    };
    match immediate {
        Some(v) => Some(v),
        None => match local {
            Some(v) => Some(v),
            None => global,
        },
    }
}

fn pick_bool(lines: &Vec<String>, k: usize, local: Option<bool>, global: Option<bool>) -> (r:
    Option<bool>)
    ensures
        r == fallback(bool_at(text_views(lines@), k as int), local, global),
{
    let immediate = if k < lines.len() {
        parse_bool(lines[k].as_str())
    } else {
        None
    };
    match immediate {
        Some(v) => Some(v),
        None => match local {
            Some(v) => Some(v),
            None => global,
        },
    }
}

fn pick_align(lines: &Vec<String>, k: usize, local: Option<Align>, global: Option<Align>) -> (r:
    Option<Align>)
    ensures
        r == fallback(align_at(text_views(lines@), k as int), local, global),
{
    let immediate = if k < lines.len() {
        Align::parse(lines[k].as_str())
    } else {
        None
    };
    match immediate {
        Some(v) => Some(v),
        None => match local {
            Some(v) => Some(v),
            None => global,
        },
    }
}

fn pick_markup(lines: &Vec<String>, k: usize, local: Option<Markup>, global: Option<Markup>) -> (r:
    Option<Markup>)
    ensures
        r == fallback(markup_at(text_views(lines@), k as int), local, global),
{
    let immediate = if k < lines.len() {
        Markup::parse(lines[k].as_str())
    } else {
        None
    };
    match immediate {
        Some(v) => Some(v),
        None => match local {
            Some(v) => Some(v),
            None => global,
        },
    }
}

fn opt_u32_eq(a: Option<u32>, b: Option<u32>) -> (r: bool)
    ensures
        r == (a == b),
{
    match (a, b) {
        (Some(x), Some(y)) => x == y,
        (None, None) => true,
        _ => false,
    }
}

fn opt_bool_eq(a: Option<bool>, b: Option<bool>) -> (r: bool)
    ensures
        r == (a == b),
{
    match (a, b) {
        (Some(x), Some(y)) => x == y,
        (None, None) => true,
        _ => false,
    }
}

fn opt_align_eq(a: Option<Align>, b: Option<Align>) -> (r: bool)
    ensures
        r == (a == b),
{
    match (a, b) {
        (Some(x), Some(y)) => x == y,
        (None, None) => true,
        _ => false,
    }
}

fn opt_markup_eq(a: Option<Markup>, b: Option<Markup>) -> (r: bool)
    ensures
        r == (a == b),
{
    match (a, b) {
        (Some(x), Some(y)) => x == y,
        (None, None) => true,
        _ => false,
    }
}

impl Body {
    /// Whether two bodies show the same thing.
    pub fn same_as(&self, o: &Body) -> (r: bool)
        ensures
            r == (self@ == o@),
    {
        opt_text_eq(&self.full_text, &o.full_text) && opt_text_eq(&self.short_text, &o.short_text)
            && opt_text_eq(&self.color, &o.color) && opt_text_eq(&self.background, &o.background)
            && opt_text_eq(&self.border, &o.border) && opt_u32_eq(self.border_top, o.border_top)
            && opt_u32_eq(self.border_bottom, o.border_bottom) && opt_u32_eq(
            self.border_left,
            o.border_left,
        ) && opt_u32_eq(self.border_right, o.border_right) && opt_text_eq(
            &self.min_width,
            &o.min_width,
        ) && opt_align_eq(self.align, o.align) && opt_text_eq(&self.name, &o.name)
            && opt_text_eq(&self.instance, &o.instance) && opt_bool_eq(self.urgent, o.urgent)
            && opt_bool_eq(self.separator, o.separator) && opt_u32_eq(
            self.separator_block_width,
            o.separator_block_width,
        ) && opt_markup_eq(self.markup, o.markup)
    }
}

/// Merges command output into a body: the scope merge of a block
/// configured by `local`, under the global body `global`.
pub fn merge_output(output: &str, local: &TomlBlock, global: &Body) -> (r: Body)
    ensures
        r@ == block_body_for(*local, global@, output@),
{
    let lines = split_lines(output);
    let l = &local.body;
    let full = pick_text(&lines, 0, &l.full_text, &global.full_text);
    let full_text = match full {
        Some(t) => Some(affixed(&local.prefix, t.as_str(), &local.postfix)),
        None => None,
    };
    let r = Body {
        full_text,
        short_text: pick_text(&lines, 1, &l.short_text, &global.short_text),
        color: pick_text(&lines, 2, &l.color, &global.color),
        background: pick_text(&lines, 3, &l.background, &global.background),
        border: pick_text(&lines, 4, &l.border, &global.border),
        border_top: pick_u32(&lines, 5, l.border_top, global.border_top),
        border_bottom: pick_u32(&lines, 6, l.border_bottom, global.border_bottom),
        border_left: pick_u32(&lines, 7, l.border_left, global.border_left),
        border_right: pick_u32(&lines, 8, l.border_right, global.border_right),
        min_width: pick_text(&lines, 9, &l.min_width, &global.min_width),
        align: pick_align(&lines, 10, l.align, global.align),
        name: pick_text(&lines, 11, &l.name, &global.name),
        instance: pick_text(&lines, 12, &l.instance, &global.instance),
        urgent: pick_bool(&lines, 13, l.urgent, global.urgent),
        separator: pick_bool(&lines, 14, l.separator, global.separator),
        separator_block_width: pick_u32(
            &lines,
            15,
            l.separator_block_width,
            global.separator_block_width,
        ),
        markup: pick_markup(&lines, 16, l.markup, global.markup),
    };
    r
}

/// The capacity of a block's queue of regeneration requests: twice the
/// number of blocks, at least two, so that a burst of triggers cannot block.
pub open spec fn queue_capacity_for(num_blocks: int) -> int {
    if 2 * num_blocks < 2 {
        2
    } else if 2 * num_blocks > usize::MAX {
        usize::MAX as int
    } else {
        2 * num_blocks
    }
}

/// The states of a block's task.
#[derive(Clone, Copy, Debug, PartialEq, Eq, Structural)]
pub enum WorkerState {
    /// Waiting for a regeneration request.
    Idle,
    /// Regenerating its body.
    Regenerating,
    /// Cancelled: its triggers are stopped and it does nothing more.
    Cancelled,
}

/// What happens to a block's task.
#[derive(Clone, Copy, Debug, PartialEq, Eq, Structural)]
pub enum WorkerEvent {
    /// A trigger asks for a regeneration.
    Request(RegenBody),
    /// The regeneration under way has finished.
    Completed,
    /// The block's cancellation token fired.
    Cancel,
}

/// What a block's task does next.
#[derive(Clone, Copy, Debug, PartialEq, Eq, Structural)]
pub enum WorkerAction {
    /// Regenerate the body for this request.
    Regenerate(RegenBody),
    /// Wait for the next event.
    Wait,
    /// Abort both triggers, await them, and end the task.
    StopTriggers,
    /// Nothing: the event does not apply in this state.
    Ignore,
}

/// The listen loop of a block's task, from its state and its queue of
/// pending requests: requests that arrive during a regeneration queue
/// behind it, and cancellation pre-empts everything.
pub open spec fn worker_step(
    state: WorkerState,
    queued: Seq<RegenBody>,
    e: WorkerEvent,
) -> (WorkerState, Seq<RegenBody>, WorkerAction) {
    match state {
        WorkerState::Cancelled => (WorkerState::Cancelled, queued, WorkerAction::Ignore),
        _ => match e {
            WorkerEvent::Cancel => (WorkerState::Cancelled, Seq::empty(), WorkerAction::StopTriggers),
            WorkerEvent::Request(m) => match state {
                WorkerState::Idle => (WorkerState::Regenerating, queued, WorkerAction::Regenerate(m)),
                _ => (WorkerState::Regenerating, queued.push(m), WorkerAction::Wait),
            },
            WorkerEvent::Completed => match state {
                WorkerState::Regenerating => if queued.len() == 0 {
                    (WorkerState::Idle, queued, WorkerAction::Wait)
                } else {
                    (WorkerState::Regenerating, queued.drop_first(), WorkerAction::Regenerate(queued[0]))
                },
                _ => (state, queued, WorkerAction::Ignore),
            },
        },
    }
}

/// The actions that a block's task takes for a sequence of events.
pub open spec fn worker_actions(
    state: WorkerState,
    queued: Seq<RegenBody>,
    events: Seq<WorkerEvent>,
) -> Seq<WorkerAction>
    decreases events.len(),
{
    if events.len() == 0 {
        Seq::empty()
    } else {
        let (s, q, a) = worker_step(state, queued, events[0]);
        seq![a] + worker_actions(s, q, events.drop_first())
    }
}

/// Cancellation is final: a block cancelled in any state, mid-command
/// included, stops its triggers, and whatever happens after (a completed
/// command, a tick of its interval, a signal, another cancellation) its task
/// does nothing more.
pub proof fn lemma_cancel_is_final(
    state: WorkerState,
    queued: Seq<RegenBody>,
    later: Seq<WorkerEvent>,
)
    ensures
        worker_step(state, queued, WorkerEvent::Cancel).0 == WorkerState::Cancelled,
        state != WorkerState::Cancelled ==> worker_step(state, queued, WorkerEvent::Cancel).2
            == WorkerAction::StopTriggers,
        worker_actions(
            WorkerState::Cancelled,
            worker_step(state, queued, WorkerEvent::Cancel).1,
            later,
        ).len() == later.len(),
        forall|k: int|
            0 <= k < later.len() ==> #[trigger] worker_actions(
                WorkerState::Cancelled,
                worker_step(state, queued, WorkerEvent::Cancel).1,
                later,
            )[k] == WorkerAction::Ignore,
{
    lemma_cancelled_ignores(worker_step(state, queued, WorkerEvent::Cancel).1, later);
}

proof fn lemma_cancelled_ignores(queued: Seq<RegenBody>, later: Seq<WorkerEvent>)
    ensures
        worker_actions(WorkerState::Cancelled, queued, later).len() == later.len(),
        forall|k: int|
            0 <= k < later.len() ==> #[trigger] worker_actions(
                WorkerState::Cancelled,
                queued,
                later,
            )[k] == WorkerAction::Ignore,
    decreases later.len(),
{
    if later.len() > 0 {
        lemma_cancelled_ignores(queued, later.drop_first());
        let rest = worker_actions(WorkerState::Cancelled, queued, later.drop_first());
        assert forall|k: int| 0 <= k < later.len() implies #[trigger] worker_actions(
            WorkerState::Cancelled,
            queued,
            later,
        )[k] == WorkerAction::Ignore by {
            if k > 0 {
                assert(worker_actions(WorkerState::Cancelled, queued, later)[k] == rest[k - 1]);
            }
        }
    }
}

/// How running a block's command ended.
#[derive(Clone, Debug)]
pub enum CommandOutcome {
    /// The block has no command.
    NotConfigured,
    /// The command could not be started.
    SpawnFailed,
    /// Waiting for the command failed.
    WaitFailed,
    /// The block was cancelled while the command ran; the process was killed.
    Cancelled,
    /// The command exited, with this status and standard output.
    Exited { success: bool, stdout: Vec<u8> },
}

/// Something worth a warning that happened while regenerating.
#[derive(Clone, Copy, Debug, PartialEq, Eq, Structural)]
pub enum RegenWarning {
    /// The command could not be started.
    SpawnFailed,
    /// Waiting for the command failed.
    WaitFailed,
    /// The command exited with failure.
    ExitFailure,
    /// The command's output is not valid UTF-8.
    InvalidUtf8,
}

/// What a regeneration did.
#[derive(Clone, Debug)]
pub struct RegenReport {
    /// The body changed, so the bar should refresh.
    pub refresh: bool,
    /// The warnings to log.
    pub warnings: Vec<RegenWarning>,
}

/// The output text that a command outcome gives: its standard output where
/// it exited with valid UTF-8, else nothing.
pub open spec fn outcome_text(o: CommandOutcome) -> Seq<char> {
    match o {
        CommandOutcome::Exited { success, stdout } => if valid_utf8(stdout@) {
            decode_utf8(stdout@)
        } else {
            Seq::empty()
        },
        _ => Seq::empty(),
    }
}

/// The warnings that a command outcome gives.
pub open spec fn outcome_warnings(o: CommandOutcome) -> Seq<RegenWarning> {
    match o {
        CommandOutcome::SpawnFailed => seq![RegenWarning::SpawnFailed],
        CommandOutcome::WaitFailed => seq![RegenWarning::WaitFailed],
        CommandOutcome::Exited { success, stdout } => {
            let a = if success {
                Seq::empty()
            } else {
                seq![RegenWarning::ExitFailure]
            };
            if valid_utf8(stdout@) {
                a
            } else {
                a.push(RegenWarning::InvalidUtf8)
            }
        },
        _ => Seq::empty(),
    }
}

/// Relies on `String::from_utf8`: it succeeds exactly on valid UTF-8, with
/// the characters that the bytes encode.
#[verifier::external_body]
fn utf8_text(bytes: Vec<u8>) -> (r: Option<String>)
    ensures
        r is Some <==> valid_utf8(bytes@),
        r matches Some(s) ==> s@ == decode_utf8(bytes@),
{
    String::from_utf8(bytes).ok()
}

/// The logic state of one block: its configuration, its body, and the state
/// of its task.
#[derive(Debug)]
pub struct Block {
    body: Body,
    global_body: Body,
    toml: TomlBlock,
    id: usize,
    queue_capacity: usize,
    state: WorkerState,
    queued: Vec<RegenBody>,
}

/// The model of a [`Block`].
pub struct BlockView {
    pub body: BodyView,
    pub global_body: BodyView,
    pub toml: TomlBlock,
    pub id: nat,
    pub queue_capacity: nat,
    pub state: WorkerState,
    pub queued: Seq<RegenBody>,
}

impl View for Block {
    type V = BlockView;

    closed spec fn view(&self) -> BlockView {
        BlockView {
            body: self.body@,
            global_body: self.global_body@,
            toml: self.toml,
            id: self.id as nat,
            queue_capacity: self.queue_capacity as nat,
            state: self.state,
            queued: self.queued@,
        }
    }
}

impl Block {
    /// Well-formed: requests queue only while a regeneration is under way.
    pub open spec fn wf(&self) -> bool {
        &&& self@.queued.len() > 0 ==> self@.state == WorkerState::Regenerating
        &&& self@.queue_capacity >= 2
    }

    /// A new block with a blank body and an idle task. `num_blocks` is the
    /// number of blocks of the bar, which sizes the request queue.
    pub fn new(toml: TomlBlock, global_body: Body, id: usize, num_blocks: usize) -> (r: Block)
        ensures
            r.wf(),
            r@.body == crate::protocol::blank_body(),
            r@.global_body == global_body@,
            r@.toml == toml,
            r@.id == id,
            r@.queue_capacity == queue_capacity_for(num_blocks as int),
            r@.state == WorkerState::Idle,
            r@.queued.len() == 0,
    {
        let queue_capacity = if num_blocks < 1 {
            2
        } else if num_blocks > usize::MAX / 2 {
            usize::MAX
        } else {
            num_blocks * 2
        };
        Block {
            body: Body::new(),
            global_body,
            toml,
            id,
            queue_capacity,
            state: WorkerState::Idle,
            queued: Vec::new(),
        }
    }

    /// The block's current body.
    pub fn body(&self) -> (r: &Body)
        ensures
            r@ == self@.body,
    {
        &self.body
    }

    /// The block's configuration.
    pub fn toml(&self) -> (r: &TomlBlock)
        ensures
            *r == self@.toml,
    {
        &self.toml
    }

    /// The block's position in the bar.
    pub fn id(&self) -> (r: usize)
        ensures
            r == self@.id,
    {
        self.id
    }

    /// The capacity of the block's request queue.
    pub fn queue_capacity(&self) -> (r: usize)
        ensures
            r == self@.queue_capacity,
    {
        self.queue_capacity
    }

    /// The state of the block's task.
    pub fn state(&self) -> (r: WorkerState)
        ensures
            r == self@.state,
    {
        self.state
    }

    /// Whether a regeneration for `msg` first publishes the body merged from
    /// empty output, so that prefix and postfix show before the command's
    /// first run.
    pub fn publishes_before_command(&self, msg: RegenBody) -> (r: bool)
        ensures
            r == (msg.init && self@.toml.command is Some),
    {
        msg.init && self.toml.command.is_some()
    }

    /// Merges command output into the body, and tells whether the body
    /// changed, in which case the bar should refresh.
    pub fn update_body(&mut self, output: &str) -> (changed: bool)
        requires
            old(self).wf(),
            old(self)@.state != WorkerState::Cancelled,
        ensures
            final(self).wf(),
            final(self)@.body == block_body_for(old(self)@.toml, old(self)@.global_body, output@),
            changed == (final(self)@.body != old(self)@.body),
            final(self)@ == (BlockView { body: final(self)@.body, ..old(self)@ }),
    {
        let new_body = merge_output(output, &self.toml, &self.global_body);
        let same = new_body.same_as(&self.body);
        self.body = new_body;
        !same
    }

    /// Ends a regeneration with the outcome of the command. A block that was
    /// cancelled, or whose command was cancelled, keeps its body; otherwise
    /// the output (empty where there is none) is merged into the body.
    pub fn complete_regeneration(&mut self, outcome: CommandOutcome) -> (r: RegenReport)
        requires
            old(self).wf(),
        ensures
            final(self).wf(),
            (old(self)@.state == WorkerState::Cancelled || outcome is Cancelled) ==> {
                &&& final(self)@ == old(self)@
                &&& !r.refresh
                &&& r.warnings@.len() == 0
            },
            !(old(self)@.state == WorkerState::Cancelled || outcome is Cancelled) ==> {
                &&& final(self)@ == (BlockView {
                    body: block_body_for(
                        old(self)@.toml,
                        old(self)@.global_body,
                        outcome_text(outcome),
                    ),
                    ..old(self)@
                })
                &&& r.refresh == (final(self)@.body != old(self)@.body)
                &&& r.warnings@ == outcome_warnings(outcome)
            },
    {
        if matches!(self.state, WorkerState::Cancelled) {
            return RegenReport { refresh: false, warnings: Vec::new() };
        }
        let mut warnings: Vec<RegenWarning> = Vec::new();
        let text = match outcome {
            CommandOutcome::NotConfigured => String::new(),
            CommandOutcome::Cancelled => {
                return RegenReport { refresh: false, warnings };
            },
            CommandOutcome::SpawnFailed => {
                warnings.push(RegenWarning::SpawnFailed);
                String::new()
            },
            CommandOutcome::WaitFailed => {
                warnings.push(RegenWarning::WaitFailed);
                String::new()
            },
            CommandOutcome::Exited { success, stdout } => {
                if !success {
                    warnings.push(RegenWarning::ExitFailure);
                }
                match utf8_text(stdout) {
                    Some(t) => t,
                    None => {
                        warnings.push(RegenWarning::InvalidUtf8);
                        String::new()
                    },
                }
            },
        };
        proof {
            assert(warnings@ =~= outcome_warnings(outcome));
        }
        let refresh = self.update_body(text.as_str());
        RegenReport { refresh, warnings }
    }

    /// Takes one event of the block's listen loop and says what to do next
    /// (see [`worker_step`]).
    pub fn listen(&mut self, e: WorkerEvent) -> (r: WorkerAction)
        requires
            old(self).wf(),
        ensures
            final(self).wf(),
            (final(self)@.state, final(self)@.queued, r) == worker_step(
                old(self)@.state,
                old(self)@.queued,
                e,
            ),
            final(self)@ == (BlockView {
                state: final(self)@.state,
                queued: final(self)@.queued,
                ..old(self)@
            }),
    {
        match self.state {
            WorkerState::Cancelled => WorkerAction::Ignore,
            WorkerState::Idle => match e {
                WorkerEvent::Cancel => {
                    self.state = WorkerState::Cancelled;
                    self.queued = Vec::new();
                    WorkerAction::StopTriggers
                },
                WorkerEvent::Request(m) => {
                    self.state = WorkerState::Regenerating;
                    WorkerAction::Regenerate(m)
                },
                WorkerEvent::Completed => WorkerAction::Ignore,
            },
            WorkerState::Regenerating => match e {
                WorkerEvent::Cancel => {
                    self.state = WorkerState::Cancelled;
                    self.queued = Vec::new();
                    WorkerAction::StopTriggers
                },
                WorkerEvent::Request(m) => {
                    self.queued.push(m);
                    WorkerAction::Wait
                },
                WorkerEvent::Completed => {
                    if self.queued.len() == 0 {
                        self.state = WorkerState::Idle;
                        WorkerAction::Wait
                    } else {
                        let next = self.queued.remove(0);
                        WorkerAction::Regenerate(next)
                    }
                },
            },
        }
    }
}

/// The shortest interval at which a block refreshes, in nanoseconds.
pub const MIN_INTERVAL_NANOS: u32 = 1_000_000;

/// Why a configured interval is not used.
#[derive(Clone, Copy, Debug, PartialEq, Eq, Structural)]
pub enum IntervalProblem {
    /// The interval is zero.
    Zero,
    /// The interval is negative, not finite, or too large.
    Unrepresentable,
}

/// What a block's interval trigger does.
#[derive(Clone, Copy, Debug, PartialEq, Eq, Structural)]
pub enum IntervalPlan {
    /// No interval is configured: the trigger stays idle, silently.
    Disabled,
    /// The configured interval cannot be used: the trigger stays idle, and
    /// the problem is logged.
    Rejected(IntervalProblem),
    /// Tick at this period; `clamped` tells that the configured interval was
    /// raised to the minimum, which is worth a warning.
    Every { secs: u64, nanos: u32, clamped: bool },
}

/// The plan for a block's interval trigger.
pub open spec fn interval_plan_spec(setting: Option<IntervalSetting>) -> IntervalPlan {
    match setting {
        None => IntervalPlan::Disabled,
        Some(IntervalSetting::Unrepresentable) => IntervalPlan::Rejected(
            IntervalProblem::Unrepresentable,
        ),
        Some(IntervalSetting::Duration { secs, nanos }) => if secs == 0 && nanos == 0 {
            IntervalPlan::Rejected(IntervalProblem::Zero)
        } else if secs == 0 && nanos < MIN_INTERVAL_NANOS {
            IntervalPlan::Every { secs: 0, nanos: MIN_INTERVAL_NANOS, clamped: true }
        } else {
            IntervalPlan::Every { secs, nanos, clamped: false }
        },
    }
}

/// Decides what a block's interval trigger does with its configured
/// interval: none disables it, zero or an unusable value is rejected, and
/// one under a millisecond is clamped to a millisecond.
pub fn interval_plan(setting: Option<IntervalSetting>) -> (r: IntervalPlan)
    ensures
        r == interval_plan_spec(setting),
{
    match setting {
        None => IntervalPlan::Disabled,
        Some(IntervalSetting::Unrepresentable) => IntervalPlan::Rejected(
            IntervalProblem::Unrepresentable,
        ),
        Some(IntervalSetting::Duration { secs, nanos }) => {
            if secs == 0 && nanos == 0 {
                IntervalPlan::Rejected(IntervalProblem::Zero)
            } else if secs == 0 && nanos < MIN_INTERVAL_NANOS {
                IntervalPlan::Every { secs: 0, nanos: MIN_INTERVAL_NANOS, clamped: true }
            } else {
                IntervalPlan::Every { secs, nanos, clamped: false }
            }
        },
    }
}

} // verus!
