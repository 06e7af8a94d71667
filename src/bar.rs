//! The bar: it owns the running blocks, decides how to react to its control
//! messages, and suppresses output frames that would repeat the last one.
use vstd::prelude::*;
use vstd::std_specs::hash::DefaultHasherAdditionalSpecFns;
use vstd::seq_lib::lemma_concat_associative;
use vstd::utf8::encode_utf8;

use core::hash::Hasher;
use std::collections::hash_map::DefaultHasher;

use crate::block::Block;
use crate::blocks::{op_result, Blocks, BlocksView, SetOp};
use crate::config::{Config, TomlBar};
use crate::protocol::{Align, Body, BodyView, Header, Markup};
use crate::text::opt_text_view;

verus! {

/// A control message to the bar.
#[derive(Clone, Copy, Debug, PartialEq, Eq, Structural)]
pub enum BarMsg {
    /// Reload the configuration.
    Reload,
    /// Stop every block and end.
    ShutDown,
    /// A block changed: send the blocks again.
    RefreshBlocks,
}

/// The hasher input for an optional text field.
pub open spec fn text_writes(o: Option<Seq<char>>) -> Seq<Seq<u8>> {
    match o {
        None => seq![seq![0u8]],
        Some(s) => seq![seq![1u8], encode_utf8(s)],
    }
}

/// The hasher input for an optional `u32` field: a marker, then its
/// little-endian bytes.
pub open spec fn u32_writes(o: Option<u32>) -> Seq<Seq<u8>> {
    match o {
        None => seq![seq![0u8]],
        Some(v) => seq![
            seq![
                1u8,
                (v % 256) as u8,
                ((v / 256) % 256) as u8,
                ((v / 65536) % 256) as u8,
                (v / 16777216) as u8,
            ],
        ],
    }
}

/// The hasher input for an optional `bool` field.
pub open spec fn bool_writes(o: Option<bool>) -> Seq<Seq<u8>> {
    match o {
        None => seq![seq![0u8]],
        Some(b) => seq![seq![1u8, if b { 1u8 } else { 0u8 }]],
    }
}

/// The hasher input for an optional alignment.
pub open spec fn align_writes(o: Option<Align>) -> Seq<Seq<u8>> {
    match o {
        None => seq![seq![0u8]],
        Some(Align::Left) => seq![seq![1u8, 0u8]],
        Some(Align::Right) => seq![seq![1u8, 1u8]],
        Some(Align::Center) => seq![seq![1u8, 2u8]],
    }
}

/// The hasher input for an optional markup kind.
pub open spec fn markup_writes(o: Option<Markup>) -> Seq<Seq<u8>> {
    match o {
        None => seq![seq![0u8]],
        Some(Markup::Pango) => seq![seq![1u8, 0u8]],
        Some(Markup::Plain) => seq![seq![1u8, 1u8]],
    }
}

/// The hasher input for one body: each field in order.
pub open spec fn body_writes(b: BodyView) -> Seq<Seq<u8>> {
    text_writes(b.full_text) + text_writes(b.short_text) + text_writes(b.color) + text_writes(
        b.background,
    ) + text_writes(b.border) + u32_writes(b.border_top) + u32_writes(b.border_bottom)
        + u32_writes(b.border_left) + u32_writes(b.border_right) + text_writes(b.min_width)
        + align_writes(b.align) + text_writes(b.name) + text_writes(b.instance) + bool_writes(
        b.urgent,
    ) + bool_writes(b.separator) + u32_writes(b.separator_block_width) + markup_writes(b.markup)
}

/// The hasher input for a snapshot of bodies, in order.
pub open spec fn snapshot_writes(s: Seq<BodyView>) -> Seq<Seq<u8>>
    decreases s.len(),
{
    if s.len() == 0 {
        Seq::empty()
    } else {
        snapshot_writes(s.drop_last()) + body_writes(s.last())
    }
}

/// The content fingerprint of a snapshot of bodies.
pub open spec fn fingerprint_of(s: Seq<BodyView>) -> u64 {
    DefaultHasher::spec_finish(snapshot_writes(s))
}

/// The views of a sequence of bodies.
pub open spec fn body_views(v: Seq<Body>) -> Seq<BodyView> {
    v.map_values(|b: Body| b@)
}

broadcast use vstd::array::group_array_axioms;

fn write_one(h: &mut DefaultHasher, a: u8)
    ensures
        final(h)@ == old(h)@.push(seq![a]),
{
    let buf = [a];
    proof {
        assert(buf@ =~= seq![a]);
    }
    h.write(&buf);
}

fn write_two(h: &mut DefaultHasher, a: u8, b: u8)
    ensures
        final(h)@ == old(h)@.push(seq![a, b]),
{
    let buf = [a, b];
    proof {
        assert(buf@ =~= seq![a, b]);
    }
    h.write(&buf);
}

fn write_text(h: &mut DefaultHasher, o: &Option<String>)
    ensures
        final(h)@ == old(h)@ + text_writes(opt_text_view(*o)),
{
    match o {
        None => {
            write_one(h, 0);
        },
        Some(s) => {
            write_one(h, 1);
            h.write(s.as_str().as_bytes());
        },
    }
    proof {
        assert(h@ =~= old(h)@ + text_writes(opt_text_view(*o)));
    }
}

fn write_u32(h: &mut DefaultHasher, o: Option<u32>)
    ensures
        final(h)@ == old(h)@ + u32_writes(o),
{
    match o {
        None => {
            write_one(h, 0);
        },
        Some(v) => {
            let buf = [
                1u8,
                (v % 256) as u8,
                ((v / 256) % 256) as u8,
                ((v / 65536) % 256) as u8,
                (v / 16777216) as u8,
            ];
            proof {
                assert(buf@ =~= seq![
                    1u8,
                    (v % 256) as u8,
                    ((v / 256) % 256) as u8,
                    ((v / 65536) % 256) as u8,
                    (v / 16777216) as u8,
                ]);
            }
            h.write(&buf);
        },
    }
    proof {
        assert(h@ =~= old(h)@ + u32_writes(o));
    }
}

fn write_bool(h: &mut DefaultHasher, o: Option<bool>)
    ensures
        final(h)@ == old(h)@ + bool_writes(o),
{
    match o {
        None => {
            write_one(h, 0);
        },
        Some(b) => {
            let flag: u8 = if b {
                1
            } else {
                0
            };
            write_two(h, 1, flag);
        },
    }
    proof {
        assert(h@ =~= old(h)@ + bool_writes(o));
    }
}

fn write_align(h: &mut DefaultHasher, o: Option<Align>)
    ensures
        final(h)@ == old(h)@ + align_writes(o),
{
    match o {
        None => write_one(h, 0),
        Some(Align::Left) => write_two(h, 1, 0),
        Some(Align::Right) => write_two(h, 1, 1),
        Some(Align::Center) => write_two(h, 1, 2),
    }
    proof {
        assert(h@ =~= old(h)@ + align_writes(o));
    }
}

fn write_markup(h: &mut DefaultHasher, o: Option<Markup>)
    ensures
        final(h)@ == old(h)@ + markup_writes(o),
{
    match o {
        None => write_one(h, 0),
        Some(Markup::Pango) => write_two(h, 1, 0),
        Some(Markup::Plain) => write_two(h, 1, 1),
    }
    proof {
        assert(h@ =~= old(h)@ + markup_writes(o));
    }
}

fn write_body(h: &mut DefaultHasher, b: &Body)
    ensures
        final(h)@ == old(h)@ + body_writes(b@),
{
    let ghost start = h@;
    write_text(h, &b.full_text);
    let ghost mut acc = text_writes(opt_text_view(b.full_text));
    write_text(h, &b.short_text);
    proof {
        lemma_concat_associative(start, acc, text_writes(opt_text_view(b.short_text)));
        acc = acc + text_writes(opt_text_view(b.short_text));
    }
    write_text(h, &b.color);
    proof {
        lemma_concat_associative(start, acc, text_writes(opt_text_view(b.color)));
        acc = acc + text_writes(opt_text_view(b.color));
    }
    write_text(h, &b.background);
    proof {
        lemma_concat_associative(start, acc, text_writes(opt_text_view(b.background)));
        acc = acc + text_writes(opt_text_view(b.background));
    }
    write_text(h, &b.border);
    proof {
        lemma_concat_associative(start, acc, text_writes(opt_text_view(b.border)));
        acc = acc + text_writes(opt_text_view(b.border));
    }
    write_u32(h, b.border_top);
    proof {
        lemma_concat_associative(start, acc, u32_writes(b.border_top));
        acc = acc + u32_writes(b.border_top);
    }
    write_u32(h, b.border_bottom);
    proof {
        lemma_concat_associative(start, acc, u32_writes(b.border_bottom));
        acc = acc + u32_writes(b.border_bottom);
    }
    write_u32(h, b.border_left);
    proof {
        lemma_concat_associative(start, acc, u32_writes(b.border_left));
        acc = acc + u32_writes(b.border_left);
    }
    write_u32(h, b.border_right);
    proof {
        lemma_concat_associative(start, acc, u32_writes(b.border_right));
        acc = acc + u32_writes(b.border_right);
    }
    write_text(h, &b.min_width);
    proof {
        lemma_concat_associative(start, acc, text_writes(opt_text_view(b.min_width)));
        acc = acc + text_writes(opt_text_view(b.min_width));
    }
    write_align(h, b.align);
    proof {
        lemma_concat_associative(start, acc, align_writes(b.align));
        acc = acc + align_writes(b.align);
    }
    write_text(h, &b.name);
    proof {
        lemma_concat_associative(start, acc, text_writes(opt_text_view(b.name)));
        acc = acc + text_writes(opt_text_view(b.name));
    }
    write_text(h, &b.instance);
    proof {
        lemma_concat_associative(start, acc, text_writes(opt_text_view(b.instance)));
        acc = acc + text_writes(opt_text_view(b.instance));
    }
    write_bool(h, b.urgent);
    proof {
        lemma_concat_associative(start, acc, bool_writes(b.urgent));
        acc = acc + bool_writes(b.urgent);
    }
    write_bool(h, b.separator);
    proof {
        lemma_concat_associative(start, acc, bool_writes(b.separator));
        acc = acc + bool_writes(b.separator);
    }
    write_u32(h, b.separator_block_width);
    proof {
        lemma_concat_associative(start, acc, u32_writes(b.separator_block_width));
        acc = acc + u32_writes(b.separator_block_width);
    }
    write_markup(h, b.markup);
    proof {
        lemma_concat_associative(start, acc, markup_writes(b.markup));
        acc = acc + markup_writes(b.markup);
    }
    proof {
        assert(acc == body_writes(b@));
    }
}

/// Serialized blocks joined by `",\n"`.
pub open spec fn joined_blocks(parts: Seq<Seq<char>>) -> Seq<char>
    decreases parts.len(),
{
    if parts.len() == 0 {
        Seq::empty()
    } else if parts.len() == 1 {
        parts[0]
    } else {
        joined_blocks(parts.drop_last()) + ",\n"@ + parts.last()
    }
}

/// One frame of the status line: the serialized blocks, in order, as an
/// element of the endless JSON array that follows the header.
pub open spec fn blocks_frame_spec(parts: Seq<Seq<char>>) -> Seq<char> {
    "["@ + joined_blocks(parts) + "],\n"@
}

/// Frames serialized blocks for the output (see [`blocks_frame_spec`]).
pub fn blocks_frame(parts: &Vec<String>) -> (r: String)
    ensures
        r@ == blocks_frame_spec(crate::text::text_views(parts@)),
{
    let ghost views = crate::text::text_views(parts@);
    let mut r = String::new();
    r.push_str("[");
    let n = parts.len();
    let mut i: usize = 0;
    while i < n
        invariant
            n == parts@.len(),
            views == crate::text::text_views(parts@),
            i <= n,
            r@ == "["@ + joined_blocks(views.take(i as int)),
        decreases n - i,
    {
        let ghost before = r@;
        if i > 0 {
            r.push_str(",\n");
        }
        r.push_str(parts[i].as_str());
        proof {
            let t = views.take(i + 1);
            assert(t.drop_last() =~= views.take(i as int));
            assert(t.last() == parts@[i as int]@);
            if i == 0 {
                assert(views.take(0) =~= Seq::<Seq<char>>::empty());
                assert(r@ =~= "["@ + joined_blocks(t));
            } else {
                assert(r@ =~= "["@ + joined_blocks(t));
            }
        }
        i += 1;
    }
    proof {
        assert(views.take(n as int) =~= views);
    }
    r.push_str("],\n");
    r
}

/// The line that follows the header and opens the endless array of frames.
pub fn header_trailer() -> (r: &'static str)
    ensures
        r@ == "\n["@,
{
    "\n["
}

/// A content fingerprint.
#[derive(Clone, Copy, Debug, PartialEq, Eq, Structural)]
pub struct Hash(pub u64);

impl Hash {
    /// The fingerprint of a snapshot of bodies, in order.
    pub fn new(bodies: &Vec<Body>) -> (r: Hash)
        ensures
            r.0 == fingerprint_of(body_views(bodies@)),
    {
        let mut h = DefaultHasher::new();
        let n = bodies.len();
        let mut i: usize = 0;
        proof {
            assert(body_views(bodies@).take(0) =~= Seq::<BodyView>::empty());
        }
        while i < n
            invariant
                n == bodies@.len(),
                i <= n,
                h@ == snapshot_writes(body_views(bodies@).take(i as int)),
            decreases n - i,
        {
            write_body(&mut h, &bodies[i]);
            proof {
                let s = body_views(bodies@).take(i + 1);
                assert(s.drop_last() =~= body_views(bodies@).take(i as int));
                assert(s.last() == bodies@[i as int]@);
            }
            i += 1;
        }
        proof {
            assert(body_views(bodies@).take(n as int) =~= body_views(bodies@));
        }
        Hash(h.finish())
    }
}

/// What the bar does with its last fingerprint on a refresh: write the
/// snapshot, and record its fingerprint, unless it has the fingerprint of
/// the last frame written.
pub open spec fn refresh_decision(latest: Option<u64>, snapshot: Seq<BodyView>) -> (bool, Option<u64>) {
    let h = fingerprint_of(snapshot);
    if latest == Some(h) {
        (false, latest)
    } else {
        (true, Some(h))
    }
}

/// A refresh whose snapshot is the one of the frame just written writes
/// nothing: suppression of repeated frames is idempotent.
pub proof fn lemma_repeated_snapshot_not_rewritten(
    latest: Option<u64>,
    first: Seq<BodyView>,
    second: Seq<BodyView>,
)
    requires
        first == second,
    ensures
        !refresh_decision(refresh_decision(latest, first).1, second).0,
        refresh_decision(refresh_decision(latest, first).1, second).1 == refresh_decision(
            latest,
            first,
        ).1,
{
}

/// The phases of the bar's control loop.
#[derive(Clone, Copy, Debug, PartialEq, Eq, Structural)]
pub enum BarPhase {
    /// Handling messages.
    Listening,
    /// Between stopping the old blocks and starting the new ones of a
    /// reload.
    Replacing,
    /// Shutting down: stopping every block and the signal listeners.
    ShuttingDown,
    /// Done: the loop has ended.
    Stopped,
}

/// What the control loop does for a message.
#[derive(Clone, Copy, Debug, PartialEq, Eq, Structural)]
pub enum BarAction {
    /// Load the configuration again and, if that works, replace the blocks.
    Reload,
    /// Stop every block, then the signal listeners, then end the loop.
    ShutDown,
    /// Take a snapshot of the bodies and refresh.
    RefreshBlocks,
    /// Nothing: the bar is shutting down.
    Ignore,
}

/// The control loop's reaction to a message, by phase.
pub open spec fn bar_step(phase: BarPhase, msg: BarMsg) -> (BarPhase, BarAction) {
    match phase {
        BarPhase::Listening => match msg {
            BarMsg::Reload => (BarPhase::Listening, BarAction::Reload),
            BarMsg::ShutDown => (BarPhase::ShuttingDown, BarAction::ShutDown),
            BarMsg::RefreshBlocks => (BarPhase::Listening, BarAction::RefreshBlocks),
        },
        _ => (phase, BarAction::Ignore),
    }
}

/// The bar: its header, the path of its configuration, its blocks, and what
/// it remembers of the frames it wrote.
pub struct Bar<H> {
    header: Header,
    config_path: String,
    blocks: Blocks<H>,
    latest_blocks_hash: Option<Hash>,
    first_header: Option<Header>,
    phase: BarPhase,
    last_emitted: Ghost<Option<Seq<BodyView>>>,
}

/// The model of a [`Bar`].
pub struct BarView {
    pub header: Header,
    pub config_path: Seq<char>,
    pub blocks: BlocksView,
    pub latest_blocks_hash: Option<u64>,
    pub first_header: Option<Header>,
    pub phase: BarPhase,
    /// The snapshot of the last frame written, if any.
    pub last_emitted: Option<Seq<BodyView>>,
}

impl<H> View for Bar<H> {
    type V = BarView;

    closed spec fn view(&self) -> BarView {
        BarView {
            header: self.header,
            config_path: self.config_path@,
            blocks: self.blocks@,
            latest_blocks_hash: match self.latest_blocks_hash {
                Some(h) => Some(h.0),
                None => None,
            },
            first_header: self.first_header,
            phase: self.phase,
            last_emitted: self.last_emitted@,
        }
    }
}

/// The invariant of the bar: its set of blocks is well-formed, old blocks
/// are only stopping while a reload or a shutdown is under way, and the last
/// fingerprint is the one of the last frame written.
pub open spec fn bar_wf(v: BarView) -> bool {
    &&& crate::blocks::blocks_wf(v.blocks)
    &&& (v.blocks.stopping.len() > 0 ==> v.phase == BarPhase::Replacing || v.phase
        == BarPhase::ShuttingDown)
    &&& (v.phase == BarPhase::Replacing ==> v.blocks.ids.len() == 0)
    &&& match v.last_emitted {
        Some(s) => v.latest_blocks_hash == Some(fingerprint_of(s)),
        None => v.latest_blocks_hash is None,
    }
}

impl<H> Bar<H> {
    /// Well-formed (see [`bar_wf`]).
    pub open spec fn wf(&self) -> bool {
        bar_wf(self@)
    }

    /// The handles of the bar's active blocks, in bar order.
    pub closed spec fn handles(&self) -> Seq<H> {
        self.blocks.handles()
    }

    /// A bar for a loaded configuration: one block per configured block,
    /// each started by `spawn`, which returns the handle of its task.
    pub fn new<F: Fn(Block) -> H>(config: Config, spawn: F) -> (r: Bar<H>)
        requires
            config.toml.blocks@.len() <= usize::MAX,
            forall|b: Block| #[trigger] spawn.requires((b,)),
        ensures
            r.wf(),
            r@.header == config.toml.header,
            r@.config_path == config.path@,
            r@.blocks == op_result(
                BlocksView { ids: Seq::empty(), stopping: Seq::empty() },
                SetOp::AddAll(config.toml.blocks@.len()),
            ),
            r@.latest_blocks_hash is None,
            r@.first_header is None,
            r@.phase == BarPhase::Listening,
            forall|i: int|
                0 <= i < config.toml.blocks@.len() ==> #[trigger] crate::blocks::started_block(
                    spawn,
                    i,
                    config.toml.blocks@[i],
                    config.toml.body@,
                    r.handles()[i],
                ),
    {
        let Config { path, command_dir: _, toml } = config;
        let TomlBar { command_dir: _, smolbar_version: _, header, body, blocks: tomls } = toml;
        let mut blocks: Blocks<H> = Blocks::new();
        proof {
            assert(blocks@.ids =~= Seq::<usize>::empty());
            assert(blocks@.stopping =~= Seq::<usize>::empty());
        }
        blocks.add_all(tomls, &body, spawn);
        Bar {
            header,
            config_path: path,
            blocks,
            latest_blocks_hash: None,
            first_header: None,
            phase: BarPhase::Listening,
            last_emitted: Ghost(None),
        }
    }

    /// The configured header.
    pub fn header(&self) -> (r: Header)
        ensures
            r == self@.header,
    {
        self.header
    }

    /// The path of the configuration file.
    pub fn config_path(&self) -> (r: &String)
        ensures
            r@ == self@.config_path,
    {
        &self.config_path
    }

    /// The active blocks.
    pub fn blocks(&self) -> (r: &Blocks<H>)
        ensures
            r@ == self@.blocks,
            r.handles() == self.handles(),
    {
        &self.blocks
    }

    /// The number of active blocks.
    pub fn len(&self) -> (r: usize)
        ensures
            r == self@.blocks.ids.len(),
    {
        self.blocks.len()
    }

    /// The phase of the control loop.
    pub fn phase(&self) -> (r: BarPhase)
        ensures
            r == self@.phase,
    {
        self.phase
    }

    /// Whether a signal may still be turned into a message to the bar:
    /// not once it has begun to shut down, so that nothing is sent into a
    /// closed queue.
    pub fn accepts_signals(&self) -> (r: bool)
        ensures
            r == (self@.phase == BarPhase::Listening || self@.phase == BarPhase::Replacing),
    {
        match self.phase {
            BarPhase::Listening | BarPhase::Replacing => true,
            _ => false,
        }
    }

    /// The header to send, recorded as sent: the first header sent is the
    /// one that counts until a restart.
    pub fn write_header(&mut self) -> (r: Header)
        requires
            old(self).wf(),
        ensures
            r == old(self)@.header,
            final(self).wf(),
            final(self)@ == (BarView {
                first_header: match old(self)@.first_header {
                    Some(h) => Some(h),
                    None => Some(old(self)@.header),
                },
                ..old(self)@
            }),
    {
        if self.first_header.is_none() {
            self.first_header = Some(self.header);
        }
        self.header
    }

    /// Whether a reloaded header differs from the one already written, so
    /// that its changes do not take effect until a restart.
    pub fn header_change_ignored(&self, new_header: &Header) -> (r: bool)
        ensures
            r == (match self@.first_header {
                Some(h) => h != *new_header,
                None => false,
            }),
    {
        match self.first_header {
            Some(h) => h != *new_header,
            None => false,
        }
    }

    /// Takes one message of the control loop and says what to do with it
    /// (see [`bar_step`]).
    pub fn listen(&mut self, msg: BarMsg) -> (r: BarAction)
        requires
            old(self).wf(),
        ensures
            final(self).wf(),
            (final(self)@.phase, r) == bar_step(old(self)@.phase, msg),
            final(self)@ == (BarView { phase: final(self)@.phase, ..old(self)@ }),
    {
        match self.phase {
            BarPhase::Listening => match msg {
                BarMsg::Reload => BarAction::Reload,
                BarMsg::ShutDown => {
                    self.phase = BarPhase::ShuttingDown;
                    BarAction::ShutDown
                },
                BarMsg::RefreshBlocks => BarAction::RefreshBlocks,
            },
            _ => BarAction::Ignore,
        }
    }

    /// First half of a reload whose configuration loaded: cancels every
    /// block and hands back their handles, for the caller to cancel their
    /// tokens and await their tasks before [`Bar::reload`].
    pub fn begin_replace(&mut self) -> (r: Vec<H>)
        requires
            old(self).wf(),
            old(self)@.phase == BarPhase::Listening,
        ensures
            final(self).wf(),
            final(self)@ == (BarView {
                blocks: op_result(old(self)@.blocks, SetOp::RemoveAll),
                phase: BarPhase::Replacing,
                ..old(self)@
            }),
            r@ == old(self).handles(),
    {
        let r = self.blocks.remove_all();
        self.phase = BarPhase::Replacing;
        r
    }

    /// Second half of a reload: once every old block has stopped, starts
    /// the blocks of the new configuration. The header stays as it is.
    pub fn reload<F: Fn(Block) -> H>(&mut self, config: Config, spawn: F)
        requires
            old(self).wf(),
            old(self)@.phase == BarPhase::Replacing,
            config.toml.blocks@.len() <= usize::MAX,
            forall|b: Block| #[trigger] spawn.requires((b,)),
        ensures
            final(self).wf(),
            final(self)@ == (BarView {
                config_path: config.path@,
                blocks: op_result(
                    op_result(old(self)@.blocks, SetOp::ConfirmStopped),
                    SetOp::AddAll(config.toml.blocks@.len()),
                ),
                phase: BarPhase::Listening,
                ..old(self)@
            }),
            forall|i: int|
                0 <= i < config.toml.blocks@.len() ==> #[trigger] crate::blocks::started_block(
                    spawn,
                    i,
                    config.toml.blocks@[i],
                    config.toml.body@,
                    final(self).handles()[i],
                ),
    {
        let Config { path, command_dir: _, toml } = config;
        let TomlBar { command_dir: _, smolbar_version: _, header: _, body, blocks: tomls } = toml;
        self.blocks.confirm_stopped();
        self.blocks.add_all(tomls, &body, spawn);
        self.config_path = path;
        self.phase = BarPhase::Listening;
    }

    /// First half of a shutdown, on a message or on a fatal error: cancels
    /// every block and hands back their handles, for the caller to cancel
    /// their tokens and await their tasks, then stop the signal listeners,
    /// before [`Bar::finish_shutdown`].
    pub fn begin_shutdown(&mut self) -> (r: Vec<H>)
        requires
            old(self).wf(),
            old(self)@.phase == BarPhase::Listening || old(self)@.phase == BarPhase::ShuttingDown,
            old(self)@.blocks.stopping.len() == 0,
        ensures
            final(self).wf(),
            final(self)@ == (BarView {
                blocks: op_result(old(self)@.blocks, SetOp::RemoveAll),
                phase: BarPhase::ShuttingDown,
                ..old(self)@
            }),
            r@ == old(self).handles(),
    {
        let r = self.blocks.remove_all();
        self.phase = BarPhase::ShuttingDown;
        r
    }

    /// Second half of a shutdown: every block and listener has stopped, and
    /// the control loop ends.
    pub fn finish_shutdown(&mut self)
        requires
            old(self).wf(),
            old(self)@.phase == BarPhase::ShuttingDown,
        ensures
            final(self).wf(),
            final(self)@ == (BarView {
                blocks: op_result(old(self)@.blocks, SetOp::ConfirmStopped),
                phase: BarPhase::Stopped,
                ..old(self)@
            }),
    {
        self.blocks.confirm_stopped();
        self.phase = BarPhase::Stopped;
    }

    /// Decides whether to write a frame with this snapshot of the bodies,
    /// in bar order: not when its fingerprint is the one of the last frame
    /// written. When it writes, it records the snapshot as the last frame.
    pub fn refresh_blocks(&mut self, snapshot: &Vec<Body>) -> (write: bool)
        requires
            old(self).wf(),
        ensures
            final(self).wf(),
            (write, final(self)@.latest_blocks_hash) == refresh_decision(
                old(self)@.latest_blocks_hash,
                body_views(snapshot@),
            ),
            old(self)@.last_emitted == Some(body_views(snapshot@)) ==> !write,
            write ==> final(self)@.last_emitted == Some(body_views(snapshot@)),
            final(self)@ == (BarView {
                latest_blocks_hash: final(self)@.latest_blocks_hash,
                last_emitted: final(self)@.last_emitted,
                ..old(self)@
            }),
    {
        let new_hash = Hash::new(snapshot);
        match self.latest_blocks_hash {
            Some(old_hash) => {
                if old_hash.0 == new_hash.0 {
                    return false;
                }
            },
            None => {},
        }
        self.latest_blocks_hash = Some(new_hash);
        self.last_emitted = Ghost(Some(body_views(snapshot@)));
        true
    }
}

} // verus!
