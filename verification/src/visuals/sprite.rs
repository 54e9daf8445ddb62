//! Sprites and animations, their timelines of commands, and their text in a script.

use crate::event::{
    field, put_int, put_number, put_word, Additive, Color, Event, Fade, HFlip, Move, MoveX,
    MoveY, Rotate, Scale, ScaleVec, VFlip,
};
use crate::layer::Layer;
use crate::origin::Origin;
use crate::text::decimal;
use crate::utils::{IntervalMap, Number, Vec2};
use vstd::prelude::*;
use vstd::std_specs::convert::IntoSpec;
use vstd::string::StringExecFns;

verus! {

/// What an animation does after its last frame.
#[derive(Clone, Copy, Debug, PartialEq, Eq, Structural)]
pub enum LoopType {
    /// It stops and keeps showing the last frame
    LoopOnce,
    /// It starts again
    LoopForever,
}

/// The two kinds of sprite: a still image, or an animation of several frames.
#[derive(Clone, Copy, Debug, PartialEq, Eq, Structural)]
pub enum SpriteType {
    Sprite,
    Animation { frame_count: u32, frame_delay: u32, loop_type: LoopType },
}

/// The lines of `lines` without repetition: each line once, where it first
/// occurs.
pub open spec fn distinct(lines: Seq<Seq<char>>) -> Seq<Seq<char>>
    decreases lines.len(),
{
    if lines.len() == 0 {
        Seq::empty()
    } else {
        let front = distinct(lines.drop_last());
        if front.contains(lines.last()) {
            front
        } else {
            front.push(lines.last())
        }
    }
}

/// The lines one after the other, each followed by an end of line.
pub open spec fn joined(lines: Seq<Seq<char>>) -> Seq<char>
    decreases lines.len(),
{
    if lines.len() == 0 {
        Seq::empty()
    } else {
        joined(lines.drop_last()) + lines.last() + seq!['\n']
    }
}

/// The lines of the commands that were put on a timeline, in the order in
/// which they were put there. A command stands there with its start and its
/// end.
pub open spec fn lines_of<T: Event>(pushes: Seq<(int, int, T)>) -> Seq<Seq<char>> {
    pushes.map_values(|push: (int, int, T)| push.2.line())
}

/// The text of one kind of command in a script: the line of every command on
/// the timeline, once.
pub open spec fn events_text<T: Event>(pushes: Seq<(int, int, T)>) -> Seq<char> {
    joined(distinct(lines_of(pushes)))
}

/// `distinct` repeats no line, and holds the lines that it was given and no
/// others.
pub proof fn lemma_distinct(lines: Seq<Seq<char>>)
    ensures
        distinct(lines).no_duplicates(),
        forall|line: Seq<char>| distinct(lines).contains(line) <==> lines.contains(line),
    decreases lines.len(),
{
    if lines.len() > 0 {
        let front = lines.drop_last();
        let last = lines.last();
        lemma_distinct(front);
        assert forall|line: Seq<char>| distinct(lines).contains(line) <==> lines.contains(
            line,
        ) by {
            if lines.contains(line) {
                let i = choose|i: int| 0 <= i < lines.len() && lines[i] == line;
                if i < front.len() {
                    assert(front[i] == line);
                }
            }
            if front.contains(line) {
                let i = choose|i: int| 0 <= i < front.len() && front[i] == line;
                assert(lines[i] == line);
            }
            if distinct(front).contains(last) {
            } else {
                let longer = distinct(front).push(last);
                assert(longer[longer.len() - 1] == last);
                if distinct(front).contains(line) {
                    let shorter = distinct(front);
                    let i = choose|i: int| 0 <= i < shorter.len() && shorter[i] == line;
                    assert(longer[i] == line);
                }
                if longer.contains(line) {
                    let i = choose|i: int| 0 <= i < longer.len() && longer[i] == line;
                    if i < distinct(front).len() {
                        assert(distinct(front)[i] == line);
                    }
                }
            }
            assert(lines[lines.len() - 1] == last);
        }
    }
}

/// The texts of some strings.
spec fn texts(lines: Seq<String>) -> Seq<Seq<char>> {
    lines.map_values(|line: String| line@)
}

/// Whether `line` is among `lines`.
fn holds(lines: &Vec<String>, line: &String) -> (found: bool)
    ensures
        found == texts(lines@).contains(line@),
{
    let mut i: usize = 0;
    while i < lines.len()
        invariant
            i <= lines.len(),
            forall|j: int| 0 <= j < i ==> texts(lines@)[j] != line@,
        decreases lines.len() - i,
    {
        if lines[i] == *line {
            assert(texts(lines@)[i as int] == line@);
            return true;
        }
        i = i + 1;
    }
    false
}

/// The lines one after the other, each followed by an end of line.
fn join(lines: &Vec<String>) -> (text: String)
    ensures
        text@ == joined(texts(lines@)),
{
    let mut text = String::new();
    let mut i: usize = 0;
    while i < lines.len()
        invariant
            i <= lines.len(),
            text@ == joined(texts(lines@).take(i as int)),
        decreases lines.len() - i,
    {
        text.append(lines[i].as_str());
        text.append("\n");
        proof {
            reveal_strlit("\n");
            let more = texts(lines@).take(i + 1);
            assert(more.drop_last() =~= texts(lines@).take(i as int));
            assert(text@ =~= joined(more));
        }
        i = i + 1;
    }
    assert(texts(lines@).take(i as int) =~= texts(lines@));
    text
}

/// Writes the commands of one kind: the line of every command that was put on
/// the timeline, once, in the order in which the lines first came.
///
/// Commands are told apart by their lines: of two commands with the same line
/// the second is left out, whatever their spans.
pub fn events_to_str<T: Event>(events: &IntervalMap<T>) -> (text: String)
    ensures
        text@ == events_text(events@),
{
    let mut kept: Vec<String> = Vec::new();
    let count = events.count();
    let ghost lines = lines_of(events@);
    let mut i: usize = 0;
    while i < count
        invariant
            i <= count == events@.len(),
            lines == lines_of(events@),
            texts(kept@) == distinct(lines.take(i as int)),
        decreases count - i,
    {
        let ghost old_kept = texts(kept@);
        let line = events.value_of(i).to_line();
        proof {
            let longer = lines.take(i + 1);
            assert(longer.drop_last() =~= lines.take(i as int));
            assert(longer.last() == line@);
        }
        if !holds(&kept, &line) {
            kept.push(line);
            assert(texts(kept@) =~= old_kept.push(line@));
        }
        i = i + 1;
    }
    assert(lines.take(i as int) =~= lines);
    join(&kept)
}

/// The timelines of a sprite as contracts see them: for each kind the
/// commands in the order in which they were added, each with its start and
/// its end.
pub struct Timelines {
    pub move_: Seq<(int, int, Move)>,
    pub movex_: Seq<(int, int, MoveX)>,
    pub movey_: Seq<(int, int, MoveY)>,
    pub fade_: Seq<(int, int, Fade)>,
    pub rotate_: Seq<(int, int, Rotate)>,
    pub scale_: Seq<(int, int, Scale)>,
    pub scalevec_: Seq<(int, int, ScaleVec)>,
    pub color_: Seq<(int, int, Color)>,
    pub hflip_: Seq<(int, int, HFlip)>,
    pub vflip_: Seq<(int, int, VFlip)>,
    pub additive_: Seq<(int, int, Additive)>,
}

impl Timelines {
    /// Timelines without a command.
    pub open spec fn empty() -> Timelines {
        Timelines {
            move_: Seq::empty(),
            movex_: Seq::empty(),
            movey_: Seq::empty(),
            fade_: Seq::empty(),
            rotate_: Seq::empty(),
            scale_: Seq::empty(),
            scalevec_: Seq::empty(),
            color_: Seq::empty(),
            hflip_: Seq::empty(),
            vflip_: Seq::empty(),
            additive_: Seq::empty(),
        }
    }

    /// The text of all commands: kind after kind, in the order of the script
    /// format.
    pub open spec fn text(self) -> Seq<char> {
        events_text(self.move_) + events_text(self.movex_) + events_text(self.movey_)
            + events_text(self.fade_) + events_text(self.rotate_) + events_text(self.scale_)
            + events_text(self.scalevec_) + events_text(self.color_) + events_text(self.hflip_)
            + events_text(self.vflip_) + events_text(self.additive_)
    }
}

/// The commands of a sprite: one map for each kind.
pub struct EventCollection {
    move_: IntervalMap<Move>,
    movex_: IntervalMap<MoveX>,
    movey_: IntervalMap<MoveY>,
    fade_: IntervalMap<Fade>,
    rotate_: IntervalMap<Rotate>,
    scale_: IntervalMap<Scale>,
    scalevec_: IntervalMap<ScaleVec>,
    color_: IntervalMap<Color>,
    hflip_: IntervalMap<HFlip>,
    vflip_: IntervalMap<VFlip>,
    additive_: IntervalMap<Additive>,
}

impl View for EventCollection {
    type V = Timelines;

    closed spec fn view(&self) -> Timelines {
        Timelines {
            move_: self.move_@,
            movex_: self.movex_@,
            movey_: self.movey_@,
            fade_: self.fade_@,
            rotate_: self.rotate_@,
            scale_: self.scale_@,
            scalevec_: self.scalevec_@,
            color_: self.color_@,
            hflip_: self.hflip_@,
            vflip_: self.vflip_@,
            additive_: self.additive_@,
        }
    }
}

impl EventCollection {
    /// A collection without a command.
    pub fn new() -> (events: Self)
        ensures
            events@ == Timelines::empty(),
    {
        EventCollection {
            move_: IntervalMap::new(),
            movex_: IntervalMap::new(),
            movey_: IntervalMap::new(),
            fade_: IntervalMap::new(),
            rotate_: IntervalMap::new(),
            scale_: IntervalMap::new(),
            scalevec_: IntervalMap::new(),
            color_: IntervalMap::new(),
            hflip_: IntervalMap::new(),
            vflip_: IntervalMap::new(),
            additive_: IntervalMap::new(),
        }
    }

    /// Writes all commands, kind after kind.
    pub fn to_str(&self) -> (text: String)
        ensures
            text@ == self@.text(),
    {
        let mut text = events_to_str(&self.move_);
        text.append(events_to_str(&self.movex_).as_str());
        text.append(events_to_str(&self.movey_).as_str());
        text.append(events_to_str(&self.fade_).as_str());
        text.append(events_to_str(&self.rotate_).as_str());
        text.append(events_to_str(&self.scale_).as_str());
        text.append(events_to_str(&self.scalevec_).as_str());
        text.append(events_to_str(&self.color_).as_str());
        text.append(events_to_str(&self.hflip_).as_str());
        text.append(events_to_str(&self.vflip_).as_str());
        text.append(events_to_str(&self.additive_).as_str());
        text
    }
}

/// The earlier of a time and the earliest known so far.
pub open spec fn earliest(known: Option<i32>, time: i32) -> Option<i32> {
    match known {
        Some(other) => if time < other {
            Some(time)
        } else {
            Some(other)
        },
        None => Some(time),
    }
}

/// The later of a time and the latest known so far.
pub open spec fn latest(known: Option<i32>, time: i32) -> Option<i32> {
    match known {
        Some(other) => if other < time {
            Some(time)
        } else {
            Some(other)
        },
        None => Some(time),
    }
}

/// A timeline after `event` was put on it at `depth`: the command, moved to
/// that depth, stands behind the others with its start and its end.
pub open spec fn scheduled<T: Event>(pushes: Seq<(int, int, T)>, event: T, depth: usize) -> Seq<
    (int, int, T),
> {
    pushes.push((event.start_time() as int, event.end_time() as int, event.with_depth(depth)))
}

/// Puts `event` on a timeline at `depth`, over the keys from its start up to,
/// and without, its end, and widens the span from `start_time` to `end_time`
/// so that it holds the command's start and end.
pub fn add_event<T: Event>(
    events: &mut IntervalMap<T>,
    start_time: &mut Option<i32>,
    end_time: &mut Option<i32>,
    depth: usize,
    event: T,
)
    ensures
        final(events)@ == scheduled(old(events)@, event, depth),
        *final(start_time) == earliest(*old(start_time), event.start_time()),
        *final(end_time) == latest(*old(end_time), event.end_time()),
{
    let mut event = event;
    let event_start = event.get_start_time();
    let event_end = event.get_end_time();
    match *start_time {
        Some(sprite_start) => {
            if event_start < sprite_start {
                *start_time = Some(event_start);
            }
        },
        None => {
            *start_time = Some(event_start);
        },
    }
    match *end_time {
        Some(sprite_end) => {
            if sprite_end < event_end {
                *end_time = Some(event_end);
            }
        },
        None => {
            *end_time = Some(event_end);
        },
    }
    event.set_depth(depth);
    events.push(event_start..event_end, event);
}

/// The middle of the screen, where a sprite is put unless it is told otherwise.
pub open spec fn middle() -> Vec2 {
    Vec2 { x: Number::Int(320), y: Number::Int(240) }
}

/// A text between double quotes.
pub open spec fn quoted(text: Seq<char>) -> Seq<char> {
    "\""@ + text + "\""@
}

/// A sprite as contracts see it.
pub struct SpriteView {
    pub events: Timelines,
    pub depth: usize,
    pub path: Seq<char>,
    pub pos: Vec2,
    pub layer: Layer,
    pub origin: Origin,
    pub start_time: Option<i32>,
    pub end_time: Option<i32>,
    pub kind: SpriteType,
}

impl SpriteView {
    /// A sprite without a command, on the background layer.
    pub open spec fn fresh(
        origin: Origin,
        path: Seq<char>,
        pos: Vec2,
        kind: SpriteType,
    ) -> SpriteView {
        SpriteView {
            events: Timelines::empty(),
            depth: 0,
            path,
            pos,
            layer: Layer::Background,
            origin,
            start_time: None,
            end_time: None,
            kind,
        }
    }

    /// The same sprite with a span that holds `start` and `end` too.
    pub open spec fn spanning(self, start: i32, end: i32) -> SpriteView {
        SpriteView {
            start_time: earliest(self.start_time, start),
            end_time: latest(self.end_time, end),
            ..self
        }
    }

    /// The sprite after a `Move` command was added.
    pub open spec fn with_move(self, event: Move) -> SpriteView {
        SpriteView {
            events: Timelines {
                move_: scheduled(self.events.move_, event, self.depth),
                ..self.events
            },
            ..self.spanning(event.start_time(), event.end_time())
        }
    }

    /// The sprite after a `MoveX` command was added.
    pub open spec fn with_movex(self, event: MoveX) -> SpriteView {
        SpriteView {
            events: Timelines {
                movex_: scheduled(self.events.movex_, event, self.depth),
                ..self.events
            },
            ..self.spanning(event.start_time(), event.end_time())
        }
    }

    /// The sprite after a `MoveY` command was added.
    pub open spec fn with_movey(self, event: MoveY) -> SpriteView {
        SpriteView {
            events: Timelines {
                movey_: scheduled(self.events.movey_, event, self.depth),
                ..self.events
            },
            ..self.spanning(event.start_time(), event.end_time())
        }
    }

    /// The sprite after a `Fade` command was added.
    pub open spec fn with_fade(self, event: Fade) -> SpriteView {
        SpriteView {
            events: Timelines {
                fade_: scheduled(self.events.fade_, event, self.depth),
                ..self.events
            },
            ..self.spanning(event.start_time(), event.end_time())
        }
    }

    /// The sprite after a `Rotate` command was added.
    pub open spec fn with_rotate(self, event: Rotate) -> SpriteView {
        SpriteView {
            events: Timelines {
                rotate_: scheduled(self.events.rotate_, event, self.depth),
                ..self.events
            },
            ..self.spanning(event.start_time(), event.end_time())
        }
    }

    /// The sprite after a `Scale` command was added.
    pub open spec fn with_scale(self, event: Scale) -> SpriteView {
        SpriteView {
            events: Timelines {
                scale_: scheduled(self.events.scale_, event, self.depth),
                ..self.events
            },
            ..self.spanning(event.start_time(), event.end_time())
        }
    }

    /// The sprite after a `ScaleVec` command was added.
    pub open spec fn with_scalevec(self, event: ScaleVec) -> SpriteView {
        SpriteView {
            events: Timelines {
                scalevec_: scheduled(self.events.scalevec_, event, self.depth),
                ..self.events
            },
            ..self.spanning(event.start_time(), event.end_time())
        }
    }

    /// The sprite after a `Color` command was added.
    pub open spec fn with_color(self, event: Color) -> SpriteView {
        SpriteView {
            events: Timelines {
                color_: scheduled(self.events.color_, event, self.depth),
                ..self.events
            },
            ..self.spanning(event.start_time(), event.end_time())
        }
    }

    /// The sprite after a `HFlip` command was added.
    pub open spec fn with_hflip(self, event: HFlip) -> SpriteView {
        SpriteView {
            events: Timelines {
                hflip_: scheduled(self.events.hflip_, event, self.depth),
                ..self.events
            },
            ..self.spanning(event.start_time(), event.end_time())
        }
    }

    /// The sprite after a `VFlip` command was added.
    pub open spec fn with_vflip(self, event: VFlip) -> SpriteView {
        SpriteView {
            events: Timelines {
                vflip_: scheduled(self.events.vflip_, event, self.depth),
                ..self.events
            },
            ..self.spanning(event.start_time(), event.end_time())
        }
    }

    /// The sprite after an `Additive` command was added.
    pub open spec fn with_additive(self, event: Additive) -> SpriteView {
        SpriteView {
            events: Timelines {
                additive_: scheduled(self.events.additive_, event, self.depth),
                ..self.events
            },
            ..self.spanning(event.start_time(), event.end_time())
        }
    }

    /// The first line of the sprite in a script: the kind, the layer, the
    /// origin, the path between quotes, and the position; for an animation
    /// also the number of frames, the delay between them, and `LoopOnce`
    /// where it does not start again.
    pub open spec fn header(self) -> Seq<char> {
        let shared = field(self.layer.name()) + field(self.origin.name()) + field(
            quoted(self.path),
        ) + field(self.pos.x.text()) + field(self.pos.y.text());
        match self.kind {
            SpriteType::Sprite => "Sprite"@ + shared + "
"@,
            SpriteType::Animation { frame_count, frame_delay, loop_type } => "Animation"@ + shared
                + field(decimal(frame_count as int)) + field(decimal(frame_delay as int)) + (
            match loop_type {
                LoopType::LoopOnce => field("LoopOnce"@),
                LoopType::LoopForever => Seq::empty(),
            }) + "
"@,
        }
    }

    /// The text of the sprite in a script: its first line, then its commands.
    pub open spec fn script(self) -> Seq<char> {
        self.header() + self.events.text()
    }
}

/// A sprite: an image, or an animation, with its commands.
pub struct Sprite {
    events: EventCollection,
    current_depth: usize,
    path: String,
    pos: Vec2,
    layer: Layer,
    origin: Origin,
    start_time: Option<i32>,
    end_time: Option<i32>,
    type_: SpriteType,
}

impl View for Sprite {
    type V = SpriteView;

    closed spec fn view(&self) -> SpriteView {
        SpriteView {
            events: self.events@,
            depth: self.current_depth,
            path: self.path@,
            pos: self.pos,
            layer: self.layer,
            origin: self.origin,
            start_time: self.start_time,
            end_time: self.end_time,
            kind: self.type_,
        }
    }
}

impl Sprite {
    /// A sprite without a command, on the background layer.
    fn build(origin: Origin, path: String, pos: Vec2, kind: SpriteType) -> (sprite: Self)
        ensures
            sprite@ == SpriteView::fresh(origin, path@, pos, kind),
    {
        Sprite {
            events: EventCollection::new(),
            current_depth: 0,
            path,
            pos,
            layer: Layer::Background,
            origin,
            start_time: None,
            end_time: None,
            type_: kind,
        }
    }

    /// A sprite from what describes it: see the conversions into `Sprite`.
    pub fn new<T: Into<Sprite>>(args: T) -> (sprite: Self)
        ensures
            call_ensures(T::into, (args,), sprite),
    {
        args.into()
    }

    /// Adds a `Move` command, which moves the sprite.
    ///
    /// The command is what `args` converts into. It is moved to the depth of
    /// the sprite and put on the timeline of its kind; the span of the sprite
    /// widens to hold it.
    pub fn move_<T: Into<Move>>(&mut self, args: T)
        ensures
            exists|event: Move|
                #[trigger] call_ensures(T::into, (args,), event)
                    && final(self)@ == old(self)@.with_move(event),
    {
        let event: Move = args.into();
        add_event(
            &mut self.events.move_,
            &mut self.start_time,
            &mut self.end_time,
            self.current_depth,
            event,
        );
    }

    /// Adds a `MoveX` command, which moves the sprite along the horizontal axis.
    ///
    /// The command is what `args` converts into. It is moved to the depth of
    /// the sprite and put on the timeline of its kind; the span of the sprite
    /// widens to hold it.
    pub fn movex_<T: Into<MoveX>>(&mut self, args: T)
        ensures
            exists|event: MoveX|
                #[trigger] call_ensures(T::into, (args,), event)
                    && final(self)@ == old(self)@.with_movex(event),
    {
        let event: MoveX = args.into();
        add_event(
            &mut self.events.movex_,
            &mut self.start_time,
            &mut self.end_time,
            self.current_depth,
            event,
        );
    }

    /// Adds a `MoveY` command, which moves the sprite along the vertical axis.
    ///
    /// The command is what `args` converts into. It is moved to the depth of
    /// the sprite and put on the timeline of its kind; the span of the sprite
    /// widens to hold it.
    pub fn movey_<T: Into<MoveY>>(&mut self, args: T)
        ensures
            exists|event: MoveY|
                #[trigger] call_ensures(T::into, (args,), event)
                    && final(self)@ == old(self)@.with_movey(event),
    {
        let event: MoveY = args.into();
        add_event(
            &mut self.events.movey_,
            &mut self.start_time,
            &mut self.end_time,
            self.current_depth,
            event,
        );
    }

    /// Adds a `Fade` command, which changes the opacity of the sprite.
    ///
    /// The command is what `args` converts into. It is moved to the depth of
    /// the sprite and put on the timeline of its kind; the span of the sprite
    /// widens to hold it.
    pub fn fade_<T: Into<Fade>>(&mut self, args: T)
        ensures
            exists|event: Fade|
                #[trigger] call_ensures(T::into, (args,), event)
                    && final(self)@ == old(self)@.with_fade(event),
    {
        let event: Fade = args.into();
        add_event(
            &mut self.events.fade_,
            &mut self.start_time,
            &mut self.end_time,
            self.current_depth,
            event,
        );
    }

    /// Adds a `Rotate` command, which turns the sprite.
    ///
    /// The command is what `args` converts into. It is moved to the depth of
    /// the sprite and put on the timeline of its kind; the span of the sprite
    /// widens to hold it.
    pub fn rotate_<T: Into<Rotate>>(&mut self, args: T)
        ensures
            exists|event: Rotate|
                #[trigger] call_ensures(T::into, (args,), event)
                    && final(self)@ == old(self)@.with_rotate(event),
    {
        let event: Rotate = args.into();
        add_event(
            &mut self.events.rotate_,
            &mut self.start_time,
            &mut self.end_time,
            self.current_depth,
            event,
        );
    }

    /// Adds a `Scale` command, which changes the size of the sprite.
    ///
    /// The command is what `args` converts into. It is moved to the depth of
    /// the sprite and put on the timeline of its kind; the span of the sprite
    /// widens to hold it.
    pub fn scale_<T: Into<Scale>>(&mut self, args: T)
        ensures
            exists|event: Scale|
                #[trigger] call_ensures(T::into, (args,), event)
                    && final(self)@ == old(self)@.with_scale(event),
    {
        let event: Scale = args.into();
        add_event(
            &mut self.events.scale_,
            &mut self.start_time,
            &mut self.end_time,
            self.current_depth,
            event,
        );
    }

    /// Adds a `ScaleVec` command, which changes the size of the sprite along each axis.
    ///
    /// The command is what `args` converts into. It is moved to the depth of
    /// the sprite and put on the timeline of its kind; the span of the sprite
    /// widens to hold it.
    pub fn scalevec_<T: Into<ScaleVec>>(&mut self, args: T)
        ensures
            exists|event: ScaleVec|
                #[trigger] call_ensures(T::into, (args,), event)
                    && final(self)@ == old(self)@.with_scalevec(event),
    {
        let event: ScaleVec = args.into();
        add_event(
            &mut self.events.scalevec_,
            &mut self.start_time,
            &mut self.end_time,
            self.current_depth,
            event,
        );
    }

    /// Adds a `Color` command, which tints the sprite.
    ///
    /// The command is what `args` converts into. It is moved to the depth of
    /// the sprite and put on the timeline of its kind; the span of the sprite
    /// widens to hold it.
    pub fn color_<T: Into<Color>>(&mut self, args: T)
        ensures
            exists|event: Color|
                #[trigger] call_ensures(T::into, (args,), event)
                    && final(self)@ == old(self)@.with_color(event),
    {
        let event: Color = args.into();
        add_event(
            &mut self.events.color_,
            &mut self.start_time,
            &mut self.end_time,
            self.current_depth,
            event,
        );
    }

    /// Adds a `HFlip` command, which mirrors the sprite from left to right.
    ///
    /// The command is what `args` converts into. It is moved to the depth of
    /// the sprite and put on the timeline of its kind; the span of the sprite
    /// widens to hold it.
    pub fn hflip_<T: Into<HFlip>>(&mut self, args: T)
        ensures
            exists|event: HFlip|
                #[trigger] call_ensures(T::into, (args,), event)
                    && final(self)@ == old(self)@.with_hflip(event),
    {
        let event: HFlip = args.into();
        add_event(
            &mut self.events.hflip_,
            &mut self.start_time,
            &mut self.end_time,
            self.current_depth,
            event,
        );
    }

    /// Adds a `VFlip` command, which mirrors the sprite from top to bottom.
    ///
    /// The command is what `args` converts into. It is moved to the depth of
    /// the sprite and put on the timeline of its kind; the span of the sprite
    /// widens to hold it.
    pub fn vflip_<T: Into<VFlip>>(&mut self, args: T)
        ensures
            exists|event: VFlip|
                #[trigger] call_ensures(T::into, (args,), event)
                    && final(self)@ == old(self)@.with_vflip(event),
    {
        let event: VFlip = args.into();
        add_event(
            &mut self.events.vflip_,
            &mut self.start_time,
            &mut self.end_time,
            self.current_depth,
            event,
        );
    }

    /// Adds an `Additive` command, which blends the sprite additively.
    ///
    /// The command is what `args` converts into. It is moved to the depth of
    /// the sprite and put on the timeline of its kind; the span of the sprite
    /// widens to hold it.
    pub fn additive_<T: Into<Additive>>(&mut self, args: T)
        ensures
            exists|event: Additive|
                #[trigger] call_ensures(T::into, (args,), event)
                    && final(self)@ == old(self)@.with_additive(event),
    {
        let event: Additive = args.into();
        add_event(
            &mut self.events.additive_,
            &mut self.start_time,
            &mut self.end_time,
            self.current_depth,
            event,
        );
    }

    /// The horizontal position that the sprite was made with.
    pub fn get_x(&self) -> (x: Number)
        ensures
            x == self@.pos.x,
    {
        self.pos.x.clone()
    }

    /// The vertical position that the sprite was made with.
    pub fn get_y(&self) -> (y: Number)
        ensures
            y == self@.pos.y,
    {
        self.pos.y.clone()
    }

    /// The earliest start among the commands of the sprite, if it has one.
    pub fn start_time(&self) -> (time: Option<i32>)
        ensures
            time == self@.start_time,
    {
        self.start_time
    }

    /// The latest end among the commands of the sprite, if it has one.
    pub fn end_time(&self) -> (time: Option<i32>)
        ensures
            time == self@.end_time,
    {
        self.end_time
    }

    /// Writes the first line of the sprite.
    fn header(&self) -> (text: String)
        ensures
            text@ == self@.header(),
    {
        let mut text = match self.type_ {
            SpriteType::Sprite => String::from_str("Sprite"),
            SpriteType::Animation { .. } => String::from_str("Animation"),
        };
        let ghost kind = text@;
        put_word(&mut text, self.layer.as_str());
        put_word(&mut text, self.origin.as_str());
        let mut path = String::from_str("\"");
        path.append(self.path.as_str());
        path.append("\"");
        put_word(&mut text, path.as_str());
        put_number(&mut text, &self.pos.x);
        put_number(&mut text, &self.pos.y);
        let ghost shared = field(self@.layer.name()) + field(self@.origin.name()) + field(
            quoted(self@.path),
        ) + field(self@.pos.x.text()) + field(self@.pos.y.text());
        assert(text@ =~= kind + shared);
        match self.type_ {
            SpriteType::Sprite => {
                text.append("\n");
                assert(text@ =~= self@.header());
            },
            SpriteType::Animation { frame_count, frame_delay, loop_type } => {
                put_int(&mut text, frame_count as i64);
                put_int(&mut text, frame_delay as i64);
                match loop_type {
                    LoopType::LoopOnce => put_word(&mut text, "LoopOnce"),
                    LoopType::LoopForever => {},
                }
                text.append("\n");
                assert(text@ =~= self@.header());
            },
        }
        text
    }

    /// Writes the sprite as it stands in a script. The text depends on the
    /// value of the sprite alone: as long as the sprite does not change, it is
    /// the same text.
    pub fn to_str(&self) -> (text: String)
        ensures
            text@ == self@.script(),
    {
        let mut text = self.header();
        text.append(self.events.to_str().as_str());
        text
    }

    /// Writing a sprite twice, with no change to it in between, gives the same
    /// text twice.
    pub proof fn lemma_to_str_repeats(sprite: Sprite, first: String, second: String)
        requires
            call_ensures(Sprite::to_str, (&sprite,), first),
            call_ensures(Sprite::to_str, (&sprite,), second),
        ensures
            first@ == second@,
    {
    }

    /// Puts the sprite on `layer`.
    pub fn set_layer(&mut self, layer: Layer)
        ensures
            final(self)@ == (SpriteView { layer, ..old(self)@ }),
    {
        self.layer = layer;
    }
}

/// A sprite from the path of its image, centred in the middle of the screen.
impl From<String> for Sprite {
    fn from(args: String) -> (sprite: Self)
        ensures
            sprite@ == SpriteView::fresh(
                Origin::Centre,
                args@,
                middle(),
                SpriteType::Sprite,
            ),
    {
        Sprite::build(
            Origin::Centre,
            args,
            Vec2::from(320, 240),
            SpriteType::Sprite,
        )
    }
}

/// The sprite is stated by its view, in the contract of `from`.
impl vstd::std_specs::convert::FromSpecImpl<String> for Sprite {
    open spec fn obeys_from_spec() -> bool {
        false
    }

    open spec fn from_spec(args: String) -> Self {
        arbitrary()
    }
}

/// A sprite from the path of its image, centred in the middle of the screen.
impl From<&str> for Sprite {
    fn from(args: &str) -> (sprite: Self)
        ensures
            sprite@ == SpriteView::fresh(
                Origin::Centre,
                args@,
                middle(),
                SpriteType::Sprite,
            ),
    {
        Sprite::build(
            Origin::Centre,
            String::from_str(args),
            Vec2::from(320, 240),
            SpriteType::Sprite,
        )
    }
}

/// The sprite is stated by its view, in the contract of `from`.
impl vstd::std_specs::convert::FromSpecImpl<&str> for Sprite {
    open spec fn obeys_from_spec() -> bool {
        false
    }

    open spec fn from_spec(args: &str) -> Self {
        arbitrary()
    }
}

/// A sprite from the path of its image and its position.
impl From<(String, Vec2)> for Sprite {
    fn from(args: (String, Vec2)) -> (sprite: Self)
        ensures
            sprite@ == SpriteView::fresh(
                Origin::Centre,
                args.0@,
                args.1,
                SpriteType::Sprite,
            ),
    {
        Sprite::build(
            Origin::Centre,
            args.0,
            args.1,
            SpriteType::Sprite,
        )
    }
}

/// The sprite is stated by its view, in the contract of `from`.
impl vstd::std_specs::convert::FromSpecImpl<(String, Vec2)> for Sprite {
    open spec fn obeys_from_spec() -> bool {
        false
    }

    open spec fn from_spec(args: (String, Vec2)) -> Self {
        arbitrary()
    }
}

/// A sprite from the path of its image and its position.
impl From<(&str, Vec2)> for Sprite {
    fn from(args: (&str, Vec2)) -> (sprite: Self)
        ensures
            sprite@ == SpriteView::fresh(
                Origin::Centre,
                args.0@,
                args.1,
                SpriteType::Sprite,
            ),
    {
        Sprite::build(
            Origin::Centre,
            String::from_str(args.0),
            args.1,
            SpriteType::Sprite,
        )
    }
}

/// The sprite is stated by its view, in the contract of `from`.
impl vstd::std_specs::convert::FromSpecImpl<(&str, Vec2)> for Sprite {
    open spec fn obeys_from_spec() -> bool {
        false
    }

    open spec fn from_spec(args: (&str, Vec2)) -> Self {
        arbitrary()
    }
}

/// A sprite from the path of its image and the two parts of its position.
impl<T: Into<Number>, U: Into<Number>> From<(String, T, U)> for Sprite {
    fn from(args: (String, T, U)) -> (sprite: Self)
        ensures
            sprite@ == SpriteView::fresh(
                Origin::Centre,
                args.0@,
                sprite@.pos,
                SpriteType::Sprite,
            ),
            call_ensures(T::into, (args.1,), sprite@.pos.x),
            T::obeys_into_spec() ==> sprite@.pos.x == args.1.into_spec(),
            call_ensures(U::into, (args.2,), sprite@.pos.y),
            U::obeys_into_spec() ==> sprite@.pos.y == args.2.into_spec(),
    {
        Sprite::build(
            Origin::Centre,
            args.0,
            Vec2::from(args.1, args.2),
            SpriteType::Sprite,
        )
    }
}

/// The sprite is stated by its view, in the contract of `from`.
impl<T: Into<Number>, U: Into<Number>>
    vstd::std_specs::convert::FromSpecImpl<(String, T, U)> for Sprite
{
    open spec fn obeys_from_spec() -> bool {
        false
    }

    open spec fn from_spec(args: (String, T, U)) -> Self {
        arbitrary()
    }
}

/// A sprite from the path of its image and the two parts of its position.
impl<T: Into<Number>, U: Into<Number>> From<(&str, T, U)> for Sprite {
    fn from(args: (&str, T, U)) -> (sprite: Self)
        ensures
            sprite@ == SpriteView::fresh(
                Origin::Centre,
                args.0@,
                sprite@.pos,
                SpriteType::Sprite,
            ),
            call_ensures(T::into, (args.1,), sprite@.pos.x),
            T::obeys_into_spec() ==> sprite@.pos.x == args.1.into_spec(),
            call_ensures(U::into, (args.2,), sprite@.pos.y),
            U::obeys_into_spec() ==> sprite@.pos.y == args.2.into_spec(),
    {
        Sprite::build(
            Origin::Centre,
            String::from_str(args.0),
            Vec2::from(args.1, args.2),
            SpriteType::Sprite,
        )
    }
}

/// The sprite is stated by its view, in the contract of `from`.
impl<T: Into<Number>, U: Into<Number>>
    vstd::std_specs::convert::FromSpecImpl<(&str, T, U)> for Sprite
{
    open spec fn obeys_from_spec() -> bool {
        false
    }

    open spec fn from_spec(args: (&str, T, U)) -> Self {
        arbitrary()
    }
}

/// A sprite from its origin and the path of its image.
impl From<(Origin, String)> for Sprite {
    fn from(args: (Origin, String)) -> (sprite: Self)
        ensures
            sprite@ == SpriteView::fresh(
                args.0,
                args.1@,
                middle(),
                SpriteType::Sprite,
            ),
    {
        Sprite::build(
            args.0,
            args.1,
            Vec2::from(320, 240),
            SpriteType::Sprite,
        )
    }
}

/// The sprite is stated by its view, in the contract of `from`.
impl vstd::std_specs::convert::FromSpecImpl<(Origin, String)> for Sprite {
    open spec fn obeys_from_spec() -> bool {
        false
    }

    open spec fn from_spec(args: (Origin, String)) -> Self {
        arbitrary()
    }
}

/// A sprite from its origin and the path of its image.
impl From<(Origin, &str)> for Sprite {
    fn from(args: (Origin, &str)) -> (sprite: Self)
        ensures
            sprite@ == SpriteView::fresh(
                args.0,
                args.1@,
                middle(),
                SpriteType::Sprite,
            ),
    {
        Sprite::build(
            args.0,
            String::from_str(args.1),
            Vec2::from(320, 240),
            SpriteType::Sprite,
        )
    }
}

/// The sprite is stated by its view, in the contract of `from`.
impl vstd::std_specs::convert::FromSpecImpl<(Origin, &str)> for Sprite {
    open spec fn obeys_from_spec() -> bool {
        false
    }

    open spec fn from_spec(args: (Origin, &str)) -> Self {
        arbitrary()
    }
}

/// A sprite from its origin, the path of its image and its position.
impl From<(Origin, String, Vec2)> for Sprite {
    fn from(args: (Origin, String, Vec2)) -> (sprite: Self)
        ensures
            sprite@ == SpriteView::fresh(
                args.0,
                args.1@,
                args.2,
                SpriteType::Sprite,
            ),
    {
        Sprite::build(
            args.0,
            args.1,
            args.2,
            SpriteType::Sprite,
        )
    }
}

/// The sprite is stated by its view, in the contract of `from`.
impl vstd::std_specs::convert::FromSpecImpl<(Origin, String, Vec2)> for Sprite {
    open spec fn obeys_from_spec() -> bool {
        false
    }

    open spec fn from_spec(args: (Origin, String, Vec2)) -> Self {
        arbitrary()
    }
}

/// A sprite from its origin, the path of its image and its position.
impl From<(Origin, &str, Vec2)> for Sprite {
    fn from(args: (Origin, &str, Vec2)) -> (sprite: Self)
        ensures
            sprite@ == SpriteView::fresh(
                args.0,
                args.1@,
                args.2,
                SpriteType::Sprite,
            ),
    {
        Sprite::build(
            args.0,
            String::from_str(args.1),
            args.2,
            SpriteType::Sprite,
        )
    }
}

/// The sprite is stated by its view, in the contract of `from`.
impl vstd::std_specs::convert::FromSpecImpl<(Origin, &str, Vec2)> for Sprite {
    open spec fn obeys_from_spec() -> bool {
        false
    }

    open spec fn from_spec(args: (Origin, &str, Vec2)) -> Self {
        arbitrary()
    }
}

/// A sprite from its origin, the path of its image and the two parts of its
/// position.
impl<T: Into<Number>, U: Into<Number>> From<(Origin, String, T, U)> for Sprite {
    fn from(args: (Origin, String, T, U)) -> (sprite: Self)
        ensures
            sprite@ == SpriteView::fresh(
                args.0,
                args.1@,
                sprite@.pos,
                SpriteType::Sprite,
            ),
            call_ensures(T::into, (args.2,), sprite@.pos.x),
            T::obeys_into_spec() ==> sprite@.pos.x == args.2.into_spec(),
            call_ensures(U::into, (args.3,), sprite@.pos.y),
            U::obeys_into_spec() ==> sprite@.pos.y == args.3.into_spec(),
    {
        Sprite::build(
            args.0,
            args.1,
            Vec2::from(args.2, args.3),
            SpriteType::Sprite,
        )
    }
}

/// The sprite is stated by its view, in the contract of `from`.
impl<T: Into<Number>, U: Into<Number>>
    vstd::std_specs::convert::FromSpecImpl<(Origin, String, T, U)> for Sprite
{
    open spec fn obeys_from_spec() -> bool {
        false
    }

    open spec fn from_spec(args: (Origin, String, T, U)) -> Self {
        arbitrary()
    }
}

/// A sprite from its origin, the path of its image and the two parts of its
/// position.
impl<T: Into<Number>, U: Into<Number>> From<(Origin, &str, T, U)> for Sprite {
    fn from(args: (Origin, &str, T, U)) -> (sprite: Self)
        ensures
            sprite@ == SpriteView::fresh(
                args.0,
                args.1@,
                sprite@.pos,
                SpriteType::Sprite,
            ),
            call_ensures(T::into, (args.2,), sprite@.pos.x),
            T::obeys_into_spec() ==> sprite@.pos.x == args.2.into_spec(),
            call_ensures(U::into, (args.3,), sprite@.pos.y),
            U::obeys_into_spec() ==> sprite@.pos.y == args.3.into_spec(),
    {
        Sprite::build(
            args.0,
            String::from_str(args.1),
            Vec2::from(args.2, args.3),
            SpriteType::Sprite,
        )
    }
}

/// The sprite is stated by its view, in the contract of `from`.
impl<T: Into<Number>, U: Into<Number>>
    vstd::std_specs::convert::FromSpecImpl<(Origin, &str, T, U)> for Sprite
{
    open spec fn obeys_from_spec() -> bool {
        false
    }

    open spec fn from_spec(args: (Origin, &str, T, U)) -> Self {
        arbitrary()
    }
}

/// An animation from the path of its image, its number of frames, the delay
/// between them and what follows the last, centred in the middle of the screen.
impl From<(String, u32, u32, LoopType)> for Sprite {
    fn from(args: (String, u32, u32, LoopType)) -> (sprite: Self)
        ensures
            sprite@ == SpriteView::fresh(
                Origin::Centre,
                args.0@,
                middle(),
                (SpriteType::Animation {
                    frame_count: args.1,
                    frame_delay: args.2,
                    loop_type: args.3,
                }),
            ),
    {
        Sprite::build(
            Origin::Centre,
            args.0,
            Vec2::from(320, 240),
            SpriteType::Animation {
                frame_count: args.1,
                frame_delay: args.2,
                loop_type: args.3,
            },
        )
    }
}

/// The sprite is stated by its view, in the contract of `from`.
impl vstd::std_specs::convert::FromSpecImpl<(String, u32, u32, LoopType)> for Sprite {
    open spec fn obeys_from_spec() -> bool {
        false
    }

    open spec fn from_spec(args: (String, u32, u32, LoopType)) -> Self {
        arbitrary()
    }
}

/// An animation from the path of its image, its number of frames, the delay
/// between them and what follows the last, centred in the middle of the screen.
impl From<(&str, u32, u32, LoopType)> for Sprite {
    fn from(args: (&str, u32, u32, LoopType)) -> (sprite: Self)
        ensures
            sprite@ == SpriteView::fresh(
                Origin::Centre,
                args.0@,
                middle(),
                (SpriteType::Animation {
                    frame_count: args.1,
                    frame_delay: args.2,
                    loop_type: args.3,
                }),
            ),
    {
        Sprite::build(
            Origin::Centre,
            String::from_str(args.0),
            Vec2::from(320, 240),
            SpriteType::Animation {
                frame_count: args.1,
                frame_delay: args.2,
                loop_type: args.3,
            },
        )
    }
}

/// The sprite is stated by its view, in the contract of `from`.
impl vstd::std_specs::convert::FromSpecImpl<(&str, u32, u32, LoopType)> for Sprite {
    open spec fn obeys_from_spec() -> bool {
        false
    }

    open spec fn from_spec(args: (&str, u32, u32, LoopType)) -> Self {
        arbitrary()
    }
}

/// An animation from the path of its image, its position, its number of frames,
/// the delay between them and what follows the last.
impl From<(String, Vec2, u32, u32, LoopType)> for Sprite {
    fn from(args: (String, Vec2, u32, u32, LoopType)) -> (sprite: Self)
        ensures
            sprite@ == SpriteView::fresh(
                Origin::Centre,
                args.0@,
                args.1,
                (SpriteType::Animation {
                    frame_count: args.2,
                    frame_delay: args.3,
                    loop_type: args.4,
                }),
            ),
    {
        Sprite::build(
            Origin::Centre,
            args.0,
            args.1,
            SpriteType::Animation {
                frame_count: args.2,
                frame_delay: args.3,
                loop_type: args.4,
            },
        )
    }
}

/// The sprite is stated by its view, in the contract of `from`.
impl vstd::std_specs::convert::FromSpecImpl<(String, Vec2, u32, u32, LoopType)> for Sprite {
    open spec fn obeys_from_spec() -> bool {
        false
    }

    open spec fn from_spec(args: (String, Vec2, u32, u32, LoopType)) -> Self {
        arbitrary()
    }
}

/// An animation from the path of its image, its position, its number of frames,
/// the delay between them and what follows the last.
impl From<(&str, Vec2, u32, u32, LoopType)> for Sprite {
    fn from(args: (&str, Vec2, u32, u32, LoopType)) -> (sprite: Self)
        ensures
            sprite@ == SpriteView::fresh(
                Origin::Centre,
                args.0@,
                args.1,
                (SpriteType::Animation {
                    frame_count: args.2,
                    frame_delay: args.3,
                    loop_type: args.4,
                }),
            ),
    {
        Sprite::build(
            Origin::Centre,
            String::from_str(args.0),
            args.1,
            SpriteType::Animation {
                frame_count: args.2,
                frame_delay: args.3,
                loop_type: args.4,
            },
        )
    }
}

/// The sprite is stated by its view, in the contract of `from`.
impl vstd::std_specs::convert::FromSpecImpl<(&str, Vec2, u32, u32, LoopType)> for Sprite {
    open spec fn obeys_from_spec() -> bool {
        false
    }

    open spec fn from_spec(args: (&str, Vec2, u32, u32, LoopType)) -> Self {
        arbitrary()
    }
}

/// An animation from the path of its image, the two parts of its position, its
/// number of frames, the delay between them and what follows the last.
impl<T: Into<Number>, U: Into<Number>> From<(String, T, U, u32, u32, LoopType)> for Sprite {
    fn from(args: (String, T, U, u32, u32, LoopType)) -> (sprite: Self)
        ensures
            sprite@ == SpriteView::fresh(
                Origin::Centre,
                args.0@,
                sprite@.pos,
                (SpriteType::Animation {
                    frame_count: args.3,
                    frame_delay: args.4,
                    loop_type: args.5,
                }),
            ),
            call_ensures(T::into, (args.1,), sprite@.pos.x),
            T::obeys_into_spec() ==> sprite@.pos.x == args.1.into_spec(),
            call_ensures(U::into, (args.2,), sprite@.pos.y),
            U::obeys_into_spec() ==> sprite@.pos.y == args.2.into_spec(),
    {
        Sprite::build(
            Origin::Centre,
            args.0,
            Vec2::from(args.1, args.2),
            SpriteType::Animation {
                frame_count: args.3,
                frame_delay: args.4,
                loop_type: args.5,
            },
        )
    }
}

/// The sprite is stated by its view, in the contract of `from`.
impl<T: Into<Number>, U: Into<Number>>
    vstd::std_specs::convert::FromSpecImpl<(String, T, U, u32, u32, LoopType)> for Sprite
{
    open spec fn obeys_from_spec() -> bool {
        false
    }

    open spec fn from_spec(args: (String, T, U, u32, u32, LoopType)) -> Self {
        arbitrary()
    }
}

/// An animation from the path of its image, the two parts of its position, its
/// number of frames, the delay between them and what follows the last.
impl<T: Into<Number>, U: Into<Number>> From<(&str, T, U, u32, u32, LoopType)> for Sprite {
    fn from(args: (&str, T, U, u32, u32, LoopType)) -> (sprite: Self)
        ensures
            sprite@ == SpriteView::fresh(
                Origin::Centre,
                args.0@,
                sprite@.pos,
                (SpriteType::Animation {
                    frame_count: args.3,
                    frame_delay: args.4,
                    loop_type: args.5,
                }),
            ),
            call_ensures(T::into, (args.1,), sprite@.pos.x),
            T::obeys_into_spec() ==> sprite@.pos.x == args.1.into_spec(),
            call_ensures(U::into, (args.2,), sprite@.pos.y),
            U::obeys_into_spec() ==> sprite@.pos.y == args.2.into_spec(),
    {
        Sprite::build(
            Origin::Centre,
            String::from_str(args.0),
            Vec2::from(args.1, args.2),
            SpriteType::Animation {
                frame_count: args.3,
                frame_delay: args.4,
                loop_type: args.5,
            },
        )
    }
}

/// The sprite is stated by its view, in the contract of `from`.
impl<T: Into<Number>, U: Into<Number>>
    vstd::std_specs::convert::FromSpecImpl<(&str, T, U, u32, u32, LoopType)> for Sprite
{
    open spec fn obeys_from_spec() -> bool {
        false
    }

    open spec fn from_spec(args: (&str, T, U, u32, u32, LoopType)) -> Self {
        arbitrary()
    }
}

/// An animation from its origin, the path of its image, its number of frames,
/// the delay between them and what follows the last.
impl From<(Origin, String, u32, u32, LoopType)> for Sprite {
    fn from(args: (Origin, String, u32, u32, LoopType)) -> (sprite: Self)
        ensures
            sprite@ == SpriteView::fresh(
                args.0,
                args.1@,
                middle(),
                (SpriteType::Animation {
                    frame_count: args.2,
                    frame_delay: args.3,
                    loop_type: args.4,
                }),
            ),
    {
        Sprite::build(
            args.0,
            args.1,
            Vec2::from(320, 240),
            SpriteType::Animation {
                frame_count: args.2,
                frame_delay: args.3,
                loop_type: args.4,
            },
        )
    }
}

/// The sprite is stated by its view, in the contract of `from`.
impl vstd::std_specs::convert::FromSpecImpl<(Origin, String, u32, u32, LoopType)> for Sprite {
    open spec fn obeys_from_spec() -> bool {
        false
    }

    open spec fn from_spec(args: (Origin, String, u32, u32, LoopType)) -> Self {
        arbitrary()
    }
}

/// An animation from its origin, the path of its image, its number of frames,
/// the delay between them and what follows the last.
impl From<(Origin, &str, u32, u32, LoopType)> for Sprite {
    fn from(args: (Origin, &str, u32, u32, LoopType)) -> (sprite: Self)
        ensures
            sprite@ == SpriteView::fresh(
                args.0,
                args.1@,
                middle(),
                (SpriteType::Animation {
                    frame_count: args.2,
                    frame_delay: args.3,
                    loop_type: args.4,
                }),
            ),
    {
        Sprite::build(
            args.0,
            String::from_str(args.1),
            Vec2::from(320, 240),
            SpriteType::Animation {
                frame_count: args.2,
                frame_delay: args.3,
                loop_type: args.4,
            },
        )
    }
}

/// The sprite is stated by its view, in the contract of `from`.
impl vstd::std_specs::convert::FromSpecImpl<(Origin, &str, u32, u32, LoopType)> for Sprite {
    open spec fn obeys_from_spec() -> bool {
        false
    }

    open spec fn from_spec(args: (Origin, &str, u32, u32, LoopType)) -> Self {
        arbitrary()
    }
}

/// An animation from its origin, the path of its image, its position, its
/// number of frames, the delay between them and what follows the last.
impl From<(Origin, String, Vec2, u32, u32, LoopType)> for Sprite {
    fn from(args: (Origin, String, Vec2, u32, u32, LoopType)) -> (sprite: Self)
        ensures
            sprite@ == SpriteView::fresh(
                args.0,
                args.1@,
                args.2,
                (SpriteType::Animation {
                    frame_count: args.3,
                    frame_delay: args.4,
                    loop_type: args.5,
                }),
            ),
    {
        Sprite::build(
            args.0,
            args.1,
            args.2,
            SpriteType::Animation {
                frame_count: args.3,
                frame_delay: args.4,
                loop_type: args.5,
            },
        )
    }
}

/// The sprite is stated by its view, in the contract of `from`.
impl vstd::std_specs::convert::FromSpecImpl<(Origin, String, Vec2, u32, u32, LoopType)> for Sprite {
    open spec fn obeys_from_spec() -> bool {
        false
    }

    open spec fn from_spec(args: (Origin, String, Vec2, u32, u32, LoopType)) -> Self {
        arbitrary()
    }
}

/// An animation from its origin, the path of its image, its position, its
/// number of frames, the delay between them and what follows the last.
impl From<(Origin, &str, Vec2, u32, u32, LoopType)> for Sprite {
    fn from(args: (Origin, &str, Vec2, u32, u32, LoopType)) -> (sprite: Self)
        ensures
            sprite@ == SpriteView::fresh(
                args.0,
                args.1@,
                args.2,
                (SpriteType::Animation {
                    frame_count: args.3,
                    frame_delay: args.4,
                    loop_type: args.5,
                }),
            ),
    {
        Sprite::build(
            args.0,
            String::from_str(args.1),
            args.2,
            SpriteType::Animation {
                frame_count: args.3,
                frame_delay: args.4,
                loop_type: args.5,
            },
        )
    }
}

/// The sprite is stated by its view, in the contract of `from`.
impl vstd::std_specs::convert::FromSpecImpl<(Origin, &str, Vec2, u32, u32, LoopType)> for Sprite {
    open spec fn obeys_from_spec() -> bool {
        false
    }

    open spec fn from_spec(args: (Origin, &str, Vec2, u32, u32, LoopType)) -> Self {
        arbitrary()
    }
}

/// An animation from its origin, the path of its image, the two parts of its
/// position, its number of frames, the delay between them and what follows the
/// last.
impl<T: Into<Number>, U: Into<Number>> From<(Origin, String, T, U, u32, u32, LoopType)> for Sprite {
    fn from(args: (Origin, String, T, U, u32, u32, LoopType)) -> (sprite: Self)
        ensures
            sprite@ == SpriteView::fresh(
                args.0,
                args.1@,
                sprite@.pos,
                (SpriteType::Animation {
                    frame_count: args.4,
                    frame_delay: args.5,
                    loop_type: args.6,
                }),
            ),
            call_ensures(T::into, (args.2,), sprite@.pos.x),
            T::obeys_into_spec() ==> sprite@.pos.x == args.2.into_spec(),
            call_ensures(U::into, (args.3,), sprite@.pos.y),
            U::obeys_into_spec() ==> sprite@.pos.y == args.3.into_spec(),
    {
        Sprite::build(
            args.0,
            args.1,
            Vec2::from(args.2, args.3),
            SpriteType::Animation {
                frame_count: args.4,
                frame_delay: args.5,
                loop_type: args.6,
            },
        )
    }
}

/// The sprite is stated by its view, in the contract of `from`.
impl<T: Into<Number>, U: Into<Number>>
    vstd::std_specs::convert::FromSpecImpl<(Origin, String, T, U, u32, u32, LoopType)> for Sprite
{
    open spec fn obeys_from_spec() -> bool {
        false
    }

    open spec fn from_spec(args: (Origin, String, T, U, u32, u32, LoopType)) -> Self {
        arbitrary()
    }
}

/// An animation from its origin, the path of its image, the two parts of its
/// position, its number of frames, the delay between them and what follows the
/// last.
impl<T: Into<Number>, U: Into<Number>> From<(Origin, &str, T, U, u32, u32, LoopType)> for Sprite {
    fn from(args: (Origin, &str, T, U, u32, u32, LoopType)) -> (sprite: Self)
        ensures
            sprite@ == SpriteView::fresh(
                args.0,
                args.1@,
                sprite@.pos,
                (SpriteType::Animation {
                    frame_count: args.4,
                    frame_delay: args.5,
                    loop_type: args.6,
                }),
            ),
            call_ensures(T::into, (args.2,), sprite@.pos.x),
            T::obeys_into_spec() ==> sprite@.pos.x == args.2.into_spec(),
            call_ensures(U::into, (args.3,), sprite@.pos.y),
            U::obeys_into_spec() ==> sprite@.pos.y == args.3.into_spec(),
    {
        Sprite::build(
            args.0,
            String::from_str(args.1),
            Vec2::from(args.2, args.3),
            SpriteType::Animation {
                frame_count: args.4,
                frame_delay: args.5,
                loop_type: args.6,
            },
        )
    }
}

/// The sprite is stated by its view, in the contract of `from`.
impl<T: Into<Number>, U: Into<Number>>
    vstd::std_specs::convert::FromSpecImpl<(Origin, &str, T, U, u32, u32, LoopType)> for Sprite
{
    open spec fn obeys_from_spec() -> bool {
        false
    }

    open spec fn from_spec(args: (Origin, &str, T, U, u32, u32, LoopType)) -> Self {
        arbitrary()
    }
}
} // verus!
