//! The editing session and the mode machine that owns it.

use crate::draw::{Colour, Rectangle};
use crate::input::Input;
use crate::level::{all_below, drawn, level_bytes, moved, Level, LevelView, Platform};
use crate::scalar::{Scalar, Vec2};
use crate::tools::{
    lemma_release_keeps_selection_valid, origin, MoveTool, PlatformTool, Selector, Tool,
};
use crate::ui::Button;
use vstd::prelude::*;
use vstd::string::StringExecFns;

verus! {

/// What the tools work on: the level, and the indices of the platforms that
/// are selected. Every selected index names a platform of the level, at
/// every point of every session: no function of this type can leave it
/// otherwise.
#[derive(Debug)]
pub struct EditorContext {
    level: Level,
    selection: Vec<usize>,
}

/// What an editing session holds.
pub struct ContextView {
    pub level: LevelView,
    pub selection: Seq<usize>,
}

impl View for EditorContext {
    type V = ContextView;

    closed spec fn view(&self) -> ContextView {
        ContextView { level: self.level@, selection: self.selection@ }
    }
}

impl ContextView {
    /// Every selected index names a platform.
    pub open spec fn wf(self) -> bool {
        all_below(self.selection, self.level.platforms.len())
    }
}

impl EditorContext {
    #[verifier::type_invariant]
    spec fn valid(self) -> bool {
        all_below(self.selection@, self.level@.platforms.len())
    }

    /// A session on `level` with nothing selected.
    pub fn new(level: Level) -> (ctx: EditorContext)
        ensures
            ctx@.level == level@,
            ctx@.selection == Seq::<usize>::empty(),
    {
        EditorContext { level, selection: Vec::new() }
    }

    pub fn get_level(&self) -> (level: &Level)
        ensures
            level@ == self@.level,
    {
        &self.level
    }

    /// The selected indices. In every session, whatever was done to it, each
    /// of them names a platform.
    pub fn get_selection(&self) -> (selection: &[usize])
        ensures
            selection@ == self@.selection,
            all_below(selection@, self@.level.platforms.len()),
    {
        proof {
            use_type_invariant(self);
        }
        self.selection.as_slice()
    }

    /// Gives the level back and ends the session.
    pub fn into_level(self) -> (level: Level)
        ensures
            level@ == self@.level,
    {
        self.level
    }

    /// Appends a platform to the level. The selection stays.
    pub fn add_platform(&mut self, platform: Platform)
        ensures
            final(self)@.level.platforms == old(self)@.level.platforms.push(platform),
            final(self)@.level.player_start == old(self)@.level.player_start,
            final(self)@.selection == old(self)@.selection,
    {
        proof {
            use_type_invariant(&*self);
        }
        // The selection and the level are taken out while the level changes:
        // a session with nothing selected is valid whatever its level holds.
        let mut selection: Vec<usize> = Vec::new();
        std::mem::swap(&mut selection, &mut self.selection);
        let mut level = Level::new(Vec::new(), Vec2::splat(Scalar::zero()));
        std::mem::swap(&mut level, &mut self.level);
        level.add_platform(platform);
        std::mem::swap(&mut level, &mut self.level);
        self.selection = selection;
    }

    /// Selects `indices` if each of them names a platform; otherwise the
    /// selection stays as it was.
    pub fn select(&mut self, indices: Vec<usize>) -> (taken: bool)
        ensures
            taken == all_below(indices@, old(self)@.level.platforms.len()),
            final(self)@.level == old(self)@.level,
            final(self)@.selection == if taken {
                indices@
            } else {
                old(self)@.selection
            },
    {
        let n: usize = self.level.get_platforms().len();
        let mut k: usize = 0;
        while k < indices.len()
            invariant
                k <= indices@.len(),
                n == self@.level.platforms.len(),
                *self == *old(self),
                forall|j: int| 0 <= j < k ==> (#[trigger] indices@[j]) < n,
            decreases indices@.len() - k,
        {
            if indices[k] >= n {
                return false;
            }
            k += 1;
        }
        self.selection = indices;
        true
    }

    /// Selects nothing.
    pub fn clear_selection(&mut self)
        ensures
            final(self)@.level == old(self)@.level,
            final(self)@.selection == Seq::<usize>::empty(),
    {
        self.selection = Vec::new();
    }

    /// Moves every selected platform by `delta`.
    pub fn move_selected_platforms(&mut self, delta: Vec2)
        ensures
            final(self)@.level.platforms == moved(
                old(self)@.level.platforms,
                old(self)@.selection,
                delta,
            ),
            final(self)@.level.player_start == old(self)@.level.player_start,
            final(self)@.selection == old(self)@.selection,
    {
        proof {
            use_type_invariant(&*self);
        }
        // Taken out as in `add_platform`.
        let mut selection: Vec<usize> = Vec::new();
        std::mem::swap(&mut selection, &mut self.selection);
        let mut level = Level::new(Vec::new(), Vec2::splat(Scalar::zero()));
        std::mem::swap(&mut level, &mut self.level);
        level.move_selected_platforms(selection.as_slice(), delta);
        std::mem::swap(&mut level, &mut self.level);
        self.selection = selection;
    }

    /// The bytes of the level file for the level of this session.
    pub fn level_file(&self) -> (out: Vec<u8>)
        ensures
            out@ == level_bytes(self@.level),
    {
        self.level.to_bytes()
    }
}

/// The bit pattern of the number one hundred.
pub const HUNDRED_BITS: u32 = 0x42c8_0000;

/// The bit pattern of the number two hundred and fifty.
pub const TWO_HUNDRED_FIFTY_BITS: u32 = 0x437a_0000;

/// What a frame asks of the mode machine.
#[derive(Debug)]
pub enum Event {
    /// Edit this level.
    OpenLevel(Level),
    /// Leave the level for the menu.
    BackToMenu,
    /// End the program.
    Quit,
    /// Go on.
    Nothing,
}

/// The menu: a button to quit and a button to start editing.
#[derive(Clone, Copy, Debug, PartialEq, Eq, Structural)]
pub struct Menu {
    pub quit_button: Button,
    pub to_level: Button,
}

/// An editing session and the tool in use.
#[derive(Debug)]
pub struct Editing {
    pub context: EditorContext,
    pub current_tool: Tool,
}

/// The mode the editor is in.
#[derive(Debug)]
pub enum EditorState {
    Menu(Menu),
    Editing(Editing),
    /// An event came in a mode that has no answer to it; the message says
    /// which.
    Failure(String),
    /// The program is to end.
    Quitting,
}

/// What a frame of a live mode gives: the event for the mode machine, and
/// whether the level is to be saved.
#[derive(Debug)]
pub struct Frame {
    pub event: Event,
    pub save_requested: bool,
}

/// The editor: the mode machine, stepped once per frame.
#[derive(Debug)]
pub struct MainEditor {
    inner: EditorState,
}

impl Menu {
    /// The menu as it is laid out.
    pub open spec fn layout() -> Menu {
        Menu {
            quit_button: Button {
                position: Vec2 { x: Scalar { bits: HUNDRED_BITS }, y: Scalar { bits: HUNDRED_BITS } },
                size: Vec2 { x: Scalar { bits: HUNDRED_BITS }, y: Scalar { bits: HUNDRED_BITS } },
            },
            to_level: Button {
                position: Vec2 {
                    x: Scalar { bits: TWO_HUNDRED_FIFTY_BITS },
                    y: Scalar { bits: HUNDRED_BITS },
                },
                size: Vec2 { x: Scalar { bits: HUNDRED_BITS }, y: Scalar { bits: HUNDRED_BITS } },
            },
        }
    }

    /// Whether `event` is what the menu asks for in a frame: to quit when
    /// the quit button was clicked, else a new empty level when the other
    /// button was clicked, else nothing.
    pub open spec fn asks(self, input: Input, event: Event) -> bool {
        if self.quit_button.hit(input.mouse_pos, input) {
            event is Quit
        } else if self.to_level.hit(input.mouse_pos, input) {
            match event {
                Event::OpenLevel(level) => level@ == empty_level(),
                _ => false,
            }
        } else {
            event is Nothing
        }
    }

    pub fn new() -> (menu: Menu)
        ensures
            menu == Self::layout(),
    {
        let hundred = Scalar::from_bits(HUNDRED_BITS);
        let quit_button = Button::new(Vec2::splat(hundred), Vec2::splat(hundred));
        let to_level = Button::new(
            Vec2::splat(hundred),
            Vec2::new(Scalar::from_bits(TWO_HUNDRED_FIFTY_BITS), hundred),
        );
        Menu { quit_button, to_level }
    }

    pub fn update(&self, input: &Input) -> (event: Event)
        ensures
            self.asks(*input, event),
    {
        if self.quit_button.was_clicked(input.mouse_pos, input) {
            Event::Quit
        } else if self.to_level.was_clicked(input.mouse_pos, input) {
            Event::OpenLevel(Level::new(Vec::new(), Vec2::splat(Scalar::zero())))
        } else {
            Event::Nothing
        }
    }

    /// The two buttons: the one to start editing, then the one to quit.
    pub fn render(&self) -> (shapes: Vec<Rectangle>)
        ensures
            shapes@ == seq![
                Rectangle {
                    pos: self.to_level.position,
                    size: self.to_level.size,
                    colour: Colour::White,
                },
                Rectangle {
                    pos: self.quit_button.position,
                    size: self.quit_button.size,
                    colour: Colour::White,
                },
            ],
    {
        let mut shapes: Vec<Rectangle> = Vec::new();
        shapes.push(self.to_level.render());
        shapes.push(self.quit_button.render());
        shapes
    }
}

/// The level with no platform, whose player starts at the origin.
pub open spec fn empty_level() -> LevelView {
    LevelView { platforms: Seq::empty(), player_start: origin() }
}

/// The tool after the keys of a frame were heard: `S` takes the selector,
/// else `P` the platform tool, else `M` the move tool, each fresh.
pub open spec fn switched(tool: Tool, input: Input) -> Tool {
    if input.key_s {
        Tool::Selector(Selector::idle())
    } else if input.key_p {
        Tool::PlatformTool(PlatformTool::idle())
    } else if input.key_m {
        Tool::MoveTool(MoveTool::idle())
    } else {
        tool
    }
}

/// The tool that handles the mouse in a frame: the keys are heard only
/// while no gesture is in progress.
pub open spec fn tool_in_frame(tool: Tool, input: Input) -> Tool {
    if tool.free() {
        switched(tool, input)
    } else {
        tool
    }
}

/// The tool after a frame.
pub open spec fn tool_after(tool: Tool, input: Input) -> Tool {
    let active = tool_in_frame(tool, input);
    if input.left_pressed {
        active.clicked(input.mouse_pos).updated(input)
    } else if input.left_released {
        active.released().updated(input)
    } else {
        active.updated(input)
    }
}

/// The session after a frame: it changes only when the button went up.
pub open spec fn context_after(tool: Tool, ctx: ContextView, input: Input) -> ContextView {
    if !input.left_pressed && input.left_released {
        tool_in_frame(tool, input).released_context(input.mouse_pos, ctx)
    } else {
        ctx
    }
}

impl Editing {
    /// A session on `level` with nothing selected and the selector in hand.
    pub fn new(level: Level) -> (editing: Editing)
        ensures
            editing.context@ == (ContextView { level: level@, selection: Seq::empty() }),
            editing.current_tool == Tool::Selector(Selector::idle()),
    {
        Editing { context: EditorContext::new(level), current_tool: Tool::Selector(Selector::new()) }
    }

    /// Takes the tool that the keys of this frame ask for.
    pub fn change_tool(&mut self, input: &Input)
        ensures
            final(self).current_tool == switched(old(self).current_tool, *input),
            final(self).context == old(self).context,
    {
        if input.key_s {
            self.current_tool = Tool::Selector(Selector::new());
        } else if input.key_p {
            self.current_tool = Tool::PlatformTool(PlatformTool::new());
        } else if input.key_m {
            self.current_tool = Tool::MoveTool(MoveTool::new());
        }
    }

    /// One frame of editing. Says whether the level is to be saved: when `S`
    /// went down while a control key is held.
    pub fn update(&mut self, input: &Input) -> (save_requested: bool)
        ensures
            final(self).current_tool == tool_after(old(self).current_tool, *input),
            final(self).context@ == context_after(old(self).current_tool, old(self).context@, *input),
            save_requested == (input.ctrl && input.key_s),
    {
        if self.current_tool.can_switch() {
            self.change_tool(input);
        }
        if input.left_pressed {
            self.current_tool.on_click(input.mouse_pos, &mut self.context);
        } else if input.left_released {
            self.current_tool.on_mouse_release(input.mouse_pos, &mut self.context);
        }
        self.current_tool.update(input, &mut self.context);
        input.ctrl && input.key_s
    }

    /// What the tool shows, then the platforms of the level.
    pub fn render(&self) -> (shapes: Vec<Rectangle>)
        ensures
            shapes@ == self.current_tool.shapes(self.context@) + drawn(
                self.context@.level.platforms,
            ),
    {
        let mut shapes = self.current_tool.draw(&self.context);
        let mut platforms = self.context.get_level().draw();
        shapes.append(&mut platforms);
        shapes
    }
}


impl Event {
    /// The name of the event.
    pub open spec fn name(self) -> Seq<char> {
        match self {
            Event::OpenLevel(_) => "OpenLevel"@,
            Event::BackToMenu => "BackToMenu"@,
            Event::Quit => "Quit"@,
            Event::Nothing => "None"@,
        }
    }

    fn label(&self) -> (name: &'static str)
        ensures
            name@ == self.name(),
    {
        match self {
            Event::OpenLevel(_) => "OpenLevel",
            Event::BackToMenu => "BackToMenu",
            Event::Quit => "Quit",
            Event::Nothing => "None",
        }
    }
}

impl EditorState {
    /// The name of the mode.
    pub open spec fn name(self) -> Seq<char> {
        match self {
            EditorState::Menu(_) => "Menu"@,
            EditorState::Editing(_) => "Editing"@,
            EditorState::Failure(_) => "Failure"@,
            EditorState::Quitting => "Quitting"@,
        }
    }

    /// What is said of an event that came in a mode with no answer to it.
    pub open spec fn bad_combo(self, event: Event) -> Seq<char> {
        "Bad Combo: "@ + self.name() + ", "@ + event.name()
    }

    /// Whether this is the failure mode with `message`.
    pub open spec fn fails_with(self, message: Seq<char>) -> bool {
        match self {
            EditorState::Failure(m) => m@ == message,
            _ => false,
        }
    }

    /// Whether `next` is the mode that follows this one on `event`. The menu
    /// opens a level in a session with nothing selected and the selector in
    /// hand; every mode quits on `Quit` and stays as it is on no event; any
    /// other pair fails, with a message that names the pair.
    pub open spec fn follows(self, event: Event, next: EditorState) -> bool {
        match event {
            Event::Quit => next is Quitting,
            Event::Nothing => next == self,
            Event::OpenLevel(level) => match self {
                EditorState::Menu(_) => match next {
                    EditorState::Editing(e) => e.context@ == (ContextView {
                        level: level@,
                        selection: Seq::empty(),
                    }) && e.current_tool == Tool::Selector(Selector::idle()),
                    _ => false,
                },
                _ => next.fails_with(self.bad_combo(event)),
            },
            Event::BackToMenu => next.fails_with(self.bad_combo(event)),
        }
    }

    fn label(&self) -> (name: &'static str)
        ensures
            name@ == self.name(),
    {
        match self {
            EditorState::Menu(_) => "Menu",
            EditorState::Editing(_) => "Editing",
            EditorState::Failure(_) => "Failure",
            EditorState::Quitting => "Quitting",
        }
    }

    fn describe(&self, event: &Event) -> (message: String)
        ensures
            message@ == self.bad_combo(*event),
    {
        let mut message = String::from_str("Bad Combo: ");
        message.append(self.label());
        message.append(", ");
        message.append(event.label());
        message
    }

    /// The mode at the start of the program: the menu.
    pub fn new() -> (state: EditorState)
        ensures
            state == EditorState::Menu(Menu::layout()),
    {
        EditorState::Menu(Menu::new())
    }

    /// The mode that follows on `event`.
    pub fn next(self, event: Event) -> (next: EditorState)
        ensures
            self.follows(event, next),
    {
        match event {
            Event::Quit => EditorState::Quitting,
            Event::Nothing => self,
            Event::BackToMenu => {
                let message = self.describe(&event);
                EditorState::Failure(message)
            },
            Event::OpenLevel(level) => {
                if let EditorState::Menu(_) = self {
                    EditorState::Editing(Editing::new(level))
                } else {
                    let event = Event::OpenLevel(level);
                    let message = self.describe(&event);
                    EditorState::Failure(message)
                }
            },
        }
    }

    /// Whether `outcome` is what a frame gives in this mode, and `after` the
    /// mode it leaves. The menu asks for an event; a session is edited and
    /// asks for none; the mode of the end asks for none; the failure mode
    /// gives its message.
    pub open spec fn frame(
        self,
        input: Input,
        after: EditorState,
        outcome: Result<Frame, String>,
    ) -> bool {
        match self {
            EditorState::Menu(m) => after == self && match outcome {
                Ok(f) => m.asks(input, f.event) && !f.save_requested,
                Err(_) => false,
            },
            EditorState::Editing(e) => match (after, outcome) {
                (EditorState::Editing(e2), Ok(f)) => {
                    &&& e2.current_tool == tool_after(e.current_tool, input)
                    &&& e2.context@ == context_after(e.current_tool, e.context@, input)
                    &&& f.event is Nothing
                    &&& f.save_requested == (input.ctrl && input.key_s)
                },
                _ => false,
            },
            EditorState::Failure(m) => after == self && match outcome {
                Ok(_) => false,
                Err(message) => message@ == m@,
            },
            EditorState::Quitting => after == self && match outcome {
                Ok(f) => f.event is Nothing && !f.save_requested,
                Err(_) => false,
            },
        }
    }

    /// One frame in this mode.
    pub fn update(&mut self, input: &Input) -> (outcome: Result<Frame, String>)
        ensures
            old(self).frame(*input, *final(self), outcome),
    {
        match self {
            EditorState::Menu(m) => Ok(Frame { event: m.update(input), save_requested: false }),
            EditorState::Editing(e) => {
                let save_requested = e.update(input);
                Ok(Frame { event: Event::Nothing, save_requested })
            },
            EditorState::Failure(m) => Err(m.clone()),
            EditorState::Quitting => Ok(Frame { event: Event::Nothing, save_requested: false }),
        }
    }

    /// What is to be drawn in this mode.
    pub open spec fn shapes(self) -> Seq<Rectangle> {
        match self {
            EditorState::Menu(m) => seq![
                Rectangle { pos: m.to_level.position, size: m.to_level.size, colour: Colour::White },
                Rectangle {
                    pos: m.quit_button.position,
                    size: m.quit_button.size,
                    colour: Colour::White,
                },
            ],
            EditorState::Editing(e) => e.current_tool.shapes(e.context@) + drawn(
                e.context@.level.platforms,
            ),
            _ => Seq::empty(),
        }
    }

    pub fn render(&self) -> (shapes: Vec<Rectangle>)
        ensures
            shapes@ == self.shapes(),
    {
        match self {
            EditorState::Menu(m) => m.render(),
            EditorState::Editing(e) => e.render(),
            _ => Vec::new(),
        }
    }
}

impl MainEditor {
    /// The mode the editor is in.
    pub closed spec fn state(&self) -> EditorState {
        self.inner
    }

    /// An editor in the menu.
    pub fn new() -> (editor: MainEditor)
        ensures
            editor.state() == EditorState::Menu(Menu::layout()),
    {
        MainEditor { inner: EditorState::new() }
    }

    /// Whether a frame with `input` takes the editor from the mode `before`
    /// to the mode `after` and gives `outcome`.
    ///
    /// In the menu, a click on the quit button ends the program; else a
    /// click on the other button opens an empty level in a session with
    /// nothing selected and the selector in hand; else the menu stays. A
    /// session is edited and stays a session. The mode of the end stays.
    /// None of these asks to save, but a session when `S` went down with a
    /// control key held. The failure mode stays and gives its message.
    pub open spec fn steps(
        before: EditorState,
        input: Input,
        after: EditorState,
        outcome: Result<bool, String>,
    ) -> bool {
        match before {
            EditorState::Menu(m) => outcome == Ok::<bool, String>(false) && if m.quit_button.hit(
                input.mouse_pos,
                input,
            ) {
                after is Quitting
            } else if m.to_level.hit(input.mouse_pos, input) {
                match after {
                    EditorState::Editing(e) => e.context@ == (ContextView {
                        level: empty_level(),
                        selection: Seq::empty(),
                    }) && e.current_tool == Tool::Selector(Selector::idle()),
                    _ => false,
                }
            } else {
                after == before
            },
            EditorState::Editing(e) => outcome == Ok::<bool, String>(input.ctrl && input.key_s)
                && match after {
                EditorState::Editing(e2) => e2.current_tool == tool_after(e.current_tool, input)
                    && e2.context@ == context_after(e.current_tool, e.context@, input),
                _ => false,
            },
            EditorState::Failure(m) => after == before && match outcome {
                Ok(_) => false,
                Err(message) => message@ == m@,
            },
            EditorState::Quitting => after == before && outcome == Ok::<bool, String>(false),
        }
    }

    /// One frame: the mode is updated, and the event it asks for decides the
    /// mode of the next frame. Says whether the level is to be saved; in the
    /// failure mode gives the message instead and changes nothing.
    pub fn update(&mut self, input: &Input) -> (outcome: Result<bool, String>)
        ensures
            Self::steps(old(self).state(), *input, final(self).state(), outcome),
    {
        let mut current = EditorState::Quitting;
        std::mem::swap(&mut current, &mut self.inner);
        match current.update(input) {
            Ok(frame) => {
                let Frame { event, save_requested } = frame;
                let mut following = current.next(event);
                std::mem::swap(&mut following, &mut self.inner);
                Ok(save_requested)
            },
            Err(message) => {
                std::mem::swap(&mut current, &mut self.inner);
                Err(message)
            },
        }
    }

    /// Whether the menu is shown.
    pub fn in_menu(&self) -> (shown: bool)
        ensures
            shown == (self.state() is Menu),
    {
        match &self.inner {
            EditorState::Menu(_) => true,
            _ => false,
        }
    }

    /// Whether the program is to end.
    pub fn is_quitting(&self) -> (quitting: bool)
        ensures
            quitting == (self.state() is Quitting),
    {
        match &self.inner {
            EditorState::Quitting => true,
            _ => false,
        }
    }

    /// The bytes of the level file for the level being edited, if one is.
    pub fn level_file(&self) -> (out: Option<Vec<u8>>)
        ensures
            match self.state() {
                EditorState::Editing(e) => match out {
                    Some(bytes) => bytes@ == level_bytes(e.context@.level),
                    None => false,
                },
                _ => out is None,
            },
    {
        match &self.inner {
            EditorState::Editing(e) => Some(e.context.level_file()),
            _ => None,
        }
    }

    /// What is to be drawn in this frame.
    pub fn render(&self) -> (shapes: Vec<Rectangle>)
        ensures
            shapes@ == self.state().shapes(),
    {
        self.inner.render()
    }
}


/// Selection validity: whatever a frame of editing does, every selected
/// index still names a platform.
pub proof fn lemma_frame_keeps_selection_valid(tool: Tool, ctx: ContextView, input: Input)
    requires
        ctx.wf(),
        ctx.level.platforms.len() <= usize::MAX,
    ensures
        context_after(tool, ctx, input).wf(),
{
    lemma_release_keeps_selection_valid(
        tool_in_frame(tool, input),
        input.mouse_pos,
        ctx,
    );
}

} // verus!
