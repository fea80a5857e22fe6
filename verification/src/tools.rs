//! The editing tools. Each holds only the state of the gesture in progress;
//! what a gesture changes is the session it is handed.

use crate::draw::{Colour, Rectangle};
use crate::editor::{ContextView, EditorContext};
use crate::input::Input;
use crate::level::{
    is_selected, lemma_overlapping_members, moved, overlapping, LevelView, Platform,
};
use crate::scalar::{Scalar, Vec2, ONE_BITS};
use vstd::prelude::*;

verus! {

/// Selects the platforms that a dragged rectangle touches.
#[derive(Clone, Copy, Debug, PartialEq, Eq, Structural)]
pub struct Selector {
    pub mouse_pressed_pos: Vec2,
    pub mouse_current_pos: Vec2,
    pub mouse_down: bool,
}

/// Adds the platform spanned by a drag.
#[derive(Clone, Copy, Debug, PartialEq, Eq, Structural)]
pub struct PlatformTool {
    pub mouse_pressed_pos: Vec2,
    pub mouse_down: bool,
    pub preview_platform: Option<Platform>,
}

/// Moves the selected platforms by the way the cursor went during a drag.
#[derive(Clone, Copy, Debug, PartialEq, Eq, Structural)]
pub struct MoveTool {
    pub last_recorded_mouse: Vec2,
    pub total_move_delta: Vec2,
    pub mouse_down: bool,
}

/// The tool in use.
#[derive(Clone, Copy, Debug, PartialEq, Eq, Structural)]
pub enum Tool {
    Selector(Selector),
    PlatformTool(PlatformTool),
    MoveTool(MoveTool),
}

/// The vector whose components are both positive zero.
pub open spec fn origin() -> Vec2 {
    Vec2 { x: Scalar { bits: 0 }, y: Scalar { bits: 0 } }
}

/// The previews of the platforms whose index is selected, in the order of
/// the platforms, each moved by `delta`.
pub open spec fn ghosts(ps: Seq<Platform>, selection: Seq<usize>, delta: Vec2) -> Seq<Rectangle>
    decreases ps.len(),
{
    if ps.len() == 0 {
        Seq::empty()
    } else {
        let before = ghosts(ps.drop_last(), selection, delta);
        if selection.contains((ps.len() - 1) as usize) {
            before.push(
                Rectangle {
                    pos: ps.last().pos.spec_plus(delta),
                    size: ps.last().size,
                    colour: Colour::Faint,
                },
            )
        } else {
            before
        }
    }
}

impl Selector {
    /// A selector with no drag in progress.
    pub open spec fn idle() -> Selector {
        Selector { mouse_pressed_pos: origin(), mouse_current_pos: origin(), mouse_down: false }
    }

    /// The corner and the extent of the dragged rectangle, whichever corner
    /// the drag began at.
    pub open spec fn region(self) -> (Vec2, Vec2) {
        let spanned = Platform::spanned(self.mouse_current_pos, self.mouse_pressed_pos);
        (spanned.pos, spanned.size)
    }

    /// The four bars, one unit thick, that outline the dragged rectangle
    /// while the button is held: top, left, right, bottom.
    pub open spec fn outline(self) -> Seq<Rectangle> {
        if !self.mouse_down {
            Seq::empty()
        } else {
            let size = self.mouse_current_pos.spec_minus(self.mouse_pressed_pos);
            let x_start = if size.x.negative() {
                self.mouse_current_pos.x
            } else {
                self.mouse_pressed_pos.x
            };
            let x_end = if size.x.negative() {
                self.mouse_pressed_pos.x
            } else {
                self.mouse_current_pos.x
            };
            let y_start = if size.y.negative() {
                self.mouse_current_pos.y
            } else {
                self.mouse_pressed_pos.y
            };
            let y_end = if size.y.negative() {
                self.mouse_pressed_pos.y
            } else {
                self.mouse_current_pos.y
            };
            let width = size.x.spec_abs();
            let height = size.y.spec_abs();
            let thickness = Scalar { bits: ONE_BITS };
            seq![
                Rectangle {
                    pos: Vec2 { x: x_start, y: y_start },
                    size: Vec2 { x: width, y: thickness },
                    colour: Colour::Red,
                },
                Rectangle {
                    pos: Vec2 { x: x_start, y: y_start },
                    size: Vec2 { x: thickness, y: height },
                    colour: Colour::Red,
                },
                Rectangle {
                    pos: Vec2 { x: x_end, y: y_start },
                    size: Vec2 { x: thickness, y: height.spec_plus(thickness) },
                    colour: Colour::Red,
                },
                Rectangle {
                    pos: Vec2 { x: x_start, y: y_end },
                    size: Vec2 { x: width.spec_plus(thickness), y: thickness },
                    colour: Colour::Red,
                },
            ]
        }
    }

    pub fn new() -> (tool: Selector)
        ensures
            tool == Self::idle(),
    {
        Selector {
            mouse_pressed_pos: Vec2::splat(Scalar::zero()),
            mouse_current_pos: Vec2::splat(Scalar::zero()),
            mouse_down: false,
        }
    }

    /// Follows the cursor.
    pub fn update(&mut self, input: &Input, editor: &mut EditorContext)
        ensures
            *final(self) == (Selector { mouse_current_pos: input.mouse_pos, ..*old(self) }),
            *final(editor) == *old(editor),
    {
        self.mouse_current_pos = input.mouse_pos;
    }

    /// Begins a drag at `mouse_pos`.
    pub fn on_click(&mut self, mouse_pos: Vec2, editor: &mut EditorContext)
        ensures
            *final(self) == (Selector {
                mouse_pressed_pos: mouse_pos,
                mouse_down: true,
                ..*old(self)
            }),
            *final(editor) == *old(editor),
    {
        self.mouse_pressed_pos = mouse_pos;
        self.mouse_down = true;
    }

    /// A selector can always be put away.
    pub fn can_switch(&self) -> (free: bool)
        ensures
            free,
    {
        true
    }

    /// Ends the drag: the selection becomes the platforms that overlap the
    /// dragged rectangle, in the order of the level.
    pub fn on_mouse_release(&mut self, mouse_pos: Vec2, editor: &mut EditorContext)
        ensures
            *final(self) == (Selector { mouse_down: false, ..*old(self) }),
            final(editor)@.level == old(editor)@.level,
            final(editor)@.selection == overlapping(
                old(editor)@.level.platforms,
                old(self).region().0,
                old(self).region().1,
            ),
    {
        self.mouse_down = false;
        let size = self.mouse_current_pos.minus(self.mouse_pressed_pos);
        let size = Vec2::new(size.x.abs(), size.y.abs());
        let rect_start = Vec2::new(
            self.mouse_current_pos.x.min(self.mouse_pressed_pos.x),
            self.mouse_current_pos.y.min(self.mouse_pressed_pos.y),
        );
        let picked = editor.get_level().overlapping_indices(rect_start, size);
        let taken = editor.select(picked);
        assert(taken);
    }

    /// The outline of the dragged rectangle.
    pub fn draw(&self, editor: &EditorContext) -> (shapes: Vec<Rectangle>)
        ensures
            shapes@ == self.outline(),
    {
        let mut shapes: Vec<Rectangle> = Vec::new();
        if self.mouse_down {
            let thickness = Scalar::one();
            let size = self.mouse_current_pos.minus(self.mouse_pressed_pos);
            let (x_start, x_end) = if size.x.is_sign_negative() {
                (self.mouse_current_pos.x, self.mouse_pressed_pos.x)
            } else {
                (self.mouse_pressed_pos.x, self.mouse_current_pos.x)
            };
            let (y_start, y_end) = if size.y.is_sign_negative() {
                (self.mouse_current_pos.y, self.mouse_pressed_pos.y)
            } else {
                (self.mouse_pressed_pos.y, self.mouse_current_pos.y)
            };
            let width = size.x.abs();
            let height = size.y.abs();
            shapes.push(
                Rectangle {
                    pos: Vec2::new(x_start, y_start),
                    size: Vec2::new(width, thickness),
                    colour: Colour::Red,
                },
            );
            shapes.push(
                Rectangle {
                    pos: Vec2::new(x_start, y_start),
                    size: Vec2::new(thickness, height),
                    colour: Colour::Red,
                },
            );
            shapes.push(
                Rectangle {
                    pos: Vec2::new(x_end, y_start),
                    size: Vec2::new(thickness, height.plus(thickness)),
                    colour: Colour::Red,
                },
            );
            shapes.push(
                Rectangle {
                    pos: Vec2::new(x_start, y_end),
                    size: Vec2::new(width.plus(thickness), thickness),
                    colour: Colour::Red,
                },
            );
        }
        assert(shapes@ =~= self.outline());
        shapes
    }
}

impl PlatformTool {
    /// A platform tool with no drag in progress.
    pub open spec fn idle() -> PlatformTool {
        PlatformTool { mouse_pressed_pos: origin(), mouse_down: false, preview_platform: None }
    }

    /// Whether a drag that ends at `mouse_pos` began on the same vertical or
    /// the same horizontal line.
    pub open spec fn along_a_line(self, mouse_pos: Vec2) -> bool {
        self.mouse_pressed_pos.x.num_eq(mouse_pos.x) || self.mouse_pressed_pos.y.num_eq(
            mouse_pos.y,
        )
    }

    /// The platform that a release at `mouse_pos` adds, if any: the preview,
    /// unless its width or its height is zero, or the drag began and ended
    /// on one vertical or one horizontal line.
    pub open spec fn committed(self, mouse_pos: Vec2) -> Option<Platform> {
        match self.preview_platform {
            Some(p) => if self.along_a_line(mouse_pos) || p.size.x.magnitude() == 0
                || p.size.y.magnitude() == 0 {
                None
            } else {
                Some(p)
            },
            None => None,
        }
    }

    pub fn new() -> (tool: PlatformTool)
        ensures
            tool == Self::idle(),
    {
        PlatformTool {
            mouse_pressed_pos: Vec2::splat(Scalar::zero()),
            mouse_down: false,
            preview_platform: None,
        }
    }

    /// Notes the corner where the drag begins.
    pub fn on_click(&mut self, mouse_pos: Vec2, editor: &mut EditorContext)
        ensures
            *final(self) == (PlatformTool { mouse_pressed_pos: mouse_pos, ..*old(self) }),
            *final(editor) == *old(editor),
    {
        self.mouse_pressed_pos = mouse_pos;
    }

    /// Ends the drag. The preview is given up; it joins the level unless it
    /// has no area, or the drag began and ended on one vertical or one
    /// horizontal line. Without a preview nothing happens.
    pub fn on_mouse_release(&mut self, mouse_pos: Vec2, editor: &mut EditorContext)
        ensures
            *final(self) == (PlatformTool { preview_platform: None, ..*old(self) }),
            final(editor)@.level.platforms == match old(self).committed(mouse_pos) {
                Some(p) => old(editor)@.level.platforms.push(p),
                None => old(editor)@.level.platforms,
            },
            final(editor)@.level.player_start == old(editor)@.level.player_start,
            final(editor)@.selection == old(editor)@.selection,
    {
        let preview = self.preview_platform;
        self.preview_platform = None;
        if let Some(p) = preview {
            let same_x = self.mouse_pressed_pos.x.eq_num(mouse_pos.x);
            let same_y = self.mouse_pressed_pos.y.eq_num(mouse_pos.y);
            if !same_x && !same_y && !p.size.x.is_zero() && !p.size.y.is_zero() {
                editor.add_platform(p);
            }
        }
    }

    /// Whether no platform is being drawn.
    pub fn can_switch(&self) -> (free: bool)
        ensures
            free == (self.preview_platform is None),
    {
        self.preview_platform.is_none()
    }

    /// Notes whether the button is held, and while it is, spans the preview
    /// from the corner of the click to the cursor.
    pub fn update(&mut self, input: &Input, editor: &mut EditorContext)
        ensures
            *final(self) == (PlatformTool {
                mouse_down: input.left_down,
                preview_platform: if input.left_down {
                    Some(Platform::spanned(old(self).mouse_pressed_pos, input.mouse_pos))
                } else {
                    old(self).preview_platform
                },
                ..*old(self)
            }),
            *final(editor) == *old(editor),
    {
        self.mouse_down = input.left_down;
        if self.mouse_down {
            self.preview_platform = Some(
                Platform::from_corners(self.mouse_pressed_pos, input.mouse_pos),
            );
        }
    }

    /// The preview, if there is one.
    pub fn draw(&self, editor: &EditorContext) -> (shapes: Vec<Rectangle>)
        ensures
            shapes@ == match self.preview_platform {
                Some(p) => seq![Rectangle { pos: p.pos, size: p.size, colour: Colour::White }],
                None => Seq::empty(),
            },
    {
        let mut shapes: Vec<Rectangle> = Vec::new();
        if let Some(p) = self.preview_platform {
            shapes.push(p.draw());
        }
        assert(shapes@ =~= match self.preview_platform {
            Some(p) => seq![Rectangle { pos: p.pos, size: p.size, colour: Colour::White }],
            None => Seq::empty(),
        });
        shapes
    }
}

impl MoveTool {
    /// A move tool with no drag in progress.
    pub open spec fn idle() -> MoveTool {
        MoveTool { last_recorded_mouse: origin(), total_move_delta: origin(), mouse_down: false }
    }

    /// The tool after a frame with the cursor at `cursor`: during a drag the
    /// way from the last cursor position is added to the total.
    pub open spec fn followed(self, cursor: Vec2) -> MoveTool {
        if self.mouse_down {
            MoveTool {
                last_recorded_mouse: cursor,
                total_move_delta: self.total_move_delta.spec_plus(
                    cursor.spec_minus(self.last_recorded_mouse),
                ),
                mouse_down: true,
            }
        } else {
            self
        }
    }

    pub fn new() -> (tool: MoveTool)
        ensures
            tool == Self::idle(),
    {
        MoveTool {
            last_recorded_mouse: Vec2::splat(Scalar::zero()),
            total_move_delta: Vec2::splat(Scalar::zero()),
            mouse_down: false,
        }
    }

    /// Begins a drag at `mouse_pos`.
    pub fn on_click(&mut self, mouse_pos: Vec2, editor: &mut EditorContext)
        ensures
            *final(self) == (MoveTool {
                last_recorded_mouse: mouse_pos,
                mouse_down: true,
                ..*old(self)
            }),
            *final(editor) == *old(editor),
    {
        self.last_recorded_mouse = mouse_pos;
        self.mouse_down = true;
    }

    /// Ends the drag: every selected platform moves by the total, and the
    /// total starts again at zero.
    pub fn on_mouse_release(&mut self, mouse_pos: Vec2, editor: &mut EditorContext)
        ensures
            *final(self) == (MoveTool {
                total_move_delta: origin(),
                mouse_down: false,
                ..*old(self)
            }),
            final(editor)@.level.platforms == moved(
                old(editor)@.level.platforms,
                old(editor)@.selection,
                old(self).total_move_delta,
            ),
            final(editor)@.level.player_start == old(editor)@.level.player_start,
            final(editor)@.selection == old(editor)@.selection,
    {
        editor.move_selected_platforms(self.total_move_delta);
        self.total_move_delta = Vec2::splat(Scalar::zero());
        self.mouse_down = false;
    }

    /// Adds the way the cursor went since the last frame, during a drag.
    pub fn update(&mut self, input: &Input, editor: &mut EditorContext)
        ensures
            *final(self) == old(self).followed(input.mouse_pos),
            *final(editor) == *old(editor),
    {
        let new_mouse_pos = input.mouse_pos;
        if self.mouse_down {
            let delta = new_mouse_pos.minus(self.last_recorded_mouse);
            self.total_move_delta = self.total_move_delta.plus(delta);
            self.last_recorded_mouse = new_mouse_pos;
        }
    }

    /// Whether no drag is in progress.
    pub fn can_switch(&self) -> (free: bool)
        ensures
            free == !self.mouse_down,
    {
        !self.mouse_down
    }

    /// During a drag, where each selected platform will land.
    pub fn draw(&self, editor: &EditorContext) -> (shapes: Vec<Rectangle>)
        ensures
            shapes@ == if self.mouse_down {
                ghosts(editor@.level.platforms, editor@.selection, self.total_move_delta)
            } else {
                Seq::empty()
            },
    {
        let mut shapes: Vec<Rectangle> = Vec::new();
        if self.mouse_down {
            let platforms = editor.get_level().get_platforms();
            let selection = editor.get_selection();
            let mut i: usize = 0;
            proof {
                assert(platforms@.take(0) =~= Seq::<Platform>::empty());
            }
            while i < platforms.len()
                invariant
                    i <= platforms@.len(),
                    shapes@ == ghosts(platforms@.take(i as int), selection@, self.total_move_delta),
                decreases platforms@.len() - i,
            {
                proof {
                    assert(platforms@.take(i + 1).drop_last() =~= platforms@.take(i as int));
                    assert(platforms@.take(i + 1).last() == platforms@[i as int]);
                }
                if is_selected(selection, i) {
                    let p: Platform = platforms[i];
                    shapes.push(
                        Rectangle {
                            pos: p.pos.plus(self.total_move_delta),
                            size: p.size,
                            colour: Colour::Faint,
                        },
                    );
                }
                i += 1;
            }
            proof {
                assert(platforms@.take(i as int) =~= platforms@);
            }
        }
        shapes
    }
}


impl Tool {
    /// Whether the tool can be put away: no gesture is in progress.
    pub open spec fn free(self) -> bool {
        match self {
            Tool::Selector(_) => true,
            Tool::PlatformTool(t) => t.preview_platform is None,
            Tool::MoveTool(t) => !t.mouse_down,
        }
    }

    /// The tool after the button went down at `mouse_pos`.
    pub open spec fn clicked(self, mouse_pos: Vec2) -> Tool {
        match self {
            Tool::Selector(t) => Tool::Selector(
                Selector { mouse_pressed_pos: mouse_pos, mouse_down: true, ..t },
            ),
            Tool::PlatformTool(t) => Tool::PlatformTool(
                PlatformTool { mouse_pressed_pos: mouse_pos, ..t },
            ),
            Tool::MoveTool(t) => Tool::MoveTool(
                MoveTool { last_recorded_mouse: mouse_pos, mouse_down: true, ..t },
            ),
        }
    }

    /// The tool after the button went up.
    pub open spec fn released(self) -> Tool {
        match self {
            Tool::Selector(t) => Tool::Selector(Selector { mouse_down: false, ..t }),
            Tool::PlatformTool(t) => Tool::PlatformTool(
                PlatformTool { preview_platform: None, ..t },
            ),
            Tool::MoveTool(t) => Tool::MoveTool(
                MoveTool { total_move_delta: origin(), mouse_down: false, ..t },
            ),
        }
    }

    /// The session after the button went up at `mouse_pos`: what the gesture
    /// commits.
    pub open spec fn released_context(self, mouse_pos: Vec2, ctx: ContextView) -> ContextView {
        match self {
            Tool::Selector(t) => ContextView {
                selection: overlapping(ctx.level.platforms, t.region().0, t.region().1),
                ..ctx
            },
            Tool::PlatformTool(t) => match t.committed(mouse_pos) {
                Some(p) => ContextView {
                    level: LevelView {
                        platforms: ctx.level.platforms.push(p),
                        ..ctx.level
                    },
                    ..ctx
                },
                None => ctx,
            },
            Tool::MoveTool(t) => ContextView {
                level: LevelView {
                    platforms: moved(ctx.level.platforms, ctx.selection, t.total_move_delta),
                    ..ctx.level
                },
                ..ctx
            },
        }
    }

    /// The tool after a frame.
    pub open spec fn updated(self, input: Input) -> Tool {
        match self {
            Tool::Selector(t) => Tool::Selector(
                Selector { mouse_current_pos: input.mouse_pos, ..t },
            ),
            Tool::PlatformTool(t) => Tool::PlatformTool(
                PlatformTool {
                    mouse_down: input.left_down,
                    preview_platform: if input.left_down {
                        Some(Platform::spanned(t.mouse_pressed_pos, input.mouse_pos))
                    } else {
                        t.preview_platform
                    },
                    ..t
                },
            ),
            Tool::MoveTool(t) => Tool::MoveTool(t.followed(input.mouse_pos)),
        }
    }

    /// What the tool shows of the gesture in progress.
    pub open spec fn shapes(self, ctx: ContextView) -> Seq<Rectangle> {
        match self {
            Tool::Selector(t) => t.outline(),
            Tool::PlatformTool(t) => match t.preview_platform {
                Some(p) => seq![Rectangle { pos: p.pos, size: p.size, colour: Colour::White }],
                None => Seq::empty(),
            },
            Tool::MoveTool(t) => if t.mouse_down {
                ghosts(ctx.level.platforms, ctx.selection, t.total_move_delta)
            } else {
                Seq::empty()
            },
        }
    }

    pub fn on_click(&mut self, mouse_pos: Vec2, editor: &mut EditorContext)
        ensures
            *final(self) == old(self).clicked(mouse_pos),
            *final(editor) == *old(editor),
    {
        match self {
            Tool::Selector(t) => t.on_click(mouse_pos, editor),
            Tool::PlatformTool(t) => t.on_click(mouse_pos, editor),
            Tool::MoveTool(t) => t.on_click(mouse_pos, editor),
        }
    }

    pub fn on_mouse_release(&mut self, mouse_pos: Vec2, editor: &mut EditorContext)
        ensures
            *final(self) == old(self).released(),
            final(editor)@ == old(self).released_context(mouse_pos, old(editor)@),
    {
        match self {
            Tool::Selector(t) => t.on_mouse_release(mouse_pos, editor),
            Tool::PlatformTool(t) => t.on_mouse_release(mouse_pos, editor),
            Tool::MoveTool(t) => t.on_mouse_release(mouse_pos, editor),
        }
    }

    pub fn can_switch(&self) -> (free: bool)
        ensures
            free == self.free(),
    {
        match self {
            Tool::Selector(t) => t.can_switch(),
            Tool::PlatformTool(t) => t.can_switch(),
            Tool::MoveTool(t) => t.can_switch(),
        }
    }

    pub fn update(&mut self, input: &Input, editor: &mut EditorContext)
        ensures
            *final(self) == old(self).updated(*input),
            *final(editor) == *old(editor),
    {
        match self {
            Tool::Selector(t) => t.update(input, editor),
            Tool::PlatformTool(t) => t.update(input, editor),
            Tool::MoveTool(t) => t.update(input, editor),
        }
    }

    pub fn draw(&self, editor: &EditorContext) -> (shapes: Vec<Rectangle>)
        ensures
            shapes@ == self.shapes(editor@),
    {
        match self {
            Tool::Selector(t) => t.draw(editor),
            Tool::PlatformTool(t) => t.draw(editor),
            Tool::MoveTool(t) => t.draw(editor),
        }
    }
}

/// Selection validity: whatever a tool commits on release, every selected
/// index still names a platform.
pub proof fn lemma_release_keeps_selection_valid(tool: Tool, mouse_pos: Vec2, ctx: ContextView)
    requires
        ctx.wf(),
        ctx.level.platforms.len() <= usize::MAX,
    ensures
        tool.released_context(mouse_pos, ctx).wf(),
{
    match tool {
        Tool::Selector(t) => {
            lemma_overlapping_members(ctx.level.platforms, t.region().0, t.region().1);
        },
        Tool::PlatformTool(t) => {},
        Tool::MoveTool(t) => {},
    }
}

/// Zero-area discard: a platform tool whose drag began and ended on one
/// vertical or one horizontal line, or whose preview has no width or no
/// height, commits nothing, so the level keeps its platforms.
pub proof fn lemma_zero_area_discarded(tool: PlatformTool, mouse_pos: Vec2, ctx: ContextView)
    requires
        tool.along_a_line(mouse_pos) || match tool.preview_platform {
            Some(p) => p.size.x.magnitude() == 0 || p.size.y.magnitude() == 0,
            None => true,
        },
    ensures
        tool.committed(mouse_pos) is None,
        Tool::PlatformTool(tool).released_context(mouse_pos, ctx) == ctx,
{
}

} // verus!
