//! What a frame shows and where: the playing field scaled to the space it
//! is given, the statistics, the legend and the overlay of a game that is
//! paused or over. Painting the result is left to the terminal layer.

use crate::config::{Color, GameConfig};
use crate::game::{Game, GameState, GameView};
use crate::grid::Position;
use crate::layout::{split, Axis, Constraint, Rect};
use vstd::prelude::*;

verus! {

/// What a cell of the playing field shows.
#[derive(Debug, Clone, Copy, PartialEq, Eq, Structural)]
pub enum Glyph {
    Head,
    Body,
    Food,
}

/// One cell of the playing field on the screen. Without a colour it is drawn
/// in the terminal's own.
#[derive(Debug, Clone, Copy, PartialEq, Eq)]
pub struct Cell {
    pub area: Rect,
    pub glyph: Glyph,
    pub color: Option<Color>,
}

/// How the board is scaled and where its frame stands in the space given.
#[derive(Debug, Clone, Copy, PartialEq, Eq, Structural)]
pub struct BoardLayout {
    /// The height of one board cell on the screen; it is twice as wide.
    pub cell_size: u16,
    /// The frame around the board, border included.
    pub frame: Rect,
}

/// What the panel of the playing field holds.
#[derive(Debug, Clone, PartialEq, Eq)]
pub enum GameAreaContent {
    /// The board does not fit: a warning with the size needed and the size
    /// at hand.
    TooSmall { area: Rect, min_width: u32, min_height: u32, width: u16, height: u16 },
    /// The board in its frame. For every segment of the snake, head first,
    /// the cell it is drawn in; a segment off the board has none.
    Board { layout: BoardLayout, border: Option<Color>, segments: Vec<Option<Cell>>, food: Option<Cell> },
}

/// The panel of the playing field.
#[derive(Debug, Clone, PartialEq, Eq)]
pub struct GameArea {
    pub area: Rect,
    pub content: GameAreaContent,
}

/// The panel of the statistics: each number with the colour it is shown in.
#[derive(Debug, Clone, Copy, PartialEq, Eq)]
pub struct ScorePanel {
    pub area: Rect,
    pub border: Color,
    pub score: u32,
    pub score_color: Color,
    pub high_score: u32,
    pub high_score_color: Color,
    pub length: usize,
    pub length_color: Color,
}

/// The panel of the key legend.
#[derive(Debug, Clone, Copy, PartialEq, Eq, Structural)]
pub struct ControlsPanel {
    pub area: Rect,
    pub border: Color,
}

/// The box laid over the frame while the game does not run.
#[derive(Debug, Clone, Copy, PartialEq, Eq, Structural)]
pub enum Overlay {
    Paused { area: Rect, border: Color },
    GameOver { area: Rect, border: Color, score: u32, score_color: Color },
}

/// Everything that one frame shows.
#[derive(Debug, Clone, PartialEq, Eq)]
pub struct Scene {
    pub game_area: GameArea,
    pub score: ScorePanel,
    pub controls: ControlsPanel,
    pub overlay: Option<Overlay>,
}

/// The share of the frame, in percent, that the box of a paused game takes
/// across and down.
pub const PAUSE_OVERLAY_PERCENT: (u16, u16) = (30, 20);

/// The share of the frame, in percent, that the box of a finished game
/// takes across and down.
pub const GAME_OVER_OVERLAY_PERCENT: (u16, u16) = (40, 30);

impl BoardLayout {
    /// A board of `board_width` by `board_height` cells, each two columns
    /// wide and one row high, fits into `inner` together with its border.
    pub open spec fn fits(inner: Rect, board_width: u16, board_height: u16) -> bool {
        inner.width >= board_width * 2 + 2 && inner.height >= board_height + 2
    }

    /// The largest scale at which the board fits into `inner`, and at
    /// least 1.
    pub open spec fn scale(inner: Rect, board_width: u16, board_height: u16) -> int {
        let across = (inner.width as int / 2) / (board_width as int);
        let down = (inner.height as int) / (board_height as int);
        let smaller = if across < down { across } else { down };
        if smaller < 1 { 1 } else { smaller }
    }

    /// The board at its scale, framed and centred in `inner`.
    pub open spec fn centred(inner: Rect, board_width: u16, board_height: u16) -> BoardLayout {
        let cell_size = Self::scale(inner, board_width, board_height);
        let width = board_width * cell_size * 2 + 2;
        let height = board_height * cell_size + 2;
        let left = if inner.width > width { (inner.width - width) / 2 } else { 0 };
        let top = if inner.height > height { (inner.height - height) / 2 } else { 0 };
        BoardLayout {
            cell_size: cell_size as u16,
            frame: Rect::bounded(
                (inner.x + left) as u16,
                (inner.y + top) as u16,
                (if width > u16::MAX { u16::MAX as int } else { width }) as u16,
                (if height > u16::MAX { u16::MAX as int } else { height }) as u16,
            ),
        }
    }

    /// Where the board cell `at` is drawn, if it is drawn: a cell off a
    /// board of `board_width` by `board_height` cells is not, nor one that
    /// has no room left on the screen.
    pub open spec fn cell(
        self,
        board_width: u16,
        board_height: u16,
        at: Position,
        glyph: Glyph,
        color: Option<Color>,
    ) -> Option<Cell> {
        let origin = self.frame.inside_border();
        let area = Rect::bounded(
            (origin.x + at.x * self.cell_size * 2) as u16,
            (origin.y + at.y * self.cell_size) as u16,
            self.cell_size,
            self.cell_size,
        );
        if at.within(board_width, board_height) && area.width > 0 && area.height > 0 {
            Some(Cell { area, glyph, color })
        } else {
            None
        }
    }

    /// The scale is such that the board, without its border, takes no more
    /// room than `inner` has.
    pub proof fn lemma_scale_fits(inner: Rect, board_width: u16, board_height: u16)
        requires
            board_width >= 1,
            board_height >= 1,
            Self::fits(inner, board_width, board_height),
        ensures
            1 <= Self::scale(inner, board_width, board_height),
            board_width * Self::scale(inner, board_width, board_height) * 2 <= inner.width,
            board_height * Self::scale(inner, board_width, board_height) <= inner.height,
    {
        let w = inner.width as int;
        let h = inner.height as int;
        let bw = board_width as int;
        let bh = board_height as int;
        let across = (w / 2) / bw;
        let down = h / bh;
        let s = Self::scale(inner, board_width, board_height);
        assert(bw * across <= w / 2) by (nonlinear_arith)
            requires
                bw >= 1,
                w >= 0,
                across == (w / 2) / bw,
        ;
        assert(bh * down <= h) by (nonlinear_arith)
            requires
                bh >= 1,
                h >= 0,
                down == h / bh,
        ;
        assert(across >= 1) by (nonlinear_arith)
            requires
                bw >= 1,
                w / 2 >= bw,
                across == (w / 2) / bw,
        ;
        assert(down >= 1) by (nonlinear_arith)
            requires
                bh >= 1,
                h >= bh,
                down == h / bh,
        ;
        assert(bw * s <= bw * across) by (nonlinear_arith)
            requires
                bw >= 1,
                s <= across,
        ;
        assert(bh * s <= bh * down) by (nonlinear_arith)
            requires
                bh >= 1,
                s <= down,
        ;
    }
}

impl GameArea {
    /// This panel is what the playing field looks like in `area`: the
    /// warning where the board does not fit inside the panel's border, and
    /// else the framed board with a cell for every segment of the snake that
    /// lies on the board, the head told apart, and one for the food.
    pub open spec fn shows(self, game: GameView, config: GameConfig, area: Rect) -> bool {
        let inner = area.inside_border();
        let layout = BoardLayout::centred(inner, config.board_width, config.board_height);
        &&& self.area == area
        &&& !BoardLayout::fits(inner, config.board_width, config.board_height) ==> {
            self.content == (GameAreaContent::TooSmall {
                area: inner,
                min_width: (config.board_width * 2 + 2) as u32,
                min_height: (config.board_height + 2) as u32,
                width: inner.width,
                height: inner.height,
            })
        }
        &&& BoardLayout::fits(inner, config.board_width, config.board_height) ==> {
            &&& self.content is Board
            &&& self.content->layout == layout
            &&& self.content->border == TuiRenderer::tint(config, config.border_color)
            &&& self.content->segments@.len() == game.snake.body.len()
            &&& forall|i: int|
                0 <= i < game.snake.body.len() ==> #[trigger] self.content->segments@[i] == layout.cell(
                    config.board_width,
                    config.board_height,
                    game.snake.body[i],
                    if i == 0 { Glyph::Head } else { Glyph::Body },
                    TuiRenderer::tint(config, config.snake_color),
                )
            &&& self.content->food == layout.cell(
                config.board_width,
                config.board_height,
                game.food,
                Glyph::Food,
                TuiRenderer::tint(config, config.food_color),
            )
        }
    }
}

impl ScorePanel {
    /// The statistics of `game` and the high score on record, in `area`.
    pub open spec fn of(game: GameView, config: GameConfig, area: Rect) -> ScorePanel {
        ScorePanel {
            area,
            border: TuiRenderer::shade(config, config.border_color),
            score: game.score,
            score_color: TuiRenderer::shade(config, Color::Yellow),
            high_score: config.high_score,
            high_score_color: TuiRenderer::shade(config, Color::Magenta),
            length: game.snake.body.len() as usize,
            length_color: TuiRenderer::shade(config, Color::Cyan),
        }
    }
}

impl ControlsPanel {
    /// The legend in `area`.
    pub open spec fn of(config: GameConfig, area: Rect) -> ControlsPanel {
        ControlsPanel { area, border: TuiRenderer::shade(config, config.border_color) }
    }
}

impl Overlay {
    /// Where the box stands.
    pub open spec fn area(self) -> Rect {
        match self {
            Overlay::Paused { area, .. } => area,
            Overlay::GameOver { area, .. } => area,
        }
    }

    /// `overlay` is what lies over the frame of `game`: nothing while it
    /// runs, the pause box while it is paused, and after its end the box
    /// with the final score. Where the box stands is left open.
    pub open spec fn shows(overlay: Option<Overlay>, game: GameView, config: GameConfig) -> bool {
        match game.state {
            GameState::Playing => overlay is None,
            GameState::Paused => overlay matches Some(o) && o == (Overlay::Paused {
                area: o.area(),
                border: TuiRenderer::shade(config, config.border_color),
            }),
            GameState::GameOver => overlay matches Some(o) && o == (Overlay::GameOver {
                area: o.area(),
                border: TuiRenderer::shade(config, Color::Red),
                score: game.score,
                score_color: TuiRenderer::shade(config, Color::Yellow),
            }),
        }
    }
}

impl Scene {
    /// This scene is what a frame that takes up `frame` shows of `game`:
    /// every part is what its renderer makes of `game` and `config` in the
    /// area that the part holds. The playing field spans the height of the
    /// frame, and the statistics stand in one column with the legend. How
    /// wide the parts are and where the column is cut is left open.
    pub open spec fn shows(self, game: GameView, config: GameConfig, frame: Rect) -> bool {
        &&& self.game_area.area.valid()
        &&& self.game_area.area.y == frame.y
        &&& frame.valid() ==> self.game_area.area.height == frame.height
        &&& self.score.area.x == self.controls.area.x
        &&& self.score.area.width == self.controls.area.width
        &&& self.game_area.shows(game, config, self.game_area.area)
        &&& self.score == ScorePanel::of(game, config, self.score.area)
        &&& self.controls == ControlsPanel::of(config, self.controls.area)
        &&& Overlay::shows(self.overlay, game, config)
    }
}

/// Something that can bring a game to the screen.
pub trait Renderer {
    type Error;

    fn render(&mut self, game: &Game, config: &GameConfig) -> Result<(), Self::Error>;

    fn clear(&mut self) -> Result<(), Self::Error>;
}

/// Lays out the frames of the game.
pub struct TuiRenderer;

impl Default for TuiRenderer {
    fn default() -> Self {
        Self::new()
    }
}

impl TuiRenderer {
    /// A renderer.
    pub fn new() -> Self {
        Self
    }

    /// The colour of something that is drawn in `color` when colours are on
    /// and in the terminal's own colour when they are off.
    pub open spec fn tint(config: GameConfig, color: Color) -> Option<Color> {
        if config.enable_colors { Some(color) } else { None }
    }

    /// The colour of something that is drawn in `color` when colours are on
    /// and in white when they are off.
    pub open spec fn shade(config: GameConfig, color: Color) -> Color {
        if config.enable_colors { color } else { Color::White }
    }

    fn tinted(config: &GameConfig, color: Color) -> (tinted: Option<Color>)
        ensures
            tinted == Self::tint(*config, color),
    {
        if config.enable_colors { Some(color) } else { None }
    }

    fn shaded(config: &GameConfig, color: Color) -> (shaded: Color)
        ensures
            shaded == Self::shade(*config, color),
    {
        if config.enable_colors { color } else { Color::White }
    }

    /// Scales the board to the space inside a panel and centres its frame
    /// there, or finds that the board does not fit.
    pub fn layout_board(inner: Rect, board_width: u16, board_height: u16) -> (layout: Option<BoardLayout>)
        requires
            inner.valid(),
            board_width >= 1,
            board_height >= 1,
        ensures
            layout == if BoardLayout::fits(inner, board_width, board_height) {
                Some(BoardLayout::centred(inner, board_width, board_height))
            } else {
                None
            },
    {
        let min_width: u32 = board_width as u32 * 2 + 2;
        let min_height: u32 = board_height as u32 + 2;
        if (inner.width as u32) < min_width || (inner.height as u32) < min_height {
            return None;
        }
        let max_cell_width: u16 = inner.width / 2 / board_width;
        let max_cell_height: u16 = inner.height / board_height;
        let smaller: u16 = if max_cell_width < max_cell_height { max_cell_width } else { max_cell_height };
        let cell_size: u16 = if smaller < 1 { 1 } else { smaller };
        proof {
            BoardLayout::lemma_scale_fits(inner, board_width, board_height);
        }
        let game_width: u16 = board_width * cell_size * 2;
        let game_height: u16 = board_height * cell_size;
        let framed_width: u16 = game_width.saturating_add(2);
        let framed_height: u16 = game_height.saturating_add(2);
        let offset_x: u16 = inner.width.saturating_sub(framed_width) / 2;
        let offset_y: u16 = inner.height.saturating_sub(framed_height) / 2;
        let frame = Rect::new(inner.x + offset_x, inner.y + offset_y, framed_width, framed_height);
        Some(BoardLayout { cell_size, frame })
    }

    /// The cell that the board cell `at` is drawn in, if it is drawn.
    fn place_cell(
        layout: &BoardLayout,
        board_width: u16,
        board_height: u16,
        at: Position,
        glyph: Glyph,
        color: Option<Color>,
    ) -> (cell: Option<Cell>)
        requires
            layout.cell_size >= 1,
            board_width * layout.cell_size * 2 + layout.frame.x <= u16::MAX,
            board_height * layout.cell_size + layout.frame.y <= u16::MAX,
        ensures
            cell == layout.cell(board_width, board_height, at, glyph, color),
    {
        if at.x >= board_width || at.y >= board_height {
            return None;
        }
        let origin = layout.frame.inside_border();
        proof {
            let cs = layout.cell_size as int;
            assert(at.x * cs * 2 <= (board_width - 1) * cs * 2) by (nonlinear_arith)
                requires
                    0 <= at.x <= board_width - 1,
                    cs >= 0,
            ;
            assert((board_width - 1) * cs * 2 == board_width * cs * 2 - 2 * cs) by (nonlinear_arith);
            assert(at.y * cs <= (board_height - 1) * cs) by (nonlinear_arith)
                requires
                    0 <= at.y <= board_height - 1,
                    cs >= 0,
            ;
            assert((board_height - 1) * cs == board_height * cs - cs) by (nonlinear_arith);
        }
        let x: u16 = origin.x + at.x * layout.cell_size * 2;
        let y: u16 = origin.y + at.y * layout.cell_size;
        let area = Rect::new(x, y, layout.cell_size, layout.cell_size);
        if area.width > 0 && area.height > 0 {
            Some(Cell { area, glyph, color })
        } else {
            None
        }
    }

    /// The panel of the playing field in `area`.
    pub fn render_game_area(&self, game: &Game, config: &GameConfig, area: Rect) -> (panel: GameArea)
        requires
            area.valid(),
            config.board_width >= 1,
            config.board_height >= 1,
        ensures
            panel.shows(game@, *config, area),
    {
        let outer_inner = area.inside_border();
        proof {
            area.lemma_inside_border();
        }
        let layout = match Self::layout_board(outer_inner, config.board_width, config.board_height) {
            None => {
                return GameArea {
                    area,
                    content: GameAreaContent::TooSmall {
                        area: outer_inner,
                        min_width: config.board_width as u32 * 2 + 2,
                        min_height: config.board_height as u32 + 2,
                        width: outer_inner.width,
                        height: outer_inner.height,
                    },
                };
            },
            Some(layout) => layout,
        };
        proof {
            BoardLayout::lemma_scale_fits(outer_inner, config.board_width, config.board_height);
        }
        let snake_color = Self::tinted(config, config.snake_color);
        let body = game.snake().body();
        let count: usize = body.len();
        let mut segments: Vec<Option<Cell>> = Vec::new();
        let mut i: usize = 0;
        while i < count
            invariant
                i <= count,
                count == body@.len(),
                body@ == game@.snake.body,
                snake_color == Self::tint(*config, config.snake_color),
                layout.cell_size >= 1,
                config.board_width * layout.cell_size * 2 + layout.frame.x <= u16::MAX,
                config.board_height * layout.cell_size + layout.frame.y <= u16::MAX,
                segments@.len() == i,
                forall|j: int|
                    0 <= j < i ==> #[trigger] segments@[j] == layout.cell(
                        config.board_width,
                        config.board_height,
                        game@.snake.body[j],
                        if j == 0 { Glyph::Head } else { Glyph::Body },
                        snake_color,
                    ),
            decreases count - i,
        {
            let glyph = if i == 0 { Glyph::Head } else { Glyph::Body };
            let cell = Self::place_cell(
                &layout,
                config.board_width,
                config.board_height,
                body[i],
                glyph,
                snake_color,
            );
            segments.push(cell);
            i += 1;
        }
        let food = Self::place_cell(
            &layout,
            config.board_width,
            config.board_height,
            game.food(),
            Glyph::Food,
            Self::tinted(config, config.food_color),
        );
        GameArea {
            area,
            content: GameAreaContent::Board {
                layout,
                border: Self::tinted(config, config.border_color),
                segments,
                food,
            },
        }
    }

    /// The panel of the statistics in `area`.
    pub fn render_score_area(&self, game: &Game, config: &GameConfig, area: Rect) -> (panel: ScorePanel)
        ensures
            panel == ScorePanel::of(game@, *config, area),
    {
        ScorePanel {
            area,
            border: Self::shaded(config, config.border_color),
            score: game.score(),
            score_color: Self::shaded(config, Color::Yellow),
            high_score: config.high_score,
            high_score_color: Self::shaded(config, Color::Magenta),
            length: game.snake().len(),
            length_color: Self::shaded(config, Color::Cyan),
        }
    }

    /// The panel of the key legend in `area`.
    pub fn render_controls_area(&self, config: &GameConfig, area: Rect) -> (panel: ControlsPanel)
        ensures
            panel == ControlsPanel::of(*config, area),
    {
        ControlsPanel { area, border: Self::shaded(config, config.border_color) }
    }

    /// What lies over a frame that takes up `area`.
    pub fn render_overlay(&self, game: &Game, config: &GameConfig, area: Rect) -> (overlay: Option<Overlay>)
        ensures
            Overlay::shows(overlay, game@, *config),
    {
        match game.state() {
            GameState::Paused => {
                let popup_area = self.centered_rect(PAUSE_OVERLAY_PERCENT.0, PAUSE_OVERLAY_PERCENT.1, area);
                Some(Overlay::Paused { area: popup_area, border: Self::shaded(config, config.border_color) })
            },
            GameState::GameOver => {
                let popup_area = self.centered_rect(
                    GAME_OVER_OVERLAY_PERCENT.0,
                    GAME_OVER_OVERLAY_PERCENT.1,
                    area,
                );
                Some(
                    Overlay::GameOver {
                        area: popup_area,
                        border: Self::shaded(config, Color::Red),
                        score: game.score(),
                        score_color: Self::shaded(config, Color::Yellow),
                    },
                )
            },
            GameState::Playing => None,
        }
    }

    /// What is asked of the three parts along one axis so that the middle
    /// one takes `percent` of the whole and the other two share the rest.
    pub fn centered_constraints(percent: u16) -> (constraints: Vec<Constraint>)
        requires
            percent <= 100,
        ensures
            constraints@ == seq![
                Constraint::Percentage(((100 - percent) / 2) as u16),
                Constraint::Percentage(percent),
                Constraint::Percentage(((100 - percent) / 2) as u16),
            ],
    {
        let margin: u16 = (100 - percent) / 2;
        vec![Constraint::Percentage(margin), Constraint::Percentage(percent), Constraint::Percentage(margin)]
    }

    /// The middle of `r`: of three rows the second, and of its three columns
    /// the second, with the middle ones as large as the percentages say.
    fn centered_rect(&self, percent_x: u16, percent_y: u16, r: Rect) -> Rect
        requires
            percent_x <= 100,
            percent_y <= 100,
    {
        let rows = split(Axis::Vertical, &Self::centered_constraints(percent_y), r);
        let columns = split(Axis::Horizontal, &Self::centered_constraints(percent_x), rows[1]);
        columns[1]
    }

    /// The scene of one frame that takes up `area`: the playing field on
    /// the left, the statistics above the legend on the right, and the
    /// overlay, if any, on top.
    pub fn draw_frame(&self, area: Rect, game: &Game, config: &GameConfig) -> (scene: Scene)
        requires
            config.board_width >= 1,
            config.board_height >= 1,
        ensures
            scene.shows(game@, *config, area),
    {
        let chunks = split(Axis::Horizontal, &vec![Constraint::Min(50), Constraint::Length(25)], area);
        let side_chunks = split(
            Axis::Vertical,
            &vec![Constraint::Length(6), Constraint::Min(8)],
            chunks[1],
        );
        let field = Rect::new(chunks[0].x, chunks[0].y, chunks[0].width, chunks[0].height);
        Scene {
            game_area: self.render_game_area(game, config, field),
            score: self.render_score_area(game, config, side_chunks[0]),
            controls: self.render_controls_area(config, side_chunks[1]),
            overlay: self.render_overlay(game, config, area),
        }
    }
}

impl Renderer for TuiRenderer {
    type Error = std::io::Error;

    fn render(&mut self, _game: &Game, _config: &GameConfig) -> (result: Result<(), Self::Error>)
        ensures
            result is Ok,
    {
        Ok(())
    }

    fn clear(&mut self) -> (result: Result<(), Self::Error>)
        ensures
            result is Ok,
    {
        Ok(())
    }
}

} // verus!
