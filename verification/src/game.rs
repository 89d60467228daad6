//! The game engine: the per-frame state transition of one game episode.
//!
//! Each frame the engine shifts the pipe columns one slot toward the bird,
//! spawns a fresh pipe on every fourth frame, moves the bird (up while a
//! button is pressed, down otherwise), and checks the column the bird
//! overlaps for a collision. The driver feeds it the two plain inputs the
//! hardware produces — whether a button is pressed and a raw entropy word —
//! and reads back the 5x5 render buffer to display.

use vstd::prelude::*;

use crate::pipes::Pipe;

verus! {

/// The mathematical state of one episode: the five pipe codes (index 0
/// nearest the bird, index 4 the spawn slot), the bird's row, the frame
/// counter that gates spawning, and the game-over flag.
#[verifier::ext_equal]
pub ghost struct GameModel {
    pub pipes: Seq<Pipe>,
    pub bird: int,
    pub counter: int,
    pub over: bool,
}

impl GameModel {
    /// Well-formedness: five pipe columns, the bird inside the screen, and
    /// the frame counter in the range the engine keeps it in.
    pub open spec fn wf(self) -> bool {
        &&& self.pipes.len() == 5
        &&& 0 <= self.bird <= 4
        &&& 0 <= self.counter <= 4
    }
}

/// The state every episode starts from: no pipes, the bird on the middle
/// row, the counter at zero (so the very first frame spawns a pipe), and
/// the game not over.
pub open spec fn initial_model() -> GameModel {
    GameModel { pipes: Seq::new(5, |i: int| Pipe::Open), bird: 2, counter: 0, over: false }
}

/// The pipe columns after one frame's shift: the nearest column (index 0)
/// expires, every other column moves one slot toward the bird, and the
/// vacated spawn slot (index 4) is left open.
pub open spec fn shifted_pipes(pipes: Seq<Pipe>) -> Seq<Pipe>
    recommends
        pipes.len() == 5,
{
    pipes.subrange(1, 5).push(Pipe::Open)
}

/// Whether a frame that starts with this counter spawns a pipe.
pub open spec fn spawn_due(counter: int) -> bool {
    counter % 4 == 0
}

/// The bird's row after one frame's input: a press lifts it one row,
/// stopping at the top row; no press drops it one row, stopping at the
/// bottom row (where the drop ends the game instead).
pub open spec fn bird_after_input(bird: int, pressed: bool) -> int {
    if pressed {
        if bird == 0 {
            0
        } else {
            bird - 1
        }
    } else {
        if bird == 4 {
            4
        } else {
            bird + 1
        }
    }
}

/// Whether this frame's input makes the bird fall past the bottom row,
/// which ends the game.
pub open spec fn falls_out(bird: int, pressed: bool) -> bool {
    !pressed && bird == 4
}

/// One frame of the engine, as a function of the inputs the hardware
/// hands it: the button state and the raw entropy word (read only on a
/// spawn frame). The pipes shift, a spawn frame resets the counter to one
/// and fills the spawn slot from the entropy word, the bird moves, the
/// counter is incremented, and the game is over once the bird falls out
/// or sits outside the gap of the column it overlaps (index 1).
pub open spec fn frame_model(m: GameModel, pressed: bool, entropy: u32) -> GameModel {
    let shifted = shifted_pipes(m.pipes);
    let pipes = if spawn_due(m.counter) {
        shifted.update(4, Pipe::from_code(entropy as int % 5))
    } else {
        shifted
    };
    let counter = if spawn_due(m.counter) {
        1
    } else {
        m.counter
    };
    let bird = bird_after_input(m.bird, pressed);
    let over = m.over || falls_out(m.bird, pressed) || !pipes[1].safe_row(bird);
    GameModel { pipes: pipes, bird: bird, counter: counter + 1, over: over }
}

/// The model after a whole sequence of frames, one `(pressed, entropy)`
/// input pair per frame.
pub open spec fn run_frames(m: GameModel, inputs: Seq<(bool, u32)>) -> GameModel
    decreases inputs.len(),
{
    if inputs.len() == 0 {
        m
    } else {
        run_frames(frame_model(m, inputs[0].0, inputs[0].1), inputs.drop_first())
    }
}

/// Whether the render buffer lights the cell at `(row, col)`: the pipe in
/// that column fills the row, except that the bird's own cell (its row,
/// column 1) shows the bird — lit when the bird is visible, dark during
/// the blink phase of its animation.
pub open spec fn frame_cell(m: GameModel, row: int, col: int, bird_visible: bool) -> bool {
    if row == m.bird && col == 1 {
        bird_visible
    } else {
        m.pipes[col].fills_row(row)
    }
}

/// The fixed wait, in milliseconds, between one frame and the next.
pub const FRAME_DELAY_MS: u16 = 500;

/// One frame's display passes: the bird's three-phase blink animation.
/// Each entry is whether the bird's cell is lit and how long, in
/// milliseconds, the display holds that buffer: the full frame for 200 ms,
/// the frame with the bird's cell dark for 100 ms, and the full frame
/// again for 200 ms.
pub fn blink_schedule() -> (s: Vec<(bool, u16)>)
    ensures
        s@ =~= seq![(true, 200u16), (false, 100u16), (true, 200u16)],
{
    let mut s: Vec<(bool, u16)> = Vec::new();
    s.push((true, 200));
    s.push((false, 100));
    s.push((true, 200));
    s
}

/// One game episode's live state.
pub struct Game {
    /// The five pipe columns; index 0 is nearest the bird, index 4 the
    /// spawn slot. Always exactly five entries.
    pub pipes: Vec<Pipe>,
    /// The bird's row, in [0, 4]; its column is fixed at 1.
    pub bird_row: u8,
    /// The frame counter that gates spawning; reset to one on each spawn.
    pub counter: u8,
    /// Whether the episode has ended.
    pub game_over: bool,
}

impl Game {
    /// The mathematical state this value holds.
    pub open spec fn model(self) -> GameModel {
        GameModel {
            pipes: self.pipes@,
            bird: self.bird_row as int,
            counter: self.counter as int,
            over: self.game_over,
        }
    }

    pub open spec fn wf(self) -> bool {
        self.model().wf()
    }

    /// A fresh episode: open columns, the bird on the middle row, the
    /// counter at zero, the game not over.
    pub fn new() -> (g: Game)
        ensures
            g.wf(),
            g.model() =~= initial_model(),
    {
        let mut pipes: Vec<Pipe> = Vec::new();
        pipes.push(Pipe::Open);
        pipes.push(Pipe::Open);
        pipes.push(Pipe::Open);
        pipes.push(Pipe::Open);
        pipes.push(Pipe::Open);
        let g = Game { pipes, bird_row: 2, counter: 0, game_over: false };
        proof {
            assert(g.model().pipes =~= initial_model().pipes);
        }
        g
    }

    /// Frame step one, the pipe advance: the nearest column expires, the
    /// rest shift one slot toward the bird, and the spawn slot is left
    /// open. Nothing else changes.
    pub fn advance_pipes(&mut self)
        requires
            old(self).wf(),
        ensures
            final(self).wf(),
            final(self).pipes@ =~= shifted_pipes(old(self).pipes@),
            final(self).bird_row == old(self).bird_row,
            final(self).counter == old(self).counter,
            final(self).game_over == old(self).game_over,
    {
        self.pipes.remove(0);
        self.pipes.push(Pipe::Open);
    }

    /// Frame step two, the spawn: on a frame whose counter is a multiple
    /// of four, the counter resets to one and the spawn slot takes the
    /// entropy word's pipe code; on any other frame nothing changes and
    /// the entropy word is not consumed.
    pub fn spawn_pipe(&mut self, entropy: u32)
        requires
            old(self).wf(),
        ensures
            final(self).wf(),
            spawn_due(old(self).counter as int) ==> {
                &&& final(self).pipes@ =~= old(self).pipes@.update(
                    4,
                    Pipe::from_code(entropy as int % 5),
                )
                &&& final(self).counter == 1
            },
            !spawn_due(old(self).counter as int) ==> {
                &&& final(self).pipes@ =~= old(self).pipes@
                &&& final(self).counter == old(self).counter
            },
            final(self).bird_row == old(self).bird_row,
            final(self).game_over == old(self).game_over,
    {
        if self.counter % 4 == 0 {
            self.counter = 1;
            let fresh = Pipe::from_entropy(entropy);
            self.pipes.set(4, fresh);
        }
    }

    /// Frame step three, input and gravity: a press lifts the bird one
    /// row (a no-op at the top row); no press drops it one row, and a
    /// drop from the bottom row ends the game instead of moving.
    pub fn apply_input(&mut self, pressed: bool)
        requires
            old(self).wf(),
        ensures
            final(self).wf(),
            final(self).bird_row as int == bird_after_input(old(self).bird_row as int, pressed),
            final(self).game_over == (old(self).game_over || falls_out(
                old(self).bird_row as int,
                pressed,
            )),
            final(self).pipes@ =~= old(self).pipes@,
            final(self).counter == old(self).counter,
    {
        if pressed {
            if self.bird_row > 0 {
                self.bird_row = self.bird_row - 1;
            }
        } else {
            if self.bird_row == 4 {
                self.game_over = true;
            } else {
                self.bird_row = self.bird_row + 1;
            }
        }
    }

    /// Frame step four, the collision check: the bird overlaps column 1;
    /// if that column's pipe does not leave the bird's row in its gap,
    /// the game is over. An open column never collides.
    pub fn check_collision(&mut self)
        requires
            old(self).wf(),
        ensures
            final(self).wf(),
            final(self).game_over == (old(self).game_over || !old(self).pipes@[1].safe_row(
                old(self).bird_row as int,
            )),
            final(self).pipes@ =~= old(self).pipes@,
            final(self).bird_row == old(self).bird_row,
            final(self).counter == old(self).counter,
    {
        let column = self.pipes[1];
        if !column.row_is_safe(self.bird_row) {
            self.game_over = true;
        }
    }

    /// One whole frame: pipe advance, spawn, input and gravity, collision
    /// check, and the counter increment — exactly the transition
    /// `frame_model` states.
    pub fn step_frame(&mut self, pressed: bool, entropy: u32)
        requires
            old(self).wf(),
        ensures
            final(self).wf(),
            final(self).model() =~= frame_model(old(self).model(), pressed, entropy),
    {
        self.advance_pipes();
        self.spawn_pipe(entropy);
        self.apply_input(pressed);
        self.check_collision();
        self.counter = self.counter + 1;
    }

    /// The 5x5 render buffer for the current state, row-major, each cell
    /// 1 when lit: the pipe patterns with the bird's cell overlaid. With
    /// `bird_visible` false the bird's cell is dark instead — the middle
    /// phase of the bird's blink animation.
    pub fn render_frame(&self, bird_visible: bool) -> (f: Vec<Vec<u8>>)
        requires
            self.wf(),
        ensures
            f@.len() == 5,
            forall|r: int| 0 <= r < 5 ==> #[trigger] f@[r]@.len() == 5,
            forall|r: int, c: int|
                0 <= r < 5 && 0 <= c < 5 ==> #[trigger] f@[r]@[c] == (if frame_cell(
                    self.model(),
                    r,
                    c,
                    bird_visible,
                ) {
                    1u8
                } else {
                    0u8
                }),
    {
        let mut frame: Vec<Vec<u8>> = Vec::new();
        let mut row: u8 = 0;
        while row < 5
            invariant
                self.wf(),
                row <= 5,
                frame@.len() == row as int,
                forall|r: int| 0 <= r < row as int ==> #[trigger] frame@[r]@.len() == 5,
                forall|r: int, c: int|
                    0 <= r < row as int && 0 <= c < 5 ==> #[trigger] frame@[r]@[c] == (
                    if frame_cell(self.model(), r, c, bird_visible) {
                        1u8
                    } else {
                        0u8
                    }),
            decreases 5 - row as int,
        {
            let mut line: Vec<u8> = Vec::new();
            let mut col: u8 = 0;
            while col < 5
                invariant
                    self.wf(),
                    row < 5,
                    col <= 5,
                    line@.len() == col as int,
                    forall|c: int|
                        0 <= c < col as int ==> #[trigger] line@[c] == (if frame_cell(
                            self.model(),
                            row as int,
                            c,
                            bird_visible,
                        ) {
                            1u8
                        } else {
                            0u8
                        }),
                decreases 5 - col as int,
            {
                let lit: bool = if row == self.bird_row && col == 1 {
                    bird_visible
                } else {
                    self.pipes[col as usize].row_filled(row)
                };
                line.push(if lit {
                    1
                } else {
                    0
                });
                col = col + 1;
            }
            frame.push(line);
            row = row + 1;
        }
        frame
    }
}

/// Law: one frame preserves well-formedness — in particular the pipe
/// column keeps exactly five entries and the bird stays on the screen.
pub proof fn lemma_frame_wf(m: GameModel, pressed: bool, entropy: u32)
    requires
        m.wf(),
    ensures
        frame_model(m, pressed, entropy).wf(),
{
}

/// Law: the pipe column's length is invariant — it holds exactly five
/// entries after any number of frames, whatever the inputs.
pub proof fn lemma_pipes_len_invariant(m: GameModel, inputs: Seq<(bool, u32)>)
    requires
        m.wf(),
    ensures
        run_frames(m, inputs).wf(),
        run_frames(m, inputs).pipes.len() == 5,
    decreases inputs.len(),
{
    if inputs.len() > 0 {
        lemma_frame_wf(m, inputs[0].0, inputs[0].1);
        lemma_pipes_len_invariant(frame_model(m, inputs[0].0, inputs[0].1), inputs.drop_first());
    }
}

/// Law: a frame spawns a pipe if and only if its counter is a multiple of
/// four at the start of the frame. On a spawn frame the spawn slot takes
/// the entropy word's code and the counter leaves the frame at two; on
/// any other frame the spawn slot is left open.
pub proof fn lemma_spawn_iff_counter(m: GameModel, pressed: bool, entropy: u32)
    requires
        m.wf(),
    ensures
        spawn_due(m.counter) ==> frame_model(m, pressed, entropy).pipes[4] == Pipe::from_code(
            entropy as int % 5,
        ) && frame_model(m, pressed, entropy).counter == 2,
        !spawn_due(m.counter) ==> frame_model(m, pressed, entropy).pipes[4] == Pipe::Open
            && frame_model(m, pressed, entropy).counter == m.counter + 1,
{
}

/// Law: after a spawn frame the spawn slot stays open for exactly the two
/// following frames, and the third following frame spawns again — the
/// counter runs 2, 3, 4 between spawns, so spawns are three frames apart.
pub proof fn lemma_spawn_cadence(
    m: GameModel,
    in1: (bool, u32),
    in2: (bool, u32),
    in3: (bool, u32),
)
    requires
        m.wf(),
        spawn_due(m.counter),
    ensures
        ({
            let m1 = frame_model(m, in1.0, in1.1);
            let m2 = frame_model(m1, in2.0, in2.1);
            let m3 = frame_model(m2, in3.0, in3.1);
            &&& !spawn_due(m1.counter)
            &&& !spawn_due(m2.counter)
            &&& spawn_due(m3.counter)
            &&& m2.pipes[4] == Pipe::Open
            &&& m3.pipes[4] == Pipe::Open
        }),
{
}

/// Law: within an episode the game-over flag moves one way — once a frame
/// has set it, every later frame keeps it set, whatever the inputs.
pub proof fn lemma_game_over_monotonic(m: GameModel, inputs: Seq<(bool, u32)>)
    requires
        m.over,
    ensures
        run_frames(m, inputs).over,
    decreases inputs.len(),
{
    if inputs.len() > 0 {
        lemma_game_over_monotonic(frame_model(m, inputs[0].0, inputs[0].1), inputs.drop_first());
    }
}

/// Law: the bird's row never leaves [0, 4]; a press on the top row is a
/// no-op; and a frame that drops the bird from the bottom row ends the
/// game instead of moving it to row five.
pub proof fn lemma_bird_bounds(m: GameModel, pressed: bool, entropy: u32)
    requires
        m.wf(),
    ensures
        0 <= frame_model(m, pressed, entropy).bird <= 4,
        pressed && m.bird == 0 ==> frame_model(m, pressed, entropy).bird == 0,
        !pressed && m.bird == 4 ==> frame_model(m, pressed, entropy).bird == 4 && frame_model(
            m,
            pressed,
            entropy,
        ).over,
{
}

} // verus!
