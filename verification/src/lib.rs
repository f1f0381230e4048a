//! Rules engine for an LED-matrix game console.
//!
//! The heart of the crate is the falling-block puzzle engine: piece
//! spawning, movement, rotation with wall-kick resolution, locking, line
//! clearing, hold, and the delayed-auto-shift input timing model. Around it
//! stand the other pure pieces of the console's logic: the 4D hypercube
//! puzzle, controller button-edge tracking, and small geometry helpers.
//!
//! Playfield coordinates are 0-indexed, with (0, 0) at the bottom-left
//! corner and y increasing upward.

mod array_vec;
mod color;
mod config;
mod controller;
mod error;
mod game;
mod geom;
mod input;
mod life;
mod output;
mod piece;
mod playfield;
mod pos;
mod puzzle;
mod puzzle_input;
mod queue;
mod rng;
mod rotation;
mod screen;

pub use array_vec::ArrayVec;
pub use color::Rgb;
pub use color::dim;
pub use color::rgb;
pub use config::Config;
pub use config::Das;
pub use config::LockDown;
pub use controller::Buttons;
pub use controller::ControllerInput;
pub use controller::FullInput;
pub use controller::KEY_REPEAT_DELAY_NANOS;
pub use controller::KEY_REPEAT_RATE_NANOS;
pub use controller::KeyRepeat;
pub use error::Blocked;
pub use error::Error;
pub use error::GameOver;
pub use error::HoldUsed;
pub use game::FallingPiece;
pub use game::Game;
pub use game::actions_rel;
pub use game::deleted_one;
pub use game::deleted_rows;
pub use game::ghost_exists;
pub use game::hard_drop_rel;
pub use game::hold_rel;
pub use game::is_ghost_y;
pub use game::kick_ok;
pub use game::lemma_can_place_anchor;
pub use game::lemma_failed_actions_idempotent;
pub use game::lemma_hold_exchange;
pub use game::locked_into;
pub use game::moved_rel;
pub use game::pending_rows_wf;
pub use game::rotated_rel;
pub use game::rows_are_full_rows;
pub use game::same_but_falling;
pub use game::same_but_over;
pub use game::slot_hard;
pub use game::slot_hold;
pub use game::slot_move;
pub use game::slot_rot;
pub use game::spawned;
pub use game::step_prepared;
pub use game::step_rel;
pub use game::step_time_ok;
pub use geom::Axis;
pub use geom::Pos4;
pub use geom::Sign;
pub use input::DasState;
pub use life::Life;
pub use life::alive_at;
pub use life::neighbor_count;
pub use life::next_cell;
pub use life::transition;
pub use life::transition_spec;
pub use input::FrameInput;
pub use input::InputState;
pub use input::held_acts;
pub use input::held_state;
pub use input::lemma_das_timing;
pub use output::FrameOutput;
pub use piece::Tetromino;
pub use piece::lemma_piece_blocks_distinct;
pub use playfield::Playfield;
pub use pos::Offset;
pub use pos::Pos;
pub use puzzle::Facet;
pub use puzzle::Piece;
pub use puzzle::Puzzle;
pub use puzzle::SCRAMBLE_MOVE_COUNT;
pub use puzzle::Sticker;
pub use puzzle::Turn;
pub use puzzle::is_solved_spec;
pub use puzzle::region_contains;
pub use puzzle::sticker_at;
pub use puzzle::sticker_of_index;
pub use puzzle::turn_ok;
pub use puzzle::turned_spec;
pub use puzzle_input::EditingFilters;
pub use puzzle_input::FilterRule;
pub use puzzle_input::Filters;
pub use puzzle_input::PuzzleInput;
pub use puzzle_input::PuzzleInputState;
pub use puzzle_input::RejectedFacet;
pub use puzzle_input::rule_allows;
pub use queue::Queue;
pub use queue::bag_partitioned;
pub use queue::full_bag;
pub use queue::is_full_bag;
pub use queue::lemma_bag_window;
pub use queue::lemma_full_bag_counts;
pub use queue::popped;
pub use rotation::Rot;
pub use rotation::lemma_rotation_group;
pub use screen::FPS;
pub use screen::HEIGHT;
pub use screen::WIDTH;
pub use screen::xy_is_in_frame;
