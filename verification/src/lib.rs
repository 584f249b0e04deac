//! Driver for a 192 x 64 monochrome display that is built from three
//! controllers, each driving a slice of 64 columns, on one parallel bus.
//!
//! The driver never touches a pin. The engine (`ermc192641`) keeps a list
//! of tasks; each call of `step` takes up one task and returns a burst of
//! pin actions (`signal`) for the board to carry out, and the board hands
//! back what it read. The two buses (`arduino`, `dbarduino`) record the
//! levels and directions that the engine has given the lines.
//!
//! What the tasks do to a display module is stated against a model of the
//! module (`panel`) and proved: every step keeps engine and module in step
//! (`stepping`), each transfer follows the handshake of the controllers
//! (`protocol`), and moving the cursor, reading, writing and filling change
//! the picture as they should (`cursor`, `transfer`, `drawing`, `split`,
//! `sequences`, `startup`, `laws`). `simulator` holds the same model in
//! executable form.
pub mod arduino;
pub mod constants;
pub mod cursor;
pub mod dbarduino;
pub mod drawing;
pub mod ermc192641;
pub mod laws;
pub mod panel;
pub mod plans;
pub mod protocol;
pub mod readings;
pub mod sequences;
pub mod signal;
pub mod simulator;
pub mod split;
pub mod startup;
pub mod stepping;
pub mod transfer;
pub mod wiring;
pub mod world;
