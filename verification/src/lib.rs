//! A verified asset readiness gate.
//!
//! A loading phase requests a fixed set of resources (images, sound effects,
//! soundtracks, UI materials) from an asynchronous loader and must not leave
//! the phase before every one of them has finished loading. Each resource is
//! tracked through an opaque handle identifier; a category table maps a
//! logical identifier to its handle, and a backing store records which
//! handles have finished loading so far. Each tick the loading screen asks every
//! category whether all of its handles are in its store, and on the first
//! tick on which the answer is yes for all of them at once it moves the
//! screen forward, exactly once.

pub mod assets;
pub mod gate;
pub mod player;
pub mod store;
pub mod table;
