//! An event-loop adapter that binds an application's callback interface to a
//! window library's event stream. Raw window events (render and update ticks,
//! button input, cursor motion, resize, focus, close) are classified and
//! forwarded as typed calls on an application-supplied handler, while a small
//! shared state record tracks held buttons, cursor and focus flags, screen
//! size and the last mouse position.

pub mod dispatch;
pub mod event;
pub mod laws;
pub mod state;
pub mod window;
