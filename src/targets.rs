//! The platform-neutral target model: a window or a display, each with an id,
//! a title and the native handle a capture pipeline binds to.
use vstd::prelude::*;

verus! {

/// An application surface that can be captured apart from its display.
///
/// `raw_handle` is the platform's own identifier of the window (a window
/// number, or a window handle read as an integer). It is a non-owning
/// reference: the operating system owns the window.
///
/// Windows carry no equality of their own: the library never compares two
/// windows, and looks a window up by its `id` alone.
#[derive(Debug)]
pub struct Window {
    pub id: u32,
    pub title: String,
    pub raw_handle: u64,
}

/// A physical or virtual output surface (a monitor).
///
/// `raw_handle` is the platform's identifier of the monitor. All fields are
/// plain values, so a `Display` is `Send` and `Sync` without further claims.
#[derive(Debug)]
pub struct Display {
    pub id: u32,
    pub title: String,
    pub raw_handle: u64,
}

/// Either a window or a display: the unit that a capture session targets.
#[derive(Debug)]
pub enum Target {
    Window(Window),
    Display(Display),
}

impl Clone for Window {
    fn clone(&self) -> (r: Self)
        ensures
            r == *self,
    {
        Window { id: self.id, title: self.title.clone(), raw_handle: self.raw_handle }
    }
}

impl Clone for Display {
    fn clone(&self) -> (r: Self)
        ensures
            r == *self,
    {
        Display { id: self.id, title: self.title.clone(), raw_handle: self.raw_handle }
    }
}

impl Clone for Target {
    fn clone(&self) -> (r: Self)
        ensures
            r == *self,
    {
        match self {
            Target::Window(w) => Target::Window(w.clone()),
            Target::Display(d) => Target::Display(d.clone()),
        }
    }
}

/// Two displays are the same display exactly when their ids agree; title and
/// handle play no part.
impl PartialEq for Display {
    fn eq(&self, other: &Display) -> (r: bool)
        ensures
            r == (self.id == other.id),
    {
        self.id == other.id
    }
}

impl vstd::std_specs::cmp::PartialEqSpecImpl for Display {
    open spec fn obeys_eq_spec() -> bool {
        true
    }

    open spec fn eq_spec(&self, other: &Display) -> bool {
        self.id == other.id
    }
}

impl Eq for Display {
}

} // verus!
