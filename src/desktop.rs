//! What one query of the platform's windowing system reports: every capturable
//! window and display, in the platform's order, with the metrics that belong
//! to each.
use vstd::prelude::*;
use crate::targets::{Display, Target, Window};

verus! {

/// A window as the platform reports it, with its size in pixels and the id
/// of the display that contains it.
#[derive(Debug)]
pub struct WindowInfo {
    pub window: Window,
    pub width: u64,
    pub height: u64,
    pub display_id: u32,
}

/// A display as the platform reports it, with its native size in pixels and
/// its UI scale factor in percent (100 for no scaling, 200 for a 2x display).
#[derive(Debug)]
pub struct DisplayInfo {
    pub display: Display,
    pub width: u64,
    pub height: u64,
    pub scale_percent: u32,
}

/// One reported target.
#[derive(Debug)]
pub enum Entry {
    Window(WindowInfo),
    Display(DisplayInfo),
}

/// A snapshot of the desktop: the entries of one enumeration, in the
/// platform's order, and the id of the primary display where the platform
/// has that notion.
///
/// Ids are meant to be unique among the windows and among the displays of one
/// snapshot; where they are not, every lookup takes the first entry.
#[derive(Debug)]
pub struct Desktop {
    pub entries: Vec<Entry>,
    pub main_display: Option<u32>,
}

/// The target that an entry describes.
pub open spec fn target_of(e: Entry) -> Target {
    match e {
        Entry::Window(w) => Target::Window(w.window),
        Entry::Display(d) => Target::Display(d.display),
    }
}

/// The targets of a sequence of entries, one for each, in order.
pub open spec fn targets_of(entries: Seq<Entry>) -> Seq<Target> {
    entries.map_values(|e: Entry| target_of(e))
}

/// The displays among `ts`, in their relative order.
pub open spec fn displays_in(ts: Seq<Target>) -> Seq<Display>
    decreases ts.len(),
{
    if ts.len() == 0 {
        Seq::empty()
    } else {
        let rest = displays_in(ts.drop_last());
        match ts.last() {
            Target::Display(d) => rest.push(d),
            Target::Window(_) => rest,
        }
    }
}

/// The first display entry of `entries` with the given id.
pub open spec fn display_lookup(entries: Seq<Entry>, id: u32) -> Option<DisplayInfo>
    decreases entries.len(),
{
    if entries.len() == 0 {
        None
    } else {
        match entries[0] {
            Entry::Display(d) if d.display.id == id => Some(d),
            _ => display_lookup(entries.drop_first(), id),
        }
    }
}

/// The first window entry of `entries` with the given id.
pub open spec fn window_lookup(entries: Seq<Entry>, id: u32) -> Option<WindowInfo>
    decreases entries.len(),
{
    if entries.len() == 0 {
        None
    } else {
        match entries[0] {
            Entry::Window(w) if w.window.id == id => Some(w),
            _ => window_lookup(entries.drop_first(), id),
        }
    }
}

/// The size in pixels of a target in a snapshot; `None` where the snapshot
/// holds no target of that kind and id.
pub open spec fn dimensions_of(entries: Seq<Entry>, t: Target) -> Option<(u64, u64)> {
    match t {
        Target::Window(w) => match window_lookup(entries, w.id) {
            Some(i) => Some((i.width, i.height)),
            None => None,
        },
        Target::Display(d) => match display_lookup(entries, d.id) {
            Some(i) => Some((i.width, i.height)),
            None => None,
        },
    }
}

/// The scale factor, in percent, of the display with the given id.
pub open spec fn display_scale(entries: Seq<Entry>, id: u32) -> Option<u32> {
    match display_lookup(entries, id) {
        Some(i) => Some(i.scale_percent),
        None => None,
    }
}

/// The scale factor, in percent, of a target: a display's own, and for a
/// window that of the display containing it.
pub open spec fn scale_of(entries: Seq<Entry>, t: Target) -> Option<u32> {
    match t {
        Target::Window(w) => match window_lookup(entries, w.id) {
            Some(i) => display_scale(entries, i.display_id),
            None => None,
        },
        Target::Display(d) => display_scale(entries, d.id),
    }
}

/// The primary display of a snapshot, where the platform names one and it
/// is among the entries.
pub open spec fn main_display_of(d: Desktop) -> Option<Display> {
    match d.main_display {
        Some(id) => match display_lookup(d.entries@, id) {
            Some(i) => Some(i.display),
            None => None,
        },
        None => None,
    }
}

impl Desktop {
    /// Index of the first display entry with the given id.
    pub(crate) fn find_display(&self, id: u32) -> (r: Option<usize>)
        ensures
            match r {
                Some(i) => i < self.entries@.len() && self.entries@[i as int] is Display
                    && display_lookup(self.entries@, id) == Some(self.entries@[i as int]->Display_0),
                None => display_lookup(self.entries@, id) is None,
            },
    {
        let n = self.entries.len();
        let mut i: usize = 0;
        assert(self.entries@.subrange(0, n as int) =~= self.entries@);
        while i < n
            invariant
                n == self.entries@.len(),
                i <= n,
                display_lookup(self.entries@, id) == display_lookup(self.entries@.subrange(i as int, n as int), id),
            decreases n - i,
        {
            let ghost rest = self.entries@.subrange(i as int, n as int);
            assert(rest[0] == self.entries@[i as int]);
            match &self.entries[i] {
                Entry::Display(d) => {
                    if d.display.id == id {
                        return Some(i);
                    }
                },
                Entry::Window(_) => {},
            }
            assert(rest.drop_first() =~= self.entries@.subrange(i + 1, n as int));
            i = i + 1;
        }
        None
    }

    /// Index of the first window entry with the given id.
    pub(crate) fn find_window(&self, id: u32) -> (r: Option<usize>)
        ensures
            match r {
                Some(i) => i < self.entries@.len() && self.entries@[i as int] is Window
                    && window_lookup(self.entries@, id) == Some(self.entries@[i as int]->Window_0),
                None => window_lookup(self.entries@, id) is None,
            },
    {
        let n = self.entries.len();
        let mut i: usize = 0;
        assert(self.entries@.subrange(0, n as int) =~= self.entries@);
        while i < n
            invariant
                n == self.entries@.len(),
                i <= n,
                window_lookup(self.entries@, id) == window_lookup(self.entries@.subrange(i as int, n as int), id),
            decreases n - i,
        {
            let ghost rest = self.entries@.subrange(i as int, n as int);
            assert(rest[0] == self.entries@[i as int]);
            match &self.entries[i] {
                Entry::Window(w) => {
                    if w.window.id == id {
                        return Some(i);
                    }
                },
                Entry::Display(_) => {},
            }
            assert(rest.drop_first() =~= self.entries@.subrange(i + 1, n as int));
            i = i + 1;
        }
        None
    }
}

} // verus!
