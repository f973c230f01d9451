//! The queries on a desktop snapshot: enumeration, the display-only view,
//! the primary display, and the size and scale factor of a target.
use vstd::prelude::*;
use crate::decimal::{decimal, push_decimal};
use crate::desktop::{
    dimensions_of, displays_in, main_display_of, scale_of, targets_of, Desktop, Entry,
};
use crate::targets::{Display, Target};

verus! {

/// The text of a display of the given title and size:
/// `"<title> <width>x<height>"`.
pub open spec fn display_label(title: Seq<char>, width: nat, height: nat) -> Seq<char> {
    title + seq![' '] + decimal(width) + seq!['x'] + decimal(height)
}

/// Every target of the snapshot, in the platform's order: nothing filtered,
/// merged or reordered.
pub fn get_all_targets(desktop: &Desktop) -> (r: Vec<Target>)
    ensures
        r@ == targets_of(desktop.entries@),
{
    let n = desktop.entries.len();
    let mut r: Vec<Target> = Vec::with_capacity(n);
    let mut i: usize = 0;
    while i < n
        invariant
            n == desktop.entries@.len(),
            i <= n,
            r@ == targets_of(desktop.entries@.subrange(0, i as int)),
        decreases n - i,
    {
        let t = match &desktop.entries[i] {
            Entry::Window(w) => Target::Window(w.window.clone()),
            Entry::Display(d) => Target::Display(d.display.clone()),
        };
        r.push(t);
        i = i + 1;
        assert(r@ =~= targets_of(desktop.entries@.subrange(0, i as int)));
    }
    assert(desktop.entries@.subrange(0, n as int) =~= desktop.entries@);
    r
}

/// The displays among `targets`, in their relative order; windows are left
/// out.
pub fn displays_of(targets: Vec<Target>) -> (r: Vec<Display>)
    ensures
        r@ == displays_in(targets@),
{
    let n = targets.len();
    let mut r: Vec<Display> = Vec::new();
    let mut i: usize = 0;
    while i < n
        invariant
            n == targets@.len(),
            i <= n,
            r@ == displays_in(targets@.subrange(0, i as int)),
        decreases n - i,
    {
        assert(targets@.subrange(0, i + 1).drop_last() =~= targets@.subrange(0, i as int));
        match &targets[i] {
            Target::Display(d) => r.push(d.clone()),
            Target::Window(_) => {},
        }
        i = i + 1;
    }
    assert(targets@.subrange(0, n as int) =~= targets@);
    r
}

/// The displays of the snapshot: its targets with the windows left out, in
/// the platform's order.
pub fn get_all_displays(desktop: &Desktop) -> (r: Vec<Display>)
    ensures
        r@ == displays_in(targets_of(desktop.entries@)),
{
    displays_of(get_all_targets(desktop))
}

/// The primary display; `None` where the platform names none, or names one
/// that the snapshot does not hold.
pub fn get_main_display(desktop: &Desktop) -> (r: Option<Display>)
    ensures
        r == main_display_of(*desktop),
{
    match desktop.main_display {
        Some(id) => match desktop.find_display(id) {
            Some(i) => match &desktop.entries[i] {
                Entry::Display(d) => Some(d.display.clone()),
                Entry::Window(_) => None,
            },
            None => None,
        },
        None => None,
    }
}

/// The size in pixels `(width, height)` of a target, as the platform reports
/// it, with no scaling applied; `None` where the target is no longer in the
/// snapshot.
pub fn get_target_dimensions(desktop: &Desktop, target: &Target) -> (r: Option<(u64, u64)>)
    ensures
        r == dimensions_of(desktop.entries@, *target),
{
    let found = match target {
        Target::Window(w) => desktop.find_window(w.id),
        Target::Display(d) => desktop.find_display(d.id),
    };
    match found {
        Some(i) => match &desktop.entries[i] {
            Entry::Window(w) => Some((w.width, w.height)),
            Entry::Display(d) => Some((d.width, d.height)),
        },
        None => None,
    }
}

/// Scale factor, in percent, of the display with the given id.
fn display_scale_percent(desktop: &Desktop, id: u32) -> (r: Option<u32>)
    ensures
        r == crate::desktop::display_scale(desktop.entries@, id),
{
    match desktop.find_display(id) {
        Some(i) => match &desktop.entries[i] {
            Entry::Display(d) => Some(d.scale_percent),
            Entry::Window(_) => None,
        },
        None => None,
    }
}

/// The UI scale factor of a target, in percent: a display's own, and for a
/// window that of the display containing it. `None` where the target, or the
/// display of a window, is no longer in the snapshot.
pub fn get_scale_factor(desktop: &Desktop, target: &Target) -> (r: Option<u32>)
    ensures
        r == scale_of(desktop.entries@, *target),
{
    match target {
        Target::Display(d) => display_scale_percent(desktop, d.id),
        Target::Window(w) => match desktop.find_window(w.id) {
            Some(i) => match &desktop.entries[i] {
                Entry::Window(wi) => display_scale_percent(desktop, wi.display_id),
                Entry::Display(_) => None,
            },
            None => None,
        },
    }
}

impl Display {
    /// The display's text for a given size: `"<title> <width>x<height>"`.
    pub fn label(&self, width: u64, height: u64) -> (r: String)
        ensures
            r@ == display_label(self.title@, width as nat, height as nat),
    {
        let mut s = self.title.clone();
        proof { reveal_strlit(" "); reveal_strlit("x"); }
        s.append(" ");
        push_decimal(&mut s, width);
        s.append("x");
        push_decimal(&mut s, height);
        s
    }

    /// The display's text, with its size as the snapshot reports it; `None`
    /// where the display is no longer in the snapshot.
    pub fn to_string(&self, desktop: &Desktop) -> (r: Option<String>)
        ensures
            match dimensions_of(desktop.entries@, Target::Display(*self)) {
                Some((w, h)) => r matches Some(s) && s@ == display_label(self.title@, w as nat, h as nat),
                None => r is None,
            },
    {
        let t = Target::Display(self.clone());
        match get_target_dimensions(desktop, &t) {
            Some((w, h)) => Some(self.label(w, h)),
            None => None,
        }
    }
}

} // verus!
