//! A snapshot of the window tree, and the search for the window to place.
//!
//! The snapshot is built once, window by window, and only read afterwards.
//! Windows refer to each other by id; the snapshot is the arena that maps
//! an id to its window.

use vstd::prelude::*;
use std::collections::{BTreeMap, BTreeSet};
use crate::geom::{is_coord, Box2D, Point2D, Rect, Region, Vector2D};
use crate::order::{ascending, ascending_ids};

verus! {

/// The category of a window.
#[derive(Clone, Copy, Debug, PartialEq, Eq, Structural)]
pub enum WindowType {
    Normal,
    Dock,
    Desktop,
    Root,
}

/// One window of the snapshot.
#[derive(Clone, Debug)]
pub struct Window {
    pub id: u32,
    /// The id of the parent. At the root it is 0 or the root's own id.
    pub parent: u32,
    pub children: Vec<u32>,
    /// Position and size relative to the parent.
    pub geom: Rect,
    pub typ: WindowType,
    /// Whether the window is a mapped top-level client, one that a placement
    /// may address.
    pub selectable: bool,
}

/// The snapshot: every window by its id, and the ids of the desktops and of
/// the docks among them.
#[derive(Debug)]
pub struct WindowGroup {
    windows: BTreeMap<u32, Window>,
    desktop: BTreeSet<u32>,
    dock: BTreeSet<u32>,
}

/// No selectable window could be found for the window that was asked for.
#[derive(Clone, Copy, Debug, PartialEq, Eq, Structural)]
pub struct UnresolvedTarget;

impl WindowType {
    /// The category that a window announces.
    ///
    /// `announced` is the first atom of the window's type property, if the
    /// window has that property. The root is the root whatever it
    /// announces. A window that announces nothing, or a type other than
    /// dock and desktop, is an ordinary window.
    pub open spec fn of(is_root: bool, announced: Option<u32>, dock: u32, desktop: u32) -> WindowType {
        if is_root {
            WindowType::Root
        } else if announced == Some(dock) {
            WindowType::Dock
        } else if announced == Some(desktop) {
            WindowType::Desktop
        } else {
            WindowType::Normal
        }
    }

    /// The category of a window from what it announces; `dock` and
    /// `desktop` are the atoms that stand for these two types.
    pub fn classify(is_root: bool, announced: Option<u32>, dock: u32, desktop: u32) -> (t: WindowType)
        ensures
            t == WindowType::of(is_root, announced, dock, desktop),
    {
        if is_root {
            return WindowType::Root;
        }
        match announced {
            Some(a) => if a == dock {
                WindowType::Dock
            } else if a == desktop {
                WindowType::Desktop
            } else {
                WindowType::Normal
            },
            None => WindowType::Normal,
        }
    }
}

/// The value of a client's state property that says the window is shown.
pub const NORMAL_STATE: u32 = 1;

/// Whether a window is a mapped top-level client: it carries the client
/// state property (`has_state`), and the first value of the property is the
/// normal state.
pub fn is_client_shown(has_state: bool, state: Option<u32>) -> (r: bool)
    ensures
        r == (has_state && state == Some(NORMAL_STATE)),
{
    match state {
        Some(v) => has_state && v == NORMAL_STATE,
        None => false,
    }
}

impl Window {
    /// The window ends the walk towards the root: it is the root by its
    /// category, or its parent link is one of the two marks of a root.
    pub open spec fn is_root(&self) -> bool {
        self.typ is Root || self.parent == 0 || self.parent == self.id
    }

    /// Whether the window ends the walk towards the root.
    pub fn ends_chain(&self) -> (r: bool)
        ensures
            r == self.is_root(),
    {
        let by_type = match self.typ {
            WindowType::Root => true,
            _ => false,
        };
        by_type || self.parent == 0 || self.parent == self.id
    }
}

/// The sum of an offset and the origin of a window's geometry.
pub open spec fn shifted(d: (int, int), by: Rect) -> (int, int) {
    (d.0 + by.origin.x, d.1 + by.origin.y)
}

impl View for WindowGroup {
    type V = Map<u32, Window>;

    closed spec fn view(&self) -> Map<u32, Window> {
        self.windows@
    }
}

impl Default for WindowGroup {
    /// A snapshot without windows.
    fn default() -> (g: WindowGroup)
        ensures
            g@ == Map::<u32, Window>::empty(),
    {
        WindowGroup::new()
    }
}

impl WindowGroup {
    #[verifier::type_invariant]
    spec fn inv(self) -> bool {
        &&& forall|id: u32| #[trigger]
            self.windows@.contains_key(id) ==> self.windows@[id].id == id
        &&& forall|id: u32| #[trigger]
            self.desktop@.contains(id) <==> self.windows@.contains_key(id)
                && self.windows@[id].typ is Desktop
        &&& forall|id: u32| #[trigger]
            self.dock@.contains(id) <==> self.windows@.contains_key(id)
                && self.windows@[id].typ is Dock
    }

    /// Whether `id` is a window of the snapshot from which a parent can be
    /// followed, and then that parent.
    pub open spec fn parent_of(&self, id: u32) -> Option<u32> {
        if self@.contains_key(id) && !self@[id].is_root() && self@.contains_key(self@[id].parent) {
            Some(self@[id].parent)
        } else {
            None
        }
    }

    /// The nearest selectable window above `id`, following at most `fuel`
    /// parent links and never past a root.
    pub open spec fn selectable_above(&self, id: u32, fuel: nat) -> Option<u32>
        decreases fuel,
    {
        if fuel == 0 {
            None
        } else {
            match self.parent_of(id) {
                None => None,
                Some(p) => if self@[p].selectable {
                    Some(p)
                } else {
                    self.selectable_above(p, (fuel - 1) as nat)
                },
            }
        }
    }

    /// The nearest selectable ancestor of `id`. A chain of parents that is
    /// longer than the number of windows has come back to a window it left,
    /// so the walk stops there.
    pub open spec fn selectable_ancestor(&self, id: u32) -> Option<u32> {
        self.selectable_above(id, self@.len())
    }

    /// Whether `id` is a selectable window of the snapshot.
    pub open spec fn is_selectable(&self, id: u32) -> bool {
        self@.contains_key(id) && self@[id].selectable
    }

    /// The first id at or after position `from` of `ids` that is a
    /// selectable window of the snapshot.
    pub open spec fn first_selectable(&self, ids: Seq<u32>, from: int) -> Option<u32>
        decreases ids.len() - from,
    {
        if from < 0 || from >= ids.len() {
            None
        } else if self.is_selectable(ids[from]) {
            Some(ids[from])
        } else {
            self.first_selectable(ids, from + 1)
        }
    }

    /// The window to place when `start` was asked for: `start` itself where
    /// it is selectable, else its nearest selectable ancestor, else the
    /// first selectable one of its children.
    pub open spec fn resolved(&self, start: u32) -> Option<u32> {
        if !self@.contains_key(start) {
            None
        } else if self@[start].selectable {
            Some(start)
        } else if self.selectable_ancestor(start) is Some {
            self.selectable_ancestor(start)
        } else {
            self.first_selectable(self@[start].children@, 0)
        }
    }

    /// The sum of the origins of the windows above `id`, up to and with the
    /// root, following at most `fuel` parent links. `None` where `id` is not
    /// in the snapshot or the chain of parents does not reach a root.
    pub open spec fn offset_within(&self, id: u32, fuel: nat) -> Option<(int, int)>
        decreases fuel,
    {
        if !self@.contains_key(id) {
            None
        } else if self@[id].is_root() {
            Some((0, 0))
        } else if fuel == 0 || !self@.contains_key(self@[id].parent) {
            None
        } else {
            let p = self@[id].parent;
            match self.offset_within(p, (fuel - 1) as nat) {
                Some(d) => Some(shifted(d, self@[p].geom)),
                None => None,
            }
        }
    }

    /// What has to be added to the position of window `id` to place it in
    /// the coordinates of the root.
    pub open spec fn abs_offset(&self, id: u32) -> Option<(int, int)> {
        self.offset_within(id, self@.len())
    }

    /// The region that window `id` covers in the coordinates of the root.
    pub open spec fn abs_region(&self, id: u32) -> Option<Region> {
        match self.abs_offset(id) {
            Some(d) => {
                let g = self@[id].geom;
                Some(
                    Region {
                        x0: d.0 + g.origin.x,
                        y0: d.1 + g.origin.y,
                        x1: d.0 + g.origin.x + g.size.width,
                        y1: d.1 + g.origin.y + g.size.height,
                    },
                )
            },
            None => None,
        }
    }

    /// The region of window `id` where it is a box of the coordinate space:
    /// every corner in range and the size not negative.
    pub open spec fn placed_region(&self, id: u32) -> Option<Region> {
        match self.abs_region(id) {
            Some(a) => if a.representable() && a.wf() {
                Some(a)
            } else {
                None
            },
            None => None,
        }
    }

    /// Whether `id` is a desktop of the snapshot.
    pub open spec fn is_desktop(&self, id: u32) -> bool {
        self@.contains_key(id) && self@[id].typ is Desktop
    }

    /// Whether `id` is a dock of the snapshot.
    pub open spec fn is_dock(&self, id: u32) -> bool {
        self@.contains_key(id) && self@[id].typ is Dock
    }

    /// A snapshot without windows.
    pub fn new() -> (g: WindowGroup)
        ensures
            g@ == Map::<u32, Window>::empty(),
    {
        WindowGroup { windows: BTreeMap::new(), desktop: BTreeSet::new(), dock: BTreeSet::new() }
    }

    /// Adds `w` under its id. A window that was there under that id is
    /// replaced.
    pub fn insert(&mut self, w: Window)
        ensures
            final(self)@ == old(self)@.insert(w.id, w),
    {
        let mut taken = WindowGroup::new();
        std::mem::swap(self, &mut taken);
        proof {
            use_type_invariant(&taken);
        }
        let WindowGroup { mut windows, mut desktop, mut dock } = taken;
        let id = w.id;
        match w.typ {
            WindowType::Desktop => {
                desktop.insert(id);
                dock.remove(&id);
            },
            WindowType::Dock => {
                dock.insert(id);
                desktop.remove(&id);
            },
            _ => {
                desktop.remove(&id);
                dock.remove(&id);
            },
        }
        windows.insert(id, w);
        *self = WindowGroup { windows, desktop, dock };
    }

    /// The window with this id, if the snapshot has it.
    pub fn window(&self, id: u32) -> (r: Option<&Window>)
        ensures
            match r {
                Some(w) => self@.contains_key(id) && *w == self@[id] && w.id == id,
                None => !self@.contains_key(id),
            },
    {
        proof {
            use_type_invariant(self);
        }
        self.windows.get(&id)
    }

    /// The number of windows in the snapshot.
    pub fn len(&self) -> (n: usize)
        ensures
            n == self@.len(),
    {
        self.windows.len()
    }

    /// The nearest selectable ancestor of `start`, if there is one.
    fn find_selectable_ancestor(&self, start: u32) -> (r: Option<u32>)
        ensures
            r == self.selectable_ancestor(start),
    {
        let n = self.windows.len();
        let mut cur = start;
        let mut steps: usize = 0;
        while steps < n
            invariant
                n == self@.len(),
                steps <= n,
                self.selectable_ancestor(start) == self.selectable_above(cur, (n - steps) as nat),
            decreases n - steps,
        {
            let parent = match self.window(cur) {
                Some(w) => if w.ends_chain() {
                    return None;
                } else {
                    w.parent
                },
                None => {
                    return None;
                },
            };
            match self.window(parent) {
                Some(p) => if p.selectable {
                    return Some(parent);
                },
                None => {
                    return None;
                },
            }
            cur = parent;
            steps = steps + 1;
        }
        None
    }

    /// The first of `ids`, from position `from` on, that is a selectable
    /// window of the snapshot.
    fn find_first_selectable(&self, ids: &Vec<u32>) -> (r: Option<u32>)
        ensures
            r == self.first_selectable(ids@, 0),
    {
        let mut i: usize = 0;
        while i < ids.len()
            invariant
                i <= ids.len(),
                self.first_selectable(ids@, 0) == self.first_selectable(ids@, i as int),
            decreases ids.len() - i,
        {
            let id = ids[i];
            match self.window(id) {
                Some(w) => if w.selectable {
                    return Some(id);
                },
                None => {},
            }
            i = i + 1;
        }
        None
    }

    /// The window to place when `start` was asked for.
    ///
    /// A selectable `start` is its own answer. Otherwise the parents of
    /// `start` are followed up to the root, and the first selectable one is
    /// the answer. Otherwise the children of `start` are looked at in their
    /// order, and the first selectable one is the answer. Otherwise, and
    /// where the snapshot has no window `start`, there is none.
    pub fn resolve(&self, start: u32) -> (r: Result<u32, UnresolvedTarget>)
        ensures
            match r {
                Ok(id) => self.resolved(start) == Some(id) && self.is_selectable(id),
                Err(_) => self.resolved(start) is None,
            },
    {
        let w = match self.window(start) {
            Some(w) => w,
            None => {
                return Err(UnresolvedTarget);
            },
        };
        if w.selectable {
            return Ok(start);
        }
        if let Some(a) = self.find_selectable_ancestor(start) {
            proof {
                self.lemma_selectable_above(start, self@.len());
            }
            return Ok(a);
        }
        match self.find_first_selectable(&w.children) {
            Some(c) => {
                proof {
                    self.lemma_first_selectable(w.children@, 0);
                }
                Ok(c)
            },
            None => Err(UnresolvedTarget),
        }
    }

    /// A snapshot holds finitely many windows.
    pub proof fn lemma_finite(&self)
        ensures
            self@.dom().finite(),
    {
    }

    /// An ancestor that the walk finds is a selectable window of the
    /// snapshot.
    pub proof fn lemma_selectable_above(&self, id: u32, fuel: nat)
        ensures
            self.selectable_above(id, fuel) matches Some(a) ==> self.is_selectable(a),
        decreases fuel,
    {
        if fuel > 0 {
            if let Some(p) = self.parent_of(id) {
                if !self@[p].selectable {
                    self.lemma_selectable_above(p, (fuel - 1) as nat);
                }
            }
        }
    }

    /// A child that the scan finds is one of the ids scanned, is selectable,
    /// and no id scanned before it is.
    pub proof fn lemma_first_selectable(&self, ids: Seq<u32>, from: int)
        requires
            0 <= from,
        ensures
            match self.first_selectable(ids, from) {
                Some(c) => exists|i: int|
                    from <= i < ids.len() && ids[i] == c && self.is_selectable(c) && forall|j: int|
                        from <= j < i ==> !self.is_selectable(#[trigger] ids[j]),
                None => forall|j: int| from <= j < ids.len() ==> !self.is_selectable(#[trigger] ids[j]),
            },
        decreases ids.len() - from,
    {
        if from < ids.len() {
            if self.is_selectable(ids[from]) {
                assert(from <= from < ids.len() && ids[from] == ids[from]);
            } else {
                self.lemma_first_selectable(ids, from + 1);
            }
        }
    }

    /// Where a window is not selectable and has no selectable ancestor, but
    /// its first child is selectable, that child is the window to place.
    pub proof fn lemma_resolve_falls_back_to_first_child(&self, start: u32)
        requires
            self@.contains_key(start),
            !self@[start].selectable,
            self.selectable_ancestor(start) is None,
            self@[start].children@.len() > 0,
            self.is_selectable(self@[start].children@[0]),
        ensures
            self.resolved(start) == Some(self@[start].children@[0]),
    {
    }

    /// The sum of the origins of all windows above `id`, in integers wide
    /// enough for any chain of parents.
    fn walk_offset(&self, id: u32) -> (r: Option<(i128, i128)>)
        ensures
            match r {
                Some(d) => self.abs_offset(id) == Some((d.0 as int, d.1 as int)),
                None => self.abs_offset(id) is None,
            },
    {
        let n = self.windows.len();
        let mut cur = id;
        let mut steps: usize = 0;
        let mut dx: i128 = 0;
        let mut dy: i128 = 0;
        loop
            invariant
                n == self@.len(),
                steps <= n,
                -32768 * steps <= dx <= 32767 * steps,
                -32768 * steps <= dy <= 32767 * steps,
                self.abs_offset(id) == match self.offset_within(cur, (n - steps) as nat) {
                    Some(d) => Some((d.0 + dx, d.1 + dy)),
                    None => None,
                },
            ensures
                self.abs_offset(id) == Some((dx as int, dy as int)),
            decreases n - steps,
        {
            let parent = match self.window(cur) {
                Some(w) => if w.ends_chain() {
                    break ;
                } else {
                    w.parent
                },
                None => {
                    return None;
                },
            };
            if steps >= n {
                return None;
            }
            match self.window(parent) {
                Some(p) => {
                    dx = dx + p.geom.origin.x as i128;
                    dy = dy + p.geom.origin.y as i128;
                },
                None => {
                    return None;
                },
            }
            cur = parent;
            steps = steps + 1;
        }
        Some((dx, dy))
    }

    /// What has to be added to the position of window `id` to place it in
    /// the coordinates of the root: the sum of the origins of all windows
    /// above it. `None` where the snapshot has no window `id`, where the
    /// chain of parents does not reach a root, or where the sum leaves the
    /// coordinate space.
    pub fn abs_xlate(&self, id: u32) -> (r: Option<Vector2D>)
        ensures
            match r {
                Some(v) => self.abs_offset(id) == Some((v.x as int, v.y as int)),
                None => match self.abs_offset(id) {
                    Some(d) => !(is_coord(d.0) && is_coord(d.1)),
                    None => true,
                },
            },
    {
        match self.walk_offset(id) {
            Some((dx, dy)) => if -32768 <= dx && dx <= 32767 && -32768 <= dy && dy <= 32767 {
                Some(Vector2D { x: dx as i16, y: dy as i16 })
            } else {
                None
            },
            None => None,
        }
    }

    /// The box that window `id` covers in the coordinates of the root.
    /// `None` where the snapshot has no window `id`, where the chain of
    /// parents does not reach a root, where a corner leaves the coordinate
    /// space, or where the window's size is negative.
    pub fn abs_box(&self, id: u32) -> (r: Option<Box2D>)
        ensures
            match r {
                Some(b) => self.placed_region(id) == Some(b@) && b.wf(),
                None => self.placed_region(id) is None,
            },
    {
        let (dx, dy) = match self.walk_offset(id) {
            Some(d) => d,
            None => {
                return None;
            },
        };
        if !(-65536 <= dx && dx <= 65535 && -65536 <= dy && dy <= 65535) {
            return None;
        }
        let w = match self.window(id) {
            Some(w) => w,
            None => {
                return None;
            },
        };
        let x0: i128 = dx + w.geom.origin.x as i128;
        let y0: i128 = dy + w.geom.origin.y as i128;
        let x1: i128 = x0 + w.geom.size.width as i128;
        let y1: i128 = y0 + w.geom.size.height as i128;
        if -32768 <= x0 && x0 <= x1 && x1 <= 32767 && -32768 <= y0 && y0 <= y1 && y1 <= 32767 {
            Some(
                Box2D {
                    min: Point2D { x: x0 as i16, y: y0 as i16 },
                    max: Point2D { x: x1 as i16, y: y1 as i16 },
                },
            )
        } else {
            None
        }
    }

    /// The ids of the desktops, in ascending order.
    pub fn desktops(&self) -> (ids: Vec<u32>)
        ensures
            ascending(ids@),
            forall|id: u32| ids@.contains(id) <==> self.is_desktop(id),
    {
        proof {
            use_type_invariant(self);
        }
        ascending_ids(&self.desktop)
    }

    /// The ids of the docks, in ascending order.
    pub fn docks(&self) -> (ids: Vec<u32>)
        ensures
            ascending(ids@),
            forall|id: u32| ids@.contains(id) <==> self.is_dock(id),
    {
        proof {
            use_type_invariant(self);
        }
        ascending_ids(&self.dock)
    }
}

} // verus!
