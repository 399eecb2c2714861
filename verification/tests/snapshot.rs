use winsnap::area::{available, desktop_of, subtract_dock, subtract_docks, NoDesktop};
use winsnap::geom::{Box2D, Point2D, Rect, SideOffsets2D, Size2D, Vector2D};
use winsnap::placement::{place_window, PlacementError};
use winsnap::plan::{HorizSpec, VertSpec};
use winsnap::session::{is_client_shown, UnresolvedTarget, Window, WindowGroup, WindowType, NORMAL_STATE};

const ROOT: u32 = 1;

fn bx(x0: i16, y0: i16, x1: i16, y1: i16) -> Box2D {
    Box2D::new(Point2D { x: x0, y: y0 }, Point2D { x: x1, y: y1 })
}

fn win(id: u32, parent: u32, children: &[u32], x: i16, y: i16, w: i16, h: i16, typ: WindowType, selectable: bool) -> Window {
    Window {
        id,
        parent,
        children: children.to_vec(),
        geom: Rect { origin: Point2D { x, y }, size: Size2D { width: w, height: h } },
        typ,
        selectable,
    }
}

fn root(children: &[u32]) -> Window {
    win(ROOT, ROOT, children, 0, 0, 1920, 1080, WindowType::Root, false)
}

fn group(windows: Vec<Window>) -> WindowGroup {
    let mut g = WindowGroup::new();
    for w in windows {
        g.insert(w);
    }
    g
}

/// A root with a desktop, a panel along the top edge, and a client inside a
/// frame window of the window manager.
fn desk() -> WindowGroup {
    group(vec![
        root(&[10, 20, 30]),
        win(10, ROOT, &[], 0, 0, 1920, 1080, WindowType::Desktop, false),
        win(20, ROOT, &[], 0, 0, 1920, 20, WindowType::Dock, false),
        win(30, ROOT, &[31], 96, 75, 808, 629, WindowType::Normal, false),
        win(31, 30, &[32], 4, 25, 800, 600, WindowType::Normal, true),
        win(32, 31, &[], 0, 0, 800, 600, WindowType::Normal, false),
    ])
}

#[test]
fn empty_snapshot() {
    let g = WindowGroup::new();
    assert_eq!(g.len(), 0);
    assert!(g.window(1).is_none());
    assert!(g.desktops().is_empty());
    assert!(g.docks().is_empty());
    assert_eq!(g.resolve(1), Err(UnresolvedTarget));
    assert_eq!(available(&bx(0, 0, 10, 10), &g), Err(NoDesktop));
}

#[test]
fn insert_and_look_up() {
    let g = desk();
    assert_eq!(g.len(), 6);
    let w = g.window(31).unwrap();
    assert_eq!(w.id, 31);
    assert_eq!(w.parent, 30);
    assert_eq!(w.children, vec![32]);
    assert!(w.selectable);
    assert!(g.window(99).is_none());
}

#[test]
fn insert_replaces_a_window_of_the_same_id() {
    let mut g = desk();
    g.insert(win(20, ROOT, &[], 0, 0, 1920, 30, WindowType::Desktop, false));
    assert_eq!(g.len(), 6);
    assert_eq!(g.window(20).unwrap().geom.size.height, 30);
    assert_eq!(g.docks(), Vec::<u32>::new());
    assert_eq!(g.desktops(), vec![10, 20]);
    g.insert(win(10, ROOT, &[], 0, 0, 1920, 1080, WindowType::Normal, false));
    assert_eq!(g.desktops(), vec![20]);
}

#[test]
fn desktops_and_docks_in_ascending_order() {
    let g = group(vec![
        root(&[]),
        win(900, ROOT, &[], 0, 0, 10, 10, WindowType::Dock, false),
        win(7, ROOT, &[], 0, 0, 10, 10, WindowType::Dock, false),
        win(4000000000, ROOT, &[], 0, 0, 10, 10, WindowType::Desktop, false),
        win(50, ROOT, &[], 0, 0, 10, 10, WindowType::Dock, false),
        win(3, ROOT, &[], 0, 0, 10, 10, WindowType::Desktop, false),
        win(8, ROOT, &[], 0, 0, 10, 10, WindowType::Normal, true),
    ]);
    assert_eq!(g.docks(), vec![7, 50, 900]);
    assert_eq!(g.desktops(), vec![3, 4000000000]);
}

#[test]
fn category_from_the_announced_type() {
    let (dock, desktop) = (400, 401);
    assert_eq!(WindowType::classify(true, Some(dock), dock, desktop), WindowType::Root);
    assert_eq!(WindowType::classify(true, None, dock, desktop), WindowType::Root);
    assert_eq!(WindowType::classify(false, Some(dock), dock, desktop), WindowType::Dock);
    assert_eq!(WindowType::classify(false, Some(desktop), dock, desktop), WindowType::Desktop);
    assert_eq!(WindowType::classify(false, Some(399), dock, desktop), WindowType::Normal);
    assert_eq!(WindowType::classify(false, None, dock, desktop), WindowType::Normal);
}

#[test]
fn shown_clients_are_selectable() {
    assert_eq!(NORMAL_STATE, 1);
    assert!(is_client_shown(true, Some(1)));
    assert!(!is_client_shown(true, Some(0)));
    assert!(!is_client_shown(true, Some(3)));
    assert!(!is_client_shown(false, Some(1)));
    assert!(!is_client_shown(true, None));
}

#[test]
fn root_marks() {
    assert!(root(&[]).ends_chain());
    assert!(win(5, 0, &[], 0, 0, 1, 1, WindowType::Normal, false).ends_chain());
    assert!(win(5, 5, &[], 0, 0, 1, 1, WindowType::Normal, false).ends_chain());
    assert!(win(5, 9, &[], 0, 0, 1, 1, WindowType::Root, false).ends_chain());
    assert!(!win(5, 9, &[], 0, 0, 1, 1, WindowType::Normal, false).ends_chain());
}

#[test]
fn a_selectable_window_resolves_to_itself() {
    assert_eq!(desk().resolve(31), Ok(31));
}

#[test]
fn resolve_walks_up_to_a_selectable_ancestor() {
    let g = desk();
    assert_eq!(g.resolve(32), Ok(31));
    let deep = group(vec![
        root(&[2]),
        win(2, ROOT, &[3], 0, 0, 1, 1, WindowType::Normal, true),
        win(3, 2, &[4], 0, 0, 1, 1, WindowType::Normal, false),
        win(4, 3, &[5], 0, 0, 1, 1, WindowType::Normal, false),
        win(5, 4, &[], 0, 0, 1, 1, WindowType::Normal, false),
    ]);
    assert_eq!(deep.resolve(5), Ok(2));
}

#[test]
fn resolve_takes_the_nearest_ancestor() {
    let g = group(vec![
        root(&[2]),
        win(2, ROOT, &[3], 0, 0, 1, 1, WindowType::Normal, true),
        win(3, 2, &[4], 0, 0, 1, 1, WindowType::Normal, true),
        win(4, 3, &[], 0, 0, 1, 1, WindowType::Normal, false),
    ]);
    assert_eq!(g.resolve(4), Ok(3));
}

#[test]
fn resolve_falls_back_to_the_first_selectable_child() {
    let g = desk();
    // the frame window has no selectable ancestor, but holds the client
    assert_eq!(g.resolve(30), Ok(31));
    let many = group(vec![
        root(&[2]),
        win(2, ROOT, &[5, 4, 3], 0, 0, 1, 1, WindowType::Normal, false),
        win(3, 2, &[], 0, 0, 1, 1, WindowType::Normal, true),
        win(4, 2, &[], 0, 0, 1, 1, WindowType::Normal, true),
        win(5, 2, &[], 0, 0, 1, 1, WindowType::Normal, false),
    ]);
    assert_eq!(many.resolve(2), Ok(4));
}

#[test]
fn resolve_prefers_an_ancestor_to_a_child() {
    let g = group(vec![
        root(&[2]),
        win(2, ROOT, &[3], 0, 0, 1, 1, WindowType::Normal, true),
        win(3, 2, &[4], 0, 0, 1, 1, WindowType::Normal, false),
        win(4, 3, &[], 0, 0, 1, 1, WindowType::Normal, true),
    ]);
    assert_eq!(g.resolve(3), Ok(2));
}

#[test]
fn resolve_skips_children_that_the_snapshot_lacks() {
    let g = group(vec![
        root(&[2]),
        win(2, ROOT, &[77, 3], 0, 0, 1, 1, WindowType::Normal, false),
        win(3, 2, &[], 0, 0, 1, 1, WindowType::Normal, true),
    ]);
    assert_eq!(g.resolve(2), Ok(3));
}

#[test]
fn resolve_does_not_look_below_the_children() {
    let g = group(vec![
        root(&[2]),
        win(2, ROOT, &[3], 0, 0, 1, 1, WindowType::Normal, false),
        win(3, 2, &[4], 0, 0, 1, 1, WindowType::Normal, false),
        win(4, 3, &[], 0, 0, 1, 1, WindowType::Normal, true),
    ]);
    assert_eq!(g.resolve(2), Err(UnresolvedTarget));
}

#[test]
fn resolve_fails_without_any_selectable_window() {
    let g = desk();
    assert_eq!(g.resolve(10), Err(UnresolvedTarget));
    assert_eq!(g.resolve(ROOT), Err(UnresolvedTarget));
    assert_eq!(g.resolve(12345), Err(UnresolvedTarget));
}

#[test]
fn resolve_from_the_root_looks_at_its_children() {
    let g = group(vec![
        root(&[2, 3]),
        win(2, ROOT, &[], 0, 0, 1, 1, WindowType::Normal, false),
        win(3, ROOT, &[], 0, 0, 1, 1, WindowType::Normal, true),
    ]);
    assert_eq!(g.resolve(ROOT), Ok(3));
}

#[test]
fn resolve_ends_on_a_ring_of_parents() {
    let g = group(vec![
        win(2, 3, &[], 0, 0, 1, 1, WindowType::Normal, false),
        win(3, 4, &[], 0, 0, 1, 1, WindowType::Normal, false),
        win(4, 2, &[9], 0, 0, 1, 1, WindowType::Normal, false),
        win(9, 4, &[], 0, 0, 1, 1, WindowType::Normal, true),
    ]);
    assert_eq!(g.resolve(2), Err(UnresolvedTarget));
    assert_eq!(g.resolve(4), Ok(9));
    assert_eq!(g.abs_xlate(2), None);
    assert_eq!(g.abs_box(2), None);
}

#[test]
fn resolve_stops_where_a_parent_is_missing() {
    let g = group(vec![
        win(3, 2, &[4], 0, 0, 1, 1, WindowType::Normal, false),
        win(4, 3, &[], 0, 0, 1, 1, WindowType::Normal, true),
    ]);
    assert_eq!(g.resolve(3), Ok(4));
    assert_eq!(g.abs_xlate(3), None);
}

#[test]
fn absolute_offset_adds_the_origins_above() {
    let g = desk();
    assert_eq!(g.abs_xlate(ROOT), Some(Vector2D { x: 0, y: 0 }));
    assert_eq!(g.abs_xlate(30), Some(Vector2D { x: 0, y: 0 }));
    assert_eq!(g.abs_xlate(31), Some(Vector2D { x: 96, y: 75 }));
    assert_eq!(g.abs_xlate(32), Some(Vector2D { x: 100, y: 100 }));
    assert_eq!(g.abs_xlate(999), None);
}

#[test]
fn absolute_offset_counts_the_origin_of_the_root() {
    let g = group(vec![
        win(ROOT, 0, &[2], 5, 7, 100, 100, WindowType::Root, false),
        win(2, ROOT, &[3], 10, 20, 50, 50, WindowType::Normal, false),
        win(3, 2, &[], 1, 2, 10, 10, WindowType::Normal, true),
    ]);
    assert_eq!(g.abs_xlate(3), Some(Vector2D { x: 15, y: 27 }));
    assert_eq!(g.abs_box(3), Some(bx(16, 29, 26, 39)));
}

#[test]
fn absolute_box_of_a_window() {
    let g = desk();
    assert_eq!(g.abs_box(31), Some(bx(100, 100, 900, 700)));
    assert_eq!(g.abs_box(30), Some(bx(96, 75, 904, 704)));
    assert_eq!(g.abs_box(20), Some(bx(0, 0, 1920, 20)));
    assert_eq!(g.abs_box(999), None);
}

#[test]
fn absolute_offset_through_sums_beyond_the_coordinate_space() {
    let g = group(vec![
        root(&[2]),
        win(2, ROOT, &[3], 30000, 0, 1, 1, WindowType::Normal, false),
        win(3, 2, &[4], 30000, 0, 1, 1, WindowType::Normal, false),
        win(4, 3, &[5], -30000, 0, 1, 1, WindowType::Normal, false),
        win(5, 4, &[], -29000, 0, 10, 10, WindowType::Normal, true),
    ]);
    assert_eq!(g.abs_xlate(3), Some(Vector2D { x: 30000, y: 0 }));
    assert_eq!(g.abs_xlate(4), None);
    assert_eq!(g.abs_box(4), Some(bx(30000, 0, 30001, 1)));
    assert_eq!(g.abs_xlate(5), Some(Vector2D { x: 30000, y: 0 }));
    assert_eq!(g.abs_box(5), Some(bx(1000, 0, 1010, 10)));
    assert_eq!(g.abs_box(3), None);
}

#[test]
fn absolute_box_needs_a_size_that_is_not_negative() {
    let g = group(vec![root(&[2]), win(2, ROOT, &[], 10, 10, -5, 10, WindowType::Normal, true)]);
    assert_eq!(g.abs_xlate(2), Some(Vector2D { x: 0, y: 0 }));
    assert_eq!(g.abs_box(2), None);
}

#[test]
fn a_panel_along_the_top_leaves_what_is_below() {
    let desktop = bx(0, 0, 1920, 1080);
    assert_eq!(subtract_dock(&desktop, &bx(0, 0, 1920, 20)), bx(0, 20, 1920, 1080));
}

#[test]
fn panels_along_the_other_edges() {
    let desktop = bx(0, 0, 1920, 1080);
    assert_eq!(subtract_dock(&desktop, &bx(0, 1040, 1920, 1080)), bx(0, 0, 1920, 1040));
    assert_eq!(subtract_dock(&desktop, &bx(0, 0, 64, 1080)), bx(64, 0, 1920, 1080));
    assert_eq!(subtract_dock(&desktop, &bx(1856, 0, 1920, 1080)), bx(0, 0, 1856, 1080));
}

#[test]
fn a_dock_that_covers_the_area_is_ignored() {
    let a = bx(0, 20, 1920, 1080);
    assert_eq!(subtract_dock(&a, &a), a);
    assert_eq!(subtract_dock(&a, &bx(-10, -10, 3000, 3000)), a);
}

#[test]
fn a_dock_apart_from_the_area_is_ignored() {
    let a = bx(0, 20, 1920, 1080);
    assert_eq!(subtract_dock(&a, &bx(0, 0, 1920, 20)), a);
    assert_eq!(subtract_dock(&a, &bx(1920, 20, 2000, 1080)), a);
    assert_eq!(subtract_dock(&a, &bx(5000, 5000, 6000, 6000)), a);
    assert_eq!(subtract_dock(&a, &bx(100, 100, 100, 200)), a);
}

#[test]
fn the_last_strip_wins() {
    let a = bx(0, 0, 1000, 1000);
    // a dock in the middle leaves all four strips: the one below is taken
    assert_eq!(subtract_dock(&a, &bx(400, 400, 600, 600)), bx(0, 600, 1000, 1000));
    // in the bottom right corner: to the left and above; above is later
    assert_eq!(subtract_dock(&a, &bx(900, 900, 1000, 1000)), bx(0, 0, 1000, 900));
    // a column in the middle over the whole height: left and right
    assert_eq!(subtract_dock(&a, &bx(400, 0, 600, 1000)), bx(600, 0, 1000, 1000));
    // in the top left corner: to the right and below
    assert_eq!(subtract_dock(&a, &bx(0, 0, 100, 100)), bx(0, 100, 1000, 1000));
    // in the top right corner: to the left and below
    assert_eq!(subtract_dock(&a, &bx(900, 0, 1000, 100)), bx(0, 100, 1000, 1000));
    // along the bottom but not up to the right edge: right and above
    assert_eq!(subtract_dock(&a, &bx(0, 900, 500, 1000)), bx(0, 0, 1000, 900));
}

#[test]
fn a_dock_that_reaches_beyond_the_area_is_cut_to_it() {
    let a = bx(0, 0, 1000, 1000);
    assert_eq!(subtract_dock(&a, &bx(-50, -50, 2000, 30)), bx(0, 30, 1000, 1000));
}

#[test]
fn the_desktop_under_a_window() {
    let g = desk();
    assert_eq!(desktop_of(&bx(100, 100, 900, 700), &g), Ok((10, bx(0, 0, 1920, 1080))));
    assert_eq!(desktop_of(&bx(1920, 0, 2000, 100), &g), Err(NoDesktop));
}

#[test]
fn the_first_desktop_that_overlaps_wins() {
    let g = group(vec![
        root(&[5, 6, 7]),
        win(7, ROOT, &[], 0, 0, 1920, 1080, WindowType::Desktop, false),
        win(6, ROOT, &[], 1000, 0, 1920, 1080, WindowType::Desktop, false),
        win(5, ROOT, &[], 1920, 0, 1920, 1080, WindowType::Desktop, false),
    ]);
    // overlaps 6 by most of its width and 5 by a sliver; 5 comes first
    assert_eq!(desktop_of(&bx(1900, 10, 2900, 500), &g), Ok((5, bx(1920, 0, 3840, 1080))));
    assert_eq!(desktop_of(&bx(1500, 10, 1600, 500), &g), Ok((6, bx(1000, 0, 2920, 1080))));
    assert_eq!(desktop_of(&bx(10, 10, 20, 20), &g), Ok((7, bx(0, 0, 1920, 1080))));
}

#[test]
fn usable_area_of_a_desktop_under_a_panel() {
    let g = desk();
    assert_eq!(available(&bx(100, 100, 900, 700), &g), Ok(bx(0, 20, 1920, 1080)));
}

#[test]
fn no_desktop_under_the_window() {
    let g = desk();
    assert_eq!(available(&bx(2000, 2000, 2100, 2100), &g), Err(NoDesktop));
    let none = group(vec![root(&[]), win(20, ROOT, &[], 0, 0, 1920, 20, WindowType::Dock, false)]);
    assert_eq!(available(&bx(0, 0, 10, 10), &none), Err(NoDesktop));
}

#[test]
fn docks_are_taken_off_one_after_the_other() {
    // a panel on the left and one on top that stops short of the right edge
    let g = group(vec![
        root(&[]),
        win(10, ROOT, &[], 0, 0, 1920, 1080, WindowType::Desktop, false),
        win(41, ROOT, &[], 0, 0, 1800, 30, WindowType::Dock, false),
        win(40, ROOT, &[], 0, 0, 100, 1080, WindowType::Dock, false),
    ]);
    // 40 leaves [(100,0)-(1920,1080)]; of that 41 leaves a strip to the
    // right and one below, and the one below is taken
    assert_eq!(subtract_docks(&bx(0, 0, 1920, 1080), &g), bx(100, 30, 1920, 1080));
    assert_eq!(available(&bx(500, 500, 600, 600), &g), Ok(bx(100, 30, 1920, 1080)));
}

#[test]
fn the_order_of_the_docks_matters() {
    let upper = |id| win(id, ROOT, &[], 0, 0, 1000, 100, WindowType::Dock, false);
    let lower = |id| win(id, ROOT, &[], 0, 100, 1000, 900, WindowType::Dock, false);
    let start = bx(0, 0, 1000, 1000);
    // the upper one first leaves what the lower one covers, and a dock that
    // covers all that is left is ignored
    let g = group(vec![root(&[]), lower(3), upper(2)]);
    assert_eq!(g.docks(), vec![2, 3]);
    assert_eq!(subtract_docks(&start, &g), bx(0, 100, 1000, 1000));
    // the lower one first leaves what the upper one covers
    let g = group(vec![root(&[]), lower(2), upper(3)]);
    assert_eq!(subtract_docks(&start, &g), bx(0, 0, 1000, 100));
}

#[test]
fn docks_without_a_box_reserve_nothing() {
    let g = group(vec![
        root(&[]),
        win(20, 777, &[], 0, 0, 1920, 20, WindowType::Dock, false),
        win(21, ROOT, &[], 0, 0, 1920, -20, WindowType::Dock, false),
    ]);
    assert_eq!(subtract_docks(&bx(0, 0, 1920, 1080), &g), bx(0, 0, 1920, 1080));
}

#[test]
fn without_docks_the_desktop_is_the_usable_area() {
    let g = group(vec![root(&[]), win(10, ROOT, &[], 0, 0, 1920, 1080, WindowType::Desktop, false)]);
    assert_eq!(available(&bx(0, 0, 10, 10), &g), Ok(bx(0, 0, 1920, 1080)));
    assert_eq!(subtract_docks(&bx(3, 4, 5, 6), &g), bx(3, 4, 5, 6));
}

#[test]
fn place_the_client_on_the_left_half() {
    let g = desk();
    let frame = SideOffsets2D { top: 25, right: 4, bottom: 4, left: 4 };
    // the client covers [(100,100)-(900,700)], with its frame
    // [(96,75)-(904,704)]; the framed box goes to [(0,20)-(960,550)]
    assert_eq!(
        place_window(&g, 31, &frame, HorizSpec::Left50, VertSpec::Top),
        Ok(bx(4, 45, 956, 546))
    );
    assert_eq!(
        place_window(&g, 31, &SideOffsets2D::zero(), HorizSpec::Left50, VertSpec::Top),
        Ok(bx(0, 20, 960, 550))
    );
    assert_eq!(
        place_window(&g, 31, &frame, HorizSpec::Current, VertSpec::Current),
        Ok(bx(100, 100, 900, 700))
    );
    assert_eq!(
        place_window(&g, 31, &frame, HorizSpec::Full, VertSpec::Full),
        Ok(bx(4, 45, 1916, 1076))
    );
}

#[test]
fn place_a_window_off_every_desktop() {
    let mut g = desk();
    g.insert(win(50, ROOT, &[], 3000, 3000, 100, 100, WindowType::Normal, true));
    assert_eq!(
        place_window(&g, 50, &SideOffsets2D::zero(), HorizSpec::Left, VertSpec::Full),
        Err(PlacementError::NoDesktop)
    );
}

#[test]
fn place_a_window_that_has_no_box() {
    let g = desk();
    assert_eq!(
        place_window(&g, 999, &SideOffsets2D::zero(), HorizSpec::Left, VertSpec::Full),
        Err(PlacementError::OutOfRange)
    );
    let mut far = desk();
    far.insert(win(50, ROOT, &[], 32000, 0, 700, 100, WindowType::Normal, true));
    let frame = SideOffsets2D { top: 0, right: 100, bottom: 0, left: 0 };
    assert_eq!(far.abs_box(50), Some(bx(32000, 0, 32700, 100)));
    assert_eq!(
        place_window(&far, 50, &frame, HorizSpec::Left, VertSpec::Full),
        Err(PlacementError::OutOfRange)
    );
}

#[test]
fn place_with_a_frame_wider_than_the_coordinate_space_allows() {
    let g = group(vec![
        root(&[]),
        win(10, ROOT, &[], -32768, 0, 32767, 100, WindowType::Desktop, false),
        win(11, ROOT, &[], -32000, 0, 10, 10, WindowType::Normal, true),
    ]);
    let frame = SideOffsets2D { top: 0, right: 32767, bottom: 0, left: 0 };
    // the quarter of the desktop ends at -24577, from which the right side
    // of the frame cannot be taken off
    assert_eq!(
        place_window(&g, 11, &frame, HorizSpec::Left25, VertSpec::Current),
        Err(PlacementError::OutOfRange)
    );
}
