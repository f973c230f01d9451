use scap::decimal::push_decimal;
use scap::{
    displays_of, get_all_displays, get_all_targets, get_main_display, get_scale_factor,
    get_target_dimensions, Desktop, Display, DisplayInfo, Entry, Target, Window, WindowInfo,
};

fn display(id: u32, title: &str, raw_handle: u64) -> Display {
    Display { id, title: title.to_string(), raw_handle }
}

fn window(id: u32, title: &str, raw_handle: u64) -> Window {
    Window { id, title: title.to_string(), raw_handle }
}

fn display_entry(d: Display, width: u64, height: u64, scale_percent: u32) -> Entry {
    Entry::Display(DisplayInfo { display: d, width, height, scale_percent })
}

fn window_entry(w: Window, width: u64, height: u64, display_id: u32) -> Entry {
    Entry::Window(WindowInfo { window: w, width, height, display_id })
}

/// Two displays, the second one scaled, and three windows spread over them.
fn sample_desktop() -> Desktop {
    Desktop {
        entries: vec![
            window_entry(window(101, "Editor", 0x1001), 800, 600, 1),
            display_entry(display(1, "Built-in", 0xA1), 1920, 1080, 100),
            window_entry(window(102, "Terminal", 0x1002), 640, 480, 2),
            display_entry(display(2, "External", 0xA2), 2560, 1440, 200),
            window_entry(window(103, "", 0x1003), 300, 200, 2),
        ],
        main_display: Some(1),
    }
}

fn ids_and_titles(ts: &[Target]) -> Vec<(bool, u32, String)> {
    ts.iter()
        .map(|t| match t {
            Target::Window(w) => (false, w.id, w.title.clone()),
            Target::Display(d) => (true, d.id, d.title.clone()),
        })
        .collect()
}

#[test]
fn displays_with_same_id_are_equal() {
    let a = display(7, "Built-in", 1);
    let b = display(7, "Renamed", 99);
    assert!(a == b);
    assert_eq!(a, b);
}

#[test]
fn displays_with_other_ids_differ() {
    let a = display(7, "Built-in", 1);
    let b = display(8, "Built-in", 1);
    assert!(a != b);
}

#[test]
fn all_targets_in_platform_order() {
    let desk = sample_desktop();
    let ts = get_all_targets(&desk);
    assert_eq!(
        ids_and_titles(&ts),
        vec![
            (false, 101, "Editor".to_string()),
            (true, 1, "Built-in".to_string()),
            (false, 102, "Terminal".to_string()),
            (true, 2, "External".to_string()),
            (false, 103, "".to_string()),
        ]
    );
    match &ts[0] {
        Target::Window(w) => assert_eq!(w.raw_handle, 0x1001),
        Target::Display(_) => panic!("expected a window"),
    }
}

#[test]
fn all_displays_are_the_display_targets_in_order() {
    let desk = sample_desktop();
    let ds = get_all_displays(&desk);
    assert_eq!(ds.len(), 2);
    assert_eq!(ds[0].id, 1);
    assert_eq!(ds[0].title, "Built-in");
    assert_eq!(ds[0].raw_handle, 0xA1);
    assert_eq!(ds[1].id, 2);
    assert_eq!(ds[1].title, "External");
    let from_targets: Vec<Display> = get_all_targets(&desk)
        .into_iter()
        .filter_map(|t| match t {
            Target::Display(d) => Some(d),
            Target::Window(_) => None,
        })
        .collect();
    assert_eq!(ds, from_targets);
}

#[test]
fn displays_of_drops_windows_only() {
    let ts = vec![
        Target::Display(display(5, "B", 0)),
        Target::Window(window(9, "w", 0)),
        Target::Display(display(4, "A", 0)),
    ];
    let ds = displays_of(ts);
    assert_eq!(ds.len(), 2);
    assert_eq!(ds[0].id, 5);
    assert_eq!(ds[1].id, 4);
    assert!(displays_of(vec![Target::Window(window(1, "w", 0))]).is_empty());
}

#[test]
fn empty_desktop_lists_nothing() {
    let desk = Desktop { entries: Vec::new(), main_display: None };
    assert!(get_all_targets(&desk).is_empty());
    assert!(get_all_displays(&desk).is_empty());
    assert!(get_main_display(&desk).is_none());
}

#[test]
fn display_dimensions_are_native() {
    let desk = Desktop {
        entries: vec![display_entry(display(1, "Built-in", 0), 1920, 1080, 200)],
        main_display: Some(1),
    };
    let t = Target::Display(display(1, "Built-in", 0));
    assert_eq!(get_target_dimensions(&desk, &t), Some((1920, 1080)));
}

#[test]
fn window_dimensions_are_its_own() {
    let desk = sample_desktop();
    let t = Target::Window(window(102, "Terminal", 0x1002));
    assert_eq!(get_target_dimensions(&desk, &t), Some((640, 480)));
}

#[test]
fn stale_target_has_no_dimensions() {
    let desk = sample_desktop();
    assert_eq!(get_target_dimensions(&desk, &Target::Window(window(999, "gone", 0))), None);
    assert_eq!(get_target_dimensions(&desk, &Target::Display(display(101, "x", 0))), None);
}

#[test]
fn display_formats_title_and_size() {
    let desk = Desktop {
        entries: vec![display_entry(display(3, "Built-in", 0), 2560, 1440, 100)],
        main_display: None,
    };
    let d = display(3, "Built-in", 0);
    assert_eq!(d.to_string(&desk), Some("Built-in 2560x1440".to_string()));
    assert_eq!(d.label(2560, 1440), "Built-in 2560x1440");
}

#[test]
fn display_format_reads_size_at_each_call() {
    let d = display(3, "Built-in", 0);
    let before = Desktop {
        entries: vec![display_entry(display(3, "Built-in", 0), 1920, 1080, 100)],
        main_display: None,
    };
    let after = Desktop {
        entries: vec![display_entry(display(3, "Built-in", 0), 3840, 2160, 100)],
        main_display: None,
    };
    assert_eq!(d.to_string(&before), Some("Built-in 1920x1080".to_string()));
    assert_eq!(d.to_string(&after), Some("Built-in 3840x2160".to_string()));
    assert_eq!(d.to_string(&Desktop { entries: Vec::new(), main_display: None }), None);
}

#[test]
fn label_edge_sizes() {
    let d = display(1, "", 0);
    assert_eq!(d.label(0, 0), " 0x0");
    assert_eq!(d.label(u64::MAX, 10), " 18446744073709551615x10");
}

#[test]
fn decimal_digits() {
    let mut s = String::from("n=");
    push_decimal(&mut s, 1234567890);
    assert_eq!(s, "n=1234567890");
    let mut z = String::new();
    push_decimal(&mut z, 0);
    assert_eq!(z, "0");
}

#[test]
fn enumerating_twice_gives_same_content() {
    let desk = sample_desktop();
    let first = get_all_targets(&desk);
    let second = get_all_targets(&desk);
    assert_eq!(ids_and_titles(&first), ids_and_titles(&second));
    assert_eq!(get_all_displays(&desk), get_all_displays(&desk));
}

#[test]
fn same_listing_with_other_handles_gives_same_content() {
    let a = sample_desktop();
    let mut b = sample_desktop();
    for e in b.entries.iter_mut() {
        match e {
            Entry::Window(w) => w.window.raw_handle += 7,
            Entry::Display(d) => d.display.raw_handle += 7,
        }
    }
    assert_eq!(
        ids_and_titles(&get_all_targets(&a)),
        ids_and_titles(&get_all_targets(&b))
    );
}

#[test]
fn window_scale_is_its_display_scale() {
    let desk = sample_desktop();
    let on_external = Target::Window(window(103, "", 0x1003));
    let external = Target::Display(display(2, "External", 0xA2));
    assert_eq!(get_scale_factor(&desk, &on_external), Some(200));
    assert_eq!(get_scale_factor(&desk, &on_external), get_scale_factor(&desk, &external));
    let on_builtin = Target::Window(window(101, "Editor", 0x1001));
    assert_eq!(get_scale_factor(&desk, &on_builtin), Some(100));
}

#[test]
fn window_on_missing_display_has_no_scale() {
    let desk = Desktop {
        entries: vec![window_entry(window(1, "w", 0), 10, 10, 42)],
        main_display: None,
    };
    assert_eq!(get_scale_factor(&desk, &Target::Window(window(1, "w", 0))), None);
}

#[test]
fn main_display_is_the_named_one() {
    let mut desk = sample_desktop();
    let m = get_main_display(&desk).expect("main display");
    assert_eq!(m.id, 1);
    assert_eq!(m.title, "Built-in");
    desk.main_display = Some(2);
    assert_eq!(get_main_display(&desk).map(|d| d.title), Some("External".to_string()));
    desk.main_display = Some(77);
    assert!(get_main_display(&desk).is_none());
    desk.main_display = None;
    assert!(get_main_display(&desk).is_none());
}

#[test]
fn duplicate_ids_resolve_to_first_entry() {
    let desk = Desktop {
        entries: vec![
            display_entry(display(1, "first", 0), 100, 100, 100),
            display_entry(display(1, "second", 0), 200, 200, 150),
        ],
        main_display: Some(1),
    };
    let t = Target::Display(display(1, "", 0));
    assert_eq!(get_target_dimensions(&desk, &t), Some((100, 100)));
    assert_eq!(get_scale_factor(&desk, &t), Some(100));
    assert_eq!(get_main_display(&desk).map(|d| d.title), Some("first".to_string()));
}

#[test]
fn clones_keep_every_field() {
    let t = Target::Window(window(4, "w", 77));
    match t.clone() {
        Target::Window(w) => {
            assert_eq!(w.id, 4);
            assert_eq!(w.title, "w");
            assert_eq!(w.raw_handle, 77);
        }
        Target::Display(_) => panic!("expected a window"),
    }
}
