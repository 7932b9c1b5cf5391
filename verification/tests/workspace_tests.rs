use hitokage_core::workspace::{tie_pass, ItemSize as Size};
use hitokage_core::workspace::{button_ties, edge_gap, ChildConstraints, Tie, TieBook};
use hitokage_core::workspace::{ItemSize, ItemSizeHook};
use hitokage_core::json::Json;
use hitokage_core::workspace::{
    child_constraints, first_visible_or_focused, focus_decision, format_workspace_names, get_workspaces,
    last_visible_or_focused, plan_workspace_children, previous_visible, workspace_label, ChildAction,
    FocusDecision, WorkspaceError, WorkspaceState,
};

fn obj(fields: Vec<(&str, Json)>) -> Json {
    Json::Object(fields.into_iter().map(|(k, v)| (k.to_string(), v)).collect())
}

fn num(n: u64) -> Json {
    Json::Number(Some(n))
}

fn s(v: &str) -> Json {
    Json::String(v.to_string())
}

fn workspace(name: &str, containers: usize, floating: usize) -> Json {
    obj(vec![
        ("name", s(name)),
        ("containers", obj(vec![("elements", Json::Array((0..containers).map(|_| Json::Null).collect()))])),
        ("floating_windows", Json::Array((0..floating).map(|_| Json::Null).collect())),
    ])
}

fn state(monitor_id: u64, workspaces: Vec<Json>, focused: Option<u64>) -> Json {
    let mut ws = vec![("elements", Json::Array(workspaces))];
    if let Some(f) = focused {
        ws.push(("focused", num(f)));
    }
    obj(vec![(
        "monitors",
        obj(vec![(
            "elements",
            Json::Array(vec![
                obj(vec![("id", num(monitor_id + 100)), ("workspaces", obj(vec![]))]),
                obj(vec![("id", num(monitor_id)), ("workspaces", obj(ws))]),
            ]),
        )]),
    )])
}

fn ws(name: Option<&str>, focused: bool, visible: bool) -> WorkspaceState {
    (name.map(|n| n.to_string()), focused, visible)
}

#[test]
fn workspaces_are_read_from_the_matching_monitor() {
    let st = state(
        7,
        vec![workspace("one", 1, 0), workspace("two", 0, 0), workspace("three", 0, 2)],
        Some(1),
    );
    let got = get_workspaces(&st, 7).unwrap();
    assert_eq!(
        got,
        vec![ws(Some("one"), false, true), ws(Some("two"), true, true), ws(Some("three"), false, true)]
    );
}

#[test]
fn workspace_without_content_is_hidden() {
    let st = state(1, vec![workspace("a", 0, 0), workspace("b", 0, 0)], Some(0));
    let got = get_workspaces(&st, 1).unwrap();
    assert_eq!(got, vec![ws(Some("a"), true, true), ws(Some("b"), false, false)]);
}

#[test]
fn focused_index_out_of_range_marks_nothing() {
    let st = state(1, vec![workspace("a", 0, 0)], Some(5));
    let got = get_workspaces(&st, 1).unwrap();
    assert_eq!(got, vec![ws(Some("a"), false, false)]);
}

#[test]
fn workspace_without_a_name_has_none() {
    let st = state(2, vec![obj(vec![("containers", obj(vec![]))])], None);
    let got = get_workspaces(&st, 2).unwrap();
    assert_eq!(got, vec![ws(None, false, false)]);
}

#[test]
fn missing_monitors_is_an_error() {
    assert_eq!(get_workspaces(&obj(vec![]), 0), Err(WorkspaceError::MissingMonitors));
    assert_eq!(get_workspaces(&Json::Null, 0), Err(WorkspaceError::MissingMonitors));
}

#[test]
fn monitors_that_is_not_an_object_is_an_error() {
    let st = obj(vec![("monitors", Json::Array(vec![]))]);
    assert_eq!(get_workspaces(&st, 0), Err(WorkspaceError::InvalidMonitors));
}

#[test]
fn monitors_without_elements_is_an_error() {
    let st = obj(vec![("monitors", obj(vec![]))]);
    assert_eq!(get_workspaces(&st, 0), Err(WorkspaceError::MissingMonitorElements));
}

#[test]
fn monitor_elements_that_are_not_an_array_is_an_error() {
    let st = obj(vec![("monitors", obj(vec![("elements", num(3))]))]);
    assert_eq!(get_workspaces(&st, 0), Err(WorkspaceError::InvalidMonitorElements));
}

#[test]
fn unknown_monitor_is_an_error() {
    let st = state(1, vec![], None);
    assert_eq!(get_workspaces(&st, 9), Err(WorkspaceError::MonitorNotFound));
}

#[test]
fn monitor_without_workspaces_is_an_error() {
    let st = obj(vec![("monitors", obj(vec![("elements", Json::Array(vec![obj(vec![("id", num(4))])]))]))]);
    assert_eq!(get_workspaces(&st, 4), Err(WorkspaceError::MissingWorkspaces));
}

#[test]
fn workspaces_without_elements_is_an_error() {
    let st = obj(vec![(
        "monitors",
        obj(vec![("elements", Json::Array(vec![obj(vec![("id", num(4)), ("workspaces", obj(vec![]))])]))]),
    )]);
    assert_eq!(get_workspaces(&st, 4), Err(WorkspaceError::MissingWorkspaceElements));
}

#[test]
fn workspace_elements_that_are_not_an_array_is_an_error() {
    let st = obj(vec![(
        "monitors",
        obj(vec![(
            "elements",
            Json::Array(vec![obj(vec![("id", num(4)), ("workspaces", obj(vec![("elements", s("x"))]))])]),
        )]),
    )]);
    assert_eq!(get_workspaces(&st, 4), Err(WorkspaceError::InvalidWorkspaceElements));
}

#[test]
fn first_matching_monitor_wins() {
    let st = obj(vec![(
        "monitors",
        obj(vec![(
            "elements",
            Json::Array(vec![
                obj(vec![("id", num(3)), ("workspaces", obj(vec![("elements", Json::Array(vec![workspace("first", 1, 0)]))]))]),
                obj(vec![("id", num(3)), ("workspaces", obj(vec![("elements", Json::Array(vec![]))]))]),
            ]),
        )]),
    )]);
    assert_eq!(get_workspaces(&st, 3).unwrap(), vec![ws(Some("first"), false, true)]);
}

#[test]
fn rendered_names_replace_names() {
    let out = format_workspace_names(
        vec![ws(Some("a"), true, true), ws(None, false, false)],
        vec![None, Some("2!".to_string())],
    );
    assert_eq!(out, vec![ws(Some("a"), true, true), ws(Some("2!"), false, false)]);
}

#[test]
fn label_falls_back_to_one_based_index() {
    assert_eq!(workspace_label(&Some("web".to_string()), 3), "web");
    assert_eq!(workspace_label(&None, 0), "1");
    assert_eq!(workspace_label(&None, 11), "12");
}

#[test]
fn first_and_last_present() {
    let w = vec![ws(None, false, false), ws(None, false, true), ws(None, true, false), ws(None, false, false)];
    assert_eq!(first_visible_or_focused(&w), Some(1));
    assert_eq!(last_visible_or_focused(&w), Some(2));
    let none = vec![ws(None, false, false)];
    assert_eq!(first_visible_or_focused(&none), None);
    assert_eq!(last_visible_or_focused(&none), None);
}

#[test]
fn focus_decisions() {
    let w = vec![ws(None, false, true), ws(None, true, true), ws(None, false, true)];
    assert_eq!(focus_decision(&w, 1), FocusDecision::AlreadyFocused);
    assert_eq!(focus_decision(&w, 2), FocusDecision::Focus(2));
    let none = vec![ws(None, false, true)];
    assert_eq!(focus_decision(&none, 0), FocusDecision::NoneFocused);
}

#[test]
fn previous_visible_button() {
    let v = vec![true, false, true, false, false];
    assert_eq!(previous_visible(&v, 4), Some(2));
    assert_eq!(previous_visible(&v, 2), Some(0));
    assert_eq!(previous_visible(&v, 0), None);
    assert_eq!(previous_visible(&vec![false, false], 2), None);
}

#[test]
fn constraints_of_buttons() {
    let w = vec![ws(None, false, false), ws(None, false, true), ws(None, true, true), ws(None, false, false)];
    let visible = vec![false, true, true, false];
    let c0 = child_constraints(&w, &visible, 0);
    assert!(!c0.pin_left && c0.after.is_none() && !c0.pin_right);
    let c1 = child_constraints(&w, &visible, 1);
    assert!(c1.pin_left && c1.after.is_none() && !c1.pin_right);
    let c2 = child_constraints(&w, &visible, 2);
    assert!(!c2.pin_left && c2.after == Some(1) && c2.pin_right);
    let c3 = child_constraints(&w, &visible, 3);
    assert!(!c3.pin_left && c3.after == Some(2) && !c3.pin_right);
}

fn describe(a: &ChildAction) -> String {
    match a {
        ChildAction::Update { index, label, visible, selected } => {
            format!("update {} {} {} {}", index, label, visible, selected)
        }
        ChildAction::Remove { index } => format!("remove {}", index),
        ChildAction::Append { index, label, visible, selected, class } => {
            assert_eq!(class, "workspacechild");
            format!("append {} {} {} {}", index, label, visible, selected)
        }
    }
}

#[test]
fn plan_appends_missing_buttons() {
    let w = vec![ws(Some("a"), true, true), ws(None, false, false), ws(Some("c"), false, true)];
    let plan: Vec<String> = plan_workspace_children(1, &w).iter().map(describe).collect();
    assert_eq!(plan, vec!["update 0 a true true", "append 1 2 false false", "append 2 c true false"]);
}

#[test]
fn plan_removes_half_the_surplus_each_pass() {
    let w = vec![ws(None, false, true)];
    let plan: Vec<String> = plan_workspace_children(6, &w).iter().map(describe).collect();
    assert_eq!(plan, vec!["update 0 1 true false", "remove 1", "remove 2", "remove 3"]);
    let plan: Vec<String> = plan_workspace_children(5, &w).iter().map(describe).collect();
    assert_eq!(plan, vec!["update 0 1 true false", "remove 1", "remove 2"]);
}

#[test]
fn plan_for_equal_counts_only_updates() {
    let w = vec![ws(None, false, false), ws(Some("x"), true, false)];
    let plan: Vec<String> = plan_workspace_children(2, &w).iter().map(describe).collect();
    assert_eq!(plan, vec!["update 0 1 false false", "update 1 x true true"]);
}

#[test]
fn item_size_requests_all_go_to_the_width() {
    let mut size = ItemSize::from_props(None, Some(30));
    assert_eq!(size, ItemSize { width: 16, height: 30 });
    assert_eq!(size.apply(ItemSizeHook::GetItemHeight), Some(16));
    assert_eq!(size.apply(ItemSizeHook::SetItemHeight(40)), None);
    assert_eq!(size, ItemSize { width: 40, height: 30 });
    assert_eq!(size.apply(ItemSizeHook::GetItemWidth), Some(40));
    size.apply(ItemSizeHook::SetItemWidth(u32::MAX));
    assert_eq!(size.apply(ItemSizeHook::GetItemWidth), Some(u32::MAX));
}

fn children_after_pass(children: usize, w: &Vec<WorkspaceState>) -> usize {
    let mut count = children;
    for a in plan_workspace_children(children, w) {
        match a {
            ChildAction::Remove { .. } => count -= 1,
            ChildAction::Append { .. } => count += 1,
            ChildAction::Update { .. } => {}
        }
    }
    count
}

#[test]
fn repeated_passes_converge() {
    let w = vec![ws(None, false, true), ws(None, true, true)];
    let mut children = 11;
    let mut counts = vec![children];
    while children != w.len() {
        children = children_after_pass(children, &w);
        counts.push(children);
    }
    assert_eq!(counts, vec![11, 6, 4, 3, 2]);
    assert_eq!(children_after_pass(2, &w), 2);
    assert_eq!(children_after_pass(0, &w), 2);
}

#[test]
fn at_most_one_workspace_is_focused() {
    let st = state(5, vec![workspace("a", 0, 0), workspace("b", 1, 0), workspace("c", 0, 0)], Some(2));
    let got = get_workspaces(&st, 5).unwrap();
    let focused: Vec<usize> = got.iter().enumerate().filter(|(_, w)| w.1).map(|(i, _)| i).collect();
    assert_eq!(focused, vec![2]);
    assert!(got[2].2);
}

fn apply(row: &mut Vec<(String, bool, bool)>, plan: Vec<ChildAction>) {
    for a in plan {
        match a {
            ChildAction::Update { index, label, visible, selected } => row[index] = (label, visible, selected),
            ChildAction::Remove { index } => {
                row.remove(index);
            }
            ChildAction::Append { label, visible, selected, class, .. } => {
                assert_eq!(class, "workspacechild");
                row.push((label, visible, selected))
            }
        }
    }
}

#[test]
fn a_pass_shows_each_workspace_as_it_should() {
    let w = vec![ws(Some("a"), false, true), ws(None, true, false), ws(None, false, false), ws(Some("d"), false, false)];
    let expected = vec![
        ("a".to_string(), true, false),
        ("2".to_string(), true, true),
        ("3".to_string(), false, false),
        ("d".to_string(), false, false),
    ];
    let mut row = vec![("old".to_string(), true, true)];
    let plan = plan_workspace_children(row.len(), &w);
    apply(&mut row, plan);
    assert_eq!(row, expected);
    let mut row: Vec<(String, bool, bool)> = (0..9).map(|i| (i.to_string(), true, false)).collect();
    let plan = plan_workspace_children(row.len(), &w);
    apply(&mut row, plan);
    assert_eq!(row.len(), 6);
    assert_eq!(&row[..4], &expected[..]);
}

#[test]
fn edge_gaps_and_ties() {
    assert_eq!(edge_gap(4, 2), 4);
    assert_eq!(edge_gap(-1, 3), 3);
    let c = ChildConstraints { pin_left: true, after: Some(2), pin_right: true };
    assert_eq!(
        button_ties(c, 5, 6),
        vec![Tie::LeftToRow { gap: 5 }, Tie::AfterButton { index: 2 }, Tie::RightToRow { gap: 6 }]
    );
    let c = ChildConstraints { pin_left: false, after: None, pin_right: false };
    assert!(button_ties(c, 5, 6).is_empty());
}

#[test]
fn tie_book_hands_back_the_old_ties() {
    let mut book = TieBook::new();
    assert!(book.replace(2, vec![Tie::AfterButton { index: 1 }]).is_empty());
    assert_eq!(book.entries.len(), 3);
    assert!(book.entries[0].is_empty() && book.entries[1].is_empty());
    assert!(book.replace(0, vec![Tie::LeftToRow { gap: 1 }]).is_empty());
    let old = book.replace(2, vec![Tie::RightToRow { gap: 0 }]);
    assert_eq!(old, vec![Tie::AfterButton { index: 1 }]);
    assert_eq!(book.entries[2], vec![Tie::RightToRow { gap: 0 }]);
    assert_eq!(book.entries[0], vec![Tie::LeftToRow { gap: 1 }]);
}

#[test]
fn a_tie_pass_replaces_every_buttons_ties() {
    let w = vec![ws(None, false, false), ws(None, true, true), ws(None, false, true)];
    let visible = vec![false, true, true];
    let margins = vec![(1, 2), (3, 0), (0, 5)];
    let mut book = TieBook::new();
    book.replace(0, vec![Tie::LeftToRow { gap: 9 }]);
    book.replace(4, vec![Tie::AfterButton { index: 3 }]);
    let pass = tie_pass(&w, &visible, &margins, (2, 2), Size { width: 20, height: 16 }, &mut book);
    assert_eq!(pass.removed, vec![vec![Tie::LeftToRow { gap: 9 }], vec![], vec![]]);
    assert_eq!(pass.sizes, vec![(23, 16), (23, 16), (25, 16)]);
    assert!(book.entries[0].is_empty());
    assert_eq!(book.entries[1], vec![Tie::LeftToRow { gap: 3 }]);
    assert_eq!(book.entries[2], vec![Tie::AfterButton { index: 1 }, Tie::RightToRow { gap: 5 }]);
    assert_eq!(book.entries[4], vec![Tie::AfterButton { index: 3 }]);
    let again = tie_pass(&w, &visible, &margins, (2, 2), Size { width: 20, height: 16 }, &mut book);
    assert_eq!(again.removed[2], vec![Tie::AfterButton { index: 1 }, Tie::RightToRow { gap: 5 }]);
}
