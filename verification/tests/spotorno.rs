use spotorno::api::{
    needs_incident, query_get, recent_limit, route, settle_frames, split_url, unit_task_request,
    PendingShot, Route, ShotTick,
};
use spotorno::bench::{Bench, View};
use spotorno::browser::{
    browser_key, household_label, normalized_query, person_label, roster, traveller_label,
    unit_label, BrowserKey, Shown, UnitRow,
};
use spotorno::buildings::{
    damage_state, occupied, status_of, windows_lit, Damage, Footprint, Kind, StructureInfo,
};
use spotorno::camera::{
    keyboard_navigation, left_free, modified, navigation_hint, shift, Button, CameraMode,
    DragOwner, Key, Renderer,
};
use spotorno::capture::{manual_shot_name, shot_file, Script, ScriptStep};
use spotorno::changes::{
    observe_households, observe_people, observe_travellers, observe_units, Event, HouseholdSnap,
    PersonSnap, TravellerInfo, UnitSnap,
};
use spotorno::composer::{
    applied_status, apply_label, blocked_reason, deleted_nodes, domain_actions, domain_assignment, draft_state,
    commit_overrides, emphasis_runs, first_profile, import_status, keeps_profile, parse_tags,
    prune_status, skipped_note, switch_behaviour,
    Profile, Tracking,
    keeps_override, new_graph_id, opening_tab, pretty, readout, reload_outcome, requested_domain,
    saved_status, tally, transfer_check, trim_zeros, Arrival, Domain, ProfileEntry, Readout,
    RightTab,
};
use spotorno::dossier::{
    home_feelings, household_facts, journey, perceptions, person_facts, unit_facts, Air, Band, Family,
    HouseExposure,
    FuelDistance, Gust, Home, HouseholdFacts, PersonFacts, Sight, UnitFacts, Water, Whereabouts,
};
use spotorno::fire_layer::{number_keys, FireLayer};
use spotorno::graph::{
    branch, closes_loop, duplicate_branch, free_id, hookup, roots, Duplicate, Hookup, Shape, Wire,
};
use spotorno::ignition::{click, ignitable, EditMode, Ignite};
use spotorno::inspect::{
    history_heading, household_pickable, intent_label, interview_subject, mmss, order_received,
    person_pickable, subject_of, title, traveller_pickable, watch_target, Selected, Target,
};
use spotorno::interview::{interview_title, EnvOpen, FollowUp, Interview, Job, Said, SelfTest};
use spotorno::live::{role, DecisionLog, LiveRole, HISTORY};
use spotorno::model::{
    action_colour, channel_text, intent_key, intent_text, status_text, task_kind, travel_state_text,
    ActionKind, Intent, Status, Subject, Task, TaskKind, TravelState, UnitKind, UnitState,
    WarningChannel,
};
use spotorno::orders::{
    armed_hint, confirmation_text, menu_entry, next_assignable, order_target_reason, GroundChecks, status_line, target_reason, Focus,
    KeyOutcome, Order, OrderKeys, OrderKind, OrderTool, Placement, PreviewKey, RosterUnit, TargetChecks,
    ToolCommand,
};
use spotorno::recall::{
    elapsed, family_line, household_line, label, recollection, situation, Detail, SubjectKind,
    SubjectRef,
};
use spotorno::request::{
    apply_profile_edit, load_request, play_request, profile_edit, profile_request, profile_settled,
    reload_path, screenshot_decision, screenshot_gate, screenshot_layer, screenshot_settle,
    unit_task_body, Setting,
};
use spotorno::shortcuts::{composer_key, global_keys, ComposerKey, Controls, GlobalKeys};
use spotorno::summary::summarize;
use spotorno::text::{
    contains, decimal_string, eq_ignore_ascii_case, parse_usize, signed_decimal_string,
    split_once, str_eq, trim,
};
use spotorno::undo::{History, Snapshot, UNDO_LIMIT};

fn detail() -> Detail {
    Detail {
        from: None,
        to: None,
        members: None,
        away: None,
        mode: None,
        note: None,
        task: None,
        action: None,
        total_drops: None,
        households: None,
    }
}

fn wire(from_node: u32, to_node: u32) -> Wire {
    Wire { from_node, from_port: 0, to_node, to_port: 0 }
}

// --- scenarios -------------------------------------------------------------

#[test]
fn structure_includes_outputs_disconnected_nodes_and_cycles() {
    let (input, output, orphan, cycle) = (1u32, 2u32, 3u32, 4u32);
    let mut graph = Shape { nodes: vec![input, output, orphan, cycle], wires: Vec::new() };
    graph.wires.push(Wire { from_node: input, from_port: 0, to_node: output, to_port: 0 });
    graph.wires.push(Wire { from_node: cycle, from_port: 0, to_node: cycle, to_port: 0 });
    assert_eq!(roots(&graph), vec![output, orphan, cycle]);
    graph.wires.clear();
    assert_eq!(roots(&graph), vec![input, output, orphan, cycle]);
}

#[test]
fn a_commanders_order_is_not_a_memory_until_it_arrives() {
    let d = detail();
    assert!(recollection(SubjectKind::Household, "order_issued", &d).is_none());
    assert!(recollection(SubjectKind::Household, "warning_received", &d).is_some());
}

#[test]
fn a_status_change_becomes_something_a_person_would_say() {
    let d = Detail { from: Some("normal".to_string()), to: Some("preparing".to_string()), ..detail() };
    let line = recollection(SubjectKind::Household, "status", &d).unwrap();
    assert!(line.contains("getting ready"));
    assert!(!line.contains("status"));
    assert!(!line.contains("preparing ->"));
}

#[test]
fn unrecognised_events_are_dropped_rather_than_guessed() {
    let d = Detail { to: Some("something new".to_string()), ..detail() };
    assert!(recollection(SubjectKind::Household, "status", &d).is_none());
    assert!(recollection(SubjectKind::Household, "no_such_event", &d).is_none());
}

#[test]
fn a_unit_remembers_its_own_orders_and_a_household_does_not() {
    let d = Detail { task: Some("line".to_string()), ..detail() };
    assert!(recollection(SubjectKind::Unit, "unit_task", &d).is_some());
    assert!(recollection(SubjectKind::Household, "unit_task", &d).is_none());
}

#[test]
fn both_modifier_sides_block_plain_shortcuts() {
    for key in [
        Key::SuperLeft,
        Key::SuperRight,
        Key::ControlLeft,
        Key::ControlRight,
        Key::AltLeft,
        Key::AltRight,
    ] {
        let keys = vec![key];
        assert!(modified(&keys));
    }
    let keys = vec![Key::ShiftRight];
    assert!(shift(&keys));
    assert!(!modified(&keys));
}

#[test]
fn selecting_an_entity_cancels_stale_order_and_syncs_crew() {
    let mut tool: OrderTool<(f32, f32)> = OrderTool::new();
    tool.selected = Some(1);
    tool.armed = Some(OrderKind::Attack);
    tool.sync_selection(Some(Target::Unit(2)), true);
    assert_eq!(tool.selected, Some(2));
    assert!(!tool.is_armed());
}

#[test]
fn placing_an_order_disarms_and_acknowledges() {
    let id = 3usize;
    let target = (120.0f32, 340.0f32);
    let mut tool: OrderTool<(f32, f32)> = OrderTool::new();
    tool.selected = Some(id);
    tool.armed = Some(OrderKind::Attack);
    tool.hover = Some((target, true));
    let placed = tool.place(true, None);
    assert!(matches!(placed, Placement::Assign(3, Order::Attack(p)) if p == target));
    tool.accepted(confirmation_text("Squadra B", OrderKind::Attack, UnitKind::HandCrew, "120, 340", true));
    assert!(!tool.is_armed());
    assert!(tool.confirmation.as_ref().unwrap().contains("Build defensive line"));
    // A second click must not replace the accepted order.
    assert!(matches!(tool.place(true, None), Placement::Ignored));
    assert!(!tool.is_armed());
}

#[test]
fn text_focus_acquired_this_frame_blocks_game_shortcuts() {
    let roster = vec![
        RosterUnit { kind: UnitKind::HandCrew, assignable: true },
        RosterUnit { kind: UnitKind::Engine, assignable: true },
    ];
    let mut tool: OrderTool<(f32, f32)> = OrderTool::new();
    tool.selected = Some(1);
    let mut ignition = EditMode::Off;
    let keys = OrderKeys {
        escape: false,
        tab: false,
        attack: true,
        line: false,
        drop: false,
        stand_down: false,
        request_air: false,
    };
    tool.keys(&mut ignition, keys, true, &roster);
    assert!(!tool.is_armed());
    tool.keys(&mut ignition, keys, false, &roster);
    assert!(tool.is_armed());
}

#[test]
fn invalid_or_incompatible_targets_do_not_pass_validation() {
    let roster = vec![
        RosterUnit { kind: UnitKind::HandCrew, assignable: true },
        RosterUnit { kind: UnitKind::Engine, assignable: true },
    ];
    let engine = Some(1usize);
    let ground = |inside: bool| GroundChecks { inside, connected: true, in_reach: true, approach: true, fuel: true };
    assert!(order_target_reason(engine, Some(OrderKind::Drop), &roster, ground(true)).is_some());
    assert_eq!(
        order_target_reason(engine, Some(OrderKind::Attack), &roster, ground(false)),
        Some("Target is outside the scenario.")
    );
    assert!(order_target_reason(None, Some(OrderKind::Attack), &roster, ground(true)).is_some());
    assert_eq!(order_target_reason(engine, Some(OrderKind::Attack), &roster, ground(true)), None);
    let out_of_reach = GroundChecks { in_reach: false, ..ground(true) };
    assert_eq!(
        order_target_reason(engine, Some(OrderKind::Attack), &roster, out_of_reach),
        Some("Outside hose reach. Target inside the road coverage ring.")
    );
    assert_eq!(order_target_reason(Some(0), Some(OrderKind::Attack), &roster, out_of_reach), None);
    let busy = vec![RosterUnit { kind: UnitKind::Engine, assignable: false }];
    assert!(order_target_reason(Some(0), Some(OrderKind::Attack), &busy, ground(true)).is_some());
}

#[test]
fn decimals_are_written_without_leading_zeros() {
    assert_eq!(decimal_string(0), "0");
    assert_eq!(decimal_string(1577), "1577");
    assert_eq!(decimal_string(u64::MAX), "18446744073709551615");
    assert_eq!(signed_decimal_string(-42), "-42");
    assert_eq!(signed_decimal_string(i64::MIN), "-9223372036854775808");
}

#[test]
fn substring_search_and_equality() {
    assert!(contains("evacuated / safe", "safe"));
    assert!(contains("abc", ""));
    assert!(!contains("ab", "abc"));
    assert!(str_eq("unit", "unit"));
    assert!(!str_eq("unit", "units"));
    assert!(eq_ignore_ascii_case("Spread risk", "SPREAD RISK"));
    assert!(!eq_ignore_ascii_case("Flames", "Flame"));
}

#[test]
fn trimming_drops_unicode_white_space_at_both_ends() {
    assert_eq!(trim("  12\t"), "12");
    assert_eq!(trim("\u{3000}hh\u{a0}"), "hh");
    assert_eq!(trim("   "), "");
    assert_eq!(trim("a b"), "a b");
}

#[test]
fn splitting_at_the_first_separator() {
    assert_eq!(split_once("household:12", ':'), Some(("household", "12")));
    assert_eq!(split_once("a:b:c", ':'), Some(("a", "b:c")));
    assert_eq!(split_once("unit", ':'), None);
}

#[test]
fn usize_parsing_matches_the_standard_library() {
    for s in ["0", "42", "+7", "007", "18446744073709551615", "", "+", "-1", "1a", " 1", "18446744073709551616"] {
        assert_eq!(parse_usize(s), s.parse::<usize>().ok(), "{s:?}");
    }
}

// --- inspect -------------------------------------------------------------

#[test]
fn a_watch_request_names_one_agent() {
    assert_eq!(watch_target("household:12"), Some(Target::Household(12)));
    assert_eq!(watch_target(" hh : 3 "), Some(Target::Household(3)));
    assert_eq!(watch_target("person:7"), Some(Target::Person(7)));
    assert_eq!(watch_target("unit:2"), Some(Target::Unit(2)));
    assert_eq!(watch_target("unit"), Some(Target::Unit(0)));
    assert_eq!(watch_target("unit:x"), Some(Target::Unit(0)));
    assert_eq!(watch_target("tree:1"), None);
}

#[test]
fn a_pinned_selection_survives_a_restart() {
    let mut s = Selected::watching(Some("person:4"));
    assert_eq!(s.target(), Some(Target::Person(4)));
    s.select(Some(Target::Unit(1)));
    s.restart();
    assert_eq!(s.target(), Some(Target::Person(4)));
    let mut plain = Selected::new();
    plain.select(Some(Target::Traveller(3)));
    plain.restart();
    assert_eq!(plain.target(), None);
}

#[test]
fn inspector_titles_and_clock() {
    assert_eq!(title(Target::Household(12)), "Household #12");
    assert_eq!(title(Target::Person(0)), "Person #0");
    assert_eq!(title(Target::Traveller(5)), "On the move");
    assert_eq!(title(Target::Unit(3)), "Unit #3");
    assert_eq!(mmss(0), "0:00");
    assert_eq!(mmss(125), "2:05");
    assert_eq!(mmss(3600), "60:00");
    assert_eq!(mmss(-5), "0:00");
    assert_eq!(subject_of(Target::Traveller(9)), Subject::Traveller(9));
}

#[test]
fn a_vehicle_is_interviewed_through_whoever_is_in_it() {
    let car = TravellerInfo {
        state: TravelState::OnNetwork,
        household: 8,
        car: true,
        members: 3,
        solo: false,
        first_member: Some(20),
    };
    let walker = TravellerInfo { solo: true, members: 1, first_member: Some(31), ..car };
    assert_eq!(
        interview_subject(Target::Traveller(0), Some(car)),
        Some(SubjectRef { kind: SubjectKind::Household, id: 8 })
    );
    assert_eq!(
        interview_subject(Target::Traveller(1), Some(walker)),
        Some(SubjectRef { kind: SubjectKind::Person, id: 31 })
    );
    assert_eq!(interview_subject(Target::Traveller(2), None), None);
    assert_eq!(
        interview_subject(Target::Unit(4), None),
        Some(SubjectRef { kind: SubjectKind::Unit, id: 4 })
    );
}

// --- camera --------------------------------------------------------------

#[test]
fn camera_modes_toggle_fall_back_and_let_go() {
    let t = Target::Traveller(2);
    assert_eq!(CameraMode::Free.toggle_follow(t), CameraMode::Follow(t));
    assert_eq!(CameraMode::Follow(t).toggle_follow(t), CameraMode::Free);
    assert_eq!(CameraMode::Follow(t).toggle_first_person(t), CameraMode::FirstPerson(t));
    assert_eq!(CameraMode::FirstPerson(t).validated(false), CameraMode::Free);
    assert_eq!(CameraMode::FirstPerson(t).validated(true), CameraMode::FirstPerson(t));
    assert_eq!(CameraMode::FirstPerson(t).for_renderer(Renderer::Map2d), CameraMode::Follow(t));
    assert_eq!(CameraMode::FirstPerson(t).for_renderer(Renderer::Scene3d), CameraMode::FirstPerson(t));
    assert_eq!(CameraMode::Follow(t).after_pan(true), CameraMode::Free);
    assert_eq!(CameraMode::default(), CameraMode::Free);
}

#[test]
fn follow_updates_over_panels_and_manual_pan_releases_it() {
    let followed = Target::Household(0);
    let mut mode = CameraMode::Follow(followed);
    // The pointer over a panel does not stop the camera following.
    mode = mode.validated(true);
    assert_eq!(mode, CameraMode::Follow(followed));
    // An arrow key pans, and panning by hand lets go.
    let panned = keyboard_navigation(true, false, &vec![Key::Other]);
    assert!(panned);
    mode = mode.after_pan(panned);
    assert_eq!(mode, CameraMode::Free);
}

#[test]
fn typing_and_platform_chords_do_not_pan_or_release_follow() {
    let followed = Target::Household(0);
    let mut mode = CameraMode::Follow(followed);
    let typing = keyboard_navigation(true, true, &vec![Key::Other]);
    assert!(!typing);
    mode = mode.after_pan(typing);
    let chord = keyboard_navigation(true, false, &vec![Key::Other, Key::SuperLeft]);
    assert!(!chord);
    mode = mode.after_pan(chord);
    assert_eq!(mode, CameraMode::Follow(Target::Household(0)));
}

#[test]
fn a_drag_belongs_to_where_it_began() {
    let mut owner = DragOwner::new();
    owner.update(Button::Left, true, true, true, true, true);
    assert!(owner.left);
    owner.update(Button::Left, true, false, true, false, true);
    assert!(owner.left, "crossing a panel keeps the drag");
    owner.update(Button::Left, false, false, true, true, true);
    assert!(!owner.left);
    owner.update(Button::Left, true, true, true, true, false);
    assert!(!owner.left, "an armed tool keeps left-drag");
    owner.update(Button::Right, true, true, true, true, false);
    assert!(owner.right);
    owner.update(Button::Right, true, false, false, true, false);
    assert!(!owner.right, "losing window focus drops it");
    assert!(left_free(false, false));
    assert!(!left_free(true, false));
    assert!(!keyboard_navigation(true, false, &vec![Key::AltLeft]));
    assert!(keyboard_navigation(true, false, &vec![Key::ShiftLeft]));
    assert!(navigation_hint(Renderer::Map2d).starts_with("2D · north up"));
}

// --- orders --------------------------------------------------------------

#[test]
fn orders_are_named_for_the_unit_and_refused_to_the_wrong_kind() {
    assert_eq!(OrderKind::Attack.label_for(UnitKind::Engine), "Suppress from road");
    assert_eq!(OrderKind::Attack.label_for(UnitKind::HandCrew), "Build defensive line here");
    assert_eq!(OrderKind::Attack.label_for(UnitKind::AirTanker), "Attack here");
    assert_eq!(OrderKind::Line.label_for(UnitKind::Engine), "Draw line (2 clicks)");
    assert!(OrderKind::Attack.allowed_for(UnitKind::Engine));
    assert!(!OrderKind::Attack.allowed_for(UnitKind::AirTanker));
    assert!(OrderKind::Line.allowed_for(UnitKind::HandCrew));
    assert!(!OrderKind::Line.allowed_for(UnitKind::Engine));
    assert!(OrderKind::Drop.allowed_for(UnitKind::AirTanker));
}

#[test]
fn tab_cycles_through_units_that_can_be_ordered() {
    let flags = vec![true, false, true, false];
    assert_eq!(next_assignable(None, &flags), Some(0));
    assert_eq!(next_assignable(Some(0), &flags), Some(2));
    assert_eq!(next_assignable(Some(2), &flags), Some(0));
    assert_eq!(next_assignable(Some(7), &flags), Some(0));
    assert_eq!(next_assignable(Some(1), &vec![false, false]), None);
    assert_eq!(next_assignable(None, &Vec::new()), None);
}

#[test]
fn a_hand_line_takes_two_clicks() {
    let mut tool: OrderTool<(i32, i32)> = OrderTool::new();
    tool.selected = Some(1);
    tool.toggle(OrderKind::Line);
    tool.hover = Some(((10, 20), true));
    assert_eq!(tool.place(true, None), Placement::LineStarted);
    assert_eq!(tool.line_from, Some((10, 20)));
    tool.hover = Some(((30, 40), true));
    assert_eq!(tool.place(true, None), Placement::Assign(1, Order::Line((10, 20), (30, 40))));
    assert_eq!(tool.line_from, None);
}

#[test]
fn placing_an_order_refuses_without_a_unit_or_a_workable_target() {
    let mut tool: OrderTool<(i32, i32)> = OrderTool::new();
    tool.toggle(OrderKind::Attack);
    tool.hover = Some(((1, 1), true));
    assert_eq!(tool.place(true, None), Placement::Refused);
    assert_eq!(tool.refusal.as_deref(), Some("Select a unit first."));
    assert!(tool.click_consumed);
    tool.selected = Some(0);
    assert_eq!(tool.place(true, Some("Outside hose reach.")), Placement::Refused);
    assert_eq!(tool.refusal.as_deref(), Some("Outside hose reach."));
    assert_eq!(tool.place(false, None), Placement::Ignored);
    assert_eq!(tool.place(true, None), Placement::Assign(0, Order::Attack((1, 1))));
}

#[test]
fn an_accepted_order_disarms_and_acknowledges() {
    let mut tool: OrderTool<(i32, i32)> = OrderTool::new();
    tool.selected = Some(3);
    tool.toggle(OrderKind::Attack);
    tool.hover = Some(((5, 6), true));
    assert_eq!(tool.place(true, None), Placement::Assign(3, Order::Attack((5, 6))));
    let msg = confirmation_text("Squadra A", OrderKind::Attack, UnitKind::HandCrew, "5, 6", false);
    assert_eq!(msg, "Squadra A: Build defensive line here ordered at 5, 6 m. Press Play to execute.");
    tool.accepted(msg);
    assert!(!tool.is_armed());
    assert!(tool.confirmation.as_ref().unwrap().contains("Build defensive line"));
    assert_eq!(tool.place(true, None), Placement::Ignored);
    tool.toggle(OrderKind::Attack);
    tool.refused("Squadra A", "no road within reach");
    assert_eq!(tool.refusal.as_deref(), Some("Squadra A: no road within reach"));
    assert!(tool.is_armed());
}

#[test]
fn order_keys_arm_cycle_and_keep_one_tool_on_left_click() {
    let roster = vec![
        RosterUnit { kind: UnitKind::Engine, assignable: true },
        RosterUnit { kind: UnitKind::AirTanker, assignable: false },
        RosterUnit { kind: UnitKind::HandCrew, assignable: true },
    ];
    let none = OrderKeys {
        escape: false,
        tab: false,
        attack: false,
        line: false,
        drop: false,
        stand_down: false,
        request_air: false,
    };
    let mut tool: OrderTool<(i32, i32)> = OrderTool::new();
    let mut ignition = EditMode::Place;
    let out = tool.keys(&mut ignition, OrderKeys { tab: true, ..none }, false, &roster);
    assert_eq!(tool.selected, Some(0));
    assert_eq!(out.inspect, Some(Some(Target::Unit(0))));
    assert!(out.focus_units);
    let out = tool.keys(&mut ignition, OrderKeys { attack: true, ..none }, false, &roster);
    assert!(tool.is_armed());
    assert_eq!(ignition, EditMode::Off);
    assert!(out.focus_units);
    tool.keys(&mut ignition, OrderKeys { drop: true, ..none }, false, &roster);
    assert_eq!(tool.armed, Some(OrderKind::Attack), "an engine cannot drop");
    let typed = tool.keys(&mut ignition, OrderKeys { escape: true, ..none }, true, &roster);
    assert!(tool.is_armed(), "typing in a text field does not disarm");
    assert_eq!(
        typed,
        KeyOutcome { focus_units: false, inspect: None, request_air: false, stand_down: None }
    );
    ignition = EditMode::Place;
    tool.keys(&mut ignition, none, false, &roster);
    assert!(!tool.is_armed(), "whichever tool was reached for last is live");
    let out = tool.keys(&mut ignition, OrderKeys { stand_down: true, request_air: true, ..none }, false, &roster);
    assert_eq!(out.stand_down, Some(0));
    assert!(out.request_air);
    assert_eq!(tool.keys(&mut ignition, OrderKeys { tab: true, ..none }, false, &roster).inspect, Some(Some(Target::Unit(2))));
}

#[test]
fn menu_commands_hand_left_click_to_one_tool() {
    let roster = vec![RosterUnit { kind: UnitKind::Engine, assignable: true }];
    let mut tool: OrderTool<(i32, i32)> = OrderTool::new();
    let mut ignition = EditMode::Place;
    assert_eq!(tool.command(&mut ignition, ToolCommand::Arm(OrderKind::Attack), &roster), Focus::Units);
    assert_eq!(ignition, EditMode::Off);
    assert!(tool.is_armed());
    assert_eq!(tool.command(&mut ignition, ToolCommand::ArmIgnition, &roster), Focus::Fire);
    assert_eq!(ignition, EditMode::Place);
    assert!(!tool.is_armed());
    assert_eq!(tool.command(&mut ignition, ToolCommand::ArmIgnition, &roster), Focus::Stay);
    assert_eq!(ignition, EditMode::Off);
    tool.command(&mut ignition, ToolCommand::NextUnit, &roster);
    assert_eq!(tool.selected, Some(0));
    tool.command(&mut ignition, ToolCommand::Cancel, &roster);
    assert!(!tool.is_armed());
}

#[test]
fn the_status_strip_says_what_a_click_will_do() {
    assert_eq!(armed_hint(true, Some(OrderKind::Attack), false).as_deref(), Some("▶ click to light a fire"));
    assert_eq!(armed_hint(false, Some(OrderKind::Line), false).as_deref(), Some("▶ click where the line starts"));
    assert_eq!(armed_hint(false, Some(OrderKind::Line), true).as_deref(), Some("▶ click where the line ends"));
    assert_eq!(armed_hint(false, Some(OrderKind::Drop), false).as_deref(), Some("▶ click to order: drop here"));
    assert_eq!(armed_hint(false, None, false), None);
}

#[test]
fn roster_selection_and_restart_clear_stale_state() {
    let mut tool: OrderTool<(i32, i32)> = OrderTool::new();
    tool.selected = Some(1);
    tool.toggle(OrderKind::Line);
    tool.line_from = Some((1, 1));
    tool.select_from_roster(Some(1));
    assert!(tool.is_armed(), "the same row changes nothing");
    tool.select_from_roster(Some(2));
    assert!(!tool.is_armed());
    assert_eq!(tool.line_from, None);
    tool.toggle(OrderKind::Attack);
    tool.refusal = Some("old".to_string());
    tool.restart();
    assert!(!tool.is_armed());
    assert_eq!(tool.refusal, None);
    assert_eq!(tool.selected, None);
    assert_eq!(tool.line_from, None);
    tool.toggle(OrderKind::Attack);
    assert!(!tool.hover_gate(true, true));
    assert!(tool.hover_gate(false, false));
}

// --- ignition ------------------------------------------------------------

#[test]
fn an_ignition_needs_burnable_fuel_within_the_patch() {
    // 3 x 3 grid, only the corner (2, 2) burnable.
    let grid = vec![false, false, false, false, false, false, false, false, true];
    assert!(ignitable(&grid, 3, 3, 2, 2, 0));
    assert!(!ignitable(&grid, 3, 3, 0, 0, 1), "(2, 2) is outside a radius of 1");
    assert!(ignitable(&grid, 3, 3, 1, 1, 2));
    assert!(!ignitable(&grid, 3, 3, 1, 1, -1));
    assert_eq!(click(EditMode::Place, true, Some(true)), Ignite::Light);
    assert_eq!(click(EditMode::Place, true, Some(false)), Ignite::Nothing);
    assert_eq!(click(EditMode::Off, true, Some(true)), Ignite::Nothing);
}

// --- fire layers ---------------------------------------------------------

#[test]
fn fire_layers_are_found_by_label_in_any_case() {
    assert_eq!(FireLayer::named("spread risk"), Some(FireLayer::Hazard));
    assert_eq!(FireLayer::named("FLAMES"), Some(FireLayer::Flames));
    assert_eq!(FireLayer::named("smoke"), None);
    assert_eq!(FireLayer::all(), vec![FireLayer::Flames, FireLayer::Intensity, FireLayer::Arrival, FireLayer::Hazard]);
    assert_eq!(number_keys(FireLayer::Flames, false, false, true, false), FireLayer::Arrival);
    assert_eq!(number_keys(FireLayer::Arrival, false, false, false, false), FireLayer::Arrival);
    assert_eq!(FireLayer::Intensity.legend(), "kW/m, log scale: 10 → 10 000");
}

// --- api -----------------------------------------------------------------

#[test]
fn requests_are_routed_by_method_and_path() {
    assert_eq!(route("GET", "/status"), Route::Status);
    assert_eq!(route("POST", "/control/screenshot"), Route::Screenshot);
    assert_eq!(route("POST", "/status"), Route::NoSuchRoute);
    assert_eq!(route("DELETE", "/status"), Route::NoSuchRoute);
    assert_eq!(route("GET", "/scenarios"), Route::ListScenarios);
    assert!(!needs_incident(Route::LoadScenario));
    assert!(needs_incident(Route::NoSuchRoute));
}

#[test]
fn query_strings_are_read_like_the_listener_reads_them() {
    assert_eq!(split_url("/history/recent?limit=5"), ("/history/recent", "limit=5"));
    assert_eq!(split_url("/status"), ("/status", ""));
    assert_eq!(query_get("kind=unit&id=3", "id"), Some("3"));
    assert_eq!(query_get("kind=unit&id=3&id=4", "id"), Some("3"));
    assert_eq!(query_get("flag&id=", "id"), Some(""));
    assert_eq!(query_get("kind=unit", "id"), None);
    assert_eq!(recent_limit(""), 50);
    assert_eq!(recent_limit("limit=7"), 7);
    assert_eq!(recent_limit("limit=abc"), 50);
    assert_eq!(recent_limit("limit=5000"), 1000);
}

#[test]
fn unit_task_requests_need_their_coordinates() {
    assert_eq!(unit_task_request(Some(2), Some("hold"), false, false), Ok((2, TaskKind::Hold)));
    assert_eq!(unit_task_request(Some(2), Some("line"), true, true), Ok((2, TaskKind::Line)));
    assert_eq!(unit_task_request(None, Some("hold"), false, false), Err("expected \"id\": unit index (see /agents/units)"));
    assert_eq!(unit_task_request(Some(1), Some("attack"), false, true), Err("attack needs \"x\"/\"y\""));
    assert_eq!(unit_task_request(Some(1), Some("drop"), false, false), Err("drop needs \"x\"/\"y\""));
    assert_eq!(unit_task_request(Some(1), Some("line"), true, false), Err("line needs \"from_x\"/\"from_y\"/\"to_x\"/\"to_y\""));
    assert_eq!(unit_task_request(Some(1), None, true, true), Err("\"task\" must be one of hold, return, attack, drop, line"));
}

#[test]
fn a_screenshot_waits_out_its_settle_window() {
    assert_eq!(settle_frames(None), 20);
    assert_eq!(settle_frames(Some(3)), 3);
    let mut q: PendingShot<&str> = PendingShot::new();
    assert_eq!(q.tick(), ShotTick::Idle);
    assert!(q.queue("/tmp/a.png", 2));
    assert!(!q.queue("/tmp/b.png", 0), "one at a time");
    assert_eq!(q.tick(), ShotTick::Waiting);
    assert_eq!(q.tick(), ShotTick::Waiting);
    assert_eq!(q.tick(), ShotTick::Take("/tmp/a.png"));
    assert!(!q.is_pending());
}

// --- summary -------------------------------------------------------------

#[test]
fn each_event_reads_as_one_short_line() {
    let status = Detail { from: Some("normal".into()), to: Some("warned".into()), ..detail() };
    assert_eq!(summarize("status", &status).as_deref(), Some("status: normal -> warned"));
    assert_eq!(summarize("status", &detail()).as_deref(), Some("status: ? -> ?"));
    let unit = Detail { from: Some("staged".into()), to: Some("responding".into()), note: Some("no road".into()), ..detail() };
    assert_eq!(summarize("unit_state", &unit).as_deref(), Some("unit: staged -> responding (no road)"));
    let quiet = Detail { note: Some(String::new()), ..unit };
    assert_eq!(summarize("unit_state", &quiet).as_deref(), Some("unit: staged -> responding"));
    let departed = Detail { members: Some(3), ..detail() };
    assert_eq!(summarize("departed", &departed).as_deref(), Some("departed on foot/by car (3 member(s))"));
    assert_eq!(summarize("drop_completed", &Detail { total_drops: Some(2), ..detail() }).as_deref(), Some("drop completed (#2)"));
    assert_eq!(summarize("casualties", &Detail { households: Some(4), ..detail() }).as_deref(), Some("4 household(s) lost"));
    assert_eq!(summarize("separation", &Detail { away: Some(true), ..detail() }).as_deref(), Some("separated from household"));
    assert_eq!(summarize("decision", &detail()), None);
    assert_eq!(summarize("mystery", &detail()).as_deref(), Some("mystery"));
}

// --- dossier -------------------------------------------------------------

#[test]
fn a_household_knows_itself_in_its_own_words() {
    let h = HouseholdFacts {
        members: 3,
        ages: vec![41, 39, 8],
        vehicles: 1,
        needs_help: false,
        home: Some(Home {
            locality: Some("Spotorno".into()),
            address: Some("Via Aurelia 12".into()),
            animals: true,
            fire_before: false,
            fuel: FuelDistance::AtTheWalls,
        }),
        intent: Intent::WaitAndSee,
        risk_perception: Band::High,
        trust_authority: Band::Low,
        channel: WarningChannel::Siren,
        prep_minutes: "45".into(),
        slow_to_leave: true,
        defensible_space: Band::Mid,
        status: Status::Preparing,
        prep_left_minutes: Some("12".into()),
        ordered: true,
        warning_received: false,
    };
    let facts = household_facts(&h);
    let titles: Vec<&str> = facts.iter().map(|f| f.title.as_str()).collect();
    assert_eq!(
        titles,
        vec![
            "Your household",
            "Home",
            "Animals",
            "Where you live",
            "What you always said you would do",
            "How you take a warning",
            "What you make of the authorities",
            "How you would hear",
            "Before you could actually leave",
            "Around the house",
            "Right now you are",
            "Still to do",
            "The order",
        ]
    );
    assert_eq!(facts[0].text, "3 of you (ages 41, 39, 8), one car");
    assert_eq!(facts[1].text, "Via Aurelia 12, Spotorno");
    assert_eq!(facts[8].text, "about 45 minutes of things you would have to do first — you are slow to get moving");
    assert_eq!(facts[11].text, "about 12 more minutes of getting ready");
}

#[test]
fn a_person_away_from_home_knows_who_is_at_the_house() {
    let p = PersonFacts {
        age: 16,
        locality: Some("Noli".into()),
        needs_assistance: false,
        slow_walker: true,
        away: true,
        family: Some(Family { size: 4, status: Status::Warned }),
        status: Status::Evacuating,
    };
    let facts = person_facts(&p);
    let pairs: Vec<(&str, &str)> = facts.iter().map(|f| (f.title.as_str(), f.text.as_str())).collect();
    assert_eq!(pairs[0], ("You", "16 years old"));
    assert_eq!(pairs[1], ("Home", "your family lives in Noli"));
    assert_eq!(pairs[2], ("Moving", "you are slow on your feet"));
    assert_eq!(pairs[4], ("Your family", "there are 3 others at your house"));
    assert_eq!(pairs[6], ("Right now you are", "on your way out"));
    assert_eq!(facts.len(), 7);
}

#[test]
fn a_crew_states_its_orders_and_its_tank() {
    let u = UnitFacts {
        kind: UnitKind::Engine,
        state: "working".into(),
        whereabouts: Whereabouts::OnFireGround,
        task: TaskKind::Attack,
        water: Some(Water::Dry),
        line_cut: None,
        drops: 0,
        note: String::new(),
    };
    let facts = unit_facts(&u);
    assert_eq!(facts.len(), 5);
    assert_eq!(facts[3].text, "work the fire edge where you were sent");
    assert_eq!(facts[4].text, "your tank is dry");
    let journey_out = journey(true, true);
    assert_eq!(journey_out, vec!["You are in the car, on the road out.".to_string(), "There is no way through: you are cut off.".to_string()]);
}

#[test]
fn an_agent_perceives_the_fire_in_plain_words() {
    assert_eq!(
        perceptions(Sight::RightThere, Some("north-east"), true, Air::Heat, Gust::Hard, "32", "west"),
        vec![
            "The fire is right there to the north-east, up the slope — you can hear it.".to_string(),
            "The air here is hot and hard to breathe; ash is falling.".to_string(),
            "A hard wind, 32 km/h, blowing from the west.".to_string(),
        ]
    );
    assert_eq!(
        perceptions(Sight::AKilometre, Some("south"), false, Air::Clear, Gust::Steady, "12", "north"),
        vec![
            "There is a column of smoke perhaps a kilometre off to the south.".to_string(),
            "A steady wind from the north.".to_string(),
        ]
    );
    assert_eq!(
        perceptions(Sight::Nothing, Some("east"), false, Air::Smell, Gust::Light, "3", "east"),
        vec!["You cannot see any fire from here.".to_string(), "You can smell it strongly.".to_string()]
    );
    assert_eq!(
        perceptions(Sight::FewHundredMetres, None, true, Air::Smoke, Gust::Light, "0", "north"),
        vec![
            "The fire is a few hundred metres away. You can see flame.".to_string(),
            "There is smoke on the ground here and it stings.".to_string(),
        ]
    );
}

// --- composer ------------------------------------------------------------

#[test]
fn parameter_keys_read_as_labels() {
    assert_eq!(pretty("wait_and_see"), "Wait and see");
    assert_eq!(pretty(""), "");
    assert_eq!(pretty("_x"), " x");
    assert_eq!(pretty("école"), "école");
}

#[test]
fn deleting_a_node_drops_only_its_own_overrides() {
    let deleted = deleted_nodes(&vec![1, 4, 12], &vec![1, 12]);
    assert_eq!(deleted, vec![4]);
    assert!(!keeps_override("4.threshold", &deleted));
    assert!(keeps_override("42.threshold", &deleted));
    assert!(keeps_override("1.value", &deleted));
    assert!(keeps_override("1.value", &Vec::new()));
}

#[test]
fn the_composer_says_where_the_draft_stands() {
    assert_eq!(draft_state(true, true), "Unsaved · not applied");
    assert_eq!(draft_state(false, false), "Saved · applied");
    assert_eq!(apply_label(true), "Apply and restart *");
    assert_eq!(blocked_reason(2), "2 error(s)");
    assert_eq!(blocked_reason(0), "Library cannot be applied");
    assert_eq!(tally(0, 0), ("✔ valid".to_string(), None));
    assert_eq!(tally(3, 1), ("✖ 3 error(s)".to_string(), Some("⚠ 1 warning(s)".to_string())));
    assert_eq!(opening_tab(Some("test")), RightTab::Bench);
    assert_eq!(opening_tab(Some("nonsense")), RightTab::Inspector);
    assert_eq!(opening_tab(None), RightTab::Inspector);
    assert_eq!(requested_domain(None, "units"), Some(Domain::SuppressionUnit));
    assert_eq!(requested_domain(Some(Domain::Person), "units"), Some(Domain::Person));
    assert_eq!(requested_domain(None, "trees"), None);
    assert_eq!(new_graph_id(Domain::SuppressionUnit), "new-unit-policy");
}

#[test]
fn the_first_profile_in_play_is_preferred() {
    let profiles = vec![
        ProfileEntry { domain: Some(Domain::Household), has_share: false, enabled: true },
        ProfileEntry { domain: Some(Domain::SuppressionUnit), has_share: false, enabled: false },
        ProfileEntry { domain: Some(Domain::Household), has_share: true, enabled: false },
        ProfileEntry { domain: None, has_share: true, enabled: true },
    ];
    assert_eq!(first_profile(&profiles, Domain::Household), Some(2));
    assert_eq!(first_profile(&profiles, Domain::SuppressionUnit), Some(1));
    assert_eq!(first_profile(&profiles, Domain::Person), None);
}

#[test]
fn the_bench_opens_on_the_third_situation() {
    let mut bench: Bench<u32, u8> = Bench { view: View::Sweep, obs: 0, situation: 0, field: 7, verbose: true };
    bench.reset_to(&vec![10, 11, 12, 13], 99, true, 1);
    assert_eq!((bench.situation, bench.obs, bench.field), (2, 12, 7));
    bench.reset_to(&vec![10], 99, false, 1);
    assert_eq!((bench.situation, bench.obs, bench.field), (0, 10, 1));
    bench.reset_to(&Vec::new(), 99, true, 1);
    assert_eq!((bench.situation, bench.obs), (0, 99));
    assert_eq!(bench.view, View::Sweep);
    assert_eq!(View::default(), View::Evaluate);
}

// --- browser -------------------------------------------------------------

#[test]
fn the_roster_filters_by_kind_and_search() {
    let households = vec![(12, Status::Warned), (3, Status::Evacuated)];
    let people = vec![(120, Status::Normal)];
    let travellers = vec![TravellerInfo {
        state: TravelState::OnNetwork,
        household: 3,
        car: true,
        members: 2,
        solo: false,
        first_member: Some(7),
    }];
    let units = vec![UnitRow {
        id: 0,
        callsign: "Squadra A".into(),
        kind_label: "hand crew".into(),
        state_label: "staged".into(),
        status_line: "staged".into(),
    }];
    let shown = Shown::default();
    assert_eq!(
        roster("", shown, &households, &people, &travellers, &units),
        vec![Target::Household(12), Target::Household(3), Target::Traveller(0), Target::Unit(0)]
    );
    assert_eq!(roster(" safe ", shown, &households, &people, &travellers, &units), vec![Target::Household(3)]);
    assert_eq!(roster("SQUADRA", shown, &households, &people, &travellers, &units), vec![Target::Unit(0)]);
    assert_eq!(roster("car", shown, &households, &people, &travellers, &units), vec![Target::Traveller(0)]);
    let all = Shown { people: true, ..shown };
    assert_eq!(roster("12", all, &households, &people, &travellers, &units), vec![Target::Household(12), Target::Person(120)]);
    assert_eq!(normalized_query("  ÉTÉ "), "été");
}

#[test]
fn roster_rows_name_what_they_list() {
    assert_eq!(household_label(12, Some(Status::Warned)), "🏠 #12  warned");
    assert_eq!(household_label(12, None), "🏠 #12  (gone)");
    assert_eq!(person_label(5, Some((Status::Normal, 70))), "🚶 #5  normal, age 70");
    let t = TravellerInfo { state: TravelState::Cutoff, household: 9, car: false, members: 1, solo: true, first_member: Some(2) };
    assert_eq!(traveller_label(Some(t)), "🚗 solo  cut off — no route out");
    assert_eq!(traveller_label(Some(TravellerInfo { solo: false, ..t })), "🚗 household #9  cut off — no route out");
    assert_eq!(unit_label(4, None), "🚒 #4  (gone)");
    assert_eq!(browser_key(false, true, false, false, true), BrowserKey::Hide);
    assert_eq!(browser_key(false, true, false, false, false), BrowserKey::Search);
    assert_eq!(browser_key(false, false, true, true, false), BrowserKey::Nothing);
    assert_eq!(browser_key(true, true, true, false, false), BrowserKey::Nothing);
}

// --- buildings -----------------------------------------------------------

#[test]
fn buildings_are_classed_by_tag_then_size() {
    assert_eq!(Kind::of(Some("villa"), Footprint::Large), Kind::House);
    assert_eq!(Kind::of(Some("hotel"), Footprint::Small), Kind::Apartments);
    assert_eq!(Kind::of(Some("train_station"), Footprint::Medium), Kind::Civic);
    assert_eq!(Kind::of(None, Footprint::Small), Kind::Shed);
    assert_eq!(Kind::of(Some("yes"), Footprint::Large), Kind::Apartments);
    assert_eq!(Kind::of(Some("yes"), Footprint::Medium), Kind::House);
    assert!(Kind::Industrial.flat_roof());
    assert!(!Kind::Civic.flat_roof());
}

#[test]
fn a_burning_structure_burns_down_and_is_reported() {
    assert_eq!(damage_state(false, false, false), Damage::Undamaged);
    assert_eq!(damage_state(false, false, true), Damage::Threatened);
    assert_eq!(damage_state(true, false, false), Damage::Alight);
    assert_eq!(damage_state(true, true, false), Damage::Destroyed);
    assert!(occupied(&vec![Status::Evacuated, Status::Defending]));
    assert!(!occupied(&vec![Status::Evacuated, Status::Evacuating]));
    assert!(windows_lit(Damage::Undamaged, true, true));
    assert!(!windows_lit(Damage::Threatened, true, true));
    let town = vec![
        StructureInfo { households: vec![1, 2], drawn: Damage::Alight },
        StructureInfo { households: vec![3], drawn: Damage::Undamaged },
    ];
    assert_eq!(status_of(&town, 2), Some("alight"));
    assert_eq!(status_of(&town, 3), Some("undamaged"));
    assert_eq!(status_of(&town, 9), None);
}

// --- interview -----------------------------------------------------------

#[test]
fn opening_an_interview_pauses_once_and_switching_agents_starts_afresh() {
    let mut iv: Interview<String> = Interview::new(None);
    let a = SubjectRef { kind: SubjectKind::Household, id: 4 };
    let b = SubjectRef { kind: SubjectKind::Unit, id: 1 };
    iv.open_for(a);
    assert!(iv.take_pause());
    assert!(!iv.take_pause());
    iv.set_input("where are you?".into());
    iv.open_for(a);
    assert_eq!(iv.input(), "where are you?");
    assert!(!iv.take_pause(), "already open");
    iv.open_for(b);
    assert_eq!(iv.input(), "");
    assert_eq!(iv.subject(), Some(b));
    assert_eq!(Interview::<String>::new(Some("bad key")).status(), "LLM settings: bad key");
}

#[test]
fn a_persona_is_kept_for_the_life_of_the_process() {
    let mut iv: Interview<String> = Interview::new(None);
    let a = SubjectRef { kind: SubjectKind::Household, id: 4 };
    let b = SubjectRef { kind: SubjectKind::Person, id: 4 };
    iv.remember("spotorno", a, "Anna".into());
    iv.remember("spotorno", b, "Luca".into());
    iv.remember("spotorno", a, "Anna B.".into());
    assert_eq!(iv.persona_for("spotorno", a).map(String::as_str), Some("Anna B."));
    assert_eq!(iv.persona_for("spotorno", b).map(String::as_str), Some("Luca"));
    assert_eq!(iv.persona_for("noli", a), None);
    iv.restart();
    assert_eq!(iv.persona_for("spotorno", b).map(String::as_str), Some("Luca"));
}

#[test]
fn finished_requests_leave_the_right_words() {
    let mut iv: Interview<String> = Interview::new(None);
    let a = SubjectRef { kind: SubjectKind::Household, id: 4 };
    iv.open_for(a);
    assert!(iv.begin(Job::Persona, a));
    assert!(!iv.begin(Job::Reply, a), "one request at a time");
    match iv.finished(Err("timeout".into()), "m") {
        FollowUp::Anonymous(s) => assert_eq!(s, a),
        _ => panic!("expected an anonymous persona"),
    }
    assert_eq!(iv.status(), "no persona (timeout) — answering unnamed");
    iv.set_input("hello".into());
    assert!(iv.begin(Job::Reply, a));
    assert_eq!(iv.input(), "");
    iv.stream("Hel");
    iv.stream("lo");
    assert_eq!(iv.partial_reply(), "Hello");
    match iv.finished(Ok("Hello".into()), "m") {
        FollowUp::Record(s, t) => assert_eq!((s, t.as_str()), (a, "Hello")),
        _ => panic!("expected the reply to be recorded"),
    }
    assert_eq!(iv.status(), "");
    assert!(iv.begin(Job::Test, a));
    iv.finished(Ok("  ok \n".into()), "tiny-model");
    assert_eq!(iv.settings_status(), "✔ tiny-model answered: ok");
    assert!(iv.begin(Job::Models, a));
    iv.models_listed(Ok(vec!["a".into(), "b".into()]));
    assert_eq!(iv.model_status(), "2 models available");
    assert!(!iv.busy());
}

#[test]
fn a_restart_drops_an_answer_in_flight() {
    let mut iv: Interview<String> = Interview::new(None);
    let a = SubjectRef { kind: SubjectKind::Unit, id: 0 };
    iv.open_for(a);
    iv.begin(Job::Reply, a);
    iv.restart();
    assert!(!iv.busy());
    assert_eq!(iv.status(), "the incident was restarted while that answer was in flight — it was dropped");
    iv.restart();
    assert_eq!(iv.status(), "the incident was restarted: this transcript went with the run it was about.");
    assert!(!iv.shortcut(false, true, None));
    assert_eq!(iv.status(), "select an agent on the map first");
    assert!(!iv.shortcut(true, true, Some(a)));
    assert_eq!(iv.from_env("settings", false, None), EnvOpen::Settings);
    assert!(iv.settings_open());
    assert_eq!(iv.from_env("1", false, Some(a)), EnvOpen::NoIncident);
    assert_eq!(iv.from_env("selftest", true, Some(a)), EnvOpen::Opened);
    assert!(iv.selftest_due());
}

// --- capture -------------------------------------------------------------

#[test]
fn an_unattended_run_shoots_each_layer_after_settling() {
    assert_eq!(manual_shot_name(7), "spotorno_007.png");
    assert_eq!(manual_shot_name(1234), "spotorno_1234.png");
    assert_eq!(shot_file(FireLayer::Hazard), "spread risk.png");
    let mut s = Script::new(100, false, false, Some("intensity"));
    assert_eq!(s.step(50, FireLayer::Flames), (ScriptStep::FastForward, false));
    for _ in 0..30 {
        assert_eq!(s.step(100, FireLayer::Flames).0, ScriptStep::Settle);
    }
    assert_eq!(s.step(100, FireLayer::Flames).0, ScriptStep::Switch(FireLayer::Intensity));
    for _ in 0..30 {
        s.step(100, FireLayer::Intensity);
    }
    assert_eq!(s.step(100, FireLayer::Intensity).0, ScriptStep::Shoot(FireLayer::Intensity));
    s.shot_taken();
    for _ in 0..30 {
        s.step(100, FireLayer::Intensity);
    }
    assert_eq!(s.step(100, FireLayer::Intensity).0, ScriptStep::Exit);
    let mut all = Script::new(0, true, true, None);
    assert_eq!(all.step(0, FireLayer::Flames), (ScriptStep::Distance, true));
}

#[test]
fn an_unattended_run_shoots_every_layer_once_and_exits_within_budget() {
    let mut script = Script::new(600, true, true, None);
    let mut layer = FireLayer::Hazard;
    let mut shots = Vec::new();
    let mut frames = 0;
    loop {
        frames += 1;
        assert!(frames <= 280, "the run keeps to its budget");
        match script.step(600, layer).0 {
            ScriptStep::Exit => break,
            ScriptStep::Switch(l) => layer = l,
            ScriptStep::Shoot(l) => {
                shots.push(l);
                script.shot_taken();
            }
            _ => {}
        }
    }
    assert_eq!(shots, FireLayer::all());
    assert_eq!(frames, 280);
}

// --- shortcuts -----------------------------------------------------------

#[test]
fn global_keys_wait_for_typing_except_escape() {
    let none = GlobalKeys {
        escape: false,
        play: false,
        faster: false,
        slower: false,
        evacuate: false,
        ignition: false,
        help: false,
        restart: false,
    };
    let mut c = Controls {
        ignition: EditMode::Place,
        camera: CameraMode::Follow(Target::Unit(1)),
        playing: true,
        help_open: false,
    };
    let r = global_keys(&mut c, GlobalKeys { escape: true, evacuate: true, ..none }, true);
    assert_eq!(c.ignition, EditMode::Off);
    assert_eq!(c.camera, CameraMode::Free);
    assert!(!r.evacuate_all, "typing an e into a search box evacuates nobody");
    let r = global_keys(&mut c, GlobalKeys { play: true, ignition: true, evacuate: true, ..none }, false);
    assert!(!c.playing);
    assert_eq!(c.ignition, EditMode::Place);
    assert!(r.focus_fire && r.evacuate_all);
    assert_eq!(composer_key(false, false, false, true, true, true), ComposerKey::Close);
    assert_eq!(composer_key(false, false, false, true, true, false), ComposerKey::Open);
    assert_eq!(composer_key(false, true, false, true, false, false), ComposerKey::Nothing);
}

// --- undo, live decisions, graphs ---------------------------------------

/// The editor's draft library as the tests hold it: the open graph's name
/// and node ids, and the profiles with their overrides.
#[derive(Clone, Debug)]
struct Library {
    name: String,
    nodes: Vec<u32>,
    profiles: Vec<Profile<f64>>,
}

/// The library in canonical form, as the history and the dirty flag compare it.
fn bytes(lib: &Library) -> Vec<u8> {
    format!("{lib:?}").into_bytes()
}

fn snapshot(lib: &Library) -> Snapshot {
    Snapshot { lib: bytes(lib), graph_id: "g".into(), subtype: Some("p".into()) }
}

fn restored(s: &Snapshot, known: &[Library]) -> Library {
    known.iter().find(|l| bytes(l) == s.lib).cloned().expect("a recorded library")
}

fn has_override(lib: &Library, profile: usize, key: &str) -> bool {
    lib.profiles[profile].overrides.iter().any(|(k, _)| k == key)
}

#[test]
fn undo_groups_gestures_and_tracks_the_applied_version() {
    let original = Library { name: "Household default".into(), nodes: vec![1, 2], profiles: Vec::new() };
    let named = |n: &str| Library { name: n.into(), ..original.clone() };
    let mut known = vec![original.clone()];
    let mut tracking = Tracking::new(bytes(&original));
    let mut h = History::new();
    h.record(snapshot(&original), false);
    for name in ["E", "Ed", "Edited"] {
        known.push(named(name));
        h.record(snapshot(&named(name)), true);
    }
    h.record(snapshot(&named("Edited")), false);
    assert_eq!(h.undo_depth(), 1);
    tracking.mark_applied(bytes(&named("Edited")));
    assert!(!tracking.is_dirty(&h.current().unwrap().lib));
    h.record(snapshot(&named("Edited")), false);
    let back = restored(&h.undo().unwrap(), &known);
    assert_eq!(back.name, original.name);
    assert!(tracking.is_dirty(&bytes(&back)));
    h.record(snapshot(&back), false);
    let forward = restored(&h.redo().unwrap(), &known);
    assert_eq!(forward.name, "Edited");
    assert!(!tracking.is_dirty(&bytes(&forward)));
    h.record(snapshot(&forward), false);
    h.undo();
    h.record(snapshot(&named("Another edit")), false);
    assert!(!h.can_redo());
}

#[test]
fn deleting_nodes_cleans_profile_overrides_and_undo_restores_them() {
    let start = Library {
        name: "g".into(),
        nodes: vec![1, 2, 3],
        profiles: vec![
            Profile { graph: "g".into(), overrides: Vec::new() },
            Profile { graph: "other".into(), overrides: Vec::new() },
        ],
    };
    let id = free_id(&start.nodes);
    let key = format!("{id}.value");
    let mut with_node = Library { nodes: vec![1, 2, 3, id], ..start.clone() };
    with_node.profiles[0].overrides.push((key.clone(), 42.0));
    with_node.profiles[1].overrides.push((key.clone(), 7.0));
    let mut known = vec![start.clone(), with_node.clone()];
    let mut h = History::new();
    h.record(snapshot(&start), false);
    h.record(snapshot(&with_node), false);
    // The node goes; the commit drops its overrides in the profiles of this graph.
    let mut lib = with_node.clone();
    let canvas = vec![1, 2, 3];
    commit_overrides(&mut lib.profiles, "g", &lib.nodes, &canvas);
    lib.nodes = canvas;
    known.push(lib.clone());
    h.record(snapshot(&lib), false);
    assert!(!has_override(&lib, 0, &key));
    assert!(has_override(&lib, 1, &key), "another graph's profile keeps its own");
    lib = restored(&h.undo().unwrap(), &known);
    assert!(lib.nodes.contains(&id));
    assert_eq!(lib.profiles[0].overrides, vec![(key.clone(), 42.0)]);
    h.record(snapshot(&lib), false);
    lib = restored(&h.redo().unwrap(), &known);
    assert!(!lib.nodes.contains(&id));
    let reused = free_id(&lib.nodes);
    assert_eq!(reused, id);
    let canvas = vec![1, 2, 3, reused];
    commit_overrides(&mut lib.profiles, "g", &lib.nodes, &canvas);
    lib.nodes = canvas;
    assert!(!has_override(&lib, 0, &key));
}

#[test]
fn selecting_a_profile_opens_its_graph_and_browsing_is_not_an_edit() {
    let lib = Library { name: "library".into(), nodes: vec![1, 2], profiles: Vec::new() };
    let tracking = Tracking::new(bytes(&lib));
    let at = |graph: &str, subtype: Option<&str>| Snapshot {
        lib: bytes(&lib),
        graph_id: graph.into(),
        subtype: subtype.map(String::from),
    };
    let mut h = History::new();
    h.record(at("household-default", None), false);
    // The profile runs another graph: selecting it opens that graph.
    let (profile, profile_graph) = ("cautious", "household-cautious");
    h.record(at(profile_graph, Some(profile)), false);
    let now = h.current().unwrap();
    assert_eq!(now.graph_id, profile_graph);
    assert_eq!(now.subtype.as_deref(), Some(profile));
    assert!(!h.can_undo());
    assert!(!tracking.is_dirty(&now.lib), "browsing does not make the draft dirty");
    assert!(!keeps_profile(Some(profile_graph), "household-default"));
    assert!(keeps_profile(Some(profile_graph), profile_graph));
    assert!(!keeps_profile(None, profile_graph));
}

#[test]
fn browsing_does_not_mark_the_library_as_changed() {
    let mut lib = Library { name: "Household default".into(), nodes: vec![1, 2], profiles: Vec::new() };
    let tracking = Tracking::new(bytes(&lib));
    let nodes = lib.nodes.clone();
    commit_overrides(&mut lib.profiles, "household-default", &nodes, &nodes);
    assert!(!tracking.is_dirty(&bytes(&lib)));
    // Switching the domain opens another graph; the library is untouched.
    let mut h = History::new();
    h.record(Snapshot { graph_id: "household-default".into(), ..snapshot(&lib) }, false);
    h.record(Snapshot { graph_id: "person-default".into(), ..snapshot(&lib) }, false);
    assert!(!h.can_undo());
    assert!(!tracking.is_dirty(&bytes(&lib)));
    lib.name.push_str(" edited");
    commit_overrides(&mut lib.profiles, "household-default", &nodes, &nodes);
    assert!(tracking.is_dirty(&bytes(&lib)));
    assert!(tracking.unsaved(&bytes(&lib)));
    assert_eq!(lib.name, "Household default edited");
}

#[test]
fn undo_groups_a_gesture_into_one_step() {
    let snap = |b: u8| Snapshot { lib: vec![b], graph_id: "g".into(), subtype: None };
    let mut h = History::new();
    h.record(snap(0), false);
    h.record(snap(1), true);
    h.record(snap(2), true);
    h.record(snap(3), false);
    assert_eq!(h.undo_depth(), 1, "one gesture, one step");
    let back = h.undo().unwrap();
    assert_eq!(back.lib, vec![0]);
    assert!(h.can_redo());
    let again = h.redo().unwrap();
    assert_eq!(again.lib, vec![3]);
    h.undo();
    h.record(snap(9), false);
    assert!(!h.can_redo(), "an edit clears the redo stack");
}

#[test]
fn undo_keeps_at_most_its_limit() {
    let mut h = History::new();
    for i in 0..(UNDO_LIMIT as u32 + 10) {
        h.record(Snapshot { lib: i.to_le_bytes().to_vec(), graph_id: "g".into(), subtype: None }, false);
    }
    assert_eq!(h.undo_depth(), UNDO_LIMIT);
}

#[test]
fn the_decision_log_keeps_the_newest_ticks() {
    let mut log: DecisionLog<u8> = DecisionLog::new();
    for t in 0..(HISTORY as i64 + 5) {
        log.record(t, 1, vec![t as u32]);
    }
    log.record(HISTORY as i64 + 4, 2, vec![999]);
    assert_eq!(log.len(), HISTORY);
    assert_eq!(log.last_time(), Some(HISTORY as i64 + 4));
    assert!(!log.was_seen(0));
    assert!(log.was_seen(5));
    assert!(!log.was_seen(999), "a second capture of one tick is ignored");
    log.forget();
    assert_eq!(log.len(), 0);
    assert_eq!(role(&vec![1], &vec![2], &vec![1, 3], 3), LiveRole::Recent);
    assert_eq!(role(&vec![1], &vec![2], &vec![], 2), LiveRole::Withheld);
    assert_eq!(LiveRole::Active.label(), "on the path taken");
    assert!(LiveRole::Active.is_current());
    assert!(!LiveRole::Cold.is_current());
}

#[test]
fn diffing_reports_each_change_once() {
    let quiet = HouseholdSnap { status: Status::Normal, ordered: false, warning_received: false, action: None, profile: None };
    let mut prev = vec![quiet];
    let live = vec![HouseholdSnap { status: Status::Warned, ordered: true, ..quiet }];
    let mut out = Vec::new();
    observe_households(&mut prev, &live, &mut out);
    assert!(out.contains(&Event::Status { who: Subject::Household(0), from: Status::Normal, to: Status::Warned }));
    assert!(out.contains(&Event::OrderIssued { household: 0 }));
    let n = out.len();
    observe_households(&mut prev, &live, &mut out);
    assert_eq!(out.len(), n, "nothing changed, nothing reported");

    let mut people = vec![PersonSnap { status: Status::Normal, away: false, action: None, profile: None }];
    let mut out = Vec::new();
    observe_people(&mut people, &vec![PersonSnap { status: Status::Normal, away: true, action: None, profile: None }], &mut out);
    assert_eq!(out, vec![Event::Separation { person: 0, away: true }]);

    let hold = Task { kind: TaskKind::Hold, x0: 0, y0: 0, x1: 0, y1: 0 };
    let mut units = vec![UnitSnap { state: UnitState::Staged, task: hold, drops: 0 }];
    let mut out = Vec::new();
    observe_units(&mut units, &vec![UnitSnap { state: UnitState::Working, task: hold, drops: 1 }], &mut out);
    assert!(out.contains(&Event::DropCompleted { unit: 0, total_drops: 1 }));

    let mut states = Vec::new();
    let t = TravellerInfo { state: TravelState::OnNetwork, household: 2, car: true, members: 3, solo: false, first_member: Some(5) };
    let mut out = Vec::new();
    observe_travellers(&mut states, &vec![t], &mut out);
    assert!(!out.is_empty());
    assert_eq!(states, vec![TravelState::OnNetwork]);
}

#[test]
fn graph_helpers() {
    let wires = vec![wire(1, 2), wire(2, 3)];
    assert!(closes_loop(&wires, 3, 1));
    assert!(!closes_loop(&wires, 1, 3));
    let mut b = branch(&wires, 3);
    b.sort();
    assert_eq!(b, vec![1, 2, 3]);
    assert_eq!(free_id(&vec![1, 5, 3]), 6);
    assert_eq!(free_id(&Vec::new()), 1);
}

#[test]
fn duplicating_a_branch_copies_its_feeders_with_fresh_ids() {
    let graph = Shape { nodes: vec![1, 2, 3, 4], wires: vec![wire(1, 2), wire(2, 3), wire(2, 4)] };
    let multi = vec![false, true, false];
    match duplicate_branch(&graph, 2, &Vec::new(), &Vec::new(), &multi) {
        Duplicate::Copied(shape, remap) => {
            assert_eq!(shape.nodes, vec![1, 2, 3, 4, 5, 6]);
            assert_eq!(shape.wires, vec![wire(1, 2), wire(2, 3), wire(2, 4), wire(5, 6), wire(6, 3)]);
            assert_eq!(remap, vec![(1, 5), (2, 6)]);
        }
        _ => panic!("the branch should have been copied"),
    }
    assert!(matches!(duplicate_branch(&graph, 9, &Vec::new(), &Vec::new(), &multi), Duplicate::Skipped));
    assert!(matches!(duplicate_branch(&graph, 2, &vec![2], &Vec::new(), &multi), Duplicate::Skipped));
    assert!(matches!(duplicate_branch(&graph, 2, &Vec::new(), &vec![2], &multi), Duplicate::Skipped));
    assert!(matches!(duplicate_branch(&graph, 2, &Vec::new(), &vec![1], &multi), Duplicate::DependsOnOutput));
}

#[test]
fn the_orders_menu_greys_out_what_the_unit_cannot_take() {
    let none = menu_entry(OrderKind::Attack, None, None);
    assert!(!none.enabled);
    assert_eq!(none.hint, "Select a unit first.");
    assert_eq!(none.key, "A");
    let engine_line = menu_entry(OrderKind::Line, Some(UnitKind::Engine), None);
    assert!(!engine_line.enabled);
    assert_eq!(engine_line.hint, "This unit cannot take that order.");
    assert_eq!(engine_line.label, "Cut line");
    let crew_line = menu_entry(OrderKind::Line, Some(UnitKind::HandCrew), Some(OrderKind::Line));
    assert!(crew_line.enabled);
    assert_eq!(crew_line.label, "▶ Cut line");
    assert_eq!(crew_line.hint, "Then click the ground to place it.");
    let drop = menu_entry(OrderKind::Drop, Some(UnitKind::AirTanker), Some(OrderKind::Attack));
    assert!(drop.enabled);
    assert_eq!(drop.label, "Drop here");
    assert_eq!(drop.key, "D");
}

#[test]
fn library_transfers_report_what_happened() {
    assert_eq!(import_status(Arrival::Behaviour, "flee", "flee", None), ("imported behaviour \"flee\"".to_string(), false));
    assert_eq!(
        import_status(Arrival::Behaviour, "flee", "flee-2", Some("ignored")),
        ("imported behaviour as \"flee-2\" — \"flee\" was taken".to_string(), false)
    );
    assert_eq!(
        import_status(Arrival::Profile, "calm", "calm", Some("wait")),
        ("imported profile \"calm\", but its behaviour \"wait\" is not loaded".to_string(), true)
    );
    assert_eq!(
        import_status(Arrival::Profile, "calm", "calm-2", None),
        ("imported profile as \"calm-2\" — \"calm\" was taken".to_string(), false)
    );
    assert_eq!(transfer_check(false, "  ", true, false), Some("give a path to a .json file"));
    assert_eq!(transfer_check(true, "", true, false), Some("give a path to write to"));
    assert_eq!(transfer_check(true, "out.json", false, false), Some("no profile selected"));
    assert_eq!(transfer_check(true, "out.json", false, true), None);
    assert_eq!(transfer_check(false, " in.json ", false, false), None);
    assert_eq!(
        reload_outcome(true, 3, 2),
        Err("Reload cancelled: some files could not load. Your edits are kept. See Help → Files on disk.".to_string())
    );
    assert_eq!(reload_outcome(false, 0, 2), Err("nothing saved there yet".to_string()));
    assert_eq!(
        reload_outcome(false, 3, 12),
        Ok("Reloaded 3 behaviour(s) and 12 profile(s). Apply and restart to run them.".to_string())
    );
    assert_eq!(saved_status(4, 0, "/lib"), "saved 4 behaviour(s) and 0 profile(s) to /lib");
}

#[test]
fn applying_without_shares_runs_the_shipped_model() {
    assert_eq!(applied_status(0), (false, "restarted on the shipped model".to_string()));
    assert_eq!(applied_status(7), (true, "restarted on 7 profile(s)".to_string()));
}

#[test]
fn help_paragraphs_mark_bold_between_double_stars() {
    let runs = emphasis_runs(domain_assignment(Domain::Household));
    assert_eq!(runs.len(), 3);
    assert_eq!(runs[0], ("by ".to_string(), false));
    assert_eq!(runs[1], ("share".to_string(), true));
    assert!(runs[2].0.starts_with(": a relative weight"));
    assert!(!runs[2].1);
    assert_eq!(emphasis_runs("plain"), vec![("plain".to_string(), false)]);
    assert_eq!(emphasis_runs("**a**"), vec![("a".to_string(), true)]);
    assert_eq!(emphasis_runs("***x"), vec![("*x".to_string(), true)]);
    assert_eq!(emphasis_runs(""), Vec::<(String, bool)>::new());
    assert_eq!(emphasis_runs("a**b**c**d"), vec![
        ("a".to_string(), false),
        ("b".to_string(), true),
        ("c".to_string(), false),
        ("d".to_string(), true),
    ]);
    assert!(domain_actions(Domain::Person).starts_with("whether someone away"));
    assert_eq!(skipped_note(0), None);
    assert_eq!(
        skipped_note(2),
        Some("2 file(s) were skipped. The rest of the library loaded; fix them and press Reload.".to_string())
    );
}

#[test]
fn drawing_a_wire_adds_replaces_or_refuses() {
    assert_eq!(hookup(true, true, true, 1, 2, true), Hookup::Add);
    assert_eq!(hookup(true, true, true, 1, 2, false), Hookup::Replace);
    assert_eq!(hookup(true, true, true, 3, 3, true), Hookup::Refused);
    assert_eq!(hookup(false, true, true, 1, 2, true), Hookup::Refused);
    assert_eq!(hookup(true, false, true, 1, 2, true), Hookup::Refused);
    assert_eq!(hookup(true, true, false, 1, 2, false), Hookup::Refused);
}

#[test]
fn small_accessors_report_their_state() {
    assert_eq!(intent_text(Intent::StayDefend), "stay and defend");
    assert_eq!(LiveRole::Active.rgb(), [0x7f, 0xd4, 0x92]);
    assert_eq!(LiveRole::Cold.rgb(), [0x55, 0x5a, 0x62]);
    let tool: OrderTool<(i32, i32)> = OrderTool::new();
    let key = PreviewKey { unit: 1, order: OrderKind::Attack, time_s: 60, x: 3, y: 4 };
    assert!(tool.preview_stale(None));
    assert!(tool.preview_stale(Some(key)));
    let mut iv: Interview<String> = Interview::new(None);
    assert!(!iv.is_open());
    iv.set_open(true);
    assert!(iv.is_open());
    assert_eq!(iv.pending_job(), None);
    iv.persona_unreadable("no name");
    assert_eq!(iv.status(), "could not build a persona: no name");
    iv.end_selftest();
    assert!(!iv.selftest_due());
    assert_eq!(iv.model_search(), "");
    iv.set_model_search("gpt".into());
    assert_eq!(iv.model_search(), "gpt");
}

#[test]
fn vocabulary_words() {
    assert_eq!(status_text(Status::Evacuated), "evacuated / safe");
    assert_eq!(travel_state_text(TravelState::Cutoff), "cut off — no route out");
    assert_eq!(channel_text(WarningChannel::Nothing), "none");
    assert_eq!(intent_key(Intent::StayDefend), "stay_defend");
    assert_eq!(task_kind(TaskKind::Line), "line");
    assert_eq!(action_colour(ActionKind::Withdraw), [0xe0, 0x6c, 0x5f]);
    assert_eq!(situation(Status::Preparing), "getting ready to go");
    assert_eq!(household_line(2, &vec![], 0), "2 of you, and no car");
    assert_eq!(household_line(4, &vec![40, 12], 3), "4 of you (ages 40, 12), 3 cars");
    assert_eq!(family_line(1), "you live alone; there is nobody at the house");
    assert_eq!(elapsed(45), "45 s");
    assert_eq!(elapsed(600), "10 min");
    assert_eq!(label(SubjectRef { kind: SubjectKind::Unit, id: 2 }, Some("Squadra B")), "Squadra B");
    assert_eq!(label(SubjectRef { kind: SubjectKind::Person, id: 2 }, None), "Person #2");
}

#[test]
fn an_order_target_is_checked_in_order() {
    let ok = TargetChecks {
        unit_ready: true,
        inside: true,
        air: false,
        connected: true,
        engine: true,
        in_reach: true,
        approach: true,
        fuel: true,
    };
    assert_eq!(target_reason(ok), None);
    assert_eq!(
        target_reason(TargetChecks { unit_ready: false, inside: false, ..ok }),
        Some("Select an available unit and an order first.")
    );
    assert_eq!(target_reason(TargetChecks { inside: false, ..ok }), Some("Target is outside the scenario."));
    assert_eq!(
        target_reason(TargetChecks { connected: false, approach: false, ..ok }),
        Some("No connected road or path. Choose another target or unit.")
    );
    assert_eq!(
        target_reason(TargetChecks { in_reach: false, ..ok }),
        Some("Outside hose reach. Target inside the road coverage ring.")
    );
    assert_eq!(target_reason(TargetChecks { in_reach: false, engine: false, ..ok }), None);
    assert_eq!(
        target_reason(TargetChecks { approach: false, ..ok }),
        Some("Approach blocked by fire. Choose another target or request aircraft.")
    );
    assert_eq!(target_reason(TargetChecks { air: true, connected: false, approach: false, ..ok }), None);
    assert_eq!(
        target_reason(TargetChecks { fuel: false, ..ok }),
        Some("No suppressible fuel here. Choose unburnt fuel near the fire edge.")
    );
}

#[test]
fn a_units_status_line_says_what_it_is_doing() {
    assert_eq!(status_line("working", None, TaskKind::Attack, UnitKind::HandCrew, ""), "working · preparing defensive line");
    assert_eq!(status_line("working", None, TaskKind::Attack, UnitKind::Engine, ""), "working · road suppression");
    assert_eq!(status_line("working", None, TaskKind::Line, UnitKind::HandCrew, "40/120"), "working · line 40/120 m");
    assert_eq!(status_line("inbound", Some("12"), TaskKind::Drop, UnitKind::AirTanker, ""), "inbound, 12 min · drop run");
    assert_eq!(status_line("staged", None, TaskKind::Hold, UnitKind::Engine, ""), "staged");
}

#[test]
fn only_what_is_drawn_can_be_picked() {
    assert!(household_pickable(Status::Warned));
    assert!(!household_pickable(Status::Evacuated));
    assert!(person_pickable(Status::Evacuating, None));
    assert!(!person_pickable(Status::Evacuating, Some((true, TravelState::OnNetwork))));
    assert!(person_pickable(Status::Trapped, Some((true, TravelState::Cutoff))));
    assert!(person_pickable(Status::Evacuating, Some((false, TravelState::OnNetwork))));
    assert!(!person_pickable(Status::Normal, None));
    assert!(traveller_pickable(TravelState::Approaching, true));
    assert!(!traveller_pickable(TravelState::OnNetwork, false));
    assert!(!traveller_pickable(TravelState::Safe, true));
}

#[test]
fn the_selftest_meets_asks_and_reports() {
    let mut iv: Interview<String> = Interview::new(None);
    let a = SubjectRef { kind: SubjectKind::Household, id: 1 };
    assert_eq!(iv.selftest_step(Ok(()), false, &Vec::new()), SelfTest::Idle);
    assert_eq!(iv.from_env("selftest", true, None), EnvOpen::NothingSelected);
    assert_eq!(iv.selftest_step(Ok(()), false, &Vec::new()), SelfTest::NothingSelected);
    iv.open_for(a);
    assert_eq!(iv.selftest_step(Err("no key".into()), false, &Vec::new()), SelfTest::NotReady("no key".into()));
    assert_eq!(iv.selftest_step(Ok(()), false, &Vec::new()), SelfTest::Meet(a));
    assert_eq!(iv.selftest_step(Ok(()), true, &Vec::new()), SelfTest::Ask(a));
    let asked = vec![Said { assistant: false, content: "who are you?".into() }];
    assert_eq!(iv.selftest_step(Ok(()), true, &asked), SelfTest::Wait);
    let blank = vec![Said { assistant: false, content: "who are you?".into() }, Said { assistant: true, content: "  ".into() }];
    assert_eq!(iv.selftest_step(Ok(()), true, &blank), SelfTest::Report(false));
    assert!(!iv.selftest_due());
}

#[test]
fn set_profile_answers_404_and_rolls_back_a_failed_restart() {
    let mut settings = vec![
        Setting { id: "calm".to_string(), share: 1.0f32, enabled: true },
        Setting { id: "crews".to_string(), share: 0.0f32, enabled: true },
    ];
    let edit = profile_request(r#"{"id": "ghost", "enabled": false}"#).unwrap();
    assert_eq!(
        apply_profile_edit(&mut settings, &edit, None).err(),
        Some((404, "no profile \"ghost\" (see /behaviour/profiles)".to_string()))
    );
    let edit = profile_request(r#"{"id": "calm", "share": 0}"#).unwrap();
    let (i, previous) = apply_profile_edit(&mut settings, &edit, Some(0.0)).unwrap();
    assert_eq!(i, 0);
    assert_eq!(settings[0].share, 0.0);
    assert!(settings[0].enabled);
    assert_eq!(
        profile_settled(&mut settings, i, previous, Err("no household profile has a share".to_string())),
        Err((500, "no household profile has a share".to_string()))
    );
    assert_eq!(settings[0].share, 1.0, "a failed restart leaves the profile as it was");
    let edit = profile_request(r#"{"id": "crews", "enabled": false}"#).unwrap();
    let (i, previous) = apply_profile_edit(&mut settings, &edit, None).unwrap();
    assert_eq!(profile_settled(&mut settings, i, previous, Ok(())), Ok(()));
    assert!(!settings[1].enabled);
}

#[test]
fn a_household_feels_the_fire_at_its_house() {
    assert_eq!(
        home_feelings(HouseExposure::Alight, true),
        vec!["Your house is alight.".to_string(), "You are frightened.".to_string()]
    );
    assert_eq!(home_feelings(HouseExposure::Embers, false), vec!["Embers are landing around the house.".to_string()]);
    assert_eq!(
        home_feelings(HouseExposure::Heat, false),
        vec!["You can feel the heat of it on the walls of the house.".to_string()]
    );
    assert!(home_feelings(HouseExposure::Untouched, false).is_empty());
}

#[test]
fn the_settings_dialog_reports_what_it_does() {
    let mut iv: Interview<String> = Interview::new(None);
    iv.settings_saved(Ok(()));
    assert_eq!(iv.settings_status(), "Saved.");
    iv.settings_saved(Err("disk full".into()));
    assert_eq!(iv.settings_status(), "✖ could not save: disk full");
    assert!(!iv.request_test(Err("no API key".into())));
    assert_eq!(iv.settings_status(), "✖ no API key");
    assert!(iv.request_test(Ok(())));
    assert_eq!(iv.settings_status(), "asking…");
    assert_eq!(iv.pending_job(), Some(Job::Test));
    assert!(!iv.request_models(), "one request at a time");
    iv.finished(Err("timeout".into()), "m");
    assert!(iv.request_models());
    assert_eq!(iv.model_status(), "loading models…");
    assert_eq!(iv.pending_job(), Some(Job::Models));
}

#[test]
fn profile_editing_decisions() {
    let mut p = Profile { graph: "a".to_string(), overrides: vec![("3.value".to_string(), 1.0)] };
    assert!(!switch_behaviour(&mut p, "a".to_string()));
    assert_eq!(p.overrides.len(), 1);
    assert!(switch_behaviour(&mut p, "b".to_string()));
    assert_eq!(p.graph, "b");
    assert!(p.overrides.is_empty());
    assert_eq!(parse_tags(" coast, ,elderly ,,  car "), vec!["coast".to_string(), "elderly".to_string(), "car".to_string()]);
    assert!(parse_tags("").is_empty());
    assert_eq!(prune_status(0), "nothing to prune");
    assert_eq!(prune_status(3), "pruned 3 override(s)");
}

#[test]
fn read_request_fields_decide_the_answer() {
    assert_eq!(profile_edit(None, true, None).err(), Some((400, "expected \"id\": profile id (see /behaviour/profiles)")));
    assert_eq!(
        profile_edit(Some("calm".into()), false, None).err(),
        Some((400, "expected \"share\" (number) and/or \"enabled\" (bool)"))
    );
    let e = profile_edit(Some("calm".into()), false, Some(true)).ok().unwrap();
    assert_eq!((e.id.as_str(), e.share_given, e.enabled), ("calm", false, Some(true)));
    assert_eq!(screenshot_decision(None, false, true), Err((400, "expected {\"path\": \"/absolute/path.png\"}")));
    assert_eq!(
        screenshot_decision(Some("/tmp/a.png".into()), true, true),
        Err((409, "a screenshot is already pending -- wait for it to land"))
    );
    assert_eq!(screenshot_decision(Some("/tmp/a.png".into()), false, false), Err((503, "no camera -- is a scenario loaded?")));
    assert_eq!(screenshot_decision(Some("/tmp/a.png".into()), false, true), Ok("/tmp/a.png".to_string()));
}

#[test]
fn a_question_needs_words_and_a_free_line() {
    let mut iv: Interview<String> = Interview::new(None);
    assert!(!iv.can_ask());
    iv.set_input("   ".into());
    assert!(!iv.can_ask());
    iv.set_input(" where is the fire? ".into());
    assert!(iv.can_ask());
    let a = SubjectRef { kind: SubjectKind::Household, id: 4 };
    assert!(iv.begin(Job::Persona, a));
    assert!(!iv.can_ask(), "one request at a time");
    iv.set_input("typed ahead".into());
    iv.stream("partial");
    assert_eq!(iv.input(), "typed ahead");
    assert_eq!(interview_title(Some("Anna"), "Household #4", true), "Anna — Household #4");
    assert_eq!(interview_title(None, "Household #4", true), "Interview — Household #4");
    assert_eq!(interview_title(None, "Squadra A", false), "Squadra A");
}

#[test]
fn a_second_round_over_an_unchanged_town_is_silent() {
    let h = HouseholdSnap { status: Status::Casualty, ordered: true, warning_received: true, action: Some(ActionKind::Shelter), profile: Some(2) };
    let mut prev = vec![HouseholdSnap { status: Status::Trapped, ordered: false, warning_received: false, action: None, profile: None }];
    let live = vec![h];
    let mut out = Vec::new();
    observe_households(&mut prev, &live, &mut out);
    assert!(out.contains(&Event::Casualties { households: 1 }));
    assert!(out.contains(&Event::EvacuationOrder { households: 1 }));
    assert!(out.contains(&Event::Decision {
        who: Subject::Household(0),
        action: ActionKind::Shelter,
        profile: Some(2),
    }));
    let mut again = Vec::new();
    observe_households(&mut prev, &live, &mut again);
    assert!(again.is_empty());
}

#[test]
fn request_bodies_are_read_field_by_field() {
    assert_eq!(play_request(r#"{"playing": true}"#), Ok(true));
    assert_eq!(play_request(r#"{"playing": "yes"}"#), Err("expected {\"playing\": bool}"));
    assert_eq!(play_request("not json"), Err("expected {\"playing\": bool}"));
    assert_eq!(load_request(r#"{"id": "spotorno_2023"}"#), Ok("spotorno_2023".to_string()));
    assert_eq!(load_request("{}"), Err("expected {\"id\": scenario id -- see GET /scenarios}"));
    assert_eq!(unit_task_body(r#"{"id": 3, "task": "attack", "x": 10.5, "y": 2}"#), Ok((3, TaskKind::Attack)));
    assert_eq!(unit_task_body(r#"{"id": 3, "task": "attack", "x": "10"}"#), Err("attack needs \"x\"/\"y\""));
    assert_eq!(unit_task_body(r#"{"id": -1, "task": "hold"}"#), Err("expected \"id\": unit index (see /agents/units)"));
    assert_eq!(
        unit_task_body(r#"{"id": 0, "task": "line", "from_x": 1, "from_y": 2, "to_x": 3, "to_y": 4}"#),
        Ok((0, TaskKind::Line))
    );
    let edit = profile_request(r#"{"id": "cautious", "enabled": false}"#).ok().unwrap();
    assert_eq!((edit.id.as_str(), edit.share_given, edit.enabled), ("cautious", false, Some(false)));
    assert!(profile_request(r#"{"id": "cautious", "share": 0.2}"#).ok().unwrap().share_given);
    assert_eq!(profile_request(r#"{"id": "cautious"}"#).err(), Some((400, "expected \"share\" (number) and/or \"enabled\" (bool)")));
    assert_eq!(profile_request(r#"{"share": 1}"#).err(), Some((400, "expected \"id\": profile id (see /behaviour/profiles)")));
    assert_eq!(reload_path(r#"{"path": "/tmp/b"}"#), Some("/tmp/b".to_string()));
    assert_eq!(reload_path("{}"), None);
}

#[test]
fn a_screenshot_request_is_checked_before_the_camera_moves() {
    let body = r#"{"path": "/tmp/x.png", "layer": "ARRIVAL", "settle_frames": 5}"#;
    assert_eq!(screenshot_gate(body, false, true), Ok("/tmp/x.png".to_string()));
    assert_eq!(screenshot_gate(body, true, true), Err((409, "a screenshot is already pending -- wait for it to land")));
    assert_eq!(screenshot_gate(body, false, false), Err((503, "no camera -- is a scenario loaded?")));
    assert_eq!(screenshot_gate("{}", true, false), Err((400, "expected {\"path\": \"/absolute/path.png\"}")));
    assert_eq!(screenshot_layer(body), Ok(Some(FireLayer::Arrival)));
    assert_eq!(screenshot_layer(r#"{"layer": "smoke"}"#), Err("smoke".to_string()));
    assert_eq!(screenshot_layer("{}"), Ok(None));
    assert_eq!(screenshot_settle(body), 5);
    assert_eq!(screenshot_settle("{}"), 20);
}

#[test]
fn parameter_badges_read_compactly() {
    assert_eq!(trim_zeros("2.500"), "2.5");
    assert_eq!(trim_zeros("3.000"), "3");
    assert_eq!(trim_zeros("100"), "100");
    assert_eq!(trim_zeros("0.010"), "0.01");
    assert_eq!(readout(&Readout::Number("42.000".into(), " m".into())), "42 m");
    assert_eq!(readout(&Readout::Flag(true)), "on");
    assert_eq!(readout(&Readout::Choice("leave_early".into())), "Leave early");
    assert_eq!(readout(&Readout::Text("free text".into())), "free text");
    assert_eq!(readout(&Readout::Mismatch("true".into())), "true");
}

#[test]
fn the_household_inspector_words() {
    assert_eq!(order_received(true, true), "yes");
    assert_eq!(order_received(true, false), "in transit");
    assert_eq!(order_received(false, false), "—");
    assert_eq!(intent_label(Intent::WaitAndSee), "wait and see");
    assert_eq!(history_heading(3), ("History (3)".to_string(), None, 0));
    assert_eq!(history_heading(45), ("History (45)".to_string(), Some("… 5 earlier".to_string()), 5));
}
