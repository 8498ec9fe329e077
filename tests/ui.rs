use playtime_clip_engine::route::TrackRouteType;
use playtime_clip_engine::ui::{
    arrow_down_symbol, arrow_left_symbol, arrow_right_symbol, arrow_up_symbol, str_is_blank,
    GroupFilter, GroupId, MainState, MappingCompartment,
};

#[test]
fn arrow_symbols() {
    assert_eq!(arrow_up_symbol(), "Up");
    assert_eq!(arrow_down_symbol(), "Down");
    assert_eq!(arrow_left_symbol(), "<=");
    assert_eq!(arrow_right_symbol(), "=>");
}

#[test]
fn filters() {
    let mut state: MainState<u32, u32> = MainState::default();
    assert_eq!(state.active_compartment, MappingCompartment::MainMappings);
    assert_eq!(state.group_filter, Some(GroupFilter::MainGroup));
    assert!(state.filter_is_active());
    state.clear_filters();
    assert!(!state.filter_is_active());
    state.search_expression = String::from(" \t\u{3000}\n");
    assert!(!state.filter_is_active());
    state.search_expression = String::from("  vol ");
    assert!(state.filter_is_active());
    state.search_expression = String::new();
    state.source_filter = Some(1);
    assert!(state.filter_is_active());
    state.clear_source_filter();
    state.target_filter = Some(2);
    assert!(state.filter_is_active());
    state.clear_target_filter();
    assert!(!state.filter_is_active());
    state.group_filter = Some(GroupFilter::OtherGroup(GroupId { id: 3 }));
    assert!(state.filter_is_active());
}

#[test]
fn blank_strings() {
    assert!(str_is_blank(""));
    assert!(str_is_blank("\u{2003}\u{85} "));
    assert!(!str_is_blank(" x "));
    assert!(!str_is_blank("\u{200b}"));
}

#[test]
fn default_route_type_is_send() {
    assert_eq!(TrackRouteType::default(), TrackRouteType::Send);
}
