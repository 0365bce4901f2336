use ao3reader_core::geom::rect;
use ao3reader_core::font::Fonts;
use ao3reader_core::view::{Event, ViewId, Widget, WidgetKind, RenderQueue, locate, rlocate};
use ao3reader_core::view::battery::FakeBattery;
use ao3reader_core::view::top_bar::TopBar;
use ao3reader_core::view::fave::Fave;
use ao3reader_core::view::home::Home;

fn lookup_pairs(lookup: &Vec<(String, usize)>) -> Vec<(&str, usize)> {
    lookup.iter().map(|(name, i)| (name.as_str(), *i)).collect()
}

#[test]
#[allow(non_snake_case)]
fn WHEN_createIconIsCalledWithSearchEvent_THEN_aLeftAlignedSearchIconIsCreated() {
    // WHEN create_icon is called with Search Event
    let width = 300;
    let height = 600;
    let content_height = 67;
    let mut top_bar = TopBar::new_empty(rect(0, 0, width, height));
    top_bar.create_icon(Event::Toggle(ViewId::SearchBar));
    // THEN a left-aligned Search Icon is created
    assert_eq!(top_bar.children.len(), 1);
    assert_eq!(top_bar.children[0].rect(), rect(0, 0, content_height, content_height));
    match &top_bar.children[0] {
        Widget::Icon(icon) => assert_eq!(icon.name, "search"),
        w => panic!("expected an icon, got {w:?}"),
    }
}

#[test]
#[allow(non_snake_case)]
fn WHEN_createIconIsCalledWithBackEvent_THEN_aLeftAlignedBackIconIsCreated() {
    // WHEN create_icon is called with Back Event
    let width = 300;
    let height = 600;
    let content_height = 67;
    let mut top_bar = TopBar::new_empty(rect(0, 0, width, height));
    top_bar.create_icon(Event::Back);
    // THEN a left-aligned Back Icon is created
    assert_eq!(top_bar.children.len(), 1);
    assert_eq!(top_bar.children[0].rect(), rect(0, 0, content_height, content_height));
    match &top_bar.children[0] {
        Widget::Icon(icon) => assert_eq!(icon.name, "back"),
        w => panic!("expected an icon, got {w:?}"),
    }
}

#[test]
#[allow(non_snake_case)]
fn WHEN_createBatteryIsCalled_THEN_aRightAlignedBatteryWidgetIsCreated() {
    // WHEN create_battery is called
    let width = 300;
    let height = 600;
    let content_height = 67;
    let mut top_bar = TopBar::new_empty(rect(0, 0, width, height));
    let battery = FakeBattery::new();
    top_bar.create_battery(&battery);
    // THEN a right-aligned Battery widget is created
    assert_eq!(top_bar.children.len(), 1);
    assert_eq!(
        top_bar.children[0].rect(),
        rect(width - content_height * 3, 0, width - content_height * 2, content_height),
    );
    assert!(matches!(top_bar.children[0], Widget::Battery(..)));
}

#[test]
#[allow(non_snake_case)]
fn WHEN_createFrontLightIsCalledWithLight_THEN_aRightAlignedFrontlightIconIsCreated() {
    // WHEN create_frontlight is called
    let width = 300;
    let height = 600;
    let content_height = 67;
    let mut top_bar = TopBar::new_empty(rect(0, 0, width, height));
    top_bar.create_frontlight(true);
    // THEN a right-aligned Frontlight Icon is created
    assert_eq!(top_bar.children.len(), 1);
    assert_eq!(
        top_bar.children[0].rect(),
        rect(width - content_height * 2, 0, width - content_height, content_height),
    );
    match &top_bar.children[0] {
        Widget::Icon(icon) => assert_eq!(icon.name, "frontlight"),
        w => panic!("expected an icon, got {w:?}"),
    }
}

#[test]
#[allow(non_snake_case)]
fn WHEN_createFrontLightIsCalledWithoutLight_THEN_aRightAlignedDisabledFrontlightIconIsCreated() {
    // WHEN create_frontlight is called
    let width = 300;
    let height = 600;
    let content_height = 67;
    let mut top_bar = TopBar::new_empty(rect(0, 0, width, height));
    top_bar.create_frontlight(false);
    // THEN a right-aligned Disabled Frontlight Icon is created
    assert_eq!(top_bar.children.len(), 1);
    assert_eq!(
        top_bar.children[0].rect(),
        rect(width - content_height * 2, 0, width - content_height, content_height),
    );
    match &top_bar.children[0] {
        Widget::Icon(icon) => assert_eq!(icon.name, "frontlight-disabled"),
        w => panic!("expected an icon, got {w:?}"),
    }
}

#[test]
#[allow(non_snake_case)]
fn WHEN_createMenuIsCalled_THEN_aRightAlignedMenuIconIsCreated() {
    // WHEN create_menu is called
    let width = 300;
    let height = 600;
    let content_height = 67;
    let mut top_bar = TopBar::new_empty(rect(0, 0, width, height));
    top_bar.create_menu();
    // THEN a right-aligned Menu Icon is created
    assert_eq!(top_bar.children.len(), 1);
    assert_eq!(top_bar.children[0].rect(), rect(width - content_height, 0, width, content_height));
    match &top_bar.children[0] {
        Widget::Icon(icon) => assert_eq!(icon.name, "menu"),
        w => panic!("expected an icon, got {w:?}"),
    }
}

#[test]
#[allow(non_snake_case)]
fn WHEN_createTitleIsCalled_THEN_aCenteredTitleIsCreated() {
    // WHEN create_title is called
    let width = 300;
    let height = 600;
    let content_height = 67;
    let mut top_bar = TopBar::new_empty(rect(0, 0, width, height));
    top_bar.create_title("Test Title".to_string());
    // THEN a centered Title is created
    assert_eq!(top_bar.children.len(), 1);
    assert_eq!(top_bar.children[0].rect(), rect(content_height, 0, width, content_height));
    assert!(matches!(top_bar.children[0], Widget::Label(..)));
}

#[test]
#[allow(non_snake_case)]
fn GIVEN_otherChildrenHaveBeenCreated_WHEN_createTitleIsCalled_THEN_aSmallerCenteredTitleIsCreated() {
    // GIVEN other children have been created
    let width = 300;
    let height = 600;
    let content_height = 67;
    let mut top_bar = TopBar::new_empty(rect(0, 0, width, height));
    top_bar.create_menu();
    // WHEN create_title is called
    top_bar.create_title("Test Title".to_string());
    // THEN a smaller centered Title is created
    assert_eq!(top_bar.children.len(), 2);
    assert_eq!(
        top_bar.children[1].rect(),
        rect(content_height, 0, width - content_height, content_height),
    );
    assert!(matches!(top_bar.children[1], Widget::Label(..)));
}

#[test]
#[allow(non_snake_case)]
fn WHEN_createBorderIsCalled_THEN_aLineIsCreated() {
    // WHEN create_border is called
    let width = 300;
    let height = 600;
    let content_height = 67;
    let border_thickness = 1;
    let mut top_bar = TopBar::new_empty(rect(0, 0, width, height));
    top_bar.create_border();
    // THEN a line is created
    assert_eq!(top_bar.children.len(), 1);
    assert_eq!(
        top_bar.children[0].rect(),
        rect(0, content_height, width, content_height + border_thickness),
    );
    assert!(matches!(top_bar.children[0], Widget::Filler(..)));
}

#[test]
#[allow(non_snake_case)]
fn WHEN_topbarNewIsCalled_THEN_aTopBarWithTheStandardChildrenIsCreated() {
    // WHEN TopBar::new() is called
    let battery = FakeBattery::new();
    let top_bar = TopBar::new(
        rect(0, 0, 600, 800),
        Event::Back,
        "Test Title".to_string(),
        "%H:%M".to_string(),
        &Fonts::new(),
        &battery,
        true,
    );
    // THEN a top bar with the standard children is created
    assert_eq!(
        lookup_pairs(&top_bar.children_lookup),
        vec![
            ("menu_action", 0usize),
            ("clock", 1usize),
            ("battery", 2usize),
            ("frontlight", 3usize),
            ("menu", 4usize),
            ("title", 5usize),
            ("border", 6usize),
        ],
    );
}

#[test]
#[allow(non_snake_case)]
fn GIVEN_aStandardTopBar_WHEN_updateFrontlightIconIsCalled_THEN_noneOfTheChildrenAreChanged() {
    // GIVEN a standard TopBar
    let battery = FakeBattery::new();
    let mut top_bar = TopBar::new(
        rect(0, 0, 600, 800),
        Event::Back,
        "Test Title".to_string(),
        "%H:%M".to_string(),
        &Fonts::new(),
        &battery,
        true,
    );
    let mut rq = RenderQueue::new();
    // WHEN update_frontlight_icon is called
    top_bar.context_free_update_frontlight_icon(&mut rq, true);
    // THEN none of the children are changed
    assert_eq!(
        lookup_pairs(&top_bar.children_lookup),
        vec![
            ("menu_action", 0usize),
            ("clock", 1usize),
            ("battery", 2usize),
            ("frontlight", 3usize),
            ("menu", 4usize),
            ("title", 5usize),
            ("border", 6usize),
        ],
    );
    match &top_bar.children[0] {
        Widget::Icon(icon) => assert_eq!(icon.name, "back"),
        w => panic!("expected an icon, got {w:?}"),
    }
    assert!(matches!(top_bar.children[1], Widget::Clock(..)));
    assert!(matches!(top_bar.children[2], Widget::Battery(..)));
    match &top_bar.children[3] {
        Widget::Icon(icon) => assert_eq!(icon.name, "frontlight"),
        w => panic!("expected an icon, got {w:?}"),
    }
    match &top_bar.children[4] {
        Widget::Icon(icon) => assert_eq!(icon.name, "menu"),
        w => panic!("expected an icon, got {w:?}"),
    }
}

#[test]
#[allow(non_snake_case)]
fn WHEN_createLabelIsCalled_THEN_aLeftAlignedLabelIsCreated() {
    // WHEN create_label is called with Search Event
    let width = 300;
    let height = 67;
    let mut fave = Fave::new_empty(rect(0, 0, width, height), 0);
    fave.create_label("Fake Fave".to_string(), Event::Toggle(ViewId::SearchBar));
    // THEN a left-aligned Label is created
    assert_eq!(fave.children.len(), 1);
    assert_eq!(fave.children[0].rect(), rect(0, 0, width, 56));
    assert!(matches!(fave.children[0], Widget::TextLabel(..)));
}

#[test]
#[allow(non_snake_case)]
fn WHEN_createBorderIsCalled_THEN_aFillerIsCreated() {
    // WHEN create_border is called
    let width = 300;
    let height = 67;
    let mut fave = Fave::new_empty(rect(0, 0, width, height), 0);
    fave.create_border();
    // THEN a Filler is created
    assert_eq!(fave.children.len(), 1);
    assert_eq!(fave.children[0].rect(), rect(0, 56, width, 57));
    assert!(matches!(fave.children[0], Widget::Filler(..)));
}

#[test]
#[allow(non_snake_case)]
fn WHEN_faveNewIsCalled_THEN_aFaveWithTheStandardChildrenIsCreated() {
    // WHEN Fave::new() is called
    let fave = Fave::new(
        rect(0, 0, 600, 800),
        5,
        "Test Fave".to_string(),
        Event::Toggle(ViewId::SearchBar),
    );
    // THEN a fave with the standard children is created
    assert_eq!(lookup_pairs(&fave.children_lookup), vec![("label", 0usize), ("border", 1usize)]);
}

fn standard_home() -> Home {
    let battery = FakeBattery::new();
    let mut rq = RenderQueue::new();
    Home::new(
        rect(0, 0, 600, 800),
        &mut rq,
        "%H:%M".to_string(),
        &Fonts::new(),
        &battery,
        true,
        true,
        &vec![("Test Fave".to_string(), "https://fakeo3.org/tags/super-fake".to_string())],
    )
}

#[test]
#[allow(non_snake_case)]
fn home_WHEN_createBackgroundIsCalled_THEN_aFullSizeWhiteRectangleIsAddedToChildren() {
    // WHEN create_background is called
    let mut home = Home::new_empty(rect(0, 0, 600, 800));
    home.create_background();
    // THEN a full size white rectangle is added to children
    assert_eq!(home.children.len(), 1);
    assert_eq!(home.children[0].rect(), rect(0, 0, 600, 800));
    assert!(matches!(home.children[0], Widget::Filler(..)));
}

#[test]
#[allow(non_snake_case)]
fn home_WHEN_createTopBarIsCalled_THEN_aTopBarIsAddedToChildren() {
    // WHEN create_top_bar is called
    let mut home = Home::new_empty(rect(0, 0, 600, 800));
    let battery = FakeBattery::new();
    home.create_top_bar("%H:%M".to_string(), &Fonts::new(), &battery, true);
    // THEN a top bar is added to children
    assert_eq!(home.children.len(), 1);
    assert_eq!(home.children[0].rect(), rect(0, 0, 600, 68));
    assert!(matches!(home.children[0], Widget::TopBar(..)));
}

#[test]
#[allow(non_snake_case)]
fn home_WHEN_createMarkedForLaterIsCalled_THEN_aMarkedForLaterLabelIsAddedToChildren() {
    // WHEN create_marked_for_later is called
    let mut home = Home::new_empty(rect(0, 0, 600, 800));
    home.create_marked_for_later(5);
    // THEN a marked for later label is added to children
    assert_eq!(home.children.len(), 1);
    assert_eq!(home.children[0].rect(), rect(0, 5, 600, 62));
    assert!(matches!(home.children[0], Widget::Fave(..)));
}

#[test]
#[allow(non_snake_case)]
fn tests_WHEN_createBackgroundIsCalled_THEN_aFullSizeWhiteRectangleIsAddedToChildren() {
    let mut home = Home::new_empty(rect(0, 0, 600, 800));
    home.create_background();
    assert_eq!(home.children.len(), 1);
    assert_eq!(home.children[0].rect(), rect(0, 0, 600, 800));
    assert!(matches!(home.children[0], Widget::Filler(..)));
}

#[test]
#[allow(non_snake_case)]
fn tests_WHEN_createTopBarIsCalled_THEN_aTopBarIsAddedToChildren() {
    let mut home = Home::new_empty(rect(0, 0, 600, 800));
    let battery = FakeBattery::new();
    home.create_top_bar("%H:%M".to_string(), &Fonts::new(), &battery, true);
    assert_eq!(home.children.len(), 1);
    assert_eq!(home.children[0].rect(), rect(0, 0, 600, 68));
    assert!(matches!(home.children[0], Widget::TopBar(..)));
}

#[test]
#[allow(non_snake_case)]
fn tests_WHEN_createMarkedForLaterIsCalled_THEN_aMarkedForLaterLabelIsAddedToChildren() {
    let mut home = Home::new_empty(rect(0, 0, 600, 800));
    home.create_marked_for_later(5);
    assert_eq!(home.children.len(), 1);
    assert_eq!(home.children[0].rect(), rect(0, 5, 600, 62));
    assert!(matches!(home.children[0], Widget::Fave(..)));
}

#[test]
#[allow(non_snake_case)]
fn tests_WHEN_createFaveSearchIsCalled_THEN_aFaveLabelIsAddedToChildren() {
    // WHEN create_fav_search is called
    let mut home = Home::new_empty(rect(0, 0, 600, 800));
    home.create_fav_search(
        "Test Fave".to_string(),
        "https://fakeo3.org/tags/super-fake".to_string(),
        5,
    );
    // THEN a fave label is added to children
    assert_eq!(home.children.len(), 1);
    assert_eq!(home.children[0].rect(), rect(0, 5, 600, 62));
    assert!(matches!(home.children[0], Widget::Fave(..)));
}

#[test]
#[allow(non_snake_case)]
fn tests_GIVEN_loggedInUser_WHEN_homeNewIsCalled_THEN_aHomePageWithTheStandardChildrenPlusMarkedForLaterIsCreated() {
    // WHEN Home::new() is called
    let home = standard_home();
    // THEN a home with the standard children plus a marked for later fave
    assert_eq!(locate(&home.children, WidgetKind::Filler).unwrap(), 0);
    assert_eq!(locate(&home.children, WidgetKind::TopBar).unwrap(), 1);
    assert_eq!(locate(&home.children, WidgetKind::Fave).unwrap(), 2); // marked for later
    assert_eq!(rlocate(&home.children, WidgetKind::Fave).unwrap(), 3); // test fave
    assert_eq!(rlocate(&home.children, WidgetKind::BottomBar).unwrap(), 5);
}

#[test]
#[allow(non_snake_case)]
fn tests_WHEN_openSearchBarIsCalled_THEN_aSearchBarAndAKeyboardAreCreated() {
    let mut home = standard_home();
    let mut rq = RenderQueue::new();
    // WHEN open_search_bar() is called
    home.open_search_bar("test_keyboard".to_string(), &mut rq);
    // THEN a search bar and keyboard are created
    assert_eq!(locate(&home.children, WidgetKind::SearchBar).unwrap(), 4);
    assert_eq!(locate(&home.children, WidgetKind::Keyboard).unwrap(), 5);
    assert_eq!(rlocate(&home.children, WidgetKind::BottomBar).unwrap(), 7);
}

#[test]
#[allow(non_snake_case)]
fn tests_GIVEN_anOpenSearchBar_WHEN_closeSearchBarIsCalled_THEN_noSearchBarExists() {
    // GIVEN an open search bar
    let mut home = standard_home();
    let mut rq = RenderQueue::new();
    home.open_search_bar("test_keyboard".to_string(), &mut rq);
    // WHEN close_search_bar is called
    home.close_search_bar(&mut rq);
    // THEN no search bar exists
    assert_eq!(locate(&home.children, WidgetKind::SearchBar), None);
    assert_eq!(locate(&home.children, WidgetKind::Keyboard), None);
    assert_eq!(rlocate(&home.children, WidgetKind::BottomBar).unwrap(), 5);
}

#[test]
#[allow(non_snake_case)]
fn tests_WHEN_handleSearchEventsIsCalledWithEventToggleSearchBar_THEN_aSearchBarAndAKeyboardAreCreated() {
    let mut home = standard_home();
    let mut rq = RenderQueue::new();
    let mut hub: Vec<Event> = Vec::new();
    // WHEN handle_search_events is called with Event::Toggle(ViewId::SearchBar)
    home.handle_search_events(
        &Event::Toggle(ViewId::SearchBar),
        "test_keyboard".to_string(),
        &mut rq,
        &mut hub,
    );
    // THEN a search bar and keyboard are created
    assert_eq!(locate(&home.children, WidgetKind::SearchBar).unwrap(), 4);
    assert_eq!(locate(&home.children, WidgetKind::Keyboard).unwrap(), 5);
    assert_eq!(rlocate(&home.children, WidgetKind::BottomBar).unwrap(), 7);
}

#[test]
#[allow(non_snake_case)]
fn tests_GIVEN_anOpenSearchBar_WHEN_handleSearchEventsIsCalledWithEventToggleSearchBar_THEN_noSearchBarExists() {
    // GIVEN an open search bar
    let mut home = standard_home();
    let mut rq = RenderQueue::new();
    home.open_search_bar("test_keyboard".to_string(), &mut rq);
    let mut hub: Vec<Event> = Vec::new();
    // WHEN handle_search_events is called with Event::Toggle(ViewId::SearchBar)
    home.handle_search_events(
        &Event::Toggle(ViewId::SearchBar),
        "test_keyboard".to_string(),
        &mut rq,
        &mut hub,
    );
    // THEN no search bar exists
    assert_eq!(locate(&home.children, WidgetKind::SearchBar), None);
    assert_eq!(locate(&home.children, WidgetKind::Keyboard), None);
    assert_eq!(rlocate(&home.children, WidgetKind::BottomBar).unwrap(), 5);
}

#[test]
#[allow(non_snake_case)]
fn tests_GIVEN_anOpenSearchBar_WHEN_handleSearchEventsIsCalledWithEventCloseSearchBar_THEN_noSearchBarExists() {
    // GIVEN an open search bar
    let mut home = standard_home();
    let mut rq = RenderQueue::new();
    home.open_search_bar("test_keyboard".to_string(), &mut rq);
    let mut hub: Vec<Event> = Vec::new();
    // WHEN handle_search_events is called with Event::Close(ViewId::SearchBar)
    home.handle_search_events(
        &Event::Close(ViewId::SearchBar),
        "test_keyboard".to_string(),
        &mut rq,
        &mut hub,
    );
    // THEN no search bar exists
    assert_eq!(locate(&home.children, WidgetKind::SearchBar), None);
    assert_eq!(locate(&home.children, WidgetKind::Keyboard), None);
    assert_eq!(rlocate(&home.children, WidgetKind::BottomBar).unwrap(), 5);
}

#[test]
#[allow(non_snake_case)]
fn tests_GIVEN_anOpenSearchBar_WHEN_handleSearchEventsIsCalledWithEventSubmitSiteTextSearchInput_THEN_noSearchBarExists_AND_anEventLoadSearchWasSent() {
    // GIVEN an open search bar
    let mut home = standard_home();
    let mut rq = RenderQueue::new();
    home.open_search_bar("test_keyboard".to_string(), &mut rq);
    let mut hub: Vec<Event> = Vec::new();
    // WHEN handle_search_events is called with Event::Submit(ViewId::SiteTextSearchInput)
    home.handle_search_events(
        &Event::Submit(ViewId::SiteTextSearchInput, "fake_search".to_string()),
        "test_keyboard".to_string(),
        &mut rq,
        &mut hub,
    );
    // THEN no search bar exists
    assert_eq!(locate(&home.children, WidgetKind::SearchBar), None);
    assert_eq!(locate(&home.children, WidgetKind::Keyboard), None);
    assert_eq!(rlocate(&home.children, WidgetKind::BottomBar).unwrap(), 5);
    // AND an Event::LoadSearch was sent
    match hub.first() {
        Some(Event::LoadSearch(search_text)) => assert_eq!(search_text, "fake_search"),
        Some(event) => panic!("Received {event:?} but expected Event::LoadSearch"),
        None => panic!("Did not receive any event"),
    }
}

#[test]
#[allow(non_snake_case)]
fn tests_GIVEN_anOpenSearchBar_WHEN_handleSearchEventsIsCalledWithEventSubmitSiteTextSearchInput_THEN_anEventSubmitInputWasSent() {
    // GIVEN an open search bar
    let mut home = standard_home();
    let mut rq = RenderQueue::new();
    home.open_search_bar("test_keyboard".to_string(), &mut rq);
    let mut hub: Vec<Event> = Vec::new();
    // WHEN handle_search_events is called with Event::ToggleNear(ViewId::SearchMenu)
    home.handle_search_events(
        &Event::ToggleNear(ViewId::SearchMenu, rect(0, 0, 1, 1)),
        "test_keyboard".to_string(),
        &mut rq,
        &mut hub,
    );
    // THEN an Event::SubmitInput(ViewId::SiteTextSearchInput) was sent
    match hub.first() {
        Some(Event::SubmitInput(view_id)) => assert_eq!(*view_id, ViewId::SiteTextSearchInput),
        Some(event) => panic!("Received {event:?} but expected Event::SubmitInput"),
        None => panic!("Did not receive any event"),
    }
}

#[test]
#[allow(non_snake_case)]
fn tests_GIVEN_anOpenSearchBar_WHEN_handleSearchEventsIsCalledWithEventFocus_THEN_focusWillBeOnThatView() {
    // GIVEN an open search bar
    let mut home = standard_home();
    let mut rq = RenderQueue::new();
    home.open_search_bar("test_keyboard".to_string(), &mut rq);
    let mut hub: Vec<Event> = Vec::new();
    // WHEN handle_search_events is called with Event::Focus(ViewId::SearchMenu)
    home.handle_search_events(
        &Event::Focus(Some(ViewId::SearchMenu)),
        "test_keyboard".to_string(),
        &mut rq,
        &mut hub,
    );
    // THEN focus will be on that view
    assert_eq!(home.focus, Some(ViewId::SearchMenu));
}

#[test]
#[allow(non_snake_case)]
fn home_WHEN_createFaveSearchIsCalled_THEN_aFaveLabelIsAddedToChildren() {
    tests_WHEN_createFaveSearchIsCalled_THEN_aFaveLabelIsAddedToChildren();
}

#[test]
#[allow(non_snake_case)]
fn home_GIVEN_loggedInUser_WHEN_homeNewIsCalled_THEN_aHomePageWithTheStandardChildrenPlusMarkedForLaterIsCreated() {
    tests_GIVEN_loggedInUser_WHEN_homeNewIsCalled_THEN_aHomePageWithTheStandardChildrenPlusMarkedForLaterIsCreated();
}

#[test]
#[allow(non_snake_case)]
fn home_WHEN_openSearchBarIsCalled_THEN_aSearchBarAndAKeyboardAreCreated() {
    tests_WHEN_openSearchBarIsCalled_THEN_aSearchBarAndAKeyboardAreCreated();
}

#[test]
#[allow(non_snake_case)]
fn home_GIVEN_anOpenSearchBar_WHEN_closeSearchBarIsCalled_THEN_noSearchBarExists() {
    tests_GIVEN_anOpenSearchBar_WHEN_closeSearchBarIsCalled_THEN_noSearchBarExists();
}

#[test]
#[allow(non_snake_case)]
fn home_WHEN_handleSearchEventsIsCalledWithEventToggleSearchBar_THEN_aSearchBarAndAKeyboardAreCreated() {
    tests_WHEN_handleSearchEventsIsCalledWithEventToggleSearchBar_THEN_aSearchBarAndAKeyboardAreCreated();
}

#[test]
#[allow(non_snake_case)]
fn home_GIVEN_anOpenSearchBar_WHEN_handleSearchEventsIsCalledWithEventToggleSearchBar_THEN_noSearchBarExists() {
    tests_GIVEN_anOpenSearchBar_WHEN_handleSearchEventsIsCalledWithEventToggleSearchBar_THEN_noSearchBarExists();
}

#[test]
#[allow(non_snake_case)]
fn home_GIVEN_anOpenSearchBar_WHEN_handleSearchEventsIsCalledWithEventCloseSearchBar_THEN_noSearchBarExists() {
    tests_GIVEN_anOpenSearchBar_WHEN_handleSearchEventsIsCalledWithEventCloseSearchBar_THEN_noSearchBarExists();
}

#[test]
#[allow(non_snake_case)]
fn home_GIVEN_anOpenSearchBar_WHEN_handleSearchEventsIsCalledWithEventSubmitSiteTextSearchInput_THEN_noSearchBarExists_AND_anEventLoadSearchWasSent() {
    tests_GIVEN_anOpenSearchBar_WHEN_handleSearchEventsIsCalledWithEventSubmitSiteTextSearchInput_THEN_noSearchBarExists_AND_anEventLoadSearchWasSent();
}

#[test]
#[allow(non_snake_case)]
fn home_GIVEN_anOpenSearchBar_WHEN_handleSearchEventsIsCalledWithEventSubmitSiteTextSearchInput_THEN_anEventSubmitInputWasSent() {
    tests_GIVEN_anOpenSearchBar_WHEN_handleSearchEventsIsCalledWithEventSubmitSiteTextSearchInput_THEN_anEventSubmitInputWasSent();
}

#[test]
#[allow(non_snake_case)]
fn home_GIVEN_anOpenSearchBar_WHEN_handleSearchEventsIsCalledWithEventFocus_THEN_focusWillBeOnThatView() {
    tests_GIVEN_anOpenSearchBar_WHEN_handleSearchEventsIsCalledWithEventFocus_THEN_focusWillBeOnThatView();
}
