use ao3reader_core::ceil;
use ao3reader_core::geom::{rect, Point, Rectangle, halves};
use ao3reader_core::helpers::{decode_entities, usize_to_string, unicode_split};
use ao3reader_core::html::{Link, list_to_str};
use ao3reader_core::http::Credentials;
use ao3reader_core::metadata::{str_to_usize, Rating, Category, Warning, RequiredTags};
use ao3reader_core::settings::{
    IntermKind, Hook, LibrarySettings, HomeSettings, RefreshRateSettings, LibraryMode, SortMethod,
    FirstColumn, SecondColumn,
};
use ao3reader_core::unit::{scale_by_dpi, mm_to_px, DISPLAY_DPI};
use ao3reader_core::view::works_label::WorksLabel;
use ao3reader_core::view::overlay::{row_calc, Overlay, Chapters, Chapter};
use ao3reader_core::view::ViewId;

#[test]
fn test_entities() {
    assert_eq!(decode_entities("a &amp b"), "a &amp b");
    assert_eq!(decode_entities("a &zZz; b"), "a &zZz; b");
    assert_eq!(decode_entities("a &amp; b"), "a & b");
    assert_eq!(decode_entities("a &#x003E; b"), "a > b");
    assert_eq!(decode_entities("a &#38; b"), "a & b");
    assert_eq!(decode_entities("a &lt; b &gt; c"), "a < b > c");
}

#[test]
fn ceil_rounds_division_up() {
    assert_eq!(ceil(10, 5), 2);
    assert_eq!(ceil(11, 5), 3);
    assert_eq!(ceil(0, 7), 0);
    assert_eq!(ceil(1, 7), 1);
}

#[test]
fn halves_sum_back() {
    assert_eq!(halves(5), (2, 3));
    assert_eq!(halves(4), (2, 2));
    assert_eq!(halves(0), (0, 0));
}

#[test]
fn scaling_follows_the_reference_density() {
    assert_eq!(scale_by_dpi(126, DISPLAY_DPI), 67);
    assert_eq!(scale_by_dpi(105, DISPLAY_DPI), 56);
    assert_eq!(scale_by_dpi(2, DISPLAY_DPI), 1);
    assert_eq!(mm_to_px(6, 300), 70);
}

#[test]
fn numbers_with_thousands_separators_parse() {
    assert_eq!(str_to_usize("1,234".to_string()), 1234);
    assert_eq!(str_to_usize("987".to_string()), 987);
    assert_eq!(str_to_usize("12x".to_string()), 0);
    assert_eq!(str_to_usize("".to_string()), 0);
    assert_eq!(str_to_usize("99999999999999999999999999".to_string()), 0);
}

#[test]
fn decimal_formatting_matches() {
    assert_eq!(usize_to_string(0), "0");
    assert_eq!(usize_to_string(7), "7");
    assert_eq!(usize_to_string(9015), "9015");
}

#[test]
fn unicode_split_cuts_at_character_index() {
    let (a, b) = unicode_split("hello", 2);
    assert_eq!(a, "he");
    assert_eq!(b, "llo");
}

#[test]
fn link_titles_join_with_the_separator() {
    let list = vec![
        Link { title: "alpha".to_string(), location: "/a".to_string() },
        Link { title: "beta".to_string(), location: "/b".to_string() },
    ];
    assert_eq!(list_to_str(&list, ", "), "alpha, beta");
    assert_eq!(list_to_str(&Vec::new(), ", "), "");
}

#[test]
fn required_tags_read_their_markers() {
    let data = "rating-mature\nwarning-no\ncategory-gen\ncomplete-yes\n".to_string();
    let tags = RequiredTags::new(data);
    assert_eq!(tags.rating, Rating::Mature);
    assert_eq!(tags.warnings, Warning::No);
    assert_eq!(tags.category, Category::Gen);
    assert!(tags.complete);
}

#[test]
fn required_tags_default_on_missing_or_unknown_markers() {
    let tags = RequiredTags::new("nothing recognizable".to_string());
    assert_eq!(tags, RequiredTags::default());
    // A capture running to the end of the line swallows trailing words, as
    // the class attribute of real markup does.
    let tags2 = RequiredTags::new("rating-general-audience rating".to_string());
    assert_eq!(tags2.rating, Rating::NotRated);
}

#[test]
fn interm_kind_labels() {
    assert_eq!(IntermKind::Suspend.text(), "Sleeping");
    assert_eq!(IntermKind::PowerOff.text(), "Powered off");
    assert_eq!(IntermKind::Share.text(), "Shared");
}

#[test]
fn settings_defaults() {
    let hook = Hook::default();
    assert_eq!(hook.path, "");
    assert_eq!(hook.sort_method, None);
    let lib = LibrarySettings::default();
    assert_eq!(lib.name, "Unnamed");
    assert_eq!(lib.mode, LibraryMode::Database);
    assert_eq!(lib.sort_method, SortMethod::Opened);
    assert_eq!(lib.first_column, FirstColumn::TitleAndAuthor);
    assert_eq!(lib.second_column, SecondColumn::Progress);
    assert!(lib.thumbnail_previews);
    let home = HomeSettings::default();
    assert!(!home.address_bar);
    assert!(home.navigation_bar);
    assert_eq!(home.max_levels, 3);
    let rr = RefreshRateSettings::default();
    assert_eq!(rr.global.regular, 8);
    assert_eq!(rr.global.inverted, 2);
}

#[test]
fn credentials_default_and_completeness() {
    let creds = Credentials::default();
    assert!(!creds.is_complete());
    let full = Credentials {
        username: Some("reader".to_string()),
        password: Some("secret".to_string()),
    };
    assert!(full.is_complete());
}

#[test]
fn works_label_text_tiers() {
    let label = WorksLabel::new(rect(0, 0, 300, 56), 1, 25, 10);
    assert_eq!(label.text(0), "10 - 20 of 25 works");
    assert_eq!(label.text(1), "10 - 20 of 25");
    assert_eq!(label.text(2), "10 - 20");
    let clamped = WorksLabel::new(rect(0, 0, 300, 56), 2, 25, 10);
    assert_eq!(clamped.text(0), "20 - 25 of 25 works");
    let empty = WorksLabel::new(rect(0, 0, 300, 56), 0, 0, 10);
    assert_eq!(empty.text(0), "No works");
}

#[test]
fn overlay_msg_rect_and_pager() {
    let mut overlay = Overlay::new(ViewId::Overlay, 600, 800);
    assert_eq!(overlay.rect, rect(6, 70, 594, 663));
    assert_eq!(overlay.msg_rect(), rect(9, 137, 591, 596));
    assert!(overlay.is_prev_disabled && overlay.is_next_disabled);
    overlay.set_max(3);
    assert!(overlay.is_prev_disabled);
    assert!(!overlay.is_next_disabled);
}

#[test]
fn chapter_rows_fill_the_message_area() {
    let r: Rectangle = rect(0, 0, 500, 559);
    assert_eq!(row_calc(r), 10);
    let entries = vec![
        Chapter { title: "One".to_string(), location: "/ch/1".to_string() },
        Chapter { title: "Two".to_string(), location: "/ch/2".to_string() },
    ];
    let mut chapters = Chapters::new(entries, 600, 800);
    chapters.update_chapters();
    // One leading separator per row, its label, and a closing separator.
    assert_eq!(chapters.children.len(), 2 + 2 * 2);
}

#[test]
fn points_and_rects_compare_by_fields() {
    assert_eq!(Point { x: 1, y: 2 }, Point { x: 1, y: 2 });
    let r = rect(0, 1, 2, 3);
    assert_eq!(r.min, Point { x: 0, y: 1 });
    assert_eq!(r.max, Point { x: 2, y: 3 });
}
