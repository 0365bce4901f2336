use vstd::prelude::*;
use crate::geom::{Rectangle, Point, rect_roomy};
use crate::view::{Id, Event, ViewId, Widget, SMALL_BAR_HEIGHT, THICKNESS_MEDIUM};
use crate::view::icon::Icon;
use crate::view::filler::Filler;
use crate::view::input_field::InputField;
use crate::unit::{scale_by_dpi, DISPLAY_DPI};
use crate::color::{BLACK, SEPARATOR_NORMAL, TEXT_BUMP_SMALL_BG};

verus! {

/// The search entry bar: a search icon, the input field, a close button,
/// and separators between them.
#[derive(Debug)]
pub struct SearchBar {
    pub id: Id,
    pub rect: Rectangle,
    pub children: Vec<Widget>,
}

impl SearchBar {
    pub open spec fn wf(&self) -> bool {
        crate::geom::rect_bounded(self.rect, 16200000)
    }

    /// An empty bar, bottom-aligned in the available space.
    pub fn new_empty(availible_space: Rectangle) -> (r: SearchBar)
        requires
            rect_roomy(availible_space),
            availible_space.spec_height() >= 68,
        ensures
            r.wf(),
            r.id == 0,
            r.rect == (Rectangle {
                min: Point {
                    x: availible_space.min.x,
                    y: (availible_space.max.y - 68) as i32,
                },
                max: availible_space.max,
            }),
            r.children@.len() == 0,
    {
        let small_height = scale_by_dpi(SMALL_BAR_HEIGHT, DISPLAY_DPI);
        let thickness = scale_by_dpi(THICKNESS_MEDIUM, DISPLAY_DPI);
        let bar_height = small_height + thickness;
        SearchBar {
            id: 0,
            children: Vec::new(),
            rect: Rectangle {
                min: Point {
                    x: availible_space.min.x,
                    y: availible_space.max.y - bar_height,
                },
                max: availible_space.max,
            },
        }
    }

    /// The full bar: search icon, separator, input field, separator, close
    /// button, and a line along the top edge.
    pub fn new(availible_space: Rectangle, input_id: ViewId, placeholder: &str) -> (r: SearchBar)
        requires
            rect_roomy(availible_space),
            availible_space.spec_height() >= 68,
        ensures
            r.wf(),
            r.rect == (Rectangle {
                min: Point {
                    x: availible_space.min.x,
                    y: (availible_space.max.y - 68) as i32,
                },
                max: availible_space.max,
            }),
            r.children@.len() == 6,
            r.children@[0] is Icon,
            r.children@[0]->Icon_0.name@ == "search"@,
            r.children@[1] is Filler,
            r.children@[2] is InputField,
            r.children@[2]->InputField_0.input_id == input_id,
            r.children@[2]->InputField_0.placeholder@ == placeholder@,
            r.children@[3] is Filler,
            r.children@[4] is Icon,
            r.children@[4]->Icon_0.name@ == "close"@,
            r.children@[5] is Filler,
    {
        let mut search_bar = SearchBar::new_empty(availible_space);
        let thickness = scale_by_dpi(THICKNESS_MEDIUM, DISPLAY_DPI);
        let side = search_bar.rect.max.y - search_bar.rect.min.y;
        let search_rect = Rectangle {
            min: search_bar.rect.min,
            max: Point {
                x: search_bar.rect.min.x + side,
                y: search_bar.rect.min.y + side,
            },
        };
        let search_icon = Icon::new(
            "search",
            search_rect,
            Event::ToggleNear(ViewId::SearchMenu, search_rect),
        ).background(TEXT_BUMP_SMALL_BG);
        search_bar.children.push(Widget::Icon(search_icon));
        let separator = Filler::new(
            Rectangle {
                min: Point { x: search_bar.rect.min.x + side, y: search_bar.rect.min.y },
                max: Point {
                    x: search_bar.rect.min.x + side + thickness,
                    y: search_bar.rect.max.y,
                },
            },
            SEPARATOR_NORMAL,
        );
        search_bar.children.push(Widget::Filler(separator));
        let input_field = InputField::new(
            Rectangle {
                min: Point {
                    x: search_bar.rect.min.x + side + thickness,
                    y: search_bar.rect.min.y,
                },
                max: Point {
                    x: search_bar.rect.max.x - side - thickness,
                    y: search_bar.rect.max.y,
                },
            },
            input_id,
        ).border(false).placeholder(placeholder);
        search_bar.children.push(Widget::InputField(input_field));
        let separator2 = Filler::new(
            Rectangle {
                min: Point {
                    x: search_bar.rect.max.x - side - thickness,
                    y: search_bar.rect.min.y,
                },
                max: Point { x: search_bar.rect.max.x - side, y: search_bar.rect.max.y },
            },
            SEPARATOR_NORMAL,
        );
        search_bar.children.push(Widget::Filler(separator2));
        let close_icon = Icon::new(
            "close",
            Rectangle {
                min: Point { x: search_bar.rect.max.x - side, y: search_bar.rect.min.y },
                max: search_bar.rect.max,
            },
            Event::Close(ViewId::SearchBar),
        ).background(TEXT_BUMP_SMALL_BG);
        search_bar.children.push(Widget::Icon(close_icon));
        let separator3 = Filler::new(
            Rectangle {
                min: Point { x: search_bar.rect.min.x, y: search_rect.min.y },
                max: Point {
                    x: search_bar.rect.max.x,
                    y: search_rect.min.y + thickness,
                },
            },
            BLACK,
        );
        search_bar.children.push(Widget::Filler(separator3));
        search_bar
    }
}

} // verus!
