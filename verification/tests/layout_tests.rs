//! Dynamic layouts: visible and hidden sections.

use treemd::layout::{Constraint, DynamicLayout, Rect};

#[test]
fn test_all_sections_visible() {
    let area = Rect::new(0, 0, 100, 50);
    let layout = DynamicLayout::vertical(area)
        .section("header", Constraint::Length(2))
        .section("content", Constraint::Min(0))
        .section("footer", Constraint::Length(1))
        .build();

    assert!(layout.get("header").is_some());
    assert!(layout.get("content").is_some());
    assert!(layout.get("footer").is_some());
}

#[test]
fn test_conditional_section_hidden() {
    let area = Rect::new(0, 0, 100, 50);
    let layout = DynamicLayout::vertical(area)
        .section("header", Constraint::Length(2))
        .section_if(false, "search", Constraint::Length(3))
        .section("content", Constraint::Min(0))
        .build();

    assert!(layout.get("header").is_some());
    assert!(layout.get("search").is_none());
    assert!(layout.get("content").is_some());
}

#[test]
fn test_conditional_section_visible() {
    let area = Rect::new(0, 0, 100, 50);
    let layout = DynamicLayout::vertical(area)
        .section("header", Constraint::Length(2))
        .section_if(true, "search", Constraint::Length(3))
        .section("content", Constraint::Min(0))
        .build();

    assert!(layout.get("header").is_some());
    assert!(layout.get("search").is_some());
    assert!(layout.get("content").is_some());
}

#[test]
fn test_horizontal_layout_covers_area() {
    let area = Rect::new(0, 0, 80, 24);
    let layout = DynamicLayout::horizontal(area)
        .section("outline", Constraint::Length(30))
        .section("content", Constraint::Min(0))
        .build();

    let outline = layout.require("outline");
    let content = layout.require("content");
    assert_eq!(outline.width, 30);
    assert_eq!(outline.x, 0);
    assert_eq!(content.x, 30);
    assert_eq!(content.width, 50);
}
