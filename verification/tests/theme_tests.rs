use seeker::config::{SeekerConfig, Theme};
use seeker::render::{column_row_labels, RowLabel};
use seeker::file::{File, Level};
use seeker::states::{
    SeekerFileDialogFnState, SeekerHomeSubFnState, SeekerHomeSubLoadState, SeekerNewFolderState,
    SeekerState,
};
use seeker::store::Project;
use seeker::theme::{get_project_name_short, press_colors, project_row_labels, style_for, Rgb,
    SeekerColors, SeekerResource};

#[test]
fn palette_matches_the_home_screen_colors() {
    let c = SeekerColors::new();
    assert_eq!(c.home_menu, Rgb { r: 43, g: 45, b: 48 });
    assert_eq!(c.project_list, Rgb { r: 30, g: 31, b: 34 });
    assert_eq!(c.home_hovered, Rgb { r: 50, g: 66, b: 107 });
    assert_eq!(c.button_border, Rgb { r: 79, g: 81, b: 86 });
    assert_eq!(c.home_font_color, Rgb { r: 218, g: 220, b: 224 });
    assert_eq!(SeekerResource::new().colors, c);
}

#[test]
fn style_highlights_hovered_or_pressed_buttons() {
    let c = SeekerColors::new();
    assert_eq!(style_for(false, false, &c), None);
    assert_eq!(style_for(true, false, &c), Some(c.home_hovered));
    assert_eq!(style_for(false, true, &c), Some(c.home_hovered));
}

#[test]
fn press_clears_every_other_button() {
    let c = SeekerColors::new();
    let ids = vec![10u64, 11, 12];
    let colors = press_colors(&ids, 11, &c);
    assert_eq!(colors, vec![None, Some(c.home_hovered), None]);
}

#[test]
fn project_monogram_is_uppercased_prefix() {
    assert_eq!(get_project_name_short("seeker"), "SE");
    assert_eq!(get_project_name_short("x"), "X");
    assert_eq!(get_project_name_short(""), "");
    assert_eq!(get_project_name_short("abc def"), "AB");
}

#[test]
fn project_rows_carry_monogram_name_and_path() {
    let projects = vec![
        Project { project_name: "seeker".to_string(), path: "/work/seeker".to_string() },
        Project { project_name: "x".to_string(), path: "/work/x".to_string() },
    ];
    let rows = project_row_labels(&projects);
    assert_eq!(rows.len(), 2);
    assert_eq!(rows[0].monogram, "SE");
    assert_eq!(rows[0].name, "seeker");
    assert_eq!(rows[0].path, "/work/seeker");
    assert_eq!(rows[1].monogram, "X");
}

#[test]
fn config_defaults_to_dark_theme() {
    let cfg = SeekerConfig::default();
    assert_eq!(cfg.window_theme, Theme::Dark);
    assert_eq!(cfg.colors.background, Rgb { r: 0, g: 0, b: 0 });
    let light = SeekerConfig::with_theme(Theme::Light);
    assert_eq!(light.colors.background, Rgb { r: 255, g: 255, b: 255 });
}

#[test]
fn states_default_to_their_idle_values() {
    assert_eq!(SeekerState::default(), SeekerState::Home);
    assert_eq!(SeekerHomeSubFnState::default(), SeekerHomeSubFnState::Idle);
    assert_eq!(SeekerFileDialogFnState::default(), SeekerFileDialogFnState::Closed);
    assert_eq!(SeekerNewFolderState::default(), SeekerNewFolderState::Closed);
    assert_eq!(SeekerHomeSubLoadState::default(), SeekerHomeSubLoadState::Loading);
}

#[test]
fn row_labels_truncate_by_row_kind() {
    let mk = |name: &str, is_dir: bool| File {
        path: format!("/r/{name}"),
        filename: name.to_string(),
        is_dir,
        root_entity: 1,
        level: Level::new(1),
    };
    let files = vec![
        mk("a_very_long_filename_example.txt", true),
        mk("a_very_long_filename_example.txt", false),
        mk("short.txt", false),
    ];
    let labels: Vec<RowLabel> = column_row_labels(&files);
    assert_eq!(labels.len(), 3);
    // Directory rows truncate to 20 cells, file rows to 23.
    assert_eq!(labels[0].text, "a_very...example.txt");
    assert!(labels[0].is_dir);
    assert_eq!(labels[1].text, "a_very_l..._example.txt");
    assert!(!labels[1].is_dir);
    assert_eq!(labels[2].text, "short.txt");
}
